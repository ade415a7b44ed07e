use vstd::prelude::*;

use crate::builder::AppModBuilder;
use crate::config::{cfg_lookup, getter_frame, AppModConfigGetter};
use crate::error::MajordomeError;
use crate::module::AppModInitOptions;
use crate::strings::{create_key_spec, dec_str, join_spec, u64_to_string, upper_of};

verus! {

/// Resolved configuration of the database module: singleton identity is
/// structural equality of this value.
#[derive(Debug, Clone, Hash)]
pub struct ScyllaDBConfig {
    pub hosts: Vec<String>,
    pub keyspace: String,
    pub auth: Option<ScyllaAuth>,
}

#[derive(Debug, Clone, Hash)]
pub struct ScyllaAuth {
    pub username: String,
    pub password: String,
}

/// `parts` is the comma-split of `s`: comma-free parts that, joined with
/// commas, give `s` back. This determines the split uniquely.
pub open spec fn is_comma_split(s: Seq<char>, parts: Seq<Seq<char>>) -> bool {
    &&& parts.len() >= 1
    &&& join_spec(parts, seq![',']) == s
    &&& forall|i: int| 0 <= i < parts.len() ==> !#[trigger] parts[i].contains(',')
}

/// Split a string at commas. An empty string yields one empty part.
pub fn split_commas(s: &str) -> (r: Vec<String>)
    ensures
        is_comma_split(s@, r@.map_values(|p: String| p@)),
{
    let n = s.unicode_len();
    let mut parts: Vec<String> = Vec::new();
    let mut seg_start: usize = 0;
    let mut i: usize = 0;
    proof {
        reveal_strlit(",");
        assert(","@ =~= seq![',']);
    }
    while i < n
        invariant
            n == s@.len(),
            seg_start <= i <= n,
            parts@.len() == 0 ==> seg_start == 0,
            parts@.len() > 0 ==> join_spec(parts@.map_values(|p: String| p@), seq![','])
                + seq![','] == s@.take(seg_start as int),
            forall|j: int| 0 <= j < parts@.len() ==> !(#[trigger] parts@[j])@.contains(','),
            forall|j: int| seg_start <= j < i ==> s@[j] != ',',
        decreases n - i,
    {
        let c = s.get_char(i);
        if c == ',' {
            let seg = s.substring_char(seg_start, i).to_owned();
            proof {
                let ghost pviews = parts@.map_values(|p: String| p@);
                assert(!seg@.contains(',')) by {
                    if seg@.contains(',') {
                        let ix = choose|ix: int| 0 <= ix < seg@.len() && seg@[ix] == ',';
                        assert(s@[seg_start + ix] == ',');
                    }
                }
                crate::strings::lemma_join_push(pviews, seq![','], seg@);
                assert(pviews.push(seg@) =~= parts@.push(seg).map_values(|p: String| p@));
                if parts@.len() == 0 {
                    assert(join_spec(pviews.push(seg@), seq![',']) == seg@);
                    assert(seg@ + seq![','] =~= s@.take(i as int + 1));
                } else {
                    assert((join_spec(pviews, seq![',']) + seq![','] + seg@) + seq![','] =~= s@.take(
                        i as int + 1,
                    ));
                }
            }
            parts.push(seg);
            seg_start = i + 1;
        }
        i = i + 1;
    }
    let seg = s.substring_char(seg_start, n).to_owned();
    proof {
        let ghost pviews = parts@.map_values(|p: String| p@);
        assert(!seg@.contains(',')) by {
            if seg@.contains(',') {
                let ix = choose|ix: int| 0 <= ix < seg@.len() && seg@[ix] == ',';
                assert(s@[seg_start + ix] == ',');
            }
        }
        crate::strings::lemma_join_push(pviews, seq![','], seg@);
        assert(pviews.push(seg@) =~= parts@.push(seg).map_values(|p: String| p@));
        if parts@.len() == 0 {
            assert(seg@ =~= s@);
        } else {
            assert(join_spec(pviews, seq![',']) + seq![','] + seg@ =~= s@);
        }
    }
    parts.push(seg);
    proof {
        let ghost pviews = parts@.map_values(|p: String| p@);
        assert forall|j: int| 0 <= j < pviews.len() implies !#[trigger] pviews[j].contains(
            ',',
        ) by {
            assert(pviews[j] == parts@[j]@);
        }
    }
    parts
}

/// Build the database configuration from the raw configured values: the
/// comma-split host list, the keyspace, and credentials exactly when both
/// a username and a password were configured.
pub fn scylla_config_from(
    hosts: &str,
    keyspace: String,
    username: Option<String>,
    password: Option<String>,
) -> (r: ScyllaDBConfig)
    ensures
        is_comma_split(hosts@, r.hosts@.map_values(|p: String| p@)),
        r.keyspace == keyspace,
        match (username, password) {
            (Option::Some(u), Option::Some(p)) => r.auth matches Some(a) && a.username == u
                && a.password == p,
            _ => r.auth is None,
        },
{
    let hosts = split_commas(hosts);
    let auth = match (username, password) {
        (Some(username), Some(password)) => Some(ScyllaAuth { username, password }),
        _ => None,
    };
    ScyllaDBConfig { hosts, keyspace, auth }
}

/// Resolve the database module's configuration through the typed config
/// accessors: `hosts` and `keyspace` are required (a missing or
/// unparseable one aborts with the accessor's message), credentials are
/// optional and only used when both halves are present.
pub fn scylla_config(
    bld: &mut AppModBuilder,
    opts: &AppModInitOptions<()>,
) -> (r: Result<ScyllaDBConfig, String>)
    ensures
        ({
            let ns = match opts.ns {
                Option::Some(s) => Option::Some(s@),
                Option::None => Option::<Seq<char>>::None,
            };
            let hosts_key = upper_of(create_key_spec(ns, "db.scylla"@, "hosts"@));
            cfg_lookup(old(bld).app.config.entries@, hosts_key) is None ==> (r matches Err(m)
                && m@ == "Config value for key '"@ + hosts_key + "' not found."@)
        }),
        getter_frame(*old(bld), *final(bld)),
{
    let c = AppModConfigGetter::new(opts, "db.scylla");
    let hosts_raw: String = match c.get_or_panic::<String>(bld, "hosts") {
        Ok(v) => v,
        Err(m) => {
            return Err(m);
        },
    };
    let keyspace: String = match c.get_or_panic::<String>(bld, "keyspace") {
        Ok(v) => v,
        Err(m) => {
            return Err(m);
        },
    };
    let username: Option<String> = c.get_optional::<String>(bld, "username");
    let password: Option<String> = c.get_optional::<String>(bld, "password");
    Ok(scylla_config_from(hosts_raw.as_str(), keyspace, username, password))
}

/// The two failure shapes of a unique-row query, rendered as structured
/// errors.
pub enum ScyllaORMError {
    NotFoundExpectedOne(String),
    TooManyResultsExpectedOne(String, usize),
}

/// The structured error for "no row where exactly one was expected".
pub open spec fn scylla_not_found(table: Seq<char>, e: MajordomeError) -> bool {
    &&& e.error@ == "errors.db.scylla.not_found"@
    &&& e.message@ == table + " not found"@
    &&& e.values@.len() == 1
    &&& e.values@[0]@ == table
    &&& e.status_code == 404
}

/// The structured error for "several rows where exactly one was expected".
pub open spec fn scylla_too_many(table: Seq<char>, count: int, e: MajordomeError) -> bool {
    &&& e.error@ == "errors.db.scylla.too_many_results"@
    &&& e.message@ == "Too many "@ + table + ", expected one but found "@ + dec_str(
        count as nat,
    ) + "."@
    &&& e.values@.len() == 2
    &&& e.values@[0]@ == table
    &&& e.values@[1]@ == dec_str(count as nat)
    &&& e.status_code == 500
}

impl ScyllaORMError {
    /// Render this ORM error as the structured runtime error, with its
    /// stable code, interpolated message, values and status code.
    pub fn to_majordome(self) -> (r: MajordomeError)
        ensures
            match self {
                ScyllaORMError::NotFoundExpectedOne(t) => scylla_not_found(t@, r),
                ScyllaORMError::TooManyResultsExpectedOne(t, c) => scylla_too_many(
                    t@,
                    c as int,
                    r,
                ),
            },
    {
        match self {
            ScyllaORMError::NotFoundExpectedOne(t) => {
                let message = t.clone().concat(" not found");
                let mut values: Vec<String> = Vec::new();
                values.push(t);
                MajordomeError::new(
                    String::from_str("errors.db.scylla.not_found"),
                    message,
                    values,
                    404,
                )
            },
            ScyllaORMError::TooManyResultsExpectedOne(t, c) => {
                let count = u64_to_string(c as u64);
                let message = String::from_str("Too many ").concat(t.as_str()).concat(
                    ", expected one but found ",
                ).concat(count.as_str()).concat(".");
                let mut values: Vec<String> = Vec::new();
                values.push(t);
                values.push(count);
                MajordomeError::new(
                    String::from_str("errors.db.scylla.too_many_results"),
                    message,
                    values,
                    500,
                )
            },
        }
    }

    /// Return this error as the `Err` case of a unique-row result.
    pub fn err<T>(self) -> (r: Result<T, MajordomeError>)
        ensures
            r matches Err(e) && match self {
                ScyllaORMError::NotFoundExpectedOne(t) => scylla_not_found(t@, e),
                ScyllaORMError::TooManyResultsExpectedOne(t, c) => scylla_too_many(
                    t@,
                    c as int,
                    e,
                ),
            },
    {
        Err(self.to_majordome())
    }
}

/// A table type generated over this ORM: it knows its table name, its
/// base select statement, and how to open an updater positioned on one
/// row's primary key.
pub trait ScyllaORMTable: Sized {
    type Updater;

    /// The table name, as `table_name` returns it.
    spec fn table_name_spec() -> Seq<char>;

    /// The base select statement, as `query` returns it.
    spec fn query_spec() -> Seq<char>;

    fn update(&self) -> Self::Updater;

    fn table_name() -> (r: &'static str)
        ensures
            r@ == Self::table_name_spec(),
    ;

    fn query() -> (r: &'static str)
        ensures
            r@ == Self::query_spec(),
    ;
}

/// The rows a select returned, with unique-row extraction.
pub struct MajordomeScyllaSelectResult<T: ScyllaORMTable> {
    pub resp: Vec<T>,
}

pub type UniqueQueryResult<T> = Result<Result<T, MajordomeError>, MajordomeError>;

impl<T: ScyllaORMTable> MajordomeScyllaSelectResult<T> {
    /// Exactly one row, or the not-found / too-many error for this table.
    pub fn one(self) -> (r: Result<T, MajordomeError>)
        ensures
            self.resp@.len() == 1 ==> (r matches Ok(v) && v == self.resp@[0]),
            self.resp@.len() == 0 ==> (r matches Err(e) && scylla_not_found(
                T::table_name_spec(),
                e,
            )),
            self.resp@.len() > 1 ==> (r matches Err(e) && scylla_too_many(
                T::table_name_spec(),
                self.resp@.len() as int,
                e,
            )),
    {
        let count = self.resp.len();
        if count == 0 {
            ScyllaORMError::NotFoundExpectedOne(T::table_name().to_owned()).err()
        } else if count == 1 {
            let mut rows = self.resp;
            match rows.pop() {
                Some(v) => Ok(v),
                None => {
                    proof {
                        assert(false);
                    }
                    ScyllaORMError::NotFoundExpectedOne(T::table_name().to_owned()).err()
                },
            }
        } else {
            ScyllaORMError::TooManyResultsExpectedOne(T::table_name().to_owned(), count).err()
        }
    }

    /// All returned rows, in order.
    pub fn all(self) -> (r: Vec<T>)
        ensures
            r == self.resp,
    {
        self.resp
    }

    pub fn len(&self) -> (r: usize)
        ensures
            r == self.resp@.len(),
    {
        self.resp.len()
    }

    pub fn is_empty(&self) -> (r: bool)
        ensures
            r == (self.resp@.len() == 0),
    {
        self.resp.len() == 0
    }
}

} // verus!
