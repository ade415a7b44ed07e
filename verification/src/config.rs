use vstd::prelude::*;

use crate::builder::AppModBuilder;
use crate::module::AppModInitOptions;
use crate::strings::{create_key_spec, to_uppercase_string, upper_of};

verus! {

/// One documented configuration key together with the default (or
/// placeholder) value that was registered for it while modules resolved
/// their configuration.
pub struct EnvEntry {
    pub key: String,
    pub value: String,
}

/// Resolved string configuration, handed to the runtime by whoever gathered
/// it (the runtime itself performs no environment I/O). Lookup returns the
/// first entry whose key matches.
pub struct ConfigMap {
    pub entries: Vec<(String, String)>,
}

/// The value bound to `key` by the first matching entry, if any.
pub open spec fn cfg_lookup(entries: Seq<(String, String)>, key: Seq<char>) -> Option<Seq<char>>
    decreases entries.len(),
{
    if entries.len() == 0 {
        Option::None
    } else if entries[0].0@ == key {
        Option::Some(entries[0].1@)
    } else {
        cfg_lookup(entries.drop_first(), key)
    }
}

impl ConfigMap {
    pub fn new(entries: Vec<(String, String)>) -> (r: ConfigMap)
        ensures
            r.entries == entries,
    {
        ConfigMap { entries }
    }

    /// Look the key up, first match wins.
    pub fn get(&self, key: &String) -> (r: Option<&String>)
        ensures
            match r {
                Some(v) => cfg_lookup(self.entries@, key@) == Some(v@),
                None => cfg_lookup(self.entries@, key@) is None,
            },
    {
        let n = self.entries.len();
        let mut i: usize = 0;
        proof {
            assert(self.entries@.skip(0) =~= self.entries@);
        }
        while i < n
            invariant
                n == self.entries@.len(),
                i <= n,
                cfg_lookup(self.entries@.skip(i as int), key@) == cfg_lookup(
                    self.entries@,
                    key@,
                ),
            decreases n - i,
        {
            let hit = self.entries[i].0.eq(key);
            proof {
                assert(self.entries@.skip(i as int)[0] == self.entries@[i as int]);
                assert(self.entries@.skip(i as int).drop_first() =~= self.entries@.skip(
                    i as int + 1,
                ));
            }
            if hit {
                return Some(&self.entries[i].1);
            }
            i = i + 1;
        }
        proof {
            assert(self.entries@.skip(n as int).len() == 0);
        }
        None
    }
}

/// Everything of the builder but the documented-key registry is untouched.
pub open spec fn getter_frame(b0: AppModBuilder, b1: AppModBuilder) -> bool {
    &&& b1.app == b0.app
    &&& b1.loadchain == b0.loadchain
    &&& b1.loaded == b0.loaded
    &&& b1.loaded_targets_count == b0.loaded_targets_count
    &&& b1.next_instance == b0.next_instance
}

/// Typed accessors over the resolved configuration for one module: keys
/// are namespace-qualified and uppercased, and every key that is read gets
/// registered with its default so the full set of known keys can be
/// documented.
pub struct AppModConfigGetter {
    pub ns: Option<String>,
    pub name: String,
}

impl AppModConfigGetter {
    /// The namespace as a character sequence, if one was given.
    pub open spec fn ns_view(&self) -> Option<Seq<char>> {
        match self.ns {
            Option::Some(s) => Option::Some(s@),
            Option::None => Option::None,
        }
    }

    /// The key this getter derives for a short key name.
    pub open spec fn key_view(&self, key: Seq<char>) -> Seq<char> {
        upper_of(create_key_spec(self.ns_view(), self.name@, key))
    }

    pub fn new<T>(o: &AppModInitOptions<T>, name: &str) -> (r: AppModConfigGetter)
        ensures
            r.ns_view() == (match o.ns {
                Option::Some(s) => Option::Some(s@),
                Option::None => Option::<Seq<char>>::None,
            }),
            r.name@ == name@,
    {
        let ns = match &o.ns {
            Some(s) => Some(s.clone()),
            None => None,
        };
        AppModConfigGetter { ns, name: name.to_owned() }
    }

    /// NAMESPACE_MODULENAME_KEY — or MODULENAME_KEY without a namespace.
    pub fn create_key(&self, key: &str) -> (r: String)
        ensures
            r@ == self.key_view(key@),
    {
        let joined = match &self.ns {
            Some(n) => n.clone().concat("_").concat(self.name.as_str()).concat("_").concat(key),
            None => self.name.clone().concat("_").concat(key),
        };
        to_uppercase_string(joined.as_str())
    }

    /// Parse-or-default accessor: the default is returned when the key is
    /// absent, and when the configured string does not parse. The key is
    /// registered with the default's rendering.
    pub fn get_or<T: Clone + core::str::FromStr + core::fmt::Display>(
        &self,
        bld: &mut AppModBuilder,
        key: &str,
        default: &T,
    ) -> (r: T)
        ensures
            getter_frame(*old(bld), *final(bld)),
            final(bld).env_entries@.len() == old(bld).env_entries@.len() + 1,
            final(bld).env_entries@.last().key@ == self.key_view(key@),
            vstd::string::to_string_from_display_ensures::<T>(
                default,
                final(bld).env_entries@.last().value,
            ),
            cfg_lookup(old(bld).app.config.entries@, self.key_view(key@)) is None
                ==> vstd::pervasive::cloned::<T>(*default, r),
    {
        let k = self.create_key(key);
        bld.register_env_entry(k.clone(), default.to_string());
        let looked = bld.app.config.get(&k);
        match looked {
            None => default.clone(),
            Some(s) => match parse_str_value::<T>(s) {
                Some(v) => v,
                None => default.clone(),
            },
        }
    }

    /// Parse-or-fatal accessor. The runtime's verified functions do not
    /// panic: the fatal outcome is handed back as the exact message the
    /// caller aborts the build with. A missing key is always fatal.
    pub fn get_or_panic<T: core::str::FromStr>(
        &self,
        bld: &mut AppModBuilder,
        key: &str,
    ) -> (r: Result<T, String>)
        ensures
            getter_frame(*old(bld), *final(bld)),
            final(bld).env_entries@.len() == old(bld).env_entries@.len() + 1,
            final(bld).env_entries@.last().key@ == self.key_view(key@),
            final(bld).env_entries@.last().value@ == "<REQUIRED>"@,
            cfg_lookup(old(bld).app.config.entries@, self.key_view(key@)) is None ==> (r
                matches Err(m) && m@ == "Config value for key '"@ + self.key_view(key@)
                + "' not found."@),
            r matches Err(m) ==> (m@ == "Config value for key '"@ + self.key_view(key@)
                + "' not found."@ || m@ == "Failed to parse config value for key '"@
                + self.key_view(key@) + "'."@),
    {
        let k = self.create_key(key);
        bld.register_env_entry(k.clone(), String::from_str("<REQUIRED>"));
        let looked = bld.app.config.get(&k);
        match looked {
            None => Err(
                String::from_str("Config value for key '").concat(k.as_str()).concat(
                    "' not found.",
                ),
            ),
            Some(s) => match parse_str_value::<T>(s) {
                Some(v) => Ok(v),
                None => Err(
                    String::from_str("Failed to parse config value for key '").concat(
                        k.as_str(),
                    ).concat("'."),
                ),
            },
        }
    }

    /// Parse-optional accessor: absent and unparseable values both come
    /// back as nothing. The key is registered with an empty default.
    pub fn get_optional<T: core::str::FromStr>(
        &self,
        bld: &mut AppModBuilder,
        key: &str,
    ) -> (r: Option<T>)
        ensures
            getter_frame(*old(bld), *final(bld)),
            final(bld).env_entries@.len() == old(bld).env_entries@.len() + 1,
            final(bld).env_entries@.last().key@ == self.key_view(key@),
            final(bld).env_entries@.last().value@.len() == 0,
            cfg_lookup(old(bld).app.config.entries@, self.key_view(key@)) is None ==> r is None,
    {
        let k = self.create_key(key);
        bld.register_env_entry(k.clone(), String::new());
        let looked = bld.app.config.get(&k);
        match looked {
            None => None,
            Some(s) => parse_str_value::<T>(s),
        }
    }
}

/// Relies on str::parse through the type's FromStr implementation; which
/// strings parse, and to what, is that implementation's affair — nothing
/// is assumed of the result.
#[verifier::external_body]
fn parse_str_value<T: core::str::FromStr>(s: &String) -> Option<T> {
    s.parse::<T>().ok()
}

} // verus!
