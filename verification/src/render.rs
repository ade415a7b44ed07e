use vstd::prelude::*;

use crate::strings::{join_spec, join_with};

verus! {

/// Table-level settings of one table type: the type's name, the table
/// name, secondary-index columns, and the primary and clustering keys.
pub struct TableSettings {
    pub struct_name: String,
    pub table: Option<String>,
    pub indexes: Vec<String>,
    pub primary_key: Option<Vec<String>>,
    pub clustering_key: Vec<String>,
}

/// Per-column settings: its name, its Rust type, whether it is a
/// collection-like column (map, set or counter — which of them is in
/// `kind`), and whether it belongs to the key.
pub struct FieldSettings {
    pub name: String,
    pub ty: String,
    pub is_map: bool,
    pub kind: String,
    pub is_pk: bool,
}

/// The views of a sequence of strings.
pub open spec fn str_views(v: Seq<String>) -> Seq<Seq<char>> {
    v.map_values(|s: String| s@)
}

/// "column = ?"
pub open spec fn set_part(name: Seq<char>) -> Seq<char> {
    name + " = ?"@
}

/// "column = column + ?"
pub open spec fn add_part(name: Seq<char>) -> Seq<char> {
    name + " = "@ + name + " + ?"@
}

/// "column = column - ?"
pub open spec fn rem_part(name: Seq<char>) -> Seq<char> {
    name + " = "@ + name + " - ?"@
}

/// The update fragments one column contributes, in opcode order: key
/// columns contribute none, plain columns a set, collection-like columns
/// a set, an add and a remove.
pub open spec fn field_parts(f: FieldSettings) -> Seq<Seq<char>> {
    if f.is_pk {
        Seq::<Seq<char>>::empty()
    } else if f.is_map {
        seq![set_part(f.name@), add_part(f.name@), rem_part(f.name@)]
    } else {
        seq![set_part(f.name@)]
    }
}

/// The update fragments of all columns, indexed by opcode.
pub open spec fn opcode_parts_spec(fields: Seq<FieldSettings>) -> Seq<Seq<char>>
    decreases fields.len(),
{
    if fields.len() == 0 {
        Seq::<Seq<char>>::empty()
    } else {
        field_parts(fields[0]) + opcode_parts_spec(fields.drop_first())
    }
}

pub proof fn lemma_opcode_parts_push(fields: Seq<FieldSettings>, f: FieldSettings)
    ensures
        opcode_parts_spec(fields.push(f)) == opcode_parts_spec(fields) + field_parts(f),
    decreases fields.len(),
{
    if fields.len() == 0 {
        reveal_with_fuel(opcode_parts_spec, 3);
        assert(fields.push(f) =~= seq![f]);
        assert(fields.push(f)[0] == f);
        assert(fields.push(f).drop_first() =~= Seq::<FieldSettings>::empty());
        assert(opcode_parts_spec(fields.push(f)) =~= opcode_parts_spec(fields) + field_parts(f));
    } else {
        lemma_opcode_parts_push(fields.drop_first(), f);
        assert(fields.push(f).drop_first() =~= fields.drop_first().push(f));
        assert(fields.push(f)[0] == fields[0]);
        assert(field_parts(fields[0]) + (opcode_parts_spec(fields.drop_first()) + field_parts(f))
            =~= (field_parts(fields[0]) + opcode_parts_spec(fields.drop_first())) + field_parts(
            f,
        ));
    }
}

/// The opcode at which one column's fragments start: the count of the
/// fragments of the columns before it.
pub open spec fn field_base(fields: Seq<FieldSettings>, i: int) -> int {
    opcode_parts_spec(fields.take(i)).len() as int
}

/// Render the update fragments of all columns, indexed by opcode.
pub fn opcode_parts(fields: &Vec<FieldSettings>) -> (r: Vec<String>)
    ensures
        str_views(r@) == opcode_parts_spec(fields@),
{
    let n = fields.len();
    let mut parts: Vec<String> = Vec::new();
    let mut i: usize = 0;
    proof {
        assert(fields@.take(0) =~= Seq::<FieldSettings>::empty());
        assert(str_views(parts@) =~= opcode_parts_spec(fields@.take(0)));
    }
    while i < n
        invariant
            n == fields@.len(),
            i <= n,
            str_views(parts@) == opcode_parts_spec(fields@.take(i as int)),
        decreases n - i,
    {
        let f = &fields[i];
        if !f.is_pk {
            let set_s = f.name.clone().concat(" = ?");
            parts.push(set_s);
            if f.is_map {
                let add_s = f.name.clone().concat(" = ").concat(f.name.as_str()).concat(" + ?");
                parts.push(add_s);
                let rem_s = f.name.clone().concat(" = ").concat(f.name.as_str()).concat(" - ?");
                parts.push(rem_s);
            }
        }
        proof {
            assert(fields@.take(i as int).push(fields@[i as int]) =~= fields@.take(i as int + 1));
            lemma_opcode_parts_push(fields@.take(i as int), fields@[i as int]);
            assert(str_views(parts@) =~= opcode_parts_spec(fields@.take(i as int))
                + field_parts(fields@[i as int]));
        }
        i = i + 1;
    }
    proof {
        assert(fields@.take(n as int) =~= fields@);
    }
    parts
}

/// Each key column rendered as an equality placeholder.
pub open spec fn eq_parts(keys: Seq<Seq<char>>) -> Seq<Seq<char>> {
    keys.map_values(|k: Seq<char>| k + " = ?"@)
}

/// The WHERE clause positioning an update on one row: every primary-key
/// column, then every clustering-key column, as equality placeholders
/// joined with AND.
pub open spec fn update_where_clause_spec(pk: Seq<Seq<char>>, ck: Seq<Seq<char>>) -> Seq<char> {
    join_spec(eq_parts(pk + ck), " AND "@)
}

/// Render the WHERE clause of an update.
pub fn render_update_where_clause(pk: &Vec<String>, ck: &Vec<String>) -> (r: String)
    ensures
        r@ == update_where_clause_spec(str_views(pk@), str_views(ck@)),
{
    let mut parts: Vec<String> = Vec::new();
    let n1 = pk.len();
    let mut i: usize = 0;
    while i < n1
        invariant
            n1 == pk@.len(),
            i <= n1,
            parts@.len() == i,
            forall|j: int| 0 <= j < i ==> parts@[j]@ == pk@[j]@ + " = ?"@,
        decreases n1 - i,
    {
        parts.push(pk[i].clone().concat(" = ?"));
        i = i + 1;
    }
    let n2 = ck.len();
    let mut j: usize = 0;
    while j < n2
        invariant
            n1 == pk@.len(),
            n2 == ck@.len(),
            j <= n2,
            parts@.len() == n1 + j,
            forall|x: int| 0 <= x < n1 ==> parts@[x]@ == pk@[x]@ + " = ?"@,
            forall|x: int| 0 <= x < j ==> parts@[n1 + x]@ == ck@[x]@ + " = ?"@,
        decreases n2 - j,
    {
        parts.push(ck[j].clone().concat(" = ?"));
        j = j + 1;
    }
    let r = join_with(&parts, " AND ");
    proof {
        assert(str_views(parts@) =~= eq_parts(str_views(pk@) + str_views(ck@)));
    }
    r
}

/// The column list of a select: every column name, joined with commas.
pub open spec fn column_list_spec(fields: Seq<FieldSettings>) -> Seq<char> {
    join_spec(fields.map_values(|f: FieldSettings| f.name@), ", "@)
}

/// "SELECT columns FROM table" — the base select statement of a table.
pub open spec fn base_query_spec(fields: Seq<FieldSettings>, table: Seq<char>) -> Seq<char> {
    "SELECT "@ + column_list_spec(fields) + " FROM "@ + table
}

/// Render the base select statement.
pub fn render_base_query(fields: &Vec<FieldSettings>, table: &str) -> (r: String)
    ensures
        r@ == base_query_spec(fields@, table@),
{
    let mut names: Vec<String> = Vec::new();
    let n = fields.len();
    let mut i: usize = 0;
    while i < n
        invariant
            n == fields@.len(),
            i <= n,
            names@.len() == i,
            forall|j: int| 0 <= j < i ==> names@[j]@ == fields@[j].name@,
        decreases n - i,
    {
        names.push(fields[i].name.clone());
        i = i + 1;
    }
    let cols = join_with(&names, ", ");
    proof {
        assert(str_views(names@) =~= fields@.map_values(|f: FieldSettings| f.name@));
    }
    String::from_str("SELECT ").concat(cols.as_str()).concat(" FROM ").concat(table)
}

/// "SELECT columns FROM table WHERE args" — one generated select.
pub open spec fn select_query_spec(
    fields: Seq<FieldSettings>,
    table: Seq<char>,
    args: Seq<Seq<char>>,
) -> Seq<char> {
    base_query_spec(fields, table) + " WHERE "@ + join_spec(eq_parts(args), " AND "@)
}

/// Render one generated select statement over the given argument columns.
pub fn render_select_query(
    fields: &Vec<FieldSettings>,
    table: &str,
    args: &Vec<String>,
) -> (r: String)
    ensures
        r@ == select_query_spec(fields@, table@, str_views(args@)),
{
    let base = render_base_query(fields, table);
    let mut parts: Vec<String> = Vec::new();
    let n = args.len();
    let mut i: usize = 0;
    while i < n
        invariant
            n == args@.len(),
            i <= n,
            parts@.len() == i,
            forall|j: int| 0 <= j < i ==> parts@[j]@ == args@[j]@ + " = ?"@,
        decreases n - i,
    {
        parts.push(args[i].clone().concat(" = ?"));
        i = i + 1;
    }
    let clause = join_with(&parts, " AND ");
    proof {
        assert(str_views(parts@) =~= eq_parts(str_views(args@)));
    }
    base.concat(" WHERE ").concat(clause.as_str())
}

/// The pending update of one row: the opcodes of the operations recorded
/// so far, in order. The opcode of a set on column `i` is the column's
/// base; a collection add and remove follow at base plus one and two.
pub struct UpdateOps {
    pub operations: Vec<u32>,
}

impl UpdateOps {
    pub fn new() -> (r: UpdateOps)
        ensures
            r.operations@ == Seq::<u32>::empty(),
    {
        UpdateOps { operations: Vec::new() }
    }

    /// Nothing is pending: every recorded operation has been saved.
    pub fn is_saved(&self) -> (r: bool)
        ensures
            r == (self.operations@.len() == 0),
    {
        self.operations.len() == 0
    }

    /// All pending operations were saved.
    pub fn mark_saved(&mut self)
        ensures
            final(self).operations@ == Seq::<u32>::empty(),
    {
        self.operations.clear();
    }

    /// Record a set of column `i`.
    pub fn set_field(&mut self, fields: &Vec<FieldSettings>, i: usize)
        requires
            i < fields@.len(),
            !fields@[i as int].is_pk,
            field_base(fields@, i as int) <= u32::MAX,
        ensures
            final(self).operations@ == old(self).operations@.push(
                field_base(fields@, i as int) as u32,
            ),
    {
        let base = opcode_base(fields, i);
        self.operations.push(base);
    }

    /// Record an add to collection-like column `i`.
    pub fn add_field(&mut self, fields: &Vec<FieldSettings>, i: usize)
        requires
            i < fields@.len(),
            !fields@[i as int].is_pk,
            fields@[i as int].is_map,
            field_base(fields@, i as int) + 1 <= u32::MAX,
        ensures
            final(self).operations@ == old(self).operations@.push(
                (field_base(fields@, i as int) + 1) as u32,
            ),
    {
        let base = opcode_base(fields, i);
        self.operations.push(base + 1);
    }

    /// Record a remove from collection-like column `i`.
    pub fn rem_field(&mut self, fields: &Vec<FieldSettings>, i: usize)
        requires
            i < fields@.len(),
            !fields@[i as int].is_pk,
            fields@[i as int].is_map,
            field_base(fields@, i as int) + 2 <= u32::MAX,
        ensures
            final(self).operations@ == old(self).operations@.push(
                (field_base(fields@, i as int) + 2) as u32,
            ),
    {
        let base = opcode_base(fields, i);
        self.operations.push(base + 2);
    }

    /// Render the UPDATE statement for the pending operations, in the
    /// order they were recorded.
    pub fn generate_update_query(
        &self,
        fields: &Vec<FieldSettings>,
        table: &str,
        pk: &Vec<String>,
        ck: &Vec<String>,
    ) -> (r: String)
        requires
            forall|j: int|
                0 <= j < self.operations@.len() ==> #[trigger] self.operations@[j]
                    < opcode_parts_spec(fields@).len(),
        ensures
            r@ == "UPDATE "@ + table@ + " SET "@ + join_spec(
                self.operations@.map_values(
                    |o: u32| opcode_parts_spec(fields@)[o as int],
                ),
                ", "@,
            ) + " WHERE "@ + update_where_clause_spec(str_views(pk@), str_views(ck@)),
    {
        let all_parts = opcode_parts(fields);
        let mut selected: Vec<String> = Vec::new();
        let n = self.operations.len();
        let mut i: usize = 0;
        while i < n
            invariant
                n == self.operations@.len(),
                i <= n,
                selected@.len() == i,
                str_views(all_parts@) == opcode_parts_spec(fields@),
                forall|j: int|
                    0 <= j < n ==> #[trigger] self.operations@[j] < all_parts@.len(),
                forall|j: int|
                    0 <= j < i ==> selected@[j]@ == opcode_parts_spec(fields@)[self.operations@[j] as int],
            decreases n - i,
        {
            let op = self.operations[i];
            selected.push(all_parts[op as usize].clone());
            proof {
                assert(all_parts@[self.operations@[i as int] as int]@ == str_views(all_parts@)[self.operations@[i as int] as int]);
            }
            i = i + 1;
        }
        let set_clause = join_with(&selected, ", ");
        let where_clause = render_update_where_clause(pk, ck);
        proof {
            assert(str_views(selected@) =~= self.operations@.map_values(
                |o: u32| opcode_parts_spec(fields@)[o as int],
            ));
        }
        String::from_str("UPDATE ").concat(table).concat(" SET ").concat(
            set_clause.as_str(),
        ).concat(" WHERE ").concat(where_clause.as_str())
    }
}

/// Copy a list of column names.
fn copy_names(v: &Vec<String>) -> (r: Vec<String>)
    ensures
        str_views(r@) == str_views(v@),
{
    let n = v.len();
    let mut out: Vec<String> = Vec::new();
    let mut i: usize = 0;
    while i < n
        invariant
            n == v@.len(),
            i <= n,
            out@.len() == i,
            forall|j: int| 0 <= j < i ==> out@[j]@ == v@[j]@,
        decreases n - i,
    {
        out.push(v[i].clone());
        i = i + 1;
    }
    proof {
        assert(str_views(out@) =~= str_views(v@));
    }
    out
}

/// The argument lists of the selects generated for a table, in order: the
/// full primary key, then the primary key extended by each clustering-key
/// prefix, then one single-column plan per secondary index (flagged).
pub fn select_plans(
    primary_key: &Vec<String>,
    clustering_key: &Vec<String>,
    indexes: &Vec<String>,
) -> (r: Vec<(Vec<String>, bool)>)
    ensures
        r@.len() == 1 + clustering_key@.len() + indexes@.len(),
        str_views(r@[0].0@) == str_views(primary_key@),
        !r@[0].1,
        forall|j: int|
            0 <= j < clustering_key@.len() ==> {
                &&& str_views(#[trigger] r@[1 + j].0@) == str_views(primary_key@) + str_views(
                    clustering_key@.take(j + 1),
                )
                &&& !r@[1 + j].1
            },
        forall|j: int|
            0 <= j < indexes@.len() ==> {
                &&& str_views(#[trigger] r@[1 + clustering_key@.len() + j].0@) == seq![
                    indexes@[j]@,
                ]
                &&& r@[1 + clustering_key@.len() + j].1
            },
{
    let mut plans: Vec<(Vec<String>, bool)> = Vec::new();
    plans.push((copy_names(primary_key), false));
    let mut args = copy_names(primary_key);
    let nck = clustering_key.len();
    let mut j: usize = 0;
    while j < nck
        invariant
            nck == clustering_key@.len(),
            j <= nck,
            plans@.len() == 1 + j,
            str_views(args@) == str_views(primary_key@) + str_views(
                clustering_key@.take(j as int),
            ),
            str_views(plans@[0].0@) == str_views(primary_key@),
            !plans@[0].1,
            forall|x: int|
                0 <= x < j ==> {
                    &&& str_views(#[trigger] plans@[1 + x].0@) == str_views(primary_key@)
                        + str_views(clustering_key@.take(x + 1))
                    &&& !plans@[1 + x].1
                },
        decreases nck - j,
    {
        let ghost args0 = args@;
        args.push(clustering_key[j].clone());
        proof {
            let pkl = primary_key@.len() as int;
            let rhs = str_views(primary_key@) + str_views(clustering_key@.take(j as int + 1));
            assert(str_views(args0).len() == args0.len());
            assert(args0.len() == pkl + j);
            assert(rhs.len() == pkl + j + 1);
            assert(args@.len() == pkl + j + 1);
            assert forall|t: int| 0 <= t < args@.len() implies str_views(args@)[t] == rhs[t] by {
                assert(str_views(args@)[t] == args@[t]@);
                if t < args0.len() {
                    assert(args@[t] == args0[t]);
                    assert(str_views(args0)[t] == args0[t]@);
                    if t < pkl {
                        assert(str_views(primary_key@)[t] == primary_key@[t]@);
                    } else {
                        assert(str_views(clustering_key@.take(j as int))[t - pkl]
                            == clustering_key@.take(j as int)[t - pkl]@);
                        assert(str_views(clustering_key@.take(j as int + 1))[t - pkl]
                            == clustering_key@.take(j as int + 1)[t - pkl]@);
                    }
                } else {
                    assert(args@[t] == clustering_key@[j as int]);
                    assert(str_views(clustering_key@.take(j as int + 1))[t - pkl]
                        == clustering_key@.take(j as int + 1)[t - pkl]@);
                }
            }
            assert(str_views(args@) =~= rhs);
        }
        plans.push((copy_names(&args), false));
        proof {
            assert(str_views(plans@[1 + j as int].0@) == str_views(primary_key@) + str_views(
                clustering_key@.take(j as int + 1),
            ));
        }
        j = j + 1;
    }
    let nix = indexes.len();
    let mut k: usize = 0;
    while k < nix
        invariant
            nck == clustering_key@.len(),
            nix == indexes@.len(),
            k <= nix,
            plans@.len() == 1 + nck + k,
            str_views(plans@[0].0@) == str_views(primary_key@),
            !plans@[0].1,
            forall|x: int|
                0 <= x < nck ==> {
                    &&& str_views(#[trigger] plans@[1 + x].0@) == str_views(primary_key@)
                        + str_views(clustering_key@.take(x + 1))
                    &&& !plans@[1 + x].1
                },
            forall|x: int|
                0 <= x < k ==> {
                    &&& str_views(#[trigger] plans@[1 + nck + x].0@) == seq![indexes@[x]@]
                    &&& plans@[1 + nck + x].1
                },
        decreases nix - k,
    {
        let mut single: Vec<String> = Vec::new();
        single.push(indexes[k].clone());
        proof {
            assert(str_views(single@) =~= seq![indexes@[k as int]@]);
        }
        plans.push((single, true));
        k = k + 1;
    }
    proof {
        assert forall|j: int|
            0 <= j < indexes@.len() implies (str_views(
            #[trigger] plans@[1 + clustering_key@.len() + j].0@,
        ) == seq![indexes@[j]@] && plans@[1 + clustering_key@.len() + j].1) by {
            assert(1 + clustering_key@.len() + j == 1 + nck + j);
            assert(str_views(plans@[1 + nck as int + j].0@) == seq![indexes@[j]@]);
            assert(plans@[1 + nck as int + j].1);
        }
    }
    plans
}

/// The opcode at which column `i`'s update fragments start.
pub fn opcode_base(fields: &Vec<FieldSettings>, i: usize) -> (r: u32)
    requires
        i <= fields@.len(),
        field_base(fields@, i as int) <= u32::MAX,
    ensures
        r == field_base(fields@, i as int),
{
    let mut count: u32 = 0;
    let mut j: usize = 0;
    proof {
        assert(fields@.take(0) =~= Seq::<FieldSettings>::empty());
    }
    while j < i
        invariant
            i <= fields@.len(),
            j <= i,
            field_base(fields@, i as int) <= u32::MAX,
            count == field_base(fields@, j as int),
        decreases i - j,
    {
        let f = &fields[j];
        proof {
            assert(fields@.take(j as int).push(fields@[j as int]) =~= fields@.take(j as int + 1));
            lemma_opcode_parts_push(fields@.take(j as int), fields@[j as int]);
            lemma_field_base_mono(fields@, j as int + 1, i as int);
        }
        if !f.is_pk {
            if f.is_map {
                count = count + 3;
            } else {
                count = count + 1;
            }
        }
        j = j + 1;
    }
    count
}

/// The characters with leading spaces removed.
pub open spec fn trim_start_spec(s: Seq<char>) -> Seq<char>
    decreases s.len(),
{
    if s.len() > 0 && s[0] == ' ' {
        trim_start_spec(s.drop_first())
    } else {
        s
    }
}

/// The characters with trailing spaces removed.
pub open spec fn trim_end_spec(s: Seq<char>) -> Seq<char>
    decreases s.len(),
{
    if s.len() > 0 && s.last() == ' ' {
        trim_end_spec(s.drop_last())
    } else {
        s
    }
}

/// The characters with spaces removed at both ends.
pub open spec fn trim_spec(s: Seq<char>) -> Seq<char> {
    trim_end_spec(trim_start_spec(s))
}

/// The suffix after the last '<' — the whole sequence when there is none.
pub open spec fn after_last_lt(s: Seq<char>) -> Seq<char>
    decreases s.len(),
{
    if s.len() == 0 {
        s
    } else if s.last() == '<' {
        Seq::<char>::empty()
    } else {
        after_last_lt(s.drop_last()).push(s.last())
    }
}

/// The prefix before the first ',' — the whole sequence when there is none.
pub open spec fn before_first_comma(s: Seq<char>) -> Seq<char>
    decreases s.len(),
{
    if s.len() == 0 {
        s
    } else if s[0] == ',' {
        Seq::<char>::empty()
    } else {
        seq![s[0]] + before_first_comma(s.drop_first())
    }
}

/// The argument type of a map column's delete method: a vector of the
/// map's key type, read off the column's rendered Rust type.
pub open spec fn map_delete_key_ty_spec(ty: Seq<char>) -> Seq<char> {
    "::std::vec::Vec<"@ + trim_spec(before_first_comma(after_last_lt(trim_spec(ty)))) + ">"@
}

proof fn lemma_trim_start(s: Seq<char>, k: int)
    requires
        0 <= k <= s.len(),
        forall|j: int| 0 <= j < k ==> s[j] == ' ',
        k == s.len() || s[k] != ' ',
    ensures
        trim_start_spec(s) == s.skip(k),
    decreases k,
{
    if k == 0 {
        assert(s.skip(0) =~= s);
    } else {
        assert(s[0] == ' ');
        lemma_trim_start(s.drop_first(), k - 1);
        assert(s.drop_first().skip(k - 1) =~= s.skip(k));
    }
}

proof fn lemma_trim_end(s: Seq<char>, e: int)
    requires
        0 <= e <= s.len(),
        forall|j: int| e <= j < s.len() ==> s[j] == ' ',
        e == 0 || s[e - 1] != ' ',
    ensures
        trim_end_spec(s) == s.take(e),
    decreases s.len(),
{
    if e == s.len() {
        assert(s.take(e) =~= s);
    } else {
        assert(s.last() == ' ');
        lemma_trim_end(s.drop_last(), e);
        assert(s.drop_last().take(e) =~= s.take(e));
    }
}

proof fn lemma_after_last_lt_at(s: Seq<char>, p: int)
    requires
        0 <= p < s.len(),
        s[p] == '<',
        forall|j: int| p < j < s.len() ==> s[j] != '<',
    ensures
        after_last_lt(s) == s.skip(p + 1),
    decreases s.len(),
{
    if p == s.len() - 1 {
        assert(s.last() == '<');
        assert(s.skip(p + 1) =~= Seq::<char>::empty());
    } else {
        assert(s.last() != '<');
        lemma_after_last_lt_at(s.drop_last(), p);
        assert(s.drop_last().skip(p + 1).push(s.last()) =~= s.skip(p + 1));
    }
}

proof fn lemma_after_last_lt_none(s: Seq<char>)
    requires
        forall|j: int| 0 <= j < s.len() ==> s[j] != '<',
    ensures
        after_last_lt(s) == s,
    decreases s.len(),
{
    if s.len() > 0 {
        lemma_after_last_lt_none(s.drop_last());
        assert(s.drop_last().push(s.last()) =~= s);
    }
}

proof fn lemma_before_first_comma(s: Seq<char>, q: int)
    requires
        0 <= q <= s.len(),
        forall|j: int| 0 <= j < q ==> s[j] != ',',
        q == s.len() || s[q] == ',',
    ensures
        before_first_comma(s) == s.take(q),
    decreases q,
{
    if s.len() == 0 {
        assert(s.take(0) =~= s);
    } else if q == 0 {
        if s[0] == ',' {
            assert(s.take(0) =~= Seq::<char>::empty());
        } else {
            assert(q == s.len() || s[q] == ',');
            assert(s.take(0) =~= Seq::<char>::empty());
        }
    } else {
        assert(s[0] != ',');
        lemma_before_first_comma(s.drop_first(), q - 1);
        assert(seq![s[0]] + s.drop_first().take(q - 1) =~= s.take(q));
    }
}

/// Remove the spaces at both ends, as `trim_spec` states it.
fn trim_str(s: &str) -> (r: String)
    ensures
        r@ == trim_spec(s@),
{
    let n = s.unicode_len();
    let mut start: usize = 0;
    while start < n && s.get_char(start) == ' '
        invariant
            n == s@.len(),
            start <= n,
            forall|j: int| 0 <= j < start ==> s@[j] == ' ',
        decreases n - start,
    {
        start = start + 1;
    }
    let mut end: usize = n;
    while end > start && s.get_char(end - 1) == ' '
        invariant
            n == s@.len(),
            start <= end <= n,
            forall|j: int| end <= j < n ==> s@[j] == ' ',
        decreases end,
    {
        end = end - 1;
    }
    let r = s.substring_char(start, end).to_owned();
    proof {
        lemma_trim_start(s@, start as int);
        let mid = s@.skip(start as int);
        assert forall|j: int| (end - start) <= j < mid.len() implies mid[j] == ' ' by {
            assert(mid[j] == s@[start + j]);
        }
        if end > start {
            assert(mid[end - start - 1] == s@[end - 1]);
        }
        lemma_trim_end(mid, end - start);
        assert(mid.take(end - start) =~= s@.subrange(start as int, end as int));
    }
    r
}

/// The suffix after the last '<', as `after_last_lt` states it.
fn after_last_lt_str(s: &str) -> (r: String)
    ensures
        r@ == after_last_lt(s@),
{
    let n = s.unicode_len();
    let mut pos: usize = 0;
    let mut found = false;
    let mut i: usize = 0;
    while i < n
        invariant
            n == s@.len(),
            i <= n,
            found ==> (pos < i && s@[pos as int] == '<' && (forall|j: int|
                pos < j < i ==> s@[j] != '<')),
            !found ==> (forall|j: int| 0 <= j < i ==> s@[j] != '<'),
        decreases n - i,
    {
        if s.get_char(i) == '<' {
            pos = i;
            found = true;
        }
        i = i + 1;
    }
    if found {
        proof {
            lemma_after_last_lt_at(s@, pos as int);
        }
        s.substring_char(pos + 1, n).to_owned()
    } else {
        proof {
            lemma_after_last_lt_none(s@);
        }
        s.to_owned()
    }
}

/// The prefix before the first ',', as `before_first_comma` states it.
fn before_first_comma_str(s: &str) -> (r: String)
    ensures
        r@ == before_first_comma(s@),
{
    let n = s.unicode_len();
    let mut i: usize = 0;
    while i < n
        invariant
            n == s@.len(),
            i <= n,
            forall|j: int| 0 <= j < i ==> s@[j] != ',',
        decreases n - i,
    {
        if s.get_char(i) == ',' {
            proof {
                lemma_before_first_comma(s@, i as int);
            }
            return s.substring_char(0, i).to_owned();
        }
        i = i + 1;
    }
    proof {
        lemma_before_first_comma(s@, n as int);
        assert(s@.take(n as int) =~= s@);
    }
    s.to_owned()
}

/// The argument type of a map column's delete method, rendered.
pub fn get_map_delete_key_ty(ty: &str) -> (r: String)
    ensures
        r@ == map_delete_key_ty_spec(ty@),
{
    let trimmed = trim_str(ty);
    let after = after_last_lt_str(trimmed.as_str());
    let before = before_first_comma_str(after.as_str());
    let inner = trim_str(before.as_str());
    String::from_str("::std::vec::Vec<").concat(inner.as_str()).concat(">")
}

/// Column bases grow with the column index.
proof fn lemma_field_base_mono(fields: Seq<FieldSettings>, i: int, j: int)
    requires
        0 <= i <= j <= fields.len(),
    ensures
        field_base(fields, i) <= field_base(fields, j),
    decreases j - i,
{
    if i < j {
        lemma_field_base_mono(fields, i + 1, j);
        assert(fields.take(i).push(fields[i]) =~= fields.take(i + 1));
        lemma_opcode_parts_push(fields.take(i), fields[i]);
    }
}

} // verus!
