use majordome::orm::{
    scylla_config_from, split_commas, MajordomeScyllaSelectResult, ScyllaORMError, ScyllaORMTable,
};
use majordome::render::{
    get_map_delete_key_ty, opcode_parts, render_base_query, render_select_query,
    render_update_where_clause, select_plans, FieldSettings, TableSettings, UpdateOps,
};
use majordome::strings::{repr_pointer, u64_to_string};

fn field(name: &str, ty: &str, is_map: bool, kind: &str, is_pk: bool) -> FieldSettings {
    FieldSettings {
        name: name.to_string(),
        ty: ty.to_string(),
        is_map,
        kind: kind.to_string(),
        is_pk,
    }
}

fn user_fields() -> Vec<FieldSettings> {
    vec![
        field("id", "i64", false, "", true),
        field("email", "Option < String >", false, "", false),
        field("sponsor_id", "Option < i64 >", false, "", false),
        field("p_desc", "Option < String >", false, "", false),
        field("assets", "std :: collections :: BTreeMap < String , String >", true, "map", false),
        field("flags", "i64", false, "", false),
    ]
}

#[test]
fn test() {
    let fields = user_fields();
    let mut assets = std::collections::BTreeMap::new();
    assets.insert("test".to_string(), "test".to_string());
    assert_eq!(assets.get("test"), Some(&"test".to_string()));
    let mut m = UpdateOps::new();
    assert!(m.is_saved());
    m.set_field(&fields, 1);
    m.add_field(&fields, 4);
    assert!(!m.is_saved());
}

#[test]
fn update_query_rendering() {
    let fields = user_fields();
    let parts = opcode_parts(&fields);
    assert_eq!(
        parts,
        vec![
            "email = ?".to_string(),
            "sponsor_id = ?".to_string(),
            "p_desc = ?".to_string(),
            "assets = ?".to_string(),
            "assets = assets + ?".to_string(),
            "assets = assets - ?".to_string(),
            "flags = ?".to_string(),
        ]
    );
    let mut m = UpdateOps::new();
    m.set_field(&fields, 1);
    m.add_field(&fields, 4);
    m.rem_field(&fields, 4);
    m.set_field(&fields, 5);
    assert_eq!(m.operations, vec![0, 4, 5, 6]);
    let pk = vec!["id".to_string()];
    let ck: Vec<String> = Vec::new();
    let q = m.generate_update_query(&fields, "users", &pk, &ck);
    assert_eq!(
        q,
        "UPDATE users SET email = ?, assets = assets + ?, assets = assets - ?, flags = ? WHERE id = ?"
    );
    m.mark_saved();
    assert!(m.is_saved());
}

#[test]
fn where_clause_rendering() {
    let pk = vec!["tenant".to_string(), "id".to_string()];
    let ck = vec!["day".to_string()];
    assert_eq!(
        render_update_where_clause(&pk, &ck),
        "tenant = ? AND id = ? AND day = ?"
    );
}

#[test]
fn select_query_rendering() {
    let fields = user_fields();
    assert_eq!(
        render_base_query(&fields, "users"),
        "SELECT id, email, sponsor_id, p_desc, assets, flags FROM users"
    );
    let args = vec!["email".to_string()];
    assert_eq!(
        render_select_query(&fields, "users", &args),
        "SELECT id, email, sponsor_id, p_desc, assets, flags FROM users WHERE email = ?"
    );
}

#[test]
fn map_delete_key_type() {
    assert_eq!(
        get_map_delete_key_ty("std :: collections :: BTreeMap < String , String >"),
        "::std::vec::Vec<String>"
    );
    assert_eq!(get_map_delete_key_ty(" i64 "), "::std::vec::Vec<i64>");
    assert_eq!(
        get_map_delete_key_ty("HashMap < u64 , Vec < u8 > >"),
        "::std::vec::Vec<u8 > >>"
    );
}

#[test]
fn select_plan_enumeration() {
    let pk = vec!["tenant".to_string(), "id".to_string()];
    let ck = vec!["day".to_string(), "hour".to_string()];
    let idx = vec!["email".to_string()];
    let plans = select_plans(&pk, &ck, &idx);
    assert_eq!(plans.len(), 4);
    assert_eq!(plans[0], (vec!["tenant".to_string(), "id".to_string()], false));
    assert_eq!(
        plans[1],
        (vec!["tenant".to_string(), "id".to_string(), "day".to_string()], false)
    );
    assert_eq!(
        plans[2],
        (
            vec![
                "tenant".to_string(),
                "id".to_string(),
                "day".to_string(),
                "hour".to_string()
            ],
            false
        )
    );
    assert_eq!(plans[3], (vec!["email".to_string()], true));
}

#[test]
fn table_settings_shape() {
    let t = TableSettings {
        struct_name: "UserDBRepr".to_string(),
        table: Some("users".to_string()),
        indexes: vec!["email".to_string()],
        primary_key: Some(vec!["id".to_string()]),
        clustering_key: Vec::new(),
    };
    assert_eq!(t.table.as_deref(), Some("users"));
    assert_eq!(t.primary_key.as_ref().map(|v| v.len()), Some(1));
}

#[derive(Debug)]
struct UserRow {
    id: i64,
}

impl ScyllaORMTable for UserRow {
    type Updater = UpdateOps;

    fn table_name_spec() -> vstd::seq::Seq<char> {
        panic!()
    }

    fn query_spec() -> vstd::seq::Seq<char> {
        panic!()
    }

    fn update(&self) -> UpdateOps {
        let _ = self.id;
        UpdateOps::new()
    }

    fn table_name() -> &'static str {
        "users"
    }

    fn query() -> &'static str {
        "SELECT id FROM users"
    }
}

#[test]
fn one_of_exactly_one_row() {
    let r = MajordomeScyllaSelectResult::<UserRow> { resp: vec![UserRow { id: 3 }] };
    assert_eq!(r.len(), 1);
    assert!(!r.is_empty());
    let row = r.one().unwrap();
    assert_eq!(row.id, 3);
}

#[test]
fn one_of_no_rows_is_not_found() {
    let r = MajordomeScyllaSelectResult::<UserRow> { resp: Vec::new() };
    assert!(r.is_empty());
    let e = r.one().unwrap_err();
    assert_eq!(e.error, "errors.db.scylla.not_found");
    assert_eq!(e.message, "users not found");
    assert_eq!(e.values, vec!["users".to_string()]);
    assert_eq!(e.status_code, 404);
}

#[test]
fn one_of_many_rows_is_too_many() {
    let r = MajordomeScyllaSelectResult::<UserRow> {
        resp: vec![UserRow { id: 1 }, UserRow { id: 2 }],
    };
    let e = r.one().unwrap_err();
    assert_eq!(e.error, "errors.db.scylla.too_many_results");
    assert_eq!(e.message, "Too many users, expected one but found 2.");
    assert_eq!(e.values, vec!["users".to_string(), "2".to_string()]);
    assert_eq!(e.status_code, 500);
}

#[test]
fn orm_error_rendering() {
    let e = ScyllaORMError::NotFoundExpectedOne("orders".to_string()).to_majordome();
    assert_eq!(e.error, "errors.db.scylla.not_found");
    assert_eq!(e.message, "orders not found");
    let e = ScyllaORMError::TooManyResultsExpectedOne("orders".to_string(), 17).to_majordome();
    assert_eq!(e.message, "Too many orders, expected one but found 17.");
    let r: Result<(), _> = ScyllaORMError::NotFoundExpectedOne("orders".to_string()).err();
    assert!(r.is_err());
}

#[test]
fn all_returns_rows_in_order() {
    let r = MajordomeScyllaSelectResult::<UserRow> {
        resp: vec![UserRow { id: 1 }, UserRow { id: 2 }],
    };
    let rows = r.all();
    assert_eq!(rows.len(), 2);
    assert_eq!(rows[0].id, 1);
    assert_eq!(rows[1].id, 2);
}

#[test]
fn comma_splitting() {
    assert_eq!(split_commas("a,b,c"), vec!["a", "b", "c"]);
    assert_eq!(split_commas("host"), vec!["host"]);
    assert_eq!(split_commas(""), vec![""]);
    assert_eq!(split_commas("a,,b"), vec!["a", "", "b"]);
    assert_eq!(split_commas("a,"), vec!["a", ""]);
    assert_eq!(split_commas(","), vec!["", ""]);
}

#[test]
fn empty_key_where_clause() {
    let none: Vec<String> = Vec::new();
    assert_eq!(render_update_where_clause(&none, &none), "");
}

#[test]
fn scylla_config_shapes() {
    let cfg = scylla_config_from(
        "node1:9042,node2:9042",
        "main".to_string(),
        Some("scylla".to_string()),
        Some("SECRET-REDACTED".to_string()),
    );
    assert_eq!(cfg.hosts, vec!["node1:9042".to_string(), "node2:9042".to_string()]);
    assert_eq!(cfg.keyspace, "main");
    let auth = cfg.auth.unwrap();
    assert_eq!(auth.username, "scylla");
    assert_eq!(auth.password, "SECRET-REDACTED");

    let cfg = scylla_config_from("h", "ks".to_string(), Some("u".to_string()), None);
    assert!(cfg.auth.is_none());
    let cfg = scylla_config_from("h", "ks".to_string(), None, Some("p".to_string()));
    assert!(cfg.auth.is_none());
}

#[test]
fn pointer_display_names() {
    assert_eq!(repr_pointer("cache", "cache", "1.2.0"), "cache=1.2.0");
    assert_eq!(repr_pointer("main_db", "scylla", "0.4"), "main_db/scylla=0.4");
}

#[test]
fn decimal_rendering() {
    assert_eq!(u64_to_string(0), "0");
    assert_eq!(u64_to_string(7), "7");
    assert_eq!(u64_to_string(42), "42");
    assert_eq!(u64_to_string(1234567890), "1234567890");
    assert_eq!(u64_to_string(u64::MAX), "18446744073709551615");
}
