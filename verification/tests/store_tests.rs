use majordome::compat::{rejection_error, Form, Json, JsonRejectionKind};
use majordome::module::AppModTask;
use majordome::store::{AnyMap, AnyMapByKey, ModuleStore, TypeIdHasherDoNotUse};

#[derive(Debug, PartialEq)]
struct A {
    a: i32,
}

#[derive(Debug, PartialEq)]
struct B {
    b: i32,
}

#[derive(Debug, PartialEq)]
struct C {
    c: i32,
}

#[derive(Debug, PartialEq)]
enum Val {
    A(A),
    B(B),
    C(C),
}

const KEY_A: u64 = 1;
const KEY_B: u64 = 2;
const KEY_C: u64 = 3;

#[test]
fn test_all() {
    let mut map2 = AnyMap::default();

    map2.insert(KEY_A, Val::A(A { a: 1 }));
    map2.insert(KEY_B, Val::B(B { b: 2 }));
    map2.insert(KEY_C, Val::C(C { c: 3 }));

    assert_eq!(map2.get(KEY_A), Some(&Val::A(A { a: 1 })));
    assert_eq!(map2.get(KEY_B), Some(&Val::B(B { b: 2 })));
    assert_eq!(map2.get(KEY_C), Some(&Val::C(C { c: 3 })));
}

#[test]
fn any_map_remove_and_replace() {
    let mut map = AnyMap::default();
    map.insert(KEY_A, 10u32);
    assert_eq!(map.remove(KEY_A), Some(10));
    assert_eq!(map.get(KEY_A), None);
    assert_eq!(map.remove(KEY_A), None);
    map.insert(KEY_B, 4u32);
    assert_eq!(map.insert(KEY_B, 5u32), Some(4));
    assert_eq!(map.get(KEY_B), Some(&5));
}

#[test]
fn any_map_by_key_basics() {
    let mut map: AnyMapByKey<u64> = AnyMapByKey::default();
    assert_eq!(map.len(), 0);
    assert!(!map.contains(KEY_A));
    assert_eq!(map.insert(KEY_A, 100), None);
    assert!(map.contains(KEY_A));
    assert_eq!(map.len(), 1);
    assert_eq!(map.get(KEY_A), Some(&100));
    assert_eq!(map.get(KEY_B), None);
}

#[test]
fn identity_hasher_roundtrip() {
    let mut h = TypeIdHasherDoNotUse::default();
    assert_eq!(h.finish(), 0);
    h.write(&[1, 0, 0, 0, 0, 0, 0, 0]);
    assert_eq!(h.finish(), 1);
    h.write(&[0, 0, 0, 0, 0, 0, 0, 1]);
    assert_eq!(h.finish(), 1u64 << 56);
    h.write(&[0x88, 0x77, 0x66, 0x55, 0x44, 0x33, 0x22, 0x11]);
    assert_eq!(h.finish(), 0x1122334455667788);
}

#[test]
fn store_tracks_tasks_in_order() {
    let mut store = ModuleStore::new();
    store.register_task(AppModTask::new(1).name("one"));
    store.register_task(AppModTask::new(2).name("two"));
    assert_eq!(store.handles.len(), 2);
    assert_eq!(store.handles[0].name, "one");
    assert_eq!(store.handles[1].name, "two");
}

#[test]
fn body_wrappers_hold_their_payload() {
    let j = Json(41u32);
    assert_eq!(j.0, 41);
    let f = Form("x=1".to_string());
    assert_eq!(f.0, "x=1");
}

#[test]
fn rejection_errors() {
    let e = rejection_error(JsonRejectionKind::SyntaxError, "bad json".to_string());
    assert_eq!(e.error, "errors.http.bad_request.json.syntax_error");
    assert_eq!(e.message, "bad json");
    assert_eq!(e.values, vec!["bad json".to_string()]);
    assert_eq!(e.status_code, 400);

    let e = rejection_error(JsonRejectionKind::BytesRejection, "eof".to_string());
    assert_eq!(e.error, "errors.http.bad_request.json.bytes_rejection");
    let e = rejection_error(JsonRejectionKind::DataError, "missing field".to_string());
    assert_eq!(e.error, "errors.http.bad_request.json.data_error");

    let e = rejection_error(JsonRejectionKind::MissingContentType, String::new());
    assert_eq!(e.error, "errors.http.bad_request.json.missing_content_type");
    assert_eq!(e.message, "Expected request with `Content-Type: application/json`");
    assert!(e.values.is_empty());
    assert_eq!(e.status_code, 415);

    let e = rejection_error(JsonRejectionKind::Unknown, "?".to_string());
    assert_eq!(e.error, "errors.http.bad_request.json.unknown");
    assert_eq!(e.message, "Unknown JSON error: ?");
}
