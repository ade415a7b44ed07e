use majordome::builder::{pair_key, AppModBuilder, BuildErrorKind, ModuleDecl};
use majordome::cache::{cache_config, cache_item_from, fresh_nonce, MajordomeCacheGetter, MajordomeExpiry, CacheValue};
use majordome::config::{AppModConfigGetter, ConfigMap};
use majordome::error::MajordomeError;
use majordome::module::{AppModInitOptions, AppModTask};
use majordome::signal::sleep_wake_instant;
use majordome::singleflight::SingleFlight;
use std::collections::HashMap;

fn decl(
    name: &str,
    target: u64,
    config_deps: Vec<u64>,
    config: Option<u64>,
    init_deps: Vec<u64>,
    init_ok: bool,
    runtime: bool,
) -> ModuleDecl {
    ModuleDecl {
        name: name.to_string(),
        target,
        config_deps,
        config,
        init_deps,
        init_ok,
        runtime,
    }
}

fn builder_over(decls: Vec<(u64, ModuleDecl)>) -> AppModBuilder {
    let symbols: HashMap<u64, ModuleDecl> = decls.into_iter().collect();
    AppModBuilder::new(symbols, Vec::new())
}

#[test]
fn singleton_shared_instance() {
    // Two distinct pointer symbols, same target type, equal configuration:
    // one instance, constructed once.
    let mut b = builder_over(vec![
        (1, decl("a", 7, vec![], Some(5), vec![], true, true)),
        (2, decl("b", 7, vec![], Some(5), vec![], true, false)),
    ]);
    let i1 = b.load(1).unwrap();
    let i2 = b.load(2).unwrap();
    assert_eq!(i1, i2);
    assert_eq!(b.loaded_targets_count, 1);
    let app = b.build();
    assert_eq!(app.get(1).unwrap(), app.get(2).unwrap());
}

#[test]
fn distinct_configs_distinct_instances() {
    let mut b = builder_over(vec![
        (1, decl("a", 7, vec![], Some(5), vec![], true, false)),
        (2, decl("b", 7, vec![], Some(6), vec![], true, false)),
    ]);
    let i1 = b.load(1).unwrap();
    let i2 = b.load(2).unwrap();
    assert_ne!(i1, i2);
    assert_eq!(b.loaded_targets_count, 2);
}

#[test]
fn idempotent_load() {
    let mut b = builder_over(vec![(1, decl("a", 7, vec![], Some(5), vec![], true, true))]);
    let i1 = b.load(1).unwrap();
    let count = b.loaded_targets_count;
    let i2 = b.load(1).unwrap();
    assert_eq!(i1, i2);
    assert_eq!(b.loaded_targets_count, count);
    assert_eq!(count, 1);
}

#[test]
fn config_cycle_fails_with_chain() {
    // a's configuration step requests b, whose configuration step requests
    // a again: fatal, chain holds both, nothing constructed.
    let mut b = builder_over(vec![
        (1, decl("a", 7, vec![2], Some(5), vec![], true, false)),
        (2, decl("b", 8, vec![1], Some(5), vec![], true, false)),
    ]);
    let e = b.load(1).unwrap_err();
    assert_eq!(e.kind, BuildErrorKind::Cycle);
    assert_eq!(e.symbol, 1);
    assert_eq!(e.chain, vec![1, 2]);
    assert_eq!(b.loaded_targets_count, 0);
    assert_eq!(
        b.repr_build_error(&e),
        "a -> b | Cycle detected while loading module a"
    );
}

#[test]
fn duplicate_pair_on_chain_fails() {
    // Two symbols with an equal (target, configuration) pair, one
    // requested while the other is mid-construction: duplicate
    // instantiation, not legitimate sharing.
    let mut b = builder_over(vec![
        (1, decl("a", 7, vec![], Some(5), vec![2], true, false)),
        (2, decl("b", 7, vec![], Some(5), vec![], true, false)),
    ]);
    let e = b.load(1).unwrap_err();
    assert_eq!(e.kind, BuildErrorKind::DuplicateInstance);
    assert_eq!(e.symbol, 2);
}

#[test]
fn nested_dependency_shares_after_construction() {
    // b is constructed as a's dependency; requesting b later is a cache
    // hit on the symbol, and a's registration follows b's.
    let mut b = builder_over(vec![
        (1, decl("a", 7, vec![2], Some(5), vec![], true, true)),
        (2, decl("b", 8, vec![], Some(9), vec![], true, true)),
    ]);
    let ia = b.load(1).unwrap();
    let ib = b.load(2).unwrap();
    assert_ne!(ia, ib);
    assert_eq!(b.loaded_targets_count, 2);
    let app = b.build();
    assert_eq!(app.start_order(), vec!["b".to_string(), "a".to_string()]);
}

#[test]
fn add_chains_and_exists_reports() {
    let b = builder_over(vec![
        (1, decl("a", 7, vec![], Some(5), vec![], true, false)),
        (2, decl("b", 8, vec![], Some(5), vec![], true, false)),
    ]);
    assert!(!b.exists_symbol(1));
    let b = b.add(1).unwrap().add(2).unwrap();
    assert!(b.exists_symbol(1));
    assert!(b.exists_symbol(2));
    assert!(!b.exists_symbol(3));
    assert_eq!(b.loaded_targets_count, 2);
}

#[test]
fn config_failure_is_fatal() {
    let mut b = builder_over(vec![(1, decl("a", 7, vec![], None, vec![], true, false))]);
    let e = b.load(1).unwrap_err();
    assert_eq!(e.kind, BuildErrorKind::ConfigFailed);
}

#[test]
fn init_failure_is_fatal() {
    let mut b = builder_over(vec![(1, decl("a", 7, vec![], Some(5), vec![], false, false))]);
    let e = b.load(1).unwrap_err();
    assert_eq!(e.kind, BuildErrorKind::InitFailed);
}

#[test]
fn unknown_symbol_is_fatal() {
    let mut b = builder_over(vec![]);
    let e = b.load(42).unwrap_err();
    assert_eq!(e.kind, BuildErrorKind::UnknownSymbol);
}

#[test]
fn load_chain_renders_as_trail() {
    let mut b = builder_over(vec![
        (1, decl("a", 7, vec![2], Some(5), vec![], true, false)),
        (2, decl("b", 8, vec![1], Some(5), vec![], true, false)),
    ]);
    assert_eq!(b.repr_loadchain(), "");
    let _ = b.load(1).unwrap_err();
    // the chain is left standing where the failure happened
    assert_eq!(b.repr_loadchain(), "a -> b");
}

#[test]
fn lookup_error_for_unresolved_symbol() {
    let b = builder_over(vec![(1, decl("alpha", 7, vec![], Some(5), vec![], true, false))]);
    let app = b.build();
    let e = app.get(1).unwrap_err();
    assert_eq!(e.error, "errors.majordome.module_not_found");
    assert_eq!(e.message, "Module alpha not found");
    assert_eq!(e.values, vec!["alpha".to_string()]);
    assert_eq!(e.status_code, 500);
}

#[test]
fn shutdown_ordering() {
    // Modules registered in order [a, b, c]: start hooks fire in that
    // order; stop flips `closing` before handing out the stop hooks, one
    // per module in order, followed by the tracked tasks; the lists are
    // consumed so stop logic runs at most once.
    let mut b = builder_over(vec![
        (1, decl("a", 7, vec![], Some(1), vec![], true, true)),
        (2, decl("b", 8, vec![], Some(1), vec![], true, true)),
        (3, decl("c", 9, vec![], Some(1), vec![], true, true)),
    ]);
    b.load(1).unwrap();
    b.load(2).unwrap();
    b.load(3).unwrap();
    let mut app = b.build();
    assert_eq!(app.start_order(), vec!["a".to_string(), "b".to_string(), "c".to_string()]);
    app.inner.modules.register_task(AppModTask::new(5).name("worker").module_name("a"));
    assert!(!app.is_closing());
    let tasks = app.stop(100);
    assert!(app.is_closing());
    assert_eq!(tasks.len(), 4);
    assert_eq!(tasks[0].name, "@stop");
    assert_eq!(tasks[0].module_name, "a");
    assert_eq!(tasks[1].module_name, "b");
    assert_eq!(tasks[2].module_name, "c");
    assert_eq!(tasks[3].name, "worker");
    let again = app.stop(200);
    assert_eq!(again.len(), 0);
}

#[test]
fn exiting_does_not_stop_modules() {
    let mut b = builder_over(vec![(1, decl("a", 7, vec![], Some(1), vec![], true, true))]);
    b.load(1).unwrap();
    let mut app = b.build();
    assert!(!app.is_exiting());
    app.begin_exiting();
    assert!(app.is_exiting());
    assert!(!app.is_closing());
    assert_eq!(app.inner.modules.modules_refs.len(), 1);
}

#[test]
fn signal_race_cuts_sleep_short() {
    // exiting fires three seconds into a ten-second sleep
    let woke = sleep_wake_instant(0, 10_000, false, Some(3_000), None);
    assert_eq!(woke, 3_000);
    assert!(woke < 10_000);
    // the same sleep ignoring exit runs to its deadline
    assert_eq!(sleep_wake_instant(0, 10_000, true, Some(3_000), None), 10_000);
    // and reacts to closing only
    assert_eq!(sleep_wake_instant(0, 10_000, true, Some(3_000), Some(4_000)), 4_000);
    // a signal that fired before the sleep began wakes it immediately
    assert_eq!(sleep_wake_instant(500, 10_000, false, Some(100), None), 500);
}

#[test]
fn single_flight_computes_once() {
    let mut sf: SingleFlight<u64> = SingleFlight::new();
    assert_eq!(sf.get(1), None);
    // the first production publishes
    let r1: Result<u64, String> = sf.complete(1, Ok(5));
    assert_eq!(r1, Ok(5));
    assert_eq!(sf.get(1), Some(5));
    // a production that was already in flight is discarded
    let r2: Result<u64, String> = sf.complete(1, Ok(9));
    assert_eq!(r2, Ok(5));
    assert_eq!(sf.get(1), Some(5));
    // even a late failure observes the published value
    let r3: Result<u64, String> = sf.complete(1, Err("boom".to_string()));
    assert_eq!(r3, Ok(5));
}

#[test]
fn failed_production_is_retryable() {
    let mut sf: SingleFlight<u64> = SingleFlight::new();
    let r1: Result<u64, String> = sf.complete(2, Err("boom".to_string()));
    assert_eq!(r1, Err("boom".to_string()));
    // the key stays absent: nothing was poisoned
    assert_eq!(sf.get(2), None);
    // the next attempt runs afresh and succeeds
    let r2: Result<u64, String> = sf.complete(2, Ok(7));
    assert_eq!(r2, Ok(7));
    assert_eq!(sf.get(2), Some(7));
}

#[test]
fn config_getter_keys_and_defaults() {
    let opts: AppModInitOptions<()> = AppModInitOptions::new();
    let getter = AppModConfigGetter::new(&opts, "majordome_cache");
    assert_eq!(getter.create_key("max_size"), "MAJORDOME_CACHE_MAX_SIZE");
    let ns_opts: AppModInitOptions<()> = AppModInitOptions::new().ns("shop");
    let ns_getter = AppModConfigGetter::new(&ns_opts, "db.scylla");
    assert_eq!(ns_getter.create_key("hosts"), "SHOP_DB.SCYLLA_HOSTS");

    let mut b = AppModBuilder::new(
        HashMap::new(),
        vec![("MAJORDOME_CACHE_MAX_SIZE".to_string(), "500".to_string())],
    );
    let cfg = cache_config(&mut b, &opts);
    assert_eq!(cfg.max_size, 500);
    assert_eq!(b.env_entries.len(), 1);
    assert_eq!(b.env_entries[0].key, "MAJORDOME_CACHE_MAX_SIZE");
    assert_eq!(b.env_entries[0].value, "1000");

    let mut empty = AppModBuilder::new(HashMap::new(), Vec::new());
    let cfg = cache_config(&mut empty, &opts);
    assert_eq!(cfg.max_size, 1000);
}

#[test]
fn config_getter_required_and_optional() {
    let opts: AppModInitOptions<()> = AppModInitOptions::new();
    let getter = AppModConfigGetter::new(&opts, "svc");
    let mut b = AppModBuilder::new(
        HashMap::new(),
        vec![
            ("SVC_PORT".to_string(), "8080".to_string()),
            ("SVC_RETRIES".to_string(), "nonsense".to_string()),
        ],
    );
    let port: Result<u64, String> = getter.get_or_panic(&mut b, "port");
    assert_eq!(port, Ok(8080));
    let missing: Result<u64, String> = getter.get_or_panic(&mut b, "timeout");
    assert_eq!(
        missing,
        Err("Config value for key 'SVC_TIMEOUT' not found.".to_string())
    );
    let bad: Result<u64, String> = getter.get_or_panic(&mut b, "retries");
    assert_eq!(
        bad,
        Err("Failed to parse config value for key 'SVC_RETRIES'.".to_string())
    );
    let optional: Option<u64> = getter.get_optional(&mut b, "port");
    assert_eq!(optional, Some(8080));
    let optional_missing: Option<u64> = getter.get_optional(&mut b, "timeout");
    assert_eq!(optional_missing, None);
    let optional_bad: Option<u64> = getter.get_optional(&mut b, "retries");
    assert_eq!(optional_bad, None);
    let fallback: u64 = getter.get_or(&mut b, "retries", &3);
    assert_eq!(fallback, 3);
}

#[test]
fn config_lookup_first_match_wins() {
    let cfg = ConfigMap::new(vec![
        ("K".to_string(), "first".to_string()),
        ("K".to_string(), "second".to_string()),
    ]);
    assert_eq!(cfg.get(&"K".to_string()), Some(&"first".to_string()));
    assert_eq!(cfg.get(&"MISSING".to_string()), None);
}

#[test]
fn error_values() {
    let e = MajordomeError::new(
        "errors.test.code".to_string(),
        "it broke".to_string(),
        vec!["x".to_string()],
        418,
    );
    assert_eq!(e.error, "errors.test.code");
    assert_eq!(e.message, "it broke");
    assert_eq!(e.values, vec!["x".to_string()]);
    assert_eq!(e.status_code, 418);
    let r: Result<(), MajordomeError> = e.clone().err();
    assert!(r.is_err());

    let internal = MajordomeError::from_internal();
    assert_eq!(internal.error, "errors.service.internal");
    assert_eq!(internal.status_code, 500);
    assert_eq!(internal.values.len(), 1);
    assert_eq!(internal.values[0].len(), 36);
    assert_eq!(
        internal.message,
        format!(
            "Something went wrong. Our team has been informed. (Error ID: {})",
            internal.values[0]
        )
    );
}

#[test]
fn cache_pieces() {
    let exp = MajordomeExpiry;
    let eternal = CacheValue { value: 1u64, ttl: 0, created_at_millis: 0, nonce: 0 };
    assert_eq!(exp.expire_after_create((1, 2), &eternal), None);
    let short = CacheValue { value: 1u64, ttl: 60, created_at_millis: 0, nonce: 0 };
    assert_eq!(exp.expire_after_create((1, 2), &short), Some(60));

    let getter = MajordomeCacheGetter::new(99).ttl(60);
    assert_eq!(getter.key, 99);
    assert_eq!(getter.ttl, 60);

    let _nonce = fresh_nonce();
    let item = cache_item_from(std::sync::Arc::new(7u64), 1_000, 5, 5);
    assert!(!item.hit());
    assert_eq!(item.age(4_500), 3_500);
    assert_eq!(item.age(500), 0);
    assert_eq!(*item.value(), 7);
    let other = cache_item_from(std::sync::Arc::new(7u64), 1_000, 5, 6);
    assert!(other.hit());
}

#[test]
fn task_records() {
    let t = AppModTask::new(10);
    assert_eq!(t.name, "unknown");
    assert_eq!(t.module_name, "unknown");
    assert!(t.wait);
    let t = t.name("probe").module_name("db").wait(false);
    assert_eq!(t.name, "probe");
    assert_eq!(t.module_name, "db");
    assert!(!t.wait);
    assert_eq!(t.elapsed(25), 15);
    assert_eq!(t.elapsed(5), 0);
}

#[test]
fn dedup_keys_are_injective() {
    assert_eq!(pair_key(0, 0), 0);
    assert_eq!(pair_key(0, 7), 7);
    assert_eq!(pair_key(1, 0), 0x1_0000_0000_0000_0000);
    assert_ne!(pair_key(1, 2), pair_key(2, 1));
    assert_eq!(pair_key(u64::MAX, u64::MAX), u128::MAX);
}

#[test]
fn init_options_builder() {
    let o: AppModInitOptions<u32> = AppModInitOptions::new().config(9).ns("shop");
    assert_eq!(o.config, Some(9));
    assert_eq!(o.ns, Some("shop".to_string()));
}
