use vstd::prelude::*;

use crate::app::{MajordomeApp, MajordomeAppInner};
use crate::config::{ConfigMap, EnvEntry};
use crate::module::AppModTask;
use crate::signal::MajordomeSignal;
use crate::store::ModuleStore;
use crate::app::module_display_name;
use crate::strings::{join_spec, join_with};
use vstd::seq_lib::*;
use vstd::set_lib::lemma_len_subset;

verus! {

broadcast use vstd::std_specs::hash::group_hash_axioms;

/// What the runtime knows about one pointer symbol: the declared behaviour
/// of the module requested under it. The configuration and construction
/// steps are programmer-driven; here they are declared as data — which
/// other symbols each step requests, what configuration value the first
/// resolves to (`None`: the step fails), and whether the second succeeds.
pub struct ModuleDecl {
    /// Display name used for the load-chain trace and the runtime list.
    pub name: String,
    /// Identity key of the target module type. Distinct symbols may share it.
    pub target: u64,
    /// Symbols requested while the configuration step runs.
    pub config_deps: Vec<u64>,
    /// The resolved configuration value; `None` means the step fails.
    pub config: Option<u64>,
    /// Symbols requested while the construction step runs.
    pub init_deps: Vec<u64>,
    /// Whether the construction step succeeds.
    pub init_ok: bool,
    /// Whether the instance takes part in the start/stop lifecycle.
    pub runtime: bool,
}

/// Why a build was aborted.
#[derive(Clone, Copy, Debug, PartialEq, Eq)]
pub enum BuildErrorKind {
    /// A step requested a symbol that was never declared.
    UnknownSymbol,
    /// A symbol was requested again while its own resolution was still in
    /// progress: a dependency cycle.
    Cycle,
    /// The same (target type, configuration) pair reached construction
    /// twice simultaneously — duplicate instantiation, distinct from a
    /// legitimate dedup-cache hit.
    DuplicateInstance,
    /// A configuration step failed.
    ConfigFailed,
    /// A construction step failed.
    InitFailed,
    /// Resolution depth exceeded the number of declared symbols. `load`
    /// never reports this: its contract rules the outcome out.
    Exhausted,
}

/// A fatal build error: its kind, the symbol whose resolution failed, and
/// the in-progress load chain at the moment of failure.
#[derive(Debug)]
pub struct BuildError {
    pub kind: BuildErrorKind,
    pub symbol: u64,
    pub chain: Vec<u64>,
}

#[verifier::ext_equal]
pub struct ErrModel {
    pub kind: BuildErrorKind,
    pub symbol: u64,
    pub chain: Seq<u64>,
}

impl View for BuildError {
    type V = ErrModel;

    open spec fn view(&self) -> ErrModel {
        ErrModel { kind: self.kind, symbol: self.symbol, chain: self.chain@ }
    }
}

/// The abstract builder state: the declaration table, the symbol bindings,
/// the dedup cache keyed by (target, configuration), the set of pairs that
/// ever reached construction, the in-progress chain, the runtime list in
/// registration order, and the construction counter.
#[verifier::ext_equal]
pub struct BuilderModel {
    pub symbols: Map<u64, ModuleDecl>,
    pub bound: Map<u64, u64>,
    pub cache: Map<u128, u64>,
    pub pairs: Set<u128>,
    pub chain: Seq<u64>,
    pub order: Seq<(Seq<char>, u64)>,
    pub count: u64,
    pub next: u64,
}

#[verifier::ext_equal]
pub enum Outcome {
    Done { m: BuilderModel, instance: u64 },
    Fail { m: BuilderModel, e: ErrModel },
}

#[verifier::ext_equal]
pub enum DepsOutcome {
    Done { m: BuilderModel },
    Fail { m: BuilderModel, e: ErrModel },
}

/// The dedup key of one (target type, resolved configuration) pair.
pub open spec fn spec_pair_key(target: u64, config: u64) -> u128 {
    ((target as int) * 0x1_0000_0000_0000_0000 + (config as int)) as u128
}

pub open spec fn model_push(m: BuilderModel, s: u64) -> BuilderModel {
    BuilderModel { chain: m.chain.push(s), ..m }
}

pub open spec fn model_bind_hit(m: BuilderModel, s: u64, inst: u64) -> BuilderModel {
    BuilderModel { bound: m.bound.insert(s, inst), chain: m.chain.drop_last(), ..m }
}

pub open spec fn model_mark(m: BuilderModel, k: u128) -> BuilderModel {
    BuilderModel { pairs: m.pairs.insert(k), ..m }
}

pub open spec fn model_construct(m: BuilderModel, s: u64, k: u128, d: ModuleDecl) -> BuilderModel {
    BuilderModel {
        bound: m.bound.insert(s, m.next),
        cache: m.cache.insert(k, m.next),
        chain: m.chain.drop_last(),
        order: if d.runtime {
            m.order.push((d.name@, m.next))
        } else {
            m.order
        },
        count: (m.count + 1) as u64,
        next: (m.next + 1) as u64,
        ..m
    }
}

/// Well-formedness of the builder state, established at construction and
/// preserved by every load: the chain is a duplicate-free stack of declared
/// symbols, every bound symbol is backed by its dedup-cache entry, and the
/// construction counter counts exactly the cache entries.
pub open spec fn wf(m: BuilderModel) -> bool {
    &&& m.symbols.dom().finite()
    &&& m.bound.dom().finite()
    &&& m.cache.dom().finite()
    &&& m.symbols.dom().len() <= usize::MAX
    &&& m.chain.no_duplicates()
    &&& (forall|i: int|
        0 <= i < m.chain.len() ==> m.symbols.dom().contains(#[trigger] m.chain[i]))
    &&& m.bound.dom().subset_of(m.symbols.dom())
    &&& m.count <= m.bound.dom().len()
    &&& m.count == m.cache.dom().len()
    &&& m.next == m.count
    &&& (forall|s: u64| #[trigger] m.bound.dom().contains(s) ==> bound_link(m, s))
}

/// A bound symbol is backed by the dedup cache: its declaration resolved to
/// some configuration, and the symbol is bound to exactly the instance the
/// cache holds for that (target, configuration) pair.
pub open spec fn bound_link(m: BuilderModel, s: u64) -> bool {
    &&& m.symbols.contains_key(s)
    &&& m.symbols[s].config is Some
    &&& {
        let k = spec_pair_key(m.symbols[s].target, m.symbols[s].config->0);
        &&& m.cache.contains_key(k)
        &&& m.bound[s] == m.cache[k]
    }
}

/// Fuel sufficient for `resolve` from state `m`: one unit per symbol not
/// yet on the chain, plus one.
pub open spec fn fuel_of(m: BuilderModel) -> nat {
    (m.symbols.dom().len() + 1 - m.chain.len()) as nat
}

/// The resolution interpreter: what one `load` request does to the builder
/// state. Depth-first: an already-bound symbol is an idempotent re-request;
/// an undeclared one is fatal; a symbol already on the chain is a cycle;
/// otherwise the configuration step's requests resolve first, then the
/// dedup cache decides between sharing and construction, and construction
/// resolves its own requests before the instance is bound everywhere.
pub open spec fn resolve(m: BuilderModel, s: u64, fuel: nat) -> Outcome
    decreases fuel, 1int, 0int,
{
    if m.bound.contains_key(s) {
        Outcome::Done { m, instance: m.bound[s] }
    } else if !m.symbols.contains_key(s) {
        Outcome::Fail {
            m,
            e: ErrModel { kind: BuildErrorKind::UnknownSymbol, symbol: s, chain: m.chain },
        }
    } else if m.chain.contains(s) {
        Outcome::Fail { m, e: ErrModel { kind: BuildErrorKind::Cycle, symbol: s, chain: m.chain } }
    } else if fuel == 0 {
        Outcome::Fail {
            m,
            e: ErrModel { kind: BuildErrorKind::Exhausted, symbol: s, chain: m.chain },
        }
    } else {
        let d = m.symbols[s];
        let m1 = model_push(m, s);
        match resolve_deps(m1, d.config_deps@, (fuel - 1) as nat) {
            DepsOutcome::Fail { m: m2, e } => Outcome::Fail { m: m2, e },
            DepsOutcome::Done { m: m2 } => match d.config {
                Option::None => Outcome::Fail {
                    m: m2,
                    e: ErrModel {
                        kind: BuildErrorKind::ConfigFailed,
                        symbol: s,
                        chain: m2.chain,
                    },
                },
                Option::Some(c) => {
                    let k = spec_pair_key(d.target, c);
                    if m2.cache.contains_key(k) {
                        Outcome::Done {
                            m: model_bind_hit(m2, s, m2.cache[k]),
                            instance: m2.cache[k],
                        }
                    } else if m2.pairs.contains(k) {
                        Outcome::Fail {
                            m: m2,
                            e: ErrModel {
                                kind: BuildErrorKind::DuplicateInstance,
                                symbol: s,
                                chain: m2.chain,
                            },
                        }
                    } else {
                        match resolve_deps(model_mark(m2, k), d.init_deps@, (fuel - 1) as nat) {
                            DepsOutcome::Fail { m: m4, e } => Outcome::Fail { m: m4, e },
                            DepsOutcome::Done { m: m4 } => {
                                if !d.init_ok {
                                    Outcome::Fail {
                                        m: m4,
                                        e: ErrModel {
                                            kind: BuildErrorKind::InitFailed,
                                            symbol: s,
                                            chain: m4.chain,
                                        },
                                    }
                                } else {
                                    Outcome::Done {
                                        m: model_construct(m4, s, k, d),
                                        instance: m4.next,
                                    }
                                }
                            },
                        }
                    }
                },
            },
        }
    }
}

/// Resolve a list of requested symbols left to right, stopping at the
/// first failure.
pub open spec fn resolve_deps(m: BuilderModel, deps: Seq<u64>, fuel: nat) -> DepsOutcome
    decreases fuel, 2int, deps.len(),
{
    if deps.len() == 0 {
        DepsOutcome::Done { m }
    } else {
        match resolve(m, deps[0], fuel) {
            Outcome::Fail { m: m1, e } => DepsOutcome::Fail { m: m1, e },
            Outcome::Done { m: m1, .. } => resolve_deps(m1, deps.drop_first(), fuel),
        }
    }
}

/// `r` and the state after the call are exactly what the interpreter says.
pub open spec fn outcome_matches(
    o: Outcome,
    m_after: BuilderModel,
    r: Result<u64, BuildError>,
) -> bool {
    match r {
        Result::Ok(v) => o == (Outcome::Done { m: m_after, instance: v }),
        Result::Err(e) => o == (Outcome::Fail { m: m_after, e: e@ }),
    }
}

pub open spec fn deps_outcome_matches(
    o: DepsOutcome,
    m_after: BuilderModel,
    r: Result<(), BuildError>,
) -> bool {
    match r {
        Result::Ok(_) => o == (DepsOutcome::Done { m: m_after }),
        Result::Err(e) => o == (DepsOutcome::Fail { m: m_after, e: e@ }),
    }
}

/// A duplicate-free chain of declared symbols is no longer than the table.
pub proof fn lemma_chain_le_dom(m: BuilderModel)
    requires
        wf(m),
    ensures
        m.chain.len() <= m.symbols.dom().len(),
{
    m.chain.unique_seq_to_set();
    assert forall|x: u64| m.chain.to_set().contains(x) implies m.symbols.dom().contains(x) by {
        let i = choose|i: int| 0 <= i < m.chain.len() && m.chain[i] == x;
        assert(m.symbols.dom().contains(m.chain[i]));
    }
    lemma_len_subset(m.chain.to_set(), m.symbols.dom());
}

/// The builder: exclusively owned by one resolution flow for the whole
/// build phase. `load` resolves one pointer symbol depth-first against the
/// declaration table, deduplicating by (target type, configuration) and
/// failing fast on cycles, duplicate instantiation, and step failures.
pub struct AppModBuilder {
    pub app: MajordomeAppInner,
    pub loadchain: Vec<u64>,
    pub loaded: std::collections::HashSet<u128>,
    pub loaded_targets_count: u64,
    pub next_instance: u64,
    pub env_entries: Vec<EnvEntry>,
}

impl AppModBuilder {
    /// The abstract state this builder is in.
    pub open spec fn bmodel(&self) -> BuilderModel {
        BuilderModel {
            symbols: self.app.symbols@,
            bound: self.app.modules.modules@,
            cache: self.app.modules.modules_targets_cache@,
            pairs: self.loaded@,
            chain: self.loadchain@,
            order: self.app.modules.modules_refs@.map_values(|p: (String, u64)| (p.0@, p.1)),
            count: self.loaded_targets_count,
            next: self.next_instance,
        }
    }

    /// A fresh builder over a declaration table and resolved configuration:
    /// nothing bound, nothing cached, nothing running.
    pub fn new(
        symbols: std::collections::HashMap<u64, ModuleDecl>,
        config: Vec<(String, String)>,
    ) -> (r: AppModBuilder)
        ensures
            wf(r.bmodel()),
            r.bmodel().symbols == symbols@,
            r.bmodel().bound == Map::<u64, u64>::empty(),
            r.bmodel().cache == Map::<u128, u64>::empty(),
            r.bmodel().pairs == Set::<u128>::empty(),
            r.bmodel().chain == Seq::<u64>::empty(),
            r.bmodel().order == Seq::<(Seq<char>, u64)>::empty(),
            r.bmodel().count == 0,
            r.app.config.entries == config,
            !r.app.signal.is_exiting,
            !r.app.signal.is_closing,
            r.env_entries@ == Seq::<EnvEntry>::empty(),
    {
        let n = symbols.len();
        let b = AppModBuilder {
            app: MajordomeAppInner {
                config: ConfigMap::new(config),
                symbols,
                modules: ModuleStore::new(),
                signal: MajordomeSignal::new(),
            },
            loadchain: Vec::new(),
            loaded: std::collections::HashSet::new(),
            loaded_targets_count: 0,
            next_instance: 0,
            env_entries: Vec::new(),
        };
        proof {
            assert(b.bmodel().order =~= Seq::<(Seq<char>, u64)>::empty());
            assert(b.bmodel().chain.to_set() =~= Set::<u64>::empty());
        }
        b
    }

    /// Record one documented configuration key with its default value.
    pub fn register_env_entry(&mut self, key: String, value: String)
        ensures
            final(self).env_entries@ == old(self).env_entries@.push(
                (EnvEntry { key, value }),
            ),
            final(self).app == old(self).app,
            final(self).loadchain == old(self).loadchain,
            final(self).loaded == old(self).loaded,
            final(self).loaded_targets_count == old(self).loaded_targets_count,
            final(self).next_instance == old(self).next_instance,
    {
        self.env_entries.push(EnvEntry { key, value });
    }

    /// Whether a symbol has already been resolved.
    pub fn exists_symbol(&self, symbol: u64) -> (r: bool)
        ensures
            r == self.bmodel().bound.contains_key(symbol),
    {
        self.app.modules.modules.contains(symbol)
    }

    /// The dedup lookup, keyed by structural identity of the resolved
    /// configuration.
    pub fn get_target_module_cache(&self, key: u128) -> (r: Option<u64>)
        ensures
            match r {
                Some(inst) => self.bmodel().cache.contains_key(key) && inst
                    == self.bmodel().cache[key],
                None => !self.bmodel().cache.contains_key(key),
            },
    {
        match self.app.modules.modules_targets_cache.get(&key) {
            Some(v) => Some(*v),
            None => None,
        }
    }

    /// Register a constructed instance in the dedup cache.
    pub fn insert_target_module_cache(&mut self, key: u128, instance: u64)
        ensures
            final(self).app.modules.modules_targets_cache@ == old(
                self,
            ).app.modules.modules_targets_cache@.insert(key, instance),
            final(self).app.modules.modules == old(self).app.modules.modules,
            final(self).app.modules.modules_refs == old(self).app.modules.modules_refs,
            final(self).app.modules.handles == old(self).app.modules.handles,
            final(self).app.symbols == old(self).app.symbols,
            final(self).app.config == old(self).app.config,
            final(self).app.signal == old(self).app.signal,
            final(self).loadchain == old(self).loadchain,
            final(self).loaded == old(self).loaded,
            final(self).loaded_targets_count == old(self).loaded_targets_count,
            final(self).next_instance == old(self).next_instance,
            final(self).env_entries == old(self).env_entries,
    {
        self.app.modules.modules_targets_cache.insert(key, instance);
    }
}

/// Frame and monotonicity facts every load call guarantees besides the
/// interpreter correspondence: well-formedness is preserved, the table is
/// untouched, a successful call restores the chain, the bound-status of
/// symbols on the caller's chain is untouched, pairs only grow, and a pair
/// already marked at entry never gains a cache entry behind its
/// construction's back.
pub open spec fn load_frame(m0: BuilderModel, m1: BuilderModel, ok: bool) -> bool {
    &&& wf(m1)
    &&& m1.symbols == m0.symbols
    &&& (ok ==> m1.chain == m0.chain)
    &&& (forall|x: u64| #[trigger]
        m0.chain.contains(x) ==> m1.bound.contains_key(x) == m0.bound.contains_key(x))
    &&& m0.pairs.subset_of(m1.pairs)
    &&& (forall|k: u128|
        #[trigger] m1.cache.contains_key(k) && !m0.cache.contains_key(k)
            ==> !m0.pairs.contains(k))
}

impl AppModBuilder {
    /// Resolve one pointer symbol: the caller-facing entry of the
    /// dependency builder. Exactly the interpreter's verdict, on the
    /// interpreter's state.
    pub fn load(&mut self, symbol: u64) -> (r: Result<u64, BuildError>)
        requires
            wf(old(self).bmodel()),
        ensures
            load_frame(old(self).bmodel(), final(self).bmodel(), r is Ok),
            outcome_matches(
                resolve(old(self).bmodel(), symbol, fuel_of(old(self).bmodel())),
                final(self).bmodel(),
                r,
            ),
        decreases
                self.bmodel().symbols.dom().len() - self.bmodel().chain.len(),
                1int,
                0int,
    {
        let ghost m0 = self.bmodel();
        proof {
            lemma_chain_le_dom(m0);
        }
        // Idempotent re-request: an already-bound symbol is returned as is.
        let bound0 = match self.app.modules.modules.get(symbol) {
            Some(v) => Some(*v),
            None => None,
        };
        if let Some(inst) = bound0 {
            return Ok(inst);
        }
        // An undeclared symbol is a fatal configuration error.
        if !self.app.symbols.contains_key(&symbol) {
            return Err(
                BuildError {
                    kind: BuildErrorKind::UnknownSymbol,
                    symbol,
                    chain: copy_syms(&self.loadchain),
                },
            );
        }
        // A request for a symbol whose own resolution is still in progress
        // is a dependency cycle: fail with the chain, do not recurse.
        if chain_contains(&self.loadchain, symbol) {
            return Err(
                BuildError {
                    kind: BuildErrorKind::Cycle,
                    symbol,
                    chain: copy_syms(&self.loadchain),
                },
            );
        }
        // Snapshot the declaration.
        let name: String;
        let target: u64;
        let config: Option<u64>;
        let init_ok: bool;
        let runtime: bool;
        let config_deps: Vec<u64>;
        let init_deps: Vec<u64>;
        match self.app.symbols.get(&symbol) {
            Some(decl) => {
                name = decl.name.clone();
                target = decl.target;
                config = decl.config;
                init_ok = decl.init_ok;
                runtime = decl.runtime;
                config_deps = copy_syms(&decl.config_deps);
                init_deps = copy_syms(&decl.init_deps);
            },
            None => {
                proof {
                    assert(false);
                }
                return Err(
                    BuildError {
                        kind: BuildErrorKind::UnknownSymbol,
                        symbol,
                        chain: Vec::new(),
                    },
                );
            },
        }
        let ghost d = m0.symbols[symbol];
        // Push this symbol before its configuration step runs, so that a
        // configuration-step cycle is caught on re-entry instead of
        // recursed into.
        self.loadchain.push(symbol);
        let ghost m1 = self.bmodel();
        proof {
            assert(m1 =~~= model_push(m0, symbol));
            assert forall|i: int, j: int|
                0 <= i < m1.chain.len() && 0 <= j < m1.chain.len() && i != j implies m1.chain[i]
                != m1.chain[j] by {
                if i < m0.chain.len() && j < m0.chain.len() {
                } else if i == m0.chain.len() && j < m0.chain.len() {
                    assert(m0.chain[j] != symbol) by {
                        if m0.chain[j] == symbol {
                            assert(m0.chain.contains(symbol));
                        }
                    }
                } else if j == m0.chain.len() && i < m0.chain.len() {
                    assert(m0.chain[i] != symbol) by {
                        if m0.chain[i] == symbol {
                            assert(m0.chain.contains(symbol));
                        }
                    }
                }
            }
            assert(wf(m1));
            lemma_chain_le_dom(m1);
            assert(fuel_of(m1) == fuel_of(m0) - 1);
            assert(m1.chain.contains(symbol)) by {
                assert(m1.chain[m0.chain.len() as int] == symbol);
            }
            assert forall|x: u64| #[trigger] m0.chain.contains(x) implies m1.chain.contains(
                x,
            ) by {
                let ix = choose|ix: int| 0 <= ix < m0.chain.len() && m0.chain[ix] == x;
                assert(m1.chain[ix] == x);
            }
        }
        // The configuration step: resolve the symbols it requests first.
        proof {
            assert(config_deps@.skip(0) =~= config_deps@);
        }
        let cfg_r = self.load_deps(&config_deps, 0);
        if let Err(e) = cfg_r {
            return Err(e);
        }
        let ghost m2 = self.bmodel();
        proof {
            assert(resolve_deps(m1, d.config_deps@, (fuel_of(m0) - 1) as nat)
                == (DepsOutcome::Done { m: m2 }));
        }
        // The resolved configuration value; a missing one aborts the build.
        let c: u64;
        match config {
            Some(cv) => {
                c = cv;
            },
            None => {
                return Err(
                    BuildError {
                        kind: BuildErrorKind::ConfigFailed,
                        symbol,
                        chain: copy_syms(&self.loadchain),
                    },
                );
            },
        }
        let key = pair_key(target, c);
        // Dedup: an equal (target, configuration) pair already constructed
        // binds the symbol to the existing instance — no construction, no
        // chain entry, no duplicate side effects.
        let cached = self.get_target_module_cache(key);
        if let Some(inst) = cached {
            self.app.modules.modules.insert(symbol, inst);
            let _ = self.loadchain.pop();
            proof {
                let mf = self.bmodel();
                assert(mf.chain =~= m0.chain);
                assert(mf =~~= model_bind_hit(m2, symbol, inst));
                assert(wf(mf)) by {
                    lemma_bind_wf(m2, m0, symbol, inst);
                }
                assert forall|x: u64| #[trigger] m0.chain.contains(x) implies mf.bound.contains_key(
                    x,
                ) == m0.bound.contains_key(x) by {
                    assert(m1.chain.contains(x));
                    assert(x != symbol) by {
                        if x == symbol {
                            assert(m0.chain.contains(symbol));
                        }
                    }
                }
            }
            return Ok(inst);
        }
        // The same pair reaching construction twice simultaneously is a
        // duplicate instantiation: fatal, with the chain rendered.
        if self.loaded.contains(&key) {
            return Err(
                BuildError {
                    kind: BuildErrorKind::DuplicateInstance,
                    symbol,
                    chain: copy_syms(&self.loadchain),
                },
            );
        }
        self.loaded.insert(key);
        let ghost m3 = self.bmodel();
        proof {
            assert(m3 =~~= model_mark(m2, key));
            assert(wf(m3));
            lemma_chain_le_dom(m3);
            assert(fuel_of(m3) == fuel_of(m0) - 1);
        }
        // The construction step: resolve the symbols it requests.
        proof {
            assert(init_deps@.skip(0) =~= init_deps@);
        }
        let init_r = self.load_deps(&init_deps, 0);
        if let Err(e) = init_r {
            proof {
                let mf = self.bmodel();
                assert forall|k: u128|
                    #[trigger] mf.cache.contains_key(k) && !m0.cache.contains_key(k)
                        implies !m0.pairs.contains(k) by {
                    if m3.cache.contains_key(k) {
                    } else {
                        assert(!m3.pairs.contains(k));
                    }
                }
            }
            return Err(e);
        }
        let ghost m4 = self.bmodel();
        proof {
            assert(resolve_deps(m3, d.init_deps@, (fuel_of(m0) - 1) as nat)
                == (DepsOutcome::Done { m: m4 }));
        }
        if !init_ok {
            return Err(
                BuildError {
                    kind: BuildErrorKind::InitFailed,
                    symbol,
                    chain: copy_syms(&self.loadchain),
                },
            );
        }
        // Construct: bind the fresh instance in the dedup cache, under the
        // symbol, and (for runtime-capable modules) at the end of the
        // ordered runtime list.
        proof {
            // The symbol stayed unbound while its steps ran: it was on the
            // chain the whole time.
            assert(!m2.bound.contains_key(symbol));
            assert(!m4.bound.contains_key(symbol));
            // One more construction still fits the counters: the bound map
            // grows strictly inside the declaration table.
            let b2 = m4.bound.dom().insert(symbol);
            assert(b2.len() == m4.bound.dom().len() + 1);
            assert(b2.subset_of(m4.symbols.dom()));
            lemma_len_subset(b2, m4.symbols.dom());
            assert(m4.count < m4.symbols.dom().len());
            // The pair marked at entry to construction is still uncached.
            assert(!m4.cache.contains_key(spec_pair_key(target, c))) by {
                if m4.cache.contains_key(spec_pair_key(target, c)) {
                    assert(!m3.pairs.contains(spec_pair_key(target, c)));
                }
            }
        }
        let inst = self.next_instance;
        self.insert_target_module_cache(key, inst);
        self.app.modules.modules.insert(symbol, inst);
        if runtime {
            self.app.modules.modules_refs.push((name, inst));
        }
        self.loaded_targets_count = self.loaded_targets_count + 1;
        self.next_instance = inst + 1;
        let _ = self.loadchain.pop();
        proof {
            let mf = self.bmodel();
            assert(mf.chain =~= m0.chain);
            if d.runtime {
                assert(mf.order =~= m4.order.push((d.name@, m4.next)));
            }
            assert(mf =~~= model_construct(m4, symbol, key, d));
            lemma_construct_wf(m4, m0, symbol, key, d);
            assert forall|x: u64| #[trigger] m0.chain.contains(x) implies mf.bound.contains_key(
                x,
            ) == m0.bound.contains_key(x) by {
                assert(m1.chain.contains(x));
                assert(x != symbol) by {
                    if x == symbol {
                        assert(m0.chain.contains(symbol));
                    }
                }
            }
            assert forall|k: u128|
                #[trigger] mf.cache.contains_key(k) && !m0.cache.contains_key(k)
                    implies !m0.pairs.contains(k) by {
                if k == key {
                    assert(!m2.pairs.contains(key));
                } else {
                    if m3.cache.contains_key(k) {
                    } else {
                        assert(!m3.pairs.contains(k));
                    }
                }
            }
        }
        Ok(inst)
    }

    /// Resolve the symbols a configuration or construction step requests,
    /// left to right from position `i`, stopping at the first failure.
    fn load_deps(&mut self, deps: &Vec<u64>, i: usize) -> (r: Result<(), BuildError>)
        requires
            wf(old(self).bmodel()),
            i <= deps@.len(),
        ensures
            load_frame(old(self).bmodel(), final(self).bmodel(), r is Ok),
            deps_outcome_matches(
                resolve_deps(
                    old(self).bmodel(),
                    deps@.skip(i as int),
                    fuel_of(old(self).bmodel()),
                ),
                final(self).bmodel(),
                r,
            ),
        decreases
                self.bmodel().symbols.dom().len() - self.bmodel().chain.len(),
                2int,
                deps@.len() - i,
    {
        let ghost m0 = self.bmodel();
        if i == deps.len() {
            proof {
                assert(deps@.skip(i as int).len() == 0);
            }
            return Ok(());
        }
        let ghost rest = deps@.skip(i as int);
        let dep = deps[i];
        proof {
            assert(rest[0] == deps@[i as int]);
            assert(rest.drop_first() =~= deps@.skip(i as int + 1));
        }
        let r1 = self.load(dep);
        if let Err(e) = r1 {
            return Err(e);
        }
        let ghost mm = self.bmodel();
        proof {
            assert(fuel_of(mm) == fuel_of(m0));
        }
        let r2 = self.load_deps(deps, i + 1);
        proof {
            let mf = self.bmodel();
            assert forall|x: u64| #[trigger] m0.chain.contains(x) implies mf.bound.contains_key(x)
                == m0.bound.contains_key(x) by {
                assert(mm.chain.contains(x));
            }
            assert forall|k: u128|
                #[trigger] mf.cache.contains_key(k) && !m0.cache.contains_key(k)
                    implies !m0.pairs.contains(k) by {
                if mm.cache.contains_key(k) {
                } else {
                    assert(!mm.pairs.contains(k));
                }
            }
        }
        r2
    }
}

impl AppModBuilder {
    /// Request a symbol and hand the builder back, for chaining.
    pub fn add(self, symbol: u64) -> (r: Result<AppModBuilder, BuildError>)
        requires
            wf(self.bmodel()),
        ensures
            match r {
                Ok(b) => resolve(self.bmodel(), symbol, fuel_of(self.bmodel()))
                    matches Outcome::Done { m, .. } && b.bmodel() == m,
                Err(e) => resolve(self.bmodel(), symbol, fuel_of(self.bmodel()))
                    matches Outcome::Fail { m, e: em } && em == e@,
            },
    {
        let mut b = self;
        match b.load(symbol) {
            Ok(_) => Ok(b),
            Err(e) => Err(e),
        }
    }

    /// Render the in-progress load chain as a human-readable trail of
    /// module display names, for fatal build diagnostics.
    pub fn repr_loadchain(&self) -> (r: String)
        ensures
            r@ == join_spec(
                self.loadchain@.map_values(
                    |s: u64| module_display_name(self.app.symbols@, s),
                ),
                " -> "@,
            ),
    {
        let mut names: Vec<String> = Vec::new();
        let n = self.loadchain.len();
        let mut i: usize = 0;
        while i < n
            invariant
                n == self.loadchain@.len(),
                i <= n,
                names@.len() == i,
                forall|j: int|
                    0 <= j < i ==> names@[j]@ == module_display_name(
                        self.app.symbols@,
                        self.loadchain@[j],
                    ),
            decreases n - i,
        {
            let s = self.loadchain[i];
            let nm = match self.app.symbols.get(&s) {
                Some(d) => d.name.clone(),
                None => String::new(),
            };
            names.push(nm);
            i = i + 1;
        }
        let r = join_with(&names, " -> ");
        proof {
            assert(names@.map_values(|s: String| s@) =~= self.loadchain@.map_values(
                |s: u64| module_display_name(self.app.symbols@, s),
            ));
        }
        r
    }

    /// Render a fatal build error for the operator: the load chain as it
    /// stood at the failure, what went wrong, and the display name of the
    /// symbol whose resolution failed.
    pub fn repr_build_error(&self, e: &BuildError) -> (r: String)
        ensures
            r@ == join_spec(
                e.chain@.map_values(|s: u64| module_display_name(self.app.symbols@, s)),
                " -> "@,
            ) + " | "@ + build_error_text(e.kind) + " "@ + module_display_name(
                self.app.symbols@,
                e.symbol,
            ),
    {
        let mut names: Vec<String> = Vec::new();
        let n = e.chain.len();
        let mut i: usize = 0;
        while i < n
            invariant
                n == e.chain@.len(),
                i <= n,
                names@.len() == i,
                forall|j: int|
                    0 <= j < i ==> names@[j]@ == module_display_name(
                        self.app.symbols@,
                        e.chain@[j],
                    ),
            decreases n - i,
        {
            let s = e.chain[i];
            let nm = match self.app.symbols.get(&s) {
                Some(d) => d.name.clone(),
                None => String::new(),
            };
            names.push(nm);
            i = i + 1;
        }
        let trail = join_with(&names, " -> ");
        proof {
            assert(names@.map_values(|s: String| s@) =~= e.chain@.map_values(
                |s: u64| module_display_name(self.app.symbols@, s),
            ));
        }
        let subject = match self.app.symbols.get(&e.symbol) {
            Some(d) => d.name.clone(),
            None => String::new(),
        };
        trail.concat(" | ").concat(error_text_str(e.kind)).concat(" ").concat(subject.as_str())
    }

    /// Finalize the store into the shared application state. The caller
    /// then drives the start phase: each runtime-capable instance's start
    /// hook fires in registration order (see `MajordomeApp::start_order`),
    /// and the tasks they return are handed to the store for tracking.
    pub fn build(self) -> (r: MajordomeApp)
        ensures
            r.inner == self.app,
    {
        MajordomeApp { inner: self.app }
    }
}

/// The operator-facing description of one failure kind.
pub open spec fn build_error_text(kind: BuildErrorKind) -> Seq<char> {
    match kind {
        BuildErrorKind::UnknownSymbol => "Unknown module"@,
        BuildErrorKind::Cycle => "Cycle detected while loading module"@,
        BuildErrorKind::DuplicateInstance => "Module already loaded with this config:"@,
        BuildErrorKind::ConfigFailed => "Failed to load config for module"@,
        BuildErrorKind::InitFailed => "Failed to initialize module"@,
        BuildErrorKind::Exhausted => "Resolution depth exceeded for module"@,
    }
}

/// The description of one failure kind, as `build_error_text` states it.
fn error_text_str(kind: BuildErrorKind) -> (r: &'static str)
    ensures
        r@ == build_error_text(kind),
{
    match kind {
        BuildErrorKind::UnknownSymbol => "Unknown module",
        BuildErrorKind::Cycle => "Cycle detected while loading module",
        BuildErrorKind::DuplicateInstance => "Module already loaded with this config:",
        BuildErrorKind::ConfigFailed => "Failed to load config for module",
        BuildErrorKind::InitFailed => "Failed to initialize module",
        BuildErrorKind::Exhausted => "Resolution depth exceeded for module",
    }
}

/// Singleton property: two pointer symbols whose declarations name the
/// same target type and resolve to equal configuration values are bound to
/// the identical shared instance. The construction counter equals the
/// number of dedup-cache entries throughout, so each distinct (target,
/// configuration) pair was constructed exactly once.
pub proof fn lemma_singleton(m: BuilderModel, s1: u64, s2: u64)
    requires
        wf(m),
        m.bound.contains_key(s1),
        m.bound.contains_key(s2),
        m.symbols[s1].target == m.symbols[s2].target,
        m.symbols[s1].config == m.symbols[s2].config,
    ensures
        m.bound[s1] == m.bound[s2],
        m.count == m.cache.dom().len(),
{
    assert(bound_link(m, s1));
    assert(bound_link(m, s2));
}

/// A successful resolution leaves the requested symbol bound to the
/// instance it returned.
pub proof fn lemma_resolve_done_binds(
    m: BuilderModel,
    s: u64,
    fuel: nat,
    m1: BuilderModel,
    v: u64,
)
    requires
        resolve(m, s, fuel) == (Outcome::Done { m: m1, instance: v }),
    ensures
        m1.bound.contains_key(s),
        m1.bound[s] == v,
{
    if m.bound.contains_key(s) {
    } else if !m.symbols.contains_key(s) {
    } else if m.chain.contains(s) {
    } else if fuel == 0 {
    } else {
        let d = m.symbols[s];
        let mp = model_push(m, s);
        match resolve_deps(mp, d.config_deps@, (fuel - 1) as nat) {
            DepsOutcome::Fail { .. } => {},
            DepsOutcome::Done { m: m2 } => {
                match d.config {
                    Option::None => {},
                    Option::Some(c) => {
                        let k = spec_pair_key(d.target, c);
                        if m2.cache.contains_key(k) {
                        } else if m2.pairs.contains(k) {
                        } else {
                            match resolve_deps(
                                model_mark(m2, k),
                                d.init_deps@,
                                (fuel - 1) as nat,
                            ) {
                                DepsOutcome::Fail { .. } => {},
                                DepsOutcome::Done { m: m4 } => {},
                            }
                        }
                    },
                }
            },
        }
    }
}

/// Idempotent load: once a request for a symbol has succeeded, any second
/// request for it — with any fuel — returns the identical instance and
/// leaves the whole state untouched, so construction ran at most once.
pub proof fn lemma_idempotent_load(
    m: BuilderModel,
    s: u64,
    fuel1: nat,
    fuel2: nat,
    m1: BuilderModel,
    v: u64,
)
    requires
        resolve(m, s, fuel1) == (Outcome::Done { m: m1, instance: v }),
    ensures
        resolve(m1, s, fuel2) == (Outcome::Done { m: m1, instance: v }),
{
    lemma_resolve_done_binds(m, s, fuel1, m1, v);
}

/// Cycle detection: in a dependency graph where symbol `a`'s configuration
/// step requests `b` and `b`'s configuration step requests `a` in turn,
/// loading `a` fails fatally with the full chain trace — holding both `a`
/// and `b` — and leaves bindings, cache, pair set and construction counter
/// untouched. `load` terminates on every input (its `decreases` clause),
/// so the cycle is reported rather than recursed into.
pub proof fn lemma_config_cycle_detected(m: BuilderModel, a: u64, b: u64)
    requires
        wf(m),
        m.chain == Seq::<u64>::empty(),
        a != b,
        m.symbols.contains_key(a),
        m.symbols.contains_key(b),
        !m.bound.contains_key(a),
        !m.bound.contains_key(b),
        m.symbols[a].config_deps@ == seq![b],
        m.symbols[b].config_deps@ == seq![a],
    ensures
        resolve(m, a, fuel_of(m)) matches Outcome::Fail { m: mf, e } && {
            &&& e.kind == BuildErrorKind::Cycle
            &&& e.symbol == a
            &&& e.chain == seq![a, b]
            &&& mf.bound == m.bound
            &&& mf.cache == m.cache
            &&& mf.pairs == m.pairs
            &&& mf.count == m.count
        },
{
    reveal_with_fuel(resolve, 4);
    reveal_with_fuel(resolve_deps, 4);
    let n = m.symbols.dom().len();
    assert(m.symbols.dom().remove(a).len() == n - 1);
    let fuel = fuel_of(m);
    assert(fuel == n + 1);
    let da = m.symbols[a];
    let db = m.symbols[b];
    let m1 = model_push(m, a);
    assert(m1.chain =~= seq![a]);
    assert(!m1.chain.contains(b)) by {
        assert(forall|i: int| 0 <= i < m1.chain.len() ==> m1.chain[i] == a);
    }
    let m2 = model_push(m1, b);
    assert(m2.chain =~= seq![a, b]);
    assert(m2.chain.contains(a)) by {
        assert(m2.chain[0] == a);
    }
    assert(da.config_deps@[0] == b);
    assert(da.config_deps@.drop_first() =~= Seq::<u64>::empty());
    assert(db.config_deps@[0] == a);
    let e = ErrModel { kind: BuildErrorKind::Cycle, symbol: a, chain: m2.chain };
    assert(resolve(m2, a, (fuel - 2) as nat) == (Outcome::Fail { m: m2, e }));
    assert(resolve_deps(m2, db.config_deps@, (fuel - 2) as nat) == (DepsOutcome::Fail {
        m: m2,
        e,
    }));
    assert(resolve(m1, b, (fuel - 1) as nat) == (Outcome::Fail { m: m2, e }));
    assert(resolve_deps(m1, da.config_deps@, (fuel - 1) as nat) == (DepsOutcome::Fail {
        m: m2,
        e,
    }));
    assert(resolve(m, a, fuel) == (Outcome::Fail { m: m2, e }));
}

/// Binding a symbol to a cached instance preserves well-formedness.
proof fn lemma_bind_wf(m2: BuilderModel, m0: BuilderModel, s: u64, inst: u64)
    requires
        wf(m2),
        m2.symbols.contains_key(s),
        m2.symbols[s].config is Some,
        m2.cache.contains_key(
            spec_pair_key(m2.symbols[s].target, m2.symbols[s].config->0),
        ),
        inst == m2.cache[spec_pair_key(m2.symbols[s].target, m2.symbols[s].config->0)],
        m0.chain.no_duplicates(),
        forall|i: int| 0 <= i < m0.chain.len() ==> m2.symbols.dom().contains(#[trigger] m0.chain[i]),
        m2.chain.len() > 0,
        m2.chain.drop_last() == m0.chain,
    ensures
        wf(model_bind_hit(m2, s, inst)),
{
    let mf = model_bind_hit(m2, s, inst);
    assert(mf.bound.dom() =~= m2.bound.dom().insert(s));
    assert(mf.count <= mf.bound.dom().len());
    assert forall|x: u64| #[trigger] mf.bound.dom().contains(x) implies bound_link(mf, x) by {
        if x != s {
            assert(bound_link(m2, x));
        }
    }
}

/// Constructing a fresh instance preserves well-formedness.
proof fn lemma_construct_wf(m4: BuilderModel, m0: BuilderModel, s: u64, k: u128, d: ModuleDecl)
    requires
        wf(m4),
        m4.symbols.contains_key(s),
        m4.symbols[s] == d,
        d.config is Some,
        k == spec_pair_key(d.target, d.config->0),
        !m4.bound.contains_key(s),
        !m4.cache.contains_key(k),
        m4.count < m4.symbols.dom().len(),
        m4.symbols.dom().len() <= usize::MAX,
        m0.chain.no_duplicates(),
        forall|i: int| 0 <= i < m0.chain.len() ==> m4.symbols.dom().contains(#[trigger] m0.chain[i]),
        m4.chain.len() > 0,
        m4.chain.drop_last() == m0.chain,
    ensures
        wf(model_construct(m4, s, k, d)),
{
    let mf = model_construct(m4, s, k, d);
    assert(mf.bound.dom() =~= m4.bound.dom().insert(s));
    assert(mf.cache.dom() =~= m4.cache.dom().insert(k));
    assert(mf.bound.dom().len() == m4.bound.dom().len() + 1);
    assert(mf.cache.dom().len() == m4.cache.dom().len() + 1);
    assert forall|x: u64| #[trigger] mf.bound.dom().contains(x) implies bound_link(mf, x) by {
        if x == s {
            assert(mf.cache.contains_key(k));
            assert(mf.bound[s] == m4.next);
        } else {
            assert(bound_link(m4, x));
            let kx = spec_pair_key(m4.symbols[x].target, m4.symbols[x].config->0);
            assert(m4.cache.contains_key(kx));
            assert(kx != k);
            assert(mf.cache[kx] == m4.cache[kx]);
        }
    }
}

/// The dedup key of a (target, configuration) pair, as `spec_pair_key`
/// states it.
pub fn pair_key(target: u64, config: u64) -> (r: u128)
    ensures
        r == spec_pair_key(target, config),
{
    (target as u128) * 0x1_0000_0000_0000_0000 + (config as u128)
}

/// Linear membership scan of the load chain.
fn chain_contains(v: &Vec<u64>, x: u64) -> (r: bool)
    ensures
        r == v@.contains(x),
{
    let n = v.len();
    let mut i: usize = 0;
    while i < n
        invariant
            n == v@.len(),
            i <= n,
            forall|j: int| 0 <= j < i ==> v@[j] != x,
        decreases n - i,
    {
        if v[i] == x {
            assert(v@[i as int] == x);
            return true;
        }
        i = i + 1;
    }
    false
}

/// Copy a vector of symbols (for an error's chain snapshot).
fn copy_syms(v: &Vec<u64>) -> (r: Vec<u64>)
    ensures
        r@ == v@,
{
    let n = v.len();
    let mut out: Vec<u64> = Vec::new();
    let mut i: usize = 0;
    while i < n
        invariant
            n == v@.len(),
            i <= n,
            out@ == v@.take(i as int),
        decreases n - i,
    {
        out.push(v[i]);
        proof {
            assert(out@ =~= v@.take(i as int + 1));
        }
        i = i + 1;
    }
    proof {
        assert(v@.take(n as int) =~= v@);
    }
    out
}

} // verus!
