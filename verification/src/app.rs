use vstd::prelude::*;

use crate::builder::ModuleDecl;
use crate::config::ConfigMap;
use crate::error::MajordomeError;
use crate::module::AppModTask;
use crate::signal::MajordomeSignal;
use crate::store::ModuleStore;

verus! {

broadcast use vstd::std_specs::hash::group_hash_axioms;

/// The application state proper: resolved configuration, the declaration
/// table the graph was built from, the module store, and the shutdown
/// signal state. Owned exclusively while building; shared read-mostly once
/// built.
pub struct MajordomeAppInner {
    pub config: ConfigMap,
    pub symbols: std::collections::HashMap<u64, ModuleDecl>,
    pub modules: ModuleStore,
    pub signal: MajordomeSignal,
}

pub struct MajordomeApp {
    pub inner: MajordomeAppInner,
}

/// The display name a lookup failure reports for a symbol: the declared
/// name where the symbol is known, empty otherwise.
pub open spec fn module_display_name(
    symbols: Map<u64, ModuleDecl>,
    symbol: u64,
) -> Seq<char> {
    if symbols.contains_key(symbol) {
        symbols[symbol].name@
    } else {
        Seq::<char>::empty()
    }
}

impl MajordomeApp {
    /// Get a reference to the inner application state.
    pub fn get_ref(&self) -> (r: &MajordomeAppInner)
        ensures
            r == &self.inner,
    {
        &self.inner
    }

    /// Unwrap the inner application state.
    pub fn into_inner(self) -> (r: MajordomeAppInner)
        ensures
            r == self.inner,
    {
        self.inner
    }

    /// O(1) lookup by symbol identity; never triggers construction. A
    /// symbol that was never resolved yields the recoverable lookup error,
    /// never a fatal one.
    pub fn get(&self, symbol: u64) -> (r: Result<u64, MajordomeError>)
        ensures
            match r {
                Ok(inst) => self.inner.modules.modules@.contains_key(symbol) && inst
                    == self.inner.modules.modules@[symbol],
                Err(e) => {
                    &&& !self.inner.modules.modules@.contains_key(symbol)
                    &&& e.error@ == "errors.majordome.module_not_found"@
                    &&& e.message@ == "Module "@ + module_display_name(
                        self.inner.symbols@,
                        symbol,
                    ) + " not found"@
                    &&& e.values@.len() == 1
                    &&& e.values@[0]@ == module_display_name(self.inner.symbols@, symbol)
                    &&& e.status_code == 500
                },
            },
    {
        let found = self.inner.modules.modules.get(symbol);
        match found {
            Some(v) => Ok(*v),
            None => {
                let name: String = match self.inner.symbols.get(&symbol) {
                    Some(d) => d.name.clone(),
                    None => String::new(),
                };
                let message = String::from_str("Module ").concat(name.as_str()).concat(
                    " not found",
                );
                let mut values: Vec<String> = Vec::new();
                values.push(name);
                Err(
                    MajordomeError::new(
                        String::from_str("errors.majordome.module_not_found"),
                        message,
                        values,
                        500,
                    ),
                )
            },
        }
    }

    pub fn is_exiting(&self) -> (r: bool)
        ensures
            r == self.inner.signal.is_exiting,
    {
        self.inner.signal.is_exiting
    }

    pub fn is_closing(&self) -> (r: bool)
        ensures
            r == self.inner.signal.is_closing,
    {
        self.inner.signal.is_closing
    }

    /// An external interrupt was observed: `Running -> Exiting`. Only the
    /// poll-able flag flips; no module is stopped.
    pub fn begin_exiting(&mut self)
        ensures
            final(self).inner.signal.is_exiting,
            final(self).inner.signal.is_closing == old(self).inner.signal.is_closing,
            forall|tasks: nat|
                !old(self).inner.signal.is_closing ==> final(self).inner.signal.phase(tasks)
                    is Exiting,
            final(self).inner.modules == old(self).inner.modules,
            final(self).inner.symbols == old(self).inner.symbols,
            final(self).inner.config == old(self).inner.config,
    {
        self.inner.signal.set_exiting();
    }

    /// The display names of the runtime-capable modules in registration
    /// order: the order in which their start hooks fire.
    pub fn start_order(&self) -> (r: Vec<String>)
        ensures
            r@.len() == self.inner.modules.modules_refs@.len(),
            forall|i: int|
                0 <= i < r@.len() ==> r@[i]@ == self.inner.modules.modules_refs@[i].0@,
    {
        let refs = &self.inner.modules.modules_refs;
        let n = refs.len();
        let mut out: Vec<String> = Vec::new();
        let mut i: usize = 0;
        while i < n
            invariant
                n == refs@.len(),
                i <= n,
                out@.len() == i,
                forall|j: int| 0 <= j < i ==> out@[j]@ == refs@[j].0@,
            decreases n - i,
        {
            out.push(refs[i].0.clone());
            i = i + 1;
        }
        out
    }

    /// Two-phase stop. The `closing` flag flips strictly before the list of
    /// stop hooks is handed out, so every stop hook observes `is_closing`.
    /// The runtime list and the tracked-task list are consumed (stop logic
    /// runs at most once): the result holds one "@stop" record per
    /// runtime-capable module, in registration order, followed by every
    /// previously tracked task, and the caller awaits them all before
    /// reporting the application terminated.
    pub fn stop(&mut self, now_millis: u64) -> (r: Vec<AppModTask>)
        ensures
            final(self).inner.signal.is_closing,
            final(self).inner.signal.is_exiting == old(self).inner.signal.is_exiting,
            forall|tasks: nat|
                tasks > 0 ==> final(self).inner.signal.phase(tasks) is Closing,
            final(self).inner.signal.phase(0) is Terminated,
            final(self).inner.modules.modules_refs@.len() == 0,
            final(self).inner.modules.handles@.len() == 0,
            final(self).inner.modules.modules == old(self).inner.modules.modules,
            final(self).inner.modules.modules_targets_cache == old(
                self,
            ).inner.modules.modules_targets_cache,
            final(self).inner.symbols == old(self).inner.symbols,
            final(self).inner.config == old(self).inner.config,
            r@.len() == old(self).inner.modules.modules_refs@.len() + old(
                self,
            ).inner.modules.handles@.len(),
            forall|i: int|
                0 <= i < old(self).inner.modules.modules_refs@.len() ==> {
                    &&& r@[i].name@ == "@stop"@
                    &&& r@[i].module_name@ == old(self).inner.modules.modules_refs@[i].0@
                    &&& r@[i].wait
                    &&& r@[i].start_millis == now_millis
                },
            forall|j: int|
                0 <= j < old(self).inner.modules.handles@.len() ==> r@[old(
                    self,
                ).inner.modules.modules_refs@.len() + j] == old(self).inner.modules.handles@[j],
    {
        self.inner.signal.set_closing();
        let refs = self.inner.modules.modules_refs.split_off(0);
        let mut handles = self.inner.modules.handles.split_off(0);
        proof {
            assert(refs@ =~= old(self).inner.modules.modules_refs@);
            assert(handles@ =~= old(self).inner.modules.handles@);
        }
        let n = refs.len();
        let mut out: Vec<AppModTask> = Vec::new();
        let mut i: usize = 0;
        while i < n
            invariant
                n == refs@.len(),
                i <= n,
                out@.len() == i,
                forall|j: int|
                    0 <= j < i ==> {
                        &&& out@[j].name@ == "@stop"@
                        &&& out@[j].module_name@ == refs@[j].0@
                        &&& out@[j].wait
                        &&& out@[j].start_millis == now_millis
                    },
            decreases n - i,
        {
            let task = AppModTask::new(now_millis).module_name(refs[i].0.as_str()).name("@stop");
            out.push(task);
            i = i + 1;
        }
        out.append(&mut handles);
        out
    }
}

} // verus!
