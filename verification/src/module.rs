use vstd::prelude::*;

verus! {

/// Caller-supplied hints for one module request: an optional explicit
/// configuration override and an optional namespace for configuration keys.
/// Consumed only while the module's configuration is resolved.
pub struct AppModInitOptions<T> {
    pub config: Option<T>,
    pub ns: Option<String>,
}

impl<T> AppModInitOptions<T> {
    pub fn new() -> (r: AppModInitOptions<T>)
        ensures
            r.config is None,
            r.ns is None,
    {
        AppModInitOptions { config: None, ns: None }
    }

    pub fn config(self, config: T) -> (r: AppModInitOptions<T>)
        ensures
            r.config == Some(config),
            r.ns == self.ns,
    {
        AppModInitOptions { config: Some(config), ..self }
    }

    pub fn ns(self, ns: &str) -> (r: AppModInitOptions<T>)
        ensures
            r.ns matches Some(s) && s@ == ns@,
            r.config == self.config,
    {
        AppModInitOptions { ns: Some(ns.to_owned()), ..self }
    }
}

/// Bookkeeping for one unit of tracked background work: its name, the
/// display name of the module that owns it, the instant it started, and
/// whether shutdown must await it. The running handle itself lives with
/// the executor that spawned the work.
pub struct AppModTask {
    pub name: String,
    pub wait: bool,
    pub module_name: String,
    pub start_millis: u64,
}

impl AppModTask {
    /// A fresh task record, started at the given instant.
    pub fn new(start_millis: u64) -> (r: AppModTask)
        ensures
            r.name@ == "unknown"@,
            r.wait,
            r.module_name@ == "unknown"@,
            r.start_millis == start_millis,
    {
        AppModTask {
            name: String::from_str("unknown"),
            wait: true,
            module_name: String::from_str("unknown"),
            start_millis,
        }
    }

    pub fn name(self, name: &str) -> (r: AppModTask)
        ensures
            r.name@ == name@,
            r.wait == self.wait,
            r.module_name == self.module_name,
            r.start_millis == self.start_millis,
    {
        AppModTask { name: name.to_owned(), ..self }
    }

    pub fn wait(self, wait: bool) -> (r: AppModTask)
        ensures
            r.wait == wait,
            r.name == self.name,
            r.module_name == self.module_name,
            r.start_millis == self.start_millis,
    {
        AppModTask { wait, ..self }
    }

    pub fn module_name(self, name: &str) -> (r: AppModTask)
        ensures
            r.module_name@ == name@,
            r.name == self.name,
            r.wait == self.wait,
            r.start_millis == self.start_millis,
    {
        AppModTask { module_name: name.to_owned(), ..self }
    }

    /// Milliseconds between the task's start instant and `now_millis`.
    pub fn elapsed(&self, now_millis: u64) -> (r: u64)
        ensures
            r == if now_millis >= self.start_millis {
                now_millis - self.start_millis
            } else {
                0
            },
    {
        if now_millis >= self.start_millis {
            now_millis - self.start_millis
        } else {
            0
        }
    }
}

} // verus!
