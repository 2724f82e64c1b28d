//! Lifecycle of the application's modules.

use vstd::prelude::*;

verus! {

/// Errors of the orchestration layer.
#[derive(Debug)]
pub enum CoreError {
    /// Start-up failed; the text says why.
    InitFailed(String),
    /// A module failed; the text says why.
    ModuleError(String),
    /// Any other failure.
    Other(anyhow::Error),
}

/// A module of the application, with an optional start-up and shut-down step.
///
/// Implementations are supplied by the application; nothing is assumed of
/// what the methods they write themselves return.
pub trait WifModule: Send + Sync {
    /// The unique name of this module.
    fn name(&self) -> &str;

    /// Called once during application start-up. The default does nothing and succeeds.
    fn initialize(&self) -> (r: anyhow::Result<()>)
        default_ensures
            r is Ok,
    {
        Ok(())
    }

    /// Called once during application shut-down. The default does nothing and succeeds.
    fn shutdown(&self) -> (r: anyhow::Result<()>)
        default_ensures
            r is Ok,
    {
        Ok(())
    }
}

/// Manages the lifecycle of all registered modules.
///
/// `M` is the type of the modules; by default any module, as a trait object.
pub struct ModuleHost<M: WifModule + ?Sized = dyn WifModule> {
    modules: Vec<Box<M>>,
}

impl<M: WifModule + ?Sized> ModuleHost<M> {
    /// The registered modules, in registration order.
    pub closed spec fn registered(&self) -> Seq<Box<M>> {
        self.modules@
    }

    /// Create an empty host with no modules registered.
    pub fn new() -> (r: Self)
        ensures
            r.registered().len() == 0,
    {
        ModuleHost { modules: Vec::new() }
    }

    /// Register a module with the host, after those already registered.
    pub fn register(&mut self, module: Box<M>)
        ensures
            final(self).registered() == old(self).registered().push(module),
    {
        self.modules.push(module);
    }

    /// Initialize all modules in registration order, stopping at the first
    /// failure, which is returned.
    ///
    /// Success means that each module, in order, answered `Ok`; a failure is
    /// the error of some module after every module before it answered `Ok`.
    pub fn initialize_all(&self) -> (r: anyhow::Result<()>)
        ensures
            self.registered().len() == 0 ==> r is Ok,
            r is Ok ==> all_started(self.registered(), self.registered().len() as int),
            r matches Err(e) ==> exists|k: int|
                0 <= k < self.registered().len() && all_started(self.registered(), k)
                    && #[trigger] call_ensures(M::initialize, (&*self.registered()[k],), Err::<(), anyhow::Error>(e)),
    {
        let ghost ms = self.modules@;
        for i in 0..self.modules.len()
            invariant
                ms == self.modules@,
                all_started(ms, i as int),
        {
            let start = M::initialize;
            let m: &M = &self.modules[i];
            let res = start(m);
            match res {
                Ok(u) => {
                    assert(u == ());
                    assert(call_ensures(M::initialize, (&*ms[i as int],), Ok::<(), anyhow::Error>(())));
                },
                Err(e) => {
                    let ghost ge = e;
                    assert(call_ensures(M::initialize, (&*self.registered()[i as int],), Err::<(), anyhow::Error>(ge)));
                    assert(exists|k: int|
                        0 <= k < self.registered().len() && all_started(self.registered(), k)
                            && #[trigger] call_ensures(M::initialize, (&*self.registered()[k],), Err::<(), anyhow::Error>(ge)));
                    return Err(e);
                },
            }
        }
        Ok(())
    }

    /// Shut down all modules in reverse registration order, stopping at the
    /// first failure, which is returned.
    ///
    /// Success means that each module, last first, answered `Ok`; a failure is
    /// the error of some module after every module registered after it
    /// answered `Ok`.
    pub fn shutdown_all(&self) -> (r: anyhow::Result<()>)
        ensures
            self.registered().len() == 0 ==> r is Ok,
            r is Ok ==> all_stopped(self.registered(), 0),
            r matches Err(e) ==> exists|k: int|
                0 <= k < self.registered().len() && all_stopped(self.registered(), k + 1)
                    && #[trigger] call_ensures(M::shutdown, (&*self.registered()[k],), Err::<(), anyhow::Error>(e)),
    {
        let ghost ms = self.modules@;
        let n = self.modules.len();
        for k in 0..n
            invariant
                n == self.modules.len(),
                ms == self.modules@,
                all_stopped(ms, n - k),
        {
            let stop = M::shutdown;
            let m: &M = &self.modules[n - 1 - k];
            let res = stop(m);
            match res {
                Ok(u) => {
                    assert(u == ());
                    assert(call_ensures(M::shutdown, (&*ms[n - 1 - k],), Ok::<(), anyhow::Error>(())));
                },
                Err(e) => {
                    let ghost ge = e;
                    assert(call_ensures(M::shutdown, (&*self.registered()[n - 1 - k],), Err::<(), anyhow::Error>(ge)));
                    assert(exists|j: int|
                        0 <= j < self.registered().len() && all_stopped(self.registered(), j + 1)
                            && #[trigger] call_ensures(M::shutdown, (&*self.registered()[j],), Err::<(), anyhow::Error>(ge)));
                    return Err(e);
                },
            }
        }
        Ok(())
    }

    /// Return the names of all registered modules, in registration order:
    /// at each position, what `name` answered for the module registered there.
    pub fn list(&self) -> (r: Vec<&str>)
        ensures
            r@.len() == self.registered().len(),
            forall|i: int| 0 <= i < r@.len() ==> #[trigger] call_ensures(M::name, (&*self.registered()[i],), r@[i]),
    {
        let ghost ms = self.modules@;
        let mut names: Vec<&str> = Vec::new();
        for i in 0..self.modules.len()
            invariant
                ms == self.modules@,
                names@.len() == i,
                forall|j: int| 0 <= j < i ==> #[trigger] call_ensures(M::name, (&*ms[j],), names@[j]),
        {
            let name_of = M::name;
            let m: &M = &self.modules[i];
            let n = name_of(m);
            names.push(n);
        }
        names
    }
}

/// Whether `initialize` answered `Ok` for each of the first `k` modules of `ms`.
pub open spec fn all_started<M: WifModule + ?Sized>(ms: Seq<Box<M>>, k: int) -> bool {
    forall|i: int| 0 <= i < k ==> #[trigger] call_ensures(M::initialize, (&*ms[i],), Ok::<(), anyhow::Error>(()))
}

/// Whether `shutdown` answered `Ok` for each module of `ms` from position `k` on.
pub open spec fn all_stopped<M: WifModule + ?Sized>(ms: Seq<Box<M>>, k: int) -> bool {
    forall|i: int| k <= i < ms.len() ==> #[trigger] call_ensures(M::shutdown, (&*ms[i],), Ok::<(), anyhow::Error>(()))
}

impl<M: WifModule + ?Sized> Default for ModuleHost<M> {
    fn default() -> (r: Self)
        ensures
            r.registered().len() == 0,
    {
        Self::new()
    }
}

} // verus!
