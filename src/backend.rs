use vstd::prelude::*;

verus! {

/// Which of the two shapes a backend handle has.
#[derive(Clone, Copy, Debug, PartialEq, Eq, Structural)]
pub enum BackendKind {
    Live,
    StandIn,
}

/// The in-memory substitute for an unreachable store: every query answers
/// without error and without persisting anything.
#[derive(Clone, Copy, Debug)]
pub struct StandIn;

impl StandIn {
    /// A read answers with an empty result set.
    pub fn select<T>(&self) -> (r: Vec<T>)
        ensures
            r@.len() == 0,
    {
        Vec::new()
    }

    /// A write answers with a synthetic success that touched no row.
    pub fn execute(&self) -> (rows_affected: u64)
        ensures
            rows_affected == 0,
    {
        0
    }
}

/// The data backend: a live connection pool `P`, or the stand-in. The shape is
/// fixed when the handle is made and no method changes it.
pub enum BackendHandle<P> {
    Live(P),
    StandIn(StandIn),
}

impl<P> BackendHandle<P> {
    pub open spec fn kind(&self) -> BackendKind {
        match self {
            BackendHandle::Live(_) => BackendKind::Live,
            BackendHandle::StandIn(_) => BackendKind::StandIn,
        }
    }

    /// Makes the handle from the outcome of the startup connectivity probe:
    /// the pool that was connected, or nothing when the probe failed.
    pub fn acquire_backend(probe: Option<P>) -> (r: BackendHandle<P>)
        ensures
            r.kind() == (if probe.is_some() { BackendKind::Live } else { BackendKind::StandIn }),
            probe.is_some() ==> r == BackendHandle::Live(probe.unwrap()),
    {
        match probe {
            Some(pool) => BackendHandle::Live(pool),
            None => BackendHandle::StandIn(StandIn),
        }
    }

    pub fn backend_kind(&self) -> (r: BackendKind)
        ensures
            r == self.kind(),
    {
        match self {
            BackendHandle::Live(_) => BackendKind::Live,
            BackendHandle::StandIn(_) => BackendKind::StandIn,
        }
    }

    pub fn is_live(&self) -> (r: bool)
        ensures
            r == (self.kind() == BackendKind::Live),
    {
        match self {
            BackendHandle::Live(_) => true,
            BackendHandle::StandIn(_) => false,
        }
    }

    /// The live pool, if this handle has one.
    pub fn pool(&self) -> (r: Option<&P>)
        ensures
            r.is_some() == (self.kind() == BackendKind::Live),
            self.kind() == BackendKind::Live ==> self == &BackendHandle::<P>::Live(*r.unwrap()),
    {
        match self {
            BackendHandle::Live(p) => Some(p),
            BackendHandle::StandIn(_) => None,
        }
    }
}

/// What every request handler shares: the backend handle, read only. Callers
/// share one value of it by reference counting.
pub struct ApplicationState<P> {
    backend: BackendHandle<P>,
}

impl<P> ApplicationState<P> {
    pub closed spec fn backend_spec(&self) -> BackendHandle<P> {
        self.backend
    }

    pub fn new(backend: BackendHandle<P>) -> (r: ApplicationState<P>)
        ensures
            r.backend_spec() == backend,
    {
        ApplicationState { backend }
    }

    pub fn backend(&self) -> (r: &BackendHandle<P>)
        ensures
            *r == self.backend_spec(),
    {
        &self.backend
    }
}

} // verus!
