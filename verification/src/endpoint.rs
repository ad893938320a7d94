//! The routes of the telemetry server, and for each the refresh of the
//! shared snapshot that comes before its reading.

use vstd::prelude::*;

verus! {

/// A route of the server.
#[derive(Clone, Copy, Debug, PartialEq, Eq, Structural)]
pub enum Endpoint {
    /// `/`: the dashboard page.
    Index,
    /// `/cpu`
    Cpu,
    /// `/mem`
    Memory,
    /// `/system`
    System,
    /// `/networks`
    Networks,
    /// `/proc`
    Processes,
    /// `/gpu`
    Gpu,
    /// `/static`: the files of the static directory.
    StaticFiles,
}

/// The part of the shared snapshot that is refreshed before it is read.
#[derive(Clone, Copy, Debug, PartialEq, Eq, Structural)]
pub enum Refresh {
    Nothing,
    /// Every processor core.
    Cpu,
    /// The memory and swap counters.
    Memory,
    /// Every subsystem, the process table included.
    Everything,
}

impl Endpoint {
    /// Whether the route reads the shared snapshot, and so takes its lock.
    pub open spec fn spec_takes_lock(self) -> bool {
        self == Endpoint::Cpu || self == Endpoint::Memory || self == Endpoint::Processes
    }

    /// The refresh of the route: the narrowest that covers what the route
    /// reads of the shared snapshot.
    pub open spec fn spec_refresh(self) -> Refresh {
        match self {
            Endpoint::Cpu => Refresh::Cpu,
            Endpoint::Memory => Refresh::Memory,
            Endpoint::Processes => Refresh::Everything,
            _ => Refresh::Nothing,
        }
    }

    /// The path of the route.
    pub open spec fn spec_path(self) -> Seq<char> {
        match self {
            Endpoint::Index => "/"@,
            Endpoint::Cpu => "/cpu"@,
            Endpoint::Memory => "/mem"@,
            Endpoint::System => "/system"@,
            Endpoint::Networks => "/networks"@,
            Endpoint::Processes => "/proc"@,
            Endpoint::Gpu => "/gpu"@,
            Endpoint::StaticFiles => "/static"@,
        }
    }

    /// Whether the route reads the shared snapshot, and so takes its lock.
    #[verifier::when_used_as_spec(spec_takes_lock)]
    pub fn takes_lock(self) -> (locks: bool)
        ensures
            locks == self.spec_takes_lock(),
    {
        match self {
            Endpoint::Cpu | Endpoint::Memory | Endpoint::Processes => true,
            _ => false,
        }
    }

    /// The refresh of the route.
    #[verifier::when_used_as_spec(spec_refresh)]
    pub fn refresh(self) -> (refresh: Refresh)
        ensures
            refresh == self.spec_refresh(),
    {
        match self {
            Endpoint::Cpu => Refresh::Cpu,
            Endpoint::Memory => Refresh::Memory,
            Endpoint::Processes => Refresh::Everything,
            _ => Refresh::Nothing,
        }
    }

    /// The path of the route.
    pub fn path(self) -> (path: &'static str)
        ensures
            path@ == self.spec_path(),
    {
        match self {
            Endpoint::Index => "/",
            Endpoint::Cpu => "/cpu",
            Endpoint::Memory => "/mem",
            Endpoint::System => "/system",
            Endpoint::Networks => "/networks",
            Endpoint::Processes => "/proc",
            Endpoint::Gpu => "/gpu",
            Endpoint::StaticFiles => "/static",
        }
    }
}

/// The two tables agree: the refresh of a route is something exactly where
/// the route takes the lock.
pub proof fn lemma_refresh_under_lock(endpoint: Endpoint)
    ensures
        endpoint.spec_refresh() != Refresh::Nothing <==> endpoint.spec_takes_lock(),
{
}

/// No two routes share a path.
pub proof fn lemma_paths_are_distinct(a: Endpoint, b: Endpoint)
    requires
        a != b,
    ensures
        a.spec_path() != b.spec_path(),
{
    reveal_strlit("/");
    reveal_strlit("/cpu");
    reveal_strlit("/mem");
    reveal_strlit("/system");
    reveal_strlit("/networks");
    reveal_strlit("/proc");
    reveal_strlit("/gpu");
    reveal_strlit("/static");
    assert("/"@.len() == 1 && "/cpu"@.len() == 4 && "/mem"@.len() == 4 && "/gpu"@.len() == 4);
    assert("/system"@.len() == 7 && "/static"@.len() == 7 && "/networks"@.len() == 9);
    assert("/proc"@.len() == 5);
    assert("/cpu"@[1] == 'c' && "/mem"@[1] == 'm' && "/gpu"@[1] == 'g');
    assert("/system"@[2] == 'y' && "/static"@[2] == 't');
}

} // verus!
