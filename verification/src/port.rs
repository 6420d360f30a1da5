//! Local port ownership, used to defeat the nastiest false positive a
//! probe can produce: passing against a *foreign* listener while our
//! own `run-cmd` is already dead because it could not bind the port.
//!
//! Three mechanisms work together: the preflight check records who owned the
//! port before `run-cmd` started, the post-probe verification confirms the owner
//! is still that same foreign process, and the runner's independent wait for the
//! child makes its exit always win over a probe result.

use vstd::prelude::*;
use vstd::string::*;

use crate::config;
use crate::config::{ProbeTarget, Settings};
use crate::text;

verus! {

#[derive(Debug, Clone, PartialEq, Eq)]
pub struct Listener {
    pub pid: u32,
    pub comm: String,
}

/// A listener as text.
pub open spec fn listener_text(listener: Listener) -> Seq<char> {
    "pid "@ + text::decimal(listener.pid as nat) + " ("@ + (if listener.comm@.len() == 0 {
        "unknown"@
    } else {
        listener.comm@
    }) + ")"@
}

impl Listener {
    pub fn describe(&self) -> (out: String)
        ensures
            out@ == listener_text(*self),
    {
        let mut out = "pid ".to_string();
        text::push_u64(&mut out, self.pid as u64);
        out.append(" (");
        if text::chars_of(self.comm.as_str()).len() == 0 {
            out.append("unknown");
        } else {
            out.append(self.comm.as_str());
        }
        out.append(")");
        out
    }

    pub fn copy(&self) -> (out: Listener)
        ensures
            out == *self,
    {
        Listener { pid: self.pid, comm: self.comm.clone() }
    }
}

#[derive(Debug, Clone, PartialEq, Eq)]
pub enum Ownership {
    /// Held by a process inside the service's own process group.
    Ours,
    /// Still held by the listener that was already there before `run-cmd`
    /// started: the probe passed against someone else's process.
    ConfirmedForeign(Listener),
    /// Someone else owns the port but was not there before `run-cmd` (a
    /// container runtime publishing on our behalf, for example). Warn only.
    Unexpected(Listener),
    /// Nothing could be determined: checks disabled, remote target, no local
    /// port, or nothing is listening.
    Unknown,
}

/// A `(pid, comm)` pair as a listener.
pub open spec fn listener(pair: (u32, String)) -> Listener {
    Listener { pid: pair.0, comm: pair.1 }
}

/// Who holds the probe port first, when it is checked at all.
pub open spec fn first_owner(
    target: ProbeTarget,
    settings: Settings,
    listeners: Seq<(u32, String)>,
) -> Option<Listener> {
    if settings.port_check && config::target_port(target) is Some && listeners.len() > 0 {
        Some(listener(listeners[0]))
    } else {
        None
    }
}

/// Snapshot of who holds the probe port, taken before `run-cmd` is started.
/// `listeners` are those on the target's local port.
pub fn preflight(
    target: &ProbeTarget,
    settings: &Settings,
    listeners: &Vec<(u32, String)>,
) -> (r: Option<Listener>)
    ensures
        r == first_owner(*target, *settings, listeners@),
{
    if !settings.port_check {
        return None;
    }
    if target.local_port().is_none() || listeners.len() == 0 {
        return None;
    }
    Some(Listener { pid: listeners[0].0, comm: listeners[0].1.clone() })
}

/// The first listener with that PID.
pub open spec fn same_pid(listeners: Seq<(u32, String)>, pid: u32) -> Option<Listener>
    decreases listeners.len(),
{
    if listeners.len() == 0 {
        None
    } else if listeners[0].0 == pid {
        Some(listener(listeners[0]))
    } else {
        same_pid(listeners.skip(1), pid)
    }
}

/// Who owns the probe port, given its listeners and their process groups.
pub open spec fn owner(
    target: ProbeTarget,
    settings: Settings,
    child_pgid: i32,
    preflight: Option<Listener>,
    listeners: Seq<(u32, String)>,
    groups: Seq<Option<i32>>,
) -> Ownership {
    if !settings.port_check || config::target_port(target) is None || listeners.len() == 0 {
        Ownership::Unknown
    } else if groups.contains(Some(child_pgid)) {
        Ownership::Ours
    } else {
        match (match preflight {
            Some(before) => same_pid(listeners, before.pid),
            None => None,
        }) {
            Some(foreign) => Ownership::ConfirmedForeign(foreign),
            None => Ownership::Unexpected(listener(listeners[0])),
        }
    }
}

/// An optional listener, owned.
pub open spec fn held(listener: Option<&Listener>) -> Option<Listener> {
    match listener {
        Some(l) => Some(*l),
        None => None,
    }
}

/// Who owns the probe port now that the probe succeeded? `groups` holds the
/// process group of each listener, when it is known.
pub fn verify(
    target: &ProbeTarget,
    settings: &Settings,
    child_pgid: i32,
    preflight: Option<&Listener>,
    listeners: &Vec<(u32, String)>,
    groups: &Vec<Option<i32>>,
) -> (r: Ownership)
    ensures
        r == owner(*target, *settings, child_pgid, held(preflight), listeners@, groups@),
{
    if !settings.port_check {
        return Ownership::Unknown;
    }
    if target.local_port().is_none() {
        return Ownership::Unknown;
    }
    if listeners.len() == 0 {
        return Ownership::Unknown;
    }
    for i in 0..groups.len()
        invariant
            settings.port_check,
            config::target_port(*target) is Some,
            listeners@.len() > 0,
            forall|k: int| 0 <= k < i ==> groups@[k] != Some(child_pgid),
    {
        if let Some(group) = groups[i] {
            if group == child_pgid {
                assert(groups@[i as int] == Some(child_pgid));
                return Ownership::Ours;
            }
        }
    }
    if let Some(before) = preflight {
        let ghost all = listeners@;
        assert(all.skip(0) =~= all);
        for i in 0..listeners.len()
            invariant
                settings.port_check,
                config::target_port(*target) is Some,
                listeners@.len() > 0,
                !groups@.contains(Some(child_pgid)),
                preflight == Some(before),
                all == listeners@,
                same_pid(all, before.pid) == same_pid(all.skip(i as int), before.pid),
        {
            assert(all.skip(i as int).skip(1) =~= all.skip(i + 1));
            if listeners[i].0 == before.pid {
                return Ownership::ConfirmedForeign(
                    Listener { pid: listeners[i].0, comm: listeners[i].1.clone() },
                );
            }
        }
    }
    Ownership::Unexpected(Listener { pid: listeners[0].0, comm: listeners[0].1.clone() })
}

// ---------------------------------------------------------------------- laws
/// A listener is confirmed foreign only when it was there before `run-cmd`
/// started, still listens, and none of the listeners is in the service's group.
pub proof fn law_confirmed_foreign_was_there_before(
    target: ProbeTarget,
    settings: Settings,
    child_pgid: i32,
    preflight: Option<Listener>,
    listeners: Seq<(u32, String)>,
    groups: Seq<Option<i32>>,
)
    ensures
        owner(target, settings, child_pgid, preflight, listeners, groups)
            is ConfirmedForeign <==> {
            &&& settings.port_check
            &&& config::target_port(target) is Some
            &&& !groups.contains(Some(child_pgid))
            &&& preflight matches Some(before) && exists|i: int|
                0 <= i < listeners.len() && (#[trigger] listeners[i]).0 == before.pid
        },
{
    if let Some(before) = preflight {
        lemma_same_pid(listeners, before.pid);
    }
}

proof fn lemma_same_pid(listeners: Seq<(u32, String)>, pid: u32)
    ensures
        same_pid(listeners, pid) is Some <==> exists|i: int|
            0 <= i < listeners.len() && (#[trigger] listeners[i]).0 == pid,
    decreases listeners.len(),
{
    if listeners.len() > 0 {
        let rest = listeners.skip(1);
        lemma_same_pid(rest, pid);
        if exists|i: int| 0 <= i < rest.len() && (#[trigger] rest[i]).0 == pid {
            let i = choose|i: int| 0 <= i < rest.len() && (#[trigger] rest[i]).0 == pid;
            assert(listeners[i + 1].0 == pid);
        }
        if exists|i: int| 0 <= i < listeners.len() && (#[trigger] listeners[i]).0 == pid {
            let i = choose|i: int| 0 <= i < listeners.len() && (#[trigger] listeners[i]).0 == pid;
            if i > 0 {
                assert(rest[i - 1].0 == pid);
            }
        }
    }
}

/// Nothing is attributed for a target that is not on this machine.
pub proof fn law_remote_targets_are_not_attributed(
    target: ProbeTarget,
    settings: Settings,
    child_pgid: i32,
    preflight: Option<Listener>,
    listeners: Seq<(u32, String)>,
    groups: Seq<Option<i32>>,
)
    requires
        config::target_port(target) is None,
    ensures
        first_owner(target, settings, listeners) is None,
        owner(target, settings, child_pgid, preflight, listeners, groups) == Ownership::Unknown,
{
}

} // verus!
