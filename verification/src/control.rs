//! The control plane's rules: which requests need a running session and what each gets
//! without one, the frame interval a session's sink is built with, what a launch request
//! runs, and which launched applications are reported as running.
//!
//! A start while a session runs is refused. A reconfigure with no session is refused too (see
//! `session::NO_SESSION_TO_RECONFIGURE`), a launch or a window action with no session is
//! dropped, a status request reads "no session", and the list of running applications is
//! empty. Everything else is carried out either way: stopping nothing changes nothing, and
//! viewer state is kept across sessions.

use vstd::prelude::*;
use crate::launch::{spec_with_ime_flag, with_ime_flag};
use crate::text::{trim, trimmed};

verus! {

/// A request from the control plane, by kind.
#[derive(Debug, Clone, Copy, PartialEq, Eq, Structural)]
pub enum Request {
    Start,
    Stop,
    Reconfigure,
    Status,
    Launch,
    RunningApps,
    ForceKeyframe,
    Window,
    ViewerStrain,
    ViewerAttached,
    ViewerVisible,
}

/// Whether a request goes ahead.
#[derive(Debug, Clone, Copy, PartialEq, Eq, Structural)]
pub enum Admission {
    /// Carry the request out.
    Proceed,
    /// Refuse the start: a session is already running.
    AlreadyActive,
    /// There is no session: a reconfigure is refused, a launch or a window action is dropped,
    /// a status reads "none", and the list of running applications is empty.
    NoSession,
}

/// The answer to a start while a session runs.
pub const ALREADY_ACTIVE: &'static str = "a session is already active";

/// Whether `request` goes ahead while a session is or is not running.
pub open spec fn spec_admission(request: Request, session_active: bool) -> Admission {
    match request {
        Request::Start => if session_active {
            Admission::AlreadyActive
        } else {
            Admission::Proceed
        },
        Request::Reconfigure | Request::Status | Request::Launch | Request::RunningApps | Request::Window => if session_active {
            Admission::Proceed
        } else {
            Admission::NoSession
        },
        _ => Admission::Proceed,
    }
}

/// Whether `request` goes ahead while a session is or is not running.
pub fn admission(request: Request, session_active: bool) -> (a: Admission)
    ensures
        a == spec_admission(request, session_active),
{
    match request {
        Request::Start => if session_active {
            Admission::AlreadyActive
        } else {
            Admission::Proceed
        },
        Request::Reconfigure | Request::Status | Request::Launch | Request::RunningApps | Request::Window => if session_active {
            Admission::Proceed
        } else {
            Admission::NoSession
        },
        _ => Admission::Proceed,
    }
}

/// Nanoseconds between frames at `fps`, a rate of zero read as one frame a second.
pub open spec fn spec_frame_interval_ns(fps: u32) -> int {
    1_000_000_000int / (if fps == 0 { 1int } else { fps as int })
}

/// Nanoseconds between frames at `fps`, the duration each frame handed to the sink covers.
pub fn frame_interval_ns(fps: u32) -> (ns: u64)
    ensures
        ns == spec_frame_interval_ns(fps),
{
    let per_second: u64 = 1_000_000_000;
    let rate: u64 = if fps == 0 { 1 } else { fps as u64 };
    per_second / rate
}

/// What a launch request runs.
#[derive(Debug, Clone)]
pub struct LaunchPlan {
    /// The command as the client sent it, trimmed: the name the client matches running
    /// applications by.
    pub asked: String,
    /// The command that actually runs, with the input-method flag where it belongs.
    pub command: String,
}

/// What to run for a launch request: nothing for a blank command; otherwise the trimmed
/// command to report it by, and the command to run.
pub fn launch_plan(command: &str) -> (plan: Option<LaunchPlan>)
    ensures
        plan is None <==> trimmed(command@).len() == 0,
        plan matches Some(p) ==> p.asked@ == trimmed(command@) && p.command@ == spec_with_ime_flag(command@),
{
    let asked = trim(command);
    if asked.as_str().unicode_len() == 0 {
        return None;
    }
    Some(LaunchPlan { asked, command: with_ime_flag(command) })
}

/// The commands of the applications that have not exited, in launch order.
pub open spec fn still_running(commands: Seq<Seq<char>>, exited: Seq<bool>) -> Seq<Seq<char>>
    decreases commands.len(),
{
    if commands.len() == 0 {
        Seq::empty()
    } else {
        let rest = still_running(commands.drop_last(), exited.drop_last());
        if exited.last() {
            rest
        } else {
            rest.push(commands.last())
        }
    }
}

/// The characters of each string.
pub open spec fn views(v: Seq<String>) -> Seq<Seq<char>> {
    v.map_values(|s: String| s@)
}

/// The commands of the launched applications that are still running, given which of them
/// have exited (the operating system's answer, one flag per application).
pub fn running_commands(commands: &Vec<String>, exited: &Vec<bool>) -> (running: Vec<String>)
    requires
        commands@.len() == exited@.len(),
    ensures
        views(running@) == still_running(views(commands@), exited@),
{
    let mut running: Vec<String> = Vec::new();
    let mut i: usize = 0;
    while i < commands.len()
        invariant
            i <= commands@.len(),
            commands@.len() == exited@.len(),
            views(running@) == still_running(
                views(commands@).subrange(0, i as int),
                exited@.subrange(0, i as int),
            ),
        decreases commands@.len() - i,
    {
        proof {
            assert(views(commands@).subrange(0, i + 1).drop_last() =~= views(commands@).subrange(0, i as int));
            assert(exited@.subrange(0, i + 1).drop_last() =~= exited@.subrange(0, i as int));
        }
        if !exited[i] {
            let c = commands[i].clone();
            running.push(c);
        }
        i = i + 1;
        proof {
            assert(views(running@) =~= still_running(
                views(commands@).subrange(0, i as int),
                exited@.subrange(0, i as int),
            ));
        }
    }
    proof {
        assert(views(commands@).subrange(0, i as int) =~= views(commands@));
        assert(exited@.subrange(0, i as int) =~= exited@);
    }
    running
}

} // verus!
