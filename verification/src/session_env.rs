//! What a launched application sees of the world outside the session: the environment edits
//! that keep it inside wado.
//!
//! Setting `WAYLAND_DISPLAY` is not enough on its own. A single-instance application first asks
//! the session bus whether a copy of itself is running, finds the host desktop's, hands its
//! command line over and exits — and a window opens on the host. An inherited `DISPLAY` sends
//! X11 clients (and Chromium, which prefers X11 whenever `DISPLAY` is set) to the host's X
//! server. So an isolated application gets the session's private bus when there is one, and
//! either the session's own X server or no `DISPLAY` at all.

use vstd::prelude::*;

verus! {

/// Where a launched application's session services come from.
#[derive(Debug, Clone)]
pub enum AppEnv {
    /// Inherit everything the daemon was started with, except that the session's own X server,
    /// when it has one, overrides the inherited `DISPLAY`.
    Host { x: Option<String> },
    /// Keep the application away from the host desktop: the private bus when there is one, and
    /// the session's X server or no `DISPLAY`.
    Isolated { bus: Option<String>, x: Option<String> },
}

impl AppEnv {
    /// The environment of a new session's applications: isolated, with the private bus when
    /// one was started, or the host's; the session's own X server in either case when it has
    /// one.
    pub fn for_session(isolate_apps: bool, bus: Option<String>, x: Option<String>) -> (env: AppEnv)
        ensures
            env == (if isolate_apps { AppEnv::Isolated { bus, x } } else { AppEnv::Host { x } }),
    {
        if isolate_apps {
            AppEnv::Isolated { bus, x }
        } else {
            AppEnv::Host { x }
        }
    }
}

/// One change to a command's environment.
#[derive(Debug, Clone)]
pub enum EnvEdit {
    Assign { key: String, value: String },
    Remove { key: String },
}

/// An environment change, by the characters of its key and value.
pub ghost enum EnvEditView {
    Assign(Seq<char>, Seq<char>),
    Remove(Seq<char>),
}

impl View for EnvEdit {
    type V = EnvEditView;

    open spec fn view(&self) -> EnvEditView {
        match self {
            EnvEdit::Assign { key, value } => EnvEditView::Assign(key@, value@),
            EnvEdit::Remove { key } => EnvEditView::Remove(key@),
        }
    }
}

/// The characters of an optional string.
pub open spec fn opt_view(s: Option<String>) -> Option<Seq<char>> {
    match s {
        Some(v) => Some(v@),
        None => None,
    }
}

/// The edits for an environment, in the order they are applied.
///
/// A session X server sets `DISPLAY` in either mode. Isolated without one removes `DISPLAY`.
/// Isolated with a private bus points `DBUS_SESSION_BUS_ADDRESS` at it and removes the three
/// variables that would otherwise still name the host's bus.
pub open spec fn spec_env_edits(env: AppEnv) -> Seq<EnvEditView> {
    let (isolated, bus, x) = match env {
        AppEnv::Host { x } => (false, None, opt_view(x)),
        AppEnv::Isolated { bus, x } => (true, opt_view(bus), opt_view(x)),
    };
    let display = match x {
        Some(d) => seq![EnvEditView::Assign("DISPLAY"@, d)],
        None => if isolated { seq![EnvEditView::Remove("DISPLAY"@)] } else { Seq::empty() },
    };
    let dbus = match bus {
        Some(address) => seq![
            EnvEditView::Assign("DBUS_SESSION_BUS_ADDRESS"@, address),
            EnvEditView::Remove("DBUS_SESSION_BUS_PID"@),
            EnvEditView::Remove("DBUS_STARTER_ADDRESS"@),
            EnvEditView::Remove("DBUS_STARTER_BUS_TYPE"@),
        ],
        None => Seq::empty(),
    };
    display + dbus
}

/// A copy of an optional string.
fn clone_opt(s: &Option<String>) -> (c: Option<String>)
    ensures
        opt_view(c) == opt_view(*s),
{
    match s {
        Some(v) => Some(v.clone()),
        None => None,
    }
}

/// The edits to apply to a command that is about to be spawned into the session.
pub fn env_edits(env: &AppEnv) -> (edits: Vec<EnvEdit>)
    ensures
        edits@.map_values(|e: EnvEdit| e@) == spec_env_edits(*env),
{
    let (isolated, bus, x) = match env {
        AppEnv::Host { x } => (false, None, clone_opt(x)),
        AppEnv::Isolated { bus, x } => (true, clone_opt(bus), clone_opt(x)),
    };
    let mut edits: Vec<EnvEdit> = Vec::new();
    match x {
        Some(display) => {
            edits.push(EnvEdit::Assign { key: String::from_str("DISPLAY"), value: display });
        },
        None => {
            if isolated {
                edits.push(EnvEdit::Remove { key: String::from_str("DISPLAY") });
            }
        },
    }
    match bus {
        Some(address) => {
            edits.push(EnvEdit::Assign { key: String::from_str("DBUS_SESSION_BUS_ADDRESS"), value: address });
            edits.push(EnvEdit::Remove { key: String::from_str("DBUS_SESSION_BUS_PID") });
            edits.push(EnvEdit::Remove { key: String::from_str("DBUS_STARTER_ADDRESS") });
            edits.push(EnvEdit::Remove { key: String::from_str("DBUS_STARTER_BUS_TYPE") });
        },
        None => {},
    }
    proof {
        assert(edits@.map_values(|e: EnvEdit| e@) =~= spec_env_edits(*env));
    }
    edits
}

/// An isolated application never inherits the host's `DISPLAY` — its first edit either points
/// it at the session's X server or removes it — and with a private bus it is told that bus and
/// nothing that names the host's. A host application's edits touch nothing but `DISPLAY`, and
/// only to hand it the session's own X server.
pub proof fn law_isolation_replaces_the_host_display_and_bus(env: AppEnv)
    ensures
        env matches AppEnv::Isolated { bus, x } ==> {
            let edits = spec_env_edits(env);
            &&& edits.len() >= 1
            &&& edits[0] == match x {
                Some(d) => EnvEditView::Assign("DISPLAY"@, d@),
                None => EnvEditView::Remove("DISPLAY"@),
            }
            &&& (bus matches Some(a) ==> edits.len() == 5 && edits[1] == EnvEditView::Assign(
                "DBUS_SESSION_BUS_ADDRESS"@,
                a@,
            ) && edits[2] == EnvEditView::Remove("DBUS_SESSION_BUS_PID"@) && edits[3] == EnvEditView::Remove(
                "DBUS_STARTER_ADDRESS"@,
            ) && edits[4] == EnvEditView::Remove("DBUS_STARTER_BUS_TYPE"@))
        },
        env matches AppEnv::Host { x } ==> spec_env_edits(env) == match x {
            Some(d) => seq![EnvEditView::Assign("DISPLAY"@, d@)],
            None => Seq::<EnvEditView>::empty(),
        },
{
}

} // verus!
