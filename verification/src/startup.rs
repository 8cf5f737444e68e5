//! What the application settles when it starts: where the database is, how
//! the pool is bounded, and which shortcut raises which signal.

use vstd::prelude::*;

verus! {

/// The most connections the pool opens.
pub const MAX_CONNECTIONS: u32 = 5;

/// The seconds a caller waits for a connection before it gets an error.
pub const ACQUIRE_TIMEOUT_SECS: u64 = 30;

/// The database that is used where none is configured.
pub open spec fn fallback_url() -> Seq<char> {
    "postgres://localhost/muednote"@
}

/// The name under which the connection string is configured.
pub fn database_url_key() -> (key: &'static str)
    ensures
        key@ == "MUEDNOTE_DATABASE_URL"@,
{
    "MUEDNOTE_DATABASE_URL"
}

/// The connection string: the configured one, else the fallback.
pub fn database_url(configured: Option<String>) -> (url: String)
    ensures
        url@ == match configured {
            Some(given) => given@,
            None => fallback_url(),
        },
{
    match configured {
        Some(given) => given,
        None => String::from_str("postgres://localhost/muednote"),
    }
}

/// A request to the frontend, raised by a global shortcut.
#[derive(Clone, Copy, Debug, PartialEq, Eq)]
pub enum Signal {
    ToggleConsole,
    ToggleDashboard,
}

/// The name of the event that carries a signal.
pub open spec fn event_of(signal: Signal) -> Seq<char> {
    match signal {
        Signal::ToggleConsole => "toggle-console"@,
        Signal::ToggleDashboard => "toggle-dashboard"@,
    }
}

/// The keys that raise a signal.
pub open spec fn keys_of(signal: Signal) -> Seq<char> {
    match signal {
        Signal::ToggleConsole => "CmdOrCtrl+Shift+Space"@,
        Signal::ToggleDashboard => "CmdOrCtrl+Shift+D"@,
    }
}

/// The keys that raise a signal, as the host registers them.
pub fn accelerator(signal: Signal) -> (keys: &'static str)
    ensures
        keys@ == keys_of(signal),
{
    match signal {
        Signal::ToggleConsole => "CmdOrCtrl+Shift+Space",
        Signal::ToggleDashboard => "CmdOrCtrl+Shift+D",
    }
}

/// The event to emit when the keys of a signal change state: the signal's
/// event when they are pressed, none when they are released.
pub fn event_on(signal: Signal, pressed: bool) -> (event: Option<&'static str>)
    ensures
        match event {
            Some(name) => pressed && name@ == event_of(signal),
            None => !pressed,
        },
{
    if pressed {
        match signal {
            Signal::ToggleConsole => Some("toggle-console"),
            Signal::ToggleDashboard => Some("toggle-dashboard"),
        }
    } else {
        None
    }
}

} // verus!
