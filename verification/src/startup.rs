//! Startup as a small state machine: Unconfigured → Connecting → Serving,
//! with a pool failure ending the process before it ever serves.

use vstd::prelude::*;

use crate::config::connection_url;
use crate::config::db_config;
use crate::config::resolved;
use crate::config::url_text;
use crate::pool::POOL_MAX_CONNECTIONS;
use crate::pool::POOL_MIN_CONNECTIONS;
use vstd::string::StringExecFns;

verus! {

/// The address the server binds: all interfaces, port 8000.
pub const BIND_ADDR: &'static str = "0.0.0.0:8000";

/// The phases of process startup. Serving is terminal for the process
/// lifetime; there is no controlled shutdown beyond termination.
#[derive(Clone, Copy, PartialEq, Eq, Structural, Debug)]
pub enum StartupState {
    Unconfigured,
    Connecting,
    Serving,
}

/// What the runtime reports to the startup machine.
pub enum StartupEvent {
    /// The five environment settings, each present or absent.
    EnvRead {
        host: Option<String>,
        port: Option<String>,
        user: Option<String>,
        password: Option<String>,
        name: Option<String>,
    },
    /// The pool established its minimum connection count.
    PoolReady,
    /// The pool could not be established; the detail is diagnostic output.
    PoolFailed { detail: String },
}

/// What the runtime must do next.
pub enum StartupAction {
    /// Establish the pool eagerly at this URL, with these bounds.
    ConnectPool { url: String, min_connections: u32, max_connections: u32 },
    /// Bind this address and serve indefinitely.
    Serve { bind_addr: String },
    /// Terminate at once with this exit code and diagnostic; never serve.
    Exit { code: u8, diagnostic: String },
    /// The event does not belong to this phase.
    Ignore,
}

/// One step of the startup machine. Configuration moves Unconfigured to
/// Connecting with the pool's target; a ready pool moves Connecting to
/// Serving; a failed pool never reaches Serving — the process must exit
/// non-zero instead, with the fault as its diagnostic.
pub fn startup_step(state: StartupState, event: StartupEvent) -> (r: (StartupState, StartupAction))
    ensures
        (match (state, event) {
            (StartupState::Unconfigured, StartupEvent::EnvRead { host, port, user, password, name }) => {
                &&& r.0 == StartupState::Connecting
                &&& r.1 matches StartupAction::ConnectPool { url, min_connections, max_connections }
                &&& url@ == url_text(
                    resolved(user, "benchmark"@),
                    resolved(password, "benchmark123"@),
                    resolved(host, "postgres"@),
                    resolved(port, "5432"@),
                    resolved(name, "benchmark"@),
                )
                &&& min_connections == POOL_MIN_CONNECTIONS
                &&& max_connections == POOL_MAX_CONNECTIONS
            },
            (StartupState::Connecting, StartupEvent::PoolReady) => {
                &&& r.0 == StartupState::Serving
                &&& r.1 matches StartupAction::Serve { bind_addr }
                &&& bind_addr@ == BIND_ADDR@
            },
            (StartupState::Connecting, StartupEvent::PoolFailed { detail }) => {
                &&& r.0 == StartupState::Connecting
                &&& r.0 != StartupState::Serving
                &&& r.1 matches StartupAction::Exit { code, diagnostic }
                &&& code == 1
                &&& diagnostic@ == "Failed to create pool: "@ + detail@
            },
            _ => r == (state, StartupAction::Ignore),
        }),
{
    match (state, event) {
        (StartupState::Unconfigured, StartupEvent::EnvRead { host, port, user, password, name }) => {
            let cfg = db_config(host, port, user, password, name);
            let url = connection_url(&cfg);
            (
                StartupState::Connecting,
                StartupAction::ConnectPool {
                    url,
                    min_connections: POOL_MIN_CONNECTIONS,
                    max_connections: POOL_MAX_CONNECTIONS,
                },
            )
        },
        (StartupState::Connecting, StartupEvent::PoolReady) => {
            (StartupState::Serving, StartupAction::Serve { bind_addr: BIND_ADDR.to_owned() })
        },
        (StartupState::Connecting, StartupEvent::PoolFailed { detail }) => {
            let mut diagnostic = "Failed to create pool: ".to_owned();
            diagnostic.append(detail.as_str());
            (StartupState::Connecting, StartupAction::Exit { code: 1, diagnostic })
        },
        (s, _) => (s, StartupAction::Ignore),
    }
}

} // verus!
