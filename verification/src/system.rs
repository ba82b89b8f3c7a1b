//! System service logic and the serve-loop shutdown state machine.
//!
//! The clock, the signal sources and the async serve loop are external
//! collaborators: they hand this module plain values (the time now, one
//! event at a time) and act on plain answers. What is verified here is the
//! decision logic: the authorization gate on each call, the uptime answer,
//! the shutdown acknowledgement, and that once a shutdown notice or an OS
//! termination signal has been observed the loop stops accepting new
//! connections.

use vstd::prelude::*;
use crate::auth::{authorized, AuthService, Request, Status};

verus! {

/// Response payload of a status call.
pub struct SystemStatusResponse {
    /// Seconds since the backend started.
    pub uptime: u64,
}

/// Response payload of a shutdown call.
pub struct SystemShutdownResponse {
    /// Always set: the backend acknowledges that it will shut down.
    pub shutting_down: bool,
}

/// The OS metadata document, reduced to what the frontend reads.
pub struct OsInfo {
    /// OS version string.
    pub version: String,
    /// Project name.
    pub name: String,
    /// Display name of the OS.
    pub display: String,
    /// ANSI color sequence for branding, when given.
    pub ansi_color: Option<String>,
}

/// The system service: status, shutdown and OS metadata.
pub struct SystemService {
    auth: AuthService,
    start_seconds: u64,
    shutdown_requested: bool,
}

/// Creates the system service. `start_seconds` is the clock reading taken
/// when the backend started; uptime is measured against it.
pub fn service(auth: AuthService, start_seconds: u64) -> (s: SystemService)
    ensures
        s.spec_start_seconds() == start_seconds,
        !s.spec_shutdown_requested(),
{
    SystemService { auth, start_seconds, shutdown_requested: false }
}

impl SystemService {
    /// The clock reading at backend start.
    pub closed spec fn spec_start_seconds(&self) -> u64 {
        self.start_seconds
    }

    /// Whether a shutdown call has been acknowledged.
    pub closed spec fn spec_shutdown_requested(&self) -> bool {
        self.shutdown_requested
    }

    /// Answers a status call with the backend's uptime. Side-effect-free.
    /// The clock reading `now_seconds` must not precede the start reading
    /// (the clock is monotonic). The authorization guard runs before any
    /// domain work.
    pub fn status(&self, request: Request<()>, now_seconds: u64) -> (r: Result<
        SystemStatusResponse,
        Status,
    >)
        requires
            now_seconds >= self.spec_start_seconds(),
        ensures
            request.spec_auth() is None ==> (r matches Err(s) && s is Unauthenticated),
            request.spec_auth() is Some ==> (r matches Ok(resp) && resp.uptime == now_seconds
                - self.spec_start_seconds()),
    {
        let request = match authorized(
            &self.auth,
            request,
            "com.aerynos.lichen.system.status",
            "Not authorized for action: com.aerynos.lichen.system.status",
        ) {
            Ok(granted) => granted,
            Err(denied) => {
                return Err(denied);
            }
        };
        let uptime = now_seconds - self.start_seconds;
        Ok(SystemStatusResponse { uptime })
    }

    /// Acknowledges a shutdown call: the answer is returned to the caller
    /// immediately and the shutdown notice is recorded for the owner of the
    /// serve loop to observe; this method itself terminates nothing. The
    /// authorization guard runs before any domain work; a denied call
    /// records no notice.
    pub fn shutdown(&mut self, request: Request<()>) -> (r: Result<SystemShutdownResponse, Status>)
        ensures
            request.spec_auth() is None ==> (r matches Err(s) && s is Unauthenticated && *final(self) == *old(self)),
            request.spec_auth() is Some ==> (r matches Ok(resp) && resp.shutting_down && final(self).spec_shutdown_requested() && final(self).spec_start_seconds() == old(self).spec_start_seconds()),
    {
        let request = match authorized(
            &self.auth,
            request,
            "com.aerynos.lichen.system.shutdown",
            "Not authorized for action: com.aerynos.lichen.system.shutdown",
        ) {
            Ok(granted) => granted,
            Err(denied) => {
                return Err(denied);
            }
        };
        self.shutdown_requested = true;
        Ok(SystemShutdownResponse { shutting_down: true })
    }

    /// Whether a shutdown call has been acknowledged: what the serve loop's
    /// owner polls to turn the notice into a loop event.
    pub fn shutdown_requested(&self) -> (r: bool)
        ensures
            r == self.spec_shutdown_requested(),
    {
        self.shutdown_requested
    }

    /// Answers an OS metadata call. Loading the document from disk is the
    /// caller's part; its outcome is handed in as `loaded`, and this method
    /// decides the answer for every such outcome: the document when the
    /// load succeeded, an internal failure naming the load error otherwise.
    /// The authorization guard runs before any domain work.
    pub fn get_os_info(&self, request: Request<()>, loaded: Result<OsInfo, String>) -> (r: Result<
        OsInfo,
        Status,
    >)
        ensures
            request.spec_auth() is None ==> (r matches Err(s) && s is Unauthenticated),
            request.spec_auth() is Some ==> match loaded {
                Ok(info) => r == Ok::<OsInfo, Status>(info),
                Err(e) => r matches Err(s) && s matches Status::Internal(m) && m@
                    == "Failed to load OS info: "@ + e@,
            },
    {
        let request = match authorized(
            &self.auth,
            request,
            "com.aerynos.lichen.system.osinfo",
            "Not authorized for action: com.aerynos.lichen.system.osinfo",
        ) {
            Ok(granted) => granted,
            Err(denied) => {
                return Err(denied);
            }
        };
        match loaded {
            Ok(info) => Ok(info),
            Err(e) => {
                let mut msg = "Failed to load OS info: ".to_owned();
                msg.append(e.as_str());
                Err(Status::Internal(msg))
            }
        }
    }
}

/// The styled banner line the frontend opens with: the OS display name
/// wrapped in its branding colour, falling back to a fixed colour when the
/// metadata gives none.
pub fn intro_banner(info: &OsInfo) -> (r: String)
    ensures
        r@ == "\u{1b}["@ + (match info.ansi_color {
            Some(c) => c@,
            None => "1;36"@,
        }) + "m  Install "@ + info.display@ + "   "@,
{
    let mut out = "\u{1b}[".to_owned();
    match &info.ansi_color {
        Some(c) => out.append(c.as_str()),
        None => out.append("1;36"),
    }
    out.append("m  Install ");
    out.append(info.display.as_str());
    out.append("   ");
    out
}

/// The welcome remark under the banner, naming the project.
pub fn intro_remark(info: &OsInfo) -> (r: String)
    ensures
        r@ == "Welcome to the "@ + info.name@ + " installer"@,
{
    let mut out = "Welcome to the ".to_owned();
    out.append(info.name.as_str());
    out.append(" installer");
    out
}

/// One event the owner of the serve loop can observe.
pub enum ServeEvent {
    /// The system service acknowledged a shutdown call.
    ShutdownNotice,
    /// The OS delivered a termination signal.
    TermSignal,
    /// The OS delivered an interrupt signal.
    IntSignal,
}

/// The serve loop's decision state: whether new connections are still
/// accepted. The loop itself — accepting sockets, racing signal sources —
/// is the async runtime's part; it feeds every observed event in here and
/// asks [`ServeLoop::should_accept`] before each accept. In-flight calls
/// are never cut: stopping only refuses new connections.
pub struct ServeLoop {
    stopping: bool,
}

impl ServeLoop {
    /// Whether the loop has decided to stop.
    pub closed spec fn spec_stopping(&self) -> bool {
        self.stopping
    }

    /// A fresh serve loop, accepting connections.
    pub fn new() -> (r: Self)
        ensures
            !r.spec_stopping(),
    {
        Self { stopping: false }
    }

    /// Observes one event. Every event — the shutdown notice as well as
    /// either OS signal — ends the accepting phase, and stopping is never
    /// undone.
    pub fn on_event(&mut self, event: ServeEvent)
        ensures
            final(self).spec_stopping(),
    {
        match event {
            ServeEvent::ShutdownNotice => {
                self.stopping = true;
            }
            ServeEvent::TermSignal => {
                self.stopping = true;
            }
            ServeEvent::IntSignal => {
                self.stopping = true;
            }
        }
    }

    /// Whether a new connection may be accepted: exactly until the first
    /// observed event.
    pub fn should_accept(&self) -> (r: bool)
        ensures
            r == !self.spec_stopping(),
    {
        !self.stopping
    }
}

impl Default for ServeLoop {
    /// Same as [`ServeLoop::new`].
    fn default() -> (r: Self)
        ensures
            !r.spec_stopping(),
    {
        Self::new()
    }
}

} // verus!
