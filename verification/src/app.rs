//! The application: a completion port that the library's objects are linked
//! to, the traits through which client code is called back, and the
//! decisions of the loop that waits for completions.

use std::rc::Rc;
use vstd::prelude::*;

use crate::win32::Overlapped;
use crate::win32::INFINITE;
use crate::win32::INVALID_HANDLE_VALUE;
use crate::win32::NULL_HANDLE;

verus! {

/// A system handle (a completion port or a socket).
pub type Handle = u64;

/// The result of an operation that fails with a system error code.
pub type Result<T> = std::result::Result<T, u32>;

/// Client code that is started once the application's port is open.
pub trait Startup {
    fn start(&mut self, core: Rc<App>);
}

/// Client code that is told when the application shuts down.
pub trait Cleanup {
    fn cleanup_start(&mut self);

    /// Whether shutdown is complete; unless an implementation says
    /// otherwise, it is complete at once.
    fn cleanup_is_complete(&mut self) -> (r: bool)
        default_ensures
            r,
            &*final(self) == &*old(self),
    {
        true
    }
}

/// A unit of work that the application runs.
pub trait Task {
    fn task_run(&mut self);
}

/// An object that is told of a completion on the application's port.
pub trait EventNotify {
    fn on_app_event(&mut self, app: Rc<App>);
}

/// The record of one overlapped operation, and the byte offset of that
/// record inside the object that started it.
pub struct EventData {
    pub overlapped: Overlapped,
    pub offset: usize,
}

impl EventData {
    /// A fresh record: every field of the overlapped record zero, offset zero.
    pub fn new() -> (r: EventData)
        ensures
            r.overlapped.is_zeroed(),
            r.offset == 0,
    {
        EventData { overlapped: Overlapped::new(), offset: 0 }
    }
}

/// An application, identified by its completion port.
pub struct App {
    handle: Handle,
}

impl App {
    /// The application's completion port.
    pub closed spec fn port(&self) -> Handle {
        self.handle
    }

    /// The application whose completion port is `port`, or `None` where
    /// `port` is the null handle, that is where the port could not be opened.
    pub fn open(port: Handle) -> (r: Option<App>)
        ensures
            r is None <==> port == NULL_HANDLE,
            r matches Some(app) ==> app.port() == port,
    {
        if port == NULL_HANDLE {
            None
        } else {
            Some(App { handle: port })
        }
    }

    /// The application's completion port.
    pub fn port_handle(&self) -> (r: Handle)
        ensures
            r == self.port(),
    {
        self.handle
    }

    /// Stops the application: nothing is done yet.
    pub fn stop(self) {
    }

    /// Registers an object to be told of shutdown: nothing is recorded yet.
    pub fn cleanup_register(&mut self, cleanup: Rc<dyn Cleanup>)
        ensures
            *final(self) == *old(self),
    {
        let _ = cleanup;
    }

    /// Queues a task: nothing is queued yet.
    pub fn task_queue(&mut self, task: Box<dyn Task>)
        ensures
            *final(self) == *old(self),
    {
        let _ = task;
    }

    /// Whether linking a handle to this application succeeded, given what
    /// the system returned for the link: it succeeded exactly when the
    /// system returned the application's own port.
    pub fn link_succeeded(&self, returned: Handle) -> (r: bool)
        ensures
            r == (returned == self.port()),
    {
        returned == self.handle
    }
}

/// Where the application's run stands.
#[derive(Clone, Copy, Debug, PartialEq, Eq, Structural)]
pub enum RunPhase {
    /// Waiting for the completion port to be created.
    Opening,
    /// The port `port` is open; waiting for the client's startup to return.
    Starting { port: Handle },
    /// Waiting for completions on `port`.
    Running { port: Handle },
    /// The run is over.
    Stopped,
}

/// What the last step of the run returned.
#[derive(Clone, Copy, Debug, PartialEq, Eq, Structural)]
pub enum RunEvent {
    /// Creating the completion port returned `port`.
    PortOpened { port: Handle },
    /// The client's startup returned.
    Started,
    /// Waiting for a completion returned, successfully or not.
    Dequeued { success: bool },
}

/// What the run asks for next.
pub enum RunAction {
    /// Create a completion port: associate `file` with `existing` under
    /// `key`, allowing `threads` concurrent threads.
    OpenPort { file: Handle, existing: Handle, key: u64, threads: u32 },
    /// Hand `app` to the client's startup.
    Start { app: App },
    /// Wait for the next completion on `port`, for at most `timeout` milliseconds.
    Wait { port: Handle, timeout: u32 },
    /// The port could not be created: return.
    Return,
    /// Waiting for a completion failed: abort the run.
    Abort,
    /// The event does not belong to the current phase and changed nothing.
    Ignored,
}

/// The decisions of the application's run: open the port, start the
/// client, then wait for completions for as long as waiting succeeds.
pub struct AppRunner {
    phase: RunPhase,
}

/// One step of the run: from phase `pre`, on `event`, the run moves to
/// phase `post` and asks for `action`.
pub open spec fn run_stepped(pre: RunPhase, post: RunPhase, event: RunEvent, action: RunAction) -> bool {
    match (pre, event) {
        (RunPhase::Opening, RunEvent::PortOpened { port }) =>
            if port == NULL_HANDLE {
                post == RunPhase::Stopped && action is Return
            } else {
                post == (RunPhase::Starting { port }) && (action matches RunAction::Start { app } && app.port() == port)
            },
        (RunPhase::Starting { port }, RunEvent::Started) =>
            post == (RunPhase::Running { port })
                && (action matches RunAction::Wait { port: p, timeout } && p == port && timeout == INFINITE),
        (RunPhase::Running { port }, RunEvent::Dequeued { success }) =>
            if success {
                post == pre && (action matches RunAction::Wait { port: p, timeout } && p == port && timeout == INFINITE)
            } else {
                post == RunPhase::Stopped && action is Abort
            },
        _ => post == pre && action is Ignored,
    }
}

impl AppRunner {
    pub closed spec fn phase(self) -> RunPhase {
        self.phase
    }

    /// A started or running phase always has a port.
    pub open spec fn wf(self) -> bool {
        &&& self.phase() matches RunPhase::Starting { port } ==> port != NULL_HANDLE
        &&& self.phase() matches RunPhase::Running { port } ==> port != NULL_HANDLE
    }

    /// A run that waits for its completion port to be created, and the call
    /// that creates it: a new port, associated with no file.
    pub fn new() -> (r: (AppRunner, RunAction))
        ensures
            r.0.phase() == RunPhase::Opening,
            r.0.wf(),
            r.1 matches RunAction::OpenPort { file, existing, key, threads }
                && file == INVALID_HANDLE_VALUE && existing == NULL_HANDLE && key == 0 && threads == 0,
    {
        (
            AppRunner { phase: RunPhase::Opening },
            RunAction::OpenPort { file: INVALID_HANDLE_VALUE, existing: NULL_HANDLE, key: 0, threads: 0 },
        )
    }

    pub fn phase_now(&self) -> (r: RunPhase)
        ensures
            r == self.phase(),
    {
        self.phase
    }

    /// Takes what the last system call returned, and answers with what to do next.
    pub fn step(&mut self, event: RunEvent) -> (action: RunAction)
        requires
            old(self).wf(),
        ensures
            final(self).wf(),
            run_stepped(old(self).phase(), final(self).phase(), event, action),
    {
        match (self.phase, event) {
            (RunPhase::Opening, RunEvent::PortOpened { port }) => match App::open(port) {
                None => {
                    self.phase = RunPhase::Stopped;
                    RunAction::Return
                },
                Some(app) => {
                    self.phase = RunPhase::Starting { port };
                    RunAction::Start { app }
                },
            },
            (RunPhase::Starting { port }, RunEvent::Started) => {
                self.phase = RunPhase::Running { port };
                RunAction::Wait { port, timeout: INFINITE }
            },
            (RunPhase::Running { port }, RunEvent::Dequeued { success }) => {
                if success {
                    RunAction::Wait { port, timeout: INFINITE }
                } else {
                    self.phase = RunPhase::Stopped;
                    RunAction::Abort
                }
            },
            _ => RunAction::Ignored,
        }
    }
}

/// Once the run has stopped, no event changes it.
pub proof fn lemma_stopped_run_is_final(pre: RunPhase, post: RunPhase, event: RunEvent, action: RunAction)
    requires
        pre == RunPhase::Stopped,
        run_stepped(pre, post, event, action),
    ensures
        post == RunPhase::Stopped,
        action is Ignored,
{
}

/// While the run goes on, it waits on the port it opened: a running phase
/// only ever steps to itself or to the end.
pub proof fn lemma_running_keeps_port(pre: RunPhase, post: RunPhase, event: RunEvent, action: RunAction)
    requires
        pre is Running,
        run_stepped(pre, post, event, action),
    ensures
        post == pre || post == RunPhase::Stopped,
        action matches RunAction::Wait { port, .. } ==> pre == (RunPhase::Running { port }),
{
}

} // verus!
