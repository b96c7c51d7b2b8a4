//! The life of one browser command: start the automation server, open a
//! session, prepare, execute, and always tear down what was started.
use vstd::prelude::*;

verus! {

/// Where a command stands.
#[derive(Debug, Clone, Copy, PartialEq, Eq, Structural)]
pub enum Phase {
    Idle,
    ServerStarting,
    SessionOpen,
    Preparing,
    Executing,
    TearingDown,
    Done,
}

/// What the caller performs next.
#[derive(Debug, Clone, Copy, PartialEq, Eq, Structural)]
pub enum Action {
    /// Spawn the automation server and wait for it to settle.
    StartServer,
    /// Open one browser session against the server.
    OpenSession,
    /// Do the command's local work (read the input document).
    Prepare,
    /// Run the command against the live session.
    Execute,
    /// Quit the browser session.
    QuitSession,
    /// Kill the automation server and wait for it to exit.
    StopServer,
    /// Return: the command's error if one occurred, else success.
    Finish,
}

/// How the last action went.
#[derive(Debug, Clone, Copy, PartialEq, Eq, Structural)]
pub enum Outcome {
    Succeeded,
    Failed,
}

/// The state of a command's lifecycle.
#[derive(Debug, Clone, Copy, PartialEq, Eq, Structural)]
pub struct Lifecycle {
    pub phase: Phase,
    /// The server process runs and has not been stopped.
    pub server_up: bool,
    /// The session is open and has not been quit.
    pub session_open: bool,
    /// An action before teardown failed; `Finish` returns that error.
    pub failed: bool,
}

impl Lifecycle {
    /// The states that a run reaches from `start`.
    pub open spec fn wf(self) -> bool {
        &&& self.session_open ==> self.server_up
        &&& (self.phase == Phase::Idle || self.phase == Phase::ServerStarting) ==> (!self.server_up
            && !self.failed)
        &&& self.phase == Phase::SessionOpen ==> (self.server_up && !self.session_open
            && !self.failed)
        &&& (self.phase == Phase::Preparing || self.phase == Phase::Executing) ==> (self.server_up
            && self.session_open && !self.failed)
        &&& self.phase == Phase::Done ==> (!self.server_up && !self.session_open)
    }

    /// The first teardown step still owed, or `Finish` when none is.
    pub open spec fn spec_teardown(self) -> (Lifecycle, Action) {
        if self.session_open {
            (Lifecycle { phase: Phase::TearingDown, session_open: false, ..self }, Action::QuitSession)
        } else if self.server_up {
            (Lifecycle { phase: Phase::TearingDown, server_up: false, ..self }, Action::StopServer)
        } else {
            (Lifecycle { phase: Phase::Done, ..self }, Action::Finish)
        }
    }

    /// The next state and action after the last action ended with `o`.
    pub open spec fn spec_step(self, o: Outcome) -> (Lifecycle, Action) {
        match self.phase {
            Phase::Idle => (Lifecycle { phase: Phase::ServerStarting, ..self }, Action::StartServer),
            Phase::ServerStarting => if o == Outcome::Succeeded {
                (Lifecycle { phase: Phase::SessionOpen, server_up: true, ..self }, Action::OpenSession)
            } else {
                Lifecycle { failed: true, ..self }.spec_teardown()
            },
            Phase::SessionOpen => if o == Outcome::Succeeded {
                (Lifecycle { phase: Phase::Preparing, session_open: true, ..self }, Action::Prepare)
            } else {
                Lifecycle { failed: true, ..self }.spec_teardown()
            },
            Phase::Preparing => if o == Outcome::Succeeded {
                (Lifecycle { phase: Phase::Executing, ..self }, Action::Execute)
            } else {
                Lifecycle { failed: true, ..self }.spec_teardown()
            },
            Phase::Executing => if o == Outcome::Succeeded {
                self.spec_teardown()
            } else {
                Lifecycle { failed: true, ..self }.spec_teardown()
            },
            Phase::TearingDown => self.spec_teardown(),
            Phase::Done => (self, Action::Finish),
        }
    }

    /// A command that has not started.
    pub fn start() -> (r: Lifecycle)
        ensures
            r.phase == Phase::Idle,
            !r.server_up,
            !r.session_open,
            !r.failed,
            r.wf(),
    {
        Lifecycle { phase: Phase::Idle, server_up: false, session_open: false, failed: false }
    }

    fn teardown(self) -> (r: (Lifecycle, Action))
        ensures
            r == self.spec_teardown(),
    {
        if self.session_open {
            (Lifecycle { phase: Phase::TearingDown, session_open: false, ..self }, Action::QuitSession)
        } else if self.server_up {
            (Lifecycle { phase: Phase::TearingDown, server_up: false, ..self }, Action::StopServer)
        } else {
            (Lifecycle { phase: Phase::Done, ..self }, Action::Finish)
        }
    }

    /// Decides the next action. A failure before teardown is remembered and
    /// sends the command to teardown; a failure during teardown is ignored.
    pub fn step(self, o: Outcome) -> (r: (Lifecycle, Action))
        ensures
            r == self.spec_step(o),
    {
        match self.phase {
            Phase::Idle => (Lifecycle { phase: Phase::ServerStarting, ..self }, Action::StartServer),
            Phase::ServerStarting => if o == Outcome::Succeeded {
                (Lifecycle { phase: Phase::SessionOpen, server_up: true, ..self }, Action::OpenSession)
            } else {
                Lifecycle { failed: true, ..self }.teardown()
            },
            Phase::SessionOpen => if o == Outcome::Succeeded {
                (Lifecycle { phase: Phase::Preparing, session_open: true, ..self }, Action::Prepare)
            } else {
                Lifecycle { failed: true, ..self }.teardown()
            },
            Phase::Preparing => if o == Outcome::Succeeded {
                (Lifecycle { phase: Phase::Executing, ..self }, Action::Execute)
            } else {
                Lifecycle { failed: true, ..self }.teardown()
            },
            Phase::Executing => if o == Outcome::Succeeded {
                self.teardown()
            } else {
                Lifecycle { failed: true, ..self }.teardown()
            },
            Phase::TearingDown => self.teardown(),
            Phase::Done => (self, Action::Finish),
        }
    }
}

/// Every step keeps a run's state among those reachable from the start.
pub proof fn lemma_step_wf(s: Lifecycle, o: Outcome)
    requires
        s.wf(),
    ensures
        s.spec_step(o).0.wf(),
{
}

/// When execution fails, the session is quit and then the server stopped,
/// each exactly once, whatever those two steps report, and the command then
/// finishes with its error and stays finished.
pub proof fn lemma_teardown_after_failure(s: Lifecycle, o1: Outcome, o2: Outcome, o3: Outcome)
    requires
        s.wf(),
        s.phase == Phase::Executing,
    ensures
        ({
            let (s1, a1) = s.spec_step(Outcome::Failed);
            let (s2, a2) = s1.spec_step(o1);
            let (s3, a3) = s2.spec_step(o2);
            let (s4, a4) = s3.spec_step(o3);
            &&& a1 == Action::QuitSession
            &&& a2 == Action::StopServer
            &&& a3 == Action::Finish
            &&& s3.phase == Phase::Done && s3.failed
            &&& a4 == Action::Finish && s4 == s3
        }),
{
}

/// A run that never fails visits every phase in order, tears down the session
/// and then the server, and finishes without error.
pub proof fn lemma_successful_run()
    ensures
        ({
            let s0 = Lifecycle { phase: Phase::Idle, server_up: false, session_open: false, failed: false };
            let (s1, a1) = s0.spec_step(Outcome::Succeeded);
            let (s2, a2) = s1.spec_step(Outcome::Succeeded);
            let (s3, a3) = s2.spec_step(Outcome::Succeeded);
            let (s4, a4) = s3.spec_step(Outcome::Succeeded);
            let (s5, a5) = s4.spec_step(Outcome::Succeeded);
            let (s6, a6) = s5.spec_step(Outcome::Succeeded);
            let (s7, a7) = s6.spec_step(Outcome::Succeeded);
            &&& a1 == Action::StartServer && a2 == Action::OpenSession && a3 == Action::Prepare
            &&& a4 == Action::Execute && a5 == Action::QuitSession && a6 == Action::StopServer
            &&& a7 == Action::Finish && s7.phase == Phase::Done && !s7.failed
        }),
{
}

} // verus!
