//! The exec applet's supervisor as a state machine: it decides when a child
//! is started, what happens to each line the child writes, when the child is
//! finished and whether it is started again. The caller performs each action
//! (spawning, writing, logging, sleeping) and reports back what happened.
use vstd::prelude::*;

use crate::exec_applet::{
    ChildLoopExit, Config, LogDecision, StderrLogLimiter, STDERR_LOG_LIMIT, log_step,
};
use crate::exec_protocol::{
    ChildCommandKind, ChildFrame, ProtocolError, frame_error_matches, frame_spec, parse_child_frame,
};

verus! {

/// Where the supervisor is.
#[derive(Debug, Clone, Copy, PartialEq, Eq, Structural)]
pub enum SupervisorPhase {
    /// A child is to be started now.
    Starting,
    /// A child was asked to be spawned; its outcome is awaited.
    Spawning,
    /// A child runs and its pipes are served.
    Running,
    /// The restart delay runs; a child is to be started after it.
    Waiting,
    /// Supervision ended.
    Stopped,
}

/// What the caller does next.
#[derive(Debug, Clone)]
pub enum SupervisorAction {
    /// Spawn the configured command with its environment.
    Spawn,
    /// Kill the child that came up without a pipe.
    Kill,
    /// Write the init command to the child.
    SendInit,
    /// Write the panel command that arrived to the child.
    WriteToChild,
    /// Hand a frame the child wrote to the applet.
    Forward(ChildFrame),
    /// Drop a line the child wrote that is not a frame.
    IgnoreLine(ProtocolError),
    /// Log the stderr line that arrived.
    LogStderr,
    /// Log that this many stderr lines were suppressed.
    ReportSuppressed(usize),
    /// Reap the child, killing it when it still runs.
    FinishChild,
    /// Tell the applet that the child is gone.
    NotifyExited,
    /// Wait this many milliseconds, then start a child.
    Sleep(u64),
    /// Supervision ended.
    Stop,
}

/// The supervisor's state.
#[derive(Debug)]
pub struct Supervisor {
    pub config: Config,
    pub phase: SupervisorPhase,
    /// Whether the child's stderr is still read.
    pub stderr_open: bool,
    pub limiter: StderrLogLimiter,
}

/// The report of suppressed stderr lines, when there are any.
pub open spec fn report(n: usize) -> Seq<SupervisorAction> {
    if n > 0 {
        seq![SupervisorAction::ReportSuppressed(n)]
    } else {
        Seq::empty()
    }
}

/// What ends a child's loop does: report suppressed stderr, reap the child,
/// tell the applet; then stop, wait the restart delay, or restart at once.
pub open spec fn exit_actions(exit: ChildLoopExit, suppressed: usize, delay: u64) -> Seq<SupervisorAction> {
    report(suppressed) + seq![SupervisorAction::FinishChild, SupervisorAction::NotifyExited] + match exit {
        ChildLoopExit::Stop => seq![SupervisorAction::Stop],
        ChildLoopExit::ProtocolEnded => seq![SupervisorAction::Sleep(delay)],
        ChildLoopExit::Restart => Seq::empty(),
    }
}

/// The phase after a child's loop ended.
pub open spec fn exit_phase(exit: ChildLoopExit) -> SupervisorPhase {
    match exit {
        ChildLoopExit::Stop => SupervisorPhase::Stopped,
        ChildLoopExit::ProtocolEnded => SupervisorPhase::Waiting,
        ChildLoopExit::Restart => SupervisorPhase::Starting,
    }
}

/// What a stderr line leads to, after the limiter's decision.
pub open spec fn stderr_actions(d: LogDecision) -> Seq<SupervisorAction> {
    report(d.report_suppressed) + if d.emit {
        seq![SupervisorAction::LogStderr]
    } else {
        Seq::empty()
    }
}

/// The report of suppressed stderr lines, when there are any.
fn report_actions(n: usize) -> (out: Vec<SupervisorAction>)
    ensures
        out@ == report(n),
{
    let mut out: Vec<SupervisorAction> = Vec::new();
    if n > 0 {
        out.push(SupervisorAction::ReportSuppressed(n));
    }
    proof {
        assert(out@ =~= report(n));
    }
    out
}

impl Supervisor {
    /// A supervisor about to start its first child.
    pub fn new(config: Config, now_ms: u64) -> (s: Self)
        ensures
            s.config == config,
            s.phase == SupervisorPhase::Starting,
            !s.stderr_open,
            s.limiter == (StderrLogLimiter { window_started_ms: now_ms, emitted: 0, suppressed: 0 }),
    {
        Supervisor {
            config,
            phase: SupervisorPhase::Starting,
            stderr_open: false,
            limiter: StderrLogLimiter::new(now_ms),
        }
    }

    /// Starts a child (at first, after a restart, or after the delay): spawns
    /// the command, or stops when there is none.
    pub fn start(&mut self) -> (out: Vec<SupervisorAction>)
        ensures
            final(self).config == old(self).config,
            final(self).limiter == old(self).limiter,
            final(self).stderr_open == old(self).stderr_open,
            if old(self).phase == SupervisorPhase::Starting || old(self).phase == SupervisorPhase::Waiting {
                if old(self).config.command@.len() == 0 {
                    final(self).phase == SupervisorPhase::Stopped && out@ == seq![
                        SupervisorAction::NotifyExited,
                        SupervisorAction::Stop,
                    ]
                } else {
                    final(self).phase == SupervisorPhase::Spawning && out@ == seq![SupervisorAction::Spawn]
                }
            } else {
                final(self).phase == old(self).phase && out@.len() == 0
            },
    {
        let mut out: Vec<SupervisorAction> = Vec::new();
        if self.phase != SupervisorPhase::Starting && self.phase != SupervisorPhase::Waiting {
            return out;
        }
        if self.config.command.len() == 0 {
            self.phase = SupervisorPhase::Stopped;
            out.push(SupervisorAction::NotifyExited);
            out.push(SupervisorAction::Stop);
        } else {
            self.phase = SupervisorPhase::Spawning;
            out.push(SupervisorAction::Spawn);
        }
        proof {
            if old(self).config.command@.len() == 0 {
                assert(out@ =~= seq![SupervisorAction::NotifyExited, SupervisorAction::Stop]);
            } else {
                assert(out@ =~= seq![SupervisorAction::Spawn]);
            }
        }
        out
    }

    /// The command could not be spawned: tell the applet and try again after
    /// the restart delay.
    pub fn spawn_failed(&mut self) -> (out: Vec<SupervisorAction>)
        ensures
            final(self).config == old(self).config,
            final(self).limiter == old(self).limiter,
            final(self).stderr_open == old(self).stderr_open,
            if old(self).phase == SupervisorPhase::Spawning {
                final(self).phase == SupervisorPhase::Waiting && out@ == seq![
                    SupervisorAction::NotifyExited,
                    SupervisorAction::Sleep(old(self).config.restart_delay_ms),
                ]
            } else {
                final(self).phase == old(self).phase && out@.len() == 0
            },
    {
        let mut out: Vec<SupervisorAction> = Vec::new();
        if self.phase != SupervisorPhase::Spawning {
            return out;
        }
        self.phase = SupervisorPhase::Waiting;
        out.push(SupervisorAction::NotifyExited);
        out.push(SupervisorAction::Sleep(self.config.restart_delay_ms));
        proof {
            assert(out@ =~= seq![
                SupervisorAction::NotifyExited,
                SupervisorAction::Sleep(old(self).config.restart_delay_ms),
            ]);
        }
        out
    }

    /// The child came up without one of its pipes: tell the applet, kill it,
    /// and try again after the restart delay.
    pub fn pipe_missing(&mut self) -> (out: Vec<SupervisorAction>)
        ensures
            final(self).config == old(self).config,
            final(self).limiter == old(self).limiter,
            final(self).stderr_open == old(self).stderr_open,
            if old(self).phase == SupervisorPhase::Spawning {
                final(self).phase == SupervisorPhase::Waiting && out@ == seq![
                    SupervisorAction::NotifyExited,
                    SupervisorAction::Kill,
                    SupervisorAction::Sleep(old(self).config.restart_delay_ms),
                ]
            } else {
                final(self).phase == old(self).phase && out@.len() == 0
            },
    {
        let mut out: Vec<SupervisorAction> = Vec::new();
        if self.phase != SupervisorPhase::Spawning {
            return out;
        }
        self.phase = SupervisorPhase::Waiting;
        out.push(SupervisorAction::NotifyExited);
        out.push(SupervisorAction::Kill);
        out.push(SupervisorAction::Sleep(self.config.restart_delay_ms));
        proof {
            assert(out@ =~= seq![
                SupervisorAction::NotifyExited,
                SupervisorAction::Kill,
                SupervisorAction::Sleep(old(self).config.restart_delay_ms),
            ]);
        }
        out
    }

    /// The child runs with its pipes: send it the init command, open its
    /// stderr with a fresh limiter window.
    pub fn spawned(&mut self, now_ms: u64) -> (out: Vec<SupervisorAction>)
        ensures
            final(self).config == old(self).config,
            if old(self).phase == SupervisorPhase::Spawning {
                &&& final(self).phase == SupervisorPhase::Running
                &&& final(self).stderr_open
                &&& final(self).limiter == (StderrLogLimiter {
                    window_started_ms: now_ms,
                    emitted: 0,
                    suppressed: 0,
                })
                &&& out@ == seq![SupervisorAction::SendInit]
            } else {
                &&& final(self).phase == old(self).phase
                &&& final(self).stderr_open == old(self).stderr_open
                &&& final(self).limiter == old(self).limiter
                &&& out@.len() == 0
            },
    {
        let mut out: Vec<SupervisorAction> = Vec::new();
        if self.phase != SupervisorPhase::Spawning {
            return out;
        }
        self.phase = SupervisorPhase::Running;
        self.stderr_open = true;
        self.limiter = StderrLogLimiter::new(now_ms);
        out.push(SupervisorAction::SendInit);
        proof {
            assert(out@ =~= seq![SupervisorAction::SendInit]);
        }
        out
    }

    /// Ends the running child's loop.
    fn exit(&mut self, exit: ChildLoopExit) -> (out: Vec<SupervisorAction>)
        requires
            old(self).phase == SupervisorPhase::Running,
        ensures
            final(self).config == old(self).config,
            final(self).phase == exit_phase(exit),
            !final(self).stderr_open,
            final(self).limiter == (StderrLogLimiter { suppressed: 0, ..old(self).limiter }),
            out@ == exit_actions(exit, old(self).limiter.suppressed, old(self).config.restart_delay_ms),
    {
        let n = self.limiter.flush();
        let mut out = report_actions(n);
        out.push(SupervisorAction::FinishChild);
        out.push(SupervisorAction::NotifyExited);
        match exit {
            ChildLoopExit::Stop => {
                out.push(SupervisorAction::Stop);
                self.phase = SupervisorPhase::Stopped;
            },
            ChildLoopExit::ProtocolEnded => {
                out.push(SupervisorAction::Sleep(self.config.restart_delay_ms));
                self.phase = SupervisorPhase::Waiting;
            },
            ChildLoopExit::Restart => {
                self.phase = SupervisorPhase::Starting;
            },
        }
        self.stderr_open = false;
        proof {
            assert(out@ =~= exit_actions(
                exit,
                old(self).limiter.suppressed,
                old(self).config.restart_delay_ms,
            ));
        }
        out
    }

    /// A restart was requested: the running child is finished and a new one
    /// started at once.
    pub fn restart_requested(&mut self) -> (out: Vec<SupervisorAction>)
        ensures
            final(self).config == old(self).config,
            if old(self).phase == SupervisorPhase::Running {
                &&& final(self).phase == SupervisorPhase::Starting
                &&& out@ == exit_actions(
                    ChildLoopExit::Restart,
                    old(self).limiter.suppressed,
                    old(self).config.restart_delay_ms,
                )
            } else {
                final(self).phase == old(self).phase && final(self).limiter == old(self).limiter
                    && out@.len() == 0
            },
    {
        if self.phase != SupervisorPhase::Running {
            return Vec::new();
        }
        self.exit(ChildLoopExit::Restart)
    }

    /// A new configuration arrived: it replaces the old one, and the running
    /// child is finished and a new one started at once.
    pub fn reconfigured(&mut self, config: Config) -> (out: Vec<SupervisorAction>)
        ensures
            if old(self).phase == SupervisorPhase::Running {
                &&& final(self).config == config
                &&& final(self).phase == SupervisorPhase::Starting
                &&& out@ == exit_actions(
                    ChildLoopExit::Restart,
                    old(self).limiter.suppressed,
                    config.restart_delay_ms,
                )
            } else {
                final(self).config == old(self).config && final(self).phase == old(self).phase
                    && out@.len() == 0
            },
    {
        if self.phase != SupervisorPhase::Running {
            return Vec::new();
        }
        self.config = config;
        self.exit(ChildLoopExit::Restart)
    }

    /// The applet stopped sending control messages or panel commands: the
    /// running child is finished and supervision ends.
    pub fn applet_gone(&mut self) -> (out: Vec<SupervisorAction>)
        ensures
            final(self).config == old(self).config,
            if old(self).phase == SupervisorPhase::Running {
                &&& final(self).phase == SupervisorPhase::Stopped
                &&& out@ == exit_actions(
                    ChildLoopExit::Stop,
                    old(self).limiter.suppressed,
                    old(self).config.restart_delay_ms,
                )
            } else {
                final(self).phase == old(self).phase && out@.len() == 0
            },
    {
        if self.phase != SupervisorPhase::Running {
            return Vec::new();
        }
        self.exit(ChildLoopExit::Stop)
    }

    /// The child's stdout ended or failed, or writing to it failed: the child
    /// is finished and a new one started after the restart delay.
    pub fn protocol_ended(&mut self) -> (out: Vec<SupervisorAction>)
        ensures
            final(self).config == old(self).config,
            if old(self).phase == SupervisorPhase::Running {
                &&& final(self).phase == SupervisorPhase::Waiting
                &&& out@ == exit_actions(
                    ChildLoopExit::ProtocolEnded,
                    old(self).limiter.suppressed,
                    old(self).config.restart_delay_ms,
                )
            } else {
                final(self).phase == old(self).phase && out@.len() == 0
            },
    {
        if self.phase != SupervisorPhase::Running {
            return Vec::new();
        }
        self.exit(ChildLoopExit::ProtocolEnded)
    }

    /// A panel command arrived for the running child: write it.
    pub fn outbound(&self) -> (out: Vec<SupervisorAction>)
        ensures
            out@ == (if self.phase == SupervisorPhase::Running {
                seq![SupervisorAction::WriteToChild]
            } else {
                Seq::empty()
            }),
    {
        let mut out: Vec<SupervisorAction> = Vec::new();
        if self.phase == SupervisorPhase::Running {
            out.push(SupervisorAction::WriteToChild);
        }
        proof {
            if self.phase == SupervisorPhase::Running {
                assert(out@ =~= seq![SupervisorAction::WriteToChild]);
            } else {
                assert(out@ =~= Seq::<SupervisorAction>::empty());
            }
        }
        out
    }

    /// The running child wrote a line on stdout: a frame goes to the applet,
    /// anything else is dropped.
    pub fn stdout_line(&self, line: &str) -> (out: Vec<SupervisorAction>)
        ensures
            self.phase != SupervisorPhase::Running ==> out@.len() == 0,
            self.phase == SupervisorPhase::Running ==> out@.len() == 1 && match out@[0] {
                SupervisorAction::Forward(frame) => frame_spec(line@) == Ok::<
                    (ChildCommandKind, Seq<char>),
                    ProtocolError,
                >((frame.kind, frame.payload@)),
                SupervisorAction::IgnoreLine(e) => frame_error_matches(e, line@),
                _ => false,
            },
    {
        let mut out: Vec<SupervisorAction> = Vec::new();
        if self.phase != SupervisorPhase::Running {
            return out;
        }
        match parse_child_frame(line) {
            Ok(frame) => out.push(SupervisorAction::Forward(frame)),
            Err(error) => out.push(SupervisorAction::IgnoreLine(error)),
        }
        out
    }

    /// The running child wrote a line on stderr at `now_ms`: an empty line is
    /// dropped; otherwise the limiter decides whether it is logged, after
    /// reporting what an expired window suppressed.
    pub fn stderr_line(&mut self, line: &str, now_ms: u64) -> (out: Vec<SupervisorAction>)
        requires
            old(self).limiter.suppressed < usize::MAX,
            old(self).limiter.emitted <= STDERR_LOG_LIMIT,
        ensures
            final(self).config == old(self).config,
            final(self).phase == old(self).phase,
            final(self).stderr_open == old(self).stderr_open,
            final(self).limiter.emitted <= STDERR_LOG_LIMIT,
            if old(self).phase == SupervisorPhase::Running && old(self).stderr_open && line@.len() > 0 {
                &&& final(self).limiter == log_step(old(self).limiter, now_ms).0
                &&& out@ == stderr_actions(log_step(old(self).limiter, now_ms).1)
            } else {
                final(self).limiter == old(self).limiter && out@.len() == 0
            },
    {
        if self.phase != SupervisorPhase::Running || !self.stderr_open || line.is_empty() {
            return Vec::new();
        }
        let d = self.limiter.log(now_ms);
        let mut out = report_actions(d.report_suppressed);
        if d.emit {
            out.push(SupervisorAction::LogStderr);
        }
        proof {
            assert(out@ =~= stderr_actions(d));
        }
        out
    }

    /// The running child's stderr ended or failed: report what was suppressed
    /// and stop reading it.
    pub fn stderr_ended(&mut self) -> (out: Vec<SupervisorAction>)
        ensures
            final(self).config == old(self).config,
            final(self).phase == old(self).phase,
            if old(self).phase == SupervisorPhase::Running && old(self).stderr_open {
                &&& !final(self).stderr_open
                &&& final(self).limiter == (StderrLogLimiter { suppressed: 0, ..old(self).limiter })
                &&& out@ == report(old(self).limiter.suppressed)
            } else {
                final(self).stderr_open == old(self).stderr_open && final(self).limiter
                    == old(self).limiter && out@.len() == 0
            },
    {
        if self.phase != SupervisorPhase::Running || !self.stderr_open {
            return Vec::new();
        }
        let n = self.limiter.flush();
        self.stderr_open = false;
        report_actions(n)
    }
}

/// Every end of a child tells the applet exactly once that the child is gone,
/// right after the child is reaped.
pub proof fn law_exit_notifies_once(exit: ChildLoopExit, suppressed: usize, delay: u64)
    ensures
        exit_actions(exit, suppressed, delay)[report(suppressed).len() as int]
            == SupervisorAction::FinishChild,
        exit_actions(exit, suppressed, delay)[report(suppressed).len() + 1int]
            == SupervisorAction::NotifyExited,
        forall|i: int|
            0 <= i < exit_actions(exit, suppressed, delay).len() && i != report(suppressed).len() + 1
                ==> exit_actions(exit, suppressed, delay)[i] != SupervisorAction::NotifyExited,
{
}

} // verus!
