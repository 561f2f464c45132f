//! The exec applet: its settings, the keys of its status items, and the
//! supervisor's rules for restarting the child and rate-limiting its stderr.
use vstd::prelude::*;

use crate::exec_protocol::StatusItem;
use crate::text::{chars_of, concat_chars, decimal, decimal_chars, string_of};

verus! {

pub const DEFAULT_RESTART_DELAY_MS: u64 = 1000;

pub const MIN_RESTART_DELAY_MS: u64 = 50;

pub const OUTBOUND_EVENT_BUFFER: usize = 128;

/// The exec applet's settings (the child's JSON options are held by the caller).
#[derive(Debug, Clone)]
pub struct Config {
    pub command: Vec<String>,
    pub restart_delay_ms: u64,
    /// Drop the parent's environment before running the command.
    pub env_clear: bool,
    /// Variables set on the child, after `env_clear`.
    pub env: Vec<(String, String)>,
}

impl Default for Config {
    fn default() -> (config: Self)
        ensures
            config.command@.len() == 0,
            config.restart_delay_ms == DEFAULT_RESTART_DELAY_MS,
            !config.env_clear,
            config.env@.len() == 0,
    {
        Config {
            command: Vec::new(),
            restart_delay_ms: DEFAULT_RESTART_DELAY_MS,
            env_clear: false,
            env: Vec::new(),
        }
    }
}

impl Config {
    /// Raises a restart delay below the minimum to the minimum.
    pub fn normalize(&mut self)
        ensures
            final(self).restart_delay_ms == (if old(self).restart_delay_ms < MIN_RESTART_DELAY_MS {
                MIN_RESTART_DELAY_MS
            } else {
                old(self).restart_delay_ms
            }),
            final(self).command == old(self).command,
            final(self).env_clear == old(self).env_clear,
            final(self).env == old(self).env,
    {
        if self.restart_delay_ms < MIN_RESTART_DELAY_MS {
            self.restart_delay_ms = MIN_RESTART_DELAY_MS;
        }
    }
}

/// Whether a configuration names a program to run.
pub fn can_launch(config: &Config) -> (out: bool)
    ensures
        out == (config.command@.len() > 0),
{
    config.command.len() > 0
}

/// The key under which a status item's widget is kept: `id:{id}` for an item
/// with a non-empty id, `index:{index}` otherwise.
pub open spec fn status_key_text(index: nat, item: StatusItem) -> Seq<char> {
    match item.id {
        Some(id) if id@.len() > 0 => "id:"@ + id@,
        _ => "index:"@ + decimal(index),
    }
}

/// The key under which a status item's widget is kept.
pub fn status_item_key(index: usize, item: &StatusItem) -> (out: String)
    ensures
        out@ == status_key_text(index as nat, *item),
{
    if let Some(id) = &item.id {
        if !id.as_str().is_empty() {
            return string_of(&concat_chars(&chars_of("id:"), &chars_of(id.as_str())));
        }
    }
    string_of(&concat_chars(&chars_of("index:"), &decimal_chars(index as u64)))
}

// ---------------------------------------------------------------------------
// Supervisor
// ---------------------------------------------------------------------------

/// Why the supervisor left the loop serving one child.
#[derive(Debug, Clone, Copy, PartialEq, Eq, Structural)]
pub enum ChildLoopExit {
    /// A restart or a new configuration was requested.
    Restart,
    /// The applet went away.
    Stop,
    /// The child closed its output or could not be written to.
    ProtocolEnded,
}

/// What the supervisor does after a child's loop ended.
#[derive(Debug, Clone, Copy, PartialEq, Eq, Structural)]
pub struct AfterExit {
    /// Stop supervising.
    pub stop: bool,
    /// Wait the restart delay before starting the child again.
    pub wait_before_restart: bool,
}

/// After a stop request the supervisor ends; after the child's protocol ended
/// it waits the restart delay; after a restart request it restarts at once.
pub fn after_child_exit(exit: ChildLoopExit) -> (out: AfterExit)
    ensures
        out.stop == (exit == ChildLoopExit::Stop),
        out.wait_before_restart == (exit == ChildLoopExit::ProtocolEnded),
{
    match exit {
        ChildLoopExit::Stop => AfterExit { stop: true, wait_before_restart: false },
        ChildLoopExit::ProtocolEnded => AfterExit { stop: false, wait_before_restart: true },
        ChildLoopExit::Restart => AfterExit { stop: false, wait_before_restart: false },
    }
}

/// The length of a stderr logging window, in milliseconds.
pub const STDERR_LOG_WINDOW_MS: u64 = 10_000;

/// The number of stderr lines logged per window.
pub const STDERR_LOG_LIMIT: usize = 20;

/// Rate limiter for a child's stderr: at most `STDERR_LOG_LIMIT` lines are
/// logged per window; the rest are counted and reported as one summary.
#[derive(Debug, Clone, Copy, PartialEq, Eq, Structural)]
pub struct StderrLogLimiter {
    /// Start of the current window, in milliseconds on a monotonic clock.
    pub window_started_ms: u64,
    pub emitted: usize,
    pub suppressed: usize,
}

/// What to do with one stderr line.
#[derive(Debug, Clone, Copy, PartialEq, Eq, Structural)]
pub struct LogDecision {
    /// The number of suppressed lines to report first (0: report nothing).
    pub report_suppressed: usize,
    /// Whether to log the line itself.
    pub emit: bool,
}

/// Milliseconds from `start` to `now`, zero if `now` is earlier.
pub open spec fn elapsed(start: u64, now: u64) -> int {
    if now >= start { now - start } else { 0 }
}

/// The limiter after `log`, and the decision for the line.
pub open spec fn log_step(l: StderrLogLimiter, now_ms: u64) -> (StderrLogLimiter, LogDecision) {
    let expired = elapsed(l.window_started_ms, now_ms) >= STDERR_LOG_WINDOW_MS;
    let report = if expired { l.suppressed } else { 0 };
    let l1 = if expired {
        StderrLogLimiter { window_started_ms: now_ms, emitted: 0, suppressed: 0 }
    } else {
        l
    };
    if l1.emitted < STDERR_LOG_LIMIT {
        (
            StderrLogLimiter { emitted: (l1.emitted + 1) as usize, ..l1 },
            LogDecision { report_suppressed: report, emit: true },
        )
    } else {
        (
            StderrLogLimiter { suppressed: (l1.suppressed + 1) as usize, ..l1 },
            LogDecision { report_suppressed: report, emit: false },
        )
    }
}

impl StderrLogLimiter {
    /// A limiter whose window starts at `now_ms`.
    pub fn new(now_ms: u64) -> (out: Self)
        ensures
            out == (StderrLogLimiter { window_started_ms: now_ms, emitted: 0, suppressed: 0 }),
    {
        StderrLogLimiter { window_started_ms: now_ms, emitted: 0, suppressed: 0 }
    }

    /// Decides about one stderr line arriving at `now_ms`: an expired window is
    /// first closed (reporting what it suppressed) and a new one opened; then
    /// the line is logged while the window's budget lasts, and counted as
    /// suppressed afterwards.
    pub fn log(&mut self, now_ms: u64) -> (out: LogDecision)
        requires
            old(self).suppressed < usize::MAX,
            old(self).emitted <= STDERR_LOG_LIMIT,
        ensures
            (*final(self), out) == log_step(*old(self), now_ms),
            final(self).emitted <= STDERR_LOG_LIMIT,
    {
        let expired = now_ms >= self.window_started_ms && now_ms - self.window_started_ms
            >= STDERR_LOG_WINDOW_MS;
        let mut report: usize = 0;
        if expired {
            report = self.flush();
            self.window_started_ms = now_ms;
            self.emitted = 0;
        }
        if self.emitted < STDERR_LOG_LIMIT {
            self.emitted += 1;
            LogDecision { report_suppressed: report, emit: true }
        } else {
            self.suppressed += 1;
            LogDecision { report_suppressed: report, emit: false }
        }
    }

    /// Closes the report of suppressed lines: returns how many there were (0
    /// when there is nothing to report) and resets the count.
    pub fn flush(&mut self) -> (out: usize)
        ensures
            out == old(self).suppressed,
            *final(self) == (StderrLogLimiter { suppressed: 0, ..*old(self) }),
    {
        let count = self.suppressed;
        self.suppressed = 0;
        count
    }
}

/// Within one window, the limiter logs exactly the first `STDERR_LOG_LIMIT`
/// lines and suppresses the rest.
pub proof fn law_window_budget(l: StderrLogLimiter, now_ms: u64)
    requires
        elapsed(l.window_started_ms, now_ms) < STDERR_LOG_WINDOW_MS,
        l.emitted <= STDERR_LOG_LIMIT,
        l.suppressed < usize::MAX,
    ensures
        log_step(l, now_ms).1.emit == (l.emitted < STDERR_LOG_LIMIT),
        log_step(l, now_ms).1.report_suppressed == 0,
        log_step(l, now_ms).0.emitted + log_step(l, now_ms).0.suppressed == l.emitted + l.suppressed + 1,
{
}

/// A line arriving after the window expired is always logged, after the
/// previous window's suppressed count is reported.
pub proof fn law_new_window_logs(l: StderrLogLimiter, now_ms: u64)
    requires
        elapsed(l.window_started_ms, now_ms) >= STDERR_LOG_WINDOW_MS,
    ensures
        log_step(l, now_ms).1 == (LogDecision { report_suppressed: l.suppressed, emit: true }),
        log_step(l, now_ms).0 == (StderrLogLimiter { window_started_ms: now_ms, emitted: 1, suppressed: 0 }),
{
}

} // verus!
