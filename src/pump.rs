//! The decisions of a session's background loops. The reader loop turns each
//! read of the terminal into an event; the monitor loop of a one-shot command
//! polls its process until it exits. The loops themselves run outside the
//! library and only perform what is decided here.
use vstd::prelude::*;
use vstd::string::*;
use crate::pty::{PtyExitEvent, PtyOutputEvent};

verus! {

/// Size of the buffer each read of a terminal fills.
pub const READ_CHUNK: usize = 4096;

/// Milliseconds between two polls of a one-shot command's process.
pub const POLL_INTERVAL_MS: u64 = 200;

/// Milliseconds to wait after a process exit before reporting it, so that the
/// reader loop can publish the last output first.
pub const EXIT_GRACE_MS: u64 = 500;

/// What a reader loop publishes after one read.
pub enum ReaderEvent {
    /// Bytes were read: publish them and read again.
    Output(PtyOutputEvent),
    /// End of stream or a read error: publish the exit and stop.
    Exit(PtyExitEvent),
}

/// The result of polling a process for its exit.
pub enum PollOutcome {
    /// Still running.
    Running,
    /// Exited with this code.
    Exited(u32),
    /// The poll itself failed.
    Failed,
    /// The process handle could no longer be used.
    Unavailable,
}

/// What a monitor loop does after one poll.
#[derive(Clone, Copy, PartialEq, Eq, Debug)]
pub enum MonitorStep {
    KeepPolling,
    /// Wait the grace delay, publish an exit with this code, and stop.
    ReportExit(i32),
    /// Stop without publishing anything.
    Stop,
}

/// An exit code as published: the process's code reinterpreted as signed.
pub open spec fn signed_code(code: u32) -> i32 {
    code as i32
}

/// The event for one read of session `session_id`'s terminal into `buf`:
/// `Some(n)` when `n` bytes were read, `None` when the read failed.
pub fn reader_event(session_id: &str, read: Option<usize>, buf: &[u8]) -> (r: ReaderEvent)
    requires
        read matches Some(n) ==> n <= buf@.len(),
    ensures
        match r {
            ReaderEvent::Output(e) => read matches Some(n) && n > 0 && e.session_id@ == session_id@
                && e.data@ == buf@.subrange(0, n as int),
            ReaderEvent::Exit(e) => (read is None || read == Some(0usize)) && e.session_id@
                == session_id@ && e.exit_code is None,
        },
{
    match read {
        Some(n) => {
            if n == 0 {
                return ReaderEvent::Exit(
                    PtyExitEvent { session_id: String::from_str(session_id), exit_code: None },
                );
            }
            let mut data: Vec<u8> = Vec::new();
            let mut i: usize = 0;
            while i < n
                invariant
                    n <= buf@.len(),
                    i <= n,
                    data@ == buf@.subrange(0, i as int),
                decreases n - i,
            {
                data.push(buf[i]);
                assert(buf@.subrange(0, i + 1) =~= buf@.subrange(0, i as int).push(buf@[i as int]));
                i = i + 1;
            }
            ReaderEvent::Output(PtyOutputEvent { session_id: String::from_str(session_id), data })
        },
        None => ReaderEvent::Exit(
            PtyExitEvent { session_id: String::from_str(session_id), exit_code: None },
        ),
    }
}

/// The monitor loop's step after a poll. A failed poll is reported as exit
/// code -1; an unusable handle ends the loop silently.
pub fn monitor_step(poll: PollOutcome) -> (r: MonitorStep)
    ensures
        r == match poll {
            PollOutcome::Running => MonitorStep::KeepPolling,
            PollOutcome::Exited(c) => MonitorStep::ReportExit(signed_code(c)),
            PollOutcome::Failed => MonitorStep::ReportExit(-1i32),
            PollOutcome::Unavailable => MonitorStep::Stop,
        },
{
    match poll {
        PollOutcome::Running => MonitorStep::KeepPolling,
        PollOutcome::Exited(c) => MonitorStep::ReportExit(c as i32),
        PollOutcome::Failed => MonitorStep::ReportExit(-1),
        PollOutcome::Unavailable => MonitorStep::Stop,
    }
}

/// The exit code reported when a session is closed: none when its process
/// was still running (it is then killed), else the code it exited with, if
/// one could be read.
pub fn close_exit_code(still_running: bool, status: Option<u32>) -> (r: Option<i32>)
    ensures
        r == if still_running {
            None
        } else {
            match status {
                Some(c) => Some(signed_code(c)),
                None => None,
            }
        },
{
    if still_running {
        None
    } else {
        match status {
            Some(c) => Some(c as i32),
            None => None,
        }
    }
}

} // verus!
