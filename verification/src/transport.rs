//! The transport state machine.
//!
//! The transport owns the buffered command lines of the running job and
//! decides, tick by tick, what must be written to the serial link. The link
//! itself (the port, the channels, the sleeps) lives outside this crate; the
//! surrounding worker loop feeds control messages and write results into
//! these functions and performs the actions they prescribe:
//!
//! - [`SerialChannel::apply_command`] consumes one control message and says
//!   whether the out-of-band halt byte must be written now;
//! - [`SerialChannel::next_line`] pops the next line to write while running;
//! - [`SerialChannel::on_write_failure`] / [`SerialChannel::on_write_success`]
//!   record the write's outcome (a failed line is re-queued, never dropped);
//! - [`contains_ack`] recognises the controller's acknowledgement token in an
//!   inbound byte buffer.
use vstd::prelude::*;

verus! {

/// External control messages, consumed non-blocking once per tick.
#[derive(Debug)]
pub enum PortCmd {
    /// Clear the buffer, reset progress to zero, go idle.
    WAIT,
    /// Replace the buffer with these lines (given in send order) and start
    /// draining.
    SEND(Vec<String>),
    /// Resume draining.
    RUN,
    /// Suspend draining; the buffer is retained.
    PAUSE,
    /// Clear the buffer and terminate the worker.
    STOP,
    /// Write a single out-of-band halt byte immediately, without touching the
    /// buffer, and suspend draining pending an external WAIT or STOP.
    CANCEL,
}

/// The worker's status.
#[derive(Clone, Copy, Debug, PartialEq, Eq)]
pub enum Status {
    /// Idle, buffer empty.
    Waiting,
    /// Actively draining the buffer.
    Running,
    /// Draining suspended, buffer retained.
    Paused,
    /// Terminal: the worker exits.
    Stopped,
    /// A halt was issued; buffer retained, draining suspended.
    Cancelling,
}

/// The abstract state of the transport: its status, the buffered lines
/// (in reverse send order, so popping yields the original order), and the
/// last published progress value (remaining line count).
pub struct ChannelState {
    pub status: Status,
    pub buffer: Seq<String>,
    pub progress: nat,
}

/// The state every job starts from and every reset returns to.
pub open spec fn idle_state() -> ChannelState {
    ChannelState { status: Status::Waiting, buffer: Seq::empty(), progress: 0 }
}

/// What one control message does to the state.
pub open spec fn apply_spec(s: ChannelState, cmd: PortCmd) -> ChannelState {
    match cmd {
        PortCmd::WAIT => idle_state(),
        PortCmd::SEND(cmds) => ChannelState {
            status: Status::Running,
            buffer: cmds@.reverse(),
            progress: s.progress,
        },
        PortCmd::RUN => ChannelState { status: Status::Running, buffer: s.buffer, progress: s.progress },
        PortCmd::PAUSE => ChannelState { status: Status::Paused, buffer: s.buffer, progress: s.progress },
        PortCmd::STOP => ChannelState { status: Status::Stopped, buffer: Seq::empty(), progress: 0 },
        PortCmd::CANCEL => ChannelState {
            status: Status::Cancelling,
            buffer: s.buffer,
            progress: s.progress,
        },
    }
}

/// Whether the control message demands the out-of-band halt byte.
pub open spec fn halt_needed(cmd: PortCmd) -> bool {
    cmd is CANCEL
}

/// The line a tick pops: the next buffered line, only while running.
pub open spec fn popped_line(s: ChannelState) -> Option<String> {
    if s.status is Running && s.buffer.len() > 0 {
        Some(s.buffer.last())
    } else {
        None
    }
}

/// The state after the pop attempt of one tick: while running, either the
/// next line leaves the buffer or, with the buffer exhausted, the transport
/// goes back to waiting; in any other status nothing happens.
pub open spec fn pop_spec(s: ChannelState) -> ChannelState {
    if s.status is Running {
        if s.buffer.len() == 0 {
            ChannelState { status: Status::Waiting, buffer: s.buffer, progress: s.progress }
        } else {
            ChannelState { status: s.status, buffer: s.buffer.drop_last(), progress: s.progress }
        }
    } else {
        s
    }
}

/// After a failed write the popped line is put back and draining pauses:
/// the line is never silently dropped.
pub open spec fn write_failed_spec(s: ChannelState, line: String) -> ChannelState {
    ChannelState { status: Status::Paused, buffer: s.buffer.push(line), progress: s.progress }
}

/// After a successful write the remaining line count is published.
pub open spec fn write_ok_spec(s: ChannelState) -> ChannelState {
    ChannelState { status: s.status, buffer: s.buffer, progress: s.buffer.len() }
}

/// The transport state machine, as the worker loop drives it.
pub struct SerialChannel {
    status: Status,
    buffer: Vec<String>,
    progress: usize,
}

impl View for SerialChannel {
    type V = ChannelState;

    closed spec fn view(&self) -> ChannelState {
        ChannelState {
            status: self.status,
            buffer: self.buffer@,
            progress: self.progress as nat,
        }
    }
}

impl SerialChannel {
    /// A fresh transport: idle, nothing buffered, progress zero.
    pub fn new() -> (c: SerialChannel)
        ensures
            c@ == idle_state(),
    {
        let c = SerialChannel { status: Status::Waiting, buffer: Vec::new(), progress: 0 };
        proof {
            assert(c@.buffer =~= idle_state().buffer);
        }
        c
    }

    /// Clears the buffer, resets progress to zero and goes idle.
    pub fn reset(&mut self)
        ensures
            final(self)@ == idle_state(),
    {
        self.buffer.clear();
        self.status = Status::Waiting;
        self.progress = 0;
    }

    /// Consumes one control message. Returns true exactly when the caller
    /// must write the out-of-band halt byte to the link now, before any
    /// further buffered traffic.
    pub fn apply_command(&mut self, cmd: PortCmd) -> (halt: bool)
        ensures
            final(self)@ == apply_spec(old(self)@, cmd),
            halt == halt_needed(cmd),
    {
        match cmd {
            PortCmd::WAIT => {
                self.reset();
                false
            },
            PortCmd::SEND(cmds) => {
                let mut cmds = cmds;
                let ghost orig = cmds@;
                let ghost pre_progress = self.progress;
                self.buffer.clear();
                // buffer the lines in reverse so pops yield original order
                while cmds.len() > 0
                    invariant
                        self.progress == pre_progress,
                        cmds@ == orig.take(cmds@.len() as int),
                        self.buffer@.len() + cmds@.len() == orig.len(),
                        forall|j: int|
                            0 <= j < self.buffer@.len() ==> #[trigger] self.buffer@[j]
                                == orig[orig.len() - 1 - j],
                    decreases cmds@.len(),
                {
                    match cmds.pop() {
                        Some(line) => {
                            self.buffer.push(line);
                        },
                        None => {},
                    }
                    proof {
                        assert(cmds@ =~= orig.take(cmds@.len() as int));
                    }
                }
                proof {
                    assert(self.buffer@ =~= orig.reverse());
                }
                self.status = Status::Running;
                false
            },
            PortCmd::RUN => {
                self.status = Status::Running;
                false
            },
            PortCmd::PAUSE => {
                self.status = Status::Paused;
                false
            },
            PortCmd::STOP => {
                self.reset();
                self.status = Status::Stopped;
                false
            },
            PortCmd::CANCEL => {
                self.status = Status::Cancelling;
                true
            },
        }
    }

    /// Pops the next line to write, in original send order, while running;
    /// detects job completion (buffer exhausted) and goes back to waiting.
    pub fn next_line(&mut self) -> (line: Option<String>)
        ensures
            final(self)@ == pop_spec(old(self)@),
            line == popped_line(old(self)@),
    {
        match self.status {
            Status::Running => {
                let popped = self.buffer.pop();
                match popped {
                    Some(l) => {
                        proof {
                            assert(self.buffer@ =~= old(self)@.buffer.drop_last());
                        }
                        Some(l)
                    },
                    None => {
                        self.status = Status::Waiting;
                        None
                    },
                }
            },
            _ => None,
        }
    }

    /// Records a failed write of the popped line: the line is re-queued (it
    /// is the next line again once draining resumes) and draining pauses for
    /// the operator.
    pub fn on_write_failure(&mut self, line: String)
        ensures
            final(self)@ == write_failed_spec(old(self)@, line),
    {
        self.buffer.push(line);
        self.status = Status::Paused;
    }

    /// Records a successful write: publishes the remaining line count as the
    /// job's progress and returns it.
    pub fn on_write_success(&mut self) -> (p: usize)
        ensures
            final(self)@ == write_ok_spec(old(self)@),
            p as nat == final(self)@.progress,
    {
        self.progress = self.buffer.len();
        self.progress
    }

    /// The current status.
    pub fn status(&self) -> (st: Status)
        ensures
            st == self@.status,
    {
        self.status
    }

    /// The last published progress value: the remaining line count.
    pub fn progress(&self) -> (p: usize)
        ensures
            p as nat == self@.progress,
    {
        self.progress
    }

    /// How many lines are still buffered.
    pub fn buffer_len(&self) -> (n: usize)
        ensures
            n as nat == self@.buffer.len(),
    {
        self.buffer.len()
    }
}

/// The inbound byte buffer contains the acknowledgement token "ok"
/// (ASCII 111, 107) as a contiguous substring.
pub open spec fn contains_ok(bytes: Seq<u8>) -> bool {
    exists|i: int| 0 <= i && i + 2 <= bytes.len() && #[trigger] bytes[i] == 111 && bytes[i + 1]
        == 107
}

/// Scans an inbound response buffer for the acknowledgement token.
pub fn contains_ack(response: &Vec<u8>) -> (r: bool)
    ensures
        r == contains_ok(response@),
{
    if response.len() < 2 {
        return false;
    }
    let n = response.len();
    let mut i: usize = 0;
    while i + 1 < n
        invariant
            n == response@.len(),
            n >= 2,
            i + 1 <= n,
            forall|j: int| 0 <= j < i ==> !(#[trigger] response@[j] == 111 && response@[j + 1]
                == 107),
        decreases response@.len() - i,
    {
        if response[i] == 111 && response[i + 1] == 107 {
            assert(contains_ok(response@));
            return true;
        }
        i = i + 1;
    }
    false
}

/// One successful drain tick while running: the next line leaves the buffer
/// and the remaining count is published.
pub open spec fn drain_tick(s: ChannelState) -> ChannelState {
    write_ok_spec(pop_spec(s))
}

/// `n` successive successful drain ticks.
pub open spec fn drain_n(s: ChannelState, n: nat) -> ChannelState
    decreases n,
{
    if n == 0 {
        s
    } else {
        drain_tick(drain_n(s, (n - 1) as nat))
    }
}

/// A full run drains to completion: starting to run with some buffered lines
/// and a controller that acknowledges every write, after `k` ticks the
/// transport is still running, exactly the first `len - k` lines remain (in
/// order), and the published progress equals that remaining count — so the
/// progress readings decrease by one per line down to zero.
pub proof fn lemma_run_drains(s: ChannelState, k: nat)
    requires
        s.status is Running,
        k <= s.buffer.len(),
    ensures
        drain_n(s, k).status is Running,
        drain_n(s, k).buffer == s.buffer.take((s.buffer.len() - k) as int),
        k > 0 ==> drain_n(s, k).progress == s.buffer.len() - k,
    decreases k,
{
    if k == 0 {
        assert(s.buffer.take(s.buffer.len() as int) =~= s.buffer);
    } else {
        lemma_run_drains(s, (k - 1) as nat);
        let prev = drain_n(s, (k - 1) as nat);
        assert(prev.buffer.len() == s.buffer.len() - (k - 1));
        assert(prev.buffer.drop_last() =~= s.buffer.take((s.buffer.len() - k) as int));
    }
}

/// Progress is monotonically non-increasing over a successful drain.
pub proof fn lemma_drain_monotone(s: ChannelState, i: nat, j: nat)
    requires
        s.status is Running,
        1 <= i <= j <= s.buffer.len(),
    ensures
        drain_n(s, j).progress <= drain_n(s, i).progress,
{
    lemma_run_drains(s, i);
    lemma_run_drains(s, j);
}

/// After the last line is written the buffer is empty with progress zero,
/// and the following tick finds nothing to pop and goes back to waiting.
pub proof fn lemma_drain_completes(s: ChannelState)
    requires
        s.status is Running,
        s.buffer.len() > 0,
    ensures
        drain_n(s, s.buffer.len()).buffer.len() == 0,
        drain_n(s, s.buffer.len()).progress == 0,
        popped_line(drain_n(s, s.buffer.len())) is None,
        pop_spec(drain_n(s, s.buffer.len())).status is Waiting,
{
    lemma_run_drains(s, s.buffer.len());
}

/// Cancellation is immediate and out-of-band: issuing `Cancel` while running
/// demands the halt byte at once, leaves the buffered lines exactly as they
/// were, and no further line is popped while cancelling.
pub proof fn lemma_cancel_is_out_of_band(s: ChannelState, cmd: PortCmd)
    requires
        s.status is Running,
        cmd is CANCEL,
    ensures
        halt_needed(cmd),
        apply_spec(s, cmd).status is Cancelling,
        apply_spec(s, cmd).buffer == s.buffer,
        popped_line(apply_spec(s, cmd)) is None,
        pop_spec(apply_spec(s, cmd)) == apply_spec(s, cmd),
{
}

} // verus!
