//! Carrying out a plan one step at a time. The host performs each step and
//! reports how it went; the run decides what comes next: it goes through the
//! signals of the plan in order, polls the busy signal again while the panel
//! is busy, and stops at the first failed write.
use vstd::prelude::*;

use crate::panel::{signals, wire, Action, Signal};

verus! {

/// What the host does for one step of a run.
#[derive(Clone, Copy, PartialEq, Eq, Debug, Structural)]
pub enum Step {
    /// Set the command line to the level (high for data), then write the byte.
    Write(bool, u8),
    /// Set the command line high, then write this byte of the frame.
    WriteFrameByte(usize),
    /// Drive the reset line to the level.
    ResetLine(bool),
    /// Wait this many milliseconds.
    Delay(u32),
    /// Read the busy signal once.
    PollBusy,
}

/// What the host reports after a step.
#[derive(Clone, Copy, PartialEq, Eq, Debug, Structural)]
pub enum Outcome {
    /// The step was carried out; for a poll, the panel is not busy.
    Done,
    /// The poll found the panel busy.
    Busy,
    /// The bus write failed.
    Failed,
}

/// The signal that a step sends, `frame` being the frame of the run.
pub open spec fn step_signal(s: Step, frame: Seq<u8>) -> Signal {
    match s {
        Step::Write(line, b) => Signal::Write(line, b),
        Step::WriteFrameByte(i) => Signal::Write(true, frame[i as int]),
        Step::ResetLine(level) => Signal::ResetLine(level),
        Step::Delay(ms) => Signal::Delay(ms),
        Step::PollBusy => Signal::Idle,
    }
}

/// How many signals an action sends with a frame of `frame_len` bytes.
pub open spec fn signal_count(a: Action, frame_len: nat) -> nat {
    match a {
        Action::Frame => frame_len,
        Action::Repeat(_, n) => n as nat,
        _ => 1,
    }
}

/// How many signals a plan sends with a frame of `frame_len` bytes.
pub open spec fn wire_len(plan: Seq<Action>, frame_len: nat) -> nat
    decreases plan.len(),
{
    if plan.len() == 0 {
        0
    } else {
        wire_len(plan.drop_last(), frame_len) + signal_count(plan.last(), frame_len)
    }
}

/// An action sends as many signals as it counts.
proof fn lemma_signals_len(a: Action, frame: Seq<u8>)
    ensures
        signals(a, frame).len() == signal_count(a, frame.len()),
{
}

/// A plan sends as many signals as it counts.
proof fn lemma_wire_len(plan: Seq<Action>, frame: Seq<u8>)
    ensures
        wire(plan, frame).len() == wire_len(plan, frame.len()),
    decreases plan.len(),
{
    if plan.len() > 0 {
        lemma_wire_len(plan.drop_last(), frame);
        lemma_signals_len(plan.last(), frame);
    }
}

/// The signals of a plan, split before action `k`.
proof fn lemma_wire_split(plan: Seq<Action>, frame: Seq<u8>, k: int)
    requires
        0 <= k < plan.len(),
    ensures
        wire(plan, frame) == wire(plan.take(k), frame) + signals(plan[k], frame) + wire(
            plan.skip(k + 1),
            frame,
        ),
{
    let head = plan.take(k);
    let one = seq![plan[k]];
    let rest = plan.skip(k + 1);
    assert(plan =~= head + one + rest);
    crate::panel::lemma_wire_concat(head + one, rest, frame);
    crate::panel::lemma_wire_concat(head, one, frame);
    assert(one.drop_last() =~= Seq::<Action>::empty());
    assert(one.last() == plan[k]);
    assert(wire(one.drop_last(), frame) == Seq::<Signal>::empty());
    assert(Seq::<Signal>::empty() + signals(plan[k], frame) =~= signals(plan[k], frame));
    assert(wire(one, frame) == signals(plan[k], frame));
}

/// Counting the signals of one more action.
proof fn lemma_wire_len_step(plan: Seq<Action>, n: nat, k: int)
    requires
        0 <= k < plan.len(),
    ensures
        wire_len(plan.take(k + 1), n) == wire_len(plan.take(k), n) + signal_count(plan[k], n),
{
    assert(plan.take(k + 1).drop_last() =~= plan.take(k));
}

/// Signals before action `k` are fewer than all of them, by what the rest sends.
proof fn lemma_wire_len_prefix(plan: Seq<Action>, n: nat, k: int)
    requires
        0 <= k <= plan.len(),
    ensures
        wire_len(plan.take(k), n) + wire_len(plan.skip(k), n) == wire_len(plan, n),
    decreases plan.len() - k,
{
    if k == plan.len() {
        assert(plan.take(k) =~= plan);
        assert(plan.skip(k).len() == 0);
    } else {
        lemma_wire_len_prefix(plan, n, k + 1);
        lemma_wire_len_step(plan, n, k);
        let f = Seq::new(n, |_i: int| 0u8);
        lemma_wire_len(plan.skip(k), f);
        lemma_wire_len(plan.skip(k + 1), f);
        assert(plan.skip(k).skip(1) =~= plan.skip(k + 1));
        lemma_skip_first(plan.skip(k), f);
        lemma_signals_len(plan[k], f);
    }
}

/// The signals of a plan are those of its first action, then of the rest.
proof fn lemma_skip_first(plan: Seq<Action>, frame: Seq<u8>)
    requires
        plan.len() > 0,
    ensures
        wire(plan, frame) == signals(plan[0], frame) + wire(plan.skip(1), frame),
{
    lemma_wire_split(plan, frame, 0);
    assert(plan.take(0).len() == 0);
    assert(wire(plan.take(0), frame) == Seq::<Signal>::empty());
    assert(Seq::<Signal>::empty() + signals(plan[0], frame) =~= signals(plan[0], frame));
}

/// A plan being carried out.
pub struct Run {
    plan: Vec<Action>,
    frame_len: usize,
    action: usize,
    offset: usize,
    failed: bool,
}

/// How many signals an action sends.
fn count_of(a: Action, frame_len: usize) -> (r: usize)
    ensures
        r == signal_count(a, frame_len as nat),
{
    match a {
        Action::Frame => frame_len,
        Action::Repeat(_, n) => n as usize,
        _ => 1,
    }
}

impl Run {
    /// The run points at a signal of its current action, or past the end.
    #[verifier::type_invariant]
    closed spec fn inv(self) -> bool {
        &&& self.action <= self.plan@.len()
        &&& self.action < self.plan@.len() ==> self.offset < signal_count(
            self.plan@[self.action as int],
            self.frame_len as nat,
        )
        &&& self.action == self.plan@.len() ==> self.offset == 0
    }

    /// The plan being run.
    pub closed spec fn plan(&self) -> Seq<Action> {
        self.plan@
    }

    /// The length of the frame that the run sends.
    pub closed spec fn frame_len(&self) -> nat {
        self.frame_len as nat
    }

    /// How many signals of the plan are done.
    pub closed spec fn position(&self) -> nat {
        wire_len(self.plan@.take(self.action as int), self.frame_len as nat) + self.offset as nat
    }

    /// Whether a write failed.
    pub closed spec fn failed(&self) -> bool {
        self.failed
    }

    /// Whether the run is over: a write failed, or every signal is done.
    pub open spec fn finished(&self) -> bool {
        self.failed() || self.position() >= wire_len(self.plan(), self.frame_len())
    }

    /// Moves past actions that send nothing, from action `k`.
    fn skip_empty(plan: &Vec<Action>, frame_len: usize, k: usize) -> (r: usize)
        requires
            k <= plan@.len(),
        ensures
            k <= r <= plan@.len(),
            r < plan@.len() ==> signal_count(plan@[r as int], frame_len as nat) > 0,
            wire_len(plan@.take(r as int), frame_len as nat) == wire_len(
                plan@.take(k as int),
                frame_len as nat,
            ),
    {
        let mut a = k;
        while a < plan.len() && count_of(plan[a], frame_len) == 0
            invariant
                k <= a <= plan@.len(),
                wire_len(plan@.take(a as int), frame_len as nat) == wire_len(
                    plan@.take(k as int),
                    frame_len as nat,
                ),
            decreases plan@.len() - a,
        {
            proof {
                lemma_wire_len_step(plan@, frame_len as nat, a as int);
            }
            a = a + 1;
        }
        a
    }

    /// Starts a run of `plan` with a frame of `frame_len` bytes.
    pub fn new(plan: Vec<Action>, frame_len: usize) -> (r: Run)
        ensures
            r.plan() == plan@,
            r.frame_len() == frame_len,
            r.position() == 0,
            !r.failed(),
    {
        let action = Run::skip_empty(&plan, frame_len, 0);
        proof {
            assert(plan@.take(0).len() == 0);
        }
        Run { plan, frame_len, action, offset: 0, failed: false }
    }

    /// The step to carry out next, or `None` once the run is over. The step
    /// sends the next signal of the plan.
    pub fn next(&self) -> (r: Option<Step>)
        ensures
            self.finished() <==> r is None,
            forall|s: Step, f: Seq<u8>|
                r == Some(s) && f.len() == self.frame_len() ==> step_signal(s, f) == wire(
                    self.plan(),
                    f,
                )[self.position() as int],
            forall|i: usize| r == Some(Step::WriteFrameByte(i)) ==> i < self.frame_len(),
    {
        proof {
            use_type_invariant(self);
            lemma_wire_len_prefix(self.plan@, self.frame_len as nat, self.action as int);
            if self.action < self.plan@.len() {
                lemma_wire_len_prefix(self.plan@, self.frame_len as nat, self.action as int + 1);
                lemma_wire_len_step(self.plan@, self.frame_len as nat, self.action as int);
            } else {
                assert(self.plan@.skip(self.action as int).len() == 0);
            }
        }
        if self.failed || self.action >= self.plan.len() {
            return None;
        }
        let step = match self.plan[self.action] {
            Action::ResetLow => Step::ResetLine(false),
            Action::ResetHigh => Step::ResetLine(true),
            Action::DelayMs(ms) => Step::Delay(ms),
            Action::WaitUntilIdle => Step::PollBusy,
            Action::Command(c) => Step::Write(false, c.address()),
            Action::Data(b) => Step::Write(true, b),
            Action::Frame => Step::WriteFrameByte(self.offset),
            Action::Repeat(b, _) => Step::Write(true, b),
        };
        proof {
            assert forall|s: Step, f: Seq<u8>|
                Some(step) == Some(s) && f.len() == self.frame_len() implies step_signal(s, f)
                == wire(self.plan(), f)[self.position() as int] by {
                let k = self.action as int;
                lemma_wire_split(self.plan@, f, k);
                lemma_wire_len(self.plan@.take(k), f);
                lemma_signals_len(self.plan@[k], f);
            }
        }
        Some(step)
    }

    /// Takes in what became of the step that `next` gave. A finished run
    /// stays as it is; otherwise `Done` moves to the next signal, `Busy`
    /// stays on this one, and `Failed` ends the run.
    pub fn advance(&mut self, outcome: Outcome)
        ensures
            final(self).plan() == old(self).plan(),
            final(self).frame_len() == old(self).frame_len(),
            old(self).finished() ==> final(self).position() == old(self).position()
                && final(self).failed() == old(self).failed(),
            !old(self).finished() && outcome == Outcome::Done ==> final(self).position()
                == old(self).position() + 1 && !final(self).failed(),
            !old(self).finished() && outcome == Outcome::Busy ==> final(self).position()
                == old(self).position() && !final(self).failed(),
            !old(self).finished() && outcome == Outcome::Failed ==> final(self).position()
                == old(self).position() && final(self).failed(),
    {
        proof {
            use_type_invariant(&*self);
            lemma_wire_len_prefix(self.plan@, self.frame_len as nat, self.action as int);
            if self.action == self.plan@.len() {
                assert(self.plan@.skip(self.action as int).len() == 0);
            } else {
                lemma_wire_len_prefix(self.plan@, self.frame_len as nat, self.action as int + 1);
                lemma_wire_len_step(self.plan@, self.frame_len as nat, self.action as int);
            }
        }
        if self.failed || self.action >= self.plan.len() {
            return;
        }
        match outcome {
            Outcome::Busy => {},
            Outcome::Failed => {
                self.failed = true;
            },
            Outcome::Done => {
                let count = count_of(self.plan[self.action], self.frame_len);
                if self.offset + 1 < count {
                    self.offset = self.offset + 1;
                } else {
                    proof {
                        lemma_wire_len_step(self.plan@, self.frame_len as nat, self.action as int);
                    }
                    let next = Run::skip_empty(&self.plan, self.frame_len, self.action + 1);
                    self.offset = 0;
                    self.action = next;
                }
            },
        }
    }
}

} // verus!
