//! A stopwatch with a bounded history of its earlier states, to step back
//! through and forward again.

use crate::stopwatch::Stopwatch;
use crate::stopwatch::Timer;
use std::collections::VecDeque;
use vstd::prelude::*;

verus! {

/// How many earlier states a stack remembers.
pub const MAX_UNDO_STACK_SIZE: usize = 100;

/// The latest `count` entries of `s`, in their order, or all of `s` where it
/// has no more.
pub open spec fn latest(s: Seq<Timer>, count: int) -> Seq<Timer>
    recommends
        0 <= count,
{
    if s.len() > count {
        s.subrange(s.len() - count, s.len() as int)
    } else {
        s
    }
}

/// The entries of `s` that a history keeps: the latest
/// `MAX_UNDO_STACK_SIZE`.
pub open spec fn keep_latest(s: Seq<Timer>) -> Seq<Timer> {
    latest(s, MAX_UNDO_STACK_SIZE as int)
}

/// What a stack is, mathematically: the stopwatch in use, the states to go
/// back to (latest last), and the states to go forward to (next last).
pub struct History {
    pub undo: Seq<Timer>,
    pub redo: Seq<Timer>,
    pub current: Timer,
}

impl History {
    /// Both histories together hold no more than `MAX_UNDO_STACK_SIZE`.
    pub open spec fn wf(self) -> bool {
        self.undo.len() + self.redo.len() <= MAX_UNDO_STACK_SIZE
    }

    /// A fresh stack around `current`.
    pub open spec fn fresh(current: Timer) -> History {
        History { undo: Seq::empty(), redo: Seq::empty(), current }
    }

    /// The same stack with `current` in use.
    pub open spec fn with_current(self, current: Timer) -> History {
        History { undo: self.undo, redo: self.redo, current }
    }

    /// Remembering the stopwatch in use: it goes on top of the states to go
    /// back to, the oldest of which leaves where there are too many, and
    /// nothing is left to go forward to.
    pub open spec fn push(self) -> History {
        History {
            undo: keep_latest(self.undo.push(self.current)),
            redo: Seq::empty(),
            current: self.current,
        }
    }

    /// There is a state to go back to.
    pub open spec fn can_undo(self) -> bool {
        self.undo.len() > 0
    }

    /// One step back, where there is one.
    pub open spec fn undo(self) -> History {
        if self.can_undo() {
            History {
                undo: self.undo.drop_last(),
                redo: self.redo.push(self.current),
                current: self.undo.last(),
            }
        } else {
            self
        }
    }

    /// There is a state to go forward to.
    pub open spec fn can_redo(self) -> bool {
        self.redo.len() > 0
    }

    /// One step forward, where there is one.
    pub open spec fn redo(self) -> History {
        if self.can_redo() {
            History {
                undo: self.undo.push(self.current),
                redo: self.redo.drop_last(),
                current: self.redo.last(),
            }
        } else {
            self
        }
    }

    /// A change made so that it can be taken back: the state is remembered,
    /// then `next` is in use.
    pub open spec fn change_to(self, next: Timer) -> History {
        self.push().with_current(next)
    }

    /// One such change after another, to each of `states` in turn.
    pub open spec fn change_through(self, states: Seq<Timer>) -> History
        decreases states.len(),
    {
        if states.len() == 0 {
            self
        } else {
            self.change_to(states[0]).change_through(states.drop_first())
        }
    }

    /// `steps` steps back, one after another.
    pub open spec fn undo_times(self, steps: nat) -> History
        decreases steps,
    {
        if steps == 0 {
            self
        } else {
            self.undo().undo_times((steps - 1) as nat)
        }
    }
}

/// The bound on the histories holds of a fresh stack and is kept by every
/// step, so the states to go back to are never more than
/// `MAX_UNDO_STACK_SIZE`. Remembering a state keeps the bound whatever the
/// stack was like before.
pub proof fn lemma_histories_stay_bounded(h: History, next: Timer, first: Timer)
    ensures
        History::fresh(first).wf(),
        h.push().wf(),
        h.push().undo.len() <= MAX_UNDO_STACK_SIZE,
        h.wf() ==> h.undo.len() <= MAX_UNDO_STACK_SIZE,
        h.wf() ==> h.undo().wf(),
        h.wf() ==> h.redo().wf(),
        h.wf() ==> h.with_current(next).wf(),
{
}

/// Remembering a state on a full history lets the oldest state go, and no
/// other; below the bound nothing goes.
pub proof fn lemma_push_evicts_oldest(h: History)
    ensures
        h.undo.len() < MAX_UNDO_STACK_SIZE ==> h.push().undo == h.undo.push(h.current),
        h.undo.len() == MAX_UNDO_STACK_SIZE ==> h.push().undo == h.undo.drop_first().push(
            h.current,
        ),
{
}

/// Stepping back `steps + 1` times is stepping back `steps` times and then
/// once more.
proof fn lemma_undo_times_last(h: History, steps: nat)
    ensures
        h.undo_times(steps + 1) == h.undo_times(steps).undo(),
    decreases steps,
{
    if steps > 0 {
        lemma_undo_times_last(h.undo(), (steps - 1) as nat);
        assert(h.undo_times(steps + 1) == h.undo().undo_times(steps));
    }
}

/// Changes that were each made after remembering the state are taken back
/// by as many steps back: after up to `MAX_UNDO_STACK_SIZE` changes and as
/// many steps back, the stopwatch in use is the one from before the first
/// change. The states to go back to are those from before, less the oldest
/// ones for which the changes left no room.
pub proof fn lemma_undo_takes_back_changes(h: History, states: Seq<Timer>)
    requires
        h.wf(),
        states.len() <= MAX_UNDO_STACK_SIZE,
    ensures
        h.change_through(states).undo_times(states.len()).current == h.current,
        h.change_through(states).undo_times(states.len()).undo == latest(
            h.undo,
            MAX_UNDO_STACK_SIZE - states.len(),
        ),
        h.undo.len() + states.len() <= MAX_UNDO_STACK_SIZE ==> h.change_through(
            states,
        ).undo_times(states.len()).undo == h.undo,
    decreases states.len(),
{
    if states.len() > 0 {
        // After the first change the state from before it lies on top of the
        // states to go back to. The other changes are taken back by as many
        // steps, which leave it on top; the last step puts it in use.
        let changed = h.change_to(states[0]);
        let rest = states.drop_first();
        lemma_undo_takes_back_changes(changed, rest);
        lemma_undo_times_last(changed.change_through(rest), rest.len());
    }
}

/// A stopwatch together with its history.
pub struct StopwatchStack {
    undo_stack: VecDeque<Stopwatch>,
    redo_stack: VecDeque<Stopwatch>,
    current: Stopwatch,
}

/// The stopwatches of `s`, each as what it is mathematically.
pub open spec fn timers(s: Seq<Stopwatch>) -> Seq<Timer> {
    s.map_values(|w: Stopwatch| w@)
}

/// The stopwatches of `states`, in their order, as a deque.
fn deque_of(states: &Vec<Stopwatch>) -> (deque: VecDeque<Stopwatch>)
    ensures
        deque@ == states@,
{
    let mut deque = VecDeque::new();
    let mut i: usize = 0;
    while i < states.len()
        invariant
            i <= states@.len(),
            deque@ == states@.subrange(0, i as int),
        decreases states@.len() - i,
    {
        deque.push_back(states[i]);
        i = i + 1;
    }
    deque
}

/// The stopwatches of `deque`, in their order, as a vector.
fn vec_of(deque: &VecDeque<Stopwatch>) -> (states: Vec<Stopwatch>)
    ensures
        states@ == deque@,
{
    let mut states = Vec::new();
    let mut i: usize = 0;
    while i < deque.len()
        invariant
            i <= deque@.len(),
            states@ == deque@.subrange(0, i as int),
        decreases deque@.len() - i,
    {
        states.push(deque[i]);
        i = i + 1;
    }
    states
}

impl View for StopwatchStack {
    type V = History;

    closed spec fn view(&self) -> History {
        History {
            undo: timers(self.undo_stack@),
            redo: timers(self.redo_stack@),
            current: self.current@,
        }
    }
}

impl Default for StopwatchStack {
    fn default() -> (stack: Self)
        ensures
            stack@ == History::fresh(Timer::zero()),
    {
        Self::new()
    }
}

impl StopwatchStack {
    /// A stack around a stopwatch at zero, with nothing to go back or
    /// forward to.
    pub fn new() -> (stack: Self)
        ensures
            stack@ == History::fresh(Timer::zero()),
            stack@.wf(),
    {
        let stack = Self {
            undo_stack: VecDeque::new(),
            redo_stack: VecDeque::new(),
            current: Stopwatch::new(),
        };
        assert(stack@.redo =~= Seq::<Timer>::empty());
        stack
    }

    /// A stack with `undo` to go back to and `redo` to go forward to, the
    /// nearest step last in each, and `current` in use. The two histories
    /// make a stack exactly where they hold no more than
    /// `MAX_UNDO_STACK_SIZE` states together.
    pub fn from_parts(undo: Vec<Stopwatch>, redo: Vec<Stopwatch>, current: Stopwatch) -> (stack:
        Option<Self>)
        ensures
            stack is Some <==> undo@.len() + redo@.len() <= MAX_UNDO_STACK_SIZE,
            stack matches Some(s) ==> s@ == (History {
                undo: timers(undo@),
                redo: timers(redo@),
                current: current@,
            }) && s@.wf(),
    {
        if undo.len() > MAX_UNDO_STACK_SIZE || redo.len() > MAX_UNDO_STACK_SIZE - undo.len() {
            return None;
        }
        Some(Self { undo_stack: deque_of(&undo), redo_stack: deque_of(&redo), current })
    }

    /// The states to go back to, the latest last.
    pub fn undo_history(&self) -> (states: Vec<Stopwatch>)
        ensures
            timers(states@) == self@.undo,
    {
        vec_of(&self.undo_stack)
    }

    /// The states to go forward to, the next last.
    pub fn redo_history(&self) -> (states: Vec<Stopwatch>)
        ensures
            timers(states@) == self@.redo,
    {
        vec_of(&self.redo_stack)
    }

    /// The stopwatch in use.
    pub fn current(&self) -> (current: &Stopwatch)
        ensures
            current@ == self@.current,
    {
        &self.current
    }

    /// The stopwatch in use, to change it. A change is only taken back by
    /// `undo` if `push` was called before it.
    pub fn current_mut(&mut self) -> (current: &mut Stopwatch)
        ensures
            current@ == old(self)@.current,
            final(self)@ == old(self)@.with_current(final(current)@),
    {
        &mut self.current
    }

    /// Remembers the stopwatch in use, so that `undo` comes back to it.
    pub fn push(&mut self)
        ensures
            final(self)@ == old(self)@.push(),
            final(self)@.redo == Seq::<Timer>::empty(),
            final(self)@.undo.len() <= MAX_UNDO_STACK_SIZE,
            final(self)@.wf(),
    {
        self.undo_stack.push_back(self.current);
        let ghost pushed = self.undo_stack@;
        while self.undo_stack.len() > MAX_UNDO_STACK_SIZE
            invariant
                self.undo_stack@.len() <= pushed.len(),
                self.undo_stack@.len() == pushed.len() || self.undo_stack@.len()
                    >= MAX_UNDO_STACK_SIZE,
                self.undo_stack@ == pushed.subrange(
                    pushed.len() - self.undo_stack@.len(),
                    pushed.len() as int,
                ),
                self.redo_stack == old(self).redo_stack,
                self.current == old(self).current,
            decreases self.undo_stack@.len(),
        {
            self.undo_stack.pop_front();
        }
        self.redo_stack.clear();
        assert(self@.undo =~= old(self)@.push().undo);
        assert(self@.redo =~= old(self)@.push().redo);
    }

    /// Steps back to the state remembered last, and says whether there was
    /// one.
    pub fn undo(&mut self) -> (undone: bool)
        ensures
            undone == old(self)@.can_undo(),
            final(self)@ == old(self)@.undo(),
            !undone ==> final(self)@ == old(self)@,
            old(self)@.wf() ==> final(self)@.wf(),
    {
        if let Some(stopwatch) = self.undo_stack.pop_back() {
            self.redo_stack.push_back(self.current);
            self.current = stopwatch;
            assert(self@.undo =~= old(self)@.undo().undo);
            assert(self@.redo =~= old(self)@.undo().redo);
            true
        } else {
            false
        }
    }

    /// Steps forward to the state that the last `undo` left, and says
    /// whether there was one.
    pub fn redo(&mut self) -> (redone: bool)
        ensures
            redone == old(self)@.can_redo(),
            final(self)@ == old(self)@.redo(),
            !redone ==> final(self)@ == old(self)@,
            old(self)@.wf() ==> final(self)@.wf(),
    {
        if let Some(stopwatch) = self.redo_stack.pop_back() {
            self.undo_stack.push_back(self.current);
            self.current = stopwatch;
            assert(self@.undo =~= old(self)@.redo().undo);
            assert(self@.redo =~= old(self)@.redo().redo);
            true
        } else {
            false
        }
    }
}

} // verus!
