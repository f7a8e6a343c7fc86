//! The board: the stacks side by side, the one in use, and the stacks that
//! were deleted and can be brought back.

use crate::command::Command;
use crate::command::Effect;
use crate::stack::History;
use crate::stack::StopwatchStack;
use crate::stopwatch::Timer;
use std::time::Instant;
use vstd::prelude::*;

verus! {

/// What the settings are, mathematically.
pub struct Settings {
    /// How long to wait for a key, in milliseconds.
    pub update_rate_millis: u64,
    /// The path of the file that holds the board.
    pub state_file: Seq<char>,
}

impl Settings {
    /// The settings of a program that was given none.
    pub open spec fn standard() -> Settings {
        Settings { update_rate_millis: 50, state_file: "stopwatch.json"@ }
    }
}

/// The settings: how long to wait for a key before the board is drawn
/// again, and where the board is written down.
pub struct Config {
    update_rate_millis: u64,
    state_file: String,
}

impl View for Config {
    type V = Settings;

    closed spec fn view(&self) -> Settings {
        Settings { update_rate_millis: self.update_rate_millis, state_file: self.state_file@ }
    }
}

impl Config {
    /// Settings with these two values.
    pub fn new(update_rate_millis: u64, state_file: String) -> (config: Self)
        ensures
            config@ == (Settings { update_rate_millis, state_file: state_file@ }),
    {
        Config { update_rate_millis, state_file }
    }

    /// How long to wait for a key before the board is drawn again, in
    /// milliseconds.
    pub fn update_rate_millis(&self) -> (millis: u64)
        ensures
            millis == self@.update_rate_millis,
    {
        self.update_rate_millis
    }

    /// The path of the file where the board is written down.
    pub fn state_file(&self) -> (path: &str)
        ensures
            path@ == self@.state_file,
    {
        self.state_file.as_str()
    }
}

impl Default for Config {
    /// A wait of 50 milliseconds, and `stopwatch.json` in the working
    /// directory.
    fn default() -> (config: Self)
        ensures
            config@ == Settings::standard(),
    {
        Config { update_rate_millis: 50, state_file: "stopwatch.json".to_owned() }
    }
}

/// The stacks of `s`, each as what it is mathematically.
pub open spec fn histories(s: Seq<StopwatchStack>) -> Seq<History> {
    s.map_values(|stack: StopwatchStack| stack@)
}

/// What the board is, mathematically.
pub struct Session {
    /// The stacks, from top to bottom.
    pub stacks: Seq<History>,
    /// The place of the stack in use among `stacks`.
    pub current_stack_index: int,
    /// The stacks that were deleted, the latest last.
    pub deleted_stacks: Seq<History>,
    /// The settings that are written down with the board.
    pub config: Settings,
}

impl Session {
    /// There is a stack, and the one in use is among the stacks.
    pub open spec fn wf(self) -> bool {
        0 <= self.current_stack_index < self.stacks.len()
    }

    /// The board of a program that found none written down.
    pub open spec fn fresh() -> Session {
        Session {
            stacks: seq![History::fresh(Timer::zero())],
            current_stack_index: 0,
            deleted_stacks: Seq::empty(),
            config: Settings::standard(),
        }
    }

    /// The stack in use.
    pub open spec fn current_stack(self) -> History {
        self.stacks[self.current_stack_index]
    }

    /// The same board with `stack` in the place of the stack in use.
    pub open spec fn with_current_stack(self, stack: History) -> Session {
        Session { stacks: self.stacks.update(self.current_stack_index, stack), ..self }
    }

    /// Going to the next stack, and from the last to the first.
    pub open spec fn select_next(self) -> Session {
        Session {
            current_stack_index: if self.current_stack_index + 1 < self.stacks.len() {
                self.current_stack_index + 1
            } else {
                0
            },
            ..self
        }
    }

    /// Going to the stack before, and from the first to the last.
    pub open spec fn select_previous(self) -> Session {
        Session {
            current_stack_index: if self.current_stack_index > 0 {
                self.current_stack_index - 1
            } else {
                self.stacks.len() - 1
            },
            ..self
        }
    }

    /// A fresh stack just below the one in use, and the fresh one in use.
    pub open spec fn insert_below(self) -> Session {
        Session {
            stacks: self.stacks.insert(
                self.current_stack_index + 1,
                History::fresh(Timer::zero()),
            ),
            current_stack_index: self.current_stack_index + 1,
            ..self
        }
    }

    /// A fresh stack in the place of the one in use, and the fresh one in
    /// use; the stacks from there on move down.
    pub open spec fn insert_above(self) -> Session {
        Session {
            stacks: self.stacks.insert(self.current_stack_index, History::fresh(Timer::zero())),
            ..self
        }
    }

    /// The last stack cannot be deleted.
    pub open spec fn can_delete(self) -> bool {
        self.stacks.len() > 1
    }

    /// Deleting the stack in use, which is kept to be brought back. The
    /// stack that moves into its place is then in use, or the last stack
    /// where the last one was deleted.
    pub open spec fn delete_current(self) -> Session {
        if self.can_delete() {
            Session {
                stacks: self.stacks.remove(self.current_stack_index),
                current_stack_index: if self.current_stack_index <= self.stacks.len() - 2 {
                    self.current_stack_index
                } else {
                    self.stacks.len() - 2
                },
                deleted_stacks: self.deleted_stacks.push(self.current_stack()),
                ..self
            }
        } else {
            self
        }
    }

    /// There is a deleted stack to bring back.
    pub open spec fn can_restore(self) -> bool {
        self.deleted_stacks.len() > 0
    }

    /// Bringing back the stack that was deleted last, below all others.
    pub open spec fn restore_deleted(self) -> Session {
        if self.can_restore() {
            Session {
                stacks: self.stacks.push(self.deleted_stacks.last()),
                deleted_stacks: self.deleted_stacks.drop_last(),
                ..self
            }
        } else {
            self
        }
    }

    /// Starting at `now` the stopwatch in use if it stands, stopping it if
    /// it runs, after its state was remembered.
    pub open spec fn toggle_at(self, now: Instant) -> Session {
        let stack = self.current_stack();
        self.with_current_stack(
            stack.push().with_current(
                if stack.current.is_running() {
                    stack.current.stop_at(now)
                } else {
                    stack.current.start_at(now)
                },
            ),
        )
    }

    /// Setting the stopwatch in use back to zero, after its state was
    /// remembered.
    pub open spec fn reset_current(self) -> Session {
        self.with_current_stack(self.current_stack().push().with_current(Timer::zero()))
    }

    /// One step back for the stopwatch in use, where there is one.
    pub open spec fn undo(self) -> Session {
        self.with_current_stack(self.current_stack().undo())
    }

    /// One step forward for the stopwatch in use, where there is one.
    pub open spec fn redo(self) -> Session {
        self.with_current_stack(self.current_stack().redo())
    }

    /// The board after `command` was carried out at `now`.
    pub open spec fn apply_at(self, command: Command, now: Instant) -> Session {
        match command {
            Command::Quit => self,
            Command::Toggle => self.toggle_at(now),
            Command::Reset => self.reset_current(),
            Command::Undo => self.undo(),
            Command::Redo => self.redo(),
            Command::RestoreStack => self.restore_deleted(),
            Command::NewStackBelow => self.insert_below(),
            Command::NewStackAbove => self.insert_above(),
            Command::NextStack => self.select_next(),
            Command::PreviousStack => self.select_previous(),
            Command::DeleteStack => self.delete_current(),
        }
    }

    /// What carrying out `command` on this board leads to. Stepping back or
    /// forward counts as a change also where there was no step to take.
    pub open spec fn effect_of(self, command: Command) -> Effect {
        match command {
            Command::Quit => Effect::Quit,
            Command::RestoreStack => if self.can_restore() {
                Effect::Changed
            } else {
                Effect::Unchanged
            },
            Command::DeleteStack => if self.can_delete() {
                Effect::Changed
            } else {
                Effect::Unchanged
            },
            _ => Effect::Changed,
        }
    }
}

impl Session {
    /// Every stack, deleted ones too, keeps its histories within their
    /// bound.
    pub open spec fn histories_bounded(self) -> bool {
        &&& forall|i: int| 0 <= i < self.stacks.len() ==> (#[trigger] self.stacks[i]).wf()
        &&& forall|i: int|
            0 <= i < self.deleted_stacks.len() ==> (#[trigger] self.deleted_stacks[i]).wf()
    }
}

/// Whatever is asked of a board, there is a stack afterwards and the stack
/// in use is among the stacks; and where the histories of all stacks were
/// within their bound, they still are.
pub proof fn lemma_board_stays_well_formed(session: Session, command: Command, now: Instant)
    requires
        session.wf(),
    ensures
        session.apply_at(command, now).wf(),
        session.apply_at(command, now).stacks.len() >= 1,
        session.histories_bounded() ==> session.apply_at(command, now).histories_bounded(),
{
}

/// The board. There is always at least one stack on it, and one of the
/// stacks is in use.
pub struct AppState {
    stacks: Vec<StopwatchStack>,
    current_stack_index: usize,
    config: Config,
    deleted_stacks: Vec<StopwatchStack>,
}

impl View for AppState {
    type V = Session;

    closed spec fn view(&self) -> Session {
        Session {
            stacks: histories(self.stacks@),
            current_stack_index: self.current_stack_index as int,
            deleted_stacks: histories(self.deleted_stacks@),
            config: self.config@,
        }
    }
}

impl AppState {
    /// A board from its parts. They make one exactly where
    /// `current_stack_index` is the place of one of `stacks`.
    pub fn from_parts(
        stacks: Vec<StopwatchStack>,
        current_stack_index: usize,
        config: Config,
        deleted_stacks: Vec<StopwatchStack>,
    ) -> (state: Option<Self>)
        ensures
            state is Some <==> current_stack_index < stacks@.len(),
            state matches Some(s) ==> s@ == (Session {
                stacks: histories(stacks@),
                current_stack_index: current_stack_index as int,
                deleted_stacks: histories(deleted_stacks@),
                config: config@,
            }) && s@.wf(),
    {
        if current_stack_index < stacks.len() {
            Some(AppState { stacks, current_stack_index, config, deleted_stacks })
        } else {
            None
        }
    }

    /// The stacks, from top to bottom.
    pub fn stacks(&self) -> (stacks: &[StopwatchStack])
        ensures
            histories(stacks@) == self@.stacks,
    {
        self.stacks.as_slice()
    }

    /// The stacks that were deleted, the latest last.
    pub fn deleted_stacks(&self) -> (stacks: &[StopwatchStack])
        ensures
            histories(stacks@) == self@.deleted_stacks,
    {
        self.deleted_stacks.as_slice()
    }

    /// The place of the stack in use among the stacks.
    pub fn current_stack_index(&self) -> (index: usize)
        ensures
            index == self@.current_stack_index,
    {
        self.current_stack_index
    }

    /// The settings that are written down with the board.
    pub fn config(&self) -> (config: &Config)
        ensures
            config@ == self@.config,
    {
        &self.config
    }

    /// The stack in use.
    pub fn current_stack(&self) -> (stack: &StopwatchStack)
        requires
            self@.wf(),
        ensures
            stack@ == self@.current_stack(),
    {
        &self.stacks[self.current_stack_index]
    }

    /// The stack in use, to change it.
    pub fn current_stack_mut(&mut self) -> (stack: &mut StopwatchStack)
        requires
            old(self)@.wf(),
        ensures
            stack@ == old(self)@.current_stack(),
            final(self)@ == old(self)@.with_current_stack(final(stack)@),
    {
        let ghost before = self.stacks@;
        let index = self.current_stack_index;
        let stack = &mut self.stacks[index];
        proof {
            assert(histories(before.update(index as int, *final(stack))) =~= histories(
                before,
            ).update(index as int, final(stack)@));
        }
        stack
    }
}

impl AppState {
    /// Goes to the next stack, and from the last to the first.
    pub fn select_next(&mut self)
        requires
            old(self)@.wf(),
        ensures
            final(self)@ == old(self)@.select_next(),
            final(self)@.wf(),
    {
        assert(self.current_stack_index < self.stacks.len());
        if self.current_stack_index + 1 < self.stacks.len() {
            self.current_stack_index = self.current_stack_index + 1;
        } else {
            self.current_stack_index = 0;
        }
    }

    /// Goes to the stack before, and from the first to the last.
    pub fn select_previous(&mut self)
        requires
            old(self)@.wf(),
        ensures
            final(self)@ == old(self)@.select_previous(),
            final(self)@.wf(),
    {
        if self.current_stack_index > 0 {
            self.current_stack_index = self.current_stack_index - 1;
        } else {
            self.current_stack_index = self.stacks.len() - 1;
        }
    }

    /// Puts a new stack below the one in use and goes to it.
    pub fn insert_stack_below(&mut self)
        requires
            old(self)@.wf(),
        ensures
            final(self)@ == old(self)@.insert_below(),
            final(self)@.wf(),
    {
        assert(self.current_stack_index < self.stacks.len());
        self.stacks.insert(self.current_stack_index + 1, StopwatchStack::new());
        self.current_stack_index = self.current_stack_index + 1;
        assert(self@.stacks =~= old(self)@.insert_below().stacks);
    }

    /// Puts a new stack in the place of the one in use, which moves down
    /// with all below it.
    pub fn insert_stack_above(&mut self)
        requires
            old(self)@.wf(),
        ensures
            final(self)@ == old(self)@.insert_above(),
            final(self)@.wf(),
    {
        self.stacks.insert(self.current_stack_index, StopwatchStack::new());
        assert(self@.stacks =~= old(self)@.insert_above().stacks);
    }

    /// Deletes the stack in use and keeps it to be brought back, unless it
    /// is the only stack; says whether it was deleted.
    pub fn delete_current_stack(&mut self) -> (deleted: bool)
        requires
            old(self)@.wf(),
        ensures
            deleted == old(self)@.can_delete(),
            final(self)@ == old(self)@.delete_current(),
            final(self)@.wf(),
    {
        if self.stacks.len() > 1 {
            let removed = self.stacks.remove(self.current_stack_index);
            if self.current_stack_index > self.stacks.len() - 1 {
                self.current_stack_index = self.stacks.len() - 1;
            }
            self.deleted_stacks.push(removed);
            assert(self@.stacks =~= old(self)@.delete_current().stacks);
            assert(self@.deleted_stacks =~= old(self)@.delete_current().deleted_stacks);
            true
        } else {
            false
        }
    }

    /// Brings back the stack that was deleted last, below all others; says
    /// whether there was one.
    pub fn restore_deleted_stack(&mut self) -> (restored: bool)
        ensures
            restored == old(self)@.can_restore(),
            final(self)@ == old(self)@.restore_deleted(),
            old(self)@.wf() ==> final(self)@.wf(),
    {
        if let Some(stack) = self.deleted_stacks.pop() {
            self.stacks.push(stack);
            assert(self@.stacks =~= old(self)@.restore_deleted().stacks);
            assert(self@.deleted_stacks =~= old(self)@.restore_deleted().deleted_stacks);
            true
        } else {
            false
        }
    }

    /// Remembers the state of the stopwatch in use, then starts it if it
    /// stands and stops it if it runs, by the monotonic clock.
    pub fn toggle_current(&mut self)
        requires
            old(self)@.wf(),
        ensures
            exists|now: Instant| final(self)@ == #[trigger] old(self)@.toggle_at(now),
            final(self)@.wf(),
    {
        let now = Instant::now();
        self.toggle_current_at(now);
    }

    /// Remembers the state of the stopwatch in use, then starts it at `now`
    /// if it stands and stops it at `now` if it runs.
    pub fn toggle_current_at(&mut self, now: Instant)
        requires
            old(self)@.wf(),
        ensures
            final(self)@ == old(self)@.toggle_at(now),
            final(self)@.wf(),
    {
        let stack = self.current_stack_mut();
        stack.push();
        let stopwatch = stack.current_mut();
        if stopwatch.is_running() {
            stopwatch.stop_at(now);
        } else {
            stopwatch.start_at(now);
        }
    }

    /// Remembers the state of the stopwatch in use, then sets it back to
    /// zero.
    pub fn reset_current(&mut self)
        requires
            old(self)@.wf(),
        ensures
            final(self)@ == old(self)@.reset_current(),
            final(self)@.wf(),
    {
        let stack = self.current_stack_mut();
        stack.push();
        stack.current_mut().reset();
    }

    /// Takes back the last change to the stopwatch in use; says whether
    /// there was one.
    pub fn undo(&mut self) -> (undone: bool)
        requires
            old(self)@.wf(),
        ensures
            undone == old(self)@.current_stack().can_undo(),
            final(self)@ == old(self)@.undo(),
            final(self)@.wf(),
    {
        self.current_stack_mut().undo()
    }

    /// Makes the change to the stopwatch in use again that was taken back
    /// last; says whether there was one.
    pub fn redo(&mut self) -> (redone: bool)
        requires
            old(self)@.wf(),
        ensures
            redone == old(self)@.current_stack().can_redo(),
            final(self)@ == old(self)@.redo(),
            final(self)@.wf(),
    {
        self.current_stack_mut().redo()
    }

    /// Carries out `command`, reading the monotonic clock where a stopwatch
    /// is started or stopped.
    pub fn apply(&mut self, command: Command) -> (effect: Effect)
        requires
            old(self)@.wf(),
        ensures
            effect == old(self)@.effect_of(command),
            exists|now: Instant| final(self)@ == #[trigger] old(self)@.apply_at(command, now),
            final(self)@.wf(),
    {
        let now = Instant::now();
        let effect = self.apply_at(command, now);
        effect
    }

    /// Carries out `command` as if the monotonic clock read `now`.
    pub fn apply_at(&mut self, command: Command, now: Instant) -> (effect: Effect)
        requires
            old(self)@.wf(),
        ensures
            effect == old(self)@.effect_of(command),
            final(self)@ == old(self)@.apply_at(command, now),
            final(self)@.wf(),
    {
        match command {
            Command::Quit => Effect::Quit,
            Command::Toggle => {
                self.toggle_current_at(now);
                Effect::Changed
            },
            Command::Reset => {
                self.reset_current();
                Effect::Changed
            },
            Command::Undo => {
                self.undo();
                Effect::Changed
            },
            Command::Redo => {
                self.redo();
                Effect::Changed
            },
            Command::RestoreStack => {
                if self.restore_deleted_stack() {
                    Effect::Changed
                } else {
                    Effect::Unchanged
                }
            },
            Command::NewStackBelow => {
                self.insert_stack_below();
                Effect::Changed
            },
            Command::NewStackAbove => {
                self.insert_stack_above();
                Effect::Changed
            },
            Command::NextStack => {
                self.select_next();
                Effect::Changed
            },
            Command::PreviousStack => {
                self.select_previous();
                Effect::Changed
            },
            Command::DeleteStack => {
                if self.delete_current_stack() {
                    Effect::Changed
                } else {
                    Effect::Unchanged
                }
            },
        }
    }
}

impl Default for AppState {
    /// One fresh stack, in use, with the settings of a program that was
    /// given none.
    fn default() -> (state: Self)
        ensures
            state@ == Session::fresh(),
            state@.wf(),
    {
        let mut stacks = Vec::new();
        stacks.push(StopwatchStack::new());
        let state = AppState {
            stacks,
            current_stack_index: 0,
            config: Config::default(),
            deleted_stacks: Vec::new(),
        };
        assert(state@.stacks =~= Session::fresh().stacks);
        assert(state@.deleted_stacks =~= Session::fresh().deleted_stacks);
        state
    }
}

} // verus!
