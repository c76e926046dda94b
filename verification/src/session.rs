//! The session driver: what one turn of the outer loop decides.
//!
//! The caller owns the loop. Each turn it polls for a key, measures the time
//! since the last tick, hands both to [`Session::step`] and does what the
//! returned [`Action`] says. The session itself never waits and never
//! paints.

use vstd::prelude::*;
use crate::config::Config;
use crate::game::{GameOver, GameState, GameView};
use crate::geometry::{Direction, Position};
use crate::input::{debounced, Debouncer, Key};
use crate::scheduler::{Scheduler, SchedulerView};

verus! {

/// Why a session ended.
#[derive(Clone, Copy, Debug, PartialEq, Eq, Structural)]
pub enum EndReason {
    /// The player pressed the quit key.
    Quit,
    /// The snake left the playfield.
    GameOver,
}

/// What the caller has to do after a turn of the loop.
#[derive(Clone, Copy, Debug, PartialEq, Eq, Structural)]
pub enum Action {
    /// No tick was due: nothing to paint, poll again.
    Idle,
    /// A tick was played: paint the new state and restart the tick timer.
    Render,
    /// The session is over: paint the end screen and leave the loop.
    End(EndReason),
}

/// A session as mathematics sees it.
pub struct SessionView {
    pub game: GameView,
    /// The heading the debouncer accepted last.
    pub last_accepted: Option<Direction>,
    pub scheduler: SchedulerView,
    /// The heading accepted since the last tick, waiting for the next one.
    pub pending: Option<Direction>,
    /// Set once the session is over.
    pub ended: Option<EndReason>,
}

impl SessionView {
    /// A session that has not ended holds a running game.
    pub open spec fn wf(self) -> bool {
        self.ended is None ==> self.game.wf()
    }

    /// What the debouncer accepts of this turn's key, if there is a key.
    pub open spec fn accepted(self, key: Option<Key>) -> Option<Direction> {
        match key {
            Some(k) => debounced(self.last_accepted, k),
            None => None,
        }
    }

    /// The heading that waits for the next tick once this turn's key has
    /// been looked at: a newly accepted one takes the place of an older one.
    pub open spec fn pending_after(self, key: Option<Key>) -> Option<Direction> {
        if self.accepted(key) is Some {
            self.accepted(key)
        } else {
            self.pending
        }
    }

    /// The heading the debouncer remembers once this turn's key has been
    /// looked at.
    pub open spec fn last_accepted_after(self, key: Option<Key>) -> Option<Direction> {
        if self.accepted(key) is Some {
            self.accepted(key)
        } else {
            self.last_accepted
        }
    }

    /// One turn of the loop: the session after it and the action it asks
    /// for, given the key that was polled, the time since the last tick, and
    /// the cell that a new food would take.
    ///
    /// A session that has ended stays as it is. The quit key ends it. Any
    /// other key goes through the debouncer, and what is accepted waits as
    /// the pending heading. If no tick is due, that is all. If one is due,
    /// the game advances with the pending heading: a crash ends the session;
    /// otherwise the scheduler takes note of the tick at the new score and
    /// the pending heading is cleared.
    pub open spec fn stepped(self, key: Option<Key>, elapsed: nat, fresh_food: Position) -> (
        SessionView,
        Action,
    ) {
        if let Some(reason) = self.ended {
            (self, Action::End(reason))
        } else if key matches Some(k) && k.quits() {
            (SessionView { ended: Some(EndReason::Quit), ..self }, Action::End(EndReason::Quit))
        } else {
            let pending = self.pending_after(key);
            let last_accepted = self.last_accepted_after(key);
            if !self.scheduler.due(elapsed) {
                (SessionView { last_accepted, pending, ..self }, Action::Idle)
            } else {
                let game = self.game.advanced(pending, fresh_food);
                if self.game.crashes(pending) {
                    (
                        SessionView {
                            game,
                            last_accepted,
                            pending,
                            ended: Some(EndReason::GameOver),
                            ..self
                        },
                        Action::End(EndReason::GameOver),
                    )
                } else {
                    (
                        SessionView {
                            game,
                            last_accepted,
                            pending: None,
                            scheduler: self.scheduler.ticked(game.score),
                            ..self
                        },
                        Action::Render,
                    )
                }
            }
        }
    }
}

/// Between ticks a key changes nothing but what is pending: the game and the
/// scheduler stay as they are, and the heading that waits is the one that
/// was accepted most recently.
pub proof fn keys_wait_for_the_tick(s: SessionView, key: Option<Key>, elapsed: nat, fresh_food: Position)
    requires
        s.ended is None,
        !(key matches Some(k) && k.quits()),
        !s.scheduler.due(elapsed),
    ensures
        s.stepped(key, elapsed, fresh_food).1 == Action::Idle,
        s.stepped(key, elapsed, fresh_food).0.game == s.game,
        s.stepped(key, elapsed, fresh_food).0.scheduler == s.scheduler,
        s.stepped(key, elapsed, fresh_food).0.ended is None,
        s.stepped(key, elapsed, fresh_food).0.pending == s.pending_after(key),
        s.accepted(key) is Some ==> s.stepped(key, elapsed, fresh_food).0.pending == s.accepted(key),
        s.accepted(key) is None ==> s.stepped(key, elapsed, fresh_food).0.pending == s.pending,
{
}

/// A tick that is played applies one heading, the pending one, and leaves
/// none pending; the scheduler hears of the tick at the score it led to.
pub proof fn a_tick_applies_the_pending_heading(
    s: SessionView,
    key: Option<Key>,
    elapsed: nat,
    fresh_food: Position,
)
    requires
        s.ended is None,
        !(key matches Some(k) && k.quits()),
        s.scheduler.due(elapsed),
        !s.game.crashes(s.pending_after(key)),
    ensures
        s.stepped(key, elapsed, fresh_food).1 == Action::Render,
        s.stepped(key, elapsed, fresh_food).0.game == s.game.advanced(
            s.pending_after(key),
            fresh_food,
        ),
        s.stepped(key, elapsed, fresh_food).0.pending is None,
        s.stepped(key, elapsed, fresh_food).0.scheduler == s.scheduler.ticked(
            s.stepped(key, elapsed, fresh_food).0.game.score,
        ),
        s.stepped(key, elapsed, fresh_food).0.ended is None,
{
}

/// A session ends on the quit key and on a crash, and on nothing else; once
/// it has ended, no turn changes it.
pub proof fn a_session_ends_on_quit_or_crash(
    s: SessionView,
    key: Option<Key>,
    elapsed: nat,
    fresh_food: Position,
)
    ensures
        s.ended is Some ==> s.stepped(key, elapsed, fresh_food).0 == s,
        s.ended is None ==> (s.stepped(key, elapsed, fresh_food).0.ended == Some(EndReason::Quit) <==> (
        key matches Some(k) && k.quits())),
        s.ended is None ==> (s.stepped(key, elapsed, fresh_food).0.ended == Some(EndReason::GameOver)
            <==> (!(key matches Some(k) && k.quits()) && s.scheduler.due(elapsed) && s.game.crashes(
            s.pending_after(key),
        ))),
        s.stepped(key, elapsed, fresh_food).1 is End <==> s.stepped(
            key,
            elapsed,
            fresh_food,
        ).0.ended is Some,
{
}

/// As long as a session has not ended, its snake lies inside the playfield,
/// and neither its score nor the length of its snake ever goes down, nor its
/// tick interval up.
pub proof fn a_running_session_stays_sound(
    s: SessionView,
    key: Option<Key>,
    elapsed: nat,
    fresh_food: Position,
)
    requires
        s.wf(),
        s.ended is None,
        s.game.board.contains(fresh_food),
    ensures
        s.stepped(key, elapsed, fresh_food).0.wf(),
        s.stepped(key, elapsed, fresh_food).0.ended is None ==> s.stepped(
            key,
            elapsed,
            fresh_food,
        ).0.game.in_bounds(),
        s.stepped(key, elapsed, fresh_food).0.game.score >= s.game.score,
        s.stepped(key, elapsed, fresh_food).0.game.snake.len() >= s.game.snake.len(),
        s.stepped(key, elapsed, fresh_food).0.scheduler.tick_interval <= s.scheduler.tick_interval,
{
    let pending = s.pending_after(key);
    if !(key matches Some(k) && k.quits()) && s.scheduler.due(elapsed) {
        crate::game::score_counts_meals(s.game, pending, fresh_food);
        crate::game::length_counts_meals(s.game, pending, fresh_food);
        if !s.game.crashes(pending) {
            crate::game::tick_keeps_game_running(s.game, pending, fresh_food);
            crate::scheduler::tick_only_shortens(
                s.scheduler,
                s.game.advanced(pending, fresh_food).score,
            );
        }
    }
}

/// One session: a game, the debouncer of its keys and the scheduler of its
/// ticks, owned together and changed from one place only.
#[derive(Debug)]
pub struct Session {
    game: GameState,
    debouncer: Debouncer,
    scheduler: Scheduler,
    pending: Option<Direction>,
    ended: Option<EndReason>,
}

impl View for Session {
    type V = SessionView;

    closed spec fn view(&self) -> SessionView {
        SessionView {
            game: self.game@,
            last_accepted: self.debouncer@,
            scheduler: self.scheduler@,
            pending: self.pending,
            ended: self.ended,
        }
    }
}

impl Session {
    /// Sets up a session from its configuration. `decrement_step` is by how
    /// many milliseconds a consumed tick shortens the tick interval when
    /// dynamic speed is on.
    pub fn new(config: &Config, decrement_step: u64) -> (s: Session)
        requires
            config@.wf(),
        ensures
            s@ == (SessionView {
                game: GameView::initial(config@.board),
                last_accepted: None,
                scheduler: SchedulerView {
                    tick_interval: config@.tick_interval_ms,
                    decrement_step: decrement_step as nat,
                    enabled: config@.dynamic_speed_enabled,
                },
                pending: None,
                ended: None,
            }),
            s@.wf(),
    {
        Session {
            game: GameState::new(config.board()),
            debouncer: Debouncer::new(),
            scheduler: Scheduler::new(
                config.tick_interval_ms(),
                decrement_step,
                config.dynamic_speed_enabled(),
            ),
            pending: None,
            ended: None,
        }
    }

    /// The game, to paint it or to read the score.
    pub fn game(&self) -> (g: &GameState)
        ensures
            g@ == self@.game,
    {
        &self.game
    }

    /// The scheduler, to read the current tick interval.
    pub fn scheduler(&self) -> (s: &Scheduler)
        ensures
            s@ == self@.scheduler,
    {
        &self.scheduler
    }

    /// The heading that waits for the next tick, if any.
    pub fn pending(&self) -> (p: Option<Direction>)
        ensures
            p == self@.pending,
    {
        self.pending
    }

    /// Why the session ended, once it has.
    pub fn ended(&self) -> (e: Option<EndReason>)
        ensures
            e == self@.ended,
    {
        self.ended
    }

    /// Looks at this turn's key. Returns `true` if it is the quit key;
    /// otherwise what the debouncer accepts becomes the pending heading.
    fn take_key(&mut self, key: Option<Key>) -> (quit: bool)
        requires
            old(self)@.ended is None,
        ensures
            quit == (key matches Some(k) && k.quits()),
            quit ==> final(self)@ == old(self)@,
            !quit ==> final(self)@ == (SessionView {
                last_accepted: old(self)@.last_accepted_after(key),
                pending: old(self)@.pending_after(key),
                ..old(self)@
            }),
    {
        match key {
            None => false,
            Some(k) => {
                if k.is_quit() {
                    true
                } else {
                    let accepted = self.debouncer.accept(k);
                    if accepted.is_some() {
                        self.pending = accepted;
                    }
                    false
                }
            },
        }
    }

    /// Looks at this turn's key and at the clock. Returns the action that
    /// is already decided, or `None` if a tick is due and has to be played.
    fn before_tick(&mut self, key: Option<Key>, elapsed: u64) -> (decided: Option<Action>)
        requires
            old(self)@.wf(),
        ensures
            final(self)@.wf(),
            final(self)@.game == old(self)@.game,
            match decided {
                Some(action) => forall|fresh_food: Position|
                    (final(self)@, action) == #[trigger] old(self)@.stepped(
                        key,
                        elapsed as nat,
                        fresh_food,
                    ),
                None => {
                    &&& old(self)@.ended is None
                    &&& !(key matches Some(k) && k.quits())
                    &&& old(self)@.scheduler.due(elapsed as nat)
                    &&& final(self)@ == (SessionView {
                        last_accepted: old(self)@.last_accepted_after(key),
                        pending: old(self)@.pending_after(key),
                        ..old(self)@
                    })
                },
            },
    {
        if let Some(reason) = self.ended {
            return Some(Action::End(reason));
        }
        if self.take_key(key) {
            self.ended = Some(EndReason::Quit);
            return Some(Action::End(EndReason::Quit));
        }
        if !self.scheduler.is_tick_due(elapsed) {
            return Some(Action::Idle);
        }
        None
    }

    /// Settles a tick that was just played: a crash ends the session; after
    /// any other tick the scheduler takes note of it at the new score and
    /// the pending heading is cleared.
    fn after_tick(&mut self, outcome: Result<(), GameOver>) -> (action: Action)
        requires
            old(self)@.ended is None,
            outcome is Ok ==> old(self)@.game.wf(),
        ensures
            final(self)@.wf(),
            outcome is Err ==> action == Action::End(EndReason::GameOver) && final(self)@ == (SessionView {
                ended: Some(EndReason::GameOver),
                ..old(self)@
            }),
            outcome is Ok ==> action == Action::Render && final(self)@ == (SessionView {
                pending: None,
                scheduler: old(self)@.scheduler.ticked(old(self)@.game.score),
                ..old(self)@
            }),
    {
        match outcome {
            Err(_) => {
                self.ended = Some(EndReason::GameOver);
                Action::End(EndReason::GameOver)
            },
            Ok(()) => {
                self.scheduler.on_tick_consumed(self.game.score());
                self.pending = None;
                Action::Render
            },
        }
    }

    /// Plays one turn of the loop with a food position chosen by the caller
    /// (see [`SessionView::stepped`]). `elapsed` is the time since the last
    /// tick, in milliseconds.
    pub fn step_with(&mut self, key: Option<Key>, elapsed: u64, fresh_food: Position) -> (action: Action)
        requires
            old(self)@.wf(),
            old(self)@.game.board.contains(fresh_food),
        ensures
            (final(self)@, action) == old(self)@.stepped(key, elapsed as nat, fresh_food),
            final(self)@.wf(),
    {
        if let Some(action) = self.before_tick(key, elapsed) {
            return action;
        }
        let outcome = self.game.advance_with(self.pending, fresh_food);
        self.after_tick(outcome)
    }

    /// Plays one turn of the loop. A food that is eaten is replaced by one at
    /// a cell of the interior drawn at random.
    ///
    /// The outcome is that of [`Session::step_with`] for the food position
    /// that the new state shows.
    pub fn step(&mut self, key: Option<Key>, elapsed: u64) -> (action: Action)
        requires
            old(self)@.wf(),
        ensures
            (final(self)@, action) == old(self)@.stepped(key, elapsed as nat, final(self)@.game.food),
            final(self)@.wf(),
    {
        if let Some(action) = self.before_tick(key, elapsed) {
            return action;
        }
        let outcome = self.game.advance(self.pending);
        self.after_tick(outcome)
    }
}

} // verus!
