//! One game from its first cell to its end: the state that the loop owns, and the rules
//! by which a tick and an input change it.

use crate::body::{seed_cells, Body, MIN_LENGTH};
use crate::clock::{due, TICK_INTERVAL_MS};
use crate::coords::{all_in_grid, Coords, Direction};
use crate::food::spawn;
use crate::occupancy::{
    covers_grid, lemma_cover_needs_every_cell, lemma_distinct_cells_fit_grid, GRID_CELLS,
};
use rand::StdRng;
use vstd::prelude::*;

verus! {

/// How far a game has come.
#[derive(Copy, Clone, Debug, PartialEq, Eq, Structural)]
pub enum State {
    /// The snake moves on with every tick.
    Running,
    /// The snake reached the food that lay on the last free cell.
    Won,
    /// The snake ran into itself.
    Lost,
}

impl State {
    /// What to tell the player once the game is over; nothing while it runs.
    pub fn message(self) -> (text: Option<&'static str>)
        ensures
            self == State::Running <==> text is None,
            self == State::Won ==> text == Some("You Win!"),
            self == State::Lost ==> text == Some("You Lose!"),
    {
        match self {
            State::Running => None,
            State::Won => Some("You Win!"),
            State::Lost => Some("You Lose!"),
        }
    }
}

/// What the input source answers when it is polled.
#[derive(Copy, Clone, Debug, PartialEq, Eq, Structural)]
pub enum Input {
    /// Nothing is pending.
    NoEvent,
    /// The player wants to leave.
    Quit,
    /// The player points the snake in a direction.
    Steer(Direction),
    /// Anything else; it has no effect.
    Other,
}

/// Why a game cannot start from a given placement.
#[derive(Copy, Clone, Debug, PartialEq, Eq, Structural)]
pub enum SetupError {
    /// Some cell occurs twice in the body.
    BodyOverlaps,
    /// The food lies outside the grid.
    FoodOutOfGrid,
    /// The food lies on a cell of the body.
    FoodOnBody,
}

/// Direction in which a fresh game starts.
pub const INITIAL_DIRECTION: Direction = Direction::Right;

/// A game in progress or at its end.
pub struct Session {
    body: Body,
    food: Coords,
    direction: Direction,
    state: State,
    last_tick: u64,
}

/// What a `Session` holds, as plain values. `body` runs from head to tail.
#[verifier::ext_equal]
pub struct SessionView {
    pub body: Seq<Coords>,
    pub food: Coords,
    pub direction: Direction,
    pub state: State,
    pub last_tick: u64,
}

impl SessionView {
    /// What holds of every game: the body has at least `MIN_LENGTH` cells, all in the grid
    /// and no two alike, and the food lies on a cell of the grid that the body leaves free.
    pub open spec fn wf(self) -> bool {
        &&& self.body.len() >= MIN_LENGTH
        &&& all_in_grid(self.body)
        &&& self.body.no_duplicates()
        &&& self.food.in_grid()
        &&& !self.body.contains(self.food)
    }

    /// The cell that the head enters with the next tick.
    pub open spec fn next_head(self) -> Coords {
        self.body[0].stepped(self.direction)
    }

    /// Whether the next tick wins the game: the head enters the cell of the food, which
    /// is the last one that the body leaves free.
    pub open spec fn wins_next(self) -> bool {
        &&& self.state == State::Running
        &&& self.next_head() == self.food
        &&& self.body.len() == GRID_CELLS - 1
    }

    /// Whether the snake eats and grows with the next tick: the head enters the cell of
    /// the food, and more than that cell is free.
    pub open spec fn eats_next(self) -> bool {
        &&& self.state == State::Running
        &&& self.next_head() == self.food
        &&& self.body.len() != GRID_CELLS - 1
    }

    /// Whether the next tick loses the game: the head enters a cell of the body.
    pub open spec fn loses_next(self) -> bool {
        &&& self.state == State::Running
        &&& self.next_head() != self.food
        &&& self.body.contains(self.next_head())
    }

    /// The game after a tick at time `now`, where `fresh_food` is the cell on which new
    /// food appears in case the snake eats.
    pub open spec fn after_tick(self, now: u64, fresh_food: Coords) -> SessionView {
        if self.state != State::Running {
            self
        } else if self.next_head() == self.food {
            if self.body.len() == GRID_CELLS - 1 {
                SessionView { state: State::Won, last_tick: now, ..self }
            } else {
                SessionView {
                    body: seq![self.next_head()] + self.body,
                    food: fresh_food,
                    last_tick: now,
                    ..self
                }
            }
        } else if self.body.contains(self.next_head()) {
            SessionView { state: State::Lost, last_tick: now, ..self }
        } else {
            SessionView {
                body: seq![self.next_head()] + self.body.drop_last(),
                last_tick: now,
                ..self
            }
        }
    }

    /// The game after `input` has been dealt with.
    pub open spec fn after_input(self, input: Input) -> SessionView {
        match input {
            Input::Steer(d) => SessionView { direction: d, ..self },
            _ => self,
        }
    }
}

/// While food lies on the grid, the snake covers at most all cells but one.
pub proof fn lemma_snake_leaves_a_cell(s: SessionView)
    requires
        s.wf(),
    ensures
        s.body.len() <= GRID_CELLS - 1,
{
    lemma_distinct_cells_fit_grid(seq![s.food] + s.body);
}

impl View for Session {
    type V = SessionView;

    closed spec fn view(&self) -> SessionView {
        SessionView {
            body: self.body@,
            food: self.food,
            direction: self.direction,
            state: self.state,
            last_tick: self.last_tick,
        }
    }
}

impl Session {
    /// See `SessionView::wf`.
    pub open spec fn wf(&self) -> bool {
        self@.wf()
    }

    /// A running game with the given placement, whose clock starts at `now`.
    pub fn new(
        body: Body,
        food: Coords,
        direction: Direction,
        now: u64,
    ) -> (r: Result<Session, SetupError>)
        requires
            body.wf(),
        ensures
            match r {
                Ok(s) => s.wf() && s@ == (SessionView {
                    body: body@,
                    food,
                    direction,
                    state: State::Running,
                    last_tick: now,
                }),
                Err(SetupError::BodyOverlaps) => !body@.no_duplicates(),
                Err(SetupError::FoodOutOfGrid) => body@.no_duplicates() && !food.in_grid(),
                Err(SetupError::FoodOnBody) => body@.no_duplicates() && food.in_grid()
                    && body@.contains(food),
            },
    {
        if body.overlaps() {
            Err(SetupError::BodyOverlaps)
        } else if !food.is_in_grid() {
            Err(SetupError::FoodOutOfGrid)
        } else if body.contains(food) {
            Err(SetupError::FoodOnBody)
        } else {
            Ok(Session { body, food, direction, state: State::Running, last_tick: now })
        }
    }

    /// A fresh game: a body of `MIN_LENGTH` cells in a straight line that ends at a cell
    /// drawn at random and points in `INITIAL_DIRECTION`, and food on a cell drawn at
    /// random among the others. The clock starts at `now`.
    pub fn start(rng: &mut StdRng, now: u64) -> (s: Session)
        ensures
            s.wf(),
            s@.state == State::Running,
            s@.direction == INITIAL_DIRECTION,
            s@.last_tick == now,
            s@.body == seed_cells(s@.body[2], INITIAL_DIRECTION),
    {
        let tail = Coords::rand(rng);
        let body = Body::seed(tail, INITIAL_DIRECTION);
        let fresh = spawn(&body, rng);
        proof {
            if covers_grid(body@) {
                lemma_cover_needs_every_cell(body@);
            }
        }
        Session {
            body,
            food: fresh.unwrap(),
            direction: INITIAL_DIRECTION,
            state: State::Running,
            last_tick: now,
        }
    }

    /// The snake.
    pub fn body(&self) -> (b: &Body)
        ensures
            b@ == self@.body,
            self.wf() ==> b.wf(),
    {
        &self.body
    }

    /// The cell on which the food lies.
    pub fn food(&self) -> (c: Coords)
        ensures
            c == self@.food,
    {
        self.food
    }

    /// The direction in which the head moves with the next tick.
    pub fn direction(&self) -> (d: Direction)
        ensures
            d == self@.direction,
    {
        self.direction
    }

    /// How far the game has come.
    pub fn state(&self) -> (st: State)
        ensures
            st == self@.state,
    {
        self.state
    }

    /// The time of the last tick, or of the start if there has been none.
    pub fn last_tick(&self) -> (t: u64)
        ensures
            t == self@.last_tick,
    {
        self.last_tick
    }

    /// Whether at time `now`, in milliseconds, the next tick is due.
    pub fn tick_due(&self, now: u64) -> (is_due: bool)
        ensures
            is_due == (now >= self@.last_tick + TICK_INTERVAL_MS),
    {
        due(now, self.last_tick, TICK_INTERVAL_MS)
    }

    /// Deals with one answer of the input source: a steering command sets the direction,
    /// whatever it was before, and nothing else changes anything. The result says whether
    /// the loop should go on, which is unless the player wants to leave.
    pub fn handle_input(&mut self, input: Input) -> (go_on: bool)
        ensures
            final(self)@ == old(self)@.after_input(input),
            go_on == (input != Input::Quit),
            old(self).wf() ==> final(self).wf(),
    {
        match input {
            Input::Steer(d) => {
                self.direction = d;
                true
            },
            Input::Quit => false,
            _ => true,
        }
    }

    /// One tick at time `now`. A game that is over stays as it is. In a running game the
    /// head moves one step in the current direction: onto the food, and the snake grows
    /// by that cell and new food appears, unless the food lay on the last free cell, which
    /// wins the game; onto a cell of the body, and the game is lost; onto any other cell,
    /// and the tail follows.
    pub fn tick(&mut self, now: u64, rng: &mut StdRng) -> (state: State)
        requires
            old(self).wf(),
        ensures
            final(self).wf(),
            state == final(self)@.state,
            final(self)@ == old(self)@.after_tick(now, final(self)@.food),
            old(self)@.wins_next() ==> state == State::Won,
            old(self)@.loses_next() ==> state == State::Lost,
            old(self)@.eats_next() ==> state == State::Running
                && final(self)@.body.len() == old(self)@.body.len() + 1,
            state != State::Running ==> final(self)@.body == old(self)@.body,
    {
        match self.state {
            State::Running => {},
            _ => {
                return self.state;
            },
        }
        self.last_tick = now;
        let next_head = self.body.head().add(self.direction);
        if next_head == self.food {
            if self.body.length() == GRID_CELLS - 1 {
                self.state = State::Won;
            } else {
                proof {
                    lemma_snake_leaves_a_cell(self@);
                }
                self.body.advance(self.direction, true);
                let fresh = spawn(&self.body, rng);
                proof {
                    if covers_grid(self.body@) {
                        lemma_cover_needs_every_cell(self.body@);
                    }
                }
                self.food = fresh.unwrap();
            }
        } else if self.body.contains(next_head) {
            self.state = State::Lost;
        } else {
            self.body.advance(self.direction, false);
        }
        self.state
    }
}

} // verus!
