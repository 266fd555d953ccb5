//! The snake state machine: the aggregate game state, the per-tick `step`
//! transition (`tick`/`animate`), turn handling (`keydown`), restart
//! (`start`), and the high-score update.

use vstd::prelude::*;

use crate::food::{generate_apple, place_spec, BoardFullError};
use crate::geometry::{coords, in_bounds, Coords, CELL_SIZE};

verus! {

/// Interval between engine ticks, in milliseconds.
pub const TICK_RATE_MS: u64 = 200;

/// Number of segments in a freshly spawned snake.
pub const SPAWN_LEN: usize = 4;

/// The four headings of the snake.
#[derive(PartialEq, Eq, Structural, Clone, Copy, Debug)]
pub enum Direction {
    Left,
    Right,
    Up,
    Down,
}

/// The snake's heading paired with its per-tick displacement. The
/// displacement is redundant with the heading and must always agree with it
/// (`velocity_wf`).
#[derive(PartialEq, Eq, Structural, Clone, Copy, Debug)]
pub struct Velocity {
    pub coords: Coords,
    pub direction: Direction,
}

/// The events the engine reacts to: a timer tick, a turn request in one of
/// the four directions, a restart request, or nothing.
#[derive(PartialEq, Eq, Structural, Clone, Copy, Debug)]
pub enum Msg {
    Tick,
    Ignore,
    Up,
    Left,
    Right,
    Down,
    Restart,
}

/// The whole game state: the snake body head-first, the current velocity,
/// the apple, the score, the persisted best score, whether a turn may still
/// be accepted this tick, whether the background grid is drawn, and whether
/// the session has ended.
#[derive(Debug)]
pub struct State {
    pub snake: Vec<Coords>,
    pub high_score: usize,
    pub velocity: Velocity,
    pub accepting_inputs: bool,
    pub draw_grid: bool,
    pub apple: Coords,
    pub score: usize,
    pub game_over: bool,
}

/// Canonical x displacement of a heading.
pub open spec fn delta_x(d: Direction) -> int {
    match d {
        Direction::Left => -(CELL_SIZE as int),
        Direction::Right => CELL_SIZE as int,
        Direction::Up => 0,
        Direction::Down => 0,
    }
}

/// Canonical y displacement of a heading.
pub open spec fn delta_y(d: Direction) -> int {
    match d {
        Direction::Left => 0,
        Direction::Right => 0,
        Direction::Up => -(CELL_SIZE as int),
        Direction::Down => CELL_SIZE as int,
    }
}

/// The velocity's displacement agrees with its heading.
pub open spec fn velocity_wf(v: Velocity) -> bool {
    v.coords.x == delta_x(v.direction) && v.coords.y == delta_y(v.direction)
}

/// The canonical velocity of a heading.
pub open spec fn velocity_for(d: Direction) -> Velocity {
    Velocity {
        coords: Coords { x: delta_x(d) as i32, y: delta_y(d) as i32 },
        direction: d,
    }
}

/// No two body segments coincide.
pub open spec fn distinct_seq(s: Seq<Coords>) -> bool {
    forall|i: int, j: int| 0 <= i < j < s.len() ==> s[i] != s[j]
}

/// The head coincides with a later segment of the same body.
pub open spec fn hits_self(body: Seq<Coords>) -> bool {
    exists|i: int| 1 <= i < body.len() && #[trigger] body[i] == body[0]
}

/// The game-over predicate on a body: the head lies outside the play bounds
/// or bites the body.
pub open spec fn over_spec(body: Seq<Coords>) -> bool {
    !in_bounds(body[0]) || hits_self(body)
}

/// Basic well-formedness of a state: canonical velocity, a nonempty body
/// whose head is inside the bounds while the game runs, and a body length
/// that accounts exactly for the spawn length plus the food eaten.
pub open spec fn wf(s: State) -> bool {
    &&& velocity_wf(s.velocity)
    &&& s.snake@.len() >= 1
    &&& (!s.game_over ==> in_bounds(s.snake@[0]))
    &&& s.snake@.len() == SPAWN_LEN + s.score
}

/// The state invariant the engine maintains: well-formedness, and, while the
/// game runs, a body free of coincident segments.
pub open spec fn inv(s: State) -> bool {
    wf(s) && (!s.game_over ==> distinct_seq(s.snake@))
}

/// The cell the head moves to on the next step.
pub open spec fn next_head(s: State) -> Coords {
    Coords {
        x: (s.snake@[0].x + s.velocity.coords.x) as i32,
        y: (s.snake@[0].y + s.velocity.coords.y) as i32,
    }
}

/// The step consumes the apple exactly when the head moves onto it.
pub open spec fn eats(s: State) -> bool {
    next_head(s) == s.apple
}

/// The body right after the head has moved, before the tail is settled.
pub open spec fn body_moved(s: State) -> Seq<Coords> {
    seq![next_head(s)] + s.snake@
}

/// The body after one step: grown by the new head when the apple was eaten,
/// otherwise shifted (new head in, tail out).
pub open spec fn body_after(s: State) -> Seq<Coords> {
    if eats(s) {
        body_moved(s)
    } else {
        body_moved(s).drop_last()
    }
}

/// The score after one step.
pub open spec fn score_after(s: State) -> int {
    if eats(s) {
        s.score + 1
    } else {
        s.score as int
    }
}

/// The apple after one step: replaced by the placed candidate when eaten,
/// kept otherwise (also kept when placement failed, since the session ends).
pub open spec fn apple_after(s: State, cands: Seq<Coords>) -> Coords {
    if eats(s) {
        match place_spec(body_after(s), cands) {
            Some(c) => c,
            None => s.apple,
        }
    } else {
        s.apple
    }
}

/// Whether one step ends the session: the moved body trips the game-over
/// predicate, or the apple was eaten and no acceptable cell was left for the
/// next one.
pub open spec fn game_over_after(s: State, cands: Seq<Coords>) -> bool {
    over_spec(body_after(s)) || (eats(s) && place_spec(body_after(s), cands) is None)
}

/// The best score after one step: raised to the session's score when the
/// session ends having beaten it.
pub open spec fn high_score_after(s: State, cands: Seq<Coords>) -> int {
    if game_over_after(s, cands) && score_after(s) > s.high_score {
        score_after(s)
    } else {
        s.high_score as int
    }
}

/// Full relation between the state before and after one tick, with the score
/// value to persist (the new best score, exactly when the session ended
/// having beaten the old one).
pub open spec fn tick_post(pre: State, post: State, cands: Seq<Coords>, persist: Option<
    usize,
>) -> bool {
    &&& post.snake@ == body_after(pre)
    &&& post.score == score_after(pre)
    &&& post.apple == apple_after(pre, cands)
    &&& post.game_over == game_over_after(pre, cands)
    &&& post.velocity == pre.velocity
    &&& post.draw_grid == pre.draw_grid
    &&& post.high_score == high_score_after(pre, cands)
    &&& post.accepting_inputs == if game_over_after(pre, cands) {
        pre.accepting_inputs
    } else {
        true
    }
    &&& persist == if game_over_after(pre, cands) && score_after(pre) > pre.high_score {
        Some(post.score)
    } else {
        None::<usize>
    }
}

/// The heading a turn request maps to, when it is perpendicular to the
/// current heading; `None` for reversals, redundant directions and
/// non-direction messages.
pub open spec fn accepted_dir(m: Msg, current: Direction) -> Option<Direction> {
    match (m, current) {
        (Msg::Left, Direction::Up) => Some(Direction::Left),
        (Msg::Left, Direction::Down) => Some(Direction::Left),
        (Msg::Right, Direction::Up) => Some(Direction::Right),
        (Msg::Right, Direction::Down) => Some(Direction::Right),
        (Msg::Up, Direction::Left) => Some(Direction::Up),
        (Msg::Up, Direction::Right) => Some(Direction::Up),
        (Msg::Down, Direction::Left) => Some(Direction::Down),
        (Msg::Down, Direction::Right) => Some(Direction::Down),
        _ => None,
    }
}

/// The turn request naming a heading.
pub open spec fn msg_of_dir(d: Direction) -> Msg {
    match d {
        Direction::Left => Msg::Left,
        Direction::Right => Msg::Right,
        Direction::Up => Msg::Up,
        Direction::Down => Msg::Down,
    }
}

/// The heading directly opposite a heading.
pub open spec fn opposite(d: Direction) -> Direction {
    match d {
        Direction::Left => Direction::Right,
        Direction::Right => Direction::Left,
        Direction::Up => Direction::Down,
        Direction::Down => Direction::Up,
    }
}

/// The state after a turn request: unchanged unless a turn may still be
/// accepted this tick and the request is perpendicular to the current
/// heading; then the velocity follows the request and the turn window
/// closes.
pub open spec fn turn_spec(s: State, m: Msg) -> State {
    if !s.accepting_inputs {
        s
    } else {
        match accepted_dir(m, s.velocity.direction) {
            Some(d) => State { velocity: velocity_for(d), accepting_inputs: false, ..s },
            None => s,
        }
    }
}

/// Full relation between the state before and after a restart: a fresh
/// spawn with the best score and the grid toggle kept, and the apple placed
/// from the candidates; when no candidate is acceptable the session ends at
/// once as board-full, the apple left as it was.
pub open spec fn start_post(pre: State, post: State, cands: Seq<Coords>) -> bool {
    &&& post.snake@ == spawn_body()
    &&& post.velocity == spawn_velocity()
    &&& post.score == 0
    &&& post.high_score == pre.high_score
    &&& post.draw_grid == pre.draw_grid
    &&& post.accepting_inputs
    &&& match place_spec(spawn_body(), cands) {
        Some(c) => post.apple == c && !post.game_over,
        None => post.apple == pre.apple && post.game_over,
    }
}

/// The body of a freshly spawned snake, head-first, heading left.
pub open spec fn spawn_body() -> Seq<Coords> {
    seq![
        Coords { x: 200, y: 200 },
        Coords { x: 180, y: 200 },
        Coords { x: 160, y: 200 },
        Coords { x: 140, y: 200 },
    ]
}

/// The velocity of a freshly spawned snake: one cell leftward per tick.
pub open spec fn spawn_velocity() -> Velocity {
    velocity_for(Direction::Left)
}

/// The canonical velocity of a heading, as an executable value.
pub fn velocity_of(d: Direction) -> (v: Velocity)
    ensures
        v == velocity_for(d),
        velocity_wf(v),
        v.direction == d,
{
    let c = match d {
        Direction::Left => coords(-CELL_SIZE, 0),
        Direction::Right => coords(CELL_SIZE, 0),
        Direction::Up => coords(0, -CELL_SIZE),
        Direction::Down => coords(0, CELL_SIZE),
    };
    Velocity { coords: c, direction: d }
}

/// Builds the spawn body as a vector.
fn spawn_snake() -> (v: Vec<Coords>)
    ensures
        v@ == spawn_body(),
{
    let mut v: Vec<Coords> = Vec::new();
    v.push(coords(200, 200));
    v.push(coords(180, 200));
    v.push(coords(160, 200));
    v.push(coords(140, 200));
    proof {
        assert(v@ =~= spawn_body());
    }
    v
}

impl State {
    /// A fresh pre-start state, as created when the game comes up: spawn
    /// snake and velocity, zero score, the given best score, and the apple
    /// not yet placed (it sits at the origin, outside the play bounds, until
    /// `start` places it).
    pub fn new(high_score: usize) -> (s: State)
        ensures
            s.snake@ == spawn_body(),
            s.velocity == spawn_velocity(),
            s.high_score == high_score,
            s.score == 0,
            s.accepting_inputs,
            !s.draw_grid,
            !s.game_over,
            s.apple == (Coords { x: 0, y: 0 }),
            inv(s),
    {
        let s = State {
            snake: spawn_snake(),
            high_score,
            velocity: velocity_of(Direction::Left),
            accepting_inputs: true,
            draw_grid: false,
            apple: coords(0, 0),
            score: 0,
            game_over: false,
        };
        proof {
            assert(distinct_seq(s.snake@));
        }
        s
    }

    /// True when the head occupies the same cell as another body segment.
    pub fn bite(&self) -> (r: bool)
        requires
            self.snake@.len() >= 1,
        ensures
            r == hits_self(self.snake@),
    {
        let head = self.snake[0];
        let mut i: usize = 1;
        while i < self.snake.len()
            invariant
                1 <= i <= self.snake@.len(),
                head == self.snake@[0],
                forall|j: int| 1 <= j < i ==> #[trigger] self.snake@[j] != self.snake@[0],
            decreases self.snake@.len() - i,
        {
            if self.snake[i] == head {
                proof {
                    assert(self.snake@[i as int] == self.snake@[0]);
                }
                return true;
            }
            i += 1;
        }
        false
    }

    /// Evaluates the game-over predicate on the current body: the head is
    /// outside the play bounds, or bites the body.
    pub fn detect_game_over(&self) -> (r: bool)
        requires
            self.snake@.len() >= 1,
        ensures
            r == over_spec(self.snake@),
    {
        let head = self.snake[0];
        !head.within_bounds() || self.bite()
    }

    /// Moves the snake one cell along its velocity: the new head is
    /// prepended; when it lands on the apple the tail is kept (the snake
    /// grows), the score rises, and the next apple is placed from
    /// `candidates`; otherwise the tail is dropped. Fails exactly when the
    /// apple was consumed and no candidate cell was acceptable.
    pub fn animate(&mut self, candidates: &Vec<Coords>) -> (r: Result<(), BoardFullError>)
        requires
            wf(*old(self)),
            !old(self).game_over,
        ensures
            final(self).snake@ == body_after(*old(self)),
            final(self).score == score_after(*old(self)),
            final(self).apple == apple_after(*old(self), candidates@),
            final(self).velocity == old(self).velocity,
            final(self).high_score == old(self).high_score,
            final(self).accepting_inputs == old(self).accepting_inputs,
            final(self).draw_grid == old(self).draw_grid,
            final(self).game_over == old(self).game_over,
            r is Ok <==> !(eats(*old(self)) && place_spec(
                body_after(*old(self)),
                candidates@,
            ) is None),
    {
        let head = self.snake[0];
        let new_head = head.add(&self.velocity.coords);
        proof {
            assert(new_head == next_head(*old(self)));
        }
        self.snake.insert(0, new_head);
        proof {
            assert(self.snake@ =~= body_moved(*old(self)));
        }
        if new_head == self.apple {
            // The score counts the food eaten, which is exactly the body's
            // growth over the spawn length; the body has just grown by one.
            let n = self.snake.len();
            self.score = n - SPAWN_LEN;
            match generate_apple(&self.snake, candidates) {
                Ok(c) => {
                    self.apple = c;
                    Ok(())
                },
                Err(e) => Err(e),
            }
        } else {
            self.snake.pop();
            proof {
                assert(self.snake@ =~= body_moved(*old(self)).drop_last());
            }
            Ok(())
        }
    }

    /// Raises the best score to the session's score when the session beat
    /// it, returning the value the caller must persist (and `None` when the
    /// best score stands).
    pub fn set_highscore(&mut self) -> (persist: Option<usize>)
        ensures
            final(self).high_score == if old(self).score > old(self).high_score {
                old(self).score as int
            } else {
                old(self).high_score as int
            },
            persist == if old(self).score > old(self).high_score {
                Some(old(self).score)
            } else {
                None::<usize>
            },
            final(self).snake == old(self).snake,
            final(self).velocity == old(self).velocity,
            final(self).accepting_inputs == old(self).accepting_inputs,
            final(self).draw_grid == old(self).draw_grid,
            final(self).apple == old(self).apple,
            final(self).score == old(self).score,
            final(self).game_over == old(self).game_over,
    {
        if self.high_score < self.score {
            self.high_score = self.score;
            Some(self.high_score)
        } else {
            None
        }
    }

    /// Applies a turn request: ignored when the turn window is closed this
    /// tick, or when the request is the current heading, its reverse, or no
    /// direction at all; otherwise the velocity follows the request and the
    /// turn window closes.
    pub fn keydown(&mut self, msg: Msg)
        ensures
            *final(self) == turn_spec(*old(self), msg),
    {
        if !self.accepting_inputs {
            return;
        }
        let dir_opt = match (msg, self.velocity.direction) {
            (Msg::Left, Direction::Up) => Some(Direction::Left),
            (Msg::Left, Direction::Down) => Some(Direction::Left),
            (Msg::Right, Direction::Up) => Some(Direction::Right),
            (Msg::Right, Direction::Down) => Some(Direction::Right),
            (Msg::Up, Direction::Left) => Some(Direction::Up),
            (Msg::Up, Direction::Right) => Some(Direction::Up),
            (Msg::Down, Direction::Left) => Some(Direction::Down),
            (Msg::Down, Direction::Right) => Some(Direction::Down),
            _ => None,
        };
        match dir_opt {
            Some(d) => {
                self.velocity = velocity_of(d);
                self.accepting_inputs = false;
            },
            None => {},
        }
    }

    /// Resets the session to a fresh spawn: spawn body and velocity, zero
    /// score, the turn window open, and an apple placed from `candidates`;
    /// the best score and the grid toggle survive. When no candidate is
    /// acceptable the session ends immediately as board-full.
    pub fn start(&mut self, candidates: &Vec<Coords>)
        ensures
            start_post(*old(self), *final(self), candidates@),
            inv(*final(self)),
    {
        self.snake = spawn_snake();
        self.velocity = velocity_of(Direction::Left);
        self.score = 0;
        self.accepting_inputs = true;
        match generate_apple(&self.snake, candidates) {
            Ok(c) => {
                self.apple = c;
                self.game_over = false;
            },
            Err(_) => {
                self.game_over = true;
            },
        }
        proof {
            assert(distinct_seq(spawn_body()));
        }
    }

    /// One step of the state machine: move the snake, settle growth and
    /// score, place the next apple when one was eaten, evaluate the
    /// game-over predicate on the updated state, and either re-open the turn
    /// window or end the session and settle the best score. Returns the
    /// score the caller must persist, exactly when this step ended the
    /// session with a new best score.
    pub fn tick(&mut self, candidates: &Vec<Coords>) -> (persist: Option<usize>)
        requires
            inv(*old(self)),
            !old(self).game_over,
        ensures
            tick_post(*old(self), *final(self), candidates@, persist),
            inv(*final(self)),
    {
        let placed = self.animate(candidates);
        let over = self.detect_game_over() || placed.is_err();
        proof {
            assert(over == game_over_after(*old(self), candidates@));
        }
        if !over {
            self.accepting_inputs = true;
            proof {
                crate::laws::lemma_step_preserves_distinct(*old(self), candidates@);
            }
            None
        } else {
            self.game_over = true;
            self.set_highscore()
        }
    }

    /// One dispatch of the game loop: a tick advances the game unless the
    /// session has ended; a direction message requests a turn; a restart is
    /// honored only once the session has ended; anything else changes
    /// nothing. Returns the score to persist when this event ended the
    /// session with a new best score.
    pub fn update(&mut self, msg: Msg, candidates: &Vec<Coords>) -> (persist: Option<usize>)
        requires
            inv(*old(self)),
        ensures
            inv(*final(self)),
            msg == Msg::Tick && !old(self).game_over ==> tick_post(
                *old(self),
                *final(self),
                candidates@,
                persist,
            ),
            msg == Msg::Tick && old(self).game_over ==> *final(self) == *old(self),
            (msg == Msg::Up || msg == Msg::Down || msg == Msg::Left || msg == Msg::Right) ==> (
            *final(self) == turn_spec(*old(self), msg)),
            msg == Msg::Restart && old(self).game_over ==> start_post(
                *old(self),
                *final(self),
                candidates@,
            ),
            msg == Msg::Restart && !old(self).game_over ==> *final(self) == *old(self),
            msg == Msg::Ignore ==> *final(self) == *old(self),
            msg != Msg::Tick ==> persist is None,
    {
        match msg {
            Msg::Tick => {
                if !self.game_over {
                    self.tick(candidates)
                } else {
                    None
                }
            },
            Msg::Up | Msg::Down | Msg::Left | Msg::Right => {
                self.keydown(msg);
                None
            },
            Msg::Restart => {
                if self.game_over {
                    self.start(candidates);
                }
                None
            },
            Msg::Ignore => None,
        }
    }
}

} // verus!
