//! The per-tick state machine: obstacle scrolling and spawning, scoring,
//! the one-way speed boost, collision, game over and restart.

use vstd::prelude::*;

use crate::dino::Dino;
use crate::spawn::new_thread_rng;
use crate::spawn::sample_spawn_gap;
use crate::DEFAULT_GAME_TICK_MS;
use crate::DINO_X_POS;
use crate::FASTER_GAME_TICK_MS;
use crate::GROUND_Y;
use crate::OBSTACLE_MAX_SPAWN_GAP_FRAMES;
use crate::OBSTACLE_MIN_SPAWN_GAP_FRAMES;
use crate::SCREEN_WIDTH;
use crate::SPEED_INCREASE_THRESHOLD;

verus! {

/// One obstacle, a single glyph sitting on the ground row.
pub struct Obstacle {
    /// Column index; decremented once per tick until the obstacle leaves
    /// the field on the left.
    pub x_pos: u16,
}

impl Obstacle {
    pub fn new(x: u16) -> (o: Obstacle)
        ensures
            o.x_pos == x,
    {
        Obstacle { x_pos: x }
    }
}

/// The columns of a row of obstacles, oldest first.
pub open spec fn vcols(obstacles: Seq<Obstacle>) -> Seq<u16> {
    obstacles.map_values(|o: Obstacle| o.x_pos)
}

/// Columns strictly increase from oldest to newest obstacle.
pub open spec fn cols_sorted(cols: Seq<u16>) -> bool {
    forall|i: int, j: int| 0 <= i < j < cols.len() ==> cols[i] < cols[j]
}

/// Every column lies strictly left of `bound`.
pub open spec fn cols_bounded(cols: Seq<u16>, bound: u16) -> bool {
    forall|i: int| 0 <= i < cols.len() ==> cols[i] < bound
}

/// One scroll step: every obstacle moves one column left, and an obstacle
/// already at column zero leaves the field instead.
pub open spec fn scrolled(cols: Seq<u16>) -> Seq<u16>
    decreases cols.len(),
{
    if cols.len() == 0 {
        Seq::empty()
    } else {
        let rest = scrolled(cols.drop_last());
        if cols.last() > 0 {
            rest.push((cols.last() - 1) as u16)
        } else {
            rest
        }
    }
}

/// The collision test: some obstacle stands in the character's column while
/// the character's rounded row is exactly the ground row.
pub open spec fn hits(cols: Seq<u16>, d: Dino) -> bool {
    (exists|i: int| 0 <= i < cols.len() && cols[i] == DINO_X_POS)
        && d.spec_screen_y() == GROUND_Y
}

/// A player command the game state reacts to; quitting ends the loop
/// outside the game state and needs no command here.
pub enum Command {
    /// Start a jump; ignored once the game is over.
    Jump,
    /// Begin a fresh run; ignored while a run is still on.
    Restart,
}

/// The whole game between two frames.
pub struct GameState {
    pub dino: Dino,
    /// Obstacles in spawn order, oldest first.
    pub obstacles: Vec<Obstacle>,
    /// Number of simulated ticks since the run began.
    pub score: u32,
    /// Terminal flag: once set, only a restart changes the state.
    pub game_over: bool,
    /// Countdown of ticks until the next obstacle spawns.
    pub frames_until_next_obstacle: u16,
    /// The generator the spawn gaps are sampled from.
    pub rng: rand::rngs::ThreadRng,
    /// Current pacing of the main loop, in milliseconds per tick.
    pub current_game_tick_ms: u64,
    /// One-way guard: set the moment the score reaches the threshold.
    pub speed_boost_applied: bool,
}

impl GameState {
    /// The obstacle columns, oldest first.
    pub open spec fn cols(self) -> Seq<u16> {
        vcols(self.obstacles@)
    }

    /// The game invariant: a well-formed character, obstacle columns
    /// strictly increasing and on the field, and the tick interval tied to
    /// the one-way speed boost, which fires exactly at the score threshold.
    pub open spec fn wf(self) -> bool {
        &&& self.dino.wf()
        &&& cols_sorted(self.cols())
        &&& cols_bounded(self.cols(), SCREEN_WIDTH)
        &&& (self.speed_boost_applied <==> self.score >= SPEED_INCREASE_THRESHOLD)
        &&& self.current_game_tick_ms == (if self.speed_boost_applied {
            FASTER_GAME_TICK_MS
        } else {
            DEFAULT_GAME_TICK_MS
        })
    }

    /// A fresh run whose first spawn countdown is given by the caller;
    /// everything else is at its initial value.
    pub fn new_with_gap(gap: u16) -> (gs: GameState)
        ensures
            gs.wf(),
            gs.dino == Dino::initial(),
            gs.cols().len() == 0,
            gs.score == 0,
            !gs.game_over,
            gs.frames_until_next_obstacle == gap,
            gs.current_game_tick_ms == DEFAULT_GAME_TICK_MS,
            !gs.speed_boost_applied,
    {
        GameState {
            dino: Dino::new(),
            obstacles: Vec::new(),
            score: 0,
            game_over: false,
            frames_until_next_obstacle: gap,
            rng: new_thread_rng(),
            current_game_tick_ms: DEFAULT_GAME_TICK_MS,
            speed_boost_applied: false,
        }
    }

    /// A fresh run with a sampled first spawn countdown.
    pub fn new() -> (gs: GameState)
        ensures
            gs.wf(),
            gs.dino == Dino::initial(),
            gs.cols().len() == 0,
            gs.score == 0,
            !gs.game_over,
            OBSTACLE_MIN_SPAWN_GAP_FRAMES <= gs.frames_until_next_obstacle
                <= OBSTACLE_MAX_SPAWN_GAP_FRAMES,
            gs.current_game_tick_ms == DEFAULT_GAME_TICK_MS,
            !gs.speed_boost_applied,
    {
        let mut rng = new_thread_rng();
        let gap = sample_spawn_gap(&mut rng);
        GameState {
            dino: Dino::new(),
            obstacles: Vec::new(),
            score: 0,
            game_over: false,
            frames_until_next_obstacle: gap,
            rng,
            current_game_tick_ms: DEFAULT_GAME_TICK_MS,
            speed_boost_applied: false,
        }
    }

    /// Throw the whole state away and begin a fresh run: score back to
    /// zero, no obstacles, game over cleared, default pacing, boost guard
    /// cleared.
    pub fn restart(&mut self)
        ensures
            final(self).wf(),
            final(self).dino == Dino::initial(),
            final(self).cols().len() == 0,
            final(self).score == 0,
            !final(self).game_over,
            OBSTACLE_MIN_SPAWN_GAP_FRAMES <= final(self).frames_until_next_obstacle
                <= OBSTACLE_MAX_SPAWN_GAP_FRAMES,
            final(self).current_game_tick_ms == DEFAULT_GAME_TICK_MS,
            !final(self).speed_boost_applied,
    {
        *self = GameState::new();
    }

    /// Move every obstacle one column left and drop the ones leaving the
    /// field; nothing else changes.
    fn scroll_obstacles(&mut self)
        requires
            cols_sorted(old(self).cols()),
            cols_bounded(old(self).cols(), SCREEN_WIDTH),
        ensures
            final(self).cols() == scrolled(old(self).cols()),
            cols_sorted(final(self).cols()),
            cols_bounded(final(self).cols(), (SCREEN_WIDTH - 1) as u16),
            final(self).dino == old(self).dino,
            final(self).score == old(self).score,
            final(self).game_over == old(self).game_over,
            final(self).frames_until_next_obstacle == old(self).frames_until_next_obstacle,
            final(self).rng == old(self).rng,
            final(self).current_game_tick_ms == old(self).current_game_tick_ms,
            final(self).speed_boost_applied == old(self).speed_boost_applied,
    {
        let ghost c = self.cols();
        let n = self.obstacles.len();
        let mut moved: Vec<Obstacle> = Vec::new();
        let mut i: usize = 0;
        while i < n
            invariant
                i <= n,
                n == self.obstacles.len(),
                c == self.cols(),
                cols_sorted(c),
                cols_bounded(c, SCREEN_WIDTH),
                vcols(moved@) == scrolled(c.take(i as int)),
                cols_sorted(vcols(moved@)),
                cols_bounded(vcols(moved@), (SCREEN_WIDTH - 1) as u16),
                moved@.len() > 0 ==> i > 0 && vcols(moved@).last() + 1 <= c[i - 1],
            decreases n - i,
        {
            let x = self.obstacles[i].x_pos;
            proof {
                assert(c.take(i + 1).drop_last() =~= c.take(i as int));
                assert(c.take(i + 1).last() == c[i as int]);
            }
            if x > 0 {
                let ghost before = moved@;
                moved.push(Obstacle { x_pos: x - 1 });
                proof {
                    assert(vcols(moved@) =~= vcols(before).push((x - 1) as u16));
                }
            }
            proof {
                assert(vcols(moved@) =~= scrolled(c.take(i + 1)));
            }
            i = i + 1;
        }
        proof {
            assert(c.take(n as int) =~= c);
        }
        self.obstacles = moved;
    }

    /// One simulated tick with the next spawn countdown handed in, so the
    /// whole transition is exact: physics step, score up one, speed boost
    /// at the threshold, scroll, spawn when the countdown ran out, and the
    /// collision test on the result. Once the game is over nothing changes.
    pub fn update_tick_with_gap(&mut self, gap: u16)
        requires
            old(self).wf(),
            old(self).game_over || old(self).score < u32::MAX,
        ensures
            final(self).wf(),
            old(self).game_over ==> *final(self) == *old(self),
            !old(self).game_over ==> final(self).dino == old(self).dino.stepped(),
            !old(self).game_over ==> final(self).score == old(self).score + 1,
            !old(self).game_over ==> final(self).speed_boost_applied == (
                old(self).speed_boost_applied || old(self).score + 1 >= SPEED_INCREASE_THRESHOLD),
            !old(self).game_over ==> final(self).current_game_tick_ms == (
                if final(self).speed_boost_applied {
                    FASTER_GAME_TICK_MS
                } else {
                    DEFAULT_GAME_TICK_MS
                }),
            !old(self).game_over && old(self).frames_until_next_obstacle == 0
                ==> final(self).cols() == scrolled(old(self).cols()).push((SCREEN_WIDTH - 1) as u16)
                    && final(self).frames_until_next_obstacle == gap,
            !old(self).game_over && old(self).frames_until_next_obstacle != 0
                ==> final(self).cols() == scrolled(old(self).cols())
                    && final(self).frames_until_next_obstacle
                        == old(self).frames_until_next_obstacle - 1,
            !old(self).game_over ==> final(self).game_over == hits(final(self).cols(), final(self).dino),
            !old(self).game_over ==> final(self).rng == old(self).rng,
    {
        if self.game_over {
            return;
        }

        self.dino.update();
        self.score = self.score + 1;

        if !self.speed_boost_applied && self.score >= SPEED_INCREASE_THRESHOLD {
            self.current_game_tick_ms = FASTER_GAME_TICK_MS;
            self.speed_boost_applied = true;
        }

        self.scroll_obstacles();

        if self.frames_until_next_obstacle == 0 {
            let ghost before = self.obstacles@;
            self.obstacles.push(Obstacle::new(SCREEN_WIDTH - 1));
            self.frames_until_next_obstacle = gap;
            proof {
                assert(vcols(self.obstacles@) =~= vcols(before).push((SCREEN_WIDTH - 1) as u16));
            }
        } else {
            self.frames_until_next_obstacle = self.frames_until_next_obstacle - 1;
        }

        let sy = self.dino.screen_y();
        let mut hit = false;
        let mut i: usize = 0;
        while i < self.obstacles.len()
            invariant
                i <= self.obstacles.len(),
                hit == exists|j: int| 0 <= j < i && self.cols()[j] == DINO_X_POS,
            decreases self.obstacles.len() - i,
        {
            if self.obstacles[i].x_pos == DINO_X_POS {
                hit = true;
                proof {
                    assert(self.cols()[i as int] == DINO_X_POS);
                }
            }
            i = i + 1;
        }
        if hit && sy == GROUND_Y {
            self.game_over = true;
        }
    }

    /// One simulated tick as the main loop runs it: when an obstacle
    /// spawns, the next countdown is sampled from the spawn-gap range.
    pub fn update_tick(&mut self)
        requires
            old(self).wf(),
            old(self).game_over || old(self).score < u32::MAX,
        ensures
            final(self).wf(),
            old(self).game_over ==> *final(self) == *old(self),
            !old(self).game_over ==> final(self).dino == old(self).dino.stepped(),
            !old(self).game_over ==> final(self).score == old(self).score + 1,
            !old(self).game_over ==> final(self).speed_boost_applied == (
                old(self).speed_boost_applied || old(self).score + 1 >= SPEED_INCREASE_THRESHOLD),
            !old(self).game_over ==> final(self).current_game_tick_ms == (
                if final(self).speed_boost_applied {
                    FASTER_GAME_TICK_MS
                } else {
                    DEFAULT_GAME_TICK_MS
                }),
            !old(self).game_over && old(self).frames_until_next_obstacle == 0
                ==> final(self).cols() == scrolled(old(self).cols()).push((SCREEN_WIDTH - 1) as u16)
                    && OBSTACLE_MIN_SPAWN_GAP_FRAMES <= final(self).frames_until_next_obstacle
                        <= OBSTACLE_MAX_SPAWN_GAP_FRAMES,
            !old(self).game_over && old(self).frames_until_next_obstacle != 0
                ==> final(self).cols() == scrolled(old(self).cols())
                    && final(self).frames_until_next_obstacle
                        == old(self).frames_until_next_obstacle - 1,
            !old(self).game_over ==> final(self).game_over == hits(final(self).cols(), final(self).dino),
    {
        if self.game_over {
            return;
        }
        if self.frames_until_next_obstacle == 0 {
            let gap = sample_spawn_gap(&mut self.rng);
            self.update_tick_with_gap(gap);
        } else {
            // nothing spawns this tick, so the gap argument goes unused
            self.update_tick_with_gap(OBSTACLE_MIN_SPAWN_GAP_FRAMES);
        }
    }

    /// React to a player command: a jump is taken only while the run is on,
    /// a restart only once the game is over; otherwise nothing changes.
    pub fn handle_command(&mut self, cmd: Command)
        requires
            old(self).wf(),
        ensures
            final(self).wf(),
            cmd is Jump && !old(self).game_over ==> final(self).dino == old(self).dino.jumped()
                && final(self).obstacles@ == old(self).obstacles@
                && final(self).score == old(self).score
                && final(self).game_over == old(self).game_over
                && final(self).frames_until_next_obstacle == old(self).frames_until_next_obstacle
                && final(self).rng == old(self).rng
                && final(self).current_game_tick_ms == old(self).current_game_tick_ms
                && final(self).speed_boost_applied == old(self).speed_boost_applied,
            cmd is Jump && old(self).game_over ==> *final(self) == *old(self),
            cmd is Restart && old(self).game_over ==> final(self).dino == Dino::initial()
                && final(self).cols().len() == 0
                && final(self).score == 0
                && !final(self).game_over
                && OBSTACLE_MIN_SPAWN_GAP_FRAMES <= final(self).frames_until_next_obstacle
                    <= OBSTACLE_MAX_SPAWN_GAP_FRAMES
                && final(self).current_game_tick_ms == DEFAULT_GAME_TICK_MS
                && !final(self).speed_boost_applied,
            cmd is Restart && !old(self).game_over ==> *final(self) == *old(self),
    {
        match cmd {
            Command::Jump => {
                if !self.game_over {
                    self.dino.jump();
                }
            },
            Command::Restart => {
                if self.game_over {
                    self.restart();
                }
            },
        }
    }
}

/// The tick interval is the faster one exactly when the score has reached
/// the threshold, so the boost fires once, at the crossing, and never
/// reverts.
pub proof fn lemma_speed_boost_once(gs: GameState)
    requires
        gs.wf(),
    ensures
        gs.current_game_tick_ms == FASTER_GAME_TICK_MS <==> gs.score >= SPEED_INCREASE_THRESHOLD,
        gs.current_game_tick_ms == DEFAULT_GAME_TICK_MS <==> gs.score < SPEED_INCREASE_THRESHOLD,
{
}

/// An airborne character never collides: a physics step that leaves the
/// character in the air puts its rounded row strictly above the ground row,
/// so the collision test cannot fire, whatever the obstacles are.
pub proof fn lemma_airborne_clears_obstacles(d: Dino, cols: Seq<u16>)
    requires
        d.wf(),
        d.stepped().is_jumping,
    ensures
        d.stepped().spec_screen_y() < GROUND_Y,
        !hits(cols, d.stepped()),
{
}

/// Scrolling a row of obstacles whose columns are all still on the field
/// moves every column exactly one to the left and keeps their order.
pub proof fn lemma_scrolled_decrements(cols: Seq<u16>)
    requires
        forall|i: int| 0 <= i < cols.len() ==> cols[i] > 0,
    ensures
        scrolled(cols).len() == cols.len(),
        forall|i: int| 0 <= i < cols.len() ==> scrolled(cols)[i] + 1 == cols[i],
    decreases cols.len(),
{
    if cols.len() > 0 {
        lemma_scrolled_decrements(cols.drop_last());
        assert forall|i: int| 0 <= i < cols.len() implies scrolled(cols)[i] + 1 == cols[i] by {
            if i < cols.len() - 1 {
                assert(scrolled(cols)[i] == scrolled(cols.drop_last())[i]);
                assert(cols.drop_last()[i] == cols[i]);
            }
        }
    }
}

/// Scrolling drops exactly the obstacles at the left edge: every surviving
/// column is one left of a column that was still positive, and a column at
/// zero contributes nothing, so an obstacle that leaves the field never
/// comes back.
pub proof fn lemma_scrolled_survivors(cols: Seq<u16>)
    ensures
        scrolled(cols).len() <= cols.len(),
        forall|j: int| 0 <= j < scrolled(cols).len()
            ==> exists|i: int| 0 <= i < cols.len() && cols[i] > 0
                && #[trigger] scrolled(cols)[j] + 1 == cols[i],
        (forall|i: int| 0 <= i < cols.len() ==> cols[i] == 0) ==> scrolled(cols).len() == 0,
    decreases cols.len(),
{
    if cols.len() > 0 {
        lemma_scrolled_survivors(cols.drop_last());
    }
}

} // verus!
