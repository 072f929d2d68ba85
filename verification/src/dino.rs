//! The player character: jump impulse, gravity integration and landing.
//!
//! Vertical position and velocity are kept in tenths of a grid row, so the
//! whole jump arc (impulse -1.6 rows per tick, gravity +0.4 rows per tick
//! squared) is exact integer arithmetic. A larger position is lower on
//! screen; the ground row is the largest position the character can take.

use vstd::prelude::*;

use crate::GROUND_Y;

verus! {

/// Ground row in tenths of a row: `GROUND_Y` scaled by ten.
pub const GROUND_Y_TENTHS: i32 = 120;

/// Upward impulse a jump gives, in tenths of a row per tick.
pub const INITIAL_JUMP_VELOCITY_TENTHS: i32 = -16;

/// Downward pull per tick, in tenths of a row per tick.
pub const GRAVITY_TENTHS: i32 = 4;

/// Glyph for the character while a run is on and the character is grounded.
pub const DINO_CHAR_RUNNING: char = '😏';

/// Glyph for the character while airborne.
pub const DINO_CHAR_JUMPING: char = '😯';

/// Glyph for the character once the game is over.
pub const DINO_CHAR_GAME_OVER: char = '😵';

/// The player character.
pub struct Dino {
    /// Vertical position in tenths of a row; larger is lower on screen.
    pub y_pos: i32,
    /// Signed change of `y_pos` per tick, in tenths of a row.
    pub velocity_y: i32,
    /// True between jump initiation and landing.
    pub is_jumping: bool,
}

impl Dino {
    /// The states an airborne character can be in: the points of the jump
    /// arc that starts at the ground row with the initial impulse and adds
    /// gravity to the velocity each tick until landing.
    pub open spec fn on_jump_arc(self) -> bool {
        ||| (self.y_pos == 120 && self.velocity_y == -16)
        ||| (self.y_pos == 104 && self.velocity_y == -12)
        ||| (self.y_pos == 92 && self.velocity_y == -8)
        ||| (self.y_pos == 84 && self.velocity_y == -4)
        ||| (self.y_pos == 80 && self.velocity_y == 0)
        ||| (self.y_pos == 80 && self.velocity_y == 4)
        ||| (self.y_pos == 84 && self.velocity_y == 8)
        ||| (self.y_pos == 92 && self.velocity_y == 12)
        ||| (self.y_pos == 104 && self.velocity_y == 16)
    }

    /// A grounded character rests exactly on the ground row with velocity
    /// zero; an airborne one is somewhere on the jump arc.
    pub open spec fn wf(self) -> bool {
        if self.is_jumping {
            self.on_jump_arc()
        } else {
            self.y_pos == GROUND_Y_TENTHS && self.velocity_y == 0
        }
    }

    /// The state a fresh character starts in: grounded on the ground row.
    pub open spec fn initial() -> Dino {
        Dino { y_pos: GROUND_Y_TENTHS, velocity_y: 0, is_jumping: false }
    }

    pub fn new() -> (d: Dino)
        ensures
            d == Dino::initial(),
            d.wf(),
    {
        Dino { y_pos: GROUND_Y_TENTHS, velocity_y: 0, is_jumping: false }
    }

    /// What a jump command does: nothing while airborne, otherwise the
    /// initial upward impulse.
    pub open spec fn jumped(self) -> Dino {
        if self.is_jumping {
            self
        } else {
            Dino { y_pos: self.y_pos, velocity_y: INITIAL_JUMP_VELOCITY_TENTHS, is_jumping: true }
        }
    }

    /// Start a jump. While already airborne this changes nothing: there is
    /// no double jump and no repeated impulse.
    pub fn jump(&mut self)
        requires
            old(self).wf(),
        ensures
            final(self).wf(),
            *final(self) == old(self).jumped(),
            old(self).is_jumping ==> *final(self) == *old(self),
    {
        if !self.is_jumping {
            self.is_jumping = true;
            self.velocity_y = INITIAL_JUMP_VELOCITY_TENTHS;
        }
    }

    /// One physics step: while airborne, position advances by the velocity
    /// and the velocity by gravity; reaching or passing the ground row
    /// clamps to the ground and ends the jump. Grounded characters do not
    /// move.
    pub open spec fn stepped(self) -> Dino {
        if !self.is_jumping {
            self
        } else {
            let y = self.y_pos + self.velocity_y;
            if y >= GROUND_Y_TENTHS {
                Dino { y_pos: GROUND_Y_TENTHS, velocity_y: 0, is_jumping: false }
            } else {
                Dino {
                    y_pos: y as i32,
                    velocity_y: (self.velocity_y + GRAVITY_TENTHS) as i32,
                    is_jumping: true,
                }
            }
        }
    }

    /// Advance the physics by one tick. A grounded character stays exactly
    /// on the ground row with velocity zero.
    pub fn update(&mut self)
        requires
            old(self).wf(),
        ensures
            final(self).wf(),
            *final(self) == old(self).stepped(),
            !old(self).is_jumping ==> *final(self) == *old(self)
                && final(self).y_pos == GROUND_Y_TENTHS && final(self).velocity_y == 0,
    {
        if self.is_jumping {
            self.y_pos = self.y_pos + self.velocity_y;
            self.velocity_y = self.velocity_y + GRAVITY_TENTHS;

            if self.y_pos >= GROUND_Y_TENTHS {
                self.y_pos = GROUND_Y_TENTHS;
                self.is_jumping = false;
                self.velocity_y = 0;
            }
        }
    }

    /// The grid row the character occupies: the position in tenths, rounded
    /// to the nearest whole row (halves round down the screen).
    pub open spec fn spec_screen_y(self) -> u16 {
        ((self.y_pos + 5) / 10) as u16
    }

    /// Round the vertical position to the grid row used for drawing and for
    /// the collision check. Exactly the ground row when grounded.
    pub fn screen_y(&self) -> (r: u16)
        requires
            self.wf(),
        ensures
            r == self.spec_screen_y(),
            !self.is_jumping ==> r == GROUND_Y,
    {
        ((self.y_pos + 5) / 10) as u16
    }

    /// The glyph the renderer shows for the character: the game-over face
    /// takes priority, then the airborne face, then the running face.
    pub open spec fn spec_display_char(self, game_over: bool) -> char {
        if game_over {
            DINO_CHAR_GAME_OVER
        } else if self.is_jumping {
            DINO_CHAR_JUMPING
        } else {
            DINO_CHAR_RUNNING
        }
    }

    pub fn display_char(&self, game_over: bool) -> (c: char)
        ensures
            c == self.spec_display_char(game_over),
    {
        if game_over {
            DINO_CHAR_GAME_OVER
        } else if self.is_jumping {
            DINO_CHAR_JUMPING
        } else {
            DINO_CHAR_RUNNING
        }
    }
}

/// A character is airborne exactly when it is away from the state of rest:
/// the jump arc never passes through the ground row with velocity zero, so
/// the jump flag is false precisely there.
pub proof fn lemma_grounded_iff_at_rest(d: Dino)
    requires
        d.wf(),
    ensures
        !d.is_jumping <==> (d.y_pos == GROUND_Y_TENTHS && d.velocity_y == 0),
{
}

/// The character after `n` physics steps.
pub open spec fn stepped_n(d: Dino, n: nat) -> Dino
    decreases n,
{
    if n == 0 {
        d
    } else {
        stepped_n(d, (n - 1) as nat).stepped()
    }
}

/// A jump always comes back, deterministically: starting a jump from the
/// ground and stepping the physics nine ticks puts the character exactly
/// back on the ground row with velocity zero and the jump flag cleared, and
/// a grounded character is a fixed point of the physics, so no overshoot
/// persists.
pub proof fn lemma_jump_returns_to_ground(d: Dino)
    requires
        d.wf(),
        !d.is_jumping,
    ensures
        stepped_n(d.jumped(), 9) == Dino::initial(),
        Dino::initial().stepped() == Dino::initial(),
{
    reveal_with_fuel(stepped_n, 10);
    assert(stepped_n(d.jumped(), 9) == Dino::initial());
}

} // verus!
