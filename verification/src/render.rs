//! Drawing a frame: the full-size character grid for one game state.
//!
//! The grid is pure data — one `char` per cell — built the way the screen
//! is painted: blank background, ground line, character, obstacles, the
//! score line on top, and, once the game is over, the centered end-of-game
//! message. Writing the grid to a terminal is not this module's business.

use vstd::prelude::*;

use vstd::string::StrSliceExecFns;

use crate::game::GameState;
use crate::DINO_X_POS;
use crate::GROUND_Y;
use crate::SCREEN_HEIGHT;
use crate::SCREEN_WIDTH;

verus! {

/// Glyph for an obstacle.
pub const OBSTACLE_CHAR: char = '💩';

/// Glyph of the ground line, one row below the ground row.
pub const GROUND_CHAR: char = '-';

/// Glyph of an empty cell.
pub const BLANK_CHAR: char = ' ';

/// The digit glyph for one decimal digit.
pub open spec fn digit_char(d: int) -> char {
    if d == 0 {
        '0'
    } else if d == 1 {
        '1'
    } else if d == 2 {
        '2'
    } else if d == 3 {
        '3'
    } else if d == 4 {
        '4'
    } else if d == 5 {
        '5'
    } else if d == 6 {
        '6'
    } else if d == 7 {
        '7'
    } else if d == 8 {
        '8'
    } else {
        '9'
    }
}

/// The decimal digits of `n`, most significant first, without leading
/// zeroes (a single `'0'` for zero).
pub open spec fn dec_digits(n: nat) -> Seq<char>
    decreases n,
{
    if n < 10 {
        seq![digit_char(n as int)]
    } else {
        dec_digits(n / 10).push(digit_char((n % 10) as int))
    }
}

/// The score overlay in the top-left corner.
pub open spec fn score_line(score: u32) -> Seq<char> {
    seq!['S', 'c', 'o', 'r', 'e', ':', ' '] + dec_digits(score as nat)
}

/// The end-of-game overlay.
pub open spec fn game_over_msg() -> Seq<char> {
    "GAME OVER! (r: restart, q: quit)"@
}

/// Row of the end-of-game overlay: the middle of the screen.
pub const GAME_OVER_MSG_Y: u16 = SCREEN_HEIGHT / 2;

/// What one cell of the frame shows, in painting order: the end-of-game
/// message covers the score line, the score line covers obstacles, an
/// obstacle covers the character (they can share a cell only on the ground
/// row), the character covers the ground, and everything else is blank.
/// The message column offset centers it on the field.
pub open spec fn frame_cell(gs: GameState, r: int, c: int) -> char {
    let msg_x = (SCREEN_WIDTH - game_over_msg().len()) / 2;
    if gs.game_over && r == GAME_OVER_MSG_Y && msg_x <= c < msg_x + game_over_msg().len() {
        game_over_msg()[c - msg_x]
    } else if r == 0 && c < score_line(gs.score).len() {
        score_line(gs.score)[c]
    } else if r == GROUND_Y && gs.cols().contains(c as u16) {
        OBSTACLE_CHAR
    } else if r == gs.dino.spec_screen_y() && c == DINO_X_POS {
        gs.dino.spec_display_char(gs.game_over)
    } else if r == GROUND_Y + 1 {
        GROUND_CHAR
    } else {
        BLANK_CHAR
    }
}

/// The decimal digit `d` as a glyph.
fn digit_to_char(d: u32) -> (c: char)
    requires
        d < 10,
    ensures
        c == digit_char(d as int),
{
    if d == 0 {
        '0'
    } else if d == 1 {
        '1'
    } else if d == 2 {
        '2'
    } else if d == 3 {
        '3'
    } else if d == 4 {
        '4'
    } else if d == 5 {
        '5'
    } else if d == 6 {
        '6'
    } else if d == 7 {
        '7'
    } else if d == 8 {
        '8'
    } else {
        '9'
    }
}

/// The decimal digits of `n`, most significant first.
fn u32_to_chars(n: u32) -> (v: Vec<char>)
    ensures
        v@ == dec_digits(n as nat),
    decreases n,
{
    if n < 10 {
        let mut v: Vec<char> = Vec::new();
        v.push(digit_to_char(n));
        proof {
            assert(v@ =~= dec_digits(n as nat));
        }
        v
    } else {
        let mut v = u32_to_chars(n / 10);
        v.push(digit_to_char(n % 10));
        v
    }
}

/// The characters of the score overlay.
fn score_line_chars(score: u32) -> (v: Vec<char>)
    ensures
        v@ == score_line(score),
{
    let mut v: Vec<char> = Vec::new();
    v.push('S');
    v.push('c');
    v.push('o');
    v.push('r');
    v.push('e');
    v.push(':');
    v.push(' ');
    let mut digits = u32_to_chars(score);
    v.append(&mut digits);
    proof {
        assert(v@ =~= score_line(score));
    }
    v
}

/// The characters of the end-of-game overlay.
fn game_over_msg_chars() -> (v: Vec<char>)
    ensures
        v@ == game_over_msg(),
{
    let s = "GAME OVER! (r: restart, q: quit)";
    proof {
        reveal_strlit("GAME OVER! (r: restart, q: quit)");
    }
    let n = s.unicode_len();
    let mut v: Vec<char> = Vec::new();
    let mut i: usize = 0;
    while i < n
        invariant
            i <= n,
            n == s@.len(),
            s@ == game_over_msg(),
            v@ == s@.take(i as int),
        decreases n - i,
    {
        v.push(s.get_char(i));
        proof {
            assert(v@ =~= s@.take(i + 1));
        }
        i = i + 1;
    }
    proof {
        assert(v@ =~= game_over_msg());
    }
    v
}

/// Whether some obstacle stands in column `c`.
fn has_obstacle_at(gs: &GameState, c: u16) -> (found: bool)
    ensures
        found == gs.cols().contains(c),
{
    let mut found = false;
    let mut i: usize = 0;
    while i < gs.obstacles.len()
        invariant
            i <= gs.obstacles.len(),
            found == exists|j: int| 0 <= j < i && gs.cols()[j] == c,
        decreases gs.obstacles.len() - i,
    {
        if gs.obstacles[i].x_pos == c {
            found = true;
            proof {
                assert(gs.cols()[i as int] == c);
            }
        }
        i = i + 1;
    }
    found
}

/// What the frame shows at row `r`, column `c`.
fn cell_char(gs: &GameState, score_v: &Vec<char>, msg_v: &Vec<char>, r: u16, c: u16) -> (ch: char)
    requires
        gs.wf(),
        score_v@ == score_line(gs.score),
        msg_v@ == game_over_msg(),
        r < SCREEN_HEIGHT,
        c < SCREEN_WIDTH,
    ensures
        ch == frame_cell(*gs, r as int, c as int),
{
    proof {
        reveal_strlit("GAME OVER! (r: restart, q: quit)");
        assert(game_over_msg().len() == 32);
    }
    let msg_x = (SCREEN_WIDTH - (msg_v.len() as u16)) / 2;
    if gs.game_over && r == GAME_OVER_MSG_Y && c >= msg_x && ((c - msg_x) as usize) < msg_v.len() {
        msg_v[(c - msg_x) as usize]
    } else if r == 0 && (c as usize) < score_v.len() {
        score_v[c as usize]
    } else if r == GROUND_Y && has_obstacle_at(gs, c) {
        OBSTACLE_CHAR
    } else if r == gs.dino.screen_y() && c == DINO_X_POS {
        gs.dino.display_char(gs.game_over)
    } else if r == GROUND_Y + 1 {
        GROUND_CHAR
    } else {
        BLANK_CHAR
    }
}

/// Draw one frame of the given state as a full grid of glyphs,
/// `SCREEN_HEIGHT` rows of `SCREEN_WIDTH` cells each.
pub fn render_frame(gs: &GameState) -> (grid: Vec<Vec<char>>)
    requires
        gs.wf(),
    ensures
        grid@.len() == SCREEN_HEIGHT,
        forall|r: int| 0 <= r < SCREEN_HEIGHT ==> #[trigger] grid@[r]@.len() == SCREEN_WIDTH,
        forall|r: int, c: int|
            0 <= r < SCREEN_HEIGHT && 0 <= c < SCREEN_WIDTH
                ==> #[trigger] grid@[r]@[c] == frame_cell(*gs, r, c),
{
    let score_v = score_line_chars(gs.score);
    let msg_v = game_over_msg_chars();
    let mut grid: Vec<Vec<char>> = Vec::new();
    let mut r: u16 = 0;
    while r < SCREEN_HEIGHT
        invariant
            r <= SCREEN_HEIGHT,
            gs.wf(),
            score_v@ == score_line(gs.score),
            msg_v@ == game_over_msg(),
            grid@.len() == r,
            forall|rr: int| 0 <= rr < r ==> #[trigger] grid@[rr]@.len() == SCREEN_WIDTH,
            forall|rr: int, cc: int|
                0 <= rr < r && 0 <= cc < SCREEN_WIDTH
                    ==> #[trigger] grid@[rr]@[cc] == frame_cell(*gs, rr, cc),
        decreases SCREEN_HEIGHT - r,
    {
        let mut row: Vec<char> = Vec::new();
        let mut c: u16 = 0;
        while c < SCREEN_WIDTH
            invariant
                c <= SCREEN_WIDTH,
                r < SCREEN_HEIGHT,
                gs.wf(),
                score_v@ == score_line(gs.score),
                msg_v@ == game_over_msg(),
                row@.len() == c,
                forall|cc: int| 0 <= cc < c ==> #[trigger] row@[cc] == frame_cell(*gs, r as int, cc),
            decreases SCREEN_WIDTH - c,
        {
            row.push(cell_char(gs, &score_v, &msg_v, r, c));
            c = c + 1;
        }
        grid.push(row);
        r = r + 1;
    }
    grid
}

} // verus!
