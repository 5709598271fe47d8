//! The 5x5 board and its operations: Game-of-Life stepping, inversion,
//! randomization, and the all-dead test.
//!
//! Cells are stored row-major as 25 bytes, each exactly 0 (dead) or 1
//! (alive). The neighbor rule is bounded: positions outside the 5x5 board
//! count as permanently dead (no wrap-around).

use vstd::prelude::*;
use crate::rng::rng_bool;

verus! {

/// The 5x5 cell matrix, row-major: the cell at row `r`, column `c` is
/// `cells[r * 5 + c]`.
#[derive(Clone, Debug, PartialEq, Eq)]
pub struct Grid {
    pub cells: Vec<u8>,
}

impl View for Grid {
    type V = Seq<u8>;

    open spec fn view(&self) -> Seq<u8> {
        self.cells@
    }
}

impl Grid {
    /// The board invariant: exactly 25 cells, each 0 or 1.
    pub open spec fn wf(self) -> bool {
        self@.len() == 25 && forall|i: int| 0 <= i < 25 ==> self@[i] <= 1
    }

    /// The cell at row `r`, column `c` is alive. Positions outside the board
    /// are dead, which is exactly the bounded (non-wrapping) neighbor policy.
    pub open spec fn alive(self, r: int, c: int) -> bool {
        0 <= r < 5 && 0 <= c < 5 && self@[r * 5 + c] == 1
    }

    /// Every cell of the board is dead.
    pub open spec fn empty(self) -> bool {
        forall|i: int| 0 <= i < 25 ==> self@[i] != 1
    }

    /// How many of the 8 positions adjacent to (`r`, `c`) hold a live cell;
    /// positions off the board count as dead.
    pub open spec fn neighbor_count(self, r: int, c: int) -> int {
        (if self.alive(r - 1, c - 1) { 1int } else { 0int })
            + (if self.alive(r - 1, c) { 1int } else { 0int })
            + (if self.alive(r - 1, c + 1) { 1int } else { 0int })
            + (if self.alive(r, c - 1) { 1int } else { 0int })
            + (if self.alive(r, c + 1) { 1int } else { 0int })
            + (if self.alive(r + 1, c - 1) { 1int } else { 0int })
            + (if self.alive(r + 1, c) { 1int } else { 0int })
            + (if self.alive(r + 1, c + 1) { 1int } else { 0int })
    }

    /// The Game-of-Life rule for one cell: a live cell survives with 2 or 3
    /// live neighbors; a dead cell is born with exactly 3; all else is dead.
    pub open spec fn next_alive(self, r: int, c: int) -> bool {
        if self.alive(r, c) {
            self.neighbor_count(r, c) == 2 || self.neighbor_count(r, c) == 3
        } else {
            self.neighbor_count(r, c) == 3
        }
    }

    /// A fresh all-dead board.
    pub fn new() -> (g: Grid)
        ensures
            g.wf(),
            g.empty(),
    {
        let mut cells: Vec<u8> = Vec::new();
        let mut i: usize = 0;
        while i < 25
            invariant
                i <= 25,
                cells@.len() == i,
                forall|j: int| 0 <= j < i ==> cells@[j] == 0,
            decreases 25 - i,
        {
            cells.push(0);
            i += 1;
        }
        Grid { cells }
    }

    /// Read one cell.
    pub fn get_cell(&self, r: usize, c: usize) -> (v: u8)
        requires
            self.wf(),
            r < 5,
            c < 5,
        ensures
            v == self@[r as int * 5 + c as int],
            v <= 1,
    {
        self.cells[r * 5 + c]
    }

    /// Write one cell.
    pub fn set_cell(&mut self, r: usize, c: usize, v: u8)
        requires
            old(self).wf(),
            r < 5,
            c < 5,
            v <= 1,
        ensures
            final(self).wf(),
            final(self)@ == old(self)@.update(r as int * 5 + c as int, v),
    {
        self.cells.set(r * 5 + c, v);
    }
}

/// `post` is `pre` with every cell flipped (alive to dead and back).
pub open spec fn complements(post: Grid, pre: Grid) -> bool {
    post@.len() == 25 && forall|i: int| 0 <= i < 25 ==> post@[i] == (if pre@[i] == 1 {
        0u8
    } else {
        1u8
    })
}

/// `post` is one synchronous Game-of-Life generation computed from `pre`.
pub open spec fn steps_to(post: Grid, pre: Grid) -> bool {
    post@.len() == 25 && forall|r: int, c: int|
        0 <= r < 5 && 0 <= c < 5 ==> post@[r * 5 + c] == (if pre.next_alive(r, c) {
            1u8
        } else {
            0u8
        })
}

/// Flip every cell of the board in place.
pub fn complement_board(fb: &mut Grid)
    requires
        old(fb).wf(),
    ensures
        final(fb).wf(),
        complements(*final(fb), *old(fb)),
{
    let mut next: Vec<u8> = Vec::new();
    let mut i: usize = 0;
    while i < 25
        invariant
            i <= 25,
            fb.wf(),
            next@.len() == i,
            forall|j: int| 0 <= j < i ==> next@[j] == (if fb@[j] == 1 {
                0u8
            } else {
                1u8
            }),
        decreases 25 - i,
    {
        let cur: u8 = fb.cells[i];
        next.push(if cur == 1 { 0 } else { 1 });
        i += 1;
    }
    fb.cells = next;
}

/// True iff every cell of the board is dead.
pub fn done(fb: &Grid) -> (b: bool)
    requires
        fb.wf(),
    ensures
        b == fb.empty(),
{
    let mut i: usize = 0;
    while i < 25
        invariant
            i <= 25,
            fb.wf(),
            forall|j: int| 0 <= j < i ==> fb@[j] != 1,
        decreases 25 - i,
    {
        if fb.cells[i] == 1 {
            return false;
        }
        i += 1;
    }
    true
}

/// 1 if the cell at (`r`, `c`) is alive, 0 otherwise; coordinates off the
/// board yield 0, implementing the bounded neighbor policy.
fn alive_at(fb: &Grid, r: i64, c: i64) -> (v: u8)
    requires
        fb.wf(),
    ensures
        v == (if fb.alive(r as int, c as int) {
            1u8
        } else {
            0u8
        }),
{
    if 0 <= r && r < 5 && 0 <= c && c < 5 {
        let idx: usize = (r as usize) * 5 + (c as usize);
        fb.cells[idx]
    } else {
        0
    }
}

/// The next generation of `fb`, as a fresh cell vector.
fn next_cells(fb: &Grid) -> (next: Vec<u8>)
    requires
        fb.wf(),
    ensures
        next@.len() == 25,
        forall|j: int| 0 <= j < 25 ==> next@[j] <= 1,
        forall|r: int, c: int| 0 <= r < 5 && 0 <= c < 5 ==> next@[r * 5 + c] == (
        if fb.next_alive(r, c) {
            1u8
        } else {
            0u8
        }),
{
    let mut next: Vec<u8> = Vec::new();
    let mut r: usize = 0;
    while r < 5
        invariant
            r <= 5,
            fb.wf(),
            next@.len() == r * 5,
            forall|j: int| 0 <= j < next@.len() ==> next@[j] <= 1,
            forall|rr: int, cc: int| 0 <= rr < r && 0 <= cc < 5 ==> next@[rr * 5 + cc] == (
            if fb.next_alive(rr, cc) {
                1u8
            } else {
                0u8
            }),
        decreases 5 - r,
    {
        let mut c: usize = 0;
        while c < 5
            invariant
                r < 5,
                c <= 5,
                fb.wf(),
                next@.len() == r * 5 + c,
                forall|j: int| 0 <= j < next@.len() ==> next@[j] <= 1,
                forall|rr: int, cc: int| 0 <= rr < r && 0 <= cc < 5 ==> next@[rr * 5 + cc] == (
                if fb.next_alive(rr, cc) {
                    1u8
                } else {
                    0u8
                }),
                forall|cc: int| 0 <= cc < c ==> next@[r * 5 + cc] == (if fb.next_alive(
                    r as int,
                    cc,
                ) {
                    1u8
                } else {
                    0u8
                }),
            decreases 5 - c,
        {
            let ri: i64 = r as i64;
            let ci: i64 = c as i64;
            let n: u8 = alive_at(fb, ri - 1, ci - 1) + alive_at(fb, ri - 1, ci) + alive_at(
                fb,
                ri - 1,
                ci + 1,
            ) + alive_at(fb, ri, ci - 1) + alive_at(fb, ri, ci + 1) + alive_at(fb, ri + 1, ci - 1)
                + alive_at(fb, ri + 1, ci) + alive_at(fb, ri + 1, ci + 1);
            let cur: u8 = fb.cells[r * 5 + c];
            let nv: u8 = if cur == 1 {
                if n == 2 || n == 3 {
                    1
                } else {
                    0
                }
            } else {
                if n == 3 {
                    1
                } else {
                    0
                }
            };
            next.push(nv);
            c += 1;
        }
        r += 1;
    }
    next
}

/// Advance the board one generation: every cell is rewritten according to
/// the Game-of-Life rule, computed synchronously from a snapshot of the
/// whole current board.
pub fn life(fb: &mut Grid)
    requires
        old(fb).wf(),
    ensures
        final(fb).wf(),
        steps_to(*final(fb), *old(fb)),
{
    let next = next_cells(fb);
    fb.cells = next;
}

/// Rewrite every cell with an independent pseudo-random draw: alive or dead,
/// one draw per cell.
pub fn randomize_board(fb: &mut Grid, rng: &mut nanorand::Pcg64)
    ensures
        final(fb).wf(),
{
    let mut next: Vec<u8> = Vec::new();
    let mut i: usize = 0;
    while i < 25
        invariant
            i <= 25,
            next@.len() == i,
            forall|j: int| 0 <= j < i ==> next@[j] <= 1,
        decreases 25 - i,
    {
        let v: u8 = if rng_bool(rng) {
            1
        } else {
            0
        };
        next.push(v);
        i += 1;
    }
    fb.cells = next;
}

/// Inverting the board twice restores it exactly: on well-formed boards,
/// complementing is an involution.
pub proof fn lemma_complement_involution(g1: Grid, g2: Grid, g3: Grid)
    requires
        g1.wf(),
        complements(g2, g1),
        complements(g3, g2),
    ensures
        g3@ == g1@,
{
    assert(g3@ =~= g1@);
}

} // verus!
