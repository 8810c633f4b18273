//! The mathematical model of the lattice: a square grid of spins, its
//! open-boundary neighbourhoods and its local energy.

use vstd::prelude::*;

verus! {

/// A spin is one of the two values `-1` (down) and `+1` (up).
pub open spec fn is_spin(v: i32) -> bool {
    v == 1 || v == -1
}

/// `cells` is a square grid of side `n` in which every entry is a spin.
pub open spec fn is_grid(cells: Seq<Seq<i32>>, n: nat) -> bool {
    &&& cells.len() == n
    &&& forall|r: int| 0 <= r < n ==> (#[trigger] cells[r]).len() == n
    &&& forall|r: int, c: int| 0 <= r < n && 0 <= c < n ==> is_spin(#[trigger] cells[r][c])
}

/// The rows that a vector of vectors holds, as a sequence of sequences.
pub open spec fn rows_of(value: Vec<Vec<i32>>) -> Seq<Seq<i32>> {
    Seq::new(value@.len(), |r: int| value@[r]@)
}

/// `after` is what a resize of `before` to side `n` may leave: a grid of
/// side `n` that agrees with `before` on every site the two have in common.
/// The sites that `before` lacks hold spins of either sign.
pub open spec fn resized(before: Seq<Seq<i32>>, after: Seq<Seq<i32>>, n: nat) -> bool {
    &&& is_grid(after, n)
    &&& forall|r: int, c: int|
        0 <= r < n && r < before.len() && 0 <= c < n && c < before.len() ==> #[trigger] after[r][c]
            == before[r][c]
}

/// `(x, y)` names a site of a grid of side `n`: column `x` of row `y`.
pub open spec fn in_grid(n: nat, x: int, y: int) -> bool {
    0 <= x < n && 0 <= y < n
}

/// The spin to the left of `(x, y)`, or the site's own spin in the first column.
pub open spec fn left_of(cells: Seq<Seq<i32>>, x: int, y: int) -> i32 {
    if x != 0 {
        cells[y][x - 1]
    } else {
        cells[y][x]
    }
}

/// The spin to the right of `(x, y)`, or the site's own spin in the last column.
pub open spec fn right_of(cells: Seq<Seq<i32>>, x: int, y: int) -> i32 {
    if x != cells.len() - 1 {
        cells[y][x + 1]
    } else {
        cells[y][x]
    }
}

/// The spin one row below `(x, y)`, or the site's own spin in the first row.
pub open spec fn down_of(cells: Seq<Seq<i32>>, x: int, y: int) -> i32 {
    if y != 0 {
        cells[y - 1][x]
    } else {
        cells[y][x]
    }
}

/// The spin one row above `(x, y)`, or the site's own spin in the last row.
pub open spec fn up_of(cells: Seq<Seq<i32>>, x: int, y: int) -> i32 {
    if y != cells.len() - 1 {
        cells[y + 1][x]
    } else {
        cells[y][x]
    }
}

/// The four neighbours of `(x, y)` in the order left, right, down, up.
pub open spec fn neighbours(cells: Seq<Seq<i32>>, x: int, y: int) -> (i32, i32, i32, i32) {
    (left_of(cells, x, y), right_of(cells, x, y), down_of(cells, x, y), up_of(cells, x, y))
}

/// The sum of the four neighbours of `(x, y)`.
pub open spec fn neighbour_sum(cells: Seq<Seq<i32>>, x: int, y: int) -> int {
    left_of(cells, x, y) + right_of(cells, x, y) + down_of(cells, x, y) + up_of(cells, x, y)
}

/// The local energy of `(x, y)` in units of the exchange constant `J`:
/// `H / J = -s * (left + right + down + up)`.
pub open spec fn hamiltonian(cells: Seq<Seq<i32>>, x: int, y: int) -> int {
    -(cells[y][x] as int) * neighbour_sum(cells, x, y)
}

/// How many of the four directions lead off the grid at `(x, y)`.
pub open spec fn missing_neighbours(n: nat, x: int, y: int) -> int {
    (if x == 0 { 1int } else { 0int }) + (if x == n - 1 { 1int } else { 0int })
        + (if y == 0 { 1int } else { 0int }) + (if y == n - 1 { 1int } else { 0int })
}

/// The grid with the spin at `(x, y)` reversed and every other site untouched.
pub open spec fn flip_at(cells: Seq<Seq<i32>>, x: int, y: int) -> Seq<Seq<i32>> {
    cells.update(y, cells[y].update(x, (-cells[y][x]) as i32))
}

/// The acceptance rule: a proposed flip is taken when it lowers the energy,
/// or when its Boltzmann factor exceeds one half.
pub open spec fn accepts(delta_negative: bool, score_above_half: bool) -> bool {
    delta_negative || score_above_half
}

/// The grid after one update of `(x, y)`: reversed there if the flip was
/// accepted, and as it was if not.
pub open spec fn stepped(cells: Seq<Seq<i32>>, x: int, y: int, flip: bool) -> Seq<Seq<i32>> {
    if flip {
        flip_at(cells, x, y)
    } else {
        cells
    }
}

/// The decimal text of a spin: `"1"` for up and `"-1"` for down.
pub open spec fn spin_text(spin: i32) -> Seq<char> {
    if spin == 1 {
        seq!['1']
    } else {
        seq!['-', '1']
    }
}

/// One update of a run: the site it visits and whether the flip was accepted.
pub struct Update {
    pub x: int,
    pub y: int,
    pub flip: bool,
}

/// The grid after a run of updates, applied first to last.
pub open spec fn stepped_through(cells: Seq<Seq<i32>>, updates: Seq<Update>) -> Seq<Seq<i32>>
    decreases updates.len(),
{
    if updates.len() == 0 {
        cells
    } else {
        let last = updates.last();
        stepped(stepped_through(cells, updates.drop_last()), last.x, last.y, last.flip)
    }
}

} // verus!
