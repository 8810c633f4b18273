//! What holds of every lattice: the statements that the update rule, the
//! energy and the resize are meant to satisfy, proved over the model.

use vstd::prelude::*;
use crate::grid::{
    accepts, flip_at, hamiltonian, in_grid, is_grid, is_spin, missing_neighbours, neighbour_sum,
    resized, stepped, stepped_through, Update,
};

verus! {

/// The product of a reversed spin and an integer, without the multiplication.
proof fn lemma_spin_product(spin: int, sum: int)
    requires
        spin == 1 || spin == -1,
    ensures
        -spin * sum == (if spin == 1 { -sum } else { sum }),
{
    assert(-spin * sum == (if spin == 1 { -sum } else { sum })) by (nonlinear_arith)
        requires
            spin == 1 || spin == -1,
    ;
}

/// Reversing one spin of a grid leaves a grid of the same side.
pub proof fn lemma_flip_keeps_grid(cells: Seq<Seq<i32>>, n: nat, x: int, y: int)
    requires
        is_grid(cells, n),
        in_grid(n, x, y),
    ensures
        is_grid(flip_at(cells, x, y), n),
{
    let flipped = flip_at(cells, x, y);
    assert(is_spin(cells[y][x]));
    assert forall|r: int| 0 <= r < n implies (#[trigger] flipped[r]).len() == n by {
        assert(cells[r].len() == n);
    }
    assert forall|r: int, c: int| 0 <= r < n && 0 <= c < n implies is_spin(
        #[trigger] flipped[r][c],
    ) by {
        assert(is_spin(cells[r][c]));
    }
}

/// One update leaves a grid of the same side, whether or not it flips.
pub proof fn lemma_step_keeps_grid(cells: Seq<Seq<i32>>, n: nat, x: int, y: int, flip: bool)
    requires
        is_grid(cells, n),
        in_grid(n, x, y),
    ensures
        is_grid(stepped(cells, x, y, flip), n),
{
    lemma_flip_keeps_grid(cells, n, x, y);
}

/// Any number of updates, each at a site of the grid, leaves a grid of the
/// same side: square, with every entry a spin.
pub proof fn lemma_steps_keep_grid(cells: Seq<Seq<i32>>, n: nat, updates: Seq<Update>)
    requires
        is_grid(cells, n),
        forall|i: int| 0 <= i < updates.len() ==> in_grid(n, (#[trigger] updates[i]).x, updates[i].y),
    ensures
        is_grid(stepped_through(cells, updates), n),
    decreases updates.len(),
{
    if updates.len() > 0 {
        let earlier = updates.drop_last();
        assert forall|i: int| 0 <= i < earlier.len() implies in_grid(
            n,
            (#[trigger] earlier[i]).x,
            earlier[i].y,
        ) by {
            assert(earlier[i] == updates[i]);
        }
        lemma_steps_keep_grid(cells, n, earlier);
        let last = updates.last();
        lemma_step_keeps_grid(stepped_through(cells, earlier), n, last.x, last.y, last.flip);
    }
}

/// One update changes at most the site it visits: every other site holds
/// the spin it held before, and the visited site holds its old spin or the
/// reverse of it.
pub proof fn lemma_step_is_local(cells: Seq<Seq<i32>>, n: nat, x: int, y: int, flip: bool)
    requires
        is_grid(cells, n),
        in_grid(n, x, y),
    ensures
        forall|r: int, c: int|
            in_grid(n, c, r) && !(r == y && c == x) ==> #[trigger] stepped(cells, x, y, flip)[r][c]
                == cells[r][c],
        stepped(cells, x, y, flip)[y][x] == (if flip {
            -cells[y][x]
        } else {
            cells[y][x] as int
        }),
{
    assert(is_spin(cells[y][x]));
}

/// A flip that lowers the energy is taken whatever its score, and a flip
/// that does not lower the energy is taken exactly when its score exceeds
/// one half.
pub proof fn lemma_energy_drop_is_accepted(
    cells: Seq<Seq<i32>>,
    x: int,
    y: int,
    score_above_half: bool,
)
    ensures
        stepped(cells, x, y, accepts(true, score_above_half)) == flip_at(cells, x, y),
        stepped(cells, x, y, accepts(false, score_above_half)) == (if score_above_half {
            flip_at(cells, x, y)
        } else {
            cells
        }),
{
}

/// Reversing the spin of a site changes its local energy from `e` to
/// `-e - 2k`, where `k` counts the directions that lead off the grid: the
/// site's own spin stands in for each of them, and reverses with it.
pub proof fn lemma_energy_after_flip(cells: Seq<Seq<i32>>, n: nat, x: int, y: int)
    requires
        is_grid(cells, n),
        in_grid(n, x, y),
    ensures
        hamiltonian(flip_at(cells, x, y), x, y) == -hamiltonian(cells, x, y) - 2
            * missing_neighbours(n, x, y),
{
    let flipped = flip_at(cells, x, y);
    lemma_flip_keeps_grid(cells, n, x, y);
    assert(is_spin(cells[y][x]));
    assert(flipped[y][x] == -cells[y][x]);
    if x != 0 {
        assert(is_spin(cells[y][x - 1]));
        assert(flipped[y][x - 1] == cells[y][x - 1]);
    }
    if x != n - 1 {
        assert(is_spin(cells[y][x + 1]));
        assert(flipped[y][x + 1] == cells[y][x + 1]);
    }
    if y != 0 {
        assert(is_spin(cells[y - 1][x]));
        assert(flipped[y - 1][x] == cells[y - 1][x]);
    }
    if y != n - 1 {
        assert(is_spin(cells[y + 1][x]));
        assert(flipped[y + 1][x] == cells[y + 1][x]);
    }
    lemma_spin_product(cells[y][x] as int, neighbour_sum(cells, x, y));
    lemma_spin_product(flipped[y][x] as int, neighbour_sum(flipped, x, y));
}

/// Away from the boundary, reversing the spin of a site negates its local
/// energy: the magnitude stays and the sign changes.
pub proof fn lemma_flip_negates_energy(cells: Seq<Seq<i32>>, n: nat, x: int, y: int)
    requires
        is_grid(cells, n),
        0 < x < n - 1,
        0 < y < n - 1,
    ensures
        hamiltonian(flip_at(cells, x, y), x, y) == -hamiltonian(cells, x, y),
{
    lemma_energy_after_flip(cells, n, x, y);
}

/// On the lattice of a single site all four neighbours are the site itself,
/// so its local energy is `-s * (4 * s)`, which is `-4` for either spin.
pub proof fn lemma_single_site_energy(cells: Seq<Seq<i32>>)
    requires
        is_grid(cells, 1),
    ensures
        neighbour_sum(cells, 0, 0) == 4 * cells[0][0],
        hamiltonian(cells, 0, 0) == -(cells[0][0] as int) * (4 * cells[0][0]),
        hamiltonian(cells, 0, 0) == -4,
{
    assert(is_spin(cells[0][0]));
    lemma_spin_product(cells[0][0] as int, neighbour_sum(cells, 0, 0));
    lemma_spin_product(cells[0][0] as int, 4 * cells[0][0]);
}

/// Growing a grid and shrinking it back to its old side restores the side,
/// and with it the grid: the sites that were there all along keep their
/// spins through both resizes.
pub proof fn lemma_resize_round_trip(
    start: Seq<Seq<i32>>,
    grown: Seq<Seq<i32>>,
    back: Seq<Seq<i32>>,
    n: nat,
    m: nat,
)
    requires
        is_grid(start, n),
        n < m,
        resized(start, grown, m),
        resized(grown, back, n),
    ensures
        is_grid(back, n),
        back.len() == start.len(),
        back == start,
{
    assert forall|r: int| 0 <= r < n implies #[trigger] back[r] == start[r] by {
        assert(back[r].len() == n);
        assert(start[r].len() == n);
        assert forall|c: int| 0 <= c < n implies #[trigger] back[r][c] == start[r][c] by {
            assert(back[r][c] == grown[r][c]);
            assert(grown[r][c] == start[r][c]);
        }
        assert(back[r] =~= start[r]);
    }
    assert(back =~= start);
}

/// A resize that keeps the side keeps the grid.
pub proof fn lemma_resize_same_side(start: Seq<Seq<i32>>, after: Seq<Seq<i32>>, n: nat)
    requires
        is_grid(start, n),
        resized(start, after, n),
    ensures
        after == start,
{
    assert forall|r: int| 0 <= r < n implies #[trigger] after[r] == start[r] by {
        assert(after[r].len() == n);
        assert(start[r].len() == n);
        assert forall|c: int| 0 <= c < n implies #[trigger] after[r][c] == start[r][c] by {
            assert(after[r][c] == start[r][c]);
        }
        assert(after[r] =~= start[r]);
    }
    assert(after =~= start);
}

} // verus!
