//! The executable lattice.

use vstd::prelude::*;
use crate::grid::{
    accepts, flip_at, hamiltonian, in_grid, is_grid, is_spin, neighbours, resized, rows_of,
    spin_text, stepped,
};
use crate::random::{random_spin, uniform_index};

verus! {

/// A square grid of spins.
#[derive(Debug)]
pub struct Lattice {
    value: Vec<Vec<i32>>,
    size: usize,
}

impl View for Lattice {
    type V = Seq<Seq<i32>>;

    closed spec fn view(&self) -> Seq<Seq<i32>> {
        rows_of(self.value)
    }
}

impl Default for Lattice {
    /// The empty lattice.
    fn default() -> (lattice: Lattice)
        ensures
            lattice.wf(),
            lattice@.len() == 0,
    {
        let lattice = Lattice { value: Vec::new(), size: 0 };
        assert(lattice@ =~= Seq::<Seq<i32>>::empty());
        lattice
    }
}

impl Clone for Lattice {
    /// A lattice with the same spins.
    fn clone(&self) -> (copy: Lattice)
        ensures
            copy@ == self@,
            self.wf() ==> copy.wf(),
    {
        let mut value: Vec<Vec<i32>> = Vec::new();
        let mut y: usize = 0;
        while y < self.value.len()
            invariant
                y <= self.value@.len(),
                value@.len() == y,
                forall|r: int| 0 <= r < y ==> (#[trigger] value@[r])@ == self.value@[r]@,
            decreases self.value@.len() - y,
        {
            let row = &self.value[y];
            let mut out: Vec<i32> = Vec::new();
            let mut x: usize = 0;
            while x < row.len()
                invariant
                    x <= row@.len(),
                    out@.len() == x,
                    forall|c: int| 0 <= c < x ==> #[trigger] out@[c] == row@[c],
                decreases row@.len() - x,
            {
                out.push(row[x]);
                x += 1;
            }
            assert(out@ =~= row@);
            value.push(out);
            y += 1;
        }
        let copy = Lattice { value, size: self.size };
        assert(copy@ =~= self@);
        copy
    }
}

/// The text of one spin.
fn spin_to_string(spin: i32) -> (text: String)
    ensures
        text@ == spin_text(spin),
{
    proof {
        reveal_strlit("1");
        reveal_strlit("-1");
    }
    if spin == 1 {
        assert("1"@ =~= seq!['1']);
        "1".to_owned()
    } else {
        assert("-1"@ =~= seq!['-', '1']);
        "-1".to_owned()
    }
}

/// Decides a proposed flip: it is taken when the energy difference is
/// negative, or when the Boltzmann factor `exp(-delta / (k_B * T))` exceeds
/// one half. The two comparisons are the caller's to make.
pub fn flip_accepted(delta_negative: bool, score_above_half: bool) -> (flip: bool)
    ensures
        flip == accepts(delta_negative, score_above_half),
{
    delta_negative || score_above_half
}

/// A row of `len` spins: the first entries are those of `row`, as far as it
/// reaches, and the rest are drawn afresh.
fn resized_row(row: &Vec<i32>, len: usize) -> (out: Vec<i32>)
    requires
        forall|c: int| 0 <= c < row@.len() ==> is_spin(#[trigger] row@[c]),
    ensures
        out@.len() == len,
        forall|c: int| 0 <= c < len && c < row@.len() ==> #[trigger] out@[c] == row@[c],
        forall|c: int| 0 <= c < len ==> is_spin(#[trigger] out@[c]),
{
    let mut out: Vec<i32> = Vec::new();
    let mut x: usize = 0;
    while x < len
        invariant
            x <= len,
            out@.len() == x,
            forall|c: int| 0 <= c < row@.len() ==> is_spin(#[trigger] row@[c]),
            forall|c: int| 0 <= c < x && c < row@.len() ==> #[trigger] out@[c] == row@[c],
            forall|c: int| 0 <= c < x ==> is_spin(#[trigger] out@[c]),
        decreases len - x,
    {
        let spin = if x < row.len() {
            row[x]
        } else {
            random_spin()
        };
        out.push(spin);
        x += 1;
    }
    out
}

impl Lattice {
    /// The stored side length agrees with the rows, and the rows form a grid of spins.
    pub closed spec fn wf(&self) -> bool {
        &&& self.size == self.value@.len()
        &&& is_grid(self@, self.size as nat)
    }

    /// A well-formed lattice is a grid of spins whose side is the number of its rows.
    pub proof fn lemma_wf_is_grid(&self)
        requires
            self.wf(),
        ensures
            is_grid(self@, self@.len()),
    {
    }

    /// A lattice of the given side in which every spin is drawn afresh, down
    /// or up with equal probability. A side of zero gives the empty lattice.
    pub fn new(size: usize) -> (lattice: Lattice)
        ensures
            lattice.wf(),
            lattice@.len() == size,
            is_grid(lattice@, size as nat),
    {
        let mut lattice = Lattice::default();
        lattice.resize(size);
        lattice
    }

    /// A lattice of the same side with an entirely fresh spin configuration.
    pub fn reset(&self) -> (lattice: Lattice)
        requires
            self.wf(),
        ensures
            lattice.wf(),
            lattice@.len() == self@.len(),
            is_grid(lattice@, self@.len()),
    {
        Lattice::new(self.size)
    }

    /// The lattice that holds exactly the given rows, if they form a square
    /// grid of spins.
    pub fn from_cells(value: Vec<Vec<i32>>) -> (made: Option<Lattice>)
        ensures
            made is Some <==> is_grid(rows_of(value), value@.len()),
            made matches Some(lattice) ==> lattice.wf() && lattice@ == rows_of(value),
    {
        let size = value.len();
        let mut y: usize = 0;
        while y < size
            invariant
                y <= size,
                size == value@.len(),
                forall|r: int| 0 <= r < y ==> (#[trigger] value@[r])@.len() == size,
                forall|r: int, c: int|
                    0 <= r < y && 0 <= c < size ==> is_spin(#[trigger] value@[r]@[c]),
            decreases size - y,
        {
            if value[y].len() != size {
                assert(rows_of(value)[y as int].len() != size);
                return None;
            }
            let mut x: usize = 0;
            while x < size
                invariant
                    x <= size,
                    y < size,
                    size == value@.len(),
                    value@[y as int]@.len() == size,
                    forall|c: int| 0 <= c < x ==> is_spin(#[trigger] value@[y as int]@[c]),
                decreases size - x,
            {
                let spin = value[y][x];
                if spin != 1 && spin != -1 {
                    assert(!is_spin(rows_of(value)[y as int][x as int]));
                    return None;
                }
                x += 1;
            }
            y += 1;
        }
        assert(is_grid(rows_of(value), size as nat)) by {
            assert forall|r: int, c: int| 0 <= r < size && 0 <= c < size implies is_spin(
                #[trigger] rows_of(value)[r][c],
            ) by {
                assert(is_spin(value@[r]@[c]));
            }
        }
        Some(Lattice { value, size })
    }

    /// Brings the lattice to the side `new_size`. Every site that exists
    /// before and after keeps its spin; a growing lattice draws the spins of
    /// its new sites afresh, and a shrinking one drops its last columns and
    /// rows. An unchanged side leaves the lattice as it is.
    pub fn resize(&mut self, new_size: usize)
        requires
            old(self).wf(),
        ensures
            final(self).wf(),
            final(self)@.len() == new_size,
            resized(old(self)@, final(self)@, new_size as nat),
            new_size == old(self)@.len() ==> final(self)@ == old(self)@,
    {
        if new_size == self.size {
            return ;
        }
        let empty: Vec<i32> = Vec::new();
        let mut value: Vec<Vec<i32>> = Vec::new();
        let mut y: usize = 0;
        while y < new_size
            invariant
                y <= new_size,
                self.wf(),
                empty@.len() == 0,
                value@.len() == y,
                forall|r: int| 0 <= r < y ==> (#[trigger] value@[r])@.len() == new_size,
                forall|r: int, c: int|
                    0 <= r < y && 0 <= c < new_size ==> is_spin(#[trigger] value@[r]@[c]),
                forall|r: int, c: int|
                    0 <= r < y && r < self@.len() && 0 <= c < new_size && c < self@.len()
                        ==> #[trigger] value@[r]@[c] == self@[r][c],
            decreases new_size - y,
        {
            let row = if y < self.size {
                assert(self@[y as int] == self.value@[y as int]@);
                assert forall|c: int| 0 <= c < self.value@[y as int]@.len() implies is_spin(
                    #[trigger] self.value@[y as int]@[c],
                ) by {
                    assert(is_spin(self@[y as int][c]));
                }
                resized_row(&self.value[y], new_size)
            } else {
                resized_row(&empty, new_size)
            };
            value.push(row);
            y += 1;
        }
        *self = Lattice { value, size: new_size };
    }

    /// Applies a new side only if it is positive; a candidate of zero is
    /// ignored and the lattice stays as it is.
    pub fn set_size(&mut self, candidate: usize)
        requires
            old(self).wf(),
        ensures
            final(self).wf(),
            candidate == 0 ==> final(self)@ == old(self)@,
            candidate > 0 ==> final(self)@.len() == candidate && resized(
                old(self)@,
                final(self)@,
                candidate as nat,
            ),
            candidate == old(self)@.len() ==> final(self)@ == old(self)@,
    {
        if candidate > 0 {
            self.resize(candidate);
        }
    }

    /// Picks a site at random: a row, then a column, each uniform over the
    /// side. Returns the column first, as `(x, y)`.
    pub fn pick_random_point(&self) -> (point: (usize, usize))
        requires
            self.wf(),
            self@.len() > 0,
        ensures
            in_grid(self@.len(), point.0 as int, point.1 as int),
    {
        let y = uniform_index(self.size);
        let x = uniform_index(self.size);
        (x, y)
    }

    /// The side length.
    pub fn size(&self) -> (n: usize)
        requires
            self.wf(),
        ensures
            n == self@.len(),
    {
        self.size
    }

    /// The rows of the grid, first row first.
    pub fn value(&self) -> (rows: &Vec<Vec<i32>>)
        ensures
            rows_of(*rows) == self@,
    {
        &self.value
    }

    /// The spin at column `x` of row `y`.
    pub fn cell(&self, x: usize, y: usize) -> (spin: i32)
        requires
            self.wf(),
            in_grid(self@.len(), x as int, y as int),
        ensures
            spin == self@[y as int][x as int],
            is_spin(spin),
    {
        assert(self@[y as int] == self.value@[y as int]@);
        self.value[y][x]
    }

    /// Gathers the nearest neighbours of column `x_rand` of row `y_rand`, in
    /// the order left, right, down, up. Where the grid ends, the site's own
    /// spin stands in for the neighbour that is not there.
    pub fn find_neighbours(&self, x_rand: usize, y_rand: usize) -> (around: (i32, i32, i32, i32))
        requires
            self.wf(),
            in_grid(self@.len(), x_rand as int, y_rand as int),
        ensures
            around == neighbours(self@, x_rand as int, y_rand as int),
            is_spin(around.0),
            is_spin(around.1),
            is_spin(around.2),
            is_spin(around.3),
    {
        let current_spin = self.cell(x_rand, y_rand);
        let is_not_most_left = x_rand != 0;
        let is_not_most_right = x_rand != self.size - 1;
        let is_not_bottom = y_rand != 0;
        let is_not_top = y_rand != self.size - 1;

        let mut left = current_spin;
        let mut right = current_spin;
        let mut down = current_spin;
        let mut up = current_spin;

        if is_not_most_left {
            left = self.cell(x_rand - 1, y_rand);
        }
        if is_not_most_right {
            right = self.cell(x_rand + 1, y_rand);
        }
        if is_not_bottom {
            down = self.cell(x_rand, y_rand - 1);
        }
        if is_not_top {
            up = self.cell(x_rand, y_rand + 1);
        }

        (left, right, down, up)
    }

    /// The local energy of column `x_rand` of row `y_rand` in units of the
    /// exchange constant: `-s * (left + right + down + up)`. The energy in
    /// joules is this number times the coupling.
    pub fn calculate_hamiltonian(&self, x_rand: usize, y_rand: usize) -> (energy: i32)
        requires
            self.wf(),
            in_grid(self@.len(), x_rand as int, y_rand as int),
        ensures
            energy == hamiltonian(self@, x_rand as int, y_rand as int),
            -4 <= energy <= 4,
    {
        let current_spin = self.cell(x_rand, y_rand);
        let (left, right, down, up) = self.find_neighbours(x_rand, y_rand);
        let sum: i32 = left + right + down + up;
        assert(-4 <= -current_spin * sum <= 4 && -current_spin * sum == -(current_spin as int)
            * sum) by (nonlinear_arith)
            requires
                current_spin == 1 || current_spin == -1,
                -4 <= sum <= 4,
        ;

        -current_spin * sum
    }

    /// The lattice as text: every spin becomes `"1"` or `"-1"`, row by row.
    pub fn convert_to_string(self) -> (lattice: Vec<Vec<String>>)
        requires
            self.wf(),
        ensures
            lattice@.len() == self@.len(),
            forall|y: int| 0 <= y < lattice@.len() ==> (#[trigger] lattice@[y])@.len() == self@.len(),
            forall|y: int, x: int|
                0 <= y < self@.len() && 0 <= x < self@.len() ==> (#[trigger] lattice@[y]@[x])@
                    == spin_text(self@[y][x]),
    {
        let mut lattice: Vec<Vec<String>> = Vec::new();
        let mut y: usize = 0;
        while y < self.size
            invariant
                self.wf(),
                y <= self.size,
                lattice@.len() == y,
                forall|r: int| 0 <= r < y ==> (#[trigger] lattice@[r])@.len() == self.size,
                forall|r: int, c: int|
                    0 <= r < y && 0 <= c < self.size ==> (#[trigger] lattice@[r]@[c])@
                        == spin_text(self@[r][c]),
            decreases self.size - y,
        {
            let mut y_vector: Vec<String> = Vec::new();
            let mut x: usize = 0;
            while x < self.size
                invariant
                    self.wf(),
                    y < self.size,
                    x <= self.size,
                    y_vector@.len() == x,
                    forall|c: int|
                        0 <= c < x ==> (#[trigger] y_vector@[c])@ == spin_text(self@[y as int][c]),
                decreases self.size - x,
            {
                y_vector.push(spin_to_string(self.cell(x, y)));
                x += 1;
            }
            lattice.push(y_vector);
            y += 1;
        }
        lattice
    }

    /// Reverses the spin at column `x_rand` of row `y_rand` when the verdict accepts the flip.
    pub fn metropolis_algo_calculation(
        &mut self,
        x_rand: usize,
        y_rand: usize,
        delta_negative: bool,
        score_above_half: bool,
    )
        requires
            old(self).wf(),
            in_grid(old(self)@.len(), x_rand as int, y_rand as int),
        ensures
            final(self).wf(),
            is_grid(final(self)@, old(self)@.len()),
            final(self)@ == stepped(
                old(self)@,
                x_rand as int,
                y_rand as int,
                accepts(delta_negative, score_above_half),
            ),
            forall|r: int, c: int|
                in_grid(old(self)@.len(), c, r) && !(r == y_rand && c == x_rand)
                    ==> #[trigger] final(self)@[r][c] == old(self)@[r][c],
            final(self)@[y_rand as int][x_rand as int] == (if accepts(
                delta_negative,
                score_above_half,
            ) {
                -old(self)@[y_rand as int][x_rand as int]
            } else {
                old(self)@[y_rand as int][x_rand as int] as int
            }),
    {
        if flip_accepted(delta_negative, score_above_half) {
            assert(self@[y_rand as int] == self.value@[y_rand as int]@);
            let spin = self.value[y_rand][x_rand];
            assert(is_spin(self@[y_rand as int][x_rand as int]));
            self.value[y_rand][x_rand] = -spin;
            assert(self@ =~= flip_at(old(self)@, x_rand as int, y_rand as int));
        }
    }
}

} // verus!
