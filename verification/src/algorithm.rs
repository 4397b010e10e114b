//! Frame generation: the deterministic per-tick rotation of a randomly
//! seeded per-cell scalar field.
//!
//! A cell's orientation is kept as a plain integer in milli-units: the
//! seed lies in `[-SEED_BOUND, SEED_BOUND)` (one unit split in a thousand
//! steps), and the frame for tick `k` holds `seed * k` for every cell.
//! Turning a cell into an angle (one milli-unit per `pi / 180 / 1000`
//! radians) is the rendering layer's business, not this crate's.

use vstd::prelude::*;

verus! {

/// One complete snapshot of per-cell orientation values, row-major.
pub type Data = Vec<i64>;

/// Half-width of the interval the random seed cells are drawn from.
pub const SEED_BOUND: i64 = 1000;

/// A generation session ends after this many ticks, so that
/// `seed * tick` always fits in a cell: `SEED_BOUND * TICK_LIMIT`
/// stays below `i64::MAX`.
pub const TICK_LIMIT: u64 = 0x20_0000_0000_0000;

/// Every seed cell lies in `[-SEED_BOUND, SEED_BOUND)`.
pub open spec fn seed_wf(seed: Seq<i64>) -> bool {
    forall|i: int| 0 <= i < seed.len() ==> -SEED_BOUND <= #[trigger] seed[i] < SEED_BOUND
}

/// The frame generated at tick `k` from a seed field: cell by cell,
/// the seed value scaled by the tick count.
pub open spec fn frame_at(seed: Seq<i64>, k: int) -> Seq<i64> {
    Seq::new(seed.len(), |i: int| (seed[i] * k) as i64)
}

/// The frames of the first `n` ticks of a run, in generation order.
pub open spec fn frames_upto(seed: Seq<i64>, n: int) -> Seq<Seq<i64>> {
    Seq::new(n as nat, |k: int| frame_at(seed, k))
}

/// Within a session, `seed * k` never leaves `i64`, so the cast in
/// `frame_at` changes nothing and the cells stay within the bound
/// `SEED_BOUND * k` derived from the seed range.
pub proof fn lemma_frame_at_in_range(seed: Seq<i64>, k: int, i: int)
    requires
        seed_wf(seed),
        0 <= k <= TICK_LIMIT,
        0 <= i < seed.len(),
    ensures
        frame_at(seed, k)[i] == seed[i] * k,
        -SEED_BOUND * k <= seed[i] * k < SEED_BOUND * k || seed[i] * k == 0,
        i64::MIN <= seed[i] * k <= i64::MAX,
{
    let s = seed[i] as int;
    assert(-SEED_BOUND * k <= s * k <= SEED_BOUND * k) by (nonlinear_arith)
        requires
            -SEED_BOUND <= s < SEED_BOUND,
            0 <= k,
    ;
    assert(SEED_BOUND * k <= SEED_BOUND * (TICK_LIMIT as int)) by (nonlinear_arith)
        requires
            0 <= k <= TICK_LIMIT as int,
            0 < SEED_BOUND,
    ;
    if 0 < k {
        assert(s * k < SEED_BOUND * k) by (nonlinear_arith)
            requires
                s < SEED_BOUND,
                0 < k,
        ;
    } else {
        assert(s * k == 0) by (nonlinear_arith)
            requires
                k == 0,
        ;
    }
}

/// Computes the frame for tick `count` from the seed field, exactly as
/// `frame_at` describes.
pub fn next_frame(seed: &Vec<i64>, count: u64) -> (frame: Data)
    requires
        seed_wf(seed@),
        count <= TICK_LIMIT,
    ensures
        frame@ == frame_at(seed@, count as int),
{
    let mut frame: Vec<i64> = Vec::new();
    let c: i64 = count as i64;
    let mut i: usize = 0;
    while i < seed.len()
        invariant
            0 <= i <= seed@.len(),
            seed_wf(seed@),
            count <= TICK_LIMIT,
            c == count as i64,
            frame@.len() == i,
            forall|j: int| 0 <= j < i ==> frame@[j] == seed@[j] * (count as int),
        decreases seed@.len() - i,
    {
        proof {
            lemma_frame_at_in_range(seed@, count as int, i as int);
        }
        let cell: i64 = seed[i] * c;
        frame.push(cell);
        i = i + 1;
    }
    proof {
        assert(frame@ =~= frame_at(seed@, count as int)) by {
            assert(forall|j: int|
                0 <= j < seed@.len() ==> #[trigger] frame_at(seed@, count as int)[j] == frame@[j])
            by {
                assert forall|j: int|
                    0 <= j < seed@.len() implies #[trigger] frame_at(
                    seed@,
                    count as int,
                )[j] == frame@[j] by {
                    lemma_frame_at_in_range(seed@, count as int, j);
                }
            }
        }
    }
    frame
}

/// A unit of data exchanged between interchangeable computation
/// strategies.
pub enum DataType {
    /// A grid of per-cell orientation values with its (rows, columns)
    /// dimensions.
    OrientedGrid(Data, (usize, usize)),
}

/// A computation strategy: given the iteration index and the data of the
/// previous step, produce the data of the next one. Implementations are
/// interchangeable; nothing is promised at this interface.
pub trait AlgorithmComputation {
    /// One step of the computation.
    fn compute(&mut self, iteration: usize, data: &Vec<DataType>) -> Vec<DataType>;
}

/// A rendering strategy for a computation's output.
pub trait AlgorithmRenderer {
    /// Draw the current data.
    fn render(&mut self);
}

/// The widgets a computation strategy contributes to the interface.
pub trait AlgorithmGUI {
    /// Build the strategy's interface.
    fn gui(&mut self);
}

/// Checks that every cell of a grid lies in the seed range, so that the
/// rotation never overflows a cell.
pub fn is_seed_field(cells: &Vec<i64>) -> (r: bool)
    ensures
        r == seed_wf(cells@),
{
    let mut i: usize = 0;
    let mut ok = true;
    while i < cells.len()
        invariant
            0 <= i <= cells@.len(),
            ok == (forall|j: int| 0 <= j < i ==> -SEED_BOUND <= #[trigger] cells@[j] < SEED_BOUND),
        decreases cells@.len() - i,
    {
        let cell = cells[i];
        if cell < -SEED_BOUND || cell >= SEED_BOUND {
            ok = false;
        }
        i = i + 1;
    }
    ok
}

/// The inputs the rotation strategy accepts: a grid is present, its
/// cells are seeded, and the iteration lies within a session.
pub open spec fn rotation_accepts(iteration: usize, data: Seq<DataType>) -> bool {
    &&& data.len() > 0
    &&& iteration <= TICK_LIMIT
    &&& (data[0] matches DataType::OrientedGrid(cells, dims) && seed_wf(cells@))
}

/// The one concrete strategy: the time-based rotation of a seeded grid,
/// `cell * iteration` per cell, as `frame_at` describes.
pub struct RandomRotation {}

impl AlgorithmComputation for RandomRotation {
    /// Rotates the grid in `data`'s first entry by the iteration index.
    /// When the input holds no grid, the grid is not a seeded field, or
    /// the iteration is past `TICK_LIMIT`, it hands back no data instead
    /// of misbehaving on a cell.
    fn compute(&mut self, iteration: usize, data: &Vec<DataType>) -> (r: Vec<DataType>)
        ensures
            rotation_accepts(iteration, data@) ==> {
                &&& r@.len() == 1
                &&& (r@[0] matches DataType::OrientedGrid(rotated, out_dims) && data@[0] matches
                DataType::OrientedGrid(cells, dims) && rotated@ == frame_at(
                    cells@,
                    iteration as int,
                ) && out_dims == dims)
            },
            !rotation_accepts(iteration, data@) ==> r@.len() == 0,
    {
        if data.len() == 0 {
            return Vec::new();
        }
        match &data[0] {
            DataType::OrientedGrid(cells, lattice_dimensions) => {
                if !is_seed_field(cells) || iteration as u64 > TICK_LIMIT {
                    return Vec::new();
                }
                let rotated = next_frame(cells, iteration as u64);
                let mut out: Vec<DataType> = Vec::new();
                out.push(DataType::OrientedGrid(rotated, *lattice_dimensions));
                out
            },
        }
    }
}

/// Draws one seed cell.
///
/// Relies on `rand::Rng::random_range` (through `rand::rng`'s thread-local
/// generator): the result of sampling an integer range is a value inside
/// that range. Nothing else is assumed of it.
#[verifier::external_body]
fn random_seed_cell() -> (r: i64)
    ensures
        -SEED_BOUND <= r < SEED_BOUND,
{
    rand::Rng::random_range(&mut rand::rng(), -SEED_BOUND..SEED_BOUND)
}

/// Seeds a fresh per-cell scalar field: `size` cells, each drawn from
/// `[-SEED_BOUND, SEED_BOUND)`.
pub fn generate_seed(size: usize) -> (seed: Vec<i64>)
    ensures
        seed@.len() == size,
        seed_wf(seed@),
{
    let mut seed: Vec<i64> = Vec::new();
    let mut i: usize = 0;
    while i < size
        invariant
            0 <= i <= size,
            seed@.len() == i,
            seed_wf(seed@),
        decreases size - i,
    {
        seed.push(random_seed_cell());
        i = i + 1;
    }
    seed
}

} // verus!
