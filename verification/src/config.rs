use vstd::prelude::*;

verus! {

/// The immutable benchmark configuration: tensor shape parameters, the ordered
/// batch-size sweep, and the repeat count per batch size.
pub struct BenchmarkConfig {
    /// Middle tensor dimension (sequence length); positive.
    pub seq_len: usize,
    /// Trailing tensor dimension, the one LayerNorm normalizes over; positive.
    pub normalized_dim: usize,
    /// The ordered batch sizes to sweep, each positive.
    pub batch_sizes: Vec<usize>,
    /// How many timed forward passes are averaged per batch size; at least 1.
    pub repeats: usize,
}

impl BenchmarkConfig {
    /// A configuration the benchmark can run: positive dimensions, at least one
    /// repeat, and every swept batch size positive.
    pub open spec fn well_formed(&self) -> bool {
        &&& self.seq_len >= 1
        &&& self.normalized_dim >= 1
        &&& self.repeats >= 1
        &&& forall|i: int| 0 <= i < self.batch_sizes@.len() ==> self.batch_sizes@[i] >= 1
    }
}

/// Two raised to the given power.
pub open spec fn pow2(e: nat) -> nat
    decreases e,
{
    if e == 0 {
        1
    } else {
        2 * pow2((e - 1) as nat)
    }
}

/// The default configuration: seq_len 76, normalized_dim 60, repeats 50, and a
/// batch-size sweep over the first twelve powers of two, 1 through 2048, in
/// increasing order.
pub fn default_config() -> (c: BenchmarkConfig)
    ensures
        c.seq_len == 76,
        c.normalized_dim == 60,
        c.repeats == 50,
        c.batch_sizes@.len() == 12,
        forall|i: int| 0 <= i < 12 ==> c.batch_sizes@[i] == pow2(i as nat),
        c.batch_sizes@ =~= seq![
            1usize, 2, 4, 8, 16, 32, 64, 128, 256, 512, 1024, 2048,
        ],
        c.batch_sizes@.no_duplicates(),
        c.well_formed(),
{
    let batch_sizes: Vec<usize> = vec![1, 2, 4, 8, 16, 32, 64, 128, 256, 512, 1024, 2048];
    proof {
        reveal_with_fuel(pow2, 13);
        assert(batch_sizes@ =~= seq![
            1usize, 2, 4, 8, 16, 32, 64, 128, 256, 512, 1024, 2048,
        ]);
    }
    BenchmarkConfig { seq_len: 76, normalized_dim: 60, batch_sizes, repeats: 50 }
}

} // verus!
