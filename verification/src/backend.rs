use vstd::prelude::*;
use crate::config::BenchmarkConfig;
use crate::error::BenchError;
use crate::report::BackendRow;
use crate::report::ResultRow;
use crate::report::align_rows;
use crate::report::rows_match;
use crate::stats::average_micros;

verus! {

/// The capability surface a tensor backend offers the driver: build a LayerNorm
/// module with weight all ones and bias all zeros, allocate random inputs on
/// the device, run forward passes (timed or not), and issue a device barrier.
///
/// No method may report `ConfigInconsistency`: that error is reserved for the
/// driver's own alignment check.
pub trait Backend {
    /// Bind the device and build the LayerNorm module over the trailing
    /// dimension `normalized_dim`, with weight = ones and bias = zeros.
    fn setup(&mut self, seq_len: usize, normalized_dim: usize) -> (r: Result<(), BenchError>)
        ensures
            (r matches Err(e) ==> e != BenchError::ConfigInconsistency),
    ;

    /// Allocate a fresh input tensor of shape [batch_size, seq_len,
    /// normalized_dim] with values drawn from a unit-variance distribution,
    /// replacing any previous input.
    fn make_input(&mut self, batch_size: usize) -> (r: Result<(), BenchError>)
        ensures
            (r matches Err(e) ==> e != BenchError::ConfigInconsistency),
    ;

    /// One forward pass over the current input, neither timed nor recorded.
    fn forward(&mut self) -> (r: Result<(), BenchError>)
        ensures
            (r matches Err(e) ==> e != BenchError::ConfigInconsistency),
    ;

    /// One measured forward pass over the current input: read the monotonic
    /// clock, run the forward pass, wait on a device barrier, read the clock
    /// again; returns the elapsed whole microseconds.
    fn timed_forward(&mut self) -> (r: Result<u64, BenchError>)
        ensures
            (r matches Err(e) ==> e != BenchError::ConfigInconsistency),
    ;

    /// Device barrier: block until all device work issued so far has finished.
    fn synchronize(&mut self) -> (r: Result<(), BenchError>)
        ensures
            (r matches Err(e) ==> e != BenchError::ConfigInconsistency),
    ;
}

/// The result list covers the configured sweep: one row per configured batch
/// size, in the configured order.
pub open spec fn covers(rows: Seq<BackendRow>, batch_sizes: Seq<usize>) -> bool {
    &&& rows.len() == batch_sizes.len()
    &&& forall|i: int| 0 <= i < rows.len() ==> rows[i].batch_size == batch_sizes[i]
}

/// Runs one backend through the whole benchmark: warmup (a [1, seq_len,
/// normalized_dim] input and `repeats` unmeasured forward passes, none of which
/// is recorded), then, for each configured batch size in order, a fresh input,
/// a device barrier, `repeats` measured forward passes, and their truncating
/// arithmetic mean.
///
/// On success the rows cover the configured sweep exactly, in order, with no
/// truncation. On failure no partial result escapes, and the error is the
/// backend's own, never `ConfigInconsistency`.
pub fn run_backend<B: Backend>(backend: &mut B, config: &BenchmarkConfig) -> (r: Result<
    Vec<BackendRow>,
    BenchError,
>)
    requires
        config.well_formed(),
    ensures
        (r matches Ok(rows) ==> covers(rows@, config.batch_sizes@)),
        (r matches Err(e) ==> e != BenchError::ConfigInconsistency),
{
    match backend.setup(config.seq_len, config.normalized_dim) {
        Ok(()) => (),
        Err(e) => {
            return Err(e);
        },
    }
    match backend.make_input(1) {
        Ok(()) => (),
        Err(e) => {
            return Err(e);
        },
    }
    let mut k: usize = 0;
    while k < config.repeats
        invariant
            k <= config.repeats,
        decreases config.repeats - k,
    {
        match backend.forward() {
            Ok(()) => (),
            Err(e) => {
                return Err(e);
            },
        }
        k = k + 1;
    }
    let mut rows: Vec<BackendRow> = Vec::new();
    let mut i: usize = 0;
    while i < config.batch_sizes.len()
        invariant
            config.well_formed(),
            i <= config.batch_sizes@.len(),
            rows@.len() == i,
            forall|j: int| 0 <= j < i ==> rows@[j].batch_size == config.batch_sizes@[j],
        decreases config.batch_sizes@.len() - i,
    {
        let batch_size = config.batch_sizes[i];
        match backend.make_input(batch_size) {
            Ok(()) => (),
            Err(e) => {
                return Err(e);
            },
        }
        match backend.synchronize() {
            Ok(()) => (),
            Err(e) => {
                return Err(e);
            },
        }
        let mut timings: Vec<u64> = Vec::new();
        let mut k: usize = 0;
        while k < config.repeats
            invariant
                k <= config.repeats,
                timings@.len() == k,
            decreases config.repeats - k,
        {
            let elapsed = match backend.timed_forward() {
                Ok(t) => t,
                Err(e) => {
                    return Err(e);
                },
            };
            timings.push(elapsed);
            k = k + 1;
        }
        let average_us = average_micros(&timings);
        rows.push(BackendRow { batch_size, average_us });
        i = i + 1;
    }
    Ok(rows)
}

/// Runs the two backend adapters sequentially — never concurrently, so only
/// one of them touches the device at a time — and joins their results row by
/// row. On success the table rows cover the configured sweep exactly, in
/// order. The two result lists cover the same sweep by construction, so the
/// join cannot fail: an error is always a backend's own, never
/// `ConfigInconsistency`.
pub fn run_pair<A: Backend, B: Backend>(
    first: &mut A,
    second: &mut B,
    config: &BenchmarkConfig,
) -> (r: Result<Vec<ResultRow>, BenchError>)
    requires
        config.well_formed(),
    ensures
        (r matches Ok(rows) ==> {
            &&& rows@.len() == config.batch_sizes@.len()
            &&& forall|i: int|
                0 <= i < rows@.len() ==> rows@[i].batch_size == config.batch_sizes@[i]
        }),
        (r matches Err(e) ==> e != BenchError::ConfigInconsistency),
{
    let a = match run_backend(first, config) {
        Ok(rows) => rows,
        Err(e) => {
            return Err(e);
        },
    };
    let b = match run_backend(second, config) {
        Ok(rows) => rows,
        Err(e) => {
            return Err(e);
        },
    };
    proof {
        lemma_two_backend_alignment(a@, b@, config.batch_sizes@);
    }
    match align_rows(&a, &b) {
        Ok(rows) => Ok(rows),
        Err(e) => {
            proof {
                assert(false);
            }
            Err(e)
        },
    }
}

/// Two result lists that each cover the same configured sweep are aligned row
/// by row: the batch size in one backend's row equals the batch size in the
/// other backend's row at the same position.
pub proof fn lemma_two_backend_alignment(
    a: Seq<BackendRow>,
    b: Seq<BackendRow>,
    batch_sizes: Seq<usize>,
)
    requires
        covers(a, batch_sizes),
        covers(b, batch_sizes),
    ensures
        rows_match(a, b),
{
    assert forall|i: int| 0 <= i < a.len() implies a[i].batch_size == b[i].batch_size by {
        assert(a[i].batch_size == batch_sizes[i]);
        assert(b[i].batch_size == batch_sizes[i]);
    }
}

/// A table that covers a sweep without duplicate batch sizes holds, for each
/// swept batch size, at least one row whose first field is that batch size;
/// rows at distinct positions carry distinct batch sizes (so that row is the
/// only one); and the rows stand in the configured sweep order.
pub proof fn lemma_one_row_per_batch_size(rows: Seq<ResultRow>, batch_sizes: Seq<usize>)
    requires
        rows.len() == batch_sizes.len(),
        forall|i: int| 0 <= i < rows.len() ==> #[trigger] rows[i].batch_size == batch_sizes[i],
        batch_sizes.no_duplicates(),
    ensures
        forall|b: usize| #[trigger]
            batch_sizes.contains(b) ==> exists|i: int|
                0 <= i < rows.len() && #[trigger] rows[i].batch_size == b,
        forall|i: int, j: int|
            0 <= i < rows.len() && 0 <= j < rows.len() && i != j ==> #[trigger] rows[i].batch_size
                != #[trigger] rows[j].batch_size,
{
    assert forall|b: usize| #[trigger] batch_sizes.contains(b) implies exists|i: int|
        0 <= i < rows.len() && #[trigger] rows[i].batch_size == b by {
        let i = choose|i: int| 0 <= i < batch_sizes.len() && batch_sizes[i] == b;
        assert(rows[i].batch_size == b);
    }
    assert forall|i: int, j: int|
        0 <= i < rows.len() && 0 <= j < rows.len() && i != j implies rows[i].batch_size
        != rows[j].batch_size by {
        assert(rows[i].batch_size == batch_sizes[i]);
        assert(rows[j].batch_size == batch_sizes[j]);
        assert(batch_sizes[i] != batch_sizes[j]);
    }
}

} // verus!
