use vstd::prelude::*;
use vstd::string::StringExecFns;
use crate::text::dec_of;
use crate::text::usize_to_dec;

verus! {

/// A fatal benchmark failure. The benchmark never emits a partial table: the
/// first failure at any stage aborts the run, carrying the stage and, where one
/// applies, the batch size that was active.
#[derive(Clone, Copy, PartialEq, Eq, Structural, Debug)]
pub enum BenchError {
    /// No usable device at the requested index.
    DeviceUnavailable,
    /// A tensor could not be allocated: a swept input tensor (with its batch
    /// size), or the module's weight and bias (no batch size applies).
    AllocationFailure { batch_size: Option<usize> },
    /// A forward pass or device barrier failed while this batch size was
    /// active.
    ForwardFailure { batch_size: Option<usize> },
    /// The per-backend result lists disagree in length or batch-size order.
    ConfigInconsistency,
}

/// The suffix naming the active batch size, where one applies.
pub open spec fn batch_suffix_text(batch_size: Option<usize>) -> Seq<char> {
    match batch_size {
        Option::Some(b) => " at batch size "@ + dec_of(b as nat),
        Option::None => Seq::<char>::empty(),
    }
}

/// The one-line diagnostic for a failure: the stage, and the active batch size
/// where one applies.
pub open spec fn message_text(e: BenchError) -> Seq<char> {
    match e {
        BenchError::DeviceUnavailable => "device stage failed: no usable device at index 0"@,
        BenchError::AllocationFailure { batch_size } => "allocation stage failed"@
            + batch_suffix_text(batch_size),
        BenchError::ForwardFailure { batch_size } => "forward stage failed"@ + batch_suffix_text(
            batch_size,
        ),
        BenchError::ConfigInconsistency => "backend result lists disagree in length or batch-size order"@,
    }
}

impl BenchError {
    /// Renders the one-line diagnostic, exactly as `message_text` describes.
    pub fn message(&self) -> (s: String)
        ensures
            s@ == message_text(*self),
    {
        match self {
            BenchError::DeviceUnavailable => {
                String::from_str("device stage failed: no usable device at index 0")
            },
            BenchError::AllocationFailure { batch_size } => {
                let mut s = String::from_str("allocation stage failed");
                append_batch_suffix(&mut s, batch_size);
                s
            },
            BenchError::ForwardFailure { batch_size } => {
                let mut s = String::from_str("forward stage failed");
                append_batch_suffix(&mut s, batch_size);
                s
            },
            BenchError::ConfigInconsistency => {
                String::from_str("backend result lists disagree in length or batch-size order")
            },
        }
    }
}

/// Appends the batch-size suffix, where one applies.
fn append_batch_suffix(s: &mut String, batch_size: &Option<usize>)
    ensures
        final(s)@ == old(s)@ + batch_suffix_text(*batch_size),
{
    match batch_size {
        Option::Some(b) => {
            s.append(" at batch size ");
            let n = usize_to_dec(*b);
            s.append(n.as_str());
            proof {
                assert(s@ =~= old(s)@ + batch_suffix_text(Option::Some(*b)));
            }
        },
        Option::None => {
            proof {
                assert(s@ =~= old(s)@ + batch_suffix_text(Option::<usize>::None));
            }
        },
    }
}

} // verus!
