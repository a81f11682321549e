//! Batch decoding support: per-item outcomes collected positionally, so the
//! result list preserves input order and one file's failure never touches
//! its siblings.

use vstd::prelude::*;

use crate::constants::DEFAULT_NUM_WORKERS;
use crate::errors::Error;
use crate::waveform::Waveform;

verus! {

/// Configuration for batch work: how many workers the pool may use, where
/// zero lets the concurrency runtime size the pool to the available logical
/// cores.
#[derive(Clone, Copy, Debug, PartialEq, Eq, Hash)]
pub struct BatchArgs {
    /// The maximum number of worker threads for multithreaded work.
    pub num_workers: usize,
}

impl Default for BatchArgs {
    /// The default configuration: let the runtime pick the pool size.
    fn default() -> (r: Self)
        ensures
            r.num_workers == 0,
    {
        BatchArgs { num_workers: DEFAULT_NUM_WORKERS as usize }
    }
}

/// One outcome out of a batch: the name of the unit of work (typically the
/// originating filename) and its waveform or its own failure.
pub struct WaveformNamedResult {
    /// The name this outcome belongs to.
    pub name: String,
    /// The decoded waveform, or the failure that this item — and only this
    /// item — ran into.
    pub result: Result<Waveform, Error>,
}

/// Pairs each name with the outcome of its own unit of work, positionally:
/// the list has one entry per name, in input order, each carrying exactly
/// the outcome produced for it. A failure is contained in its own entry and
/// never drops, reorders or replaces a sibling.
pub fn waveform_named_results(names: Vec<String>, outcomes: Vec<Result<Waveform, Error>>) -> (r:
    Vec<WaveformNamedResult>)
    requires
        names@.len() == outcomes@.len(),
    ensures
        r@.len() == names@.len(),
        forall|i: int|
            0 <= i < r@.len() ==> (#[trigger] r@[i]).name == names@[i] && r@[i].result
                == outcomes@[i],
{
    let ghost all_names: Seq<String> = names@;
    let ghost all_outcomes: Seq<Result<Waveform, Error>> = outcomes@;
    let ghost total: int = names@.len() as int;
    let mut names = names;
    let mut outcomes = outcomes;
    let mut backwards: Vec<WaveformNamedResult> = Vec::new();
    while names.len() > 0
        invariant
            names@.len() == outcomes@.len(),
            names@.len() + backwards@.len() == total,
            names@ == all_names.take(names@.len() as int),
            outcomes@ == all_outcomes.take(outcomes@.len() as int),
            all_names.len() == total,
            all_outcomes.len() == total,
            forall|j: int|
                0 <= j < backwards@.len() ==> (#[trigger] backwards@[j]).name == all_names[total - 1
                    - j] && backwards@[j].result == all_outcomes[total - 1 - j],
        decreases names@.len(),
    {
        let name = names.pop().unwrap();
        let outcome = outcomes.pop().unwrap();
        proof {
            assert(names@ =~= all_names.take(names@.len() as int));
            assert(outcomes@ =~= all_outcomes.take(outcomes@.len() as int));
        }
        backwards.push(WaveformNamedResult { name, result: outcome });
    }
    let mut forwards: Vec<WaveformNamedResult> = Vec::new();
    while backwards.len() > 0
        invariant
            forwards@.len() + backwards@.len() == total,
            all_names.len() == total,
            all_outcomes.len() == total,
            forall|j: int|
                0 <= j < backwards@.len() ==> (#[trigger] backwards@[j]).name == all_names[total - 1
                    - j] && backwards@[j].result == all_outcomes[total - 1 - j],
            forall|i: int|
                0 <= i < forwards@.len() ==> (#[trigger] forwards@[i]).name == all_names[i]
                    && forwards@[i].result == all_outcomes[i],
        decreases backwards@.len(),
    {
        let entry = backwards.pop().unwrap();
        forwards.push(entry);
    }
    forwards
}

} // verus!
