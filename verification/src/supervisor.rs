//! The supervisor's verdict.
//!
//! Every worker ends with an explicit outcome: success, or the fatal failure
//! that stopped it. Failures never cross worker boundaries on their own; the
//! supervisor observes each outcome and decides the fate of the whole process.
//! Its verdict is success exactly when every worker succeeded, and otherwise
//! the first failure in worker order.

use vstd::prelude::*;
use crate::errors::WorkerError;

verus! {

/// The supervisor's verdict on a sequence of worker outcomes: `Ok` if all
/// succeeded, else the first `Err`.
pub open spec fn spec_supervise(outcomes: Seq<Result<(), WorkerError>>) -> Result<(), WorkerError>
    decreases outcomes.len(),
{
    if outcomes.len() == 0 {
        Ok(())
    } else if outcomes.first() is Err {
        outcomes.first()
    } else {
        spec_supervise(outcomes.drop_first())
    }
}

/// The supervisor's verdict is success exactly when every worker succeeded.
pub proof fn lemma_supervise_ok_iff_all_ok(outcomes: Seq<Result<(), WorkerError>>)
    ensures
        spec_supervise(outcomes) is Ok <==> (forall|i: int|
            0 <= i < outcomes.len() ==> #[trigger] outcomes[i] is Ok),
    decreases outcomes.len(),
{
    if outcomes.len() > 0 {
        let rest = outcomes.drop_first();
        lemma_supervise_ok_iff_all_ok(rest);
        assert(outcomes[0] == outcomes.first());
        if outcomes.first() is Ok {
            if forall|i: int| 0 <= i < rest.len() ==> #[trigger] rest[i] is Ok {
                assert forall|i: int| 0 <= i < outcomes.len() implies #[trigger] outcomes[i] is Ok by {
                    if i > 0 {
                        assert(rest[i - 1] == outcomes[i]);
                    }
                }
            } else {
                let j = choose|i: int| 0 <= i < rest.len() && !(#[trigger] rest[i] is Ok);
                assert(rest[j] == outcomes[j + 1]);
                assert(!(outcomes[j + 1] is Ok));
            }
        } else {
            assert(!(outcomes[0] is Ok));
        }
    }
}

/// Aggregates the workers' outcomes: `Ok` exactly when every worker succeeded,
/// else the first failure, in worker order.
pub fn supervise(outcomes: &Vec<Result<(), WorkerError>>) -> (verdict: Result<(), WorkerError>)
    ensures
        verdict == spec_supervise(outcomes@),
        verdict is Ok <==> (forall|i: int|
            0 <= i < outcomes@.len() ==> #[trigger] outcomes@[i] is Ok),
{
    proof {
        lemma_supervise_ok_iff_all_ok(outcomes@);
        assert(outcomes@.skip(0) =~= outcomes@);
    }
    let n = outcomes.len();
    let mut i: usize = 0;
    while i < n
        invariant
            i <= n,
            n == outcomes@.len(),
            spec_supervise(outcomes@) == spec_supervise(outcomes@.skip(i as int)),
            forall|j: int| 0 <= j < i ==> #[trigger] outcomes@[j] is Ok,
        decreases n - i,
    {
        assert(outcomes@.skip(i as int).first() == outcomes@[i as int]);
        match outcomes[i] {
            Err(e) => {
                assert(spec_supervise(outcomes@.skip(i as int)) == outcomes@[i as int]);
                return Err(e);
            },
            Ok(()) => {
                assert(outcomes@.skip(i as int).drop_first() =~= outcomes@.skip(i as int + 1));
                i = i + 1;
            },
        }
    }
    assert(outcomes@.skip(n as int) =~= Seq::<Result<(), WorkerError>>::empty());
    Ok(())
}

} // verus!
