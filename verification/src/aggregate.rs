//! Counting successful attestations and deciding quorum.

use vstd::prelude::*;
use vstd::multiset::Multiset;
use crate::errors::CrankError;
use crate::model::OracleResponse;

verus! {

/// A response is a success when the oracle attested a value.
pub open spec fn is_success(r: OracleResponse) -> bool {
    r.value is Some
}

/// Number of successful responses in a reply, in reply order.
pub open spec fn success_count_spec(s: Seq<OracleResponse>) -> nat
    decreases s.len(),
{
    if s.len() == 0 {
        0nat
    } else {
        success_count_spec(s.drop_last()) + if is_success(s.last()) {
            1nat
        } else {
            0nat
        }
    }
}

/// The successful responses of a reply, taken as a bag: order forgotten,
/// multiplicity kept.
pub open spec fn successes_of(m: Multiset<OracleResponse>) -> Multiset<OracleResponse> {
    m.filter(|r: OracleResponse| is_success(r))
}

/// Quorum is met when at least `threshold` responses carry a value.
pub open spec fn quorum_met(s: Seq<OracleResponse>, threshold: u64) -> bool {
    success_count_spec(s) >= threshold
}

/// The success count of a reply counts exactly the bag of its successful
/// responses.
pub proof fn lemma_success_count_counts_bag(s: Seq<OracleResponse>)
    ensures
        success_count_spec(s) == successes_of(s.to_multiset()).len(),
    decreases s.len(),
{
    broadcast use vstd::seq_lib::group_to_multiset_ensures;
    broadcast use vstd::multiset::group_multiset_axioms;
    broadcast use vstd::multiset::lemma_insert_len;

    let p = (|r: OracleResponse| is_success(r));
    if s.len() == 0 {
        assert(s.to_multiset() =~= Multiset::<OracleResponse>::empty()) by {
            assert(s.to_multiset().len() == 0);
        }
        assert(successes_of(Multiset::<OracleResponse>::empty()) =~= Multiset::<
            OracleResponse,
        >::empty());
    } else {
        let pre = s.drop_last();
        let a = s.last();
        lemma_success_count_counts_bag(pre);
        assert(s =~= pre.push(a));
        assert(s.to_multiset() =~= pre.to_multiset().insert(a));
        if is_success(a) {
            assert(successes_of(pre.to_multiset().insert(a)) =~= successes_of(
                pre.to_multiset(),
            ).insert(a));
        } else {
            assert(successes_of(pre.to_multiset().insert(a)) =~= successes_of(pre.to_multiset()));
        }
    }
}

/// Law: the success count of a response set does not depend on the order
/// in which the responses arrived.
pub proof fn lemma_success_count_order_independent(a: Seq<OracleResponse>, b: Seq<OracleResponse>)
    requires
        a.to_multiset() == b.to_multiset(),
    ensures
        success_count_spec(a) == success_count_spec(b),
{
    lemma_success_count_counts_bag(a);
    lemma_success_count_counts_bag(b);
}

/// Count the responses that carry a value.
pub fn success_count(responses: &Vec<OracleResponse>) -> (n: usize)
    ensures
        n == success_count_spec(responses@),
        n <= responses@.len(),
{
    let mut n: usize = 0;
    let mut i: usize = 0;
    while i < responses.len()
        invariant
            i <= responses@.len(),
            n <= i,
            n == success_count_spec(responses@.take(i as int)),
        decreases responses@.len() - i,
    {
        if responses[i].value.is_some() {
            n = n + 1;
        }
        proof {
            assert(responses@.take(i + 1).drop_last() =~= responses@.take(i as int));
            assert(responses@.take(i + 1).last() == responses@[i as int]);
        }
        i = i + 1;
    }
    proof {
        assert(responses@.take(responses@.len() as int) =~= responses@);
    }
    n
}

/// A reply that met the quorum threshold, with its success count.
pub struct QuorumResult {
    /// The raw responses, kept in reply order.
    pub responses: Vec<OracleResponse>,
    /// How many of them carry a value.
    pub success_count: usize,
}

impl QuorumResult {
    /// The count is exactly the number of responses with a present value.
    pub open spec fn wf(self) -> bool {
        self.success_count == success_count_spec(self.responses@)
    }
}

/// Decide whether a reply meets the quorum threshold: `Ok` with the
/// counted reply exactly when it does, `NoQuorum` otherwise.
pub fn check_quorum(responses: Vec<OracleResponse>, threshold: u64) -> (r: Result<
    QuorumResult,
    CrankError,
>)
    ensures
        r is Ok <==> quorum_met(responses@, threshold),
        r matches Ok(q) ==> q.responses == responses && q.wf(),
        r matches Err(e) ==> e == (CrankError::NoQuorum {
            got: success_count_spec(responses@) as u64,
            need: threshold,
        }),
{
    let n = success_count(&responses);
    if (n as u64) >= threshold {
        Ok(QuorumResult { responses, success_count: n })
    } else {
        Err(CrankError::NoQuorum { got: n as u64, need: threshold })
    }
}

} // verus!
