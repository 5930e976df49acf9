use vstd::prelude::*;

use crate::error::WalletError;

verus! {

/// The two inputs of an attribute commitment correspond entry by entry: the
/// same number of entries, and equal names at each position.
pub open spec fn inputs_correspond<V, R>(values: Seq<(String, V)>, randomness: Seq<(String, R)>) -> bool {
    &&& values.len() == randomness.len()
    &&& forall|i: int| 0 <= i < values.len() ==> (#[trigger] values[i]).0@ == randomness[i].0@
}

/// The entries paired up: each name with its value and its randomness.
pub open spec fn paired_inputs<V, R>(values: Seq<(String, V)>, randomness: Seq<(String, R)>) -> Seq<(Seq<char>, V, R)> {
    Seq::new(values.len(), |i: int| (values[i].0@, values[i].1, randomness[i].1))
}

/// Pairs each attribute value with the randomness of the same name, in the
/// order given, before one commitment per attribute is rebuilt and the
/// issuer's signature over them all is checked. The two lists must name the
/// same attributes in the same order: any difference, in a name or in the
/// number of entries, is `SignatureVerificationMismatch`, never a partial
/// pairing.
pub fn match_commitment_inputs<V, R>(values: Vec<(String, V)>, randomness: Vec<(String, R)>) -> (r: Result<Vec<(String, V, R)>, WalletError>)
    ensures
        r is Ok <==> inputs_correspond(values@, randomness@),
        r matches Err(e) ==> e == WalletError::SignatureVerificationMismatch,
        r matches Ok(v) ==> v@.len() == values@.len() && forall|i: int| 0 <= i < v@.len() ==>
            ((#[trigger] v@[i]).0@, v@[i].1, v@[i].2) == paired_inputs(values@, randomness@)[i],
{
    if values.len() != randomness.len() {
        return Err(WalletError::SignatureVerificationMismatch);
    }
    let ghost vs = values@;
    let ghost rs = randomness@;
    let mut rest_values = values;
    let mut rest_randomness = randomness;
    let mut reversed: Vec<(String, V, R)> = Vec::new();
    while rest_values.len() > 0
        invariant
            vs == values@,
            rs == randomness@,
            vs.len() == rs.len(),
            rest_values@.len() == rest_randomness@.len(),
            rest_values@.len() <= vs.len(),
            rest_values@ == vs.subrange(0, rest_values@.len() as int),
            rest_randomness@ == rs.subrange(0, rest_randomness@.len() as int),
            reversed@.len() == vs.len() - rest_values@.len(),
            forall|j: int| rest_values@.len() <= j < vs.len() ==> vs[j].0@ == rs[j].0@,
            forall|k: int| 0 <= k < reversed@.len() ==> ((#[trigger] reversed@[k]).0@, reversed@[k].1, reversed@[k].2)
                == paired_inputs(vs, rs)[vs.len() - 1 - k],
        decreases rest_values@.len(),
    {
        let n = rest_values.len();
        let (name, value) = rest_values.pop().unwrap();
        let (other, rand) = rest_randomness.pop().unwrap();
        assert(rest_values@ =~= vs.subrange(0, rest_values@.len() as int));
        assert(rest_randomness@ =~= rs.subrange(0, rest_randomness@.len() as int));
        let same = name == other;
        if !same {
            assert(vs[n - 1].0@ != rs[n - 1].0@);
            assert(!inputs_correspond(vs, rs));
            return Err(WalletError::SignatureVerificationMismatch);
        }
        reversed.push((name, value, rand));
    }
    let mut paired: Vec<(String, V, R)> = Vec::new();
    while reversed.len() > 0
        invariant
            vs.len() == rs.len(),
            reversed@.len() + paired@.len() == vs.len(),
            forall|k: int| 0 <= k < reversed@.len() ==> ((#[trigger] reversed@[k]).0@, reversed@[k].1, reversed@[k].2)
                == paired_inputs(vs, rs)[vs.len() - 1 - k],
            forall|k: int| 0 <= k < paired@.len() ==> ((#[trigger] paired@[k]).0@, paired@[k].1, paired@[k].2)
                == paired_inputs(vs, rs)[k],
        decreases reversed@.len(),
    {
        let entry = reversed.pop().unwrap();
        paired.push(entry);
    }
    Ok(paired)
}

} // verus!
