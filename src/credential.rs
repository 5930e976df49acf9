use vstd::prelude::*;

use std::collections::BTreeMap;

use crate::encoding::{decode_hex, hex_decoded};
use crate::error::WalletError;
use crate::policy::AttributeTag;

verus! {

/// The number of key indices a credential has: indices are bytes.
pub const MAX_KEYS: usize = 256;

/// The number of bytes in an account-ownership signature.
pub const SIGNATURE_LENGTH: usize = 64;

/// Each item keyed by its position in the list: index `k` holds item `k`.
pub open spec fn positional<T>(items: Seq<T>) -> Map<u8, T> {
    Map::new(|k: u8| (k as int) < items.len(), |k: u8| items[k as int])
}

/// Keys a list by position, from index 0 on; more items than key indices is
/// `TooManyKeys`.
pub fn build_key_map<T>(keys: Vec<T>) -> (r: Result<BTreeMap<u8, T>, WalletError>)
    ensures
        keys@.len() > MAX_KEYS ==> r == Err::<BTreeMap<u8, T>, WalletError>(WalletError::TooManyKeys),
        keys@.len() <= MAX_KEYS ==> (r matches Ok(m) && m@ == positional(keys@)),
{
    if keys.len() > MAX_KEYS {
        return Err(WalletError::TooManyKeys);
    }
    let ghost all = keys@;
    let mut rest = keys;
    let mut map: BTreeMap<u8, T> = BTreeMap::new();
    while rest.len() > 0
        invariant
            all.len() <= MAX_KEYS,
            rest@.len() <= all.len(),
            rest@ == all.subrange(0, rest@.len() as int),
            map@ == Map::new(
                |k: u8| rest@.len() <= (k as int) < all.len(),
                |k: u8| all[k as int],
            ),
        decreases rest@.len(),
    {
        let ghost before = map@;
        let index = rest.len() - 1;
        let item = rest.pop().unwrap();
        assert(item == all[index as int]);
        assert(rest@ =~= all.subrange(0, rest@.len() as int));
        let key = index as u8;
        assert(key as int == index as int);
        map.insert(key, item);
        assert(map@ =~= Map::new(
            |k: u8| rest@.len() <= (k as int) < all.len(),
            |k: u8| all[k as int],
        ));
    }
    assert(map@ =~= positional(all));
    Ok(map)
}

/// A signature in hex that decodes to exactly `SIGNATURE_LENGTH` bytes.
pub open spec fn signature_valid(s: Seq<char>) -> bool {
    hex_decoded(s) matches Some(b) && b.len() == SIGNATURE_LENGTH
}

/// Decodes the account-ownership signatures, given in hex in the order of the
/// credential's keys, and keys each by its position. Too many signatures is
/// `TooManyKeys`; otherwise one that is not a hex-encoded signature is
/// `DecodeFailure`.
pub fn build_signature_map(signatures: &Vec<String>) -> (r: Result<BTreeMap<u8, Vec<u8>>, WalletError>)
    ensures
        signatures@.len() > MAX_KEYS ==> r == Err::<BTreeMap<u8, Vec<u8>>, WalletError>(WalletError::TooManyKeys),
        signatures@.len() <= MAX_KEYS ==> (r is Ok <==> forall|i: int| 0 <= i < signatures@.len() ==> #[trigger] signature_valid(signatures@[i]@)),
        signatures@.len() <= MAX_KEYS ==> (r is Err ==> r == Err::<BTreeMap<u8, Vec<u8>>, WalletError>(WalletError::DecodeFailure)),
        r matches Ok(m) ==> {
            &&& m@.dom() == positional(signatures@).dom()
            &&& forall|k: u8| #[trigger] m@.contains_key(k) ==> Some(m@[k]@) == hex_decoded(signatures@[k as int]@)
        },
{
    if signatures.len() > MAX_KEYS {
        return Err(WalletError::TooManyKeys);
    }
    let mut decoded: Vec<Vec<u8>> = Vec::new();
    let mut i: usize = 0;
    while i < signatures.len()
        invariant
            signatures@.len() <= MAX_KEYS,
            0 <= i <= signatures@.len(),
            decoded@.len() == i,
            forall|j: int| 0 <= j < i ==> #[trigger] signature_valid(signatures@[j]@),
            forall|j: int| 0 <= j < i ==> Some(#[trigger] decoded@[j]@) == hex_decoded(signatures@[j]@),
        decreases signatures@.len() - i,
    {
        let bytes = match decode_hex(signatures[i].as_str()) {
            Ok(bytes) => bytes,
            Err(_) => {
                assert(!signature_valid(signatures@[i as int]@));
                return Err(WalletError::DecodeFailure);
            },
        };
        if bytes.len() != SIGNATURE_LENGTH {
            assert(!signature_valid(signatures@[i as int]@));
            return Err(WalletError::DecodeFailure);
        }
        decoded.push(bytes);
        i = i + 1;
    }
    let ghost all = decoded@;
    let map = build_key_map(decoded)?;
    assert forall|k: u8| #[trigger] map@.contains_key(k) implies Some(map@[k]@) == hex_decoded(signatures@[k as int]@) by {
        assert(map@[k] == all[k as int]);
    }
    assert(map@.dom() =~= positional(signatures@).dom());
    Ok(map)
}

/// Keying by position tells lists apart: two lists of at most `MAX_KEYS`
/// items that differ, in an item or in length (one signature left out
/// shifts every later index), give different maps.
pub proof fn lemma_positional_injective<T>(a: Seq<T>, b: Seq<T>)
    requires
        a.len() <= MAX_KEYS,
        b.len() <= MAX_KEYS,
        a != b,
    ensures
        positional(a) != positional(b),
{
    if positional(a) == positional(b) {
        if a.len() != b.len() {
            let n = if a.len() < b.len() { a.len() } else { b.len() };
            let k = n as u8;
            assert(positional(a).contains_key(k) != positional(b).contains_key(k));
        } else {
            assert forall|i: int| 0 <= i < a.len() implies a[i] == b[i] by {
                let k = i as u8;
                assert(positional(a)[k] == positional(b)[k]);
            }
            assert(a =~= b);
        }
    }
}

/// The commitment randomness supplied for an attribute; a tag without an
/// entry is `MissingAttributeRandomness`.
pub fn attribute_commitment_randomness<R>(supplied: &BTreeMap<AttributeTag, R>, attribute_tag: AttributeTag) -> (r: Result<&R, WalletError>)
    ensures
        supplied@.contains_key(attribute_tag) ==> r == Ok::<&R, WalletError>(&supplied@[attribute_tag]),
        !supplied@.contains_key(attribute_tag) ==> r == Err::<&R, WalletError>(WalletError::MissingAttributeRandomness),
{
    match supplied.get(&attribute_tag) {
        Some(v) => Ok(v),
        None => Err(WalletError::MissingAttributeRandomness),
    }
}

} // verus!
