use vstd::prelude::*;

use std::collections::BTreeMap;

use crate::error::WalletError;

verus! {

/// The tag of an identity attribute.
pub type AttributeTag = u8;

/// A calendar month, as identity objects date their validity.
#[derive(Clone, Copy, Debug, PartialEq, Eq, Structural)]
pub struct YearMonth {
    pub year: u16,
    pub month: u8,
}

/// The attributes that an identity provider attested, with their validity window.
pub struct AttributeList {
    pub valid_to: YearMonth,
    pub created_at: YearMonth,
    pub alist: BTreeMap<AttributeTag, String>,
}

/// The attributes that a credential reveals, with the list's validity window.
pub struct Policy {
    pub valid_to: YearMonth,
    pub created_at: YearMonth,
    pub policy_vec: BTreeMap<AttributeTag, String>,
}

/// The tag at position `i` cannot be revealed: it is not in the list, or an
/// earlier position already asked for it.
pub open spec fn reveal_fails_at(alist: Map<AttributeTag, String>, tags: Seq<AttributeTag>, i: int) -> bool {
    !alist.contains_key(tags[i]) || tags.subrange(0, i).contains(tags[i])
}

/// Every requested tag is in the list, and none is requested twice.
pub open spec fn reveal_accepted(alist: Map<AttributeTag, String>, tags: Seq<AttributeTag>) -> bool {
    forall|i: int| 0 <= i < tags.len() ==> !#[trigger] reveal_fails_at(alist, tags, i)
}

/// Position `i` is the first one whose tag cannot be revealed.
pub open spec fn first_failed_reveal(alist: Map<AttributeTag, String>, tags: Seq<AttributeTag>, i: int) -> bool {
    &&& 0 <= i < tags.len()
    &&& reveal_fails_at(alist, tags, i)
    &&& forall|j: int| 0 <= j < i ==> !#[trigger] reveal_fails_at(alist, tags, j)
}

/// The error for a tag that cannot be revealed.
pub open spec fn reveal_error(alist: Map<AttributeTag, String>, tag: AttributeTag) -> WalletError {
    if !alist.contains_key(tag) {
        WalletError::UnknownAttribute
    } else {
        WalletError::DuplicateReveal
    }
}

/// The revealed part of an attribute list: the entries of the requested tags.
pub open spec fn revealed_part(alist: Map<AttributeTag, String>, tags: Seq<AttributeTag>) -> Map<AttributeTag, String> {
    alist.restrict(tags.to_set())
}

/// Selects the attributes to reveal. Fails at the first tag that is not in the
/// list (`UnknownAttribute`) or that an earlier position already asked for
/// (`DuplicateReveal`); otherwise the policy holds exactly the requested
/// entries and the list's validity window.
pub fn build_policy(attributes: &AttributeList, revealed_attributes: Vec<AttributeTag>) -> (r: Result<Policy, WalletError>)
    ensures
        r is Ok <==> reveal_accepted(attributes.alist@, revealed_attributes@),
        r matches Ok(p) ==> {
            &&& p.policy_vec@ == revealed_part(attributes.alist@, revealed_attributes@)
            &&& p.valid_to == attributes.valid_to
            &&& p.created_at == attributes.created_at
        },
        r matches Err(e) ==> exists|i: int|
            #[trigger] first_failed_reveal(attributes.alist@, revealed_attributes@, i)
                && e == reveal_error(attributes.alist@, revealed_attributes@[i]),
{
    let ghost alist = attributes.alist@;
    let ghost tags = revealed_attributes@;
    let mut policy_vec: BTreeMap<AttributeTag, String> = BTreeMap::new();
    let mut i: usize = 0;
    while i < revealed_attributes.len()
        invariant
            0 <= i <= tags.len(),
            tags == revealed_attributes@,
            alist == attributes.alist@,
            forall|j: int| 0 <= j < i ==> !#[trigger] reveal_fails_at(alist, tags, j),
            policy_vec@ == revealed_part(alist, tags.subrange(0, i as int)),
        decreases tags.len() - i,
    {
        let tag = revealed_attributes[i];
        assert(tags.subrange(0, i as int + 1) == tags.subrange(0, i as int).push(tag));
        match attributes.alist.get(&tag) {
            Some(att) => {
                let known = policy_vec.contains_key(&tag);
                if known {
                    proof {
                        let k = choose|k: int| 0 <= k < i && tags[k] == tag;
                        assert(tags.subrange(0, i as int)[k] == tag);
                        assert(first_failed_reveal(alist, tags, i as int));
                    }
                    return Err(WalletError::DuplicateReveal);
                }
                assert(!tags.subrange(0, i as int).contains(tag));
                policy_vec.insert(tag, att.clone());
                proof {
                    let before = tags.subrange(0, i as int);
                    let after = tags.subrange(0, i as int + 1);
                    assert forall|k: AttributeTag| #[trigger] after.to_set().contains(k) <==> before.to_set().contains(k) || k == tag by {
                        if after.contains(k) && k != tag {
                            let m = choose|m: int| 0 <= m < after.len() && after[m] == k;
                            assert(before[m] == k);
                        }
                        if k == tag {
                            assert(after[i as int] == tag);
                        }
                        if before.contains(k) {
                            let m = choose|m: int| 0 <= m < before.len() && before[m] == k;
                            assert(after[m] == k);
                        }
                    }
                    assert(after.to_set() =~= before.to_set().insert(tag));
                }
                assert(policy_vec@ =~= revealed_part(alist, tags.subrange(0, i as int + 1)));
            },
            None => {
                assert(first_failed_reveal(alist, tags, i as int));
                return Err(WalletError::UnknownAttribute);
            },
        }
        i = i + 1;
    }
    assert(tags.subrange(0, tags.len() as int) == tags);
    Ok(Policy { valid_to: attributes.valid_to, created_at: attributes.created_at, policy_vec })
}

/// An accepted revelation request never repeats a tag: the policy holds one
/// entry per requested tag, and each of its entries is in the attribute list
/// with the same value.
pub proof fn lemma_policy_invariants(alist: Map<AttributeTag, String>, tags: Seq<AttributeTag>)
    requires
        alist.dom().finite(),
        reveal_accepted(alist, tags),
    ensures
        tags.no_duplicates(),
        revealed_part(alist, tags).dom() == tags.to_set(),
        revealed_part(alist, tags).len() == tags.len(),
        forall|k: AttributeTag| #[trigger] revealed_part(alist, tags).contains_key(k) ==> {
            &&& alist.contains_key(k)
            &&& revealed_part(alist, tags)[k] == alist[k]
        },
{
    assert forall|i: int, j: int| 0 <= i < tags.len() && 0 <= j < tags.len() && i != j implies tags[i] != tags[j] by {
        let (lo, hi) = if i < j { (i, j) } else { (j, i) };
        assert(!reveal_fails_at(alist, tags, hi));
        assert(tags.subrange(0, hi)[lo] == tags[lo]);
    }
    assert forall|k: AttributeTag| tags.to_set().contains(k) implies alist.contains_key(k) by {
        let m = choose|m: int| 0 <= m < tags.len() && tags[m] == k;
        assert(!reveal_fails_at(alist, tags, m));
    }
    assert(revealed_part(alist, tags).dom() =~= tags.to_set());
    tags.unique_seq_to_set();
}

} // verus!
