use vstd::prelude::*;

use crate::encoding::{decode_hex, hex_decoded};
use crate::error::WalletError;
use crate::policy::{
    build_policy, first_failed_reveal, reveal_accepted, reveal_error, revealed_part, AttributeList,
    AttributeTag, Policy,
};
use crate::wallet::{get_net, get_wallet, net_named, wallet_from, Net, Wallet, SEED_LENGTH};

verus! {

/// How the anonymity-revoker threshold of an identity request is chosen.
/// Older clients derived it from the number of revokers; the caller picks
/// the rule explicitly.
#[derive(Clone, Copy, Debug, PartialEq, Eq, Structural)]
pub enum ThresholdChoice {
    /// Use exactly this threshold.
    Explicit(u8),
    /// One less than the number of revokers.
    AllButOne,
    /// One less than the number of revokers, but at least one.
    AllButOneAtLeastOne,
}

/// A threshold can be met by the revokers: at least one, at most their number.
pub open spec fn threshold_valid(threshold: int, num_of_ars: nat) -> bool {
    1 <= threshold && threshold <= num_of_ars
}

/// The threshold that a rule gives for a number of revokers.
pub open spec fn chosen_threshold(choice: ThresholdChoice, num_of_ars: nat) -> int {
    match choice {
        ThresholdChoice::Explicit(t) => t as int,
        ThresholdChoice::AllButOne => num_of_ars - 1,
        ThresholdChoice::AllButOneAtLeastOne => if num_of_ars >= 2 {
            num_of_ars - 1
        } else {
            1
        },
    }
}

/// Checks an anonymity-revoker threshold against the number of revokers.
pub fn check_ar_threshold(ar_threshold: u8, num_of_ars: usize) -> (r: Result<u8, WalletError>)
    ensures
        r == (if threshold_valid(ar_threshold as int, num_of_ars as nat) {
            Ok::<u8, WalletError>(ar_threshold)
        } else {
            Err::<u8, WalletError>(WalletError::InvalidThreshold)
        }),
{
    if ar_threshold == 0 || (ar_threshold as usize) > num_of_ars {
        Err(WalletError::InvalidThreshold)
    } else {
        Ok(ar_threshold)
    }
}

/// Resolves a threshold rule for a number of revokers; a threshold that is
/// invalid, or does not fit a byte, is `InvalidThreshold`.
pub fn resolve_ar_threshold(choice: ThresholdChoice, num_of_ars: usize) -> (r: Result<u8, WalletError>)
    ensures
        ({
            let t = chosen_threshold(choice, num_of_ars as nat);
            r == (if threshold_valid(t, num_of_ars as nat) && t <= u8::MAX {
                Ok::<u8, WalletError>(t as u8)
            } else {
                Err::<u8, WalletError>(WalletError::InvalidThreshold)
            })
        }),
{
    let t: usize = match choice {
        ThresholdChoice::Explicit(t) => t as usize,
        ThresholdChoice::AllButOne => {
            if num_of_ars == 0 {
                return Err(WalletError::InvalidThreshold);
            }
            num_of_ars - 1
        },
        ThresholdChoice::AllButOneAtLeastOne => if num_of_ars >= 2 {
            num_of_ars - 1
        } else {
            1
        },
    };
    if t > u8::MAX as usize {
        return Err(WalletError::InvalidThreshold);
    }
    check_ar_threshold(t as u8, num_of_ars)
}

/// The outcome of the checks before an identity-object request is built:
/// the wallet's, then the threshold's.
pub open spec fn id_request_outcome(seed: Seq<char>, net: Seq<char>, ar_threshold: u8, num_of_ars: nat) -> Result<(Seq<u8>, Net), WalletError> {
    match wallet_from(seed, net) {
        Err(e) => Err(e),
        Ok(w) => if threshold_valid(ar_threshold as int, num_of_ars) {
            Ok(w)
        } else {
            Err(WalletError::InvalidThreshold)
        },
    }
}

/// Checks the seed, the network and the revoker threshold of an
/// identity-object request, and gives the wallet to derive its secrets from.
pub fn validate_id_request(seed_as_hex: &str, raw_net: &str, ar_threshold: u8, num_of_ars: usize) -> (r: Result<Wallet, WalletError>)
    ensures
        match r {
            Ok(w) => w.wf() && id_request_outcome(seed_as_hex@, raw_net@, ar_threshold, num_of_ars as nat)
                == Ok::<(Seq<u8>, Net), WalletError>(w@),
            Err(e) => id_request_outcome(seed_as_hex@, raw_net@, ar_threshold, num_of_ars as nat)
                == Err::<(Seq<u8>, Net), WalletError>(e),
        },
{
    let wallet = get_wallet(seed_as_hex, raw_net)?;
    check_ar_threshold(ar_threshold, num_of_ars)?;
    Ok(wallet)
}

/// Checks the seed and the network of a credential request and selects the
/// attributes that it reveals.
pub fn validate_credential_request(
    seed_as_hex: &str,
    raw_net: &str,
    attributes: &AttributeList,
    revealed_attributes: Vec<AttributeTag>,
) -> (r: Result<(Wallet, Policy), WalletError>)
    ensures
        wallet_from(seed_as_hex@, raw_net@) matches Err(e) ==> r == Err::<(Wallet, Policy), WalletError>(e),
        wallet_from(seed_as_hex@, raw_net@) is Ok ==> (r is Ok <==> reveal_accepted(attributes.alist@, revealed_attributes@)),
        r matches Ok((w, p)) ==> {
            &&& w.wf()
            &&& wallet_from(seed_as_hex@, raw_net@) == Ok::<(Seq<u8>, Net), WalletError>(w@)
            &&& p.policy_vec@ == revealed_part(attributes.alist@, revealed_attributes@)
            &&& p.valid_to == attributes.valid_to
            &&& p.created_at == attributes.created_at
        },
        r matches Err(e) ==> wallet_from(seed_as_hex@, raw_net@) is Ok ==> exists|i: int|
            #[trigger] first_failed_reveal(attributes.alist@, revealed_attributes@, i)
                && e == reveal_error(attributes.alist@, revealed_attributes@[i]),
{
    let wallet = get_wallet(seed_as_hex, raw_net)?;
    let policy = build_policy(attributes, revealed_attributes)?;
    Ok((wallet, policy))
}

/// The outcome of the checks before an identity proof is built: the seed's
/// hex and length, then the challenge's hex, then the network.
pub open spec fn id_proof_outcome(seed: Seq<char>, net: Seq<char>, challenge: Seq<char>) -> Result<(Seq<u8>, Net, Seq<u8>), WalletError> {
    match hex_decoded(seed) {
        None => Err(WalletError::DecodeFailure),
        Some(bytes) => if bytes.len() != SEED_LENGTH {
            Err(WalletError::InvalidSeedLength)
        } else {
            match hex_decoded(challenge) {
                None => Err(WalletError::DecodeFailure),
                Some(c) => match net_named(net) {
                    None => Err(WalletError::UnknownNet),
                    Some(n) => Ok((bytes, n, c)),
                },
            }
        },
    }
}

/// Checks the seed, the challenge and the network of an identity-proof
/// request; gives the wallet and the decoded challenge.
pub fn validate_id_proof_request(seed_as_hex: &str, raw_net: &str, challenge: &str) -> (r: Result<(Wallet, Vec<u8>), WalletError>)
    ensures
        match r {
            Ok((w, c)) => w.wf() && id_proof_outcome(seed_as_hex@, raw_net@, challenge@)
                == Ok::<(Seq<u8>, Net, Seq<u8>), WalletError>((w.seed@, w.net, c@)),
            Err(e) => id_proof_outcome(seed_as_hex@, raw_net@, challenge@)
                == Err::<(Seq<u8>, Net, Seq<u8>), WalletError>(e),
        },
{
    let seed = decode_hex(seed_as_hex)?;
    if seed.len() != SEED_LENGTH {
        return Err(WalletError::InvalidSeedLength);
    }
    let challenge_decoded = decode_hex(challenge)?;
    let net = get_net(raw_net)?;
    Ok((Wallet { seed, net }, challenge_decoded))
}

/// A seed that decodes to any length but `SEED_LENGTH` bytes is rejected as
/// such by every entry point that takes one, whatever the other inputs.
pub proof fn lemma_seed_length_rejected(
    seed: Seq<char>,
    net: Seq<char>,
    challenge: Seq<char>,
    ar_threshold: u8,
    num_of_ars: nat,
)
    requires
        hex_decoded(seed) is Some,
        hex_decoded(seed)->0.len() != SEED_LENGTH,
    ensures
        wallet_from(seed, net) == Err::<(Seq<u8>, Net), WalletError>(WalletError::InvalidSeedLength),
        id_request_outcome(seed, net, ar_threshold, num_of_ars)
            == Err::<(Seq<u8>, Net), WalletError>(WalletError::InvalidSeedLength),
        id_proof_outcome(seed, net, challenge)
            == Err::<(Seq<u8>, Net, Seq<u8>), WalletError>(WalletError::InvalidSeedLength),
{
}

} // verus!
