use vstd::prelude::*;

use crate::encoding::{decode_hex, hex_decoded};
use crate::error::WalletError;

verus! {

/// The number of bytes in a wallet seed.
pub const SEED_LENGTH: usize = 64;

/// The network whose derivation-path prefix a wallet uses.
#[derive(Clone, Copy, Debug, PartialEq, Eq, Structural)]
pub enum Net {
    Mainnet,
    Testnet,
}

/// The network that a selector names: exactly `Mainnet` or `Testnet`.
pub open spec fn net_named(s: Seq<char>) -> Option<Net> {
    if s == "Mainnet"@ {
        Some(Net::Mainnet)
    } else if s == "Testnet"@ {
        Some(Net::Testnet)
    } else {
        None
    }
}

/// A seed and the network it derives keys for.
pub struct Wallet {
    pub seed: Vec<u8>,
    pub net: Net,
}

impl View for Wallet {
    type V = (Seq<u8>, Net);

    open spec fn view(&self) -> (Seq<u8>, Net) {
        (self.seed@, self.net)
    }
}

impl Wallet {
    /// A wallet holds a seed of exactly `SEED_LENGTH` bytes.
    pub open spec fn wf(&self) -> bool {
        self.seed@.len() == SEED_LENGTH
    }
}

/// The wallet that a hex seed and a network selector describe, or the first
/// reason why they describe none: malformed hex, then a seed of the wrong
/// length, then an unknown network.
pub open spec fn wallet_from(seed: Seq<char>, net: Seq<char>) -> Result<(Seq<u8>, Net), WalletError> {
    match hex_decoded(seed) {
        None => Err(WalletError::DecodeFailure),
        Some(bytes) => if bytes.len() != SEED_LENGTH {
            Err(WalletError::InvalidSeedLength)
        } else {
            match net_named(net) {
                None => Err(WalletError::UnknownNet),
                Some(n) => Ok((bytes, n)),
            }
        },
    }
}

/// Whether two strings hold the same characters.
fn same_text(a: &str, b: &str) -> (r: bool)
    ensures
        r == (a@ == b@),
{
    a.to_owned() == b.to_owned()
}

/// Parses a network selector; the match is exact and case-sensitive.
pub fn get_net(net: &str) -> (r: Result<Net, WalletError>)
    ensures
        match net_named(net@) {
            Some(n) => r == Ok::<Net, WalletError>(n),
            None => r == Err::<Net, WalletError>(WalletError::UnknownNet),
        },
{
    if same_text(net, "Mainnet") {
        Ok(Net::Mainnet)
    } else if same_text(net, "Testnet") {
        Ok(Net::Testnet)
    } else {
        Err(WalletError::UnknownNet)
    }
}

/// Builds a wallet from a hex-encoded seed and a network selector.
pub fn get_wallet(seed_as_hex: &str, raw_net: &str) -> (r: Result<Wallet, WalletError>)
    ensures
        match r {
            Ok(w) => w.wf() && wallet_from(seed_as_hex@, raw_net@) == Ok::<(Seq<u8>, Net), WalletError>(w@),
            Err(e) => wallet_from(seed_as_hex@, raw_net@) == Err::<(Seq<u8>, Net), WalletError>(e),
        },
{
    let seed = decode_hex(seed_as_hex)?;
    if seed.len() != SEED_LENGTH {
        return Err(WalletError::InvalidSeedLength);
    }
    let net = get_net(raw_net)?;
    Ok(Wallet { seed, net })
}

} // verus!
