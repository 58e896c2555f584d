//! Address derivation for the settlement network.  The digest and base58
//! primitives come from outside crates and are named, not restated; the
//! composition around them is verified.

use vstd::prelude::*;
use crate::errors::IrisError;
use sha2::Digest;

verus! {

/// The SHA-256 digest of the input bytes.
pub uninterp spec fn sha256_of(bytes: Seq<u8>) -> Seq<u8>;

/// The RIPEMD-160 digest of the input bytes.
pub uninterp spec fn ripemd160_of(bytes: Seq<u8>) -> Seq<u8>;

/// The base58 rendering (Bitcoin alphabet) of the input bytes.
pub uninterp spec fn base58_of(bytes: Seq<u8>) -> Seq<char>;

/// Relies on sha2::Sha256 through the Digest trait: a 32-byte digest
/// determined by the input bytes alone.
#[verifier::external_body]
fn sha256(bytes: &Vec<u8>) -> (r: Vec<u8>)
    ensures
        r@ == sha256_of(bytes@),
        r@.len() == 32,
{
    sha2::Sha256::digest(bytes.as_slice()).to_vec()
}

/// Relies on ripemd::Ripemd160 through the Digest trait: a 20-byte digest
/// determined by the input bytes alone.
#[verifier::external_body]
fn ripemd160(bytes: &Vec<u8>) -> (r: Vec<u8>)
    ensures
        r@ == ripemd160_of(bytes@),
        r@.len() == 20,
{
    ripemd::Ripemd160::digest(bytes.as_slice()).to_vec()
}

/// Relies on bs58::encode with its default (Bitcoin) alphabet: the base58
/// text determined by the input bytes alone.
#[verifier::external_body]
fn bs58_encode(bytes: &Vec<u8>) -> (r: String)
    ensures
        r@ == base58_of(bytes@),
{
    bs58::encode(bytes.as_slice()).into_string()
}

/// The versioned payload behind a merchant's static address: a testnet
/// version byte, then the RIPEMD-160 of the SHA-256 of the principal bytes.
pub open spec fn spec_address_payload(principal_bytes: Seq<u8>) -> Seq<u8> {
    seq![0x6fu8] + ripemd160_of(sha256_of(principal_bytes))
}

/// The static address derived from a principal: the payload followed by the
/// first four bytes of its double SHA-256 checksum, in base58.
pub open spec fn spec_static_address(principal_bytes: Seq<u8>) -> Seq<char> {
    base58_of(
        spec_address_payload(principal_bytes) + sha256_of(
            sha256_of(spec_address_payload(principal_bytes)),
        ).take(4),
    )
}

/// A derived address together with its derivation path.
#[derive(Debug)]
pub struct BitcoinAddress {
    pub address: String,
    pub derivation_path: Vec<Vec<u8>>,
}

impl BitcoinAddress {
    /// Packs an address string with its derivation path.
    pub fn new(address: String, derivation_path: Vec<Vec<u8>>) -> (r: Self)
        ensures
            r.address == address,
            r.derivation_path == derivation_path,
    {
        BitcoinAddress { address, derivation_path }
    }
}

/// An unspent output observed on the settlement network.
#[derive(Debug)]
pub struct BitcoinUtxo {
    pub outpoint: String,
    pub value: u64,
    pub height: u32,
}

/// Address derivation and chain lookups.
pub struct BitcoinService;

impl BitcoinService {
    /// Derives the merchant's stable receiving address from the bytes of
    /// its principal: version byte, RIPEMD-160 of SHA-256, four checksum
    /// bytes of a double SHA-256, base58.
    pub fn generate_static_address(principal_bytes: &Vec<u8>) -> (r: String)
        ensures
            r@ == spec_static_address(principal_bytes@),
    {
        let hash = sha256(principal_bytes);
        let ripemd_hash = ripemd160(&hash);
        let mut version_hash: Vec<u8> = Vec::new();
        version_hash.push(0x6f);
        let mut i: usize = 0;
        while i < ripemd_hash.len()
            invariant
                i <= ripemd_hash@.len(),
                version_hash@ == seq![0x6fu8] + ripemd_hash@.take(i as int),
            decreases ripemd_hash@.len() - i,
        {
            version_hash.push(ripemd_hash[i]);
            proof {
                assert(version_hash@ =~= seq![0x6fu8] + ripemd_hash@.take(i + 1));
            }
            i = i + 1;
        }
        proof {
            assert(ripemd_hash@.take(ripemd_hash@.len() as int) =~= ripemd_hash@);
        }
        let checksum1 = sha256(&version_hash);
        let checksum2 = sha256(&checksum1);
        let ghost payload = version_hash@;
        let mut j: usize = 0;
        while j < 4
            invariant
                j <= 4,
                checksum2@.len() == 32,
                checksum2@ == sha256_of(sha256_of(payload)),
                version_hash@ == payload + checksum2@.take(j as int),
            decreases 4 - j,
        {
            version_hash.push(checksum2[j]);
            proof {
                assert(version_hash@ =~= payload + checksum2@.take(j + 1));
            }
            j = j + 1;
        }
        proof {
            assert(payload =~= spec_address_payload(principal_bytes@));
        }
        bs58_encode(&version_hash)
    }

    /// A placeholder network-derived address, until threshold key
    /// derivation is wired in.
    pub fn generate_bitcoin_address() -> (r: Result<BitcoinAddress, IrisError>)
        ensures
            r matches Ok(a) ==> a.address@ == "tb1qtest123456789"@ && a.derivation_path@.len()
                == 0,
            r is Ok,
    {
        let address = String::from_str("tb1qtest123456789");
        Ok(BitcoinAddress::new(address, Vec::new()))
    }

    /// A placeholder balance lookup: no chain access, so zero.
    pub fn get_bitcoin_balance(address: &String) -> (r: Result<u64, IrisError>)
        ensures
            r == Ok::<u64, IrisError>(0u64),
    {
        let _ = address;
        Ok(0)
    }

    /// A placeholder UTXO lookup: no chain access, so none.
    pub fn get_bitcoin_utxos(address: &String) -> (r: Result<Vec<BitcoinUtxo>, IrisError>)
        ensures
            r matches Ok(v) ==> v@.len() == 0,
            r is Ok,
    {
        let _ = address;
        Ok(Vec::new())
    }
}

} // verus!

