//! Startup inputs: the deployer address and the init code hash, parsed from
//! text. A malformed input is a configuration error and no search begins.

use vstd::prelude::*;
use crate::oracle::keccak_of;
use crate::oracle::init_code_hash;

verus! {

/// The 20 bytes that an address text denotes, if it is one.
pub uninterp spec fn address_parse(text: Seq<char>) -> Option<Seq<u8>>;

/// The 32 bytes that a hash text denotes, if it is one.
pub uninterp spec fn hash_parse(text: Seq<char>) -> Option<Seq<u8>>;

/// The bytes that a hex text (with or without `0x`) denotes, if it is one.
pub uninterp spec fn hex_decoded(text: Seq<char>) -> Option<Seq<u8>>;

/// Relies on `<ethers_core::types::Address as FromStr>::from_str`: an optional
/// `0x`, then 40 hex digits in either case; spaces, tabs and line breaks
/// between digits are skipped.
#[verifier::external_body]
fn address_from_str(text: &str) -> (r: Option<[u8; 20]>)
    ensures
        match r {
            Some(b) => address_parse(text@) == Some(b@),
            None => address_parse(text@) is None,
        },
{
    match <ethers_core::types::Address as std::str::FromStr>::from_str(text) {
        Ok(a) => Some(a.0),
        Err(_) => None,
    }
}

/// Relies on `<ethers_core::types::H256 as FromStr>::from_str`: an optional
/// `0x`, then 64 hex digits in either case; spaces, tabs and line breaks
/// between digits are skipped.
#[verifier::external_body]
fn hash_from_str(text: &str) -> (r: Option<[u8; 32]>)
    ensures
        match r {
            Some(b) => hash_parse(text@) == Some(b@),
            None => hash_parse(text@) is None,
        },
{
    match <ethers_core::types::H256 as std::str::FromStr>::from_str(text) {
        Ok(h) => Some(h.0),
        Err(_) => None,
    }
}

/// Relies on `ethers_core::utils::hex::decode`: a text of odd length is
/// refused; otherwise an optional `0x` or `0X`, then pairs of hex digits in
/// either case.
#[verifier::external_body]
fn hex_decode(text: &str) -> (r: Option<Vec<u8>>)
    ensures
        match r {
            Some(b) => hex_decoded(text@) == Some(b@),
            None => hex_decoded(text@) is None,
        },
{
    match ethers_core::utils::hex::decode(text) {
        Ok(b) => Some(b),
        Err(_) => None,
    }
}

/// A startup input that cannot be used.
#[derive(Clone, Copy, Debug, PartialEq, Eq, Structural)]
pub enum ConfigError {
    /// The deployer is not an address.
    InvalidDeployer,
    /// The given code hash is not a 32-byte hex value.
    InvalidCodeHash,
    /// No code hash was given and the bytecode is not hex.
    InvalidBytecode,
}

/// Parses the deployer address.
pub fn parse_deployer(text: &str) -> (r: Result<[u8; 20], ConfigError>)
    ensures
        match address_parse(text@) {
            Some(b) => r matches Ok(a) && a@ == b,
            None => r == Err::<[u8; 20], ConfigError>(ConfigError::InvalidDeployer),
        },
{
    match address_from_str(text) {
        Some(a) => Ok(a),
        None => Err(ConfigError::InvalidDeployer),
    }
}

/// The init code hash: the given hash when there is one, else the digest of
/// the bytecode.
pub open spec fn code_hash_spec(hash_text: Seq<char>, bytecode: Seq<char>) -> Result<Seq<u8>, ConfigError> {
    if hash_text.len() > 0 {
        match hash_parse(hash_text) {
            Some(h) => Ok(h),
            None => Err(ConfigError::InvalidCodeHash),
        }
    } else {
        match hex_decoded(bytecode) {
            Some(code) => Ok(keccak_of(code)),
            None => Err(ConfigError::InvalidBytecode),
        }
    }
}

/// Takes the code hash from `hash_text` if it is not empty; otherwise hashes
/// the bytecode given as hex.
pub fn resolve_code_hash(hash_text: &str, bytecode: &str) -> (r: Result<[u8; 32], ConfigError>)
    ensures
        match code_hash_spec(hash_text@, bytecode@) {
            Ok(h) => r matches Ok(x) && x@ == h,
            Err(e) => r == Err::<[u8; 32], ConfigError>(e),
        },
{
    if !hash_text.is_empty() {
        match hash_from_str(hash_text) {
            Some(h) => Ok(h),
            None => Err(ConfigError::InvalidCodeHash),
        }
    } else {
        match hex_decode(bytecode) {
            Some(code) => Ok(init_code_hash(&code)),
            None => Err(ConfigError::InvalidBytecode),
        }
    }
}

} // verus!
