use vstd::prelude::*;

use snarkvm_console::account::{Address, PrivateKey};
use snarkvm_console::network::Testnet3;

use crate::errors::SetupError;

verus! {

/// The funding identity: the account private key that authorizes transfers
/// and owns the records the locator searches for. Held opaquely: nothing in
/// this crate reads it, it is only carried to the ledger client.
#[derive(Debug)]
#[verifier::external_body]
pub struct FundingKey {
    pub inner: PrivateKey<Testnet3>,
}

/// One recipient of the run: a parsed ledger address, held opaquely and
/// carried to the ledger client.
#[derive(Debug)]
#[verifier::external_body]
pub struct Recipient {
    pub inner: Address<Testnet3>,
}

/// Whether this string is a well-formed private key: whether the base58
/// decode, length, prefix and field checks of the ledger's key format all
/// pass. A function of the characters alone.
pub uninterp spec fn key_parse_ok(s: Seq<char>) -> bool;

/// Whether this string is a well-formed recipient address under the ledger's
/// address format. A function of the characters alone.
pub uninterp spec fn address_parse_ok(s: Seq<char>) -> bool;

/// Relies on `PrivateKey::from_str` (snarkvm console account): a
/// deterministic base58 parse that returns `Ok` exactly on well-formed
/// private key strings.
#[verifier::external_body]
fn parse_private_key_raw(s: &str) -> (r: Option<FundingKey>)
    ensures
        r is Some <==> key_parse_ok(s@),
{
    <PrivateKey<Testnet3> as std::str::FromStr>::from_str(s).ok().map(|inner| FundingKey { inner })
}

/// Relies on `Address::from_str` (snarkvm console types): a deterministic
/// parse that returns `Ok` exactly on well-formed address strings.
#[verifier::external_body]
fn parse_address_raw(s: &str) -> (r: Option<Recipient>)
    ensures
        r is Some <==> address_parse_ok(s@),
{
    <Address<Testnet3> as std::str::FromStr>::from_str(s).ok().map(|inner| Recipient { inner })
}

/// Parses the funding private key. This runs before any ledger interaction:
/// a malformed key aborts startup with `InvalidPrivateKey` and nothing else
/// has happened yet.
pub fn parse_funding_key(s: &str) -> (r: Result<FundingKey, SetupError>)
    ensures
        r is Ok <==> key_parse_ok(s@),
        r is Err ==> r === Err(SetupError::InvalidPrivateKey),
{
    match parse_private_key_raw(s) {
        Some(k) => Ok(k),
        None => Err(SetupError::InvalidPrivateKey),
    }
}

/// Parses the recipient list, one address per line, in file order. The first
/// malformed line aborts startup, naming the offending line; on success every
/// line yielded exactly one address, in order.
pub fn parse_recipients(lines: &Vec<String>) -> (r: Result<Vec<Recipient>, SetupError>)
    ensures
        r is Ok <==> (forall|i: int| 0 <= i < lines@.len() ==> address_parse_ok(lines@[i]@)),
        r matches Ok(v) ==> v@.len() == lines@.len(),
        r matches Err(e) ==> (e matches SetupError::InvalidAddress { line } && line < lines@.len()
            && !address_parse_ok(lines@[line as int]@) && (forall|j: int|
            0 <= j < line ==> address_parse_ok(lines@[j]@))),
{
    let mut out: Vec<Recipient> = Vec::new();
    let mut i: usize = 0;
    while i < lines.len()
        invariant
            i <= lines@.len(),
            out@.len() == i,
            forall|j: int| 0 <= j < i ==> address_parse_ok(lines@[j]@),
        decreases lines@.len() - i,
    {
        match parse_address_raw(lines[i].as_str()) {
            Some(a) => out.push(a),
            None => {
                return Err(SetupError::InvalidAddress { line: i });
            },
        }
        i = i + 1;
    }
    Ok(out)
}

} // verus!
