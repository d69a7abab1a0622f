//! Asset identifiers: the 32-byte addresses by which the ledger names a token.

use solana_sdk::pubkey::Pubkey;
use std::str::FromStr;
use vstd::prelude::*;

verus! {

/// Number of bytes in an address.
pub const ADDRESS_BYTES: usize = 32;

/// The address of a token on the ledger.
#[derive(Clone, Copy, Debug, PartialEq, Eq)]
pub struct AssetId {
    /// The address as the ledger stores it.
    pub bytes: [u8; 32],
}

/// The bytes that the ledger's address parser reads from `text`, or `None`
/// where it rejects the text.
pub uninterp spec fn address_bytes(text: Seq<char>) -> Option<Seq<u8>>;

/// The error of the ledger's address parser, carried through unread.
#[verifier::external_type_specification]
#[verifier::external_body]
pub struct ExParsePubkeyError(solana_sdk::pubkey::ParsePubkeyError);

/// Parses a textual address with `Pubkey::from_str` of `solana_sdk`.
///
/// The parser is a function of the text alone. The contract names what it
/// returns and claims nothing else: the 32 bytes of the key on success, an
/// error exactly where the parser rejects the text.
#[verifier::external_body]
fn parse_address(text: &str) -> (parsed: Result<[u8; 32], solana_sdk::pubkey::ParsePubkeyError>)
    ensures
        match parsed {
            Ok(bytes) => address_bytes(text@) == Some(bytes@),
            Err(_) => address_bytes(text@) is None,
        },
{
    match Pubkey::from_str(text) {
        Ok(key) => Ok(key.to_bytes()),
        Err(error) => Err(error),
    }
}

impl View for AssetId {
    type V = Seq<u8>;

    open spec fn view(&self) -> Seq<u8> {
        self.bytes@
    }
}

impl AssetId {
    /// Wraps the 32 bytes of an address.
    pub fn from_bytes(bytes: [u8; 32]) -> (id: AssetId)
        ensures
            id.bytes == bytes,
    {
        AssetId { bytes }
    }

    /// Parses a textual address.
    pub fn parse(text: &str) -> (id: Option<AssetId>)
        ensures
            match id {
                Some(asset) => address_bytes(text@) == Some(asset@),
                None => address_bytes(text@) is None,
            },
    {
        match parse_address(text) {
            Ok(bytes) => Some(AssetId { bytes }),
            Err(_) => None,
        }
    }

    /// Whether two identifiers name the same asset.
    pub fn same(&self, other: &AssetId) -> (equal: bool)
        ensures
            equal == (self@ == other@),
    {
        let mut index: usize = 0;
        while index < ADDRESS_BYTES
            invariant
                index <= ADDRESS_BYTES,
                forall|j: int| 0 <= j < index ==> self.bytes@[j] == other.bytes@[j],
            decreases ADDRESS_BYTES - index,
        {
            if self.bytes[index] != other.bytes[index] {
                return false;
            }
            index += 1;
        }
        assert(self.bytes@ =~= other.bytes@);
        true
    }
}

} // verus!
