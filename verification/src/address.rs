//! The parsed form of an address, and the calls into the `bitcoin` crate
//! that read it.

use vstd::prelude::*;
use std::str::FromStr;
use bitcoin::address::NetworkUnchecked;
use crate::types::{AddressType, Network};

verus! {

/// The address that the `bitcoin` crate parsed, with its network not yet
/// checked: an opaque value that only the calls below read. Only `parse`
/// makes one.
#[verifier::external_body]
#[derive(Debug)]
struct AddressHandle {
    address: bitcoin::Address<NetworkUnchecked>,
}

impl Clone for AddressHandle {
    /// Calls the derived `Clone` of `bitcoin::Address`, which copies the
    /// address field by field.
    ///
    /// Trusted: the copy is the same address.
    #[verifier::external_body]
    fn clone(&self) -> (r: Self)
        ensures
            r == *self,
    {
        AddressHandle { address: self.address.clone() }
    }
}

/// An address that parsed, together with the text it was parsed from.
///
/// Values of this type are made only by parsing, so the address held is
/// always the one that its text denotes; its view is that text.
#[derive(Debug)]
pub struct ParsedAddress {
    text: String,
    handle: AddressHandle,
}

impl Clone for ParsedAddress {
    /// A copy of the parsed address, with the same text.
    fn clone(&self) -> (r: Self)
        ensures
            r@ == self@,
    {
        ParsedAddress { text: self.text.clone(), handle: self.handle.clone() }
    }
}

impl View for ParsedAddress {
    type V = Seq<char>;

    closed spec fn view(&self) -> Seq<char> {
        self.text@
    }
}

/// What parsing a text as an address gives: `None` when it parses, else the
/// message of the parse error.
pub uninterp spec fn parse_error(text: Seq<char>) -> Option<Seq<char>>;

/// Parses `input` with `Address::<NetworkUnchecked>::from_str`.
///
/// Trusted: on success the address is kept with its text; on failure the
/// error's `Display` text is returned. Both are named by `parse_error`.
#[verifier::external_body]
pub(crate) fn parse(input: &str) -> (r: Result<ParsedAddress, String>)
    ensures
        match r {
            Ok(p) => p@ == input@ && parse_error(input@) is None,
            Err(msg) => parse_error(input@) == Some(msg@),
        },
{
    match bitcoin::Address::<NetworkUnchecked>::from_str(input) {
        Ok(address) => Ok(ParsedAddress { text: input.to_string(), handle: AddressHandle { address } }),
        Err(e) => Err(e.to_string()),
    }
}

/// Whether the parsed address is valid for a network
/// (`Address::is_valid_for_network`).
pub uninterp spec fn valid_for_network(text: Seq<char>, network: Network) -> bool;

/// The type of the parsed address (`Address::address_type`).
pub uninterp spec fn address_type_of(text: Seq<char>) -> Option<AddressType>;

/// The bytes of the script that pays to the parsed address
/// (`Address::script_pubkey`).
pub uninterp spec fn script_pubkey_of(text: Seq<char>) -> Seq<u8>;

/// The witness version and program of the parsed address, when it is a
/// SegWit address (`Address::witness_program`).
pub uninterp spec fn witness_program_of(text: Seq<char>) -> Option<(u8, Seq<u8>)>;

/// The opcode listing of a script (`Script::to_asm_string`).
pub uninterp spec fn script_asm_of(script: Seq<u8>) -> Seq<char>;

/// The networks that share a bech32 prefix: mainnet, the test networks
/// (testnet, testnet4, signet), regtest.
pub open spec fn bech32_class(n: Network) -> int {
    match n {
        Network::Bitcoin => 0,
        Network::Testnet | Network::Testnet4 | Network::Signet => 1,
        Network::Regtest => 2,
    }
}

/// The type of a SegWit address, read off its witness version and program.
pub open spec fn segwit_address_type(version: u8, program: Seq<u8>) -> Option<AddressType> {
    if version == 0 && program.len() == 20 {
        Some(AddressType::P2wpkh)
    } else if version == 0 && program.len() == 32 {
        Some(AddressType::P2wsh)
    } else if version == 1 && program.len() == 32 {
        Some(AddressType::P2tr)
    } else if version == 1 && program == seq![78u8, 115u8] {
        Some(AddressType::P2a)
    } else {
        None
    }
}

/// The first byte of the script of a SegWit output: `OP_0` for version 0,
/// `OP_PUSHNUM_1` to `OP_PUSHNUM_16` (0x51 to 0x60) for versions 1 to 16.
pub open spec fn witness_version_opcode(version: u8) -> u8 {
    if version == 0 {
        0
    } else {
        (0x50 + version) as u8
    }
}

/// A P2PKH output script: `OP_DUP OP_HASH160 <20 bytes> OP_EQUALVERIFY
/// OP_CHECKSIG`.
pub open spec fn is_p2pkh_script(script: Seq<u8>) -> bool {
    &&& script.len() == 25
    &&& script.subrange(0, 3) == seq![0x76u8, 0xa9u8, 0x14u8]
    &&& script.subrange(23, 25) == seq![0x88u8, 0xacu8]
}

/// A P2SH output script: `OP_HASH160 <20 bytes> OP_EQUAL`.
pub open spec fn is_p2sh_script(script: Seq<u8>) -> bool {
    &&& script.len() == 23
    &&& script.subrange(0, 2) == seq![0xa9u8, 0x14u8]
    &&& script[22] == 0x87u8
}

/// Calls `Address::is_valid_for_network`.
///
/// Trusted: the answer is named by `valid_for_network`. As the crate's source
/// shows, a legacy address is valid for mainnet only or for every other
/// network, and a SegWit address for exactly the networks of one bech32
/// class; so networks of one class get one answer, an address valid on
/// mainnet is valid nowhere else, a SegWit address valid for one network is
/// valid for just that network's class, and every parsed address is valid on
/// mainnet, testnet or regtest.
#[verifier::external_body]
pub(crate) fn is_valid_for_network(p: &ParsedAddress, n: Network) -> (r: bool)
    ensures
        r == valid_for_network(p@, n),
        forall|m: Network| bech32_class(m) == bech32_class(n) ==> valid_for_network(p@, m) == r,
        witness_program_of(p@) is None ==> forall|m: Network|
            (m == Network::Bitcoin) == (n == Network::Bitcoin) ==> valid_for_network(p@, m) == r,
        r ==> forall|m: Network|
            (m == Network::Bitcoin) != (n == Network::Bitcoin) ==> !valid_for_network(p@, m),
        witness_program_of(p@) is Some && r ==> forall|m: Network|
            valid_for_network(p@, m) == (bech32_class(m) == bech32_class(n)),
        r || valid_for_network(p@, Network::Bitcoin) || valid_for_network(p@, Network::Testnet)
            || valid_for_network(p@, Network::Regtest),
{
    let network = match n {
        Network::Bitcoin => bitcoin::Network::Bitcoin,
        Network::Testnet => bitcoin::Network::Testnet,
        Network::Testnet4 => bitcoin::Network::Testnet4,
        Network::Signet => bitcoin::Network::Signet,
        Network::Regtest => bitcoin::Network::Regtest,
    };
    p.handle.address.is_valid_for_network(network)
}

/// Calls `Address::address_type` (on the address taken as checked).
///
/// Trusted: the type is named by `address_type_of`. As the crate's source
/// shows, an address without a witness program is P2PKH or P2SH, and the type
/// of a SegWit address follows from its witness version and program length.
#[verifier::external_body]
pub(crate) fn address_type(p: &ParsedAddress) -> (r: Option<AddressType>)
    ensures
        r == address_type_of(p@),
        match witness_program_of(p@) {
            None => r == Some(AddressType::P2pkh) || r == Some(AddressType::P2sh),
            Some(w) => r == segwit_address_type(w.0, w.1),
        },
{
    match p.handle.address.assume_checked_ref().address_type() {
        Some(bitcoin::AddressType::P2pkh) => Some(AddressType::P2pkh),
        Some(bitcoin::AddressType::P2sh) => Some(AddressType::P2sh),
        Some(bitcoin::AddressType::P2wpkh) => Some(AddressType::P2wpkh),
        Some(bitcoin::AddressType::P2wsh) => Some(AddressType::P2wsh),
        Some(bitcoin::AddressType::P2tr) => Some(AddressType::P2tr),
        Some(bitcoin::AddressType::P2a) => Some(AddressType::P2a),
        Some(_) => Some(AddressType::Other),
        None => None,
    }
}

/// Calls `Address::script_pubkey` (on the address taken as checked) and
/// returns the script's bytes.
///
/// Trusted: the bytes are named by `script_pubkey_of`. As the crate's
/// source shows (`ScriptBuf::new_p2pkh`, `new_p2sh`,
/// `new_witness_program_unchecked`), a SegWit script is the version opcode,
/// the program's length and the program; a legacy script is the P2PKH or P2SH
/// template, as the address type says.
#[verifier::external_body]
pub(crate) fn script_pubkey(p: &ParsedAddress) -> (r: Vec<u8>)
    ensures
        r@ == script_pubkey_of(p@),
        match witness_program_of(p@) {
            Some(w) => r@ == seq![witness_version_opcode(w.0), w.1.len() as u8] + w.1,
            None => {
                ||| address_type_of(p@) == Some(AddressType::P2pkh) && is_p2pkh_script(r@)
                ||| address_type_of(p@) == Some(AddressType::P2sh) && is_p2sh_script(r@)
            },
        },
{
    p.handle.address.assume_checked_ref().script_pubkey().into_bytes()
}

/// Calls `Address::witness_program` (on the address taken as checked) and
/// returns the version number and the program bytes.
///
/// Trusted: the result is named by `witness_program_of`. As the crate's
/// source shows (`WitnessVersion`, `WitnessProgram::new`), the version is at
/// most 16, the program holds 2 to 40 bytes, and 20 or 32 for version 0.
#[verifier::external_body]
pub(crate) fn witness_program(p: &ParsedAddress) -> (r: Option<(u8, Vec<u8>)>)
    ensures
        match r {
            None => witness_program_of(p@) is None,
            Some(w) => {
                &&& witness_program_of(p@) == Some((w.0, w.1@))
                &&& w.0 <= 16
                &&& 2 <= w.1@.len() <= 40
                &&& w.0 == 0 ==> (w.1@.len() == 20 || w.1@.len() == 32)
            },
        },
{
    match p.handle.address.assume_checked_ref().witness_program() {
        Some(w) => Some((w.version().to_num(), w.program().as_bytes().to_vec())),
        None => None,
    }
}

/// Calls `Script::to_asm_string` on the script with the given bytes.
///
/// Trusted: the listing is named by `script_asm_of`.
#[verifier::external_body]
pub(crate) fn script_asm(script: &[u8]) -> (r: String)
    ensures
        r@ == script_asm_of(script@),
{
    bitcoin::Script::from_bytes(script).to_asm_string()
}

} // verus!
