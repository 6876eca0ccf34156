//! Domain types shared by the analyzer and the formatters.

use vstd::prelude::*;
use crate::address::ParsedAddress;

verus! {

/// The checksum algorithm validated during parsing.
#[derive(Debug, Clone, Copy, PartialEq, Eq, Structural)]
pub enum ChecksumType {
    /// Base58Check (legacy P2PKH/P2SH).
    Base58Check,
    /// Bech32 checksum (SegWit v0).
    Bech32,
    /// Bech32m checksum (SegWit v1+ e.g. Taproot).
    Bech32m,
}

/// The kinds of address the analyzer recognises.
#[derive(Debug, Clone, Copy, PartialEq, Eq, Structural)]
pub enum AddressType {
    /// Pay to pubkey hash.
    P2pkh,
    /// Pay to script hash.
    P2sh,
    /// Pay to witness pubkey hash.
    P2wpkh,
    /// Pay to witness script hash.
    P2wsh,
    /// Pay to taproot.
    P2tr,
    /// Pay to anchor.
    P2a,
    /// A standard kind that this version of the analyzer does not name.
    Other,
}

/// The networks an address can belong to.
#[derive(Debug, Clone, Copy, PartialEq, Eq, Structural)]
pub enum Network {
    /// Mainnet.
    Bitcoin,
    /// Testnet (version 3).
    Testnet,
    /// Testnet (version 4).
    Testnet4,
    /// Signet.
    Signet,
    /// Regtest.
    Regtest,
}

impl ChecksumType {
    /// The name of the checksum algorithm.
    pub open spec fn spec_label(self) -> Seq<char> {
        match self {
            ChecksumType::Base58Check => "Base58Check"@,
            ChecksumType::Bech32 => "Bech32"@,
            ChecksumType::Bech32m => "Bech32m"@,
        }
    }

    /// The name of the checksum algorithm, as the reports print it.
    pub fn label(&self) -> (r: String)
        ensures
            r@ == self.spec_label(),
    {
        match self {
            ChecksumType::Base58Check => String::from_str("Base58Check"),
            ChecksumType::Bech32 => String::from_str("Bech32"),
            ChecksumType::Bech32m => String::from_str("Bech32m"),
        }
    }
}

/// The mathematical content of an `AddressAnalysis`: each text as its
/// sequence of characters, the parsed address as its text.
#[verifier::ext_equal]
pub struct AnalysisView {
    pub input: Seq<char>,
    pub is_valid: bool,
    pub error: Option<Seq<char>>,
    pub address: Option<Seq<char>>,
    pub address_type: Option<AddressType>,
    pub networks: Seq<Network>,
    pub script_pubkey_hex: Option<Seq<char>>,
    pub script_asm: Option<Seq<char>>,
    pub witness_version: Option<u8>,
    pub witness_program_hex: Option<Seq<char>>,
    pub payload_explanation: Option<Seq<char>>,
    pub checksum: Option<ChecksumType>,
}

/// Structured analysis report for a Bitcoin address.
#[derive(Debug, Clone)]
pub struct AddressAnalysis {
    /// The text that was analyzed.
    pub input: String,
    /// Whether parsing/validation succeeded.
    pub is_valid: bool,
    /// Error message when invalid.
    pub error: Option<String>,
    /// Parsed address when valid.
    pub address: Option<ParsedAddress>,
    /// Address type (P2PKH, P2TR, etc.) if recognized.
    pub address_type: Option<AddressType>,
    /// All networks the address is valid for.
    pub networks: Vec<Network>,
    /// ScriptPubKey in hex.
    pub script_pubkey_hex: Option<String>,
    /// ScriptPubKey in ASM (opcode-like format).
    pub script_asm: Option<String>,
    /// Witness version (0 to 16), if SegWit.
    pub witness_version: Option<u8>,
    /// Witness program (payload) in hex.
    pub witness_program_hex: Option<String>,
    /// Human explanation of witness payload (pubkey hash, script hash, etc.).
    pub payload_explanation: Option<String>,
    /// Checksum algorithm validated by parsing.
    pub checksum: Option<ChecksumType>,
}

/// The view of an optional parsed address: its text.
pub open spec fn address_text(a: Option<ParsedAddress>) -> Option<Seq<char>> {
    match a {
        Some(p) => Some(p@),
        None => None,
    }
}

impl View for AddressAnalysis {
    type V = AnalysisView;

    open spec fn view(&self) -> AnalysisView {
        AnalysisView {
            input: self.input@,
            is_valid: self.is_valid,
            error: self.error.deep_view(),
            address: address_text(self.address),
            address_type: self.address_type,
            networks: self.networks@,
            script_pubkey_hex: self.script_pubkey_hex.deep_view(),
            script_asm: self.script_asm.deep_view(),
            witness_version: self.witness_version,
            witness_program_hex: self.witness_program_hex.deep_view(),
            payload_explanation: self.payload_explanation.deep_view(),
            checksum: self.checksum,
        }
    }
}

impl AnalysisView {
    /// The report of an input that did not parse, with the given message.
    pub open spec fn invalid_report(input: Seq<char>, error: Seq<char>) -> AnalysisView {
        AnalysisView {
            input,
            is_valid: false,
            error: Some(error),
            address: None,
            address_type: None,
            networks: Seq::empty(),
            script_pubkey_hex: None,
            script_asm: None,
            witness_version: None,
            witness_program_hex: None,
            payload_explanation: None,
            checksum: None,
        }
    }

    /// What every report holds: a valid one has an address, a script and no
    /// error; an invalid one has an error and nothing else; the witness
    /// version, program and explanation come together, with a version of at
    /// most 16.
    pub open spec fn well_formed(self) -> bool {
        &&& self.is_valid <==> self.error is None
        &&& self.is_valid ==> {
            &&& self.address is Some
            &&& self.script_pubkey_hex is Some
            &&& self.script_asm is Some
        }
        &&& !self.is_valid ==> self == AnalysisView::invalid_report(self.input, self.error->0)
        &&& self.witness_version is Some <==> self.witness_program_hex is Some
        &&& self.witness_version is Some <==> self.payload_explanation is Some
        &&& self.witness_version matches Some(v) ==> v <= 16
    }
}

impl AddressAnalysis {
    /// Construct a valid analysis result.
    pub fn valid(
        input: String,
        address: ParsedAddress,
        address_type: Option<AddressType>,
        networks: Vec<Network>,
        script_pubkey_hex: String,
        script_asm: String,
        witness_version: Option<u8>,
        witness_program_hex: Option<String>,
        payload_explanation: Option<String>,
        checksum: Option<ChecksumType>,
    ) -> (r: Self)
        ensures
            r@ == (AnalysisView {
                input: input@,
                is_valid: true,
                error: None,
                address: Some(address@),
                address_type,
                networks: networks@,
                script_pubkey_hex: Some(script_pubkey_hex@),
                script_asm: Some(script_asm@),
                witness_version,
                witness_program_hex: witness_program_hex.deep_view(),
                payload_explanation: payload_explanation.deep_view(),
                checksum,
            }),
    {
        AddressAnalysis {
            input,
            is_valid: true,
            error: None,
            address: Some(address),
            address_type,
            networks,
            script_pubkey_hex: Some(script_pubkey_hex),
            script_asm: Some(script_asm),
            witness_version,
            witness_program_hex,
            payload_explanation,
            checksum,
        }
    }

    /// Construct an invalid analysis result.
    pub fn invalid(input: &str, error: String) -> (r: Self)
        ensures
            r@ == AnalysisView::invalid_report(input@, error@),
            r@.well_formed(),
    {
        AddressAnalysis {
            input: String::from_str(input),
            is_valid: false,
            error: Some(error),
            address: None,
            address_type: None,
            networks: Vec::new(),
            script_pubkey_hex: None,
            script_asm: None,
            witness_version: None,
            witness_program_hex: None,
            payload_explanation: None,
            checksum: None,
        }
    }
}

} // verus!
