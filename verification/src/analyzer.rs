//! Core analysis logic for Bitcoin addresses.

use vstd::prelude::*;
use crate::address::{
    address_type, bech32_class, address_type_of, is_valid_for_network, parse, parse_error, script_asm,
    script_asm_of, script_pubkey, script_pubkey_of, valid_for_network, witness_program,
    witness_program_of, witness_version_opcode, is_p2pkh_script, is_p2sh_script, ParsedAddress,
};
use crate::encoding::{lemma_lower_hex_concat, lower_hex, to_lower_hex};
use crate::types::{AddressAnalysis, AddressType, AnalysisView, ChecksumType, Network};

verus! {

/// The networks an address is checked against, in the order they are tried.
pub open spec fn candidate_networks() -> Seq<Network> {
    seq![Network::Bitcoin, Network::Testnet, Network::Signet, Network::Regtest]
}

/// The test "the address with this text is valid for the network".
pub open spec fn valid_for(text: Seq<char>) -> spec_fn(Network) -> bool {
    |n: Network| valid_for_network(text, n)
}

/// The candidate networks that the address is valid for, in candidate order.
pub open spec fn spec_possible_networks(text: Seq<char>) -> Seq<Network> {
    candidate_networks().filter(valid_for(text))
}

/// The checksum that parsing validated: Bech32 for SegWit version 0,
/// Bech32m for later versions, Base58Check for legacy addresses.
pub open spec fn spec_checksum_for(
    address_type: Option<AddressType>,
    witness_version: Option<u8>,
) -> Option<ChecksumType> {
    match witness_version {
        Some(v) => if v == 0 {
            Some(ChecksumType::Bech32)
        } else {
            Some(ChecksumType::Bech32m)
        },
        None => Some(ChecksumType::Base58Check),
    }
}

/// What a witness program of the given version and length carries.
pub open spec fn spec_explanation(version: u8, len: int) -> Seq<char> {
    if version == 0 && len == 20 {
        "P2WPKH pubkey hash (20 bytes)"@
    } else if version == 0 && len == 32 {
        "P2WSH script hash (32 bytes)"@
    } else if version == 1 && len == 32 {
        "P2TR x-only pubkey (32 bytes)"@
    } else if version == 1 && len == 2 {
        "P2A anchor program (2 bytes)"@
    } else {
        "Unknown witness program"@
    }
}

/// The report of an input: the parse error when it does not parse, else the
/// details that the `bitcoin` crate gives of the parsed address.
pub open spec fn spec_analyze(input: Seq<char>) -> AnalysisView {
    match parse_error(input) {
        Some(msg) => AnalysisView::invalid_report(input, msg),
        None => {
            let w = witness_program_of(input);
            let version = match w {
                Some(w) => Some(w.0),
                None => None,
            };
            AnalysisView {
                input,
                is_valid: true,
                error: None,
                address: Some(input),
                address_type: address_type_of(input),
                networks: spec_possible_networks(input),
                script_pubkey_hex: Some(lower_hex(script_pubkey_of(input))),
                script_asm: Some(script_asm_of(script_pubkey_of(input))),
                witness_version: version,
                witness_program_hex: match w {
                    Some(w) => Some(lower_hex(w.1)),
                    None => None,
                },
                payload_explanation: match w {
                    Some(w) => Some(spec_explanation(w.0, w.1.len() as int)),
                    None => None,
                },
                checksum: spec_checksum_for(address_type_of(input), version),
            }
        },
    }
}

/// Analyze a Bitcoin address string and return a structured report.
pub fn analyze(input: &str) -> (r: AddressAnalysis)
    ensures
        r@ == spec_analyze(input@),
        r@.well_formed(),
        r.is_valid <==> parse_error(input@) is None,
        // The type is the one the `bitcoin` crate gives, whatever the network;
        // a P2PKH script is reported as P2PKH and a P2SH script as P2SH.
        r.is_valid ==> r.address_type == address_type_of(input@),
        r.is_valid && is_p2pkh_script(script_pubkey_of(input@)) ==> r.address_type == Some(
            AddressType::P2pkh,
        ),
        r.is_valid && is_p2sh_script(script_pubkey_of(input@)) ==> r.address_type == Some(
            AddressType::P2sh,
        ),
        // A valid address has its checksum reported; an invalid one has none.
        r.is_valid <==> r.checksum is Some,
        // A parsed address is valid on at least one network.
        r.is_valid ==> r@.networks.len() > 0,
        // The script is never empty; a SegWit script is the version opcode,
        // the program's length, then the program.
        r.is_valid ==> r@.script_pubkey_hex->0.len() > 0,
        r@.witness_program_hex matches Some(w) ==> {
            &&& r@.script_pubkey_hex matches Some(s)
            &&& s.len() == w.len() + 4
            &&& s.subrange(4, s.len() as int) == w
        },
        // Testnet and signet share their prefixes, so they come together.
        r@.networks.contains(Network::Testnet) <==> r@.networks.contains(Network::Signet),
        // An address valid on mainnet is valid nowhere else.
        r@.networks.contains(Network::Bitcoin) ==> r@.networks == seq![Network::Bitcoin],
        // Legacy addresses share one prefix on testnet, signet and regtest.
        r.is_valid && r.witness_version is None ==> (r@.networks.contains(Network::Testnet)
            <==> r@.networks.contains(Network::Regtest)),
        // Legacy addresses use Base58Check, SegWit v0 Bech32, SegWit v1 Bech32m.
        r.address_type == Some(AddressType::P2pkh) || r.address_type == Some(AddressType::P2sh)
            ==> r.checksum == Some(ChecksumType::Base58Check),
        r.address_type == Some(AddressType::P2wpkh) || r.address_type == Some(AddressType::P2wsh)
            ==> r.checksum == Some(ChecksumType::Bech32),
        r.address_type == Some(AddressType::P2tr) || r.address_type == Some(AddressType::P2a)
            ==> r.checksum == Some(ChecksumType::Bech32m),
{
    // Step 1: Parse the address.
    // Parsing validates checksum rules (Base58Check or Bech32/Bech32m).
    let address = match parse(input) {
        Ok(addr) => addr,
        Err(e) => return AddressAnalysis::invalid(input, e),
    };

    // Step 2: Determine all networks this address is valid for.
    let networks = possible_networks(&address);

    // Step 3: Extract script details.
    let address_type = address_type(&address);
    let script = script_pubkey(&address);

    // Step 4: Extract witness program info (if SegWit).
    let program = witness_program(&address);
    let (witness_version, witness_program_hex, payload_explanation) = match &program {
        Some(w) => (
            Some(w.0),
            Some(to_lower_hex(w.1.as_slice())),
            explain_witness_payload(w.0, w.1.len()),
        ),
        None => (None, None, None),
    };

    // Step 5: Determine checksum type.
    let checksum = checksum_for(address_type, witness_version);

    // Step 6: Return a structured analysis object.
    let script_pubkey_hex = to_lower_hex(script.as_slice());
    let script_asm = script_asm(script.as_slice());
    let input_text = String::from_str(input);
    let r = AddressAnalysis::valid(
        input_text,
        address,
        address_type,
        networks,
        script_pubkey_hex,
        script_asm,
        witness_version,
        witness_program_hex,
        payload_explanation,
        checksum,
    );
    proof {
        if let Some(w) = program {
            let head = seq![witness_version_opcode(w.0), w.1@.len() as u8];
            lemma_lower_hex_concat(head, w.1@);
            assert(script@ == head + w.1@);
            assert(lower_hex(head).len() == 4);
            assert((lower_hex(head) + lower_hex(w.1@)).subrange(4, 4 + lower_hex(w.1@).len() as int)
                =~= lower_hex(w.1@));
        }
        assert(script@.len() > 0);
        assert(lower_hex(script@).len() == 2 * script@.len());
    }
    assert(r@ =~= spec_analyze(input@));
    r
}

/// Compute all networks that accept this address.
pub fn possible_networks(address: &ParsedAddress) -> (r: Vec<Network>)
    ensures
        r@ == spec_possible_networks(address@),
        r@.contains(Network::Testnet) <==> r@.contains(Network::Signet),
        r@.contains(Network::Bitcoin) ==> r@ == seq![Network::Bitcoin],
        r@.len() > 0,
        witness_program_of(address@) is None ==> (r@.contains(Network::Testnet)
            <==> r@.contains(Network::Regtest)),
{
    let candidates = vec![Network::Bitcoin, Network::Testnet, Network::Signet, Network::Regtest];
    let mut out: Vec<Network> = Vec::new();
    let ghost text = address@;
    for i in 0..4
        invariant
            candidates@ == candidate_networks(),
            text == address@,
            out@ == candidate_networks().take(i as int).filter(valid_for(text)),
            i >= 1 ==> valid_for_network(text, Network::Bitcoin) || valid_for_network(
                text,
                Network::Testnet,
            ) || valid_for_network(text, Network::Regtest),
            i >= 1 && valid_for_network(text, Network::Bitcoin) ==> {
                &&& !valid_for_network(text, Network::Testnet)
                &&& !valid_for_network(text, Network::Signet)
                &&& !valid_for_network(text, Network::Regtest)
            },
            i >= 2 ==> valid_for_network(text, Network::Testnet) == valid_for_network(
                text,
                Network::Signet,
            ),
            i >= 2 && witness_program_of(text) is None ==> valid_for_network(text, Network::Testnet)
                == valid_for_network(text, Network::Regtest),
    {
        let n = candidates[i];
        let valid = is_valid_for_network(address, n);
        if valid {
            out.push(n);
        }
        proof {
            if i == 1 {
                assert(bech32_class(Network::Signet) == bech32_class(n));
                assert(valid_for_network(text, Network::Signet) == valid);
            }
            reveal_with_fuel(Seq::<_>::filter, 1);
            assert(candidate_networks().take(i + 1).drop_last() =~= candidate_networks().take(
                i as int,
            ));
        }
    }
    proof {
        assert(candidate_networks().take(4) =~= candidate_networks());
        lemma_networks_listed(text);
    }
    out
}

/// The candidate list, filtered, spelled out one candidate at a time.
pub proof fn lemma_networks_listed(text: Seq<char>)
    ensures
        spec_possible_networks(text) =~= keep(valid_for_network(text, Network::Bitcoin), Network::Bitcoin)
            + keep(valid_for_network(text, Network::Testnet), Network::Testnet)
            + keep(valid_for_network(text, Network::Signet), Network::Signet)
            + keep(valid_for_network(text, Network::Regtest), Network::Regtest),
{
    reveal_with_fuel(Seq::<_>::filter, 5);
    let c = candidate_networks();
    assert(c.drop_last() =~= seq![Network::Bitcoin, Network::Testnet, Network::Signet]);
    assert(c.drop_last().drop_last() =~= seq![Network::Bitcoin, Network::Testnet]);
    assert(c.drop_last().drop_last().drop_last() =~= seq![Network::Bitcoin]);
    assert(c.drop_last().drop_last().drop_last().drop_last() =~= Seq::<Network>::empty());
}

/// The one-element sequence of `n` when `b` holds, else the empty one.
pub open spec fn keep(b: bool, n: Network) -> Seq<Network> {
    if b {
        seq![n]
    } else {
        Seq::empty()
    }
}

/// Decide which checksum algorithm was validated.
pub fn checksum_for(
    address_type: Option<AddressType>,
    witness_version: Option<u8>,
) -> (r: Option<ChecksumType>)
    ensures
        r == spec_checksum_for(address_type, witness_version),
{
    match witness_version {
        // SegWit v0 uses Bech32 (BIP173).
        Some(0) => Some(ChecksumType::Bech32),
        // SegWit v1+ uses Bech32m (BIP350).
        Some(_) => Some(ChecksumType::Bech32m),
        // Legacy addresses use Base58Check.
        None => match address_type {
            Some(AddressType::P2pkh) | Some(AddressType::P2sh) => Some(ChecksumType::Base58Check),
            _ => Some(ChecksumType::Base58Check),
        },
    }
}

/// Explain witness payload meaning based on version and program length.
pub fn explain_witness_payload(version: u8, len: usize) -> (r: Option<String>)
    ensures
        r.deep_view() == Some(spec_explanation(version, len as int)),
{
    let explanation = if version == 0 && len == 20 {
        "P2WPKH pubkey hash (20 bytes)"
    } else if version == 0 && len == 32 {
        "P2WSH script hash (32 bytes)"
    } else if version == 1 && len == 32 {
        "P2TR x-only pubkey (32 bytes)"
    } else if version == 1 && len == 2 {
        "P2A anchor program (2 bytes)"
    } else {
        "Unknown witness program"
    };
    Some(String::from_str(explanation))
}

} // verus!
