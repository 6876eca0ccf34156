//! Tests of the library's smaller functions.

use bitcoin_address_analyzer::analyzer::{checksum_for, explain_witness_payload};
use bitcoin_address_analyzer::encoding::{to_decimal, to_lower_hex};
use bitcoin_address_analyzer::formatter::{
    address_type_label, format_address_type, format_networks, network_label_text, network_labels,
    script_template,
};
use bitcoin_address_analyzer::json::json_fields;
use bitcoin_address_analyzer::{AddressAnalysis, AddressType, ChecksumType, JsonValue, Network};

#[test]
fn lower_hex_encoding() {
    assert_eq!(to_lower_hex(&[]), "");
    assert_eq!(to_lower_hex(&[0x00, 0xab, 0xff, 0x10, 0x09]), "00abff1009");
}

#[test]
fn decimal_text() {
    assert_eq!(to_decimal(0), "0");
    assert_eq!(to_decimal(7), "7");
    assert_eq!(to_decimal(16), "16");
    assert_eq!(to_decimal(100), "100");
    assert_eq!(to_decimal(255), "255");
}

#[test]
fn checksum_by_witness_version() {
    assert_eq!(checksum_for(Some(AddressType::P2wpkh), Some(0)), Some(ChecksumType::Bech32));
    assert_eq!(checksum_for(Some(AddressType::P2tr), Some(1)), Some(ChecksumType::Bech32m));
    assert_eq!(checksum_for(None, Some(16)), Some(ChecksumType::Bech32m));
    assert_eq!(checksum_for(Some(AddressType::P2pkh), None), Some(ChecksumType::Base58Check));
    assert_eq!(checksum_for(Some(AddressType::P2sh), None), Some(ChecksumType::Base58Check));
    assert_eq!(checksum_for(None, None), Some(ChecksumType::Base58Check));
}

#[test]
fn witness_payload_explanations() {
    let e = |v, l| explain_witness_payload(v, l).unwrap();
    assert_eq!(e(0, 20), "P2WPKH pubkey hash (20 bytes)");
    assert_eq!(e(0, 32), "P2WSH script hash (32 bytes)");
    assert_eq!(e(1, 32), "P2TR x-only pubkey (32 bytes)");
    assert_eq!(e(1, 2), "P2A anchor program (2 bytes)");
    assert_eq!(e(0, 2), "Unknown witness program");
    assert_eq!(e(2, 32), "Unknown witness program");
}

#[test]
fn checksum_labels() {
    assert_eq!(ChecksumType::Base58Check.label(), "Base58Check");
    assert_eq!(ChecksumType::Bech32.label(), "Bech32");
    assert_eq!(ChecksumType::Bech32m.label(), "Bech32m");
}

#[test]
fn network_list_text() {
    assert_eq!(format_networks(&[]), "Unknown");
    assert_eq!(format_networks(&[Network::Bitcoin]), "Mainnet");
    assert_eq!(
        format_networks(&[Network::Testnet, Network::Signet, Network::Regtest]),
        "Testnet, Signet, Regtest"
    );
    assert_eq!(network_label_text(Network::Testnet4), "Testnet4");
    assert_eq!(
        network_labels(&[Network::Bitcoin, Network::Testnet4]),
        vec!["Mainnet".to_string(), "Testnet4".to_string()]
    );
    assert!(network_labels(&[]).is_empty());
}

#[test]
fn address_type_names() {
    assert_eq!(format_address_type(Some(AddressType::P2pkh)), "P2PKH (Pay to PubKey Hash)");
    assert_eq!(format_address_type(Some(AddressType::P2sh)), "P2SH (Pay to Script Hash)");
    assert_eq!(format_address_type(Some(AddressType::P2wpkh)), "P2WPKH (SegWit v0 PubKey Hash)");
    assert_eq!(format_address_type(Some(AddressType::P2wsh)), "P2WSH (SegWit v0 Script Hash)");
    assert_eq!(format_address_type(Some(AddressType::P2tr)), "P2TR (Taproot v1)");
    assert_eq!(format_address_type(Some(AddressType::P2a)), "P2A (Pay to Anchor)");
    assert_eq!(format_address_type(Some(AddressType::Other)), "Unknown");
    assert_eq!(format_address_type(None), "Unknown");
    assert_eq!(address_type_label(AddressType::P2pkh), "P2PKH");
    assert_eq!(address_type_label(AddressType::P2wsh), "P2WSH");
    assert_eq!(address_type_label(AddressType::P2a), "P2A");
    assert_eq!(address_type_label(AddressType::Other), "Unknown");
}

#[test]
fn script_templates() {
    assert_eq!(
        script_template(Some(AddressType::P2pkh), None),
        Some("OP_DUP OP_HASH160 <pubkey_hash> OP_EQUALVERIFY OP_CHECKSIG")
    );
    assert_eq!(script_template(Some(AddressType::P2sh), None), Some("OP_HASH160 <script_hash> OP_EQUAL"));
    assert_eq!(script_template(Some(AddressType::P2wpkh), Some(0)), Some("OP_0 <pubkey_hash>"));
    assert_eq!(script_template(Some(AddressType::P2wsh), Some(0)), Some("OP_0 <script_hash>"));
    assert_eq!(script_template(Some(AddressType::P2tr), Some(1)), Some("OP_1 <x-only pubkey>"));
    assert_eq!(script_template(Some(AddressType::P2a), Some(1)), Some("OP_1 0x4e73 (anchor)"));
    assert_eq!(script_template(Some(AddressType::P2a), Some(2)), None);
    assert_eq!(script_template(Some(AddressType::P2a), None), None);
    assert_eq!(script_template(Some(AddressType::Other), Some(1)), None);
    assert_eq!(script_template(None, Some(3)), None);
}

#[test]
fn invalid_constructor() {
    let a = AddressAnalysis::invalid("abc", "bad".to_string());
    assert_eq!(a.input, "abc");
    assert!(!a.is_valid);
    assert_eq!(a.error, Some("bad".to_string()));
    assert!(a.address.is_none());
    assert!(a.networks.is_empty());
    assert_eq!(a.checksum, None);
}

#[test]
fn json_fields_in_order() {
    let a = AddressAnalysis::invalid("abc", "bad".to_string());
    let fields = json_fields(&a);
    let names: Vec<&str> = fields.iter().map(|(k, _)| k.as_str()).collect();
    assert_eq!(
        names,
        vec![
            "input",
            "valid",
            "error",
            "address_type",
            "networks",
            "checksum",
            "script_pubkey_hex",
            "script_asm",
            "script_template",
            "witness_version",
            "witness_program_hex",
            "payload_explanation",
        ]
    );
    assert!(matches!(&fields[0].1, JsonValue::Text(s) if s == "abc"));
    assert!(matches!(fields[1].1, JsonValue::Bool(false)));
    assert!(matches!(&fields[2].1, JsonValue::Text(s) if s == "bad"));
    assert!(matches!(fields[3].1, JsonValue::Null));
    assert!(matches!(&fields[4].1, JsonValue::TextList(l) if l.is_empty()));
    assert!(matches!(fields[9].1, JsonValue::Null));
}
