//! Integration tests for the analyzer and formatters.

use bitcoin::address::NetworkUnchecked;
use bitcoin::blockdata::script::witness_program::WitnessProgram;
use bitcoin::{Address, WitnessVersion};
use bitcoin_address_analyzer::{analyze, format_json, format_readme, AddressType, ChecksumType, Network};

#[test]
fn analyzes_p2pkh_mainnet() {
    // Known valid legacy address.
    let analysis = analyze("1BoatSLRHtKNngkdXEeobR76b53LETtpyT");
    assert!(analysis.is_valid);
    assert_eq!(analysis.address_type, Some(AddressType::P2pkh));
    assert!(analysis.networks.contains(&Network::Bitcoin));
    assert_eq!(analysis.checksum, Some(ChecksumType::Base58Check));
}

#[test]
fn analyzes_p2wpkh_mainnet() {
    // Construct a deterministic v0 segwit address for testing.
    let program = WitnessProgram::new(WitnessVersion::V0, &[0u8; 20]).unwrap();
    let addr = Address::from_witness_program(program, bitcoin::Network::Bitcoin);
    let analysis = analyze(&addr.to_string());
    assert!(analysis.is_valid);
    assert_eq!(analysis.address_type, Some(AddressType::P2wpkh));
    assert_eq!(analysis.witness_version, Some(WitnessVersion::V0.to_num()));
    assert_eq!(analysis.checksum, Some(ChecksumType::Bech32));
    assert_eq!(analysis.networks, vec![Network::Bitcoin]);
}

#[test]
fn analyzes_taproot_mainnet() {
    // Construct a deterministic v1 segwit (taproot) address.
    let program = WitnessProgram::new(WitnessVersion::V1, &[1u8; 32]).unwrap();
    let addr = Address::from_witness_program(program, bitcoin::Network::Bitcoin);
    let analysis = analyze(&addr.to_string());
    assert!(analysis.is_valid);
    assert_eq!(analysis.address_type, Some(AddressType::P2tr));
    assert_eq!(analysis.witness_version, Some(WitnessVersion::V1.to_num()));
    assert_eq!(analysis.checksum, Some(ChecksumType::Bech32m));
    assert_eq!(analysis.networks, vec![Network::Bitcoin]);
}

#[test]
fn analyzes_testnet_and_signet() {
    // Testnet and signet share HRP (tb), so the address is valid for both.
    let program = WitnessProgram::new(WitnessVersion::V0, &[1u8; 20]).unwrap();
    let addr = Address::from_witness_program(program, bitcoin::Network::Testnet);
    let analysis = analyze(&addr.to_string());
    assert!(analysis.is_valid);
    assert!(analysis.networks.contains(&Network::Testnet));
    assert!(analysis.networks.contains(&Network::Signet));
    assert!(!analysis.networks.contains(&Network::Bitcoin));
}

#[test]
fn analyzes_regtest() {
    // Regtest has its own HRP (bcrt), so this should be unambiguous.
    let program = WitnessProgram::new(WitnessVersion::V0, &[2u8; 20]).unwrap();
    let addr = Address::from_witness_program(program, bitcoin::Network::Regtest);
    let analysis = analyze(&addr.to_string());
    assert!(analysis.is_valid);
    assert!(analysis.networks.contains(&Network::Regtest));
    assert_eq!(analysis.networks.len(), 1);
}

#[test]
fn rejects_invalid_address() {
    // Invalid input should produce a readable error.
    let analysis = analyze("not-a-bitcoin-address");
    assert!(!analysis.is_valid);
    assert!(analysis.error.is_some());
}

#[test]
fn json_output_contains_fields() {
    let analysis = analyze("1BoatSLRHtKNngkdXEeobR76b53LETtpyT");
    let json = format_json(&analysis).unwrap();
    let parsed: serde_json::Value = serde_json::from_str(&json).unwrap();
    assert_eq!(parsed["valid"], true);
    assert_eq!(parsed["address_type"], "P2PKH");
}

#[test]
fn readme_output_contains_sections() {
    let analysis = analyze("1BoatSLRHtKNngkdXEeobR76b53LETtpyT");
    let md = format_readme(&analysis);
    assert!(md.contains("# Bitcoin Address Analysis"));
    assert!(md.contains("## Script"));
}

fn checked(text: &str) -> Address {
    text.parse::<Address<NetworkUnchecked>>().unwrap().assume_checked()
}

#[test]
fn invalid_address_carries_the_parse_error() {
    let text = "not-a-bitcoin-address";
    let expected = text.parse::<Address<NetworkUnchecked>>().unwrap_err().to_string();
    let analysis = analyze(text);
    assert_eq!(analysis.input, text);
    assert_eq!(analysis.error, Some(expected));
    assert!(analysis.address.is_none());
    assert!(analysis.networks.is_empty());
    assert_eq!(analysis.address_type, None);
    assert_eq!(analysis.script_pubkey_hex, None);
    assert_eq!(analysis.script_asm, None);
    assert_eq!(analysis.witness_version, None);
    assert_eq!(analysis.witness_program_hex, None);
    assert_eq!(analysis.payload_explanation, None);
    assert_eq!(analysis.checksum, None);
}

#[test]
fn empty_input_is_invalid() {
    let analysis = analyze("");
    assert!(!analysis.is_valid);
    assert!(analysis.error.is_some());
}

#[test]
fn legacy_script_matches_the_bitcoin_crate() {
    let text = "1BoatSLRHtKNngkdXEeobR76b53LETtpyT";
    let analysis = analyze(text);
    let script = checked(text).script_pubkey();
    assert_eq!(analysis.script_pubkey_hex, Some(script.to_hex_string()));
    assert_eq!(analysis.script_asm, Some(script.to_asm_string()));
    let hex = analysis.script_pubkey_hex.unwrap();
    assert!(hex.starts_with("76a914"));
    assert!(hex.ends_with("88ac"));
    assert_eq!(hex.len(), 50);
    assert_eq!(analysis.networks, vec![Network::Bitcoin]);
    assert_eq!(analysis.witness_version, None);
    assert_eq!(analysis.witness_program_hex, None);
    assert_eq!(analysis.payload_explanation, None);
}

#[test]
fn p2wpkh_script_and_program() {
    let program = WitnessProgram::new(WitnessVersion::V0, &[0u8; 20]).unwrap();
    let addr = Address::from_witness_program(program, bitcoin::Network::Bitcoin);
    let analysis = analyze(&addr.to_string());
    let zeros = "00".repeat(20);
    assert_eq!(analysis.script_pubkey_hex, Some(format!("0014{}", zeros)));
    assert_eq!(analysis.witness_program_hex, Some(zeros.clone()));
    assert_eq!(analysis.script_asm, Some(format!("OP_0 OP_PUSHBYTES_20 {}", zeros)));
    assert_eq!(analysis.payload_explanation, Some("P2WPKH pubkey hash (20 bytes)".to_string()));
}

#[test]
fn p2wsh_is_bech32() {
    let program = WitnessProgram::new(WitnessVersion::V0, &[7u8; 32]).unwrap();
    let addr = Address::from_witness_program(program, bitcoin::Network::Bitcoin);
    let analysis = analyze(&addr.to_string());
    assert_eq!(analysis.address_type, Some(AddressType::P2wsh));
    assert_eq!(analysis.checksum, Some(ChecksumType::Bech32));
    assert_eq!(analysis.payload_explanation, Some("P2WSH script hash (32 bytes)".to_string()));
    assert_eq!(analysis.script_pubkey_hex, Some(format!("0020{}", "07".repeat(32))));
}

#[test]
fn taproot_script_and_explanation() {
    let program = WitnessProgram::new(WitnessVersion::V1, &[1u8; 32]).unwrap();
    let addr = Address::from_witness_program(program, bitcoin::Network::Bitcoin);
    let analysis = analyze(&addr.to_string());
    assert_eq!(analysis.script_pubkey_hex, Some(format!("5120{}", "01".repeat(32))));
    assert_eq!(analysis.payload_explanation, Some("P2TR x-only pubkey (32 bytes)".to_string()));
}

#[test]
fn anchor_address() {
    let addr = Address::from_witness_program(WitnessProgram::p2a(), bitcoin::Network::Bitcoin);
    let analysis = analyze(&addr.to_string());
    assert!(analysis.is_valid);
    assert_eq!(analysis.address_type, Some(AddressType::P2a));
    assert_eq!(analysis.witness_version, Some(1));
    assert_eq!(analysis.witness_program_hex, Some("4e73".to_string()));
    assert_eq!(analysis.checksum, Some(ChecksumType::Bech32m));
    assert_eq!(analysis.payload_explanation, Some("P2A anchor program (2 bytes)".to_string()));
    assert!(analysis.to_text().contains("Script Template: OP_1 0x4e73 (anchor)\n"));
}

#[test]
fn future_witness_version_is_bech32m_without_type() {
    let program = WitnessProgram::new(WitnessVersion::V16, &[3u8; 5]).unwrap();
    let addr = Address::from_witness_program(program, bitcoin::Network::Bitcoin);
    let analysis = analyze(&addr.to_string());
    assert!(analysis.is_valid);
    assert_eq!(analysis.address_type, None);
    assert_eq!(analysis.witness_version, Some(16));
    assert_eq!(analysis.checksum, Some(ChecksumType::Bech32m));
    assert_eq!(analysis.payload_explanation, Some("Unknown witness program".to_string()));
    let text = analysis.to_text();
    assert!(text.contains("Type: Unknown\n"));
    assert!(text.contains("Version: 16\n"));
    assert!(!text.contains("Script Template"));
}

#[test]
fn legacy_testnet_address_is_valid_on_all_test_networks() {
    let analysis = analyze("2N83imGV3gPwBzKJQvWJ7cRUY2SpUyU6A5e");
    assert!(analysis.is_valid);
    assert_eq!(analysis.address_type, Some(AddressType::P2sh));
    assert_eq!(analysis.checksum, Some(ChecksumType::Base58Check));
    assert_eq!(analysis.networks, vec![Network::Testnet, Network::Signet, Network::Regtest]);
}

#[test]
fn legacy_mainnet_p2sh() {
    let analysis = analyze("32iVBEu4dxkUQk9dJbZUiBiQdmypcEyJRf");
    assert_eq!(analysis.address_type, Some(AddressType::P2sh));
    assert_eq!(analysis.networks, vec![Network::Bitcoin]);
    assert!(analysis.script_pubkey_hex.unwrap().starts_with("a914"));
}

#[test]
fn segwit_testnet_networks_in_order() {
    let program = WitnessProgram::new(WitnessVersion::V0, &[1u8; 20]).unwrap();
    let addr = Address::from_witness_program(program, bitcoin::Network::Signet);
    let analysis = analyze(&addr.to_string());
    assert_eq!(analysis.networks, vec![Network::Testnet, Network::Signet]);
}

#[test]
fn text_report_of_invalid_address() {
    let analysis = analyze("xyz");
    let err = analysis.error.clone().unwrap();
    let rule = "-".repeat(60);
    let expected = format!(
        "{rule}\nAddress: xyz\n{rule}\nStatus: INVALID\nError: {err}\n"
    );
    assert_eq!(analysis.to_text(), expected);
}

#[test]
fn text_report_of_p2wpkh_address() {
    let program = WitnessProgram::new(WitnessVersion::V0, &[0u8; 20]).unwrap();
    let text = Address::from_witness_program(program, bitcoin::Network::Bitcoin).to_string();
    let analysis = analyze(&text);
    let zeros = "00".repeat(20);
    let rule = "-".repeat(60);
    let expected = format!(
        "{rule}\nAddress: {text}\n{rule}\nStatus: VALID\nNetworks: Mainnet\n\
         Type: P2WPKH (SegWit v0 PubKey Hash)\nChecksum: Bech32 (valid)\n\nScript Details\n\
         Script PubKey (Hex): 0014{zeros}\nScript ASM: OP_0 OP_PUSHBYTES_20 {zeros}\n\
         Script Template: OP_0 <pubkey_hash>\n\nWitness Data\nVersion: 0\n\
         Program (Hex): {zeros}\nPayload Meaning: P2WPKH pubkey hash (20 bytes)\n{rule}\n"
    );
    assert_eq!(analysis.to_text(), expected);
}

#[test]
fn text_report_of_legacy_address() {
    let analysis = analyze("1BoatSLRHtKNngkdXEeobR76b53LETtpyT");
    let text = analysis.to_text();
    assert!(text.contains("Type: P2PKH (Pay to PubKey Hash)\n"));
    assert!(text.contains("Checksum: Base58Check (valid)\n"));
    assert!(text.contains(
        "Script Template: OP_DUP OP_HASH160 <pubkey_hash> OP_EQUALVERIFY OP_CHECKSIG\n"
    ));
    assert!(text.contains("\nLegacy Address (no witness program)\n"));
}

#[test]
fn readme_of_invalid_address() {
    let analysis = analyze("xyz");
    let err = analysis.error.clone().unwrap();
    let expected = format!(
        "# Bitcoin Address Analysis\n\n**Input:** `xyz`\n\n## Status\n- Invalid\n- Error: `{err}`\n"
    );
    assert_eq!(format_readme(&analysis), expected);
    assert!(!format_readme(&analysis).contains("## Script"));
}

#[test]
fn readme_of_taproot_address() {
    let program = WitnessProgram::new(WitnessVersion::V1, &[1u8; 32]).unwrap();
    let text = Address::from_witness_program(program, bitcoin::Network::Testnet).to_string();
    let analysis = analyze(&text);
    let ones = "01".repeat(32);
    let listing = analysis.script_asm.clone().unwrap();
    let expected = format!(
        "# Bitcoin Address Analysis\n\n**Input:** `{text}`\n\n## Status\n- Valid\n\
         - Networks: Testnet, Signet\n- Type: P2TR (Taproot v1)\n- Checksum: Bech32m (valid)\n\
         \n## Script\n- ScriptPubKey (hex): `5120{ones}`\n- Script ASM: `{listing}`\n\
         - Script template: `OP_1 <x-only pubkey>`\n\n## Witness\n- Version: `1`\n\
         - Program (hex): `{ones}`\n- Meaning: `P2TR x-only pubkey (32 bytes)`\n"
    );
    assert_eq!(format_readme(&analysis), expected);
}

#[test]
fn readme_of_legacy_address() {
    let analysis = analyze("1BoatSLRHtKNngkdXEeobR76b53LETtpyT");
    let md = format_readme(&analysis);
    assert!(md.ends_with("\n## Witness\n- None (legacy address)\n"));
    assert!(md.contains("- Networks: Mainnet\n"));
}

#[test]
fn json_of_valid_segwit_address() {
    let program = WitnessProgram::new(WitnessVersion::V0, &[0u8; 20]).unwrap();
    let text = Address::from_witness_program(program, bitcoin::Network::Testnet).to_string();
    let analysis = analyze(&text);
    let json = format_json(&analysis).unwrap();
    let parsed: serde_json::Value = serde_json::from_str(&json).unwrap();
    assert_eq!(parsed["input"], text.as_str());
    assert_eq!(parsed["error"], serde_json::Value::Null);
    assert_eq!(parsed["address_type"], "P2WPKH");
    assert_eq!(parsed["networks"][0], "Testnet");
    assert_eq!(parsed["networks"][1], "Signet");
    assert_eq!(parsed["networks"].as_array().unwrap().len(), 2);
    assert_eq!(parsed["checksum"], "Bech32");
    assert_eq!(parsed["script_template"], "OP_0 <pubkey_hash>");
    assert_eq!(parsed["witness_version"], 0);
    assert_eq!(parsed["witness_program_hex"], "00".repeat(20).as_str());
    assert_eq!(parsed["payload_explanation"], "P2WPKH pubkey hash (20 bytes)");
    assert_eq!(parsed.as_object().unwrap().len(), 12);
}

#[test]
fn json_of_invalid_address() {
    let analysis = analyze("xyz");
    let json = format_json(&analysis).unwrap();
    assert!(json.contains('\n'));
    let parsed: serde_json::Value = serde_json::from_str(&json).unwrap();
    assert_eq!(parsed["valid"], false);
    assert_eq!(parsed["input"], "xyz");
    assert_eq!(parsed["error"], analysis.error.clone().unwrap().as_str());
    assert_eq!(parsed["address_type"], serde_json::Value::Null);
    assert_eq!(parsed["networks"].as_array().unwrap().len(), 0);
    assert_eq!(parsed["checksum"], serde_json::Value::Null);
    assert_eq!(parsed["witness_version"], serde_json::Value::Null);
}

#[test]
fn segwit_script_is_opcode_length_and_program() {
    for (version, len) in [(WitnessVersion::V0, 20usize), (WitnessVersion::V0, 32), (WitnessVersion::V1, 32), (WitnessVersion::V5, 7)] {
        let bytes: Vec<u8> = (0..len as u8).collect();
        let program = WitnessProgram::new(version, &bytes).unwrap();
        let addr = Address::from_witness_program(program, bitcoin::Network::Bitcoin);
        let analysis = analyze(&addr.to_string());
        let script = analysis.script_pubkey_hex.clone().unwrap();
        let prog = analysis.witness_program_hex.clone().unwrap();
        assert_eq!(script.len(), prog.len() + 4);
        assert!(script.ends_with(&prog));
        let opcode = if version.to_num() == 0 { 0 } else { 0x50 + version.to_num() };
        assert_eq!(&script[..4], format!("{:02x}{:02x}", opcode, len));
    }
}

#[test]
fn networks_never_empty_for_parsed_addresses() {
    for text in [
        "1BoatSLRHtKNngkdXEeobR76b53LETtpyT",
        "2N83imGV3gPwBzKJQvWJ7cRUY2SpUyU6A5e",
        "32iVBEu4dxkUQk9dJbZUiBiQdmypcEyJRf",
    ] {
        let analysis = analyze(text);
        assert!(analysis.is_valid);
        assert!(!analysis.networks.is_empty());
        assert!(!analysis.script_pubkey_hex.unwrap().is_empty());
    }
}

#[test]
fn json_has_exactly_the_report_keys() {
    for text in ["1BoatSLRHtKNngkdXEeobR76b53LETtpyT", "xyz"] {
        let analysis = analyze(text);
        let json = format_json(&analysis).unwrap();
        let parsed: serde_json::Value = serde_json::from_str(&json).unwrap();
        let mut keys: Vec<&str> = parsed.as_object().unwrap().keys().map(|k| k.as_str()).collect();
        keys.sort();
        let mut expected = vec![
            "input",
            "valid",
            "error",
            "address_type",
            "networks",
            "checksum",
            "script_pubkey_hex",
            "script_asm",
            "script_template",
            "witness_version",
            "witness_program_hex",
            "payload_explanation",
        ];
        expected.sort();
        assert_eq!(keys, expected);
    }
}

#[test]
fn text_report_has_witness_section_or_legacy_line() {
    let legacy = analyze("1BoatSLRHtKNngkdXEeobR76b53LETtpyT").to_text();
    assert!(legacy.contains("\nLegacy Address (no witness program)\n"));
    assert!(!legacy.contains("Witness Data"));
    let program = WitnessProgram::new(WitnessVersion::V1, &[1u8; 32]).unwrap();
    let addr = Address::from_witness_program(program, bitcoin::Network::Bitcoin);
    let segwit = analyze(&addr.to_string()).to_text();
    assert!(segwit.contains("\nWitness Data\nVersion: 1\n"));
    assert!(!segwit.contains("Legacy Address"));
}

#[test]
fn analysis_can_be_cloned() {
    let analysis = analyze("1BoatSLRHtKNngkdXEeobR76b53LETtpyT");
    let copy = analysis.clone();
    assert_eq!(copy.input, analysis.input);
    assert_eq!(copy.to_text(), analysis.to_text());
}
