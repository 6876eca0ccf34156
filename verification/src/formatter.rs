//! Human-readable formatting for `AddressAnalysis`: the text report and the
//! Markdown report, with the labels they share.

use vstd::prelude::*;
use crate::encoding::{decimal, to_decimal};
use crate::types::{AddressAnalysis, AddressType, AnalysisView, ChecksumType, Network};

verus! {

/// The human-facing name of a network.
pub open spec fn network_label(n: Network) -> Seq<char> {
    match n {
        Network::Bitcoin => "Mainnet"@,
        Network::Testnet => "Testnet"@,
        Network::Signet => "Signet"@,
        Network::Regtest => "Regtest"@,
        Network::Testnet4 => "Testnet4"@,
    }
}

/// The labels of the networks, separated by ", ".
pub open spec fn join_labels(networks: Seq<Network>) -> Seq<char>
    decreases networks.len(),
{
    if networks.len() == 0 {
        Seq::empty()
    } else if networks.len() == 1 {
        network_label(networks[0])
    } else {
        join_labels(networks.drop_last()) + ", "@ + network_label(networks.last())
    }
}

/// The network list as the reports print it: "Unknown" when empty.
pub open spec fn spec_format_networks(networks: Seq<Network>) -> Seq<char> {
    if networks.len() == 0 {
        "Unknown"@
    } else {
        join_labels(networks)
    }
}

/// The descriptive name of an address type.
pub open spec fn spec_format_address_type(address_type: Option<AddressType>) -> Seq<char> {
    match address_type {
        Some(AddressType::P2pkh) => "P2PKH (Pay to PubKey Hash)"@,
        Some(AddressType::P2sh) => "P2SH (Pay to Script Hash)"@,
        Some(AddressType::P2wpkh) => "P2WPKH (SegWit v0 PubKey Hash)"@,
        Some(AddressType::P2wsh) => "P2WSH (SegWit v0 Script Hash)"@,
        Some(AddressType::P2tr) => "P2TR (Taproot v1)"@,
        Some(AddressType::P2a) => "P2A (Pay to Anchor)"@,
        Some(AddressType::Other) => "Unknown"@,
        None => "Unknown"@,
    }
}

/// The short name of an address type.
pub open spec fn spec_address_type_label(address_type: AddressType) -> Seq<char> {
    match address_type {
        AddressType::P2pkh => "P2PKH"@,
        AddressType::P2sh => "P2SH"@,
        AddressType::P2wpkh => "P2WPKH"@,
        AddressType::P2wsh => "P2WSH"@,
        AddressType::P2tr => "P2TR"@,
        AddressType::P2a => "P2A"@,
        AddressType::Other => "Unknown"@,
    }
}

/// The canonical script template of an address type; an anchor only with
/// witness version 1.
pub open spec fn spec_script_template(
    address_type: Option<AddressType>,
    witness_version: Option<u8>,
) -> Option<Seq<char>> {
    match address_type {
        Some(AddressType::P2pkh) => Some("OP_DUP OP_HASH160 <pubkey_hash> OP_EQUALVERIFY OP_CHECKSIG"@),
        Some(AddressType::P2sh) => Some("OP_HASH160 <script_hash> OP_EQUAL"@),
        Some(AddressType::P2wpkh) => Some("OP_0 <pubkey_hash>"@),
        Some(AddressType::P2wsh) => Some("OP_0 <script_hash>"@),
        Some(AddressType::P2tr) => Some("OP_1 <x-only pubkey>"@),
        Some(AddressType::P2a) => if witness_version == Some(1u8) {
            Some("OP_1 0x4e73 (anchor)"@)
        } else {
            None
        },
        _ => None,
    }
}

/// The name of an optional checksum.
pub open spec fn checksum_label(checksum: Option<ChecksumType>) -> Option<Seq<char>> {
    match checksum {
        Some(c) => Some(c.spec_label()),
        None => None,
    }
}

/// `prefix`, the value and `suffix` when there is a value; nothing otherwise.
pub open spec fn opt_piece(prefix: Seq<char>, value: Option<Seq<char>>, suffix: Seq<char>) -> Seq<
    char,
> {
    match value {
        Some(v) => prefix + v + suffix,
        None => Seq::empty(),
    }
}

/// The rule that frames the text report.
pub open spec fn rule_line() -> Seq<char> {
    "------------------------------------------------------------\n"@
}

/// The witness section of the text report.
pub open spec fn text_witness_section(a: AnalysisView) -> Seq<char> {
    match a.witness_version {
        Some(v) => "\nWitness Data\n"@ + ("Version: "@ + decimal(v as nat) + "\n"@) + opt_piece(
            "Program (Hex): "@,
            a.witness_program_hex,
            "\n"@,
        ) + opt_piece("Payload Meaning: "@, a.payload_explanation, "\n"@),
        None => "\nLegacy Address (no witness program)\n"@,
    }
}

/// The text report of an analysis.
pub open spec fn spec_text_report(a: AnalysisView) -> Seq<char> {
    let head = rule_line() + ("Address: "@ + a.input + "\n"@) + rule_line();
    if !a.is_valid {
        head + "Status: INVALID\n"@ + opt_piece("Error: "@, a.error, "\n"@)
    } else {
        head + "Status: VALID\n"@ + ("Networks: "@ + spec_format_networks(a.networks) + "\n"@) + (
        "Type: "@ + spec_format_address_type(a.address_type) + "\n"@) + opt_piece(
            "Checksum: "@,
            checksum_label(a.checksum),
            " (valid)\n"@,
        ) + "\nScript Details\n"@ + opt_piece("Script PubKey (Hex): "@, a.script_pubkey_hex, "\n"@)
            + opt_piece("Script ASM: "@, a.script_asm, "\n"@) + opt_piece(
            "Script Template: "@,
            spec_script_template(a.address_type, a.witness_version),
            "\n"@,
        ) + text_witness_section(a) + rule_line()
    }
}

/// The witness section of the Markdown report.
pub open spec fn readme_witness_section(a: AnalysisView) -> Seq<char> {
    match a.witness_version {
        Some(v) => ("- Version: `"@ + decimal(v as nat) + "`\n"@) + opt_piece(
            "- Program (hex): `"@,
            a.witness_program_hex,
            "`\n"@,
        ) + opt_piece("- Meaning: `"@, a.payload_explanation, "`\n"@),
        None => "- None (legacy address)\n"@,
    }
}

/// The Markdown report of an analysis.
pub open spec fn spec_readme(a: AnalysisView) -> Seq<char> {
    let head = "# Bitcoin Address Analysis\n\n"@ + ("**Input:** `"@ + a.input + "`\n\n"@);
    if !a.is_valid {
        head + "## Status\n"@ + "- Invalid\n"@ + opt_piece("- Error: `"@, a.error, "`\n"@)
    } else {
        head + "## Status\n"@ + "- Valid\n"@ + ("- Networks: "@ + spec_format_networks(a.networks)
            + "\n"@) + ("- Type: "@ + spec_format_address_type(a.address_type) + "\n"@)
            + opt_piece("- Checksum: "@, checksum_label(a.checksum), " (valid)\n"@)
            + "\n## Script\n"@ + opt_piece("- ScriptPubKey (hex): `"@, a.script_pubkey_hex, "`\n"@)
            + opt_piece("- Script ASM: `"@, a.script_asm, "`\n"@) + opt_piece(
            "- Script template: `"@,
            spec_script_template(a.address_type, a.witness_version),
            "`\n"@,
        ) + "\n## Witness\n"@ + readme_witness_section(a)
    }
}

/// Appends `prefix`, `value` and `suffix`.
fn append_line(out: &mut String, prefix: &str, value: &str, suffix: &str)
    ensures
        final(out)@ == old(out)@ + (prefix@ + value@ + suffix@),
{
    out.append(prefix);
    out.append(value);
    out.append(suffix);
    assert(out@ =~= old(out)@ + (prefix@ + value@ + suffix@));
}

/// Appends `prefix`, the value and `suffix` when there is a value.
fn append_opt_line(out: &mut String, prefix: &str, value: &Option<String>, suffix: &str)
    ensures
        final(out)@ == old(out)@ + opt_piece(prefix@, value.deep_view(), suffix@),
{
    match value {
        Some(v) => append_line(out, prefix, v.as_str(), suffix),
        None => {
            assert(out@ =~= old(out)@ + Seq::<char>::empty());
        },
    }
}

/// The text of an optional static label.
fn opt_text(value: Option<&'static str>) -> (r: Option<String>)
    ensures
        r.deep_view() == match value {
            Some(v) => Some(v@),
            None => None::<Seq<char>>,
        },
{
    match value {
        Some(v) => Some(String::from_str(v)),
        None => None,
    }
}

/// The name of an optional checksum, as text.
fn checksum_text(checksum: Option<ChecksumType>) -> (r: Option<String>)
    ensures
        r.deep_view() == checksum_label(checksum),
{
    match checksum {
        Some(c) => Some(c.label()),
        None => None,
    }
}

/// Map a network to its human-facing label.
pub fn network_label_text(n: Network) -> (r: &'static str)
    ensures
        r@ == network_label(n),
{
    match n {
        Network::Bitcoin => "Mainnet",
        Network::Testnet => "Testnet",
        Network::Signet => "Signet",
        Network::Regtest => "Regtest",
        Network::Testnet4 => "Testnet4",
    }
}

/// Map internal network enums to human-facing labels, separated by ", ";
/// "Unknown" when there are none.
pub fn format_networks(networks: &[Network]) -> (r: String)
    ensures
        r@ == spec_format_networks(networks@),
{
    if networks.len() == 0 {
        return String::from_str("Unknown");
    }
    let mut out = String::new();
    let n = networks.len();
    for i in 0..n
        invariant
            n == networks@.len(),
            n > 0,
            out@ == join_labels(networks@.take(i as int)),
    {
        let ghost before = out@;
        if i != 0 {
            out.append(", ");
        }
        out.append(network_label_text(networks[i]));
        proof {
            let t = networks@.take(i + 1);
            assert(t.drop_last() =~= networks@.take(i as int));
            if i == 0 {
                assert(out@ =~= network_label(networks@[0]));
            } else {
                assert(out@ =~= before + ", "@ + network_label(networks@[i as int]));
            }
        }
    }
    assert(networks@.take(n as int) =~= networks@);
    out
}

/// Internal network labels for JSON arrays.
pub fn network_labels(networks: &[Network]) -> (r: Vec<String>)
    ensures
        r@.len() == networks@.len(),
        forall|i: int| 0 <= i < r@.len() ==> #[trigger] r@[i]@ == network_label(networks@[i]),
{
    let mut out: Vec<String> = Vec::new();
    let n = networks.len();
    for i in 0..n
        invariant
            n == networks@.len(),
            out@.len() == i,
            forall|j: int| 0 <= j < i ==> #[trigger] out@[j]@ == network_label(networks@[j]),
    {
        out.push(String::from_str(network_label_text(networks[i])));
    }
    out
}

/// Convert AddressType to a descriptive string.
pub fn format_address_type(address_type: Option<AddressType>) -> (r: String)
    ensures
        r@ == spec_format_address_type(address_type),
{
    match address_type {
        Some(AddressType::P2pkh) => String::from_str("P2PKH (Pay to PubKey Hash)"),
        Some(AddressType::P2sh) => String::from_str("P2SH (Pay to Script Hash)"),
        Some(AddressType::P2wpkh) => String::from_str("P2WPKH (SegWit v0 PubKey Hash)"),
        Some(AddressType::P2wsh) => String::from_str("P2WSH (SegWit v0 Script Hash)"),
        Some(AddressType::P2tr) => String::from_str("P2TR (Taproot v1)"),
        Some(AddressType::P2a) => String::from_str("P2A (Pay to Anchor)"),
        Some(_) => String::from_str("Unknown"),
        None => String::from_str("Unknown"),
    }
}

/// AddressType label for JSON output.
pub fn address_type_label(address_type: AddressType) -> (r: String)
    ensures
        r@ == spec_address_type_label(address_type),
{
    match address_type {
        AddressType::P2pkh => String::from_str("P2PKH"),
        AddressType::P2sh => String::from_str("P2SH"),
        AddressType::P2wpkh => String::from_str("P2WPKH"),
        AddressType::P2wsh => String::from_str("P2WSH"),
        AddressType::P2tr => String::from_str("P2TR"),
        AddressType::P2a => String::from_str("P2A"),
        _ => String::from_str("Unknown"),
    }
}

/// Canonical script templates for each standard address type.
pub fn script_template(
    address_type: Option<AddressType>,
    witness_version: Option<u8>,
) -> (r: Option<&'static str>)
    ensures
        match r {
            Some(t) => spec_script_template(address_type, witness_version) == Some(t@),
            None => spec_script_template(address_type, witness_version) is None,
        },
{
    match (address_type, witness_version) {
        (Some(AddressType::P2pkh), _) => Some(
            "OP_DUP OP_HASH160 <pubkey_hash> OP_EQUALVERIFY OP_CHECKSIG",
        ),
        (Some(AddressType::P2sh), _) => Some("OP_HASH160 <script_hash> OP_EQUAL"),
        (Some(AddressType::P2wpkh), _) => Some("OP_0 <pubkey_hash>"),
        (Some(AddressType::P2wsh), _) => Some("OP_0 <script_hash>"),
        (Some(AddressType::P2tr), _) => Some("OP_1 <x-only pubkey>"),
        (Some(AddressType::P2a), Some(1)) => Some("OP_1 0x4e73 (anchor)"),
        _ => None,
    }
}

impl AddressAnalysis {
    /// The analysis in a readable, teaching-friendly format.
    pub fn to_text(&self) -> (r: String)
        ensures
            r@ == spec_text_report(self@),
    {
        let rule = "------------------------------------------------------------\n";
        // Header
        let mut out = String::new();
        out.append(rule);
        append_line(&mut out, "Address: ", self.input.as_str(), "\n");
        out.append(rule);

        // Invalid path: show error and stop early.
        if !self.is_valid {
            out.append("Status: INVALID\n");
            append_opt_line(&mut out, "Error: ", &self.error, "\n");
            assert(out@ =~= spec_text_report(self@));
            return out;
        }
        let ghost head = out@;

        // Basic identity fields.
        out.append("Status: VALID\n");
        let networks = format_networks(self.networks.as_slice());
        append_line(&mut out, "Networks: ", networks.as_str(), "\n");
        let type_text = format_address_type(self.address_type);
        append_line(&mut out, "Type: ", type_text.as_str(), "\n");

        // Checksum details.
        append_opt_line(&mut out, "Checksum: ", &checksum_text(self.checksum), " (valid)\n");

        // Script details.
        out.append("\nScript Details\n");
        append_opt_line(&mut out, "Script PubKey (Hex): ", &self.script_pubkey_hex, "\n");
        append_opt_line(&mut out, "Script ASM: ", &self.script_asm, "\n");
        let template = opt_text(script_template(self.address_type, self.witness_version));
        append_opt_line(&mut out, "Script Template: ", &template, "\n");
        let ghost before_witness = out@;

        // Witness details (SegWit or Taproot).
        match self.witness_version {
            Some(version) => {
                out.append("\nWitness Data\n");
                append_line(&mut out, "Version: ", to_decimal(version).as_str(), "\n");
                append_opt_line(&mut out, "Program (Hex): ", &self.witness_program_hex, "\n");
                append_opt_line(&mut out, "Payload Meaning: ", &self.payload_explanation, "\n");
            },
            None => {
                // Legacy addresses have no witness program.
                out.append("\nLegacy Address (no witness program)\n");
            },
        }
        assert(out@ =~= before_witness + text_witness_section(self@));

        // Footer
        out.append(rule);
        assert(out@ =~= spec_text_report(self@));
        out
    }
}

/// Render README-style Markdown output for learning or documentation.
pub fn format_readme(analysis: &AddressAnalysis) -> (r: String)
    ensures
        r@ == spec_readme(analysis@),
{
    // Use Markdown headings and bullet lists for clarity.
    let mut out = String::new();

    out.append("# Bitcoin Address Analysis\n\n");
    append_line(&mut out, "**Input:** `", analysis.input.as_str(), "`\n\n");

    if !analysis.is_valid {
        out.append("## Status\n");
        out.append("- Invalid\n");
        append_opt_line(&mut out, "- Error: `", &analysis.error, "`\n");
        assert(out@ =~= spec_readme(analysis@));
        return out;
    }

    out.append("## Status\n");
    out.append("- Valid\n");
    let networks = format_networks(analysis.networks.as_slice());
    append_line(&mut out, "- Networks: ", networks.as_str(), "\n");
    let type_text = format_address_type(analysis.address_type);
    append_line(&mut out, "- Type: ", type_text.as_str(), "\n");
    append_opt_line(&mut out, "- Checksum: ", &checksum_text(analysis.checksum), " (valid)\n");

    out.append("\n## Script\n");
    append_opt_line(&mut out, "- ScriptPubKey (hex): `", &analysis.script_pubkey_hex, "`\n");
    append_opt_line(&mut out, "- Script ASM: `", &analysis.script_asm, "`\n");
    let template = opt_text(script_template(analysis.address_type, analysis.witness_version));
    append_opt_line(&mut out, "- Script template: `", &template, "`\n");

    out.append("\n## Witness\n");
    let ghost before_witness = out@;
    match analysis.witness_version {
        Some(version) => {
            append_line(&mut out, "- Version: `", to_decimal(version).as_str(), "`\n");
            append_opt_line(&mut out, "- Program (hex): `", &analysis.witness_program_hex, "`\n");
            append_opt_line(&mut out, "- Meaning: `", &analysis.payload_explanation, "`\n");
        },
        None => {
            out.append("- None (legacy address)\n");
        },
    }
    assert(out@ =~= before_witness + readme_witness_section(analysis@));
    assert(out@ =~= spec_readme(analysis@));
    out
}

} // verus!
