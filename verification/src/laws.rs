//! Properties of the library that span its functions.

use vstd::prelude::*;
use crate::address::{
    address_type_of, parse_error, script_asm_of, script_pubkey_of, valid_for_network,
    witness_program_of,
};
use crate::analyzer::{
    candidate_networks, lemma_networks_listed, spec_analyze, spec_explanation,
    spec_possible_networks,
};
use crate::encoding::{hex_digit, lower_hex};
use crate::formatter::{
    checksum_label, opt_piece, readme_witness_section, rule_line, spec_format_address_type,
    spec_format_networks, spec_readme, spec_script_template, spec_text_report,
    text_witness_section,
};
use crate::types::{AnalysisView, ChecksumType, Network};

verus! {

/// `pattern` occurs in `s` at some position.
pub open spec fn contains_text(s: Seq<char>, pattern: Seq<char>) -> bool {
    exists|i: int|
        0 <= i && i + pattern.len() <= s.len() && #[trigger] s.subrange(i, i + pattern.len())
            == pattern
}

/// `prefix` begins `s`.
pub open spec fn starts_with(s: Seq<char>, prefix: Seq<char>) -> bool {
    prefix.len() <= s.len() && s.subrange(0, prefix.len() as int) == prefix
}

/// `pattern` occurs in `left + pattern + right`.
pub proof fn lemma_contains_middle(left: Seq<char>, pattern: Seq<char>, right: Seq<char>)
    ensures
        contains_text(left + pattern + right, pattern),
{
    let s = left + pattern + right;
    let i = left.len() as int;
    assert(s.subrange(i, i + pattern.len()) =~= pattern);
}

/// The networks listed for an address are exactly the candidate networks
/// (mainnet, testnet, signet, regtest) that it is valid for, each once;
/// testnet4 is never listed.
pub proof fn lemma_networks_are_valid_candidates(text: Seq<char>)
    ensures
        forall|n: Network|
            spec_possible_networks(text).contains(n) <==> (candidate_networks().contains(n)
                && valid_for_network(text, n)),
        spec_possible_networks(text).no_duplicates(),
        !spec_possible_networks(text).contains(Network::Testnet4),
{
    broadcast use vstd::seq_lib::group_seq_properties;

    lemma_networks_listed(text);
    let s = spec_possible_networks(text);
    let c = candidate_networks();
    assert forall|n: Network| s.contains(n) <==> (c.contains(n) && valid_for_network(text, n)) by {
        if c.contains(n) && valid_for_network(text, n) {
            let i = choose|i: int| 0 <= i < c.len() && c[i] == n;
            assert(s.contains(n));
        }
        if s.contains(n) {
            let i = choose|i: int| 0 <= i < s.len() && s[i] == n;
            assert(c.contains(n) && valid_for_network(text, n));
        }
    }
}

/// Lower-case hexadecimal has two characters per byte, each one of
/// `0-9a-f`.
pub proof fn lemma_hex_shape(bytes: Seq<u8>)
    ensures
        lower_hex(bytes).len() == 2 * bytes.len(),
        forall|i: int|
            0 <= i < lower_hex(bytes).len() ==> {
                let c = #[trigger] lower_hex(bytes)[i];
                ('0' <= c <= '9') || ('a' <= c <= 'f')
            },
{
}

/// Lower-case hexadecimal loses nothing: different byte strings have
/// different encodings.
pub proof fn lemma_hex_injective(a: Seq<u8>, b: Seq<u8>)
    requires
        lower_hex(a) == lower_hex(b),
    ensures
        a == b,
{
    assert(lower_hex(a).len() == 2 * a.len());
    assert(lower_hex(b).len() == 2 * b.len());
    assert(a.len() == b.len());
    assert forall|k: int| 0 <= k < a.len() implies a[k] == b[k] by {
        let hi = lower_hex(a)[2 * k];
        let lo = lower_hex(a)[2 * k + 1];
        assert(hi == lower_hex(b)[2 * k]);
        assert(lo == lower_hex(b)[2 * k + 1]);
        assert((2 * k) / 2 == k && (2 * k) % 2 == 0);
        assert((2 * k + 1) / 2 == k && (2 * k + 1) % 2 == 1);
        lemma_hex_digit_injective((a[k] / 16) as int, (b[k] / 16) as int);
        lemma_hex_digit_injective((a[k] % 16) as int, (b[k] % 16) as int);
        assert(a[k] == 16 * (a[k] / 16) + a[k] % 16);
        assert(b[k] == 16 * (b[k] / 16) + b[k] % 16);
    }
    assert(a =~= b);
}

/// Different nibbles have different digits.
proof fn lemma_hex_digit_injective(x: int, y: int)
    requires
        0 <= x < 16,
        0 <= y < 16,
        hex_digit(x) == hex_digit(y),
    ensures
        x == y,
{
}

/// Every Markdown report begins with its title, and the report of a valid
/// address has a Script section.
pub proof fn lemma_readme_sections(a: AnalysisView)
    ensures
        starts_with(spec_readme(a), "# Bitcoin Address Analysis\n\n"@),
        a.is_valid ==> contains_text(spec_readme(a), "## Script"@),
{
    let title = "# Bitcoin Address Analysis\n\n"@;
    let r = spec_readme(a);
    assert(r.subrange(0, title.len() as int) =~= title);
    if a.is_valid {
        reveal_strlit("\n## Script\n");
        reveal_strlit("\n");
        reveal_strlit("## Script");
        let before = title + ("**Input:** `"@ + a.input + "`\n\n"@) + "## Status\n"@ + "- Valid\n"@
            + ("- Networks: "@ + spec_format_networks(a.networks) + "\n"@) + ("- Type: "@
            + spec_format_address_type(a.address_type) + "\n"@) + opt_piece(
            "- Checksum: "@,
            checksum_label(a.checksum),
            " (valid)\n"@,
        );
        let after = opt_piece("- ScriptPubKey (hex): `"@, a.script_pubkey_hex, "`\n"@)
            + opt_piece("- Script ASM: `"@, a.script_asm, "`\n"@) + opt_piece(
            "- Script template: `"@,
            spec_script_template(a.address_type, a.witness_version),
            "`\n"@,
        ) + "\n## Witness\n"@ + readme_witness_section(a);
        assert("\n## Script\n"@ =~= "\n"@ + "## Script"@ + "\n"@);
        assert(r =~= (before + "\n"@) + "## Script"@ + ("\n"@ + after));
        lemma_contains_middle(before + "\n"@, "## Script"@, "\n"@ + after);
    }
}

/// The text report begins with the framed input and states the status of the
/// analysis: "Status: VALID" for a valid address, "Status: INVALID"
/// otherwise.
pub proof fn lemma_text_status(a: AnalysisView)
    ensures
        starts_with(spec_text_report(a), rule_line() + ("Address: "@ + a.input + "\n"@)),
        a.is_valid ==> contains_text(spec_text_report(a), "Status: VALID\n"@),
        !a.is_valid ==> contains_text(spec_text_report(a), "Status: INVALID\n"@),
{
    let r = spec_text_report(a);
    let head = rule_line() + ("Address: "@ + a.input + "\n"@);
    let framed = head + rule_line();
    assert(r.subrange(0, head.len() as int) =~= head);
    if a.is_valid {
        let after = ("Networks: "@ + spec_format_networks(a.networks) + "\n"@) + ("Type: "@
            + spec_format_address_type(a.address_type) + "\n"@) + opt_piece(
            "Checksum: "@,
            checksum_label(a.checksum),
            " (valid)\n"@,
        ) + "\nScript Details\n"@ + opt_piece("Script PubKey (Hex): "@, a.script_pubkey_hex, "\n"@)
            + opt_piece("Script ASM: "@, a.script_asm, "\n"@) + opt_piece(
            "Script Template: "@,
            spec_script_template(a.address_type, a.witness_version),
            "\n"@,
        ) + text_witness_section(a) + rule_line();
        assert(r =~= framed + "Status: VALID\n"@ + after);
        lemma_contains_middle(framed, "Status: VALID\n"@, after);
    } else {
        let after = opt_piece("Error: "@, a.error, "\n"@);
        assert(r =~= framed + "Status: INVALID\n"@ + after);
        lemma_contains_middle(framed, "Status: INVALID\n"@, after);
    }
}

/// The report of an input says what the `bitcoin` crate says of it: the
/// parse error when it does not parse; otherwise the address's type as the
/// crate gives it, whatever its network; its script in hex and as opcodes;
/// its witness version, program in hex and that program's meaning; the
/// networks it is valid for among the candidates; and the checksum that
/// its witness version implies.
pub proof fn lemma_analysis_reports_the_address(input: Seq<char>)
    ensures
        parse_error(input) matches Some(m) ==> {
            &&& !spec_analyze(input).is_valid
            &&& spec_analyze(input).error == Some(m)
            &&& spec_analyze(input).input == input
        },
        parse_error(input) is None ==> {
            let r = spec_analyze(input);
            &&& r.is_valid
            &&& r.input == input
            &&& r.address == Some(input)
            &&& r.address_type == address_type_of(input)
            &&& r.script_pubkey_hex == Some(lower_hex(script_pubkey_of(input)))
            &&& r.script_asm == Some(script_asm_of(script_pubkey_of(input)))
            &&& forall|n: Network|
                #[trigger] r.networks.contains(n) <==> (candidate_networks().contains(n)
                    && valid_for_network(input, n))
            &&& match witness_program_of(input) {
                Some(w) => {
                    &&& r.witness_version == Some(w.0)
                    &&& r.witness_program_hex == Some(lower_hex(w.1))
                    &&& r.payload_explanation == Some(spec_explanation(w.0, w.1.len() as int))
                    &&& r.checksum == Some(
                        if w.0 == 0 {
                            ChecksumType::Bech32
                        } else {
                            ChecksumType::Bech32m
                        },
                    )
                },
                None => {
                    &&& r.witness_version is None
                    &&& r.witness_program_hex is None
                    &&& r.payload_explanation is None
                    &&& r.checksum == Some(ChecksumType::Base58Check)
                },
            }
        },
{
    lemma_networks_are_valid_candidates(input);
}

} // verus!
