//! What the reports show: every field of an analysis appears in the text and
//! Markdown reports on its own labelled line.

use vstd::prelude::*;
use crate::encoding::decimal;
use crate::formatter::{
    checksum_label, opt_piece, readme_witness_section, rule_line, spec_format_address_type,
    spec_format_networks, spec_readme, spec_script_template, spec_text_report,
    text_witness_section,
};
use crate::laws::contains_text;
use crate::types::AnalysisView;

verus! {

/// The first `n` parts, joined in order.
pub open spec fn join_parts(parts: Seq<Seq<char>>, n: int) -> Seq<char>
    decreases n,
{
    if n <= 0 {
        Seq::empty()
    } else {
        join_parts(parts, n - 1) + parts[n - 1]
    }
}

/// What a text holds, a longer text that begins with it holds too.
pub proof fn lemma_contains_left(a: Seq<char>, b: Seq<char>, p: Seq<char>)
    requires
        contains_text(a, p),
    ensures
        contains_text(a + b, p),
{
    let i = choose|i: int|
        0 <= i && i + p.len() <= a.len() && #[trigger] a.subrange(i, i + p.len()) == p;
    assert((a + b).subrange(i, i + p.len()) =~= a.subrange(i, i + p.len()));
}

/// What a text holds, a longer text that ends with it holds too.
pub proof fn lemma_contains_right(a: Seq<char>, b: Seq<char>, p: Seq<char>)
    requires
        contains_text(b, p),
    ensures
        contains_text(a + b, p),
{
    let i = choose|i: int|
        0 <= i && i + p.len() <= b.len() && #[trigger] b.subrange(i, i + p.len()) == p;
    let j = i + a.len();
    assert((a + b).subrange(j, j + p.len()) =~= b.subrange(i, i + p.len()));
}

/// Every text holds itself.
pub proof fn lemma_contains_self(p: Seq<char>)
    ensures
        contains_text(p, p),
{
    let i: int = 0;
    assert(p.subrange(i, i + p.len()) =~= p);
}

/// What one part holds, the joined parts hold.
pub proof fn lemma_part_in_join(parts: Seq<Seq<char>>, n: int, k: int, p: Seq<char>)
    requires
        0 <= k < n <= parts.len(),
        contains_text(parts[k], p),
    ensures
        contains_text(join_parts(parts, n), p),
    decreases n,
{
    if k == n - 1 {
        lemma_contains_right(join_parts(parts, n - 1), parts[k], p);
    } else {
        lemma_part_in_join(parts, n - 1, k, p);
        lemma_contains_left(join_parts(parts, n - 1), parts[n - 1], p);
    }
}

/// A part that is the line itself, or an optional line that is present.
proof fn lemma_line_in_join(parts: Seq<Seq<char>>, n: int, k: int, line: Seq<char>)
    requires
        0 <= k < n <= parts.len(),
        parts[k] == line,
    ensures
        contains_text(join_parts(parts, n), line),
{
    lemma_contains_self(line);
    lemma_part_in_join(parts, n, k, line);
}

/// The text report shows each field of the analysis on its own line: the
/// input; for an invalid address the error; for a valid one the networks,
/// the type, the checksum, the script in hex and as opcodes, the script
/// template, and for a SegWit address the witness version, program and its
/// meaning.
pub proof fn lemma_text_report_lines(a: AnalysisView)
    ensures
        contains_text(spec_text_report(a), "Address: "@ + a.input + "\n"@),
        !a.is_valid ==> (a.error matches Some(e) ==> contains_text(
            spec_text_report(a),
            "Error: "@ + e + "\n"@,
        )),
        !a.is_valid ==> contains_text(spec_text_report(a), "Status: INVALID\n"@),
        a.is_valid ==> {
            &&& contains_text(spec_text_report(a), "Status: VALID\n"@)
            &&& contains_text(spec_text_report(a), "\nScript Details\n"@)
            &&& a.witness_version is None ==> contains_text(
                spec_text_report(a),
                "\nLegacy Address (no witness program)\n"@,
            )
            &&& contains_text(
                spec_text_report(a),
                "Networks: "@ + spec_format_networks(a.networks) + "\n"@,
            )
            &&& contains_text(
                spec_text_report(a),
                "Type: "@ + spec_format_address_type(a.address_type) + "\n"@,
            )
            &&& a.checksum matches Some(c) ==> contains_text(
                spec_text_report(a),
                "Checksum: "@ + c.spec_label() + " (valid)\n"@,
            )
            &&& a.script_pubkey_hex matches Some(h) ==> contains_text(
                spec_text_report(a),
                "Script PubKey (Hex): "@ + h + "\n"@,
            )
            &&& a.script_asm matches Some(s) ==> contains_text(
                spec_text_report(a),
                "Script ASM: "@ + s + "\n"@,
            )
            &&& spec_script_template(a.address_type, a.witness_version) matches Some(t)
                ==> contains_text(spec_text_report(a), "Script Template: "@ + t + "\n"@)
            &&& a.witness_version matches Some(v) ==> {
                &&& contains_text(
                    spec_text_report(a),
                    "Version: "@ + decimal(v as nat) + "\n"@,
                )
                &&& a.witness_program_hex matches Some(w) ==> contains_text(
                    spec_text_report(a),
                    "Program (Hex): "@ + w + "\n"@,
                )
                &&& a.payload_explanation matches Some(e) ==> contains_text(
                    spec_text_report(a),
                    "Payload Meaning: "@ + e + "\n"@,
                )
            }
        },
{
    let r = spec_text_report(a);
    let nl = "\n"@;
    let address = "Address: "@ + a.input + nl;
    if !a.is_valid {
        let parts = seq![
            rule_line(),
            address,
            rule_line(),
            "Status: INVALID\n"@,
            opt_piece("Error: "@, a.error, nl),
        ];
        reveal_with_fuel(join_parts, 6);
        assert(r == join_parts(parts, 5));
        lemma_line_in_join(parts, 5, 1, address);
        lemma_line_in_join(parts, 5, 3, "Status: INVALID\n"@);
        if let Some(e) = a.error {
            lemma_line_in_join(parts, 5, 4, "Error: "@ + e + nl);
        }
    } else {
        let ck = opt_piece("Checksum: "@, checksum_label(a.checksum), " (valid)\n"@);
        let hex = opt_piece("Script PubKey (Hex): "@, a.script_pubkey_hex, nl);
        let listing = opt_piece("Script ASM: "@, a.script_asm, nl);
        let tmpl = opt_piece(
            "Script Template: "@,
            spec_script_template(a.address_type, a.witness_version),
            nl,
        );
        let w = text_witness_section(a);
        let parts = seq![
            rule_line(),
            address,
            rule_line(),
            "Status: VALID\n"@,
            "Networks: "@ + spec_format_networks(a.networks) + nl,
            "Type: "@ + spec_format_address_type(a.address_type) + nl,
            ck,
            "\nScript Details\n"@,
            hex,
            listing,
            tmpl,
            w,
            rule_line(),
        ];
        reveal_with_fuel(join_parts, 14);
        assert(r == join_parts(parts, 13));
        lemma_line_in_join(parts, 13, 1, address);
        lemma_line_in_join(parts, 13, 3, "Status: VALID\n"@);
        lemma_line_in_join(parts, 13, 7, "\nScript Details\n"@);
        if a.witness_version is None {
            lemma_line_in_join(parts, 13, 11, "\nLegacy Address (no witness program)\n"@);
        }
        lemma_line_in_join(parts, 13, 4, parts[4]);
        lemma_line_in_join(parts, 13, 5, parts[5]);
        if let Some(c) = a.checksum {
            lemma_line_in_join(parts, 13, 6, "Checksum: "@ + c.spec_label() + " (valid)\n"@);
        }
        if let Some(h) = a.script_pubkey_hex {
            lemma_line_in_join(parts, 13, 8, "Script PubKey (Hex): "@ + h + nl);
        }
        if let Some(s) = a.script_asm {
            lemma_line_in_join(parts, 13, 9, "Script ASM: "@ + s + nl);
        }
        if let Some(t) = spec_script_template(a.address_type, a.witness_version) {
            lemma_line_in_join(parts, 13, 10, "Script Template: "@ + t + nl);
        }
        if let Some(v) = a.witness_version {
            let version = "Version: "@ + decimal(v as nat) + nl;
            let prog = opt_piece("Program (Hex): "@, a.witness_program_hex, nl);
            let meaning = opt_piece("Payload Meaning: "@, a.payload_explanation, nl);
            let wparts = seq!["\nWitness Data\n"@, version, prog, meaning];
            assert(w == join_parts(wparts, 4));
            lemma_line_in_join(wparts, 4, 1, version);
            lemma_part_in_join(parts, 13, 11, version);
            if let Some(x) = a.witness_program_hex {
                lemma_line_in_join(wparts, 4, 2, "Program (Hex): "@ + x + nl);
                lemma_part_in_join(parts, 13, 11, "Program (Hex): "@ + x + nl);
            }
            if let Some(e) = a.payload_explanation {
                lemma_line_in_join(wparts, 4, 3, "Payload Meaning: "@ + e + nl);
                lemma_part_in_join(parts, 13, 11, "Payload Meaning: "@ + e + nl);
            }
        }
    }
}

/// The Markdown report shows each field of the analysis on its own bullet:
/// the input; for an invalid address the error; for a valid one the
/// networks, the type, the checksum, the script in hex and as opcodes, the
/// script template, and for a SegWit address the witness version, program
/// and its meaning.
pub proof fn lemma_readme_lines(a: AnalysisView)
    ensures
        contains_text(spec_readme(a), "**Input:** `"@ + a.input + "`\n\n"@),
        !a.is_valid ==> (a.error matches Some(e) ==> contains_text(
            spec_readme(a),
            "- Error: `"@ + e + "`\n"@,
        )),
        contains_text(spec_readme(a), "## Status\n"@),
        !a.is_valid ==> contains_text(spec_readme(a), "- Invalid\n"@),
        a.is_valid ==> {
            &&& contains_text(spec_readme(a), "- Valid\n"@)
            &&& contains_text(spec_readme(a), "\n## Script\n"@)
            &&& contains_text(spec_readme(a), "\n## Witness\n"@)
            &&& a.witness_version is None ==> contains_text(
                spec_readme(a),
                "- None (legacy address)\n"@,
            )
            &&& contains_text(
                spec_readme(a),
                "- Networks: "@ + spec_format_networks(a.networks) + "\n"@,
            )
            &&& contains_text(
                spec_readme(a),
                "- Type: "@ + spec_format_address_type(a.address_type) + "\n"@,
            )
            &&& a.checksum matches Some(c) ==> contains_text(
                spec_readme(a),
                "- Checksum: "@ + c.spec_label() + " (valid)\n"@,
            )
            &&& a.script_pubkey_hex matches Some(h) ==> contains_text(
                spec_readme(a),
                "- ScriptPubKey (hex): `"@ + h + "`\n"@,
            )
            &&& a.script_asm matches Some(s) ==> contains_text(
                spec_readme(a),
                "- Script ASM: `"@ + s + "`\n"@,
            )
            &&& spec_script_template(a.address_type, a.witness_version) matches Some(t)
                ==> contains_text(spec_readme(a), "- Script template: `"@ + t + "`\n"@)
            &&& a.witness_version matches Some(v) ==> {
                &&& contains_text(spec_readme(a), "- Version: `"@ + decimal(v as nat) + "`\n"@)
                &&& a.witness_program_hex matches Some(w) ==> contains_text(
                    spec_readme(a),
                    "- Program (hex): `"@ + w + "`\n"@,
                )
                &&& a.payload_explanation matches Some(e) ==> contains_text(
                    spec_readme(a),
                    "- Meaning: `"@ + e + "`\n"@,
                )
            }
        },
{
    let r = spec_readme(a);
    let tick = "`\n"@;
    let input = "**Input:** `"@ + a.input + "`\n\n"@;
    let title = "# Bitcoin Address Analysis\n\n"@;
    if !a.is_valid {
        let parts = seq![
            title,
            input,
            "## Status\n"@,
            "- Invalid\n"@,
            opt_piece("- Error: `"@, a.error, tick),
        ];
        reveal_with_fuel(join_parts, 6);
        assert(r == join_parts(parts, 5));
        lemma_line_in_join(parts, 5, 1, input);
        lemma_line_in_join(parts, 5, 2, "## Status\n"@);
        lemma_line_in_join(parts, 5, 3, "- Invalid\n"@);
        if let Some(e) = a.error {
            lemma_line_in_join(parts, 5, 4, "- Error: `"@ + e + tick);
        }
    } else {
        let nl = "\n"@;
        let ck = opt_piece("- Checksum: "@, checksum_label(a.checksum), " (valid)\n"@);
        let hex = opt_piece("- ScriptPubKey (hex): `"@, a.script_pubkey_hex, tick);
        let listing = opt_piece("- Script ASM: `"@, a.script_asm, tick);
        let tmpl = opt_piece(
            "- Script template: `"@,
            spec_script_template(a.address_type, a.witness_version),
            tick,
        );
        let w = readme_witness_section(a);
        let parts = seq![
            title,
            input,
            "## Status\n"@,
            "- Valid\n"@,
            "- Networks: "@ + spec_format_networks(a.networks) + nl,
            "- Type: "@ + spec_format_address_type(a.address_type) + nl,
            ck,
            "\n## Script\n"@,
            hex,
            listing,
            tmpl,
            "\n## Witness\n"@,
            w,
        ];
        reveal_with_fuel(join_parts, 14);
        assert(r == join_parts(parts, 13));
        lemma_line_in_join(parts, 13, 1, input);
        lemma_line_in_join(parts, 13, 2, "## Status\n"@);
        lemma_line_in_join(parts, 13, 3, "- Valid\n"@);
        lemma_line_in_join(parts, 13, 7, "\n## Script\n"@);
        lemma_line_in_join(parts, 13, 11, "\n## Witness\n"@);
        if a.witness_version is None {
            lemma_line_in_join(parts, 13, 12, "- None (legacy address)\n"@);
        }
        lemma_line_in_join(parts, 13, 4, parts[4]);
        lemma_line_in_join(parts, 13, 5, parts[5]);
        if let Some(c) = a.checksum {
            lemma_line_in_join(parts, 13, 6, "- Checksum: "@ + c.spec_label() + " (valid)\n"@);
        }
        if let Some(h) = a.script_pubkey_hex {
            lemma_line_in_join(parts, 13, 8, "- ScriptPubKey (hex): `"@ + h + tick);
        }
        if let Some(s) = a.script_asm {
            lemma_line_in_join(parts, 13, 9, "- Script ASM: `"@ + s + tick);
        }
        if let Some(t) = spec_script_template(a.address_type, a.witness_version) {
            lemma_line_in_join(parts, 13, 10, "- Script template: `"@ + t + tick);
        }
        if let Some(v) = a.witness_version {
            let version = "- Version: `"@ + decimal(v as nat) + tick;
            let prog = opt_piece("- Program (hex): `"@, a.witness_program_hex, tick);
            let meaning = opt_piece("- Meaning: `"@, a.payload_explanation, tick);
            let wparts = seq![version, prog, meaning];
            reveal_with_fuel(join_parts, 4);
            assert(w == join_parts(wparts, 3));
            lemma_line_in_join(wparts, 3, 0, version);
            lemma_part_in_join(parts, 13, 12, version);
            if let Some(x) = a.witness_program_hex {
                lemma_line_in_join(wparts, 3, 1, "- Program (hex): `"@ + x + tick);
                lemma_part_in_join(parts, 13, 12, "- Program (hex): `"@ + x + tick);
            }
            if let Some(e) = a.payload_explanation {
                lemma_line_in_join(wparts, 3, 2, "- Meaning: `"@ + e + tick);
                lemma_part_in_join(parts, 13, 12, "- Meaning: `"@ + e + tick);
            }
        }
    }
}

} // verus!
