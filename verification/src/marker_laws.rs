//! The text report shows the witness section of a SegWit address and the
//! legacy line of any other address, never both.

use vstd::prelude::*;
use crate::encoding::{decimal, decimal_digit};
use crate::formatter::{
    checksum_label, join_labels, network_label, opt_piece, rule_line, spec_format_address_type,
    spec_format_networks, spec_script_template, spec_text_report, text_witness_section,
};
use crate::laws::{contains_text, lemma_contains_middle};
use crate::types::{AddressType, AnalysisView, ChecksumType, Network};

verus! {

/// A marker phrase that cannot run across the boundaries of the report's
/// pieces: no line break, colon, comma or parenthesis in it, no space at
/// either end, and no digit first.
pub open spec fn plain_marker(p: Seq<char>) -> bool {
    &&& p.len() >= 2
    &&& !p.contains('\n')
    &&& !p.contains(':')
    &&& !p.contains(',')
    &&& !p.contains('(')
    &&& p[0] != ' '
    &&& p.last() != ' '
    &&& !('0' <= p[0] <= '9')
}

/// `s` is not empty and ends a line.
pub open spec fn ends_line(s: Seq<char>) -> bool {
    s.len() > 0 && s.last() == '\n'
}

/// No occurrence of `p` in `a + b` can start in `a` and end in `b`, by
/// what the characters around the boundary are.
pub open spec fn separated(a: Seq<char>, b: Seq<char>, p: Seq<char>) -> bool {
    ||| a.len() == 0
    ||| b.len() == 0
    ||| !p.contains(a.last())
    ||| !p.contains(b[0])
    ||| a.len() >= 2 && !p.contains(a[a.len() - 2]) && p[0] != a.last()
    ||| b.len() >= 2 && !p.contains(b[1]) && p.last() != b[0]
}

/// Joining two texts without `p` at a separated boundary gives a text
/// without `p`.
pub proof fn lemma_absent_concat(a: Seq<char>, b: Seq<char>, p: Seq<char>)
    requires
        p.len() > 0,
        !contains_text(a, p),
        !contains_text(b, p),
        separated(a, b, p),
    ensures
        !contains_text(a + b, p),
{
    let s = a + b;
    let n = p.len() as int;
    if contains_text(s, p) {
        let i = choose|i: int|
            0 <= i && i + p.len() <= s.len() && #[trigger] s.subrange(i, i + p.len()) == p;
        if i + n <= a.len() {
            assert(a.subrange(i, i + n) =~= s.subrange(i, i + n));
        } else if i >= a.len() {
            let j = i - a.len();
            assert(b.subrange(j, j + n) =~= s.subrange(i, i + n));
        } else {
            let k = a.len() - 1 - i;
            assert(p[k] == s.subrange(i, i + n)[k]);
            assert(p[k] == a.last());
            assert(p[k + 1] == s.subrange(i, i + n)[k + 1]);
            assert(p[k + 1] == b[0]);
            if k > 0 {
                assert(p[k - 1] == s.subrange(i, i + n)[k - 1]);
                assert(p[k - 1] == a[a.len() - 2]);
            }
            if k + 2 < n {
                assert(p[k + 2] == s.subrange(i, i + n)[k + 2]);
                assert(p[k + 2] == b[1]);
            }
        }
    }
}

/// A text in which every occurrence of `p`'s first character is followed,
/// three places on, by a character other than `p`'s fourth, has no `p`.
pub proof fn lemma_absent_by_probe(s: Seq<char>, p: Seq<char>)
    requires
        p.len() > 3,
        forall|i: int|
            0 <= i && i + p.len() <= s.len() && #[trigger] s[i] == p[0] ==> s[i + 3] != p[3],
    ensures
        !contains_text(s, p),
{
    if contains_text(s, p) {
        let i = choose|i: int|
            0 <= i && i + p.len() <= s.len() && #[trigger] s.subrange(i, i + p.len()) == p;
        assert(s.subrange(i, i + p.len())[0] == s[i]);
        assert(s.subrange(i, i + p.len())[3] == s[i + 3]);
    }
}

/// Appending a text that is empty or ends a line, with no `p` in either,
/// to one that ends a line.
pub proof fn lemma_append_piece(a: Seq<char>, b: Seq<char>, p: Seq<char>)
    requires
        plain_marker(p),
        !contains_text(a, p),
        !contains_text(b, p),
        ends_line(a),
        b.len() == 0 || ends_line(b),
    ensures
        !contains_text(a + b, p),
        ends_line(a + b),
{
    lemma_absent_concat(a, b, p);
}

/// The line `prefix value suffix`, where the prefix ends with ": " and the
/// suffix starts a new line or a parenthesis, has no `p` when its parts have
/// none.
pub proof fn lemma_line_piece(prefix: Seq<char>, value: Seq<char>, suffix: Seq<char>, p: Seq<char>)
    requires
        plain_marker(p),
        !contains_text(prefix, p),
        !contains_text(value, p),
        !contains_text(suffix, p),
        prefix.len() >= 2,
        prefix[prefix.len() - 2] == ':',
        prefix.last() == ' ',
        ends_line(suffix),
        suffix[0] == '\n' || (suffix.len() >= 2 && suffix[0] == ' ' && suffix[1] == '('),
    ensures
        !contains_text(prefix + value + suffix, p),
        ends_line(prefix + value + suffix),
{
    lemma_absent_concat(prefix, value, p);
    let x = prefix + value;
    if value.len() > 0 {
        assert(x[x.len() - 2] == ':' || x.last() == value.last());
    }
    lemma_absent_concat(x, suffix, p);
}

/// An optional text without `p`.
pub open spec fn free_of(value: Option<Seq<char>>, p: Seq<char>) -> bool {
    match value {
        Some(s) => !contains_text(s, p),
        None => true,
    }
}

/// The optional line `prefix value suffix` has no `p` when its parts have
/// none; it is empty or ends a line.
pub proof fn lemma_opt_piece(
    prefix: Seq<char>,
    value: Option<Seq<char>>,
    suffix: Seq<char>,
    p: Seq<char>,
)
    requires
        plain_marker(p),
        !contains_text(prefix, p),
        free_of(value, p),
        !contains_text(suffix, p),
        prefix.len() >= 2,
        prefix[prefix.len() - 2] == ':',
        prefix.last() == ' ',
        ends_line(suffix),
        suffix[0] == '\n' || (suffix.len() >= 2 && suffix[0] == ' ' && suffix[1] == '('),
    ensures
        !contains_text(opt_piece(prefix, value, suffix), p),
        opt_piece(prefix, value, suffix).len() == 0 || ends_line(opt_piece(prefix, value, suffix)),
{
    if let Some(v) = value {
        lemma_line_piece(prefix, v, suffix, p);
    }
}

/// The decimal text of a number holds digits only.
pub proof fn lemma_decimal_digits(n: nat)
    ensures
        forall|i: int| 0 <= i < decimal(n).len() ==> '0' <= #[trigger] decimal(n)[i] <= '9',
    decreases n,
{
    let k = (n % 10) as int;
    assert(((48 + k) as char) as int == 48 + k);
    assert('0' <= decimal_digit(k) <= '9');
    if n >= 10 {
        lemma_decimal_digits(n / 10);
        let t = decimal(n / 10);
        assert(decimal(n) == t.push(decimal_digit(k)));
        assert forall|i: int| 0 <= i < decimal(n).len() implies '0' <= #[trigger] decimal(n)[i]
            <= '9' by {
            if i < t.len() {
                assert(decimal(n)[i] == t[i]);
            }
        }
    } else {
        assert(decimal(n) == seq![decimal_digit(k)]);
    }
}

/// The decimal digits of a number hold no marker.
pub proof fn lemma_decimal_free(n: nat, p: Seq<char>)
    requires
        plain_marker(p),
    ensures
        !contains_text(decimal(n), p),
{
    lemma_decimal_digits(n);
    let s = decimal(n);
    if contains_text(s, p) {
        let i = choose|i: int|
            0 <= i && i + p.len() <= s.len() && #[trigger] s.subrange(i, i + p.len()) == p;
        assert(s.subrange(i, i + p.len())[0] == s[i]);
    }
}

/// The fixed texts of the text report, and the texts it picks from fixed
/// lists, hold no `p`.
pub open spec fn report_texts_free(p: Seq<char>) -> bool {
    &&& !contains_text(rule_line(), p)
    &&& !contains_text("Address: "@, p)
    &&& !contains_text("\n"@, p)
    &&& !contains_text("Status: VALID\n"@, p)
    &&& !contains_text("Networks: "@, p)
    &&& !contains_text("Type: "@, p)
    &&& !contains_text("Checksum: "@, p)
    &&& !contains_text(" (valid)\n"@, p)
    &&& !contains_text("\nScript Details\n"@, p)
    &&& !contains_text("Script PubKey (Hex): "@, p)
    &&& !contains_text("Script ASM: "@, p)
    &&& !contains_text("Script Template: "@, p)
    &&& !contains_text("Version: "@, p)
    &&& !contains_text("Program (Hex): "@, p)
    &&& !contains_text("Payload Meaning: "@, p)
    &&& !contains_text(", "@, p)
    &&& !contains_text("Unknown"@, p)
    &&& forall|n: Network| !contains_text(#[trigger] network_label(n), p)
    &&& forall|t: Option<AddressType>| !contains_text(#[trigger] spec_format_address_type(t), p)
    &&& forall|c: ChecksumType| !contains_text(#[trigger] c.spec_label(), p)
    &&& forall|t: Option<AddressType>, v: Option<u8>|
        free_of(#[trigger] spec_script_template(t, v), p)
}

/// The network list holds no `p`.
pub proof fn lemma_join_free(networks: Seq<Network>, p: Seq<char>)
    requires
        plain_marker(p),
        report_texts_free(p),
    ensures
        !contains_text(join_labels(networks), p),
    decreases networks.len(),
{
    reveal_strlit(", ");
    if networks.len() == 0 {
        assert(!contains_text(join_labels(networks), p));
    } else if networks.len() == 1 {
        assert(!contains_text(network_label(networks[0]), p));
    } else {
        let a = join_labels(networks.drop_last());
        lemma_join_free(networks.drop_last(), p);
        lemma_absent_concat(a, ", "@, p);
        let x = a + ", "@;
        assert(x[x.len() - 2] == ',' && x.last() == ' ');
        assert(!contains_text(network_label(networks.last()), p));
        lemma_absent_concat(x, network_label(networks.last()), p);
    }
}

/// The marker of the witness section.
pub open spec fn witness_marker() -> Seq<char> {
    "Witness Data"@
}

/// The marker of the legacy line.
pub open spec fn legacy_marker() -> Seq<char> {
    "Legacy Address"@
}

/// A text in which each marker's first character is never followed, three
/// places on, by that marker's fourth character holds neither marker.
proof fn lemma_lit_free(s: Seq<char>)
    requires
        forall|i: int|
            0 <= i && i + witness_marker().len() <= s.len() && #[trigger] s[i] == witness_marker()[0]
                ==> s[i + 3] != witness_marker()[3],
        forall|i: int|
            0 <= i && i + legacy_marker().len() <= s.len() && #[trigger] s[i] == legacy_marker()[0]
                ==> s[i + 3] != legacy_marker()[3],
    ensures
        !contains_text(s, witness_marker()),
        !contains_text(s, legacy_marker()),
{
    reveal_strlit("Witness Data");
    reveal_strlit("Legacy Address");
    lemma_absent_by_probe(s, witness_marker());
    lemma_absent_by_probe(s, legacy_marker());
}

/// Both markers are plain, no fixed text of the report holds either, and
/// each section's heading lacks the other section's marker.
pub proof fn lemma_report_texts_free()
    ensures
        plain_marker(witness_marker()),
        plain_marker(legacy_marker()),
        report_texts_free(witness_marker()),
        report_texts_free(legacy_marker()),
        !contains_text("\nWitness Data\n"@, legacy_marker()),
        !contains_text("\nLegacy Address (no witness program)\n"@, witness_marker()),
{
    reveal_strlit("Witness Data");
    reveal_strlit("Legacy Address");
    assert(plain_marker(witness_marker()));
    assert(plain_marker(legacy_marker()));
    reveal_strlit("------------------------------------------------------------\n");
    lemma_lit_free("------------------------------------------------------------\n"@);
    reveal_strlit("Address: ");
    lemma_lit_free("Address: "@);
    reveal_strlit("\n");
    lemma_lit_free("\n"@);
    reveal_strlit("Status: VALID\n");
    lemma_lit_free("Status: VALID\n"@);
    reveal_strlit("Networks: ");
    lemma_lit_free("Networks: "@);
    reveal_strlit("Type: ");
    lemma_lit_free("Type: "@);
    reveal_strlit("Checksum: ");
    lemma_lit_free("Checksum: "@);
    reveal_strlit(" (valid)\n");
    lemma_lit_free(" (valid)\n"@);
    reveal_strlit("\nScript Details\n");
    lemma_lit_free("\nScript Details\n"@);
    reveal_strlit("Script PubKey (Hex): ");
    lemma_lit_free("Script PubKey (Hex): "@);
    reveal_strlit("Script ASM: ");
    lemma_lit_free("Script ASM: "@);
    reveal_strlit("Script Template: ");
    lemma_lit_free("Script Template: "@);
    reveal_strlit("Version: ");
    lemma_lit_free("Version: "@);
    reveal_strlit("Program (Hex): ");
    lemma_lit_free("Program (Hex): "@);
    reveal_strlit("Payload Meaning: ");
    lemma_lit_free("Payload Meaning: "@);
    reveal_strlit(", ");
    lemma_lit_free(", "@);
    reveal_strlit("Unknown");
    lemma_lit_free("Unknown"@);
    reveal_strlit("Mainnet");
    lemma_lit_free("Mainnet"@);
    reveal_strlit("Testnet");
    lemma_lit_free("Testnet"@);
    reveal_strlit("Signet");
    lemma_lit_free("Signet"@);
    reveal_strlit("Regtest");
    lemma_lit_free("Regtest"@);
    reveal_strlit("Testnet4");
    lemma_lit_free("Testnet4"@);
    reveal_strlit("P2PKH (Pay to PubKey Hash)");
    lemma_lit_free("P2PKH (Pay to PubKey Hash)"@);
    reveal_strlit("P2SH (Pay to Script Hash)");
    lemma_lit_free("P2SH (Pay to Script Hash)"@);
    reveal_strlit("P2WPKH (SegWit v0 PubKey Hash)");
    lemma_lit_free("P2WPKH (SegWit v0 PubKey Hash)"@);
    reveal_strlit("P2WSH (SegWit v0 Script Hash)");
    lemma_lit_free("P2WSH (SegWit v0 Script Hash)"@);
    reveal_strlit("P2TR (Taproot v1)");
    lemma_lit_free("P2TR (Taproot v1)"@);
    reveal_strlit("P2A (Pay to Anchor)");
    lemma_lit_free("P2A (Pay to Anchor)"@);
    reveal_strlit("Base58Check");
    lemma_lit_free("Base58Check"@);
    reveal_strlit("Bech32");
    lemma_lit_free("Bech32"@);
    reveal_strlit("Bech32m");
    lemma_lit_free("Bech32m"@);
    reveal_strlit("OP_DUP OP_HASH160 <pubkey_hash> OP_EQUALVERIFY OP_CHECKSIG");
    lemma_lit_free("OP_DUP OP_HASH160 <pubkey_hash> OP_EQUALVERIFY OP_CHECKSIG"@);
    reveal_strlit("OP_HASH160 <script_hash> OP_EQUAL");
    lemma_lit_free("OP_HASH160 <script_hash> OP_EQUAL"@);
    reveal_strlit("OP_0 <pubkey_hash>");
    lemma_lit_free("OP_0 <pubkey_hash>"@);
    reveal_strlit("OP_0 <script_hash>");
    lemma_lit_free("OP_0 <script_hash>"@);
    reveal_strlit("OP_1 <x-only pubkey>");
    lemma_lit_free("OP_1 <x-only pubkey>"@);
    reveal_strlit("OP_1 0x4e73 (anchor)");
    lemma_lit_free("OP_1 0x4e73 (anchor)"@);
    reveal_strlit("\nWitness Data\n");
    lemma_absent_by_probe("\nWitness Data\n"@, legacy_marker());
    reveal_strlit("\nLegacy Address (no witness program)\n");
    lemma_absent_by_probe("\nLegacy Address (no witness program)\n"@, witness_marker());
    assert forall|p: Seq<char>| p == witness_marker() || p == legacy_marker() implies report_texts_free(p) by {
        assert forall|t: Option<AddressType>, v: Option<u8>|
            free_of(#[trigger] spec_script_template(t, v), p) by {
            match t {
                Some(AddressType::P2a) => {
                    if v == Some(1u8) {
                    } else {
                    }
                },
                _ => {},
            }
        }
    }
}

/// The texts of an analysis that the report prints as they are hold no `p`.
pub open spec fn fields_free(a: AnalysisView, p: Seq<char>) -> bool {
    &&& !contains_text(a.input, p)
    &&& free_of(a.script_pubkey_hex, p)
    &&& free_of(a.script_asm, p)
    &&& free_of(a.witness_program_hex, p)
    &&& free_of(a.payload_explanation, p)
}

/// The text report of a valid analysis holds no `p` when neither its
/// texts nor its witness section do.
proof fn lemma_report_free(a: AnalysisView, p: Seq<char>)
    requires
        a.is_valid,
        plain_marker(p),
        report_texts_free(p),
        fields_free(a, p),
        !contains_text(text_witness_section(a), p),
        ends_line(text_witness_section(a)),
    ensures
        !contains_text(spec_text_report(a), p),
{
    reveal_strlit("------------------------------------------------------------\n");
    reveal_strlit("Address: ");
    reveal_strlit("\n");
    reveal_strlit("Status: VALID\n");
    reveal_strlit("Networks: ");
    reveal_strlit("Type: ");
    reveal_strlit("Checksum: ");
    reveal_strlit(" (valid)\n");
    reveal_strlit("\nScript Details\n");
    reveal_strlit("Script PubKey (Hex): ");
    reveal_strlit("Script ASM: ");
    reveal_strlit("Script Template: ");
    let nl = "\n"@;
    let acc0 = rule_line();
    lemma_line_piece("Address: "@, a.input, nl, p);
    let acc1 = acc0 + ("Address: "@ + a.input + nl);
    lemma_append_piece(acc0, "Address: "@ + a.input + nl, p);
    let acc2 = acc1 + rule_line();
    lemma_append_piece(acc1, rule_line(), p);
    let acc3 = acc2 + "Status: VALID\n"@;
    lemma_append_piece(acc2, "Status: VALID\n"@, p);
    let nets = spec_format_networks(a.networks);
    if a.networks.len() > 0 {
        lemma_join_free(a.networks, p);
    }
    lemma_line_piece("Networks: "@, nets, nl, p);
    let acc4 = acc3 + ("Networks: "@ + nets + nl);
    lemma_append_piece(acc3, "Networks: "@ + nets + nl, p);
    let ty = spec_format_address_type(a.address_type);
    assert(!contains_text(ty, p));
    lemma_line_piece("Type: "@, ty, nl, p);
    let acc5 = acc4 + ("Type: "@ + ty + nl);
    lemma_append_piece(acc4, "Type: "@ + ty + nl, p);
    let ck = checksum_label(a.checksum);
    if let Some(c) = a.checksum {
        assert(!contains_text(c.spec_label(), p));
    }
    lemma_opt_piece("Checksum: "@, ck, " (valid)\n"@, p);
    let acc6 = acc5 + opt_piece("Checksum: "@, ck, " (valid)\n"@);
    lemma_append_piece(acc5, opt_piece("Checksum: "@, ck, " (valid)\n"@), p);
    let acc7 = acc6 + "\nScript Details\n"@;
    lemma_append_piece(acc6, "\nScript Details\n"@, p);
    lemma_opt_piece("Script PubKey (Hex): "@, a.script_pubkey_hex, nl, p);
    let acc8 = acc7 + opt_piece("Script PubKey (Hex): "@, a.script_pubkey_hex, nl);
    lemma_append_piece(acc7, opt_piece("Script PubKey (Hex): "@, a.script_pubkey_hex, nl), p);
    lemma_opt_piece("Script ASM: "@, a.script_asm, nl, p);
    let acc9 = acc8 + opt_piece("Script ASM: "@, a.script_asm, nl);
    lemma_append_piece(acc8, opt_piece("Script ASM: "@, a.script_asm, nl), p);
    let tmpl = spec_script_template(a.address_type, a.witness_version);
    assert(free_of(tmpl, p));
    lemma_opt_piece("Script Template: "@, tmpl, nl, p);
    let acc10 = acc9 + opt_piece("Script Template: "@, tmpl, nl);
    lemma_append_piece(acc9, opt_piece("Script Template: "@, tmpl, nl), p);
    let acc11 = acc10 + text_witness_section(a);
    lemma_append_piece(acc10, text_witness_section(a), p);
    lemma_append_piece(acc11, rule_line(), p);
    assert(spec_text_report(a) == acc11 + rule_line());
}

/// A valid text report shows the witness section, with its version, when the
/// address has a witness version, and the legacy line otherwise; it never
/// shows the marker of the other one, provided the analysis's own texts
/// (input, script, listing, program, explanation) hold neither marker.
pub proof fn lemma_text_witness_or_legacy(a: AnalysisView)
    requires
        a.is_valid,
        fields_free(a, witness_marker()),
        fields_free(a, legacy_marker()),
    ensures
        match a.witness_version {
            Some(v) => {
                &&& contains_text(
                    spec_text_report(a),
                    "\nWitness Data\nVersion: "@ + decimal(v as nat) + "\n"@,
                )
                &&& !contains_text(spec_text_report(a), legacy_marker())
            },
            None => {
                &&& contains_text(spec_text_report(a), "\nLegacy Address (no witness program)\n"@)
                &&& !contains_text(spec_text_report(a), witness_marker())
            },
        },
{
    lemma_report_texts_free();
    reveal_strlit("\n");
    reveal_strlit("Version: ");
    reveal_strlit("Program (Hex): ");
    reveal_strlit("Payload Meaning: ");
    reveal_strlit("\nWitness Data\n");
    reveal_strlit("\nWitness Data\nVersion: ");
    reveal_strlit("\nLegacy Address (no witness program)\n");
    let r = spec_text_report(a);
    let pre = rule_line() + ("Address: "@ + a.input + "\n"@) + rule_line() + "Status: VALID\n"@ + (
    "Networks: "@ + spec_format_networks(a.networks) + "\n"@) + ("Type: "@
        + spec_format_address_type(a.address_type) + "\n"@) + opt_piece(
        "Checksum: "@,
        checksum_label(a.checksum),
        " (valid)\n"@,
    ) + "\nScript Details\n"@ + opt_piece("Script PubKey (Hex): "@, a.script_pubkey_hex, "\n"@)
        + opt_piece("Script ASM: "@, a.script_asm, "\n"@) + opt_piece(
        "Script Template: "@,
        spec_script_template(a.address_type, a.witness_version),
        "\n"@,
    );
    let w = text_witness_section(a);
    assert(r == pre + w + rule_line());
    let nl = "\n"@;
    match a.witness_version {
        Some(v) => {
            let p = legacy_marker();
            let dec = decimal(v as nat);
            let head = "\nWitness Data\n"@ + ("Version: "@ + dec + nl);
            let prog = opt_piece("Program (Hex): "@, a.witness_program_hex, nl);
            let expl = opt_piece("Payload Meaning: "@, a.payload_explanation, nl);
            assert(w == head + prog + expl);
            // The section holds no legacy marker.
            lemma_decimal_free(v as nat, p);
            lemma_line_piece("Version: "@, dec, nl, p);
            lemma_append_piece("\nWitness Data\n"@, "Version: "@ + dec + nl, p);
            lemma_opt_piece("Program (Hex): "@, a.witness_program_hex, nl, p);
            lemma_append_piece(head, prog, p);
            lemma_opt_piece("Payload Meaning: "@, a.payload_explanation, nl, p);
            lemma_append_piece(head + prog, expl, p);
            lemma_report_free(a, p);
            // The section's heading and version line are there.
            let x = "\nWitness Data\nVersion: "@ + dec + nl;
            assert(head =~= x);
            assert(r =~= pre + x + (prog + expl + rule_line()));
            lemma_contains_middle(pre, x, prog + expl + rule_line());
        },
        None => {
            let x = "\nLegacy Address (no witness program)\n"@;
            assert(w == x);
            lemma_report_free(a, witness_marker());
            lemma_contains_middle(pre, x, rule_line());
        },
    }
}

} // verus!
