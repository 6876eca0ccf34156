//! What the labels and encodings mean: different things get different
//! names, the names agree with one another, and encodings read back.

use vstd::prelude::*;
use crate::address::segwit_address_type;
use crate::analyzer::{spec_checksum_for, spec_explanation};
use crate::encoding::{decimal, decimal_digit, hex_digit, lower_hex};
use crate::formatter::{
    network_label, spec_address_type_label, spec_format_address_type, spec_format_networks,
    spec_script_template,
};
use crate::laws::{contains_text, starts_with};
use crate::marker_laws::lemma_absent_by_probe;
use crate::report_laws::{lemma_contains_left, lemma_contains_right, lemma_contains_self};
use crate::types::{AddressType, ChecksumType, Network};

verus! {

/// Different address types (of those the analyzer names) have different
/// short labels; the descriptive name of a type begins with its label, and a
/// type that is not named, or no type, reads "Unknown".
pub proof fn lemma_address_type_labels()
    ensures
        forall|t1: AddressType, t2: AddressType|
            t1 != AddressType::Other && t2 != AddressType::Other && t1 != t2
                ==> #[trigger] spec_address_type_label(t1) != #[trigger] spec_address_type_label(t2),
        forall|t: AddressType|
            t != AddressType::Other ==> starts_with(
                #[trigger] spec_format_address_type(Some(t)),
                spec_address_type_label(t) + " ("@,
            ),
        spec_format_address_type(None) == spec_address_type_label(AddressType::Other),
        spec_format_address_type(Some(AddressType::Other)) == spec_address_type_label(
            AddressType::Other,
        ),
{
    reveal_strlit("P2PKH");
    reveal_strlit("P2SH");
    reveal_strlit("P2WPKH");
    reveal_strlit("P2WSH");
    reveal_strlit("P2TR");
    reveal_strlit("P2A");
    reveal_strlit(" (");
    reveal_strlit("P2PKH (Pay to PubKey Hash)");
    reveal_strlit("P2SH (Pay to Script Hash)");
    reveal_strlit("P2WPKH (SegWit v0 PubKey Hash)");
    reveal_strlit("P2WSH (SegWit v0 Script Hash)");
    reveal_strlit("P2TR (Taproot v1)");
    reveal_strlit("P2A (Pay to Anchor)");
    assert forall|t1: AddressType, t2: AddressType|
        t1 != AddressType::Other && t2 != AddressType::Other && t1 != t2 implies
        #[trigger] spec_address_type_label(t1) != #[trigger] spec_address_type_label(t2) by {
        let a = spec_address_type_label(t1);
        let b = spec_address_type_label(t2);
        if a.len() == b.len() {
            assert(a[2] != b[2] || a[3] != b[3]);
        }
    }
    assert forall|t: AddressType| t != AddressType::Other implies starts_with(
        #[trigger] spec_format_address_type(Some(t)),
        spec_address_type_label(t) + " ("@,
    ) by {
        let d = spec_format_address_type(Some(t));
        let l = spec_address_type_label(t) + " ("@;
        assert(d.subrange(0, l.len() as int) =~= l);
    }
}

/// Different networks have different labels.
pub proof fn lemma_network_labels_distinct()
    ensures
        forall|n1: Network, n2: Network|
            n1 != n2 ==> #[trigger] network_label(n1) != #[trigger] network_label(n2),
{
    reveal_strlit("Mainnet");
    reveal_strlit("Testnet");
    reveal_strlit("Signet");
    reveal_strlit("Regtest");
    reveal_strlit("Testnet4");
    assert forall|n1: Network, n2: Network| n1 != n2 implies #[trigger] network_label(n1)
        != #[trigger] network_label(n2) by {
        let a = network_label(n1);
        let b = network_label(n2);
        if a.len() == b.len() {
            assert(a[0] != b[0] || a[1] != b[1]);
        }
    }
}

/// Different checksums have different names.
pub proof fn lemma_checksum_labels_distinct()
    ensures
        forall|c1: ChecksumType, c2: ChecksumType|
            c1 != c2 ==> #[trigger] c1.spec_label() != #[trigger] c2.spec_label(),
{
    reveal_strlit("Base58Check");
    reveal_strlit("Bech32");
    reveal_strlit("Bech32m");
    assert forall|c1: ChecksumType, c2: ChecksumType| c1 != c2 implies #[trigger] c1.spec_label()
        != #[trigger] c2.spec_label() by {
        assert(c1.spec_label().len() != c2.spec_label().len());
    }
}

/// The network text names every listed network, and a single network by
/// its label alone; no network reads "Unknown".
pub proof fn lemma_network_text(networks: Seq<Network>)
    ensures
        forall|i: int|
            0 <= i < networks.len() ==> contains_text(
                spec_format_networks(networks),
                #[trigger] network_label(networks[i]),
            ),
        forall|i: int|
            0 < i < networks.len() ==> contains_text(
                spec_format_networks(networks),
                ", "@ + #[trigger] network_label(networks[i]),
            ),
        networks.len() == 1 ==> spec_format_networks(networks) == network_label(networks[0]),
        networks.len() == 0 ==> spec_format_networks(networks) == "Unknown"@,
    decreases networks.len(),
{
    if networks.len() > 1 {
        let rest = networks.drop_last();
        lemma_network_text(rest);
        assert forall|i: int| 0 <= i < networks.len() implies contains_text(
            spec_format_networks(networks),
            #[trigger] network_label(networks[i]),
        ) by {
            let a = spec_format_networks(rest);
            if i < networks.len() - 1 {
                assert(network_label(networks[i]) == network_label(rest[i]));
                lemma_contains_left(a, ", "@, network_label(networks[i]));
                lemma_contains_left(
                    a + ", "@,
                    network_label(networks.last()),
                    network_label(networks[i]),
                );
            } else {
                lemma_contains_self(network_label(networks.last()));
                lemma_contains_right(
                    a + ", "@,
                    network_label(networks.last()),
                    network_label(networks[i]),
                );
            }
        }
        assert forall|i: int| 0 < i < networks.len() implies contains_text(
            spec_format_networks(networks),
            ", "@ + #[trigger] network_label(networks[i]),
        ) by {
            let a = spec_format_networks(rest);
            let sep = ", "@ + network_label(networks[i]);
            if i < networks.len() - 1 {
                assert(network_label(networks[i]) == network_label(rest[i]));
                lemma_contains_left(a, ", "@, sep);
                lemma_contains_left(a + ", "@, network_label(networks.last()), sep);
            } else {
                lemma_contains_self(sep);
                assert(a + ", "@ + network_label(networks.last()) =~= a + sep);
                lemma_contains_right(a, sep, sep);
            }
        }
    } else if networks.len() == 1 {
        lemma_contains_self(network_label(networks[0]));
    }
}

/// The meaning given for a witness program begins with the label of the
/// SegWit type that its version and program make it.
pub proof fn lemma_explanation_names_type(version: u8, program: Seq<u8>)
    ensures
        segwit_address_type(version, program) matches Some(t) ==> starts_with(
            spec_explanation(version, program.len() as int),
            spec_address_type_label(t) + " "@,
        ),
{
    reveal_strlit("P2WPKH");
    reveal_strlit("P2WSH");
    reveal_strlit("P2TR");
    reveal_strlit("P2A");
    reveal_strlit(" ");
    reveal_strlit("P2WPKH pubkey hash (20 bytes)");
    reveal_strlit("P2WSH script hash (32 bytes)");
    reveal_strlit("P2TR x-only pubkey (32 bytes)");
    reveal_strlit("P2A anchor program (2 bytes)");
    if let Some(t) = segwit_address_type(version, program) {
        let e = spec_explanation(version, program.len() as int);
        let l = spec_address_type_label(t) + " "@;
        assert(e.subrange(0, l.len() as int) =~= l);
    }
}

/// The script template of a SegWit type begins with the opcode that pushes
/// its witness version: `OP_0` for version 0, `OP_1` for version 1.
pub proof fn lemma_template_names_version(version: u8, program: Seq<u8>)
    ensures
        segwit_address_type(version, program) matches Some(t) ==> (spec_script_template(
            Some(t),
            Some(version),
        ) matches Some(x) && starts_with(x, "OP_"@ + decimal(version as nat) + " "@)),
{
    reveal_strlit("OP_0 <pubkey_hash>");
    reveal_strlit("OP_0 <script_hash>");
    reveal_strlit("OP_1 <x-only pubkey>");
    reveal_strlit("OP_1 0x4e73 (anchor)");
    reveal_strlit("OP_");
    reveal_strlit(" ");
    if let Some(t) = segwit_address_type(version, program) {
        reveal_with_fuel(decimal, 1);
        assert(decimal(version as nat) == seq![decimal_digit(version as int)]);
        assert(((48 + version) as char) as int == 48 + version);
        let x = spec_script_template(Some(t), Some(version))->0;
        let l = "OP_"@ + decimal(version as nat) + " "@;
        assert(x.subrange(0, l.len() as int) =~= l);
    }
}

/// The meaning given for a witness program of a named SegWit type states
/// the program's length in bytes.
pub proof fn lemma_explanation_states_length(version: u8, program: Seq<u8>)
    ensures
        segwit_address_type(version, program) is Some ==> contains_text(
            spec_explanation(version, program.len() as int),
            "("@ + decimal(program.len()) + " bytes)"@,
        ),
{
    reveal_strlit("P2WPKH pubkey hash (20 bytes)");
    reveal_strlit("P2WSH script hash (32 bytes)");
    reveal_strlit("P2TR x-only pubkey (32 bytes)");
    reveal_strlit("P2A anchor program (2 bytes)");
    reveal_strlit("(");
    reveal_strlit(" bytes)");
    if segwit_address_type(version, program) is Some {
        let n = program.len();
        let e = spec_explanation(version, n as int);
        reveal_with_fuel(decimal, 3);
        assert(((48 + 2) as char) as int == 50);
        assert(((48 + 3) as char) as int == 51);
        assert(((48 + 0) as char) as int == 48);
        let x = "("@ + decimal(n) + " bytes)"@;
        let start = e.len() - x.len();
        if n == 2 {
            assert(decimal(n) =~= seq!['2']);
        } else if n == 20 {
            assert(decimal(n) =~= seq!['2', '0']);
        } else {
            assert(decimal(n) =~= seq!['3', '2']);
        }
        assert(e.subrange(start, start + x.len()) =~= x);
    }
}

/// The checksum follows the witness version alone: Bech32 for version 0,
/// Bech32m for any later version, Base58Check when there is none.
pub proof fn lemma_checksum_by_version(address_type: Option<AddressType>, version: Option<u8>)
    ensures
        spec_checksum_for(address_type, version) == match version {
            Some(v) => Some(
                if v == 0 {
                    ChecksumType::Bech32
                } else {
                    ChecksumType::Bech32m
                },
            ),
            None => Some(ChecksumType::Base58Check),
        },
{
}

/// The script template of a hash type names the hash it pays to: the
/// pubkey hash for P2PKH and P2WPKH, the script hash for P2SH and P2WSH,
/// and neither for any other type.
pub proof fn lemma_template_names_hash(t: Option<AddressType>, v: Option<u8>)
    ensures
        spec_script_template(t, v) matches Some(x) ==> {
            &&& contains_text(x, "<pubkey_hash>"@) <==> (t == Some(AddressType::P2pkh) || t
                == Some(AddressType::P2wpkh))
            &&& contains_text(x, "<script_hash>"@) <==> (t == Some(AddressType::P2sh) || t
                == Some(AddressType::P2wsh))
        },
{
    reveal_strlit("<pubkey_hash>");
    reveal_strlit("<script_hash>");
    reveal_strlit("OP_DUP OP_HASH160 <pubkey_hash> OP_EQUALVERIFY OP_CHECKSIG");
    reveal_strlit("OP_HASH160 <script_hash> OP_EQUAL");
    reveal_strlit("OP_0 <pubkey_hash>");
    reveal_strlit("OP_0 <script_hash>");
    reveal_strlit("OP_1 <x-only pubkey>");
    reveal_strlit("OP_1 0x4e73 (anchor)");
    if let Some(x) = spec_script_template(t, v) {
        let pk = "<pubkey_hash>"@;
        let sh = "<script_hash>"@;
        let pubkey_type = t == Some(AddressType::P2pkh) || t == Some(AddressType::P2wpkh);
        let script_type = t == Some(AddressType::P2sh) || t == Some(AddressType::P2wsh);
        // Where the named hash stands in the template.
        let k: int = if t == Some(AddressType::P2pkh) {
            18
        } else if t == Some(AddressType::P2sh) {
            11
        } else {
            5
        };
        if pubkey_type {
            lemma_absent_by_probe(x, sh);
            assert(x.subrange(k, k + pk.len()) =~= pk);
        } else if script_type {
            lemma_absent_by_probe(x, pk);
            assert(x.subrange(k, k + sh.len()) =~= sh);
        } else {
            lemma_absent_by_probe(x, pk);
            lemma_absent_by_probe(x, sh);
        }
    }
}

/// A script template is given for every type the analyzer names, the
/// anchor's only with witness version 1, and none for an unnamed type or
/// none at all.
pub proof fn lemma_template_given(t: Option<AddressType>, v: Option<u8>)
    ensures
        spec_script_template(t, v) is Some <==> match t {
            Some(AddressType::P2a) => v == Some(1u8),
            Some(AddressType::Other) => false,
            Some(_) => true,
            None => false,
        },
{
}

/// The value of a lower-case hexadecimal digit.
pub open spec fn hex_value(c: char) -> int {
    if '0' <= c <= '9' {
        c as int - 48
    } else {
        c as int - 87
    }
}

/// Reads lower-case hexadecimal back into bytes, two digits per byte.
pub open spec fn read_hex(text: Seq<char>) -> Seq<u8> {
    Seq::new(
        text.len() / 2,
        |k: int| (16 * hex_value(text[2 * k]) + hex_value(text[2 * k + 1])) as u8,
    )
}

/// Reading the hexadecimal of bytes back gives the bytes.
pub proof fn lemma_hex_reads_back(bytes: Seq<u8>)
    ensures
        read_hex(lower_hex(bytes)) == bytes,
{
    let h = lower_hex(bytes);
    assert(h.len() == 2 * bytes.len());
    assert forall|k: int| 0 <= k < bytes.len() implies #[trigger] read_hex(h)[k] == bytes[k] by {
        assert((2 * k) / 2 == k && (2 * k) % 2 == 0);
        assert((2 * k + 1) / 2 == k && (2 * k + 1) % 2 == 1);
        let hi = bytes[k] / 16;
        let lo = bytes[k] % 16;
        assert(hex_value(hex_digit(hi as int)) == hi as int) by {
            assert(((48 + hi) as char) as int == 48 + hi);
            assert(((87 + hi) as char) as int == 87 + hi);
        }
        assert(hex_value(hex_digit(lo as int)) == lo as int) by {
            assert(((48 + lo) as char) as int == 48 + lo);
            assert(((87 + lo) as char) as int == 87 + lo);
        }
        assert(bytes[k] == 16 * hi + lo);
    }
    assert(read_hex(h) =~= bytes);
}

/// The number that decimal digits spell.
pub open spec fn read_decimal(text: Seq<char>) -> int
    decreases text.len(),
{
    if text.len() == 0 {
        0
    } else {
        10 * read_decimal(text.drop_last()) + (text.last() as int - 48)
    }
}

/// Reading the decimal text of a number back gives the number.
pub proof fn lemma_decimal_reads_back(n: nat)
    ensures
        read_decimal(decimal(n)) == n,
    decreases n,
{
    let k = (n % 10) as int;
    assert(((48 + k) as char) as int == 48 + k);
    let d = decimal(n);
    if n >= 10 {
        lemma_decimal_reads_back(n / 10);
        let t = decimal(n / 10);
        assert(d == t.push(decimal_digit(k)));
        assert(d.drop_last() =~= t);
        assert(d.last() == decimal_digit(k));
        assert(read_decimal(d) == 10 * read_decimal(t) + k);
    } else {
        assert(d == seq![decimal_digit(k)]);
        assert(d.drop_last() =~= Seq::<char>::empty());
        assert(read_decimal(d.drop_last()) == 0);
        assert(read_decimal(d) == 10 * read_decimal(d.drop_last()) + k);
    }
}

} // verus!
