//! Byte-level building blocks for WebAssembly text (WAT) buffers.
//!
//! A WAT program is a growable byte buffer of S-expression text. The
//! synthesizers append ASCII lines to it; the spec-level model of every
//! fragment is built from the byte images of string literals, runs of
//! spaces, and decimal renderings of numbers.

use vstd::prelude::*;

verus! {

/// The byte image of an ASCII character sequence.
pub open spec fn ascii_bytes(s: Seq<char>) -> Seq<u8> {
    Seq::new(s.len(), |i: int| s[i] as u8)
}

/// A run of `n` space bytes.
pub open spec fn spaces(n: nat) -> Seq<u8> {
    Seq::new(n, |i: int| 32u8)
}

/// Appends the bytes of an ASCII string slice to a WAT buffer.
pub fn push_str(wat: &mut Vec<u8>, s: &str)
    requires
        vstd::string::is_ascii(s),
    ensures
        final(wat)@ == old(wat)@ + ascii_bytes(s@),
{
    broadcast use vstd::string::is_ascii_spec_bytes;

    let bytes = s.as_bytes();
    assert(bytes@ =~= ascii_bytes(s@));
    wat.extend_from_slice(bytes);
}

/// The decimal rendering of a number, most significant digit first.
pub open spec fn dec_digits(n: nat) -> Seq<u8>
    decreases n,
{
    if n < 10 {
        seq![(48 + n) as u8]
    } else {
        dec_digits(n / 10) + seq![(48 + n % 10) as u8]
    }
}

/// Appends the decimal rendering of `n` to a WAT buffer.
pub fn push_usize(wat: &mut Vec<u8>, n: usize)
    ensures
        final(wat)@ == old(wat)@ + dec_digits(n as nat),
    decreases n,
{
    if n >= 10 {
        push_usize(wat, n / 10);
    }
    let d: u8 = (n % 10) as u8 + 48;
    wat.push(d);
    assert(final(wat)@ =~= old(wat)@ + dec_digits(n as nat));
}

/// How many times the byte `x` occurs in `s`.
pub open spec fn count_byte(s: Seq<u8>, x: u8) -> nat
    decreases s.len(),
{
    if s.len() == 0 {
        0
    } else {
        (if s[0] == x {
            1nat
        } else {
            0nat
        }) + count_byte(s.drop_first(), x)
    }
}

/// Occurrences in a concatenation are the occurrences in each part.
pub proof fn lemma_count_concat(a: Seq<u8>, b: Seq<u8>, x: u8)
    ensures
        count_byte(a + b, x) == count_byte(a, x) + count_byte(b, x),
    decreases a.len(),
{
    if a.len() == 0 {
        assert(a + b =~= b);
    } else {
        assert((a + b).drop_first() =~= a.drop_first() + b);
        lemma_count_concat(a.drop_first(), b, x);
    }
}

/// A byte that occurs nowhere in `s` has count zero.
pub proof fn lemma_count_zero(s: Seq<u8>, x: u8)
    requires
        forall|i: int| 0 <= i < s.len() ==> s[i] != x,
    ensures
        count_byte(s, x) == 0,
    decreases s.len(),
{
    if s.len() > 0 {
        lemma_count_zero(s.drop_first(), x);
    }
}

/// A byte that occurs at exactly one position of `s` has count one.
pub proof fn lemma_count_one(s: Seq<u8>, x: u8, k: int)
    requires
        0 <= k < s.len(),
        s[k] == x,
        forall|i: int| 0 <= i < s.len() && i != k ==> s[i] != x,
    ensures
        count_byte(s, x) == 1,
    decreases s.len(),
{
    if k == 0 {
        lemma_count_zero(s.drop_first(), x);
    } else {
        lemma_count_one(s.drop_first(), x, k - 1);
    }
}

/// Every byte of a decimal rendering is an ASCII digit.
pub proof fn lemma_dec_digits_range(n: nat)
    ensures
        forall|i: int|
            0 <= i < dec_digits(n).len() ==> 48 <= #[trigger] dec_digits(n)[i] <= 57,
    decreases n,
{
    if n >= 10 {
        lemma_dec_digits_range(n / 10);
        let a = dec_digits(n / 10);
        let s = dec_digits(n);
        assert forall|i: int| 0 <= i < s.len() implies 48 <= #[trigger] s[i] <= 57 by {
            if i < a.len() {
                assert(s[i] == a[i]);
            } else {
                assert(s[i] == (48 + n % 10) as u8);
            }
        }
    }
}

/// No byte outside the digit range occurs in a decimal rendering.
pub proof fn lemma_count_dec_digits(n: nat, x: u8)
    requires
        x < 48 || x > 57,
    ensures
        count_byte(dec_digits(n), x) == 0,
{
    lemma_dec_digits_range(n);
    lemma_count_zero(dec_digits(n), x);
}

/// No byte other than the space occurs in a run of spaces.
pub proof fn lemma_count_spaces(n: nat, x: u8)
    requires
        x != 32,
    ensures
        count_byte(spaces(n), x) == 0,
{
    lemma_count_zero(spaces(n), x);
}

/// One line of WAT text: an indentation run followed by its body.
pub open spec fn wat_line(indent: nat, body: Seq<u8>) -> Seq<u8> {
    spaces(indent) + body
}

/// A line contributes to a count exactly what its body does.
pub proof fn lemma_count_wat_line(indent: nat, body: Seq<u8>, x: u8)
    requires
        x != 32,
    ensures
        count_byte(wat_line(indent, body), x) == count_byte(body, x),
{
    lemma_count_concat(spaces(indent), body, x);
    lemma_count_spaces(indent, x);
}

/// The byte images of the literal pieces that the synthesizers emit.
pub proof fn lemma_lit_block_open()
    ensures
        vstd::string::is_ascii("(block\n"),
        ascii_bytes("(block\n"@) =~= seq![40u8, 98u8, 108u8, 111u8, 99u8, 107u8, 10u8],
{
    reveal_strlit("(block\n");
    assert("(block\n"@ =~= seq!['(', 'b', 'l', 'o', 'c', 'k', '\n']);
}

/// The byte image of the open marker followed by a trailing space.
pub proof fn lemma_lit_block_open_spaced()
    ensures
        vstd::string::is_ascii("(block \n"),
        ascii_bytes("(block \n"@) =~= seq![40u8, 98u8, 108u8, 111u8, 99u8, 107u8, 32u8, 10u8],
{
    reveal_strlit("(block \n");
    assert("(block \n"@ =~= seq!['(', 'b', 'l', 'o', 'c', 'k', ' ', '\n']);
}

/// The byte image of the unconditional branch to depth two.
pub proof fn lemma_lit_br_two()
    ensures
        vstd::string::is_ascii("br 2\n"),
        ascii_bytes("br 2\n"@) =~= seq![98u8, 114u8, 32u8, 50u8, 10u8],
{
    reveal_strlit("br 2\n");
    assert("br 2\n"@ =~= seq!['b', 'r', ' ', '2', '\n']);
}

/// The byte image of the close marker.
pub proof fn lemma_lit_close()
    ensures
        vstd::string::is_ascii(")\n"),
        ascii_bytes(")\n"@) =~= seq![41u8, 10u8],
{
    reveal_strlit(")\n");
    assert(")\n"@ =~= seq![')', '\n']);
}

/// The byte image of the selector-constant instruction head.
pub proof fn lemma_lit_i32_const()
    ensures
        vstd::string::is_ascii("i32.const "),
        ascii_bytes("i32.const "@) =~= seq![
            105u8,
            51u8,
            50u8,
            46u8,
            99u8,
            111u8,
            110u8,
            115u8,
            116u8,
            32u8,
        ],
{
    reveal_strlit("i32.const ");
    assert("i32.const "@ =~= seq!['i', '3', '2', '.', 'c', 'o', 'n', 's', 't', ' ']);
}

/// The byte image of the dispatch instruction head.
pub proof fn lemma_lit_br_table()
    ensures
        vstd::string::is_ascii("br_table"),
        ascii_bytes("br_table"@) =~= seq![98u8, 114u8, 95u8, 116u8, 97u8, 98u8, 108u8, 101u8],
{
    reveal_strlit("br_table");
    assert("br_table"@ =~= seq!['b', 'r', '_', 't', 'a', 'b', 'l', 'e']);
}

/// The byte image of a single space.
pub proof fn lemma_lit_space()
    ensures
        vstd::string::is_ascii(" "),
        ascii_bytes(" "@) =~= seq![32u8],
{
    reveal_strlit(" ");
    assert(" "@ =~= seq![' ']);
}

/// The byte image of a line break.
pub proof fn lemma_lit_newline()
    ensures
        vstd::string::is_ascii("\n"),
        ascii_bytes("\n"@) =~= seq![10u8],
{
    reveal_strlit("\n");
    assert("\n"@ =~= seq!['\n']);
}

/// Appends `n` spaces to a WAT buffer.
pub fn push_spaces(wat: &mut Vec<u8>, n: usize)
    ensures
        final(wat)@ == old(wat)@ + spaces(n as nat),
{
    let mut i: usize = 0;
    while i < n
        invariant
            i <= n,
            wat@ == old(wat)@ + spaces(i as nat),
        decreases n - i,
    {
        wat.push(32u8);
        assert(old(wat)@ + spaces(i as nat) + seq![32u8] =~= old(wat)@ + spaces(
            (i + 1) as nat,
        ));
        i = i + 1;
    }
}

} // verus!
