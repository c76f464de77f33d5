//! Nested-branch scenario: each operation unit opens three nested blocks,
//! branches unconditionally to the outermost of the three, then closes the
//! blocks in matching order.

use vstd::prelude::*;

use crate::wat::ascii_bytes;
use crate::wat::count_byte;
use crate::wat::lemma_count_concat;
use crate::wat::lemma_count_one;
use crate::wat::lemma_count_wat_line;
use crate::wat::lemma_count_zero;
use crate::wat::lemma_lit_block_open;
use crate::wat::lemma_lit_block_open_spaced;
use crate::wat::lemma_lit_br_two;
use crate::wat::lemma_lit_close;
use crate::wat::push_spaces;
use crate::wat::push_str;
use crate::wat::wat_line;

verus! {

/// One nested-branch operation unit: three opens, one branch whose target
/// depth is the outermost block, three matching closes.
pub open spec fn br_unit() -> Seq<u8> {
    wat_line(12, ascii_bytes("(block\n"@)) + wat_line(16, ascii_bytes("(block \n"@)) + wat_line(
        20,
        ascii_bytes("(block \n"@),
    ) + wat_line(24, ascii_bytes("br 2\n"@)) + wat_line(20, ascii_bytes(")\n"@)) + wat_line(
        16,
        ascii_bytes(")\n"@),
    ) + wat_line(12, ascii_bytes(")\n"@))
}

/// `n` repetitions of the nested-branch operation unit.
pub open spec fn br_fragment(n: nat) -> Seq<u8>
    decreases n,
{
    if n == 0 {
        Seq::empty()
    } else {
        br_fragment((n - 1) as nat) + br_unit()
    }
}

/// Appends `number_of_ops_per_loop_iteration` nested-branch operation units
/// to the WAT buffer. Zero repetitions leave the buffer unchanged.
pub fn write_wat_ops(wat: &mut Vec<u8>, number_of_ops_per_loop_iteration: usize)
    ensures
        final(wat)@ == old(wat)@ + br_fragment(number_of_ops_per_loop_iteration as nat),
{
    let mut i: usize = 0;
    assert(wat@ =~= old(wat)@ + br_fragment(0));
    while i < number_of_ops_per_loop_iteration
        invariant
            i <= number_of_ops_per_loop_iteration,
            wat@ == old(wat)@ + br_fragment(i as nat),
        decreases number_of_ops_per_loop_iteration - i,
    {
        proof {
            lemma_lit_block_open();
            lemma_lit_block_open_spaced();
            lemma_lit_br_two();
            lemma_lit_close();
        }
        let ghost entry = wat@;
        push_spaces(wat, 12);
        push_str(wat, "(block\n");
        push_spaces(wat, 16);
        push_str(wat, "(block \n");
        push_spaces(wat, 20);
        push_str(wat, "(block \n");
        push_spaces(wat, 24);
        push_str(wat, "br 2\n");
        push_spaces(wat, 20);
        push_str(wat, ")\n");
        push_spaces(wat, 16);
        push_str(wat, ")\n");
        push_spaces(wat, 12);
        push_str(wat, ")\n");
        assert(wat@ =~= entry + br_unit());
        assert(wat@ =~= old(wat)@ + br_fragment((i + 1) as nat));
        i = i + 1;
    }
}

/// What one unit contributes to the count of any non-space byte, piece by
/// piece.
proof fn lemma_br_unit_count(x: u8)
    requires
        x != 32,
    ensures
        count_byte(br_unit(), x) == count_byte(ascii_bytes("(block\n"@), x) + 2 * count_byte(
            ascii_bytes("(block \n"@),
            x,
        ) + count_byte(ascii_bytes("br 2\n"@), x) + 3 * count_byte(ascii_bytes(")\n"@), x),
{
    let l1 = wat_line(12, ascii_bytes("(block\n"@));
    let l2 = wat_line(16, ascii_bytes("(block \n"@));
    let l3 = wat_line(20, ascii_bytes("(block \n"@));
    let l4 = wat_line(24, ascii_bytes("br 2\n"@));
    let l5 = wat_line(20, ascii_bytes(")\n"@));
    let l6 = wat_line(16, ascii_bytes(")\n"@));
    let l7 = wat_line(12, ascii_bytes(")\n"@));
    lemma_count_concat(l1, l2, x);
    lemma_count_concat(l1 + l2, l3, x);
    lemma_count_concat(l1 + l2 + l3, l4, x);
    lemma_count_concat(l1 + l2 + l3 + l4, l5, x);
    lemma_count_concat(l1 + l2 + l3 + l4 + l5, l6, x);
    lemma_count_concat(l1 + l2 + l3 + l4 + l5 + l6, l7, x);
    lemma_count_wat_line(12, ascii_bytes("(block\n"@), x);
    lemma_count_wat_line(16, ascii_bytes("(block \n"@), x);
    lemma_count_wat_line(20, ascii_bytes("(block \n"@), x);
    lemma_count_wat_line(24, ascii_bytes("br 2\n"@), x);
    lemma_count_wat_line(20, ascii_bytes(")\n"@), x);
    lemma_count_wat_line(16, ascii_bytes(")\n"@), x);
    lemma_count_wat_line(12, ascii_bytes(")\n"@), x);
}

/// One operation unit is balanced: exactly three open markers and three
/// close markers.
pub proof fn lemma_br_unit_balanced()
    ensures
        count_byte(br_unit(), 40) == 3,
        count_byte(br_unit(), 41) == 3,
{
    lemma_lit_block_open();
    lemma_lit_block_open_spaced();
    lemma_lit_br_two();
    lemma_lit_close();
    lemma_br_unit_count(40);
    lemma_br_unit_count(41);
    lemma_count_one(ascii_bytes("(block\n"@), 40, 0);
    lemma_count_one(ascii_bytes("(block \n"@), 40, 0);
    lemma_count_zero(ascii_bytes("br 2\n"@), 40);
    lemma_count_zero(ascii_bytes(")\n"@), 40);
    lemma_count_zero(ascii_bytes("(block\n"@), 41);
    lemma_count_zero(ascii_bytes("(block \n"@), 41);
    lemma_count_zero(ascii_bytes("br 2\n"@), 41);
    lemma_count_one(ascii_bytes(")\n"@), 41, 0);
}

/// For every number of repetitions, the nested-branch fragment holds exactly
/// three open markers and three close markers per repetition, so the whole
/// fragment is balanced.
pub proof fn lemma_br_fragment_balanced(n: nat)
    ensures
        count_byte(br_fragment(n), 40) == 3 * n,
        count_byte(br_fragment(n), 41) == 3 * n,
    decreases n,
{
    if n == 0 {
    } else {
        lemma_br_fragment_balanced((n - 1) as nat);
        lemma_br_unit_balanced();
        lemma_count_concat(br_fragment((n - 1) as nat), br_unit(), 40);
        lemma_count_concat(br_fragment((n - 1) as nat), br_unit(), 41);
    }
}

/// Zero repetitions produce the empty fragment: a valid no-op, not an error.
pub proof fn lemma_br_fragment_empty()
    ensures
        br_fragment(0) == Seq::<u8>::empty(),
{
}

/// A fragment never shrinks as repetitions are added.
proof fn lemma_br_fragment_len_monotone(k: nat, n: nat)
    requires
        k <= n,
    ensures
        br_fragment(k).len() <= br_fragment(n).len(),
    decreases n,
{
    if k < n {
        lemma_br_fragment_len_monotone(k, (n - 1) as nat);
    }
}

/// Every unit boundary of a fragment closes a smaller fragment: the buffer
/// up to the `k`-th boundary is exactly the `k`-unit fragment — which is
/// balanced — so nesting is balanced wherever a unit boundary is crossed.
pub proof fn lemma_br_fragment_balanced_at_boundaries(k: nat, n: nat)
    requires
        k <= n,
    ensures
        br_fragment(k) == br_fragment(n).take(br_fragment(k).len() as int),
    decreases n,
{
    if k == n {
        assert(br_fragment(k) =~= br_fragment(n).take(br_fragment(k).len() as int));
    } else {
        lemma_br_fragment_balanced_at_boundaries(k, (n - 1) as nat);
        lemma_br_fragment_len_monotone(k, (n - 1) as nat);
        assert(br_fragment(n).take(br_fragment(k).len() as int) =~= br_fragment(
            (n - 1) as nat,
        ).take(br_fragment(k).len() as int));
    }
}

} // verus!
