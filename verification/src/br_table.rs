//! Branch-table scenario: each operation unit opens `table_size` nested
//! blocks, pushes a selector constant equal to `table_size` itself (one past
//! the last valid index, so dispatch always takes the default case), emits
//! one dispatch instruction listing targets `0 .. table_size - 1` in
//! ascending order, then closes the blocks in matching order.

use vstd::prelude::*;

use crate::wat::ascii_bytes;
use crate::wat::count_byte;
use crate::wat::dec_digits;
use crate::wat::lemma_count_concat;
use crate::wat::lemma_count_dec_digits;
use crate::wat::lemma_count_one;
use crate::wat::lemma_count_wat_line;
use crate::wat::lemma_count_zero;
use crate::wat::lemma_lit_block_open;
use crate::wat::lemma_lit_br_table;
use crate::wat::lemma_lit_close;
use crate::wat::lemma_lit_i32_const;
use crate::wat::lemma_lit_newline;
use crate::wat::lemma_lit_space;
use crate::wat::push_spaces;
use crate::wat::push_str;
use crate::wat::push_usize;
use crate::wat::spaces;
use crate::wat::wat_line;

verus! {

/// Removes one indentation step (four spaces) from an indentation buffer,
/// emptying a buffer shorter than one step.
pub fn rm_identation(s: &mut Vec<u8>)
    ensures
        final(s)@ == if old(s)@.len() >= 4 {
            old(s)@.take(old(s)@.len() - 4)
        } else {
            Seq::<u8>::empty()
        },
{
    let n = s.len();
    if n >= 4 {
        s.truncate(n - 4);
    } else {
        s.truncate(0);
    }
    assert(final(s)@ =~= if old(s)@.len() >= 4 {
        old(s)@.take(old(s)@.len() - 4)
    } else {
        Seq::<u8>::empty()
    });
}

/// The block-open lines of one unit: the line for block `i` is indented by
/// `12 + 4 * i` spaces.
pub open spec fn open_lines(t: nat) -> Seq<u8>
    decreases t,
{
    if t == 0 {
        Seq::empty()
    } else {
        open_lines((t - 1) as nat) + wat_line(12 + 4 * ((t - 1) as nat), ascii_bytes("(block\n"@))
    }
}

/// The block-close lines of one unit, innermost first: `)` at indentation
/// `12 + 4 * (k - 1)` down to `12` spaces.
pub open spec fn close_lines_from(k: nat) -> Seq<u8>
    decreases k,
{
    if k == 0 {
        Seq::empty()
    } else {
        wat_line(12 + 4 * ((k - 1) as nat), ascii_bytes(")\n"@)) + close_lines_from((k - 1) as nat)
    }
}

/// The dispatch target list: the indices `0 .. t - 1` in ascending order.
pub open spec fn dispatch_targets(t: nat) -> Seq<nat> {
    Seq::new(t, |i: int| i as nat)
}

/// The selector constant pushed before the dispatch: `t` itself, one past
/// the last valid target index, so the default case is always taken.
pub open spec fn selector_value(t: nat) -> nat {
    t
}

/// The rendered dispatch target list: one space and one decimal number per
/// target, in list order.
pub open spec fn render_targets(l: Seq<nat>) -> Seq<u8>
    decreases l.len(),
{
    if l.len() == 0 {
        Seq::empty()
    } else {
        render_targets(l.drop_last()) + ascii_bytes(" "@) + dec_digits(l.last())
    }
}

/// One branch-table operation unit: `t` opens, the selector constant, the
/// dispatch instruction, and `t` matching closes.
pub open spec fn br_table_unit(t: nat) -> Seq<u8> {
    open_lines(t) + wat_line(
        12 + 4 * t,
        ascii_bytes("i32.const "@) + dec_digits(selector_value(t)) + ascii_bytes("\n"@),
    ) + wat_line(
        12 + 4 * t,
        ascii_bytes("br_table"@) + render_targets(dispatch_targets(t)) + ascii_bytes("\n"@),
    ) + close_lines_from(t)
}

/// `n` repetitions of the branch-table operation unit.
pub open spec fn br_table_fragment(n: nat, t: nat) -> Seq<u8>
    decreases n,
{
    if n == 0 {
        Seq::empty()
    } else {
        br_table_fragment((n - 1) as nat, t) + br_table_unit(t)
    }
}

/// Appends `number_of_ops_per_loop_iteration` branch-table operation units
/// to the WAT buffer. Zero repetitions leave the buffer unchanged.
pub fn write_wat_ops(
    wat: &mut Vec<u8>,
    number_of_ops_per_loop_iteration: usize,
    table_size: usize,
)
    requires
        table_size >= 1,
    ensures
        final(wat)@ == old(wat)@ + br_table_fragment(
            number_of_ops_per_loop_iteration as nat,
            table_size as nat,
        ),
{
    let ghost t = table_size as nat;
    let mut i: usize = 0;
    assert(wat@ =~= old(wat)@ + br_table_fragment(0, t));
    while i < number_of_ops_per_loop_iteration
        invariant
            i <= number_of_ops_per_loop_iteration,
            table_size >= 1,
            t == table_size as nat,
            wat@ == old(wat)@ + br_table_fragment(i as nat, t),
        decreases number_of_ops_per_loop_iteration - i,
    {
        proof {
            lemma_lit_block_open();
            lemma_lit_close();
            lemma_lit_i32_const();
            lemma_lit_br_table();
            lemma_lit_space();
            lemma_lit_newline();
        }
        let ghost entry = wat@;
        let mut identation: Vec<u8> = Vec::new();
        push_spaces(&mut identation, 12);

        let mut j: usize = 0;
        assert(wat@ =~= entry + open_lines(0));
        assert(identation@ =~= spaces(12 + 4 * 0));
        while j < table_size
            invariant
                j <= table_size,
                identation@ == spaces(12 + 4 * (j as nat)),
                wat@ == entry + open_lines(j as nat),
            decreases table_size - j,
        {
            proof {
                lemma_lit_block_open();
            }
            wat.extend_from_slice(identation.as_slice());
            push_str(wat, "(block\n");
            push_spaces(&mut identation, 4);
            assert(identation@ =~= spaces(12 + 4 * ((j + 1) as nat)));
            assert(wat@ =~= entry + open_lines((j + 1) as nat));
            j = j + 1;
        }

        let ghost after_opens = wat@;
        wat.extend_from_slice(identation.as_slice());
        push_str(wat, "i32.const ");
        push_usize(wat, table_size);
        push_str(wat, "\n");
        assert(wat@ =~= after_opens + wat_line(
            12 + 4 * t,
            ascii_bytes("i32.const "@) + dec_digits(selector_value(t)) + ascii_bytes("\n"@),
        ));

        let ghost after_const = wat@;
        wat.extend_from_slice(identation.as_slice());
        push_str(wat, "br_table");
        let ghost dispatch_start = wat@;
        let mut k: usize = 0;
        assert(dispatch_targets(0) =~= Seq::<nat>::empty());
        assert(wat@ =~= dispatch_start + render_targets(dispatch_targets(0)));
        while k < table_size
            invariant
                k <= table_size,
                wat@ == dispatch_start + render_targets(dispatch_targets(k as nat)),
            decreases table_size - k,
        {
            proof {
                lemma_lit_space();
            }
            push_str(wat, " ");
            push_usize(wat, k);
            proof {
                let next = dispatch_targets((k + 1) as nat);
                assert(next.drop_last() =~= dispatch_targets(k as nat));
                assert(next.last() == k as nat);
                assert(wat@ =~= dispatch_start + render_targets(next));
            }
            k = k + 1;
        }
        push_str(wat, "\n");
        assert(wat@ =~= after_const + wat_line(
            12 + 4 * t,
            ascii_bytes("br_table"@) + render_targets(dispatch_targets(t)) + ascii_bytes("\n"@),
        ));

        let ghost after_dispatch = wat@;
        let mut c: usize = 0;
        while c < table_size
            invariant
                c <= table_size,
                table_size >= 1,
                t == table_size as nat,
                identation@ == spaces(12 + 4 * ((table_size - c) as nat)),
                wat@ + close_lines_from((table_size - c) as nat) == after_dispatch
                    + close_lines_from(t),
            decreases table_size - c,
        {
            proof {
                lemma_lit_close();
            }
            let ghost rem = (table_size - c) as nat;
            rm_identation(&mut identation);
            assert(identation@ =~= spaces(12 + 4 * ((rem - 1) as nat)));
            let ghost before_line = wat@;
            wat.extend_from_slice(identation.as_slice());
            push_str(wat, ")\n");
            proof {
                assert(wat@ =~= before_line + wat_line(12 + 4 * ((rem - 1) as nat), ascii_bytes(
                    ")\n"@,
                )));
                assert(close_lines_from(rem) == wat_line(
                    12 + 4 * ((rem - 1) as nat),
                    ascii_bytes(")\n"@),
                ) + close_lines_from((rem - 1) as nat));
                assert(wat@ + close_lines_from((rem - 1) as nat) =~= before_line
                    + close_lines_from(rem));
            }
            c = c + 1;
        }
        assert(close_lines_from(0) =~= Seq::<u8>::empty());
        assert(wat@ + close_lines_from(0) =~= wat@);
        assert(wat@ =~= after_dispatch + close_lines_from(t));
        assert(wat@ =~= entry + br_table_unit(t));
        assert(wat@ =~= old(wat)@ + br_table_fragment((i + 1) as nat, t));
        i = i + 1;
    }
}

/// The dispatch list has exactly `t` entries, they are the indices
/// `0 .. t - 1` in strictly ascending order (hence all distinct), and the
/// selector constant equals `t`: one past the last valid index, so the
/// dispatch always takes the default case, never an in-range target.
pub proof fn lemma_dispatch_always_default(t: nat)
    requires
        t >= 1,
    ensures
        dispatch_targets(t).len() == t,
        forall|i: int| 0 <= i < t ==> dispatch_targets(t)[i] == i as nat,
        forall|i: int, j: int|
            0 <= i < j < t ==> dispatch_targets(t)[i] < dispatch_targets(t)[j],
        selector_value(t) == t,
        forall|i: int| 0 <= i < t ==> dispatch_targets(t)[i] < selector_value(t),
{
}

/// The open lines of one unit hold exactly `t` open markers and no close
/// marker.
proof fn lemma_open_lines_balanced(t: nat)
    ensures
        count_byte(open_lines(t), 40) == t,
        count_byte(open_lines(t), 41) == 0,
    decreases t,
{
    lemma_lit_block_open();
    if t > 0 {
        lemma_open_lines_balanced((t - 1) as nat);
        let line = wat_line(12 + 4 * ((t - 1) as nat), ascii_bytes("(block\n"@));
        lemma_count_concat(open_lines((t - 1) as nat), line, 40);
        lemma_count_concat(open_lines((t - 1) as nat), line, 41);
        lemma_count_wat_line(12 + 4 * ((t - 1) as nat), ascii_bytes("(block\n"@), 40);
        lemma_count_wat_line(12 + 4 * ((t - 1) as nat), ascii_bytes("(block\n"@), 41);
        lemma_count_one(ascii_bytes("(block\n"@), 40, 0);
        lemma_count_zero(ascii_bytes("(block\n"@), 41);
    }
}

/// The close lines of one unit hold exactly `k` close markers and no open
/// marker.
proof fn lemma_close_lines_balanced(k: nat)
    ensures
        count_byte(close_lines_from(k), 40) == 0,
        count_byte(close_lines_from(k), 41) == k,
    decreases k,
{
    lemma_lit_close();
    if k > 0 {
        lemma_close_lines_balanced((k - 1) as nat);
        let line = wat_line(12 + 4 * ((k - 1) as nat), ascii_bytes(")\n"@));
        lemma_count_concat(line, close_lines_from((k - 1) as nat), 40);
        lemma_count_concat(line, close_lines_from((k - 1) as nat), 41);
        lemma_count_wat_line(12 + 4 * ((k - 1) as nat), ascii_bytes(")\n"@), 40);
        lemma_count_wat_line(12 + 4 * ((k - 1) as nat), ascii_bytes(")\n"@), 41);
        lemma_count_zero(ascii_bytes(")\n"@), 40);
        lemma_count_one(ascii_bytes(")\n"@), 41, 0);
    }
}

/// A rendered target list holds no block marker: only spaces and decimal
/// digits.
proof fn lemma_render_targets_no_marker(l: Seq<nat>, x: u8)
    requires
        x != 32,
        x < 48 || x > 57,
    ensures
        count_byte(render_targets(l), x) == 0,
    decreases l.len(),
{
    lemma_lit_space();
    if l.len() > 0 {
        lemma_render_targets_no_marker(l.drop_last(), x);
        lemma_count_concat(render_targets(l.drop_last()), ascii_bytes(" "@), x);
        lemma_count_concat(
            render_targets(l.drop_last()) + ascii_bytes(" "@),
            dec_digits(l.last()),
            x,
        );
        lemma_count_zero(ascii_bytes(" "@), x);
        lemma_count_dec_digits(l.last(), x);
    }
}

/// The selector line and the dispatch line hold no block marker.
proof fn lemma_middle_lines_no_marker(t: nat, x: u8)
    requires
        x != 32,
        x < 48 || x > 57,
        x != 10,
        x != 46,
        x != 95,
        97 <= x <= 122 ==> x == 40 || x == 41,
    ensures
        count_byte(
            wat_line(
                12 + 4 * t,
                ascii_bytes("i32.const "@) + dec_digits(selector_value(t)) + ascii_bytes("\n"@),
            ),
            x,
        ) == 0,
        count_byte(
            wat_line(
                12 + 4 * t,
                ascii_bytes("br_table"@) + render_targets(dispatch_targets(t)) + ascii_bytes(
                    "\n"@,
                ),
            ),
            x,
        ) == 0,
{
    lemma_lit_i32_const();
    lemma_lit_br_table();
    lemma_lit_newline();
    let cbody = ascii_bytes("i32.const "@) + dec_digits(selector_value(t)) + ascii_bytes("\n"@);
    lemma_count_wat_line(12 + 4 * t, cbody, x);
    lemma_count_concat(ascii_bytes("i32.const "@) + dec_digits(selector_value(t)), ascii_bytes(
        "\n"@,
    ), x);
    lemma_count_concat(ascii_bytes("i32.const "@), dec_digits(selector_value(t)), x);
    lemma_count_zero(ascii_bytes("i32.const "@), x);
    lemma_count_dec_digits(selector_value(t), x);
    lemma_count_zero(ascii_bytes("\n"@), x);
    let dbody = ascii_bytes("br_table"@) + render_targets(dispatch_targets(t)) + ascii_bytes(
        "\n"@,
    );
    lemma_count_wat_line(12 + 4 * t, dbody, x);
    lemma_count_concat(ascii_bytes("br_table"@) + render_targets(dispatch_targets(t)),
        ascii_bytes("\n"@), x);
    lemma_count_concat(ascii_bytes("br_table"@), render_targets(dispatch_targets(t)), x);
    lemma_count_zero(ascii_bytes("br_table"@), x);
    lemma_render_targets_no_marker(dispatch_targets(t), x);
}

/// One branch-table operation unit is balanced: exactly `t` open markers and
/// `t` close markers.
pub proof fn lemma_br_table_unit_balanced(t: nat)
    ensures
        count_byte(br_table_unit(t), 40) == t,
        count_byte(br_table_unit(t), 41) == t,
{
    let opens = open_lines(t);
    let cline = wat_line(
        12 + 4 * t,
        ascii_bytes("i32.const "@) + dec_digits(selector_value(t)) + ascii_bytes("\n"@),
    );
    let dline = wat_line(
        12 + 4 * t,
        ascii_bytes("br_table"@) + render_targets(dispatch_targets(t)) + ascii_bytes("\n"@),
    );
    let closes = close_lines_from(t);
    lemma_open_lines_balanced(t);
    lemma_close_lines_balanced(t);
    lemma_middle_lines_no_marker(t, 40);
    lemma_middle_lines_no_marker(t, 41);
    lemma_count_concat(opens, cline, 40);
    lemma_count_concat(opens + cline, dline, 40);
    lemma_count_concat(opens + cline + dline, closes, 40);
    lemma_count_concat(opens, cline, 41);
    lemma_count_concat(opens + cline, dline, 41);
    lemma_count_concat(opens + cline + dline, closes, 41);
}

/// For every number of repetitions, the branch-table fragment holds exactly
/// `t` open markers and `t` close markers per repetition, so the whole
/// fragment is balanced.
pub proof fn lemma_br_table_fragment_balanced(n: nat, t: nat)
    ensures
        count_byte(br_table_fragment(n, t), 40) == n * t,
        count_byte(br_table_fragment(n, t), 41) == n * t,
    decreases n,
{
    if n == 0 {
    } else {
        lemma_br_table_fragment_balanced((n - 1) as nat, t);
        lemma_br_table_unit_balanced(t);
        lemma_count_concat(br_table_fragment((n - 1) as nat, t), br_table_unit(t), 40);
        lemma_count_concat(br_table_fragment((n - 1) as nat, t), br_table_unit(t), 41);
        assert((n - 1) * t + t == n * t) by (nonlinear_arith);
    }
}

/// Zero repetitions produce the empty fragment: a valid no-op, not an error.
pub proof fn lemma_br_table_fragment_empty(t: nat)
    ensures
        br_table_fragment(0, t) == Seq::<u8>::empty(),
{
}

/// A fragment never shrinks as repetitions are added.
proof fn lemma_br_table_fragment_len_monotone(k: nat, n: nat, t: nat)
    requires
        k <= n,
    ensures
        br_table_fragment(k, t).len() <= br_table_fragment(n, t).len(),
    decreases n,
{
    if k < n {
        lemma_br_table_fragment_len_monotone(k, (n - 1) as nat, t);
    }
}

/// Every unit boundary of a fragment closes a smaller fragment: the buffer
/// up to the `k`-th boundary is exactly the `k`-unit fragment — which is
/// balanced — so nesting is balanced wherever a unit boundary is crossed.
pub proof fn lemma_br_table_fragment_balanced_at_boundaries(k: nat, n: nat, t: nat)
    requires
        k <= n,
    ensures
        br_table_fragment(k, t) == br_table_fragment(n, t).take(
            br_table_fragment(k, t).len() as int,
        ),
    decreases n,
{
    if k == n {
        assert(br_table_fragment(k, t) =~= br_table_fragment(n, t).take(
            br_table_fragment(k, t).len() as int,
        ));
    } else {
        lemma_br_table_fragment_balanced_at_boundaries(k, (n - 1) as nat, t);
        lemma_br_table_fragment_len_monotone(k, (n - 1) as nat, t);
        assert(br_table_fragment(n, t).take(br_table_fragment(k, t).len() as int)
            =~= br_table_fragment((n - 1) as nat, t).take(br_table_fragment(k, t).len() as int));
    }
}

} // verus!
