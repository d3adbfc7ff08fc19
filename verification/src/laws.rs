use vstd::prelude::*;
use vstd::utf8::encode_utf8;
use crate::sanitiser::{
    Attr, Attributes, CapDb, Op, attr_next, attr_out, cap_bytes, char_bytes, input_out,
    move_right_out, op_next, op_out, ops_out, repeated, BACKSPACE, SPACE, UNDERSCORE,
};

verus! {

broadcast use vstd::seq::group_seq_axioms;

/// One print operation per character of `cs`, in order.
pub open spec fn prints(cs: Seq<char>) -> Seq<Op>
    decreases cs.len(),
{
    if cs.len() == 0 {
        seq![]
    } else {
        seq![Op::Print(cs[0])] + prints(cs.drop_first())
    }
}

/// The byte stream of `cs` with every character overstruck for bold: the
/// character, a backspace, then the character again.
pub open spec fn bold_overstruck(cs: Seq<char>) -> Seq<u8>
    decreases cs.len(),
{
    if cs.len() == 0 {
        seq![]
    } else {
        char_bytes(cs[0]) + seq![BACKSPACE] + char_bytes(cs[0]) + bold_overstruck(
            cs.drop_first(),
        )
    }
}

/// The byte stream of `cs` with every character overstruck for underline: an
/// underscore, a backspace, then the character.
pub open spec fn underline_overstruck(cs: Seq<char>) -> Seq<u8>
    decreases cs.len(),
{
    if cs.len() == 0 {
        seq![]
    } else {
        seq![UNDERSCORE, BACKSPACE] + char_bytes(cs[0]) + underline_overstruck(cs.drop_first())
    }
}

/// Restates a character as a value of its own type. Passing a sequence
/// element through this reinstates the typing fact the solver needs before it
/// will reason about an operation built around that character.
proof fn char_typed(c: char) -> (r: char)
    ensures
        r == c,
{
    c
}

/// Unfolds one step of `prints` on a non-empty sequence.
pub proof fn lemma_prints_step(cs: Seq<char>)
    requires
        cs.len() > 0,
    ensures
        prints(cs).len() == 1 + prints(cs.drop_first()).len(),
        prints(cs)[0] == Op::Print(cs[0]),
        prints(cs).drop_first() == prints(cs.drop_first()),
{
    let c = char_typed(cs[0]);
    let head = seq![Op::Print(c)];
    let rest = prints(cs.drop_first());
    assert(head.len() == 1);
    assert(prints(cs) == head + rest);
    assert((head + rest).drop_first() =~= rest);
}

/// With neither attribute emulated, printing a character sequence emits
/// exactly its UTF-8 encoding, whatever the capabilities are.
pub proof fn lemma_plain_prints(caps: CapDb, attrs: Attributes, cs: Seq<char>)
    requires
        !attrs.bold,
        !attrs.underline,
    ensures
        ops_out(caps, attrs, prints(cs)) == encode_utf8(cs),
    decreases cs.len(),
{
    if cs.len() == 0 {
        assert(prints(cs) =~= Seq::<Op>::empty());
    } else {
        lemma_prints_step(cs);
        lemma_plain_prints(caps, attrs, cs.drop_first());
        assert(ops_out(caps, attrs, prints(cs)) =~= encode_utf8(cs));
    }
}

/// While bold is emulated (and underline is not), every printed character is
/// followed immediately by a backspace and the character again, for the whole
/// sequence, whatever the capabilities are.
pub proof fn lemma_bold_emulation_overstrikes(caps: CapDb, attrs: Attributes, cs: Seq<char>)
    requires
        attrs.bold,
        !attrs.underline,
    ensures
        ops_out(caps, attrs, prints(cs)) == bold_overstruck(cs),
    decreases cs.len(),
{
    if cs.len() == 0 {
        assert(prints(cs) =~= Seq::<Op>::empty());
    } else {
        lemma_prints_step(cs);
        lemma_bold_emulation_overstrikes(caps, attrs, cs.drop_first());
        assert(ops_out(caps, attrs, prints(cs)) =~= bold_overstruck(cs));
    }
}

/// While underline is emulated (and bold is not), every printed character is
/// preceded by an underscore and a backspace, for the whole sequence,
/// whatever the capabilities are.
pub proof fn lemma_underline_emulation_overstrikes(caps: CapDb, attrs: Attributes, cs: Seq<char>)
    requires
        attrs.underline,
        !attrs.bold,
    ensures
        ops_out(caps, attrs, prints(cs)) == underline_overstruck(cs),
    decreases cs.len(),
{
    if cs.len() == 0 {
        assert(prints(cs) =~= Seq::<Op>::empty());
    } else {
        lemma_prints_step(cs);
        lemma_underline_emulation_overstrikes(caps, attrs, cs.drop_first());
        assert(ops_out(caps, attrs, prints(cs)) =~= underline_overstruck(cs));
    }
}

/// When an enter-bold capability exists, enabling bold never turns emulation
/// on: the capability bytes are emitted and the following characters print
/// plainly, with no overstrike.
pub proof fn lemma_bold_capability_no_overstrike(caps: CapDb, attrs: Attributes, cs: Seq<char>)
    requires
        caps.enter_bold is Some,
        !attrs.bold,
        !attrs.underline,
    ensures
        ops_out(caps, attrs, seq![Op::Attribute(Attr::Bold)] + prints(cs)) == cap_bytes(
            caps.enter_bold,
        ) + encode_utf8(cs),
{
    let s = seq![Op::Attribute(Attr::Bold)] + prints(cs);
    assert(s[0] == Op::Attribute(Attr::Bold));
    assert(s.drop_first() =~= prints(cs));
    assert(op_next(caps, attrs, s[0]) == attrs);
    lemma_plain_prints(caps, attrs, cs);
    assert(ops_out(caps, attrs, s) =~= cap_bytes(caps.enter_bold) + encode_utf8(cs));
}

/// When an enter-underline capability exists, enabling underline never turns
/// emulation on: the capability bytes are emitted and the following
/// characters print plainly, with no overstrike.
pub proof fn lemma_underline_capability_no_overstrike(caps: CapDb, attrs: Attributes, cs: Seq<char>)
    requires
        caps.enter_underline is Some,
        !attrs.bold,
        !attrs.underline,
    ensures
        ops_out(caps, attrs, seq![Op::Attribute(Attr::Underline)] + prints(cs)) == cap_bytes(
            caps.enter_underline,
        ) + encode_utf8(cs),
{
    let s = seq![Op::Attribute(Attr::Underline)] + prints(cs);
    assert(s[0] == Op::Attribute(Attr::Underline));
    assert(s.drop_first() =~= prints(cs));
    assert(op_next(caps, attrs, s[0]) == attrs);
    lemma_plain_prints(caps, attrs, cs);
    assert(ops_out(caps, attrs, s) =~= cap_bytes(caps.enter_underline) + encode_utf8(cs));
}

/// A full attribute reset clears both emulation flags, whether or not the
/// exit-attribute capability exists and whatever state they were in.
pub proof fn lemma_reset_always_clears(caps: CapDb, attrs: Attributes)
    ensures
        attr_next(caps, attrs, Attr::Reset) == (Attributes { bold: false, underline: false }),
{
}

/// Cancel-bold is pure state: it emits nothing, its output does not depend on
/// any capability, and it always clears the bold flag.
pub proof fn lemma_cancel_bold_ignores_capabilities(caps: CapDb, other: CapDb, attrs: Attributes)
    ensures
        attr_out(caps, Attr::CancelBold) == Seq::<u8>::empty(),
        attr_out(caps, Attr::CancelBold) == attr_out(other, Attr::CancelBold),
        attr_next(caps, attrs, Attr::CancelBold) == (Attributes {
            bold: false,
            underline: attrs.underline,
        }),
{
}

/// Cancel-underline goes through the capability — its output is exactly the
/// exit-underline template when one exists — and clears the underline flag
/// regardless of whether it did.
pub proof fn lemma_cancel_underline_uses_capability(caps: CapDb, attrs: Attributes)
    ensures
        attr_out(caps, Attr::CancelUnderline) == cap_bytes(caps.exit_underline),
        attr_next(caps, attrs, Attr::CancelUnderline) == (Attributes {
            bold: attrs.bold,
            underline: false,
        }),
{
}

/// `n` copies of a one-byte sequence: length `n`, every element that byte.
pub proof fn lemma_repeated_single(byte: u8, n: nat)
    ensures
        repeated(seq![byte], n).len() == n,
        forall|i: int| 0 <= i < n ==> repeated(seq![byte], n)[i] == byte,
    decreases n,
{
    if n != 0 {
        lemma_repeated_single(byte, (n - 1) as nat);
    }
}

/// Right movement without the right-move capability emits exactly `n` literal
/// space bytes.
pub proof fn lemma_move_right_fallback_is_spaces(caps: CapDb, n: nat)
    requires
        caps.cursor_right is None,
    ensures
        move_right_out(caps, n).len() == n,
        forall|i: int| 0 <= i < n ==> move_right_out(caps, n)[i] == SPACE,
{
    lemma_repeated_single(SPACE, n);
}

/// Right movement with the right-move capability present emits exactly `n`
/// copies of its template and nothing else — in particular, no fallback
/// spaces are added.
pub proof fn lemma_move_right_capability_repeats(caps: CapDb, b: Vec<u8>, n: nat)
    requires
        caps.cursor_right == Some(b),
    ensures
        move_right_out(caps, n) == repeated(b@, n),
{
}

/// Color, blink, hidden, strikethrough, dim, the decorated underlines, and
/// their cancel forms are consumed with zero output bytes and zero state
/// change.
pub proof fn lemma_unsupported_attributes_inert(caps: CapDb, attrs: Attributes, a: Attr)
    requires
        a is Foreground || a is Background || a is UnderlineColor || a is DoubleUnderline
            || a is Undercurl || a is DottedUnderline || a is DashedUnderline || a is BlinkSlow
            || a is BlinkFast || a is Hidden || a is Strike || a is Dim || a is CancelBoldDim
            || a is CancelBlink || a is CancelHidden || a is CancelStrike,
    ensures
        attr_out(caps, a) == Seq::<u8>::empty(),
        attr_next(caps, attrs, a) == attrs,
{
}

/// Backward movement without the left-move capability emits nothing at all:
/// unlike right movement, it has no space fallback.
pub proof fn lemma_move_backward_without_capability_silent(
    caps: CapDb,
    attrs: Attributes,
    n: usize,
)
    requires
        caps.cursor_left is None,
    ensures
        op_out(caps, attrs, Op::MoveBackward(n)) == Seq::<u8>::empty(),
{
}

} // verus!
