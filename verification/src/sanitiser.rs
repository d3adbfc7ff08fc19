use vstd::prelude::*;
use vstd::utf8::encode_scalar;

verus! {

/// Literal backspace byte, also used for overstrike emulation.
pub const BACKSPACE: u8 = 0x08;

/// Literal byte emitted for a substitute operation.
pub const SUBSTITUTE: u8 = 0x1A;

/// Literal space byte, the fallback for right movement.
pub const SPACE: u8 = 0x20;

/// Literal newline byte.
pub const LINEFEED: u8 = 0x0A;

/// Literal underscore byte, used for underline emulation.
pub const UNDERSCORE: u8 = 0x5F;

/// The escape templates of the destination terminal, one per capability the
/// interpreter uses, each already expanded to the exact bytes that invoke it.
/// A `None` field means the destination lacks that capability and the
/// interpreter must fall back or stay silent.
pub struct CapDb {
    pub cursor_right: Option<Vec<u8>>,
    pub cursor_left: Option<Vec<u8>>,
    pub cursor_up: Option<Vec<u8>>,
    pub cursor_down: Option<Vec<u8>>,
    pub carriage_return: Option<Vec<u8>>,
    pub tab: Option<Vec<u8>>,
    pub bell: Option<Vec<u8>>,
    pub scroll_reverse: Option<Vec<u8>>,
    pub scroll_forward: Option<Vec<u8>>,
    pub enter_standout: Option<Vec<u8>>,
    pub exit_standout: Option<Vec<u8>>,
    pub exit_attribute: Option<Vec<u8>>,
    pub enter_bold: Option<Vec<u8>>,
    pub enter_underline: Option<Vec<u8>>,
    pub exit_underline: Option<Vec<u8>>,
    pub enter_italics: Option<Vec<u8>>,
    pub exit_italics: Option<Vec<u8>>,
}

impl CapDb {
    /// A database with no capabilities at all: every operation degrades to its
    /// fallback or to silence.
    pub fn empty() -> (db: CapDb)
        ensures
            db.cursor_right is None,
            db.cursor_left is None,
            db.cursor_up is None,
            db.cursor_down is None,
            db.carriage_return is None,
            db.tab is None,
            db.bell is None,
            db.scroll_reverse is None,
            db.scroll_forward is None,
            db.enter_standout is None,
            db.exit_standout is None,
            db.exit_attribute is None,
            db.enter_bold is None,
            db.enter_underline is None,
            db.exit_underline is None,
            db.enter_italics is None,
            db.exit_italics is None,
    {
        CapDb {
            cursor_right: None,
            cursor_left: None,
            cursor_up: None,
            cursor_down: None,
            carriage_return: None,
            tab: None,
            bell: None,
            scroll_reverse: None,
            scroll_forward: None,
            enter_standout: None,
            exit_standout: None,
            exit_attribute: None,
            enter_bold: None,
            enter_underline: None,
            exit_underline: None,
            enter_italics: None,
            exit_italics: None,
        }
    }
}

/// The text attributes the interpreter is currently faking via overstrike
/// because the destination lacks a capability for them.
#[derive(Clone, Copy, PartialEq, Eq, Structural, Debug)]
pub struct Attributes {
    pub bold: bool,
    pub underline: bool,
}

impl Attributes {
    /// The initial state: nothing is being emulated.
    pub fn new() -> (a: Attributes)
        ensures
            a == (Attributes { bold: false, underline: false }),
    {
        Attributes { bold: false, underline: false }
    }
}

/// A decoded attribute-change operation. Variants that would carry a color
/// payload carry none here, because the interpreter never reads it: such
/// operations are consumed without output or state change.
#[derive(Clone, Copy, PartialEq, Eq, Structural, Debug)]
pub enum Attr {
    Reset,
    Bold,
    Dim,
    Italic,
    Underline,
    DoubleUnderline,
    Undercurl,
    DottedUnderline,
    DashedUnderline,
    BlinkSlow,
    BlinkFast,
    Reverse,
    Hidden,
    Strike,
    CancelBold,
    CancelBoldDim,
    CancelItalic,
    CancelUnderline,
    CancelBlink,
    CancelReverse,
    CancelHidden,
    CancelStrike,
    Foreground,
    Background,
    UnderlineColor,
}

/// A decoded terminal operation handed to the interpreter.
#[derive(Clone, Copy, PartialEq, Eq, Structural, Debug)]
pub enum Op {
    Print(char),
    GotoCol(usize),
    InsertBlank(usize),
    MoveUp(usize),
    MoveDown(usize),
    MoveForward(usize),
    MoveBackward(usize),
    MoveDownAndCr(usize),
    MoveUpAndCr(usize),
    PutTab(u16),
    Backspace,
    CarriageReturn,
    Linefeed,
    Bell,
    Substitute,
    Newline,
    ScrollUp(usize),
    ScrollDown(usize),
    InsertBlankLines(usize),
    ResetState,
    Attribute(Attr),
}

/// The bytes that invoking a capability once emits: its template when it is
/// present, nothing when it is absent.
pub open spec fn cap_bytes(cap: Option<Vec<u8>>) -> Seq<u8> {
    match cap {
        Some(b) => b@,
        None => seq![],
    }
}

/// `n` copies of `b`, concatenated.
pub open spec fn repeated(b: Seq<u8>, n: nat) -> Seq<u8>
    decreases n,
{
    if n == 0 {
        seq![]
    } else {
        repeated(b, (n - 1) as nat) + b
    }
}

/// The bytes of `n` invocations of a capability: `n` copies of its template
/// when it is present, nothing when it is absent.
pub open spec fn cap_repeated(cap: Option<Vec<u8>>, n: nat) -> Seq<u8> {
    match cap {
        Some(b) => repeated(b@, n),
        None => seq![],
    }
}

/// The bytes of a right move by `n`: `n` invocations of the right-move
/// capability, or `n` literal spaces when it is absent.
pub open spec fn move_right_out(caps: CapDb, n: nat) -> Seq<u8> {
    match caps.cursor_right {
        Some(b) => repeated(b@, n),
        None => repeated(seq![SPACE], n),
    }
}

/// The UTF-8 encoding of one character.
pub open spec fn char_bytes(c: char) -> Seq<u8> {
    encode_scalar(c as u32)
}

/// The bytes a printable character emits: an underscore-backspace overstrike
/// first when underline is being emulated, the character itself, then a
/// backspace and the character again when bold is being emulated.
pub open spec fn input_out(attrs: Attributes, c: char) -> Seq<u8> {
    (if attrs.underline {
        seq![UNDERSCORE, BACKSPACE]
    } else {
        seq![]
    }) + char_bytes(c) + (if attrs.bold {
        seq![BACKSPACE] + char_bytes(c)
    } else {
        seq![]
    })
}

/// The bytes an attribute-change operation emits.
pub open spec fn attr_out(caps: CapDb, a: Attr) -> Seq<u8> {
    match a {
        Attr::Reverse => cap_bytes(caps.enter_standout),
        Attr::CancelReverse => cap_bytes(caps.exit_standout),
        Attr::Reset => cap_bytes(caps.exit_attribute),
        Attr::Bold => cap_bytes(caps.enter_bold),
        Attr::Underline => cap_bytes(caps.enter_underline),
        Attr::CancelUnderline => cap_bytes(caps.exit_underline),
        Attr::Italic => cap_bytes(caps.enter_italics),
        Attr::CancelItalic => cap_bytes(caps.exit_italics),
        _ => seq![],
    }
}

/// The attribute state after an attribute-change operation. Bold and
/// underline are emulated only when their capability is absent; a full reset
/// clears both flags whether or not the reset capability exists; cancel-bold
/// clears its flag without consulting any capability.
pub open spec fn attr_next(caps: CapDb, attrs: Attributes, a: Attr) -> Attributes {
    match a {
        Attr::Reset => Attributes { bold: false, underline: false },
        Attr::Bold => if caps.enter_bold is Some {
            attrs
        } else {
            Attributes { bold: true, underline: attrs.underline }
        },
        Attr::CancelBold => Attributes { bold: false, underline: attrs.underline },
        Attr::Underline => if caps.enter_underline is Some {
            attrs
        } else {
            Attributes { bold: attrs.bold, underline: true }
        },
        Attr::CancelUnderline => Attributes { bold: attrs.bold, underline: false },
        _ => attrs,
    }
}

/// The bytes one decoded operation emits.
pub open spec fn op_out(caps: CapDb, attrs: Attributes, op: Op) -> Seq<u8> {
    match op {
        Op::Print(c) => input_out(attrs, c),
        Op::GotoCol(n) => cap_bytes(caps.carriage_return) + move_right_out(caps, n as nat),
        Op::InsertBlank(n) => repeated(seq![SPACE], n as nat),
        Op::MoveUp(n) => cap_repeated(caps.cursor_up, n as nat),
        Op::MoveDown(n) => cap_repeated(caps.cursor_down, n as nat),
        Op::MoveForward(n) => move_right_out(caps, n as nat),
        Op::MoveBackward(n) => cap_repeated(caps.cursor_left, n as nat),
        Op::MoveDownAndCr(n) => cap_repeated(caps.cursor_down, n as nat) + cap_bytes(
            caps.carriage_return,
        ),
        Op::MoveUpAndCr(n) => cap_repeated(caps.cursor_up, n as nat) + cap_bytes(
            caps.carriage_return,
        ),
        Op::PutTab(n) => cap_repeated(caps.tab, n as nat),
        Op::Backspace => seq![BACKSPACE],
        Op::CarriageReturn => cap_bytes(caps.carriage_return),
        Op::Linefeed => seq![LINEFEED],
        Op::Bell => cap_bytes(caps.bell),
        Op::Substitute => seq![SUBSTITUTE],
        Op::Newline => cap_bytes(caps.carriage_return) + seq![LINEFEED],
        Op::ScrollUp(n) => cap_repeated(caps.scroll_reverse, n as nat),
        Op::ScrollDown(n) => cap_repeated(caps.scroll_forward, n as nat),
        Op::InsertBlankLines(n) => repeated(seq![LINEFEED], n as nat),
        Op::ResetState => seq![],
        Op::Attribute(a) => attr_out(caps, a),
    }
}

/// The attribute state after one decoded operation: only attribute-change
/// operations touch it.
pub open spec fn op_next(caps: CapDb, attrs: Attributes, op: Op) -> Attributes {
    match op {
        Op::Attribute(a) => attr_next(caps, attrs, a),
        _ => attrs,
    }
}

/// The bytes a whole sequence of decoded operations emits, threading the
/// attribute state through.
pub open spec fn ops_out(caps: CapDb, attrs: Attributes, ops: Seq<Op>) -> Seq<u8>
    decreases ops.len(),
{
    if ops.len() == 0 {
        seq![]
    } else {
        op_out(caps, attrs, ops[0]) + ops_out(
            caps,
            op_next(caps, attrs, ops[0]),
            ops.drop_first(),
        )
    }
}

/// The attribute state after a whole sequence of decoded operations.
pub open spec fn ops_next(caps: CapDb, attrs: Attributes, ops: Seq<Op>) -> Attributes
    decreases ops.len(),
{
    if ops.len() == 0 {
        attrs
    } else {
        ops_next(caps, op_next(caps, attrs, ops[0]), ops.drop_first())
    }
}

/// Appends all of `b` to `out`.
fn emit_bytes(out: &mut Vec<u8>, b: &Vec<u8>)
    ensures
        final(out)@ == old(out)@ + b@,
{
    let mut i: usize = 0;
    while i < b.len()
        invariant
            i <= b.len(),
            out@ =~= old(out)@ + b@.take(i as int),
        decreases b.len() - i,
    {
        out.push(b[i]);
        assert(b@.take(i + 1 as int) =~= b@.take(i as int).push(b@[i as int]));
        i += 1;
    }
    assert(b@.take(b@.len() as int) =~= b@);
}

/// Invokes a capability once: appends its template when present, nothing when
/// absent.
fn emit_cap(out: &mut Vec<u8>, cap: &Option<Vec<u8>>)
    ensures
        final(out)@ == old(out)@ + cap_bytes(*cap),
{
    match cap {
        Some(b) => emit_bytes(out, b),
        None => {
            assert(out@ =~= old(out)@ + cap_bytes(*cap));
        },
    }
}

/// Invokes a capability `n` times when it is present; appends nothing when it
/// is absent.
fn emit_cap_repeat(out: &mut Vec<u8>, cap: &Option<Vec<u8>>, n: usize)
    ensures
        final(out)@ == old(out)@ + cap_repeated(*cap, n as nat),
{
    match cap {
        Some(b) => {
            let mut i: usize = 0;
            while i < n
                invariant
                    i <= n,
                    out@ =~= old(out)@ + repeated(b@, i as nat),
                decreases n - i,
            {
                emit_bytes(out, b);
                i += 1;
            }
        },
        None => {
            assert(out@ =~= old(out)@ + cap_repeated(*cap, n as nat));
        },
    }
}

/// Appends `n` copies of one literal byte.
fn emit_byte_repeat(out: &mut Vec<u8>, byte: u8, n: usize)
    ensures
        final(out)@ == old(out)@ + repeated(seq![byte], n as nat),
{
    let mut i: usize = 0;
    while i < n
        invariant
            i <= n,
            out@ =~= old(out)@ + repeated(seq![byte], i as nat),
        decreases n - i,
    {
        out.push(byte);
        assert(out@ =~= old(out)@ + repeated(seq![byte], (i + 1) as nat));
        i += 1;
    }
}

/// Appends the UTF-8 encoding of one character, mirroring the reference
/// encoding byte for byte.
fn push_char(out: &mut Vec<u8>, c: char)
    ensures
        final(out)@ == old(out)@ + char_bytes(c),
{
    proof {
        vstd::utf8::char_is_scalar(c);
    }
    let u: u32 = c as u32;
    if u < 0x80 {
        assert(u & 0x7F == u && u & 0x7F < 0x80) by (bit_vector)
            requires
                u < 0x80,
        ;
        out.push((u & 0x7F) as u8);
        assert(out@ =~= old(out)@ + char_bytes(c));
    } else if u < 0x800 {
        assert((u >> 6) & 0x1F < 0x20 && u & 0x3F < 0x40) by (bit_vector);
        out.push(0xC0u8 | ((u >> 6) & 0x1F) as u8);
        out.push(0x80u8 | (u & 0x3F) as u8);
        assert(out@ =~= old(out)@ + char_bytes(c));
    } else if u < 0x10000 {
        assert((u >> 12) & 0x0F < 0x10 && (u >> 6) & 0x3F < 0x40 && u & 0x3F < 0x40)
            by (bit_vector);
        out.push(0xE0u8 | ((u >> 12) & 0x0F) as u8);
        out.push(0x80u8 | ((u >> 6) & 0x3F) as u8);
        out.push(0x80u8 | (u & 0x3F) as u8);
        assert(out@ =~= old(out)@ + char_bytes(c));
    } else {
        assert((u >> 18) & 0x7 < 0x8 && (u >> 12) & 0x3F < 0x40 && (u >> 6) & 0x3F < 0x40 && u
            & 0x3F < 0x40) by (bit_vector);
        out.push(0xF0u8 | ((u >> 18) & 0x7) as u8);
        out.push(0x80u8 | ((u >> 12) & 0x3F) as u8);
        out.push(0x80u8 | ((u >> 6) & 0x3F) as u8);
        out.push(0x80u8 | (u & 0x3F) as u8);
        assert(out@ =~= old(out)@ + char_bytes(c));
    }
}

/// The escape-sequence interpreter: holds the destination's capabilities, the
/// attribute-emulation state, and the bytes emitted so far and not yet drained.
pub struct Sanitizer {
    pub caps: CapDb,
    pub attributes: Attributes,
    pub out: Vec<u8>,
}

/// How one interpreter step relates the state after (`post`) to the state
/// before (`pre`): the capabilities are untouched, exactly `emitted` was
/// appended to the pending output, and the attribute state becomes `attrs`.
pub open spec fn emits(pre: Sanitizer, post: Sanitizer, emitted: Seq<u8>, attrs: Attributes) -> bool {
    &&& post.caps == pre.caps
    &&& post.attributes == attrs
    &&& post.out@ == pre.out@ + emitted
}

impl Sanitizer {
    /// A fresh interpreter over the given capabilities, with no attribute
    /// emulated and nothing pending.
    pub fn new(caps: CapDb) -> (s: Sanitizer)
        ensures
            s.caps == caps,
            s.attributes == (Attributes { bold: false, underline: false }),
            s.out@ == Seq::<u8>::empty(),
    {
        Sanitizer { caps, attributes: Attributes::new(), out: Vec::new() }
    }

    /// Hands out everything emitted so far and leaves nothing pending.
    pub fn take_output(&mut self) -> (r: Vec<u8>)
        ensures
            r@ == old(self).out@,
            final(self).out@ == Seq::<u8>::empty(),
            final(self).caps == old(self).caps,
            final(self).attributes == old(self).attributes,
    {
        let mut r: Vec<u8> = Vec::new();
        core::mem::swap(&mut r, &mut self.out);
        r
    }

    /// A printable character: written as-is, with an underscore-backspace
    /// overstrike before it while underline is emulated, and a
    /// backspace-rewrite after it while bold is emulated.
    pub fn input(&mut self, c: char)
        ensures
            emits(*old(self), *final(self), input_out(old(self).attributes, c), old(self).attributes),
    {
        if self.attributes.underline {
            self.out.push(UNDERSCORE);
            self.out.push(BACKSPACE);
        }
        push_char(&mut self.out, c);
        if self.attributes.bold {
            self.out.push(BACKSPACE);
            push_char(&mut self.out, c);
        }
        assert(self.out@ =~= old(self).out@ + input_out(old(self).attributes, c));
    }

    /// Right movement: `count` invocations of the right-move capability, or
    /// `count` literal spaces when it is absent — safe on a print-only device,
    /// which cannot rewind anyway.
    pub fn move_right(&mut self, count: usize)
        ensures
            emits(*old(self), *final(self), move_right_out(old(self).caps, count as nat), old(self).attributes),
    {
        if self.caps.cursor_right.is_some() {
            emit_cap_repeat(&mut self.out, &self.caps.cursor_right, count);
        } else {
            emit_byte_repeat(&mut self.out, SPACE, count);
        }
    }

    /// Move to a column: carriage return (a silent no-op without the
    /// capability), then right movement. The current column is not tracked;
    /// this is the documented approximation.
    pub fn goto_col(&mut self, column: usize)
        ensures
            emits(
                *old(self),
                *final(self),
                op_out(old(self).caps, old(self).attributes, Op::GotoCol(column)),
                old(self).attributes,
            ),
    {
        emit_cap(&mut self.out, &self.caps.carriage_return);
        self.move_right(column);
        assert(self.out@ =~= old(self).out@ + op_out(
            old(self).caps,
            old(self).attributes,
            Op::GotoCol(column),
        ));
    }

    /// Insert blanks: literal spaces; where the cursor ends up afterwards is a
    /// documented limitation.
    pub fn insert_blank(&mut self, count: usize)
        ensures
            emits(*old(self), *final(self), repeated(seq![SPACE], count as nat), old(self).attributes),
    {
        emit_byte_repeat(&mut self.out, SPACE, count);
    }

    /// Move up: capability repeats, or a silent no-op.
    pub fn move_up(&mut self, rows: usize)
        ensures
            emits(*old(self), *final(self), cap_repeated(old(self).caps.cursor_up, rows as nat), old(self).attributes),
    {
        emit_cap_repeat(&mut self.out, &self.caps.cursor_up, rows);
    }

    /// Move down: capability repeats, or a silent no-op.
    pub fn move_down(&mut self, rows: usize)
        ensures
            emits(*old(self), *final(self), cap_repeated(old(self).caps.cursor_down, rows as nat), old(self).attributes),
    {
        emit_cap_repeat(&mut self.out, &self.caps.cursor_down, rows);
    }

    /// Move forward: the same policy as any right movement.
    pub fn move_forward(&mut self, cols: usize)
        ensures
            emits(*old(self), *final(self), move_right_out(old(self).caps, cols as nat), old(self).attributes),
    {
        self.move_right(cols);
    }

    /// Move backward: capability repeats, or a silent no-op — no space
    /// fallback is possible going backward.
    pub fn move_backward(&mut self, cols: usize)
        ensures
            emits(*old(self), *final(self), cap_repeated(old(self).caps.cursor_left, cols as nat), old(self).attributes),
    {
        emit_cap_repeat(&mut self.out, &self.caps.cursor_left, cols);
    }

    /// Move down then carriage return; whichever part lacks a capability is a
    /// silent no-op.
    pub fn move_down_and_cr(&mut self, rows: usize)
        ensures
            emits(
                *old(self),
                *final(self),
                op_out(old(self).caps, old(self).attributes, Op::MoveDownAndCr(rows)),
                old(self).attributes,
            ),
    {
        emit_cap_repeat(&mut self.out, &self.caps.cursor_down, rows);
        emit_cap(&mut self.out, &self.caps.carriage_return);
        assert(self.out@ =~= old(self).out@ + op_out(
            old(self).caps,
            old(self).attributes,
            Op::MoveDownAndCr(rows),
        ));
    }

    /// Move up then carriage return; whichever part lacks a capability is a
    /// silent no-op.
    pub fn move_up_and_cr(&mut self, rows: usize)
        ensures
            emits(
                *old(self),
                *final(self),
                op_out(old(self).caps, old(self).attributes, Op::MoveUpAndCr(rows)),
                old(self).attributes,
            ),
    {
        emit_cap_repeat(&mut self.out, &self.caps.cursor_up, rows);
        emit_cap(&mut self.out, &self.caps.carriage_return);
        assert(self.out@ =~= old(self).out@ + op_out(
            old(self).caps,
            old(self).attributes,
            Op::MoveUpAndCr(rows),
        ));
    }

    /// Tabs: capability repeats, or a silent no-op.
    pub fn put_tab(&mut self, count: u16)
        ensures
            emits(*old(self), *final(self), cap_repeated(old(self).caps.tab, count as nat), old(self).attributes),
    {
        emit_cap_repeat(&mut self.out, &self.caps.tab, count as usize);
    }

    /// Backspace: the literal byte.
    pub fn backspace(&mut self)
        ensures
            emits(*old(self), *final(self), seq![BACKSPACE], old(self).attributes),
    {
        self.out.push(BACKSPACE);
        assert(self.out@ =~= old(self).out@ + seq![BACKSPACE]);
    }

    /// Carriage return: capability, or a silent no-op.
    pub fn carriage_return(&mut self)
        ensures
            emits(*old(self), *final(self), cap_bytes(old(self).caps.carriage_return), old(self).attributes),
    {
        emit_cap(&mut self.out, &self.caps.carriage_return);
    }

    /// Linefeed: the literal byte.
    pub fn linefeed(&mut self)
        ensures
            emits(*old(self), *final(self), seq![LINEFEED], old(self).attributes),
    {
        self.out.push(LINEFEED);
        assert(self.out@ =~= old(self).out@ + seq![LINEFEED]);
    }

    /// Bell: capability, or a silent no-op.
    pub fn bell(&mut self)
        ensures
            emits(*old(self), *final(self), cap_bytes(old(self).caps.bell), old(self).attributes),
    {
        emit_cap(&mut self.out, &self.caps.bell);
    }

    /// Substitute: the literal byte.
    pub fn substitute(&mut self)
        ensures
            emits(*old(self), *final(self), seq![SUBSTITUTE], old(self).attributes),
    {
        self.out.push(SUBSTITUTE);
        assert(self.out@ =~= old(self).out@ + seq![SUBSTITUTE]);
    }

    /// Newline: carriage-return capability (or nothing), then a linefeed.
    pub fn newline(&mut self)
        ensures
            emits(
                *old(self),
                *final(self),
                cap_bytes(old(self).caps.carriage_return) + seq![LINEFEED],
                old(self).attributes,
            ),
    {
        emit_cap(&mut self.out, &self.caps.carriage_return);
        self.linefeed();
        assert(self.out@ =~= old(self).out@ + (cap_bytes(old(self).caps.carriage_return)
            + seq![LINEFEED]));
    }

    /// Scroll up: reverse-scroll capability repeats, or a silent no-op.
    pub fn scroll_up(&mut self, rows: usize)
        ensures
            emits(*old(self), *final(self), cap_repeated(old(self).caps.scroll_reverse, rows as nat), old(self).attributes),
    {
        emit_cap_repeat(&mut self.out, &self.caps.scroll_reverse, rows);
    }

    /// Scroll down: forward-scroll capability repeats, or a silent no-op.
    pub fn scroll_down(&mut self, rows: usize)
        ensures
            emits(*old(self), *final(self), cap_repeated(old(self).caps.scroll_forward, rows as nat), old(self).attributes),
    {
        emit_cap_repeat(&mut self.out, &self.caps.scroll_forward, rows);
    }

    /// Insert blank lines: literal newlines; subsequent content is not
    /// preserved, a documented limitation.
    pub fn insert_blank_lines(&mut self, rows: usize)
        ensures
            emits(*old(self), *final(self), repeated(seq![LINEFEED], rows as nat), old(self).attributes),
    {
        emit_byte_repeat(&mut self.out, LINEFEED, rows);
    }

    /// Full terminal reset: a deliberate no-op, since hard-copy and minimal
    /// terminals lack a reliable reset capability.
    pub fn reset_state(&mut self)
        ensures
            emits(*old(self), *final(self), seq![], old(self).attributes),
    {
        assert(self.out@ =~= old(self).out@ + Seq::<u8>::empty());
    }

    /// An attribute change: emits per the capability table and updates the
    /// emulation flags. A full reset clears both flags whether or not the
    /// reset capability exists; cancel-bold never consults a capability;
    /// cancel-underline consults one and clears its flag regardless.
    pub fn terminal_attribute(&mut self, attr: Attr)
        ensures
            emits(
                *old(self),
                *final(self),
                attr_out(old(self).caps, attr),
                attr_next(old(self).caps, old(self).attributes, attr),
            ),
    {
        match attr {
            Attr::Reverse => {
                emit_cap(&mut self.out, &self.caps.enter_standout);
            },
            Attr::CancelReverse => {
                emit_cap(&mut self.out, &self.caps.exit_standout);
            },
            Attr::Reset => {
                emit_cap(&mut self.out, &self.caps.exit_attribute);
                self.attributes.bold = false;
                self.attributes.underline = false;
            },
            Attr::Bold => {
                if self.caps.enter_bold.is_some() {
                    emit_cap(&mut self.out, &self.caps.enter_bold);
                } else {
                    self.attributes.bold = true;
                }
            },
            Attr::CancelBold => {
                self.attributes.bold = false;
            },
            Attr::Underline => {
                if self.caps.enter_underline.is_some() {
                    emit_cap(&mut self.out, &self.caps.enter_underline);
                } else {
                    self.attributes.underline = true;
                }
            },
            Attr::CancelUnderline => {
                emit_cap(&mut self.out, &self.caps.exit_underline);
                self.attributes.underline = false;
            },
            Attr::Italic => {
                emit_cap(&mut self.out, &self.caps.enter_italics);
            },
            Attr::CancelItalic => {
                emit_cap(&mut self.out, &self.caps.exit_italics);
            },
            _ => {},
        }
        assert(self.out@ =~= old(self).out@ + attr_out(old(self).caps, attr));
    }

    /// Dispatches one decoded operation to its handler.
    pub fn apply(&mut self, op: Op)
        ensures
            emits(
                *old(self),
                *final(self),
                op_out(old(self).caps, old(self).attributes, op),
                op_next(old(self).caps, old(self).attributes, op),
            ),
    {
        match op {
            Op::Print(c) => self.input(c),
            Op::GotoCol(n) => self.goto_col(n),
            Op::InsertBlank(n) => self.insert_blank(n),
            Op::MoveUp(n) => self.move_up(n),
            Op::MoveDown(n) => self.move_down(n),
            Op::MoveForward(n) => self.move_forward(n),
            Op::MoveBackward(n) => self.move_backward(n),
            Op::MoveDownAndCr(n) => self.move_down_and_cr(n),
            Op::MoveUpAndCr(n) => self.move_up_and_cr(n),
            Op::PutTab(n) => self.put_tab(n),
            Op::Backspace => self.backspace(),
            Op::CarriageReturn => self.carriage_return(),
            Op::Linefeed => self.linefeed(),
            Op::Bell => self.bell(),
            Op::Substitute => self.substitute(),
            Op::Newline => self.newline(),
            Op::ScrollUp(n) => self.scroll_up(n),
            Op::ScrollDown(n) => self.scroll_down(n),
            Op::InsertBlankLines(n) => self.insert_blank_lines(n),
            Op::ResetState => self.reset_state(),
            Op::Attribute(a) => self.terminal_attribute(a),
        }
    }

    /// Processes a whole chunk of decoded operations in order.
    pub fn apply_all(&mut self, ops: &Vec<Op>)
        ensures
            emits(
                *old(self),
                *final(self),
                ops_out(old(self).caps, old(self).attributes, ops@),
                ops_next(old(self).caps, old(self).attributes, ops@),
            ),
    {
        let ghost caps0 = self.caps;
        let ghost attrs0 = self.attributes;
        let ghost out0 = self.out@;
        let mut i: usize = 0;
        while i < ops.len()
            invariant
                i <= ops.len(),
                self.caps == caps0,
                self.out@ == out0 + ops_out(caps0, attrs0, ops@.take(i as int)),
                self.attributes == ops_next(caps0, attrs0, ops@.take(i as int)),
            decreases ops.len() - i,
        {
            proof {
                lemma_ops_snoc(caps0, attrs0, ops@.take(i as int), ops@[i as int]);
                assert(ops@.take(i + 1 as int) =~= ops@.take(i as int).push(ops@[i as int]));
            }
            self.apply(ops[i]);
            i += 1;
        }
        proof {
            assert(ops@.take(ops@.len() as int) =~= ops@);
        }
    }
}

/// Extending a run of operations by one more: the emitted bytes grow by the
/// last operation's output under the state the run reached, and the state
/// advances by that operation.
pub proof fn lemma_ops_snoc(caps: CapDb, attrs: Attributes, ops: Seq<Op>, op: Op)
    ensures
        ops_out(caps, attrs, ops.push(op)) == ops_out(caps, attrs, ops) + op_out(
            caps,
            ops_next(caps, attrs, ops),
            op,
        ),
        ops_next(caps, attrs, ops.push(op)) == op_next(caps, ops_next(caps, attrs, ops), op),
    decreases ops.len(),
{
    let s = ops.push(op);
    if ops.len() == 0 {
        assert(s[0] == op);
        assert(s.drop_first() =~= Seq::<Op>::empty());
        assert(s.len() == 1);
        assert(ops_out(caps, attrs, s) == op_out(caps, attrs, op) + ops_out(
            caps,
            op_next(caps, attrs, op),
            s.drop_first(),
        ));
        assert(ops_out(caps, op_next(caps, attrs, op), s.drop_first()) == Seq::<u8>::empty());
        assert(s.drop_first() == Seq::<Op>::empty());
        assert(ops_next(caps, op_next(caps, attrs, op), Seq::<Op>::empty()) == op_next(
            caps,
            attrs,
            op,
        ));
        assert(ops_next(caps, attrs, s) == op_next(caps, attrs, op));
        assert(ops_out(caps, attrs, ops) == Seq::<u8>::empty());
        assert(ops_next(caps, attrs, ops) == attrs);
        assert(ops_out(caps, attrs, s) =~= ops_out(caps, attrs, ops) + op_out(
            caps,
            ops_next(caps, attrs, ops),
            op,
        ));
    } else {
        let n1 = op_next(caps, attrs, ops[0]);
        assert(s[0] == ops[0]);
        assert(s.drop_first() =~= ops.drop_first().push(op));
        lemma_ops_snoc(caps, n1, ops.drop_first(), op);
        assert(ops_next(caps, attrs, s) == ops_next(caps, n1, s.drop_first()));
        assert(ops_out(caps, attrs, s) =~= ops_out(caps, attrs, ops) + op_out(
            caps,
            ops_next(caps, attrs, ops),
            op,
        ));
    }
}

} // verus!
