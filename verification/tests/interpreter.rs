use dumbterm::sanitiser::{Attr, CapDb, Op, Sanitizer};

fn no_caps() -> CapDb {
    CapDb::empty()
}

/// Every capability present, each with a distinct marker, so a test can tell
/// exactly which capability (if any) an operation consulted.
fn all_caps() -> CapDb {
    CapDb {
        cursor_right: Some(b"<right>".to_vec()),
        cursor_left: Some(b"<left>".to_vec()),
        cursor_up: Some(b"<up>".to_vec()),
        cursor_down: Some(b"<down>".to_vec()),
        carriage_return: Some(b"<cr>".to_vec()),
        tab: Some(b"<tab>".to_vec()),
        bell: Some(b"<bell>".to_vec()),
        scroll_reverse: Some(b"<sr>".to_vec()),
        scroll_forward: Some(b"<sf>".to_vec()),
        enter_standout: Some(b"<so>".to_vec()),
        exit_standout: Some(b"<so/>".to_vec()),
        exit_attribute: Some(b"<sgr0>".to_vec()),
        enter_bold: Some(b"<bold>".to_vec()),
        enter_underline: Some(b"<ul>".to_vec()),
        exit_underline: Some(b"<ul/>".to_vec()),
        enter_italics: Some(b"<it>".to_vec()),
        exit_italics: Some(b"<it/>".to_vec()),
    }
}

#[test]
fn plain_text_passes_through() {
    let mut s = Sanitizer::new(no_caps());
    for c in "hello".chars() {
        s.input(c);
    }
    assert_eq!(s.take_output(), b"hello".to_vec());
}

#[test]
fn bold_emulation_scenario() {
    // Bold on with no bold capability, "hi", then a full attribute reset with
    // no reset capability: every character is overstruck, nothing trails.
    let mut s = Sanitizer::new(no_caps());
    s.terminal_attribute(Attr::Bold);
    s.input('h');
    s.input('i');
    s.terminal_attribute(Attr::Reset);
    assert_eq!(s.take_output(), b"h\x08hi\x08i".to_vec());
}

#[test]
fn bold_capability_means_no_overstrike() {
    let mut s = Sanitizer::new(all_caps());
    s.terminal_attribute(Attr::Bold);
    s.input('h');
    assert_eq!(s.take_output(), b"<bold>h".to_vec());
}

#[test]
fn underline_emulation_prefixes_each_character() {
    let mut s = Sanitizer::new(no_caps());
    s.terminal_attribute(Attr::Underline);
    s.input('a');
    s.input('b');
    assert_eq!(s.take_output(), b"_\x08a_\x08b".to_vec());
}

#[test]
fn underline_capability_means_no_overstrike() {
    let mut s = Sanitizer::new(all_caps());
    s.terminal_attribute(Attr::Underline);
    s.input('a');
    assert_eq!(s.take_output(), b"<ul>a".to_vec());
}

#[test]
fn reset_clears_attributes_without_capability() {
    let mut s = Sanitizer::new(no_caps());
    s.terminal_attribute(Attr::Bold);
    s.terminal_attribute(Attr::Underline);
    s.terminal_attribute(Attr::Reset);
    s.input('x');
    assert_eq!(s.take_output(), b"x".to_vec());
}

#[test]
fn reset_clears_attributes_with_capability() {
    let mut caps = no_caps();
    caps.exit_attribute = Some(b"<sgr0>".to_vec());
    let mut s = Sanitizer::new(caps);
    s.terminal_attribute(Attr::Bold);
    s.terminal_attribute(Attr::Underline);
    s.terminal_attribute(Attr::Reset);
    s.input('x');
    assert_eq!(s.take_output(), b"<sgr0>x".to_vec());
}

#[test]
fn cancel_bold_consults_no_capability() {
    // Even with every capability present and distinct, cancel-bold emits
    // nothing at all: it is handled purely through local state.
    let mut caps = all_caps();
    caps.enter_bold = None;
    let mut s = Sanitizer::new(caps);
    s.terminal_attribute(Attr::Bold);
    s.input('a');
    s.terminal_attribute(Attr::CancelBold);
    s.input('b');
    assert_eq!(s.take_output(), b"a\x08ab".to_vec());
}

#[test]
fn cancel_underline_goes_through_capability() {
    let mut caps = all_caps();
    caps.enter_underline = None;
    let mut s = Sanitizer::new(caps);
    s.terminal_attribute(Attr::Underline);
    s.input('a');
    s.terminal_attribute(Attr::CancelUnderline);
    s.input('b');
    assert_eq!(s.take_output(), b"_\x08a<ul/>b".to_vec());
}

#[test]
fn cancel_underline_clears_state_without_capability() {
    let mut s = Sanitizer::new(no_caps());
    s.terminal_attribute(Attr::Underline);
    s.terminal_attribute(Attr::CancelUnderline);
    s.input('b');
    assert_eq!(s.take_output(), b"b".to_vec());
}

#[test]
fn move_right_without_capability_is_spaces() {
    let mut s = Sanitizer::new(no_caps());
    s.move_right(3);
    assert_eq!(s.take_output(), b"   ".to_vec());
}

#[test]
fn move_right_with_capability_repeats_it() {
    let mut s = Sanitizer::new(all_caps());
    s.move_right(3);
    assert_eq!(s.take_output(), b"<right><right><right>".to_vec());
}

#[test]
fn move_forward_shares_the_right_move_policy() {
    let mut s = Sanitizer::new(no_caps());
    s.move_forward(2);
    assert_eq!(s.take_output(), b"  ".to_vec());
}

#[test]
fn move_backward_without_capability_is_silent() {
    let mut s = Sanitizer::new(no_caps());
    s.move_backward(5);
    assert_eq!(s.take_output(), Vec::<u8>::new());
}

#[test]
fn move_backward_with_capability_repeats_it() {
    let mut s = Sanitizer::new(all_caps());
    s.move_backward(2);
    assert_eq!(s.take_output(), b"<left><left>".to_vec());
}

#[test]
fn unsupported_attributes_are_inert() {
    // Color, blink, hidden, strikethrough, dim, decorated underlines and
    // their cancel forms: zero output, zero state change, even with every
    // capability present.
    let mut s = Sanitizer::new(all_caps());
    for a in [
        Attr::Foreground,
        Attr::Background,
        Attr::UnderlineColor,
        Attr::DoubleUnderline,
        Attr::Undercurl,
        Attr::DottedUnderline,
        Attr::DashedUnderline,
        Attr::BlinkSlow,
        Attr::BlinkFast,
        Attr::Hidden,
        Attr::Strike,
        Attr::Dim,
        Attr::CancelBoldDim,
        Attr::CancelBlink,
        Attr::CancelHidden,
        Attr::CancelStrike,
    ] {
        s.terminal_attribute(a);
    }
    assert_eq!(s.take_output(), Vec::<u8>::new());
    s.input('z');
    assert_eq!(s.take_output(), b"z".to_vec());
}

#[test]
fn goto_col_is_cr_then_right_moves() {
    let mut caps = no_caps();
    caps.carriage_return = Some(b"\r".to_vec());
    let mut s = Sanitizer::new(caps);
    s.goto_col(4);
    assert_eq!(s.take_output(), b"\r    ".to_vec());
}

#[test]
fn goto_col_without_cr_still_moves_right() {
    let mut s = Sanitizer::new(no_caps());
    s.goto_col(2);
    assert_eq!(s.take_output(), b"  ".to_vec());
}

#[test]
fn insert_blank_is_literal_spaces() {
    let mut s = Sanitizer::new(all_caps());
    s.insert_blank(3);
    assert_eq!(s.take_output(), b"   ".to_vec());
}

#[test]
fn vertical_moves_repeat_capability_or_stay_silent() {
    let mut s = Sanitizer::new(all_caps());
    s.move_up(2);
    s.move_down(1);
    assert_eq!(s.take_output(), b"<up><up><down>".to_vec());
    let mut s = Sanitizer::new(no_caps());
    s.move_up(2);
    s.move_down(1);
    assert_eq!(s.take_output(), Vec::<u8>::new());
}

#[test]
fn vertical_move_and_cr_combinations() {
    let mut s = Sanitizer::new(all_caps());
    s.move_down_and_cr(2);
    s.move_up_and_cr(1);
    assert_eq!(s.take_output(), b"<down><down><cr><up><cr>".to_vec());
    // Whichever part lacks a capability is a silent no-op.
    let mut caps = no_caps();
    caps.carriage_return = Some(b"\r".to_vec());
    let mut s = Sanitizer::new(caps);
    s.move_down_and_cr(3);
    assert_eq!(s.take_output(), b"\r".to_vec());
}

#[test]
fn put_tab_repeats_capability_or_stays_silent() {
    let mut s = Sanitizer::new(all_caps());
    s.put_tab(2);
    assert_eq!(s.take_output(), b"<tab><tab>".to_vec());
    let mut s = Sanitizer::new(no_caps());
    s.put_tab(2);
    assert_eq!(s.take_output(), Vec::<u8>::new());
}

#[test]
fn literal_byte_operations() {
    let mut s = Sanitizer::new(no_caps());
    s.backspace();
    s.linefeed();
    s.substitute();
    assert_eq!(s.take_output(), b"\x08\n\x1a".to_vec());
}

#[test]
fn carriage_return_and_bell_are_capability_driven() {
    let mut s = Sanitizer::new(all_caps());
    s.carriage_return();
    s.bell();
    assert_eq!(s.take_output(), b"<cr><bell>".to_vec());
    let mut s = Sanitizer::new(no_caps());
    s.carriage_return();
    s.bell();
    assert_eq!(s.take_output(), Vec::<u8>::new());
}

#[test]
fn newline_is_cr_capability_then_linefeed() {
    let mut s = Sanitizer::new(all_caps());
    s.newline();
    assert_eq!(s.take_output(), b"<cr>\n".to_vec());
    let mut s = Sanitizer::new(no_caps());
    s.newline();
    assert_eq!(s.take_output(), b"\n".to_vec());
}

#[test]
fn scrolls_repeat_capability_or_stay_silent() {
    let mut s = Sanitizer::new(all_caps());
    s.scroll_up(2);
    s.scroll_down(1);
    assert_eq!(s.take_output(), b"<sr><sr><sf>".to_vec());
    let mut s = Sanitizer::new(no_caps());
    s.scroll_up(2);
    s.scroll_down(1);
    assert_eq!(s.take_output(), Vec::<u8>::new());
}

#[test]
fn insert_blank_lines_is_literal_newlines() {
    let mut s = Sanitizer::new(all_caps());
    s.insert_blank_lines(2);
    assert_eq!(s.take_output(), b"\n\n".to_vec());
}

#[test]
fn reset_state_is_a_deliberate_no_op() {
    let mut s = Sanitizer::new(all_caps());
    s.terminal_attribute(Attr::Bold);
    s.reset_state();
    assert_eq!(s.take_output(), b"<bold>".to_vec());
}

#[test]
fn reverse_video_and_italics_are_capability_only() {
    let mut s = Sanitizer::new(all_caps());
    s.terminal_attribute(Attr::Reverse);
    s.terminal_attribute(Attr::CancelReverse);
    s.terminal_attribute(Attr::Italic);
    s.terminal_attribute(Attr::CancelItalic);
    assert_eq!(s.take_output(), b"<so><so/><it><it/>".to_vec());
    // Never software-emulated: without capabilities they are silent and the
    // following character prints plainly.
    let mut s = Sanitizer::new(no_caps());
    s.terminal_attribute(Attr::Reverse);
    s.terminal_attribute(Attr::Italic);
    s.input('x');
    assert_eq!(s.take_output(), b"x".to_vec());
}

#[test]
fn multibyte_characters_encode_as_utf8() {
    let mut s = Sanitizer::new(no_caps());
    s.input('\u{e9}');
    s.input('\u{20ac}');
    s.input('\u{1f389}');
    assert_eq!(s.take_output(), "é€🎉".as_bytes().to_vec());
}

#[test]
fn multibyte_bold_overstrike_repeats_whole_character() {
    let mut s = Sanitizer::new(no_caps());
    s.terminal_attribute(Attr::Bold);
    s.input('\u{e9}');
    let mut want = Vec::new();
    want.extend_from_slice("é".as_bytes());
    want.push(0x08);
    want.extend_from_slice("é".as_bytes());
    assert_eq!(s.take_output(), want);
}

#[test]
fn apply_dispatches_operations() {
    let mut s = Sanitizer::new(no_caps());
    s.apply(Op::Print('a'));
    s.apply(Op::MoveForward(2));
    s.apply(Op::Linefeed);
    assert_eq!(s.take_output(), b"a  \n".to_vec());
}

#[test]
fn apply_all_runs_a_whole_chunk() {
    let ops = vec![
        Op::Attribute(Attr::Bold),
        Op::Print('h'),
        Op::Print('i'),
        Op::Attribute(Attr::Reset),
        Op::Newline,
    ];
    let mut s = Sanitizer::new(no_caps());
    s.apply_all(&ops);
    assert_eq!(s.take_output(), b"h\x08hi\x08i\n".to_vec());
}

#[test]
fn take_output_drains_and_state_survives() {
    let mut s = Sanitizer::new(no_caps());
    s.terminal_attribute(Attr::Bold);
    s.input('a');
    assert_eq!(s.take_output(), b"a\x08a".to_vec());
    assert_eq!(s.take_output(), Vec::<u8>::new());
    // Bold emulation is still on after draining.
    s.input('b');
    assert_eq!(s.take_output(), b"b\x08b".to_vec());
}
