//! Editing the text of an input field, one key event at a time.
use vstd::prelude::*;
use crate::input::{Key, KeyInput};

verus! {

/// The control characters: the Unicode general category Cc.
pub open spec fn is_control_char(c: char) -> bool {
    (c as u32) <= 0x1f || (0x7f <= (c as u32) && (c as u32) <= 0x9f)
}

/// The characters of `text` that are not control characters.
pub open spec fn typed_chars(text: Seq<char>) -> Seq<char> {
    text.filter(|c: char| !is_control_char(c))
}

/// The field's text after a key event: Backspace removes the last character,
/// then every typed character that is not a control character is appended.
pub open spec fn text_after_key(text: Seq<char>, key: Key, typed: Option<Seq<char>>) -> Seq<char> {
    let kept = if key == Key::Backspace && text.len() > 0 {
        text.drop_last()
    } else {
        text
    };
    match typed {
        Some(t) => kept + typed_chars(t),
        None => kept,
    }
}

/// Whether `c` is a control character (general category Cc).
pub fn is_control(c: char) -> (r: bool)
    ensures
        r == is_control_char(c),
{
    let u = c as u32;
    u <= 0x1f || (0x7f <= u && u <= 0x9f)
}

/// Appends `c`, as `String::push` does.
#[verifier::external_body]
pub(crate) fn string_push(s: &mut String, c: char)
    ensures
        final(s)@ == old(s)@.push(c),
{
    s.push(c);
}

/// Removes and returns the last character, as `String::pop` does.
#[verifier::external_body]
pub(crate) fn string_pop(s: &mut String) -> (r: Option<char>)
    ensures
        old(s)@.len() == 0 ==> r is None && final(s)@ == old(s)@,
        old(s)@.len() > 0 ==> r == Some(old(s)@.last()) && final(s)@ == old(s)@.drop_last(),
{
    s.pop()
}

/// Appends the characters of `text` that are not control characters.
pub fn push_typed(s: &mut String, text: &str)
    ensures
        final(s)@ == old(s)@ + typed_chars(text@),
{
    let n = text.unicode_len();
    let mut i: usize = 0;
    while i < n
        invariant
            n == text@.len(),
            i <= n,
            s@ == old(s)@ + typed_chars(text@.take(i as int)),
        decreases n - i,
    {
        let c = text.get_char(i);
        proof {
            let t = text@.take(i as int);
            assert(text@.take(i + 1) =~= t + seq![c]);
            reveal_with_fuel(Seq::filter, 2);
            Seq::<char>::filter_distributes_over_add(t, seq![c], |c: char| !is_control_char(c));
        }
        if !is_control(c) {
            string_push(s, c);
        }
        i = i + 1;
    }
    assert(text@.take(n as int) =~= text@);
}

/// Applies a key event to the text of an input field.
pub fn text_edit(s: &mut String, input: &KeyInput)
    ensures
        final(s)@ == text_after_key(old(s)@, input.key, input.text_view()),
{
    if input.key == Key::Backspace {
        string_pop(s);
    }
    match &input.text {
        Some(t) => push_typed(s, t.as_str()),
        None => {},
    }
}

} // verus!
