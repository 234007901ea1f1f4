//! Editing one line of text at a cursor.
//!
//! The line is a `String` and the cursor a byte offset into it. The
//! operations are stated for lines of ASCII text, where a byte offset is the
//! index of a character.

use vstd::prelude::*;
use vstd::string::{StrSliceExecFns, StringExecFns, is_ascii_spec_bytes};
use vstd::utf8::is_ascii_chars;

verus! {

/// `String::remove` takes out the character at byte offset `idx` and returns
/// it. Stated for ASCII text, where the offset is the character's index; on
/// an offset at or past the end the method panics, so it is left out.
pub assume_specification[ String::remove ](text: &mut String, idx: usize) -> (removed: char)
    requires
        is_ascii_chars(old(text)@),
        idx < old(text)@.len(),
    ensures
        final(text)@ == old(text)@.remove(idx as int),
        removed == old(text)@[idx as int],
;

/// `String::insert` puts `ch` in at byte offset `idx`. Stated for ASCII
/// text, where the offset is a character's index; on an offset past the end
/// the method panics, so it is left out.
pub assume_specification[ String::insert ](text: &mut String, idx: usize, ch: char)
    requires
        is_ascii_chars(old(text)@),
        idx <= old(text)@.len(),
    ensures
        final(text)@ == old(text)@.insert(idx as int, ch),
;

/// `String::pop` takes the last character off and returns it; of an empty
/// string it takes nothing and returns `None`.
pub assume_specification[ String::pop ](text: &mut String) -> (popped: Option<char>)
    ensures
        old(text)@.len() == 0 ==> popped is None && final(text)@ == old(text)@,
        old(text)@.len() > 0 ==> popped == Some(old(text)@.last()) && final(text)@ == old(
            text,
        )@.drop_last(),
;

/// A line and a cursor that the editing operations accept: the line is
/// ASCII text shorter than the largest offset, and the cursor lies in it or
/// at its end.
pub open spec fn editable(text: Seq<char>, cursor: usize) -> bool {
    &&& is_ascii_chars(text)
    &&& text.len() < usize::MAX
    &&& cursor <= text.len()
}

/// The character is ASCII.
pub open spec fn is_ascii_char(ch: char) -> bool {
    '\0' <= ch <= '\u{7f}'
}

/// The line after the character under the cursor has been deleted; a cursor
/// at the end deletes nothing.
pub open spec fn deleted(text: Seq<char>, cursor: usize) -> Seq<char> {
    if cursor < text.len() {
        text.remove(cursor as int)
    } else {
        text
    }
}

/// The line after the character before the cursor has been deleted; a cursor
/// at the start deletes nothing.
pub open spec fn erased(text: Seq<char>, cursor: usize) -> Seq<char> {
    if text.len() > 0 && cursor > 0 {
        if cursor < text.len() {
            text.remove(cursor - 1)
        } else {
            text.drop_last()
        }
    } else {
        text
    }
}

/// The cursor after the character before it has been deleted.
pub open spec fn erased_cursor(text: Seq<char>, cursor: usize) -> usize {
    if text.len() > 0 && cursor > 0 {
        (cursor - 1) as usize
    } else {
        cursor
    }
}

/// The cursor one place to the left, unless it is at the start.
pub open spec fn moved_left(cursor: usize) -> usize {
    if cursor > 0 {
        (cursor - 1) as usize
    } else {
        cursor
    }
}

/// The cursor one place to the right, unless it is at the end.
pub open spec fn moved_right(text: Seq<char>, cursor: usize) -> usize {
    if cursor < text.len() {
        (cursor + 1) as usize
    } else {
        cursor
    }
}

/// Length of a line of ASCII text.
pub fn length(text: &String) -> (len: usize)
    requires
        is_ascii_chars(text@),
        text@.len() <= usize::MAX,
    ensures
        len == text@.len(),
{
    let line = text.as_str();
    proof {
        is_ascii_spec_bytes(line);
    }
    line.len()
}

/// Whether a line and a cursor are ones that the editing operations accept.
pub fn is_editable(text: &String, cursor: usize) -> (ok: bool)
    ensures
        ok == editable(text@, cursor),
{
    if !text.as_str().is_ascii() {
        return false;
    }
    let len = text.as_str().unicode_len();
    len < usize::MAX && cursor <= len
}

/// Deletes the character under the cursor.
pub fn delete(text: &mut String, cursor: usize)
    requires
        editable(old(text)@, cursor),
    ensures
        final(text)@ == deleted(old(text)@, cursor),
        editable(final(text)@, cursor),
{
    let len = length(text);
    if len > 0 && cursor < len {
        if cursor < len - 1 {
            text.remove(cursor);
        } else {
            text.pop();
            assert(old(text)@.drop_last() =~= old(text)@.remove(cursor as int));
        }
    }
}

/// Deletes the character before the cursor and returns where the cursor
/// stands afterwards.
pub fn erase(text: &mut String, cursor: usize) -> (after: usize)
    requires
        editable(old(text)@, cursor),
    ensures
        final(text)@ == erased(old(text)@, cursor),
        after == erased_cursor(old(text)@, cursor),
        editable(final(text)@, after),
{
    let len = length(text);
    if len > 0 && cursor > 0 {
        if cursor < len {
            text.remove(cursor - 1);
        } else {
            text.pop();
        }
        cursor - 1
    } else {
        cursor
    }
}

/// Puts `ch` in at the cursor and returns the cursor behind it.
pub fn insert_char(text: &mut String, cursor: usize, ch: char) -> (after: usize)
    requires
        editable(old(text)@, cursor),
    ensures
        final(text)@ == old(text)@.insert(cursor as int, ch),
        after == cursor + 1,
        is_ascii_char(ch) && old(text)@.len() + 1 < usize::MAX ==> editable(final(text)@, after),
{
    text.insert(cursor, ch);
    cursor + 1
}

/// A piece of the input line as the screen shows it.
#[derive(Debug, PartialEq, Eq)]
pub struct InputSpan {
    /// The text of the piece.
    pub text: String,
    /// Whether the piece is set off from the rest: it marks the cursor.
    pub emphasized: bool,
}

/// Mathematical value of an [`InputSpan`].
pub struct InputSpanView {
    pub text: Seq<char>,
    pub emphasized: bool,
}

impl View for InputSpan {
    type V = InputSpanView;

    open spec fn view(&self) -> InputSpanView {
        InputSpanView { text: self.text@, emphasized: self.emphasized }
    }
}

/// The pieces of a line, each with the text it holds.
pub open spec fn spans_view(spans: Seq<InputSpan>) -> Seq<InputSpanView> {
    spans.map_values(|span: InputSpan| span@)
}

/// A piece of plain text.
pub open spec fn plain(text: Seq<char>) -> InputSpanView {
    InputSpanView { text, emphasized: false }
}

/// A piece of text that marks the cursor.
pub open spec fn marked(text: Seq<char>) -> InputSpanView {
    InputSpanView { text, emphasized: true }
}

/// The line `text` while it is not being edited: one plain piece.
pub open spec fn resting_spans(text: Seq<char>) -> Seq<InputSpanView> {
    seq![plain(text)]
}

/// The line `text` with the cursor at `cursor` marked: the text before the
/// cursor, if there is any; the marked character under the cursor; the text
/// behind it. A cursor at the end of the line is shown as a marked
/// underscore. An empty piece behind the cursor is left out unless
/// `keep_empty_tail` is set.
pub open spec fn cursor_spans(text: Seq<char>, cursor: usize, keep_empty_tail: bool) -> Seq<
    InputSpanView,
> {
    let start = Seq::<InputSpanView>::empty();
    let head = if text.len() > 0 && cursor > 0 {
        start.push(plain(text.take(cursor as int)))
    } else {
        start
    };
    let under = if cursor < text.len() {
        head.push(marked(text.subrange(cursor as int, cursor + 1)))
    } else {
        head
    };
    let tail = if cursor < text.len() && (keep_empty_tail || cursor + 1 < text.len()) {
        under.push(plain(text.skip(cursor + 1)))
    } else {
        under
    };
    if cursor == text.len() {
        tail.push(marked("_"@))
    } else {
        tail
    }
}

/// Adds a piece with a copy of `text` to `spans`.
fn push_span(spans: &mut Vec<InputSpan>, text: &str, emphasized: bool)
    ensures
        spans_view(final(spans)@) == spans_view(old(spans)@).push(
            InputSpanView { text: text@, emphasized },
        ),
{
    spans.push(InputSpan { text: String::from_str(text), emphasized });
    assert(spans_view(final(spans)@) =~= spans_view(old(spans)@).push(
        InputSpanView { text: text@, emphasized },
    ));
}

/// The pieces of a line that is not being edited.
pub fn whole_line(text: &String) -> (spans: Vec<InputSpan>)
    ensures
        spans_view(spans@) == resting_spans(text@),
{
    let mut spans: Vec<InputSpan> = Vec::new();
    assert(spans_view(spans@) =~= Seq::empty());
    push_span(&mut spans, text.as_str(), false);
    spans
}

/// The pieces of a line that is being edited, with the cursor marked.
pub fn line_with_cursor(text: &String, cursor: usize, keep_empty_tail: bool) -> (spans: Vec<
    InputSpan,
>)
    requires
        editable(text@, cursor),
    ensures
        spans_view(spans@) == cursor_spans(text@, cursor, keep_empty_tail),
{
    let len = length(text);
    let line = text.as_str();
    let mut spans: Vec<InputSpan> = Vec::new();
    assert(spans_view(spans@) =~= Seq::empty());
    if len > 0 {
        if cursor > 0 {
            push_span(&mut spans, line.substring_ascii(0, cursor), false);
        }
        if cursor <= len - 1 {
            push_span(&mut spans, line.substring_ascii(cursor, cursor + 1), true);
            if keep_empty_tail || cursor + 1 < len {
                push_span(&mut spans, line.substring_ascii(cursor + 1, len), false);
            }
        }
    }
    if cursor == len {
        push_span(&mut spans, "_", true);
    }
    spans
}

} // verus!
