//! A line of text that is edited at a cursor.

use vstd::prelude::*;
use crate::text::{chars_of, text_of};

verus! {

/// A line of text and the position of the cursor in it, counted in
/// characters.
#[derive(Debug, PartialEq, Eq)]
pub struct TextInput {
    pub chars: Vec<char>,
    pub cursor: usize,
}

pub struct InputView {
    pub chars: Seq<char>,
    pub cursor: usize,
}

impl View for TextInput {
    type V = InputView;

    open spec fn view(&self) -> InputView {
        InputView { chars: self.chars@, cursor: self.cursor }
    }
}

/// The empty line.
pub open spec fn blank_input() -> InputView {
    InputView { chars: Seq::empty(), cursor: 0 }
}

/// A line that holds `text`, with the cursor behind its last character.
pub open spec fn input_holding(text: Seq<char>) -> InputView {
    InputView { chars: text, cursor: text.len() as usize }
}

/// `c` typed at the cursor: it is put in before the character under the
/// cursor, and the cursor moves behind it.
pub open spec fn typed(i: InputView, c: char) -> InputView {
    if i.cursor <= i.chars.len() {
        InputView { chars: i.chars.insert(i.cursor as int, c), cursor: (i.cursor + 1) as usize }
    } else {
        i
    }
}

/// Backspace: the character before the cursor is taken out, and the cursor
/// moves back by one.
pub open spec fn erased(i: InputView) -> InputView {
    if 0 < i.cursor <= i.chars.len() {
        InputView { chars: i.chars.remove(i.cursor - 1), cursor: (i.cursor - 1) as usize }
    } else {
        i
    }
}

/// The cursor moved one character to the left, unless it is at the start.
pub open spec fn moved_left(i: InputView) -> InputView {
    if i.cursor > 0 {
        InputView { chars: i.chars, cursor: (i.cursor - 1) as usize }
    } else {
        i
    }
}

/// The cursor moved one character to the right, unless it is at the end.
pub open spec fn moved_right(i: InputView) -> InputView {
    if i.cursor < i.chars.len() {
        InputView { chars: i.chars, cursor: (i.cursor + 1) as usize }
    } else {
        i
    }
}

/// White space, as Unicode defines it.
pub open spec fn is_space(c: char) -> bool {
    let v = c as u32;
    ||| 0x09 <= v <= 0x0D
    ||| v == 0x20
    ||| v == 0x85
    ||| v == 0xA0
    ||| v == 0x1680
    ||| 0x2000 <= v <= 0x200A
    ||| v == 0x2028
    ||| v == 0x2029
    ||| v == 0x202F
    ||| v == 0x205F
    ||| v == 0x3000
}

/// A text of white space only.
pub open spec fn is_blank(text: Seq<char>) -> bool {
    forall|k: int| 0 <= k < text.len() ==> is_space(#[trigger] text[k])
}

/// Whether a character is white space.
pub fn is_space_exec(c: char) -> (r: bool)
    ensures
        r == is_space(c),
{
    let v: u32 = c as u32;
    (0x09 <= v && v <= 0x0D) || v == 0x20 || v == 0x85 || v == 0xA0 || v == 0x1680 || (0x2000 <= v
        && v <= 0x200A) || v == 0x2028 || v == 0x2029 || v == 0x202F || v == 0x205F || v == 0x3000
}

/// What is drawn of a line: the text before the cursor, the character under
/// it (a space where the cursor is at the end), and the text behind that
/// character.
#[derive(Debug, PartialEq, Eq)]
pub struct InputParts {
    pub before: String,
    pub at: char,
    pub after: String,
}

impl TextInput {
    /// The empty line.
    pub fn new() -> (r: Self)
        ensures
            r@ == blank_input(),
    {
        TextInput { chars: Vec::new(), cursor: 0 }
    }

    /// A line that holds `text`, with the cursor behind its last character.
    pub fn holding(text: &str) -> (r: Self)
        ensures
            r@ == input_holding(text@),
    {
        let chars = chars_of(text);
        let cursor = chars.len();
        TextInput { chars, cursor }
    }

    /// The text of the line.
    pub fn text(&self) -> (r: String)
        ensures
            r@ == self@.chars,
    {
        text_of(&self.chars)
    }

    /// Types `c` at the cursor. A cursor behind the end blocks the edit.
    pub fn type_char(&mut self, c: char)
        ensures
            final(self)@ == typed(old(self)@, c),
    {
        if self.cursor <= self.chars.len() {
            self.chars.insert(self.cursor, c);
            if self.cursor < self.chars.len() {
                self.cursor = self.cursor + 1;
            }
        }
    }

    /// Erases the character before the cursor, if there is one.
    pub fn backspace(&mut self)
        ensures
            final(self)@ == erased(old(self)@),
    {
        if self.cursor > 0 && self.cursor <= self.chars.len() {
            self.chars.remove(self.cursor - 1);
            self.cursor = self.cursor - 1;
        }
    }

    /// Moves the cursor one character to the left, unless it is at the start.
    pub fn move_left(&mut self)
        ensures
            final(self)@ == moved_left(old(self)@),
    {
        if self.cursor > 0 {
            self.cursor = self.cursor - 1;
        }
    }

    /// Moves the cursor one character to the right, unless it is at the end.
    pub fn move_right(&mut self)
        ensures
            final(self)@ == moved_right(old(self)@),
    {
        if self.cursor < self.chars.len() {
            self.cursor = self.cursor + 1;
        }
    }

    /// Empties the line.
    pub fn clear(&mut self)
        ensures
            final(self)@ == blank_input(),
    {
        self.chars.clear();
        self.cursor = 0;
    }

    /// Whether the line holds white space only.
    pub fn blank(&self) -> (r: bool)
        ensures
            r == is_blank(self@.chars),
    {
        let mut k: usize = 0;
        while k < self.chars.len()
            invariant
                k <= self.chars.len(),
                forall|j: int| 0 <= j < k ==> is_space(#[trigger] self.chars@[j]),
            decreases self.chars.len() - k,
        {
            if !is_space_exec(self.chars[k]) {
                return false;
            }
            k = k + 1;
        }
        true
    }

    /// The line cut at the cursor. A cursor behind the end counts as at the
    /// end.
    pub fn parts(&self) -> (r: InputParts)
        ensures
            self.cursor < self.chars@.len() ==> {
                &&& r.before@ == self.chars@.take(self.cursor as int)
                &&& r.at == self.chars@[self.cursor as int]
                &&& r.after@ == self.chars@.skip(self.cursor + 1)
            },
            self.cursor >= self.chars@.len() ==> {
                &&& r.before@ == self.chars@
                &&& r.at == ' '
                &&& r.after@ == Seq::<char>::empty()
            },
    {
        let n = self.chars.len();
        if self.cursor >= n {
            return InputParts { before: text_of(&self.chars), at: ' ', after: String::new() };
        }
        let mut before: Vec<char> = Vec::new();
        let mut after: Vec<char> = Vec::new();
        let mut k: usize = 0;
        while k < n
            invariant
                n == self.chars@.len(),
                self.cursor < n,
                k <= n,
                before@ == self.chars@.take(if k <= self.cursor {
                    k as int
                } else {
                    self.cursor as int
                }),
                after@ == if k <= self.cursor {
                    Seq::<char>::empty()
                } else {
                    self.chars@.subrange(self.cursor + 1, k as int)
                },
            decreases n - k,
        {
            if k < self.cursor {
                before.push(self.chars[k]);
                proof {
                    assert(before@ =~= self.chars@.take(k + 1));
                }
            } else if k > self.cursor {
                after.push(self.chars[k]);
                proof {
                    assert(after@ =~= self.chars@.subrange(self.cursor + 1, k + 1));
                }
            } else {
                proof {
                    assert(self.chars@.subrange(self.cursor + 1, k + 1) =~= Seq::<char>::empty());
                }
            }
            k = k + 1;
        }
        proof {
            assert(self.chars@.subrange(self.cursor + 1, n as int) =~= self.chars@.skip(
                self.cursor + 1,
            ));
        }
        InputParts { before: text_of(&before), at: self.chars[self.cursor], after: text_of(&after) }
    }
}

} // verus!
