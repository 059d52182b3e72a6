//! The frame buffer: the text of one refresh, gathered for a single write.

use vstd::prelude::*;
use vstd::string::StringSliceAdditionalSpecFns;
use vstd::utf8::{decode_utf8, encode_utf8_decode_utf8, valid_utf8};

verus! {

/// Why the frame buffer refused bytes.
#[derive(Clone, Copy, Debug, PartialEq, Eq, Structural)]
pub enum WriteError {
    /// The bytes were not valid UTF-8, and none of them was taken.
    WriteZero,
}

/// Text that only grows until it is handed out as a whole.
pub struct EditorContents {
    content: String,
}

impl View for EditorContents {
    type V = Seq<char>;

    closed spec fn view(&self) -> Seq<char> {
        self.content@
    }
}

impl EditorContents {
    /// The empty buffer.
    pub fn new() -> (contents: EditorContents)
        ensures
            contents@ == Seq::<char>::empty(),
    {
        EditorContents { content: String::new() }
    }

    /// The text gathered so far.
    pub fn as_str(&self) -> (text: &str)
        ensures
            text@ == self@,
    {
        self.content.as_str()
    }

    /// Appends one character.
    pub fn push(&mut self, ch: char)
        ensures
            final(self)@ == old(self)@.push(ch),
    {
        self.content.push(ch)
    }

    /// Appends a string.
    pub fn push_str(&mut self, string: &str)
        ensures
            final(self)@ == old(self)@ + string@,
    {
        self.content.append(string)
    }

    /// Appends the text that `buf` encodes in UTF-8 and returns the number of
    /// bytes taken, which is all of them. Bytes that are not valid UTF-8 are
    /// refused as a whole.
    pub fn write(&mut self, buf: &[u8]) -> (written: Result<usize, WriteError>)
        ensures
            valid_utf8(buf@) ==> written == Ok::<usize, WriteError>(buf@.len() as usize)
                && final(self)@ == old(self)@ + decode_utf8(buf@),
            !valid_utf8(buf@) ==> written == Err::<usize, WriteError>(WriteError::WriteZero)
                && final(self)@ == old(self)@,
    {
        match core::str::from_utf8(buf) {
            Ok(s) => {
                proof {
                    encode_utf8_decode_utf8(s@);
                }
                self.content.append(s);
                Ok(s.len())
            },
            Err(_) => Err(WriteError::WriteZero),
        }
    }

    /// Hands out the gathered text and leaves the buffer empty.
    pub fn flush(&mut self) -> (frame: String)
        ensures
            frame@ == old(self)@,
            final(self)@ == Seq::<char>::empty(),
    {
        let mut frame = String::new();
        core::mem::swap(&mut self.content, &mut frame);
        frame
    }
}

} // verus!
