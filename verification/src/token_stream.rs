//! Text out of a stream of tokens, piece by piece.
//!
//! A tokenizer decodes runs of tokens, not single tokens: what a token adds
//! to a text shows only against the tokens before it. So the stream keeps
//! all tokens and two marks. The tokens between the marks were handed out as
//! text already; they are decoded once more with every new token, and what
//! the longer run decodes to beyond them is the new piece. The decoding
//! itself is done outside the library.

use vstd::prelude::*;
use vstd::string::{StrSliceExecFns, StringSliceAdditionalSpecFns};

verus! {

/// Whether a character is a letter or a digit, as `char::is_alphanumeric`
/// tells.
pub uninterp spec fn alphanumeric(c: char) -> bool;

/// `char::is_alphanumeric`.
pub assume_specification[ char::is_alphanumeric ](c: char) -> (r: bool)
    ensures
        r == alphanumeric(c),
;

/// What a token stream holds.
pub struct TokenOutputStreamModel {
    pub tokens: Seq<u32>,
    pub prev_index: nat,
    pub current_index: nat,
}

impl TokenOutputStreamModel {
    /// The tokens that were handed out as text already and still count as
    /// context for what follows.
    pub open spec fn shown(self) -> Seq<u32> {
        self.tokens.subrange(self.prev_index as int, self.current_index as int)
    }

    /// The tokens from the first mark on: those shown, and those not yet
    /// handed out.
    pub open spec fn pending(self) -> Seq<u32> {
        self.tokens.skip(self.prev_index as int)
    }

    /// The marks are in order and within the tokens.
    pub open spec fn wf(self) -> bool {
        self.prev_index <= self.current_index <= self.tokens.len()
    }
}

/// The tokens of a text in the making, and the marks of what was handed out.
#[derive(Debug, Clone, PartialEq)]
pub struct TokenOutputStream {
    tokens: Vec<u32>,
    prev_index: usize,
    current_index: usize,
}

impl View for TokenOutputStream {
    type V = TokenOutputStreamModel;

    closed spec fn view(&self) -> TokenOutputStreamModel {
        TokenOutputStreamModel {
            tokens: self.tokens@,
            prev_index: self.prev_index as nat,
            current_index: self.current_index as nat,
        }
    }
}

/// Why no piece could be cut from a decoded text.
#[derive(Debug, Clone, Copy, PartialEq, Eq, Structural)]
pub enum PieceError {
    /// The text does not go on where the text before it ends: the cut would
    /// fall inside a character.
    NotACharacterBoundary,
}

/// What a text holds beyond the length of the one before it; nothing where it
/// is no longer.
pub open spec fn beyond(prev: Seq<u8>, text: Seq<u8>) -> Option<Seq<u8>> {
    if text.len() > prev.len() {
        Some(text.skip(prev.len() as int))
    } else {
        None
    }
}

/// The part of `text` that lies beyond the length of `prev_text`, if `text`
/// is the longer one.
pub fn fresh_text<'a>(prev_text: &str, text: &'a str) -> (r: Result<Option<&'a str>, PieceError>)
    ensures
        match beyond(prev_text.spec_bytes(), text.spec_bytes()) {
            None => r == Ok::<Option<&str>, PieceError>(None),
            Some(rest) => if vstd::utf8::is_char_boundary(
                text.spec_bytes(),
                prev_text.spec_bytes().len() as int,
            ) {
                r matches Ok(Some(piece)) && piece.spec_bytes() == rest
            } else {
                r == Err::<Option<&str>, PieceError>(PieceError::NotACharacterBoundary)
            },
        },
{
    let cut = prev_text.as_bytes().len();
    if text.as_bytes().len() > cut {
        if text.is_char_boundary(cut) {
            let (_, piece) = text.split_at(cut);
            assert(piece.spec_bytes() =~= text.spec_bytes().skip(cut as int));
            Ok(Some(piece))
        } else {
            Err(PieceError::NotACharacterBoundary)
        }
    } else {
        Ok(None)
    }
}

/// Whether the last character of a text is a letter or a digit. An empty
/// text ends in neither.
pub open spec fn ends_alphanumeric(text: Seq<char>) -> bool {
    text.len() > 0 && alphanumeric(text.last())
}

/// Whether the last character of a text is a letter or a digit.
pub fn ends_in_word(text: &str) -> (r: bool)
    ensures
        r == ends_alphanumeric(text@),
{
    let count = text.unicode_len();
    if count == 0 {
        false
    } else {
        text.get_char(count - 1).is_alphanumeric()
    }
}

impl TokenOutputStream {
    /// The marks are in order and within the tokens.
    pub open spec fn wf(&self) -> bool {
        self@.wf()
    }

    /// A stream without tokens.
    pub fn new() -> (r: Self)
        ensures
            r.wf(),
            r@ == (TokenOutputStreamModel { tokens: Seq::empty(), prev_index: 0, current_index: 0 }),
    {
        TokenOutputStream { tokens: Vec::new(), prev_index: 0, current_index: 0 }
    }

    /// Drops all tokens and sets the marks back.
    pub fn clear(&mut self)
        ensures
            final(self).wf(),
            final(self)@ == (TokenOutputStreamModel {
                tokens: Seq::empty(),
                prev_index: 0,
                current_index: 0,
            }),
    {
        self.tokens.clear();
        self.prev_index = 0;
        self.current_index = 0;
    }

    /// All tokens of the stream.
    pub fn tokens(&self) -> (r: &[u32])
        ensures
            r@ == self@.tokens,
    {
        self.tokens.as_slice()
    }

    /// Whether the stream holds no token.
    pub fn is_empty(&self) -> (r: bool)
        ensures
            r == (self@.tokens.len() == 0),
    {
        self.tokens.len() == 0
    }

    /// The tokens between the marks: to be decoded for the text before.
    pub fn shown(&self) -> (r: &[u32])
        requires
            self.wf(),
        ensures
            r@ == self@.shown(),
    {
        vstd::slice::slice_subrange(self.tokens.as_slice(), self.prev_index, self.current_index)
    }

    /// The tokens from the first mark on: to be decoded for the text now.
    pub fn pending(&self) -> (r: &[u32])
        requires
            self.wf(),
        ensures
            r@ == self@.pending(),
    {
        let all = self.tokens.as_slice();
        vstd::slice::slice_subrange(all, self.prev_index, all.len())
    }

    /// Adds a token at the end.
    pub fn push(&mut self, token: u32)
        requires
            old(self).wf(),
        ensures
            final(self).wf(),
            final(self)@ == (TokenOutputStreamModel {
                tokens: old(self)@.tokens.push(token),
                ..old(self)@
            }),
    {
        self.tokens.push(token);
    }

    /// The piece of text that the newest token completes. `prev_text` is the
    /// decoding of `shown` before the token was pushed (empty for a stream
    /// that was empty then), `text` the decoding of `pending` after. Where
    /// `text` is the longer one and ends in a letter or a digit, what it
    /// holds beyond `prev_text` is handed out and the marks move up: the
    /// first to where the second was, the second to the end. Else nothing is
    /// handed out and the marks stay.
    pub fn next_piece(&mut self, prev_text: &str, text: &str) -> (r: Result<Option<String>, PieceError>)
        requires
            old(self).wf(),
        ensures
            final(self).wf(),
            final(self)@.tokens == old(self)@.tokens,
            match r {
                Ok(Some(piece)) => {
                    &&& ends_alphanumeric(text@)
                    &&& beyond(prev_text.spec_bytes(), text.spec_bytes()) == Some(
                        vstd::utf8::encode_utf8(piece@),
                    )
                    &&& final(self)@.prev_index == old(self)@.current_index
                    &&& final(self)@.current_index == old(self)@.tokens.len()
                },
                Ok(None) => {
                    &&& !ends_alphanumeric(text@) || beyond(
                        prev_text.spec_bytes(),
                        text.spec_bytes(),
                    ) is None
                    &&& final(self)@ == old(self)@
                },
                Err(_) => {
                    &&& beyond(prev_text.spec_bytes(), text.spec_bytes()) is Some
                    &&& !vstd::utf8::is_char_boundary(
                        text.spec_bytes(),
                        prev_text.spec_bytes().len() as int,
                    )
                    &&& final(self)@ == old(self)@
                },
            },
    {
        if !ends_in_word(text) {
            return Ok(None);
        }
        match fresh_text(prev_text, text) {
            Ok(Some(piece)) => {
                self.prev_index = self.current_index;
                self.current_index = self.tokens.len();
                Ok(Some(piece.to_owned()))
            },
            Ok(None) => Ok(None),
            Err(e) => Err(e),
        }
    }

    /// The piece of text that is left at the end of a run: what `text`, the
    /// decoding of `pending`, holds beyond `prev_text`, the decoding of
    /// `shown`. The marks stay.
    pub fn rest_piece(&self, prev_text: &str, text: &str) -> (r: Result<Option<String>, PieceError>)
        ensures
            match beyond(prev_text.spec_bytes(), text.spec_bytes()) {
                None => r == Ok::<Option<String>, PieceError>(None),
                Some(rest) => if vstd::utf8::is_char_boundary(
                    text.spec_bytes(),
                    prev_text.spec_bytes().len() as int,
                ) {
                    r matches Ok(Some(piece)) && vstd::utf8::encode_utf8(piece@) == rest
                } else {
                    r == Err::<Option<String>, PieceError>(PieceError::NotACharacterBoundary)
                },
            },
    {
        match fresh_text(prev_text, text) {
            Ok(Some(piece)) => Ok(Some(piece.to_owned())),
            Ok(None) => Ok(None),
            Err(e) => Err(e),
        }
    }
}

} // verus!
