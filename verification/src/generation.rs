//! The bookkeeping of text generation by a local model.
//!
//! The model, its tokenizer and the sampling live outside the library. What
//! is kept here is what the loop around them decides: which tokens the model
//! sees next, over which tokens a repeat penalty runs, when generation stops,
//! how many tokens it took, and which part of a decoded text is new.

use vstd::prelude::*;
use vstd::string::StringExecFns;

verus! {

/// What a completion holds.
pub struct CompletionResponseModel {
    pub response: Seq<char>,
    pub token_usage: nat,
}

/// The text that a model generated, and the number of tokens it took.
#[derive(Debug, Clone, PartialEq)]
pub struct CompletionResponse {
    response: String,
    pub token_usage: usize,
}

impl View for CompletionResponse {
    type V = CompletionResponseModel;

    closed spec fn view(&self) -> CompletionResponseModel {
        CompletionResponseModel { response: self.response@, token_usage: self.token_usage as nat }
    }
}

impl CompletionResponse {
    /// The completion with this text and this use of tokens.
    pub fn new(response: String, token_usage: usize) -> (r: Self)
        ensures
            r@ == (CompletionResponseModel { response: response@, token_usage: token_usage as nat }),
    {
        CompletionResponse { response, token_usage }
    }

    /// The generated text.
    pub fn response(&self) -> (r: &str)
        ensures
            r@ == self@.response,
    {
        self.response.as_str()
    }
}

/// What a generation holds.
pub struct GenerationModel {
    /// The tokens of the prompt, then the tokens sampled so far.
    pub tokens: Seq<u32>,
    /// The token that ends the text.
    pub eos: u32,
    /// The text put together so far.
    pub text: Seq<char>,
    /// The number of rounds finished.
    pub round: nat,
    /// The most rounds to run.
    pub sample_len: nat,
    /// The tokens taken up to and with the end token, once it was sampled.
    pub token_usage: nat,
    /// Whether the end token was sampled.
    pub ended: bool,
}

/// The run of one prompt through a model: the state between the rounds.
#[derive(Debug, Clone, PartialEq)]
pub struct Generation {
    tokens: Vec<u32>,
    eos: u32,
    text: String,
    round: usize,
    sample_len: usize,
    token_usage: usize,
    ended: bool,
}

impl View for Generation {
    type V = GenerationModel;

    closed spec fn view(&self) -> GenerationModel {
        GenerationModel {
            tokens: self.tokens@,
            eos: self.eos,
            text: self.text@,
            round: self.round as nat,
            sample_len: self.sample_len as nat,
            token_usage: self.token_usage as nat,
            ended: self.ended,
        }
    }
}

/// The last `count` tokens of a run, or all of it where it is shorter.
pub open spec fn last_tokens(tokens: Seq<u32>, count: nat) -> Seq<u32> {
    if tokens.len() <= count {
        tokens
    } else {
        tokens.skip(tokens.len() - count)
    }
}

/// The tokens that the model is shown in a round: the whole prompt in the
/// first round, the newest token alone in every later one.
pub open spec fn context_of(g: GenerationModel) -> Seq<u32> {
    if g.round == 0 {
        g.tokens
    } else {
        last_tokens(g.tokens, 1)
    }
}

impl Generation {
    /// The start of a run: the tokens of the prompt, the token that ends the
    /// text, and the most rounds to run.
    pub fn start(prompt_tokens: Vec<u32>, eos: u32, sample_len: usize) -> (r: Self)
        ensures
            r@ == (GenerationModel {
                tokens: prompt_tokens@,
                eos,
                text: Seq::empty(),
                round: 0,
                sample_len: sample_len as nat,
                token_usage: 0,
                ended: false,
            }),
    {
        Generation {
            tokens: prompt_tokens,
            eos,
            text: String::new(),
            round: 0,
            sample_len,
            token_usage: 0,
            ended: false,
        }
    }

    /// Whether no round is left to run: the end token was sampled, or the
    /// rounds are used up.
    pub fn is_finished(&self) -> (r: bool)
        ensures
            r == (self@.ended || self@.round >= self@.sample_len),
    {
        self.ended || self.round >= self.sample_len
    }

    /// The tokens to show the model in this round, and the position of the
    /// first of them among all tokens.
    pub fn context(&self) -> (r: (usize, &[u32]))
        ensures
            r.1@ == context_of(self@),
            r.0 == self@.tokens.len() - context_of(self@).len(),
    {
        let size = if self.round > 0 {
            1
        } else {
            self.tokens.len()
        };
        let start = if self.tokens.len() >= size {
            self.tokens.len() - size
        } else {
            0
        };
        let all = self.tokens.as_slice();
        let part = vstd::slice::slice_subrange(all, start, all.len());
        assert(part@ =~= context_of(self@));
        (start, part)
    }

    /// The tokens over which a repeat penalty runs: the last `repeat_last_n`.
    pub fn penalty_window(&self, repeat_last_n: usize) -> (r: &[u32])
        ensures
            r@ == last_tokens(self@.tokens, repeat_last_n as nat),
    {
        let start = if self.tokens.len() >= repeat_last_n {
            self.tokens.len() - repeat_last_n
        } else {
            0
        };
        let all = self.tokens.as_slice();
        let part = vstd::slice::slice_subrange(all, start, all.len());
        assert(part@ =~= last_tokens(self@.tokens, repeat_last_n as nat));
        part
    }

    /// Takes the token sampled in this round, if the run is still on. The end
    /// token ends the run and fixes the use of tokens at the number of rounds
    /// run; any other token is to be decoded, which the answer says. A run
    /// that is finished takes nothing: it stays as it is, and the answer is
    /// `None`.
    pub fn accept(&mut self, next: u32) -> (decode: Option<bool>)
        ensures
            decode is Some == (!old(self)@.ended && old(self)@.round < old(self)@.sample_len),
            decode is None ==> final(self)@ == old(self)@,
            decode matches Some(d) ==> {
                &&& d == (next != old(self)@.eos)
                &&& final(self)@ == (GenerationModel {
                    tokens: old(self)@.tokens.push(next),
                    round: old(self)@.round + 1,
                    token_usage: if next == old(self)@.eos {
                        old(self)@.round + 1
                    } else {
                        old(self)@.token_usage
                    },
                    ended: next == old(self)@.eos,
                    ..old(self)@
                })
            },
    {
        if self.is_finished() {
            return None;
        }
        self.tokens.push(next);
        self.round = self.round + 1;
        if next == self.eos {
            self.token_usage = self.round;
            self.ended = true;
            Some(false)
        } else {
            Some(true)
        }
    }

    /// Adds a piece of decoded text at the end of the text so far.
    pub fn append_text(&mut self, piece: &str)
        ensures
            final(self)@ == (GenerationModel { text: old(self)@.text + piece@, ..old(self)@ }),
    {
        self.text.append(piece);
    }

    /// The outcome of the run: the text put together, and the use of tokens,
    /// which is zero for a run that never sampled the end token.
    pub fn finish(self) -> (r: CompletionResponse)
        ensures
            r@ == (CompletionResponseModel {
                response: self@.text,
                token_usage: self@.token_usage,
            }),
    {
        CompletionResponse { response: self.text, token_usage: self.token_usage }
    }
}

} // verus!
