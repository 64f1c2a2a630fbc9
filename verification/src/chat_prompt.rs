//! The prompt of a local chat model: the preamble and the turns of a
//! conversation, laid out as one text with a mark for each speaker.

use vstd::prelude::*;
use vstd::string::StringExecFns;

verus! {

/// The mark that opens a turn of the user.
pub const USER_MARK: &'static str = "<|user|>";

/// The mark that opens a turn of the assistant, with the line break that
/// follows it.
pub const ASSISTANT_MARK: &'static str = "<|assistant|>\n";

/// The end of every prompt: the place where the assistant is to go on.
pub const PROMPT_END: &'static str = "\n<|assistant|>";

/// Who speaks in a message.
#[derive(Debug, Clone, Copy, PartialEq, Eq, Structural)]
pub enum Speaker {
    User,
    Assistant,
}

/// What a message holds.
pub struct ChatMessageModel {
    pub speaker: Speaker,
    pub texts: Seq<Seq<char>>,
}

/// One message of a conversation: who speaks, and the texts said.
#[derive(Debug, Clone, PartialEq)]
pub struct ChatMessage {
    pub speaker: Speaker,
    pub texts: Vec<String>,
}

/// What a list of texts holds.
pub open spec fn text_models(texts: Seq<String>) -> Seq<Seq<char>> {
    texts.map_values(|t: String| t@)
}

impl View for ChatMessage {
    type V = ChatMessageModel;

    open spec fn view(&self) -> ChatMessageModel {
        ChatMessageModel { speaker: self.speaker, texts: text_models(self.texts@) }
    }
}

/// What a list of messages holds.
pub open spec fn message_models(messages: Seq<ChatMessage>) -> Seq<ChatMessageModel> {
    messages.map_values(|m: ChatMessage| m@)
}

/// Texts set one below the other: joined by line breaks, with none before
/// the first and none after the last.
pub open spec fn lines(parts: Seq<Seq<char>>) -> Seq<char>
    decreases parts.len(),
{
    if parts.len() == 0 {
        Seq::empty()
    } else if parts.len() == 1 {
        parts[0]
    } else {
        lines(parts.drop_last()) + "\n"@ + parts.last()
    }
}

/// The mark of a speaker.
pub open spec fn mark_of(speaker: Speaker) -> Seq<char> {
    match speaker {
        Speaker::User => USER_MARK@,
        Speaker::Assistant => ASSISTANT_MARK@,
    }
}

/// The text of a message: each of its texts behind the mark of the speaker,
/// one below the other.
pub open spec fn message_text(message: ChatMessageModel) -> Seq<char> {
    lines(message.texts.map_values(|t: Seq<char>| mark_of(message.speaker) + t))
}

/// The prompt for a conversation: the preamble where there is one, a line
/// break, the messages one below the other, and the mark at which the
/// assistant goes on.
pub open spec fn prompt_text(preamble: Option<Seq<char>>, messages: Seq<ChatMessageModel>) -> Seq<char> {
    (match preamble {
        Some(p) => p,
        None => Seq::empty(),
    }) + "\n"@ + lines(messages.map_values(|m: ChatMessageModel| message_text(m))) + PROMPT_END@
}

/// Sets texts one below the other.
pub fn join_lines(parts: &Vec<String>) -> (r: String)
    ensures
        r@ == lines(text_models(parts@)),
{
    let mut out = String::new();
    let mut i: usize = 0;
    while i < parts.len()
        invariant
            i <= parts.len(),
            out@ == lines(text_models(parts@.take(i as int))),
        decreases parts.len() - i,
    {
        let ghost done = text_models(parts@.take(i as int));
        let ghost next = text_models(parts@.take(i + 1));
        assert(next.drop_last() =~= done);
        assert(next.last() == parts@[i as int]@);
        if i > 0 {
            out.append("\n");
        }
        out.append(parts[i].as_str());
        assert(out@ =~= lines(next));
        i += 1;
    }
    assert(parts@.take(i as int) =~= parts@);
    out
}

/// The text of a message.
pub fn convert_message_to_mistral(message: &ChatMessage) -> (r: String)
    ensures
        r@ == message_text(message@),
{
    let mark = match message.speaker {
        Speaker::User => USER_MARK,
        Speaker::Assistant => ASSISTANT_MARK,
    };
    let mut marked: Vec<String> = Vec::new();
    let mut i: usize = 0;
    while i < message.texts.len()
        invariant
            i <= message.texts.len(),
            marked@.len() == i,
            mark@ == mark_of(message.speaker),
            text_models(marked@) == text_models(message.texts@.take(i as int)).map_values(
                |t: Seq<char>| mark_of(message.speaker) + t,
            ),
        decreases message.texts.len() - i,
    {
        let turn = mark.to_owned().concat(message.texts[i].as_str());
        let ghost before = marked@;
        marked.push(turn);
        assert(text_models(marked@) =~= text_models(message.texts@.take(i + 1)).map_values(
            |t: Seq<char>| mark_of(message.speaker) + t,
        )) by {
            let target = text_models(message.texts@.take(i + 1)).map_values(
                |t: Seq<char>| mark_of(message.speaker) + t,
            );
            assert(text_models(marked@).len() == target.len());
            assert forall|k: int| 0 <= k < i + 1 implies text_models(marked@)[k] == target[k] by {
                if k < i {
                    assert(text_models(before)[k] == mark_of(message.speaker) + text_models(
                        message.texts@.take(i as int),
                    )[k]);
                    assert(marked@[k] == before[k]);
                }
            }
        }
        i += 1;
    }
    assert(message.texts@.take(i as int) =~= message.texts@);
    join_lines(&marked)
}

/// The prompt for a conversation.
pub fn convert_messages_to_mistral_compat(preamble: Option<String>, messages: &Vec<ChatMessage>) -> (r: String)
    ensures
        r@ == prompt_text(
            match preamble {
                Some(p) => Some(p@),
                None => None,
            },
            message_models(messages@),
        ),
{
    let mut out = match preamble {
        Some(p) => p,
        None => String::new(),
    };
    let mut texts: Vec<String> = Vec::new();
    let mut i: usize = 0;
    while i < messages.len()
        invariant
            i <= messages.len(),
            texts@.len() == i,
            text_models(texts@) == message_models(messages@.take(i as int)).map_values(
                |m: ChatMessageModel| message_text(m),
            ),
        decreases messages.len() - i,
    {
        let text = convert_message_to_mistral(&messages[i]);
        let ghost before = texts@;
        texts.push(text);
        assert(text_models(texts@) =~= message_models(messages@.take(i + 1)).map_values(
            |m: ChatMessageModel| message_text(m),
        )) by {
            let target = message_models(messages@.take(i + 1)).map_values(
                |m: ChatMessageModel| message_text(m),
            );
            assert(text_models(texts@).len() == target.len());
            assert forall|k: int| 0 <= k < i + 1 implies text_models(texts@)[k] == target[k] by {
                if k < i {
                    assert(text_models(before)[k] == message_text(
                        message_models(messages@.take(i as int))[k],
                    ));
                    assert(texts@[k] == before[k]);
                }
            }
        }
        i += 1;
    }
    assert(messages@.take(i as int) =~= messages@);
    let body = join_lines(&texts);
    out.append("\n");
    out.append(body.as_str());
    out.append(PROMPT_END);
    out
}

} // verus!
