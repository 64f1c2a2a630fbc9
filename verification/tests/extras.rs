use rig_extra::agents::{AfterAnswer, Rounds};
use rig_extra::chat_prompt::{
    convert_message_to_mistral, convert_messages_to_mistral_compat, join_lines, ChatMessage, Speaker,
};
use rig_extra::generation::{CompletionResponse, Generation};
use rig_extra::token_stream::{ends_in_word, fresh_text, PieceError, TokenOutputStream};

fn user(texts: &[&str]) -> ChatMessage {
    ChatMessage { speaker: Speaker::User, texts: texts.iter().map(|t| t.to_string()).collect() }
}

fn assistant(texts: &[&str]) -> ChatMessage {
    ChatMessage { speaker: Speaker::Assistant, texts: texts.iter().map(|t| t.to_string()).collect() }
}

#[test]
fn lines_are_joined_without_a_trailing_break() {
    assert_eq!(join_lines(&vec![]), "");
    assert_eq!(join_lines(&vec!["a".to_string()]), "a");
    assert_eq!(join_lines(&vec!["a".to_string(), "".to_string(), "b".to_string()]), "a\n\nb");
}

#[test]
fn messages_carry_the_mark_of_their_speaker() {
    assert_eq!(convert_message_to_mistral(&user(&["Hi"])), "<|user|>Hi");
    assert_eq!(convert_message_to_mistral(&user(&["Hi", "there"])), "<|user|>Hi\n<|user|>there");
    assert_eq!(convert_message_to_mistral(&assistant(&["Hello"])), "<|assistant|>\nHello");
    assert_eq!(convert_message_to_mistral(&assistant(&[])), "");
}

#[test]
fn prompts_end_where_the_assistant_goes_on() {
    let messages = vec![user(&["Hi"]), assistant(&["Hello"]), user(&["How are you?"])];
    assert_eq!(
        convert_messages_to_mistral_compat(Some("You are helpful".to_string()), &messages),
        "You are helpful\n<|user|>Hi\n<|assistant|>\nHello\n<|user|>How are you?\n<|assistant|>"
    );
    assert_eq!(convert_messages_to_mistral_compat(None, &vec![user(&["Hi"])]), "\n<|user|>Hi\n<|assistant|>");
    assert_eq!(convert_messages_to_mistral_compat(None, &vec![]), "\n\n<|assistant|>");
}

#[test]
fn generation_shows_the_prompt_once_and_then_one_token() {
    let mut run = Generation::start(vec![5, 6, 7], 2, 10);
    assert!(!run.is_finished());
    assert_eq!(run.context(), (0, &[5u32, 6, 7][..]));
    assert_eq!(run.accept(9), Some(true));
    run.append_text("He");
    assert_eq!(run.context(), (3, &[9u32][..]));
    assert_eq!(run.penalty_window(2), &[7u32, 9][..]);
    assert_eq!(run.penalty_window(64), &[5u32, 6, 7, 9][..]);
    assert_eq!(run.penalty_window(0), &[0u32; 0][..]);
    assert_eq!(run.accept(8), Some(true));
    run.append_text("llo");
    assert_eq!(run.accept(2), Some(false));
    assert!(run.is_finished());
    assert_eq!(run.accept(4), None);
    let done = run.finish();
    assert_eq!(done.response(), "Hello");
    assert_eq!(done.token_usage, 3);
    assert_eq!(done, CompletionResponse::new("Hello".to_string(), 3));
}

#[test]
fn generation_without_an_end_token_counts_no_usage() {
    let mut run = Generation::start(vec![], 2, 2);
    assert_eq!(run.context(), (0, &[0u32; 0][..]));
    assert_eq!(run.accept(1), Some(true));
    assert_eq!(run.accept(1), Some(true));
    assert!(run.is_finished());
    assert_eq!(run.accept(1), None);
    assert_eq!(run.finish().token_usage, 0);
    assert!(Generation::start(vec![1], 2, 0).is_finished());
}

#[test]
fn fresh_text_is_what_lies_beyond_the_text_before() {
    assert_eq!(fresh_text("Hel", "Hello"), Ok(Some("lo")));
    assert_eq!(fresh_text("", "Hi"), Ok(Some("Hi")));
    assert_eq!(fresh_text("Hello", "Hello"), Ok(None));
    assert_eq!(fresh_text("Hello", "Hi"), Ok(None));
    assert_eq!(fresh_text("a", "é"), Err(PieceError::NotACharacterBoundary));
    assert_eq!(fresh_text("é", "éa"), Ok(Some("a")));
}

#[test]
fn words_end_in_letters_and_digits() {
    assert!(ends_in_word("abc"));
    assert!(ends_in_word("abc1"));
    assert!(ends_in_word("é"));
    assert!(!ends_in_word("abc "));
    assert!(!ends_in_word("abc."));
    assert!(!ends_in_word(""));
}

#[test]
fn token_stream_hands_out_whole_words() {
    let mut stream = TokenOutputStream::new();
    assert!(stream.is_empty());
    assert_eq!(stream.shown(), &[0u32; 0][..]);
    stream.push(10);
    assert_eq!(stream.pending(), &[10u32][..]);
    assert_eq!(stream.next_piece("", "Hel"), Ok(Some("Hel".to_string())));
    assert_eq!(stream.shown(), &[10u32][..]);
    assert_eq!(stream.pending(), &[10u32][..]);
    stream.push(11);
    assert_eq!(stream.pending(), &[10u32, 11][..]);
    assert_eq!(stream.next_piece("Hel", "Hello,"), Ok(None));
    assert_eq!(stream.shown(), &[10u32][..]);
    stream.push(12);
    assert_eq!(stream.pending(), &[10u32, 11, 12][..]);
    assert_eq!(stream.next_piece("Hel", "Hello, w"), Ok(Some("lo, w".to_string())));
    assert_eq!(stream.shown(), &[11u32, 12][..]);
    assert_eq!(stream.pending(), &[11u32, 12][..]);
    stream.push(13);
    assert_eq!(stream.pending(), &[11u32, 12, 13][..]);
    assert_eq!(stream.next_piece("lo, w", "lo, world"), Ok(Some("orld".to_string())));
    assert_eq!(stream.shown(), &[13u32][..]);
    assert_eq!(stream.pending(), &[13u32][..]);
    assert_eq!(stream.tokens(), &[10u32, 11, 12, 13][..]);
    stream.push(14);
    assert_eq!(stream.next_piece("orld", "orld!"), Ok(None));
    assert_eq!(stream.rest_piece("orld", "orld!"), Ok(Some("!".to_string())));
    assert_eq!(stream.rest_piece("same", "same"), Ok(None));
    assert_eq!(stream.next_piece("a", "é"), Err(PieceError::NotACharacterBoundary));
    assert_eq!(stream.shown(), &[13u32][..]);
    stream.clear();
    assert_eq!(stream, TokenOutputStream::new());
}

#[test]
fn an_agent_runs_one_round() {
    let mut rounds = Rounds::start(0, 3);
    assert!(rounds.next_round());
    assert_eq!(rounds.after_answer(false), AfterAnswer::Pause(3));
    assert!(!rounds.next_round());
    assert!(!rounds.next_round());
    assert_eq!(rounds.after_answer(true), AfterAnswer::Stop);
    let mut most = Rounds::start(u32::MAX, 0);
    assert!(most.next_round());
    assert!(!most.next_round());
}
