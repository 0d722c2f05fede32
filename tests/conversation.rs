use gpt_tutor::{
    clean_text, http_status_outcome, CompletionError, Conversation, GptChoice, GptRequest,
    GptResponse, Interaction, CONTEXT_WINDOW, MAX_TOKENS, MODEL, STOP_SEQUENCE,
    TEMPERATURE_HUNDREDTHS,
};

fn preamble(language: &str) -> String {
    format!(
        "This is a conversation between a {} tutor and a {} learner. The tutor will correct any mistakes in the students grammar.\n\n\n",
        language, language
    )
}

fn reply(texts: &[&str]) -> GptResponse {
    GptResponse {
        choices: texts.iter().map(|t| GptChoice { text: t.to_string() }).collect(),
    }
}

#[test]
fn round_trip_french() {
    let mut c = Conversation::new(String::from("French"));
    c.process_response("Bonjour", "Hello is informal; use Bonjour.");
    let expected = preamble("French")
        + "S: Bonjour\nT: Hello is informal; use Bonjour.\n\n"
        + "S: Comment ça va?\nT:";
    assert_eq!(c.render("Comment ça va?", 10), expected);
    assert_eq!(c.ask("Comment ça va?", 10).prompt, expected);
}

#[test]
fn window_keeps_only_most_recent() {
    let mut c = Conversation::new(String::from("French"));
    c.process_response("first", "one");
    c.process_response("second", "two");
    let p = c.render("third", 1);
    assert_eq!(p, preamble("French") + "S: second\nT: two\n\n" + "S: third\nT:");
    assert!(!p.contains("first"));
}

#[test]
fn window_counts_blocks() {
    let mut c = Conversation::new(String::from("German"));
    for i in 0..5 {
        c.process_response(&format!("q{}", i), &format!("r{}", i));
    }
    let p = c.render("next", 3);
    assert_eq!(
        p,
        preamble("German") + "S: q2\nT: r2\n\nS: q3\nT: r3\n\nS: q4\nT: r4\n\nS: next\nT:"
    );
    assert_eq!(p.matches("\nT: ").count(), 3);
    let all = c.render("next", 10);
    assert_eq!(all.matches("\nT: ").count(), 5);
    assert!(all.find("S: q0").unwrap() < all.find("S: q4").unwrap());
}

#[test]
fn window_zero_and_empty_history() {
    let mut c = Conversation::new(String::from("Spanish"));
    assert_eq!(c.render("Hola", 10), preamble("Spanish") + "S: Hola\nT:");
    c.process_response("Hola", "Bien.");
    assert_eq!(c.render("Adios", 0), preamble("Spanish") + "S: Adios\nT:");
}

#[test]
fn render_is_repeatable() {
    let mut c = Conversation::new(String::from("Italian"));
    c.process_response("Ciao", "Good.");
    let a = c.render("Grazie", CONTEXT_WINDOW);
    let b = c.render("Grazie", CONTEXT_WINDOW);
    assert_eq!(a, b);
    assert_eq!(c.interactions.len(), 1);
}

#[test]
fn record_appends_in_order() {
    let mut c = Conversation::new(String::from("French"));
    assert_eq!(c.interactions.len(), 0);
    c.process_response("a", "b");
    c.process_response("a", "b");
    c.process_response("c", "d");
    assert_eq!(c.interactions.len(), 3);
    assert_eq!(c.interactions[0].question, "a");
    assert_eq!(c.interactions[1].response, "b");
    assert_eq!(c.interactions[2].question, "c");
    assert_eq!(c.interactions[2].response, "d");
    assert_eq!(c.language, "French");
}

#[test]
fn prompt_starts_with_preamble_and_ends_with_question() {
    let mut c = Conversation::new(String::from("Mandarin Chinese"));
    c.process_response("ni hao", "Good.");
    let p = c.render("xie xie", 10);
    assert!(p.starts_with(&preamble("Mandarin Chinese")));
    assert!(p.ends_with("S: xie xie\nT:"));
    assert_eq!(c.preamble(), preamble("Mandarin Chinese"));
}

#[test]
fn placeholders_in_text_stay_verbatim() {
    let mut c = Conversation::new(String::from("French"));
    c.process_response("{response}", "{question}");
    assert_eq!(
        c.render("{question} {response}", 10),
        preamble("French") + "S: {response}\nT: {question}\n\nS: {question} {response}\nT:"
    );
}

#[test]
fn interaction_renders_two_lines() {
    let i = Interaction { question: String::from("Je suis"), response: String::from("Correct.") };
    assert_eq!(i.to_string(), "S: Je suis\nT: Correct.\n\n");
}

#[test]
fn ask_builds_fixed_request() {
    let c = Conversation::new(String::from("French"));
    let r = c.ask("Salut", CONTEXT_WINDOW);
    assert_eq!(r.model, "text-davinci-002");
    assert_eq!(r.model, MODEL);
    assert_eq!(r.stop, "S:");
    assert_eq!(r.stop, STOP_SEQUENCE);
    assert_eq!(r.temperature_hundredths, 80);
    assert_eq!(r.temperature_hundredths, TEMPERATURE_HUNDREDTHS);
    assert_eq!(r.max_tokens, 256);
    assert_eq!(r.max_tokens, MAX_TOKENS);
    assert_eq!(r.prompt, preamble("French") + "S: Salut\nT:");
}

#[test]
fn basic_request_keeps_arguments() {
    let r = GptRequest::basic(String::from("p"), 50, "X:");
    assert_eq!(r.prompt, "p");
    assert_eq!(r.temperature_hundredths, 50);
    assert_eq!(r.stop, "X:");
    assert_eq!(r.model, MODEL);
    assert_eq!(r.max_tokens, 256);
}

#[test]
fn empty_choices_is_an_error() {
    assert_eq!(reply(&[]).answer(), Err(CompletionError::EmptyCompletion));
}

#[test]
fn answer_is_trimmed() {
    assert_eq!(
        reply(&["  Bonjour is correct.  \n"]).answer(),
        Ok(String::from("Bonjour is correct."))
    );
}

#[test]
fn answer_takes_last_choice() {
    assert_eq!(reply(&["first", " second\t"]).answer(), Ok(String::from("second")));
}

#[test]
fn clean_text_trims_both_ends() {
    assert_eq!(clean_text("  a b \n"), "a b");
    assert_eq!(clean_text(" \t\n"), "");
    assert_eq!(clean_text("x"), "x");
}

#[test]
fn record_reply_records_only_answers() {
    let mut c = Conversation::new(String::from("French"));
    assert_eq!(c.record_reply("Bonjour", reply(&[])), Err(CompletionError::EmptyCompletion));
    assert_eq!(c.interactions.len(), 0);
    let a = c.record_reply("Bonjour", reply(&["  Bonjour is correct.  \n"]));
    assert_eq!(a, Ok(String::from("Bonjour is correct.")));
    assert_eq!(c.interactions.len(), 1);
    assert_eq!(c.interactions[0].question, "Bonjour");
    assert_eq!(c.interactions[0].response, "Bonjour is correct.");
}

#[test]
fn status_outcomes() {
    assert_eq!(http_status_outcome(200), Ok(()));
    assert_eq!(http_status_outcome(299), Ok(()));
    assert_eq!(http_status_outcome(401), Err(CompletionError::Authentication));
    assert_eq!(http_status_outcome(403), Err(CompletionError::Authentication));
    assert_eq!(http_status_outcome(500), Err(CompletionError::HttpStatus(500)));
    assert_eq!(http_status_outcome(199), Err(CompletionError::HttpStatus(199)));
}

#[test]
fn error_messages_name_the_failure() {
    assert!(CompletionError::Transport.message().starts_with("network error"));
    assert!(CompletionError::Authentication.message().starts_with("authentication error"));
    assert!(CompletionError::HttpStatus(500).message().starts_with("service error"));
    assert!(CompletionError::MalformedResponse.message().starts_with("malformed response"));
    assert!(CompletionError::EmptyCompletion.message().starts_with("empty completion"));
}
