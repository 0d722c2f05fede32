//! A language tutor's conversation model: the bounded-window prompt that is
//! sent to a text-completion service, the request that carries it, and the
//! reading of the service's reply.

mod completion;
mod prompt;

pub use completion::{
    clean_text, http_status_outcome, message_of, status_outcome, trim_end_of, trim_start_of, trimmed,
    white_space, CompletionError, GptChoice, GptRequest, GptResponse, MAX_TOKENS, MODEL,
    STOP_SEQUENCE, TEMPERATURE_HUNDREDTHS,
};
pub use prompt::{
    block_of, blocks_of, lemma_render_pure, lemma_render_shape, lemma_window_is_recent, preamble_of, prompt_of, question_line, window, Conversation,
    Interaction, CONTEXT_WINDOW,
};
