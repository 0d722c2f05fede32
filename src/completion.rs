use vstd::prelude::*;
use vstd::string::StringExecFns;

verus! {

/// The completion model that every request names.
pub const MODEL: &'static str = "text-davinci-002";

/// The sequence at which the service stops generating: the start of the
/// learner's next line.
pub const STOP_SEQUENCE: &'static str = "S:";

/// The most tokens the service may generate for one reply.
pub const MAX_TOKENS: usize = 256;

/// The sampling temperature of every request, in hundredths.
pub const TEMPERATURE_HUNDREDTHS: u32 = 80;

/// Whether `c` has the Unicode White_Space property, the class of characters
/// that `str::trim` removes.
pub uninterp spec fn white_space(c: char) -> bool;

/// `s` without its leading white space.
pub open spec fn trim_start_of(s: Seq<char>) -> Seq<char>
    decreases s.len(),
{
    if s.len() > 0 && white_space(s[0]) {
        trim_start_of(s.drop_first())
    } else {
        s
    }
}

/// `s` without its trailing white space.
pub open spec fn trim_end_of(s: Seq<char>) -> Seq<char>
    decreases s.len(),
{
    if s.len() > 0 && white_space(s.last()) {
        trim_end_of(s.drop_last())
    } else {
        s
    }
}

/// `s` without leading or trailing white space.
pub open spec fn trimmed(s: Seq<char>) -> Seq<char> {
    trim_end_of(trim_start_of(s))
}

/// Relies on `str::trim`: the slice of `s` left once leading and trailing
/// characters with the White_Space property are removed.
#[verifier::external_body]
fn trim_str(s: &str) -> (r: &str)
    ensures
        r@ == trimmed(s@),
        r@.len() > 0 ==> !white_space(r@[0]) && !white_space(r@.last()),
{
    s.trim()
}

/// `s` with leading and trailing white space removed, as an owned string.
pub fn clean_text(s: &str) -> (r: String)
    ensures
        r@ == trimmed(s@),
{
    String::from_str(trim_str(s))
}

/// Why a completion could not be had.
#[derive(Debug, Clone, Copy, PartialEq, Eq, Structural)]
pub enum CompletionError {
    /// The service could not be reached, or the exchange broke off.
    Transport,
    /// The service refused the credential (HTTP 401 or 403).
    Authentication,
    /// The service answered with another status outside 2xx.
    HttpStatus(u16),
    /// The reply body was not a completion response.
    MalformedResponse,
    /// The reply held no choice at all.
    EmptyCompletion,
}

/// The diagnostic that names each kind of failure.
pub open spec fn message_of(e: CompletionError) -> Seq<char> {
    match e {
        CompletionError::Transport => "network error: the completion service could not be reached"@,
        CompletionError::Authentication => "authentication error: the service refused the API token"@,
        CompletionError::HttpStatus(_) => "service error: unexpected HTTP status"@,
        CompletionError::MalformedResponse => "malformed response: the reply is not a completion"@,
        CompletionError::EmptyCompletion => "empty completion: the reply holds no choice"@,
    }
}

impl CompletionError {
    /// A human-readable account of the failure.
    pub fn message(&self) -> (r: String)
        ensures
            r@ == message_of(*self),
    {
        match self {
            CompletionError::Transport => String::from_str(
                "network error: the completion service could not be reached",
            ),
            CompletionError::Authentication => String::from_str(
                "authentication error: the service refused the API token",
            ),
            CompletionError::HttpStatus(_) => String::from_str(
                "service error: unexpected HTTP status",
            ),
            CompletionError::MalformedResponse => String::from_str(
                "malformed response: the reply is not a completion",
            ),
            CompletionError::EmptyCompletion => String::from_str(
                "empty completion: the reply holds no choice",
            ),
        }
    }
}

/// What an HTTP status means for a completion exchange.
pub open spec fn status_outcome(status: u16) -> Result<(), CompletionError> {
    if 200 <= status <= 299 {
        Ok(())
    } else if status == 401 || status == 403 {
        Err(CompletionError::Authentication)
    } else {
        Err(CompletionError::HttpStatus(status))
    }
}

/// Sorts the HTTP status of the service's reply: success, a refused
/// credential, or another failure.
pub fn http_status_outcome(status: u16) -> (r: Result<(), CompletionError>)
    ensures
        r == status_outcome(status),
{
    if 200 <= status && status <= 299 {
        Ok(())
    } else if status == 401 || status == 403 {
        Err(CompletionError::Authentication)
    } else {
        Err(CompletionError::HttpStatus(status))
    }
}

/// The body of one completion request.
pub struct GptRequest {
    pub model: String,
    pub stop: String,
    pub prompt: String,
    /// The sampling temperature in hundredths (80 stands for 0.8).
    pub temperature_hundredths: u32,
    pub max_tokens: usize,
}

impl GptRequest {
    /// A request for `prompt` to the fixed model, with the fixed token limit.
    pub fn basic(prompt: String, temperature_hundredths: u32, stop: &str) -> (r: Self)
        ensures
            r.model@ == MODEL@,
            r.stop@ == stop@,
            r.prompt == prompt,
            r.temperature_hundredths == temperature_hundredths,
            r.max_tokens == MAX_TOKENS,
    {
        GptRequest {
            model: String::from_str(MODEL),
            stop: String::from_str(stop),
            prompt,
            temperature_hundredths,
            max_tokens: MAX_TOKENS,
        }
    }
}

/// One generated text among the choices of a reply.
pub struct GptChoice {
    pub text: String,
}

/// A reply of the completion service: the choices it generated.
pub struct GptResponse {
    pub choices: Vec<GptChoice>,
}

impl GptResponse {
    /// The text of the last choice, without leading or trailing white space.
    pub fn answer(self) -> (r: Result<String, CompletionError>)
        ensures
            self.choices@.len() == 0 ==> r == Err::<String, CompletionError>(
                CompletionError::EmptyCompletion,
            ),
            self.choices@.len() > 0 ==> r is Ok && r->Ok_0@ == trimmed(
                self.choices@.last().text@,
            ),
    {
        let mut choices = self.choices;
        match choices.pop() {
            None => Err(CompletionError::EmptyCompletion),
            Some(choice) => Ok(clean_text(choice.text.as_str())),
        }
    }
}

} // verus!
