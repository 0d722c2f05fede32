use vstd::prelude::*;
use vstd::string::StringExecFns;

use crate::completion::{
    trimmed, CompletionError, GptRequest, GptResponse, MAX_TOKENS, MODEL, STOP_SEQUENCE,
    TEMPERATURE_HUNDREDTHS,
};

verus! {

/// How many of the most recent interactions a prompt carries by default.
pub const CONTEXT_WINDOW: usize = 10;

/// The opening text of every prompt, with the target language filled in.
pub open spec fn preamble_of(language: Seq<char>) -> Seq<char> {
    "This is a conversation between a "@ + language + " tutor and a "@ + language
        + " learner. The tutor will correct any mistakes in the students grammar.\n\n\n"@
}

/// One past interaction as it stands in a prompt.
pub open spec fn block_of(question: Seq<char>, response: Seq<char>) -> Seq<char> {
    "S: "@ + question + "\nT: "@ + response + "\n\n"@
}

/// The new question at the end of a prompt, with an empty reply slot.
pub open spec fn question_line(question: Seq<char>) -> Seq<char> {
    "S: "@ + question + "\nT:"@
}

/// The last `w` interactions of `h` (all of them when there are fewer).
pub open spec fn window(h: Seq<Interaction>, w: nat) -> Seq<Interaction> {
    if w >= h.len() {
        h
    } else {
        h.subrange(h.len() - w, h.len() as int)
    }
}

/// The interactions of `h` rendered one after another, oldest first.
pub open spec fn blocks_of(h: Seq<Interaction>) -> Seq<char>
    decreases h.len(),
{
    if h.len() == 0 {
        Seq::empty()
    } else {
        blocks_of(h.drop_last()) + block_of(h.last().question@, h.last().response@)
    }
}

/// The whole prompt for `question` over history `h` with a window of `w`.
pub open spec fn prompt_of(
    language: Seq<char>,
    h: Seq<Interaction>,
    question: Seq<char>,
    w: nat,
) -> Seq<char> {
    preamble_of(language) + blocks_of(window(h, w)) + question_line(question)
}

/// One question put to the tutor together with the tutor's reply.
pub struct Interaction {
    pub question: String,
    pub response: String,
}

impl Interaction {
    /// The interaction as two lines followed by a blank line.
    pub fn to_string(&self) -> (r: String)
        ensures
            r@ == block_of(self.question@, self.response@),
    {
        let mut s = String::from_str("S: ");
        s.append(self.question.as_str());
        s.append("\nT: ");
        s.append(self.response.as_str());
        s.append("\n\n");
        s
    }
}

/// A conversation in one target language, with its append-only history.
pub struct Conversation {
    pub language: String,
    pub interactions: Vec<Interaction>,
}

impl Conversation {
    pub fn new(language: String) -> (r: Self)
        ensures
            r.language == language,
            r.interactions@.len() == 0,
    {
        Conversation { language, interactions: Vec::new() }
    }

    /// The preamble of this conversation's prompts.
    pub fn preamble(&self) -> (r: String)
        ensures
            r@ == preamble_of(self.language@),
    {
        let mut s = String::from_str("This is a conversation between a ");
        s.append(self.language.as_str());
        s.append(" tutor and a ");
        s.append(self.language.as_str());
        s.append(" learner. The tutor will correct any mistakes in the students grammar.\n\n\n");
        s
    }

    /// The prompt for `question`, carrying the last `context` interactions.
    pub fn render(&self, question: &str, context: usize) -> (r: String)
        ensures
            r@ == prompt_of(self.language@, self.interactions@, question@, context as nat),
    {
        let mut s = self.preamble();
        let n = self.interactions.len();
        let start: usize = if context >= n { 0 } else { n - context };
        let ghost h = self.interactions@;
        proof {
            assert(window(h, context as nat) =~= h.subrange(start as int, n as int));
            assert(h.subrange(start as int, start as int) =~= Seq::<Interaction>::empty());
        }
        let mut i: usize = start;
        while i < n
            invariant
                start <= i <= n,
                n == h.len(),
                h == self.interactions@,
                s@ == preamble_of(self.language@) + blocks_of(h.subrange(start as int, i as int)),
            decreases n - i,
        {
            let block = self.interactions[i].to_string();
            s.append(block.as_str());
            proof {
                let next = h.subrange(start as int, i + 1);
                assert(next.drop_last() =~= h.subrange(start as int, i as int));
                assert(next.last() == h[i as int]);
            }
            i = i + 1;
        }
        s.append("S: ");
        s.append(question);
        s.append("\nT:");
        s
    }

    /// The request that asks the tutor `question`, carrying the last `context`
    /// interactions.
    pub fn ask(&self, question: &str, context: usize) -> (r: GptRequest)
        ensures
            r.prompt@ == prompt_of(self.language@, self.interactions@, question@, context as nat),
            r.model@ == MODEL@,
            r.stop@ == STOP_SEQUENCE@,
            r.temperature_hundredths == TEMPERATURE_HUNDREDTHS,
            r.max_tokens == MAX_TOKENS,
    {
        let prompt = self.render(question, context);
        GptRequest::basic(prompt, TEMPERATURE_HUNDREDTHS, STOP_SEQUENCE)
    }

    /// Takes the service's reply to `question`. When it holds a choice, the
    /// trimmed text of the last one is the answer and joins the history;
    /// otherwise the history stays as it was.
    pub fn record_reply(&mut self, question: &str, reply: GptResponse) -> (r: Result<
        String,
        CompletionError,
    >)
        ensures
            reply.choices@.len() == 0 ==> r == Err::<String, CompletionError>(
                CompletionError::EmptyCompletion,
            ) && *final(self) == *old(self),
            reply.choices@.len() > 0 ==> {
                &&& r is Ok
                &&& r->Ok_0@ == trimmed(reply.choices@.last().text@)
                &&& final(self).language == old(self).language
                &&& final(self).interactions@.len() == old(self).interactions@.len() + 1
                &&& final(self).interactions@.drop_last() == old(self).interactions@
                &&& final(self).interactions@.last().question@ == question@
                &&& final(self).interactions@.last().response@ == r->Ok_0@
            },
    {
        match reply.answer() {
            Ok(answer) => {
                self.process_response(question, answer.as_str());
                Ok(answer)
            },
            Err(e) => Err(e),
        }
    }

    /// Appends one finished interaction to the history.
    pub fn process_response(&mut self, question: &str, response: &str)
        ensures
            final(self).language == old(self).language,
            final(self).interactions@.len() == old(self).interactions@.len() + 1,
            final(self).interactions@.drop_last() == old(self).interactions@,
            final(self).interactions@.last().question@ == question@,
            final(self).interactions@.last().response@ == response@,
    {
        let interaction = Interaction {
            question: String::from_str(question),
            response: String::from_str(response),
        };
        self.interactions.push(interaction);
        proof {
            assert(self.interactions@.drop_last() =~= old(self).interactions@);
        }
    }
}

/// A window holds the `min(w, len)` most recent interactions of the history,
/// in the order in which they happened, and the prompt carries exactly those.
pub proof fn lemma_window_is_recent(
    language: Seq<char>,
    h: Seq<Interaction>,
    question: Seq<char>,
    w: nat,
)
    ensures
        window(h, w).len() == if w < h.len() { w } else { h.len() },
        forall|i: int|
            0 <= i < window(h, w).len() ==> #[trigger] window(h, w)[i] == h[h.len()
                - window(h, w).len() + i],
        prompt_of(language, h, question, w) == preamble_of(language) + blocks_of(
            h.subrange(h.len() - window(h, w).len(), h.len() as int),
        ) + question_line(question),
{
    assert(window(h, w) =~= h.subrange(h.len() - window(h, w).len(), h.len() as int));
}

/// Rendering depends on nothing but the language, the history, the question
/// and the window: asking twice with these unchanged gives the same prompt.
pub proof fn lemma_render_pure(a: Conversation, b: Conversation, question: Seq<char>, w: nat)
    requires
        a.language@ == b.language@,
        a.interactions@ == b.interactions@,
    ensures
        prompt_of(a.language@, a.interactions@, question, w) == prompt_of(
            b.language@,
            b.interactions@,
            question,
            w,
        ),
{
}

/// Every prompt opens with the preamble, which names the language, and
/// closes with the new question and an empty reply slot.
pub proof fn lemma_render_shape(
    language: Seq<char>,
    h: Seq<Interaction>,
    question: Seq<char>,
    w: nat,
)
    ensures
        ({
            let p = prompt_of(language, h, question, w);
            let pre = preamble_of(language);
            let q = question_line(question);
            let lead = "This is a conversation between a "@.len() as int;
            &&& pre.len() <= p.len()
            &&& p.subrange(0, pre.len() as int) == pre
            &&& pre.subrange(lead, lead + language.len()) == language
            &&& q.len() <= p.len()
            &&& p.subrange(p.len() - q.len(), p.len() as int) == q
        }),
{
    let p = prompt_of(language, h, question, w);
    let pre = preamble_of(language);
    let q = question_line(question);
    let lead = "This is a conversation between a "@.len() as int;
    assert(p.subrange(0, pre.len() as int) =~= pre);
    assert(pre.subrange(lead, lead + language.len()) =~= language);
    assert(p.subrange(p.len() - q.len(), p.len() as int) =~= q);
}

} // verus!
