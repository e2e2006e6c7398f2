//! The conversational worker: it forwards questions to an Ollama model and
//! keeps the history of the exchanges that succeeded.
use vstd::prelude::*;
use crate::common::OllamaResponse;

verus! {

/// The instructions of the worker.
pub open spec fn worker_instructions() -> Seq<char> {
    "You are a helpful assistant. Your role is to read and extract all the entries in a notion document"@
}

/// The instructions of the worker.
pub fn context() -> (s: String)
    ensures
        s@ == worker_instructions(),
{
    "You are a helpful assistant. Your role is to read and extract all the entries in a notion document".to_string()
}

/// One exchange: a question and the model's answer.
#[derive(Clone, Debug, PartialEq, Eq)]
pub struct Response {
    pub message: String,
    pub response: String,
}

/// One exchange, as the worker reports its history.
#[derive(Clone, Debug, PartialEq, Eq)]
pub struct HistoryEntry {
    pub message: String,
    pub response: String,
}

/// The history entries that the exchanges `ex` are reported as, in order.
pub open spec fn history_entries(ex: Seq<Response>) -> Seq<HistoryEntry> {
    ex.map_values(|r: Response| HistoryEntry { message: r.message, response: r.response })
}

/// The line of the prompt that recalls the exchange `r`.
pub open spec fn exchange_line(r: Response) -> Seq<char> {
    "Message "@ + r.message@ + ": Response: "@ + r.response@ + "\n"@
}

/// The lines that recall the exchanges `ex`, in order.
pub open spec fn exchanges_text(ex: Seq<Response>) -> Seq<char>
    decreases ex.len(),
{
    if ex.len() == 0 {
        Seq::empty()
    } else {
        exchanges_text(ex.drop_last()) + exchange_line(ex.last())
    }
}

/// The prompt that puts `message` after the recalled exchanges `ex`.
pub open spec fn prompt_spec(ex: Seq<Response>, message: Seq<char>) -> Seq<char> {
    "Context: \n"@ + exchanges_text(ex) + message + ": "@
}

/// The state of the worker: the exchanges that succeeded, oldest first.
pub struct Context {
    history: Vec<Response>,
}

impl Context {
    /// The exchanges recorded so far, oldest first.
    pub closed spec fn exchanges(&self) -> Seq<Response> {
        self.history@
    }

    /// A worker that has not exchanged anything yet.
    pub fn new() -> (c: Context)
        ensures
            c.exchanges() == Seq::<Response>::empty(),
    {
        Context { history: Vec::new() }
    }

    /// The prompt that recalls every recorded exchange and ends with
    /// `message`.
    pub fn prompt(&self, message: &str) -> (s: String)
        ensures
            s@ == prompt_spec(self.exchanges(), message@),
            s@ == "Context: \n"@ + exchanges_text(self.exchanges()) + message@ + ": "@,
    {
        let ghost ex = self.history@;
        let mut s = "Context: \n".to_string();
        let mut i: usize = 0;
        assert(ex.take(0) =~= Seq::<Response>::empty());
        while i < self.history.len()
            invariant
                ex == self.history@,
                i <= ex.len(),
                s@ == "Context: \n"@ + exchanges_text(ex.take(i as int)),
            decreases ex.len() - i,
        {
            let ghost before = s@;
            s.append("Message ");
            s.append(self.history[i].message.as_str());
            s.append(": Response: ");
            s.append(self.history[i].response.as_str());
            s.append("\n");
            assert(ex.take(i + 1).drop_last() =~= ex.take(i as int));
            assert(ex.take(i + 1).last() == ex[i as int]);
            assert(s@ =~= "Context: \n"@ + exchanges_text(ex.take(i + 1)));
            i = i + 1;
        }
        assert(ex.take(ex.len() as int) =~= ex);
        s.append(message);
        s.append(": ");
        assert(s@ =~= prompt_spec(ex, message@));
        s
    }

    /// Records the outcome of asking `message`: a successful answer is added
    /// to the history and its text returned; an error leaves the history as it
    /// was and is returned.
    pub fn record(&mut self, message: String, outcome: Result<OllamaResponse, String>) -> (r: Result<String, String>)
        ensures
            outcome matches Ok(reply) ==> final(self).exchanges() == old(self).exchanges().push(
                Response { message, response: reply.response },
            ) && r == Ok::<String, String>(reply.response),
            outcome matches Err(e) ==> final(self).exchanges() == old(self).exchanges() && r == Err::<
                String,
                String,
            >(e),
            final(self).exchanges() == record_spec(old(self).exchanges(), message, outcome),
    {
        match outcome {
            Ok(reply) => {
                let answer = reply.response.clone();
                self.history.push(Response { message, response: reply.response });
                Ok(answer)
            },
            Err(e) => Err(e),
        }
    }

    /// The recorded exchanges, oldest first.
    pub fn history(&self) -> (h: Vec<HistoryEntry>)
        ensures
            h@ == history_entries(self.exchanges()),
    {
        let mut h: Vec<HistoryEntry> = Vec::new();
        let mut i: usize = 0;
        while i < self.history.len()
            invariant
                i <= self.history@.len(),
                h@ == history_entries(self.history@.take(i as int)),
            decreases self.history@.len() - i,
        {
            h.push(
                HistoryEntry {
                    message: self.history[i].message.clone(),
                    response: self.history[i].response.clone(),
                },
            );
            assert(h@ =~= history_entries(self.history@.take(i + 1)));
            i = i + 1;
        }
        assert(self.history@.take(self.history@.len() as int) =~= self.history@);
        h
    }
}

impl Default for Context {
    fn default() -> (c: Context)
        ensures
            c.exchanges() == Seq::<Response>::empty(),
    {
        Context::new()
    }
}

/// Recording an exchange adds exactly that exchange at the end of the
/// reported history and leaves the earlier entries as they were.
pub proof fn lemma_history_after_record(ex: Seq<Response>, message: String, answer: String)
    ensures
        history_entries(ex.push(Response { message, response: answer })) == history_entries(
            ex,
        ).push(HistoryEntry { message, response: answer }),
{
    assert(history_entries(ex.push(Response { message, response: answer })) =~= history_entries(
        ex,
    ).push(HistoryEntry { message, response: answer }));
}

/// The exchanges after recording the outcome `outcome` of asking `message`
/// on top of the exchanges `ex`.
pub open spec fn record_spec(
    ex: Seq<Response>,
    message: String,
    outcome: Result<OllamaResponse, String>,
) -> Seq<Response> {
    match outcome {
        Ok(reply) => ex.push(Response { message, response: reply.response }),
        Err(_) => ex,
    }
}

/// The exchanges of a fresh worker after it was asked `messages[0]`,
/// `messages[1]`, ... with the outcomes `outcomes[0]`, `outcomes[1]`, ...
pub open spec fn exchanges_after(
    messages: Seq<String>,
    outcomes: Seq<Result<OllamaResponse, String>>,
) -> Seq<Response>
    decreases messages.len(),
{
    if messages.len() == 0 {
        Seq::empty()
    } else {
        record_spec(
            exchanges_after(messages.drop_last(), outcomes.drop_last()),
            messages.last(),
            outcomes[messages.len() - 1],
        )
    }
}

/// The questions asked, each with the outcome of asking it, in order.
pub open spec fn asked(
    messages: Seq<String>,
    outcomes: Seq<Result<OllamaResponse, String>>,
) -> Seq<(String, Result<OllamaResponse, String>)> {
    Seq::new(messages.len(), |i: int| (messages[i], outcomes[i]))
}

/// The history entry of a successful question, nothing for a failed one.
pub open spec fn answered_entry() -> spec_fn((String, Result<OllamaResponse, String>)) -> Option<
    HistoryEntry,
> {
    |q: (String, Result<OllamaResponse, String>)|
        match q.1 {
            Ok(reply) => Some(HistoryEntry { message: q.0, response: reply.response }),
            Err(_) => None,
        }
}

/// The questions that were answered, with their answers, in the order they
/// were asked.
pub open spec fn successful_exchanges(
    messages: Seq<String>,
    outcomes: Seq<Result<OllamaResponse, String>>,
) -> Seq<HistoryEntry> {
    asked(messages, outcomes).filter_map(answered_entry())
}

/// A fresh worker asked a sequence of questions reports as its history
/// exactly the questions that were answered, each with its answer, in the
/// order they were asked; in particular nothing when nothing was answered.
pub proof fn lemma_history_of_asks(
    messages: Seq<String>,
    outcomes: Seq<Result<OllamaResponse, String>>,
)
    requires
        messages.len() == outcomes.len(),
    ensures
        history_entries(exchanges_after(messages, outcomes)) == successful_exchanges(
            messages,
            outcomes,
        ),
    decreases messages.len(),
{
    if messages.len() == 0 {
        assert(asked(messages, outcomes) =~= Seq::empty());
        assert(history_entries(Seq::<Response>::empty()) =~= Seq::empty());
    } else {
        let pm = messages.drop_last();
        let po = outcomes.drop_last();
        lemma_history_of_asks(pm, po);
        let a = asked(messages, outcomes);
        assert(a.drop_last() =~= asked(pm, po));
        let before = exchanges_after(pm, po);
        let m = messages.last();
        let o = outcomes[messages.len() - 1];
        assert(a.last() == (m, o));
        match o {
            Ok(reply) => {
                lemma_history_after_record(before, m, reply.response);
                assert(seq![HistoryEntry { message: m, response: reply.response }]
                    =~= Seq::empty().push(HistoryEntry { message: m, response: reply.response }));
                assert(successful_exchanges(pm, po) + seq![
                    HistoryEntry { message: m, response: reply.response },
                ] =~= successful_exchanges(pm, po).push(
                    HistoryEntry { message: m, response: reply.response },
                ));
            },
            Err(_) => {},
        }
    }
}

/// Nothing is recalled of a worker without exchanges.
pub proof fn lemma_exchanges_text_empty()
    ensures
        exchanges_text(Seq::<Response>::empty()) == Seq::<char>::empty(),
{
}

/// Recording one more exchange adds exactly its line, "Message ", the
/// question, ": Response: ", the answer and a newline, after the lines of
/// all earlier exchanges, which stay as they were.
pub proof fn lemma_exchanges_text_push(ex: Seq<Response>, r: Response)
    ensures
        exchanges_text(ex.push(r)) == exchanges_text(ex) + "Message "@ + r.message@
            + ": Response: "@ + r.response@ + "\n"@,
{
    assert(ex.push(r).drop_last() =~= ex);
}

/// The prompt is "Context: \n", the lines of all recorded exchanges, the
/// message and ": "; after one more exchange it recalls every earlier
/// exchange and then the new one.
pub proof fn lemma_prompt_parts(ex: Seq<Response>, r: Response, message: Seq<char>)
    ensures
        prompt_spec(ex, message) == "Context: \n"@ + exchanges_text(ex) + message + ": "@,
        prompt_spec(ex.push(r), message) == "Context: \n"@ + exchanges_text(ex) + "Message "@
            + r.message@ + ": Response: "@ + r.response@ + "\n"@ + message + ": "@,
{
    lemma_exchanges_text_push(ex, r);
    assert(prompt_spec(ex.push(r), message) =~= "Context: \n"@ + exchanges_text(ex) + "Message "@
        + r.message@ + ": Response: "@ + r.response@ + "\n"@ + message + ": "@);
}

/// The worker's instructions are the full text, of 98 characters.
pub proof fn lemma_worker_instructions_len()
    ensures
        worker_instructions().len() == 98,
{
    reveal_strlit("You are a helpful assistant. Your role is to read and extract all the entries in a notion document");
}

/// The history reports one entry per exchange, in order, each with the
/// exchange's own question and answer.
pub proof fn lemma_history_entries_fields(ex: Seq<Response>)
    ensures
        history_entries(ex).len() == ex.len(),
        forall|i: int|
            0 <= i < ex.len() ==> (#[trigger] history_entries(ex)[i]).message == ex[i].message
                && history_entries(ex)[i].response == ex[i].response,
{
}

} // verus!
