//! The input analyzer: it asks a chat model to split a planning document into
//! raw entries, then has each of them categorized.
use vstd::prelude::*;
use crate::categorizer::{Entry, RawEntry};
use crate::common::{OpenAIRequest, system_role, user_role, TEMPERATURE_0_7_BITS};
use crate::pending::{after_polls, lemma_batch_outcomes, polls_deliver};

verus! {

/// The instructions that frame an analysis request.
pub open spec fn analysis_instructions() -> Seq<char> {
    "You are a helpful assistant. Your role is to read and extract all the entries present in a Notion document written in markdown. The entries represent potential features or bugfixes or an application. They are categorized in specific sections, that represent the importance of each entry. Some of them are already done, others are in todo or in progress. Collect all the entries. Represent each entry as a JSON object containing, 2 keys: 'category' (string), representing the importance of the entry and 'data' (string), representing all the raw description of the feature or bug, including the nested elements of the entry with any link or code snippet. All those JSON object can be placed in a JSON list. The JSON can be compact, with no extra characters added. It's very important that you return me only a valid JSON structure, don't return any markdown prefix and don't anny any extra space or newline characters, because I will have to parse your response in JSON directly so it should be very clean and compact."@
}

/// The system message of an analysis request.
pub fn context() -> (s: String)
    ensures
        s@ == analysis_instructions(),
{
    "You are a helpful assistant. Your role is to read and extract all the entries present in a Notion document written in markdown. The entries represent potential features or bugfixes or an application. They are categorized in specific sections, that represent the importance of each entry. Some of them are already done, others are in todo or in progress. Collect all the entries. Represent each entry as a JSON object containing, 2 keys: 'category' (string), representing the importance of the entry and 'data' (string), representing all the raw description of the feature or bug, including the nested elements of the entry with any link or code snippet. All those JSON object can be placed in a JSON list. The JSON can be compact, with no extra characters added. It's very important that you return me only a valid JSON structure, don't return any markdown prefix and don't anny any extra space or newline characters, because I will have to parse your response in JSON directly so it should be very clean and compact.".to_string()
}

/// One entry that the analysis model found: its section and its text.
#[derive(Clone, Debug, PartialEq, Eq)]
pub struct CategoryWithData {
    pub category: String,
    pub data: String,
}

/// The raw entry that a found entry becomes: the same section and text.
pub open spec fn raw_entry_of(c: CategoryWithData) -> RawEntry {
    RawEntry { category: c.category, data: c.data }
}

impl From<CategoryWithData> for RawEntry {
    fn from(value: CategoryWithData) -> (r: RawEntry)
        ensures
            r == raw_entry_of(value),
    {
        RawEntry { category: value.category, data: value.data }
    }
}

impl vstd::std_specs::convert::FromSpecImpl<CategoryWithData> for RawEntry {
    open spec fn obeys_from_spec() -> bool {
        true
    }

    open spec fn from_spec(v: CategoryWithData) -> RawEntry {
        raw_entry_of(v)
    }
}

/// The model that analyzes documents.
pub open spec fn analysis_model() -> Seq<char> {
    "gpt-3.5-turbo"@
}

/// The chat request that asks for the entries of the document `input`: the
/// analysis instructions, then the document, to `gpt-3.5-turbo` at
/// temperature 0.7, not streamed.
pub fn analysis_request(input: String) -> (r: OpenAIRequest)
    ensures
        r.model@ == analysis_model(),
        r.messages@.len() == 2,
        r.messages@[0].role@ == system_role(),
        r.messages@[0].content@ == analysis_instructions(),
        r.messages@[1].role@ == user_role(),
        r.messages@[1].content == input,
        !r.stream,
        r.temperature_bits == TEMPERATURE_0_7_BITS,
{
    OpenAIRequest::new_system_and_user(
        "gpt-3.5-turbo".to_string(),
        context(),
        input,
        false,
        TEMPERATURE_0_7_BITS,
    )
}

/// Categorizes the found entries one after the other with `categorize`, which
/// makes the (blocking) call to the categorizer: the `i`-th outcome is what
/// the call on the raw entry of the `i`-th found entry gave.
pub fn categorize_entries<F: Fn(&RawEntry) -> Result<Entry, String>>(
    entries: Vec<CategoryWithData>,
    categorize: F,
) -> (results: Vec<Result<Entry, String>>)
    requires
        forall|raw: RawEntry| call_requires(categorize, (&raw,)),
    ensures
        results@.len() == entries@.len(),
        forall|i: int|
            0 <= i < entries@.len() ==> call_ensures(
                categorize,
                (&raw_entry_of(entries@[i]),),
                #[trigger] results@[i],
            ),
{
    let mut results: Vec<Result<Entry, String>> = Vec::new();
    let mut i: usize = 0;
    while i < entries.len()
        invariant
            i <= entries@.len(),
            results@.len() == i,
            forall|raw: RawEntry| call_requires(categorize, (&raw,)),
            forall|j: int|
                0 <= j < i ==> call_ensures(
                    categorize,
                    (&raw_entry_of(entries@[j]),),
                    #[trigger] results@[j],
                ),
        decreases entries@.len() - i,
    {
        let request = RawEntry {
            category: entries[i].category.clone(),
            data: entries[i].data.clone(),
        };
        assert(request == raw_entry_of(entries@[i as int]));
        let response = categorize(&request);
        results.push(response);
        i = i + 1;
    }
    results
}

/// What an analysis returns once the model's reply `reply` has been decoded
/// into `found`: the reply itself when the decoding succeeded (the found
/// entries are then categorized on the side), else the decoding error.
pub fn analysis_result(reply: String, found: &Result<Vec<CategoryWithData>, String>) -> (r: Result<
    String,
    String,
>)
    ensures
        *found is Ok ==> r == Ok::<String, String>(reply),
        *found matches Err(e) ==> r == Err::<String, String>(e),
{
    match found {
        Ok(_) => Ok(reply),
        Err(e) => Err(e.clone()),
    }
}

/// When the categorizer answers each raw entry with a fixed result
/// `answer(raw)`, categorizing the found entries concurrently gives what
/// categorizing them one after the other gives: a batch of calls, one per
/// entry and all pending at first, whose polls deliver the categorizer's
/// answers until no call is pending, ends with the outcome of the `i`-th
/// entry under call number `i`, exactly as `categorize_entries` returns it.
pub proof fn lemma_concurrent_matches_blocking<F: Fn(&RawEntry) -> Result<Entry, String>>(
    entries: Seq<CategoryWithData>,
    categorize: F,
    answer: spec_fn(RawEntry) -> Result<Entry, String>,
    blocking: Seq<Result<Entry, String>>,
    results: Seq<Result<Entry, String>>,
    pending: Seq<usize>,
    reports: Seq<Seq<u32>>,
    outcomes: Seq<Seq<Result<Entry, String>>>,
)
    requires
        forall|raw: RawEntry, r: Result<Entry, String>|
            call_ensures(categorize, (&raw,), r) ==> r == answer(raw),
        blocking.len() == entries.len(),
        forall|i: int|
            0 <= i < entries.len() ==> call_ensures(
                categorize,
                (&raw_entry_of(entries[i]),),
                #[trigger] blocking[i],
            ),
        entries.len() <= 0x1_0000_0000,
        results.len() == entries.len(),
        pending.len() == entries.len(),
        forall|i: int| 0 <= i < entries.len() ==> #[trigger] pending[i] == i as usize,
        polls_deliver(
            results,
            pending,
            reports,
            outcomes,
            |c: usize| answer(raw_entry_of(entries[c as int])),
        ),
        after_polls(results, pending, reports, outcomes).1.len() == 0,
    ensures
        after_polls(results, pending, reports, outcomes).0 == blocking,
{
    let f = |c: usize| answer(raw_entry_of(entries[c as int]));
    lemma_batch_outcomes(entries.len(), results, pending, reports, outcomes, f);
    let finished = after_polls(results, pending, reports, outcomes).0;
    assert forall|i: int| 0 <= i < entries.len() implies #[trigger] finished[i] == blocking[i] by {
        assert(call_ensures(categorize, (&raw_entry_of(entries[i]),), blocking[i]));
        assert(finished[i] == f(i as usize));
        assert(i as usize as int == i);
    }
    assert(finished =~= blocking);
}

/// Documents are analyzed by `gpt-3.5-turbo`, and the analysis instructions
/// are the full text, of 1017 characters.
pub proof fn lemma_analyzer_names()
    ensures
        analysis_model() == seq!['g', 'p', 't', '-', '3', '.', '5', '-', 't', 'u', 'r', 'b', 'o'],
        analysis_instructions().len() == 1017,
{
    reveal_strlit("gpt-3.5-turbo");
    reveal_strlit("You are a helpful assistant. Your role is to read and extract all the entries present in a Notion document written in markdown. The entries represent potential features or bugfixes or an application. They are categorized in specific sections, that represent the importance of each entry. Some of them are already done, others are in todo or in progress. Collect all the entries. Represent each entry as a JSON object containing, 2 keys: 'category' (string), representing the importance of the entry and 'data' (string), representing all the raw description of the feature or bug, including the nested elements of the entry with any link or code snippet. All those JSON object can be placed in a JSON list. The JSON can be compact, with no extra characters added. It's very important that you return me only a valid JSON structure, don't return any markdown prefix and don't anny any extra space or newline characters, because I will have to parse your response in JSON directly so it should be very clean and compact.");
    assert(analysis_model() =~= seq!['g', 'p', 't', '-', '3', '.', '5', '-', 't', 'u', 'r', 'b', 'o']);
}

} // verus!
