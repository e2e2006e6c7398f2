//! The entry categorizer: it asks a chat model to turn a raw entry of a
//! planning document into a structured entry, and a second model to check the
//! result against the raw entry.
use vstd::prelude::*;
use crate::common::{
    OpenAIRequest, system_role, user_role, TEMPERATURE_0_7_BITS,
};

verus! {

/// The instructions that frame a categorization request.
pub open spec fn categorization_instructions() -> Seq<char> {
    "You are a helpful assistant. Your role is to categorize an entry inferring more precise information from its description. Return me a JSON object containing keys: 'category' (string), which is the same as the 'category' key in input, 'entry_type' (enum: 'feature', 'bug'), which identifies if this is a feature or a bug; 'title' (string), which contains a short bug meaningful description of what is described; 'description' (string), which contains all data that you got, but well formatted in markdown and spell-checked; 'links' (list of strings), which should contain all links present in the data that you received. Pay attention to not change the meaning of what is described. The JSON can be compact, with no extra characters added. It's very important that you return me only a valid JSON structure, don't return any markdown prefix and don't anny any extra space or newline characters, because I will have to parse your response in JSON directly so it should be very clean and compact."@
}

/// The instructions that frame a verification request.
pub open spec fn verification_instructions() -> Seq<char> {
    "You are a helpful assistant. Your role is to verify that all the data in the provided entry is consistent with the data in the raw entry. You can return me a JSON object with three fields: 'result' (boolean), which indicates the result of the verification and the 'reason' (string), which contains the reason of the failure if the result is false or null if the result is true and 'fixed_entry' (object), null if the verification result is true, otherwise having exactly the same structure of the input JSON entry, but fixed according to the verification reason. Pay attention to not change the meaning of what is described. The JSON can be compact, with no extra characters added. It's very important that you return me only a valid JSON structure, don't return any markdown prefix and don't anny any extra space or newline characters, because I will have to parse your response in JSON directly so it should be very clean and compact."@
}

/// The system message of a categorization request.
pub fn context() -> (s: String)
    ensures
        s@ == categorization_instructions(),
{
    "You are a helpful assistant. Your role is to categorize an entry inferring more precise information from its description. Return me a JSON object containing keys: 'category' (string), which is the same as the 'category' key in input, 'entry_type' (enum: 'feature', 'bug'), which identifies if this is a feature or a bug; 'title' (string), which contains a short bug meaningful description of what is described; 'description' (string), which contains all data that you got, but well formatted in markdown and spell-checked; 'links' (list of strings), which should contain all links present in the data that you received. Pay attention to not change the meaning of what is described. The JSON can be compact, with no extra characters added. It's very important that you return me only a valid JSON structure, don't return any markdown prefix and don't anny any extra space or newline characters, because I will have to parse your response in JSON directly so it should be very clean and compact.".to_string()
}

/// The system message of a verification request.
pub fn verification_context() -> (s: String)
    ensures
        s@ == verification_instructions(),
{
    "You are a helpful assistant. Your role is to verify that all the data in the provided entry is consistent with the data in the raw entry. You can return me a JSON object with three fields: 'result' (boolean), which indicates the result of the verification and the 'reason' (string), which contains the reason of the failure if the result is false or null if the result is true and 'fixed_entry' (object), null if the verification result is true, otherwise having exactly the same structure of the input JSON entry, but fixed according to the verification reason. Pay attention to not change the meaning of what is described. The JSON can be compact, with no extra characters added. It's very important that you return me only a valid JSON structure, don't return any markdown prefix and don't anny any extra space or newline characters, because I will have to parse your response in JSON directly so it should be very clean and compact.".to_string()
}

/// Whether an entry asks for something new or reports something broken.
#[derive(Clone, Copy, Debug, PartialEq, Eq)]
pub enum EntryType {
    Feature,
    Bug,
}

/// A structured entry, as the component hands it out.
#[derive(Clone, Debug, PartialEq, Eq)]
pub struct Entry {
    pub category: String,
    pub entry_type: EntryType,
    pub title: String,
    pub description: String,
    pub links: Vec<String>,
}

/// An entry as it stands in the planning document: its section and its text.
#[derive(Clone, Debug, PartialEq, Eq)]
pub struct RawEntry {
    pub category: String,
    pub data: String,
}

/// The entry type as the model writes it (`"feature"` or `"bug"`).
#[derive(Clone, Copy, Debug, PartialEq, Eq)]
pub enum ParsedEntryType {
    Feature,
    Bug,
}

/// An entry as the model writes it in JSON.
#[derive(Clone, Debug, PartialEq, Eq)]
pub struct ParsedEntry {
    pub category: String,
    pub entry_type: ParsedEntryType,
    pub title: String,
    pub description: String,
    pub links: Vec<String>,
}

/// The verdict of the verification model.
#[derive(Clone, Debug, PartialEq, Eq)]
pub struct VerificationResult {
    pub result: bool,
    pub reason: Option<String>,
    pub fixed_entry: Option<ParsedEntry>,
}

/// The entry type of a parsed entry type.
pub open spec fn entry_type_of(t: ParsedEntryType) -> EntryType {
    match t {
        ParsedEntryType::Feature => EntryType::Feature,
        ParsedEntryType::Bug => EntryType::Bug,
    }
}

/// The parsed entry type of an entry type.
pub open spec fn parsed_entry_type_of(t: EntryType) -> ParsedEntryType {
    match t {
        EntryType::Feature => ParsedEntryType::Feature,
        EntryType::Bug => ParsedEntryType::Bug,
    }
}

/// The entry that a parsed entry stands for: the same fields.
pub open spec fn entry_of(p: ParsedEntry) -> Entry {
    Entry {
        category: p.category,
        entry_type: entry_type_of(p.entry_type),
        title: p.title,
        description: p.description,
        links: p.links,
    }
}

/// The parsed entry that an entry stands for: the same fields.
pub open spec fn parsed_entry_of(e: Entry) -> ParsedEntry {
    ParsedEntry {
        category: e.category,
        entry_type: parsed_entry_type_of(e.entry_type),
        title: e.title,
        description: e.description,
        links: e.links,
    }
}

impl From<ParsedEntry> for Entry {
    fn from(parsed_entry: ParsedEntry) -> (e: Entry)
        ensures
            e == entry_of(parsed_entry),
            e.category == parsed_entry.category,
            e.title == parsed_entry.title,
            e.description == parsed_entry.description,
            e.links == parsed_entry.links,
            (e.entry_type == EntryType::Feature) <==> (parsed_entry.entry_type
                == ParsedEntryType::Feature),
    {
        Entry {
            category: parsed_entry.category,
            title: parsed_entry.title,
            description: parsed_entry.description,
            links: parsed_entry.links,
            entry_type: match parsed_entry.entry_type {
                ParsedEntryType::Feature => EntryType::Feature,
                ParsedEntryType::Bug => EntryType::Bug,
            },
        }
    }
}

impl vstd::std_specs::convert::FromSpecImpl<ParsedEntry> for Entry {
    open spec fn obeys_from_spec() -> bool {
        true
    }

    open spec fn from_spec(v: ParsedEntry) -> Entry {
        entry_of(v)
    }
}

impl From<Entry> for ParsedEntry {
    fn from(entry: Entry) -> (p: ParsedEntry)
        ensures
            p == parsed_entry_of(entry),
            p.category == entry.category,
            p.title == entry.title,
            p.description == entry.description,
            p.links == entry.links,
            (p.entry_type == ParsedEntryType::Feature) <==> (entry.entry_type
                == EntryType::Feature),
    {
        ParsedEntry {
            category: entry.category,
            entry_type: match entry.entry_type {
                EntryType::Feature => ParsedEntryType::Feature,
                EntryType::Bug => ParsedEntryType::Bug,
            },
            title: entry.title,
            description: entry.description,
            links: entry.links,
        }
    }
}

impl vstd::std_specs::convert::FromSpecImpl<Entry> for ParsedEntry {
    open spec fn obeys_from_spec() -> bool {
        true
    }

    open spec fn from_spec(v: Entry) -> ParsedEntry {
        parsed_entry_of(v)
    }
}

/// Turning a parsed entry into an entry and back gives the parsed entry.
pub proof fn lemma_parsed_entry_round_trip(p: ParsedEntry)
    ensures
        parsed_entry_of(entry_of(p)) == p,
{
}

/// Turning an entry into a parsed entry and back gives the entry.
pub proof fn lemma_entry_round_trip(e: Entry)
    ensures
        entry_of(parsed_entry_of(e)) == e,
{
}

/// The user message that asks for the categorization of `raw`.
pub open spec fn categorization_prompt_spec(raw: RawEntry) -> Seq<char> {
    "CATEGORY: "@ + raw.category@ + "\nDATA: "@ + raw.data@
}

/// The user message that asks to check `entry_json` against `raw`.
pub open spec fn verification_prompt_spec(raw: RawEntry, entry_json: Seq<char>) -> Seq<char> {
    "RAW ENTRY CATEGORY: "@ + raw.category@ + "\nRAW ENTRY DATA: "@ + raw.data@
        + "\nENTRY JSON: "@ + entry_json
}

/// The user message that asks for the categorization of `raw`.
pub fn categorization_prompt(raw: &RawEntry) -> (s: String)
    ensures
        s@ == categorization_prompt_spec(*raw),
        s@ == "CATEGORY: "@ + raw.category@ + "\nDATA: "@ + raw.data@,
{
    let mut s = "CATEGORY: ".to_string();
    s.append(raw.category.as_str());
    s.append("\nDATA: ");
    s.append(raw.data.as_str());
    s
}

/// The user message that asks to check an entry, written as the JSON text
/// `entry_json`, against the raw entry it was made from.
pub fn verification_prompt(raw: &RawEntry, entry_json: &str) -> (s: String)
    ensures
        s@ == verification_prompt_spec(*raw, entry_json@),
        s@ == "RAW ENTRY CATEGORY: "@ + raw.category@ + "\nRAW ENTRY DATA: "@ + raw.data@
            + "\nENTRY JSON: "@ + entry_json@,
{
    let mut s = "RAW ENTRY CATEGORY: ".to_string();
    s.append(raw.category.as_str());
    s.append("\nRAW ENTRY DATA: ");
    s.append(raw.data.as_str());
    s.append("\nENTRY JSON: ");
    s.append(entry_json);
    s
}

/// The model that categorizes entries.
pub open spec fn categorization_model() -> Seq<char> {
    "gpt-3.5-turbo"@
}

/// The model that checks categorized entries.
pub open spec fn verification_model() -> Seq<char> {
    "gpt-4o"@
}

/// The chat request that asks for the categorization of `raw`: the
/// categorization instructions, then the categorization prompt, to
/// `gpt-3.5-turbo` at temperature 0.7, not streamed.
pub fn categorization_request(raw: &RawEntry) -> (r: OpenAIRequest)
    ensures
        r.model@ == categorization_model(),
        r.messages@.len() == 2,
        r.messages@[0].role@ == system_role(),
        r.messages@[0].content@ == categorization_instructions(),
        r.messages@[1].role@ == user_role(),
        r.messages@[1].content@ == categorization_prompt_spec(*raw),
        r.messages@[1].content@ == "CATEGORY: "@ + raw.category@ + "\nDATA: "@ + raw.data@,
        !r.stream,
        r.temperature_bits == TEMPERATURE_0_7_BITS,
{
    OpenAIRequest::new_system_and_user(
        "gpt-3.5-turbo".to_string(),
        context(),
        categorization_prompt(raw),
        false,
        TEMPERATURE_0_7_BITS,
    )
}

/// The chat request that asks to check `entry_json` against `raw`: the
/// verification instructions, then the verification prompt, to `gpt-4o` at
/// temperature 0.7, not streamed.
pub fn verification_request(raw: &RawEntry, entry_json: &str) -> (r: OpenAIRequest)
    ensures
        r.model@ == verification_model(),
        r.messages@.len() == 2,
        r.messages@[0].role@ == system_role(),
        r.messages@[0].content@ == verification_instructions(),
        r.messages@[1].role@ == user_role(),
        r.messages@[1].content@ == verification_prompt_spec(*raw, entry_json@),
        r.messages@[1].content@ == "RAW ENTRY CATEGORY: "@ + raw.category@ + "\nRAW ENTRY DATA: "@
            + raw.data@ + "\nENTRY JSON: "@ + entry_json@,
        !r.stream,
        r.temperature_bits == TEMPERATURE_0_7_BITS,
{
    OpenAIRequest::new_system_and_user(
        "gpt-4o".to_string(),
        verification_context(),
        verification_prompt(raw, entry_json),
        false,
        TEMPERATURE_0_7_BITS,
    )
}

/// The error when the verification fails without a corrected entry.
pub open spec fn no_fix_error() -> Seq<char> {
    "Verification failed and no proposed fixed entry"@
}

/// The entry that a verification verdict leaves: the checked entry when the
/// verdict approves it, else the corrected entry that the verdict proposes,
/// else an error.
pub fn apply_verification(entry: Entry, verdict: VerificationResult) -> (r: Result<Entry, String>)
    ensures
        verdict.result ==> r == Ok::<Entry, String>(entry),
        !verdict.result && verdict.fixed_entry is Some ==> r == Ok::<Entry, String>(
            entry_of(verdict.fixed_entry->0),
        ),
        !verdict.result && verdict.fixed_entry is None ==> (r matches Err(e) && e@
            == no_fix_error()),
{
    if verdict.result {
        Ok(entry)
    } else {
        match verdict.fixed_entry {
            Some(fixed_entry) => Ok(Entry::from(fixed_entry)),
            None => Err("Verification failed and no proposed fixed entry".to_string()),
        }
    }
}

/// The outcome of a categorization reply once decoded: the entry that the
/// decoded parsed entry stands for, or the decoding error.
pub fn entry_from_reply(parsed: Result<ParsedEntry, String>) -> (r: Result<Entry, String>)
    ensures
        parsed matches Ok(p) ==> r == Ok::<Entry, String>(entry_of(p)),
        parsed matches Err(e) ==> r == Err::<Entry, String>(e),
{
    match parsed {
        Ok(p) => Ok(Entry::from(p)),
        Err(e) => Err(e),
    }
}

/// The outcome of a verification reply once decoded: the decoding error, or
/// what the decoded verdict leaves of `entry` (see `apply_verification`).
pub fn resolve_verification(entry: Entry, verdict: Result<VerificationResult, String>) -> (r: Result<
    Entry,
    String,
>)
    ensures
        verdict matches Err(e) ==> r == Err::<Entry, String>(e),
        verdict matches Ok(v) ==> {
            &&& v.result ==> r == Ok::<Entry, String>(entry)
            &&& !v.result && v.fixed_entry is Some ==> r == Ok::<Entry, String>(
                entry_of(v.fixed_entry->0),
            )
            &&& !v.result && v.fixed_entry is None ==> (r matches Err(e) && e@ == no_fix_error())
        },
{
    match verdict {
        Ok(v) => apply_verification(entry, v),
        Err(e) => Err(e),
    }
}

/// Converting a parsed entry keeps every field in its place: the category,
/// title, description and links are the parsed entry's own, and a feature
/// stays a feature and a bug a bug.
pub proof fn lemma_entry_of_fields(p: ParsedEntry)
    ensures
        entry_of(p).category == p.category,
        entry_of(p).title == p.title,
        entry_of(p).description == p.description,
        entry_of(p).links == p.links,
        p.entry_type == ParsedEntryType::Feature ==> entry_of(p).entry_type == EntryType::Feature,
        p.entry_type == ParsedEntryType::Bug ==> entry_of(p).entry_type == EntryType::Bug,
{
}

/// Converting an entry keeps every field in its place: the category, title,
/// description and links are the entry's own, and a feature stays a feature
/// and a bug a bug.
pub proof fn lemma_parsed_entry_of_fields(e: Entry)
    ensures
        parsed_entry_of(e).category == e.category,
        parsed_entry_of(e).title == e.title,
        parsed_entry_of(e).description == e.description,
        parsed_entry_of(e).links == e.links,
        e.entry_type == EntryType::Feature ==> parsed_entry_of(e).entry_type
            == ParsedEntryType::Feature,
        e.entry_type == EntryType::Bug ==> parsed_entry_of(e).entry_type == ParsedEntryType::Bug,
{
}

/// The categorization prompt is "CATEGORY: ", the category, "\nDATA: " and
/// the whole data of the raw entry; in particular it ends with the data.
pub proof fn lemma_categorization_prompt_parts(raw: RawEntry)
    ensures
        categorization_prompt_spec(raw) == "CATEGORY: "@ + raw.category@ + "\nDATA: "@
            + raw.data@,
        categorization_prompt_spec(raw).len() == "CATEGORY: "@.len() + raw.category@.len()
            + "\nDATA: "@.len() + raw.data@.len(),
        categorization_prompt_spec(raw).skip(
            categorization_prompt_spec(raw).len() - raw.data@.len(),
        ) == raw.data@,
{
    let p = categorization_prompt_spec(raw);
    assert(p.skip(p.len() - raw.data@.len()) =~= raw.data@);
}

/// The verification prompt is the raw entry's category and data behind their
/// labels, then "\nENTRY JSON: " and the whole entry JSON; in particular it
/// ends with the entry JSON.
pub proof fn lemma_verification_prompt_parts(raw: RawEntry, entry_json: Seq<char>)
    ensures
        verification_prompt_spec(raw, entry_json) == "RAW ENTRY CATEGORY: "@ + raw.category@
            + "\nRAW ENTRY DATA: "@ + raw.data@ + "\nENTRY JSON: "@ + entry_json,
        verification_prompt_spec(raw, entry_json).skip(
            verification_prompt_spec(raw, entry_json).len() - entry_json.len(),
        ) == entry_json,
{
    let p = verification_prompt_spec(raw, entry_json);
    assert(p.skip(p.len() - entry_json.len()) =~= entry_json);
}

/// Entries are categorized by `gpt-3.5-turbo` and checked by `gpt-4o`; a
/// rejected entry without a fix gives "Verification failed and no proposed fixed entry"; the categorization
/// and verification instructions are the full texts, of 993 and 936
/// characters.
pub proof fn lemma_categorizer_names()
    ensures
        categorization_model() == seq!['g', 'p', 't', '-', '3', '.', '5', '-', 't', 'u', 'r', 'b', 'o'],
        verification_model() == seq!['g', 'p', 't', '-', '4', 'o'],
        no_fix_error() == seq!['V', 'e', 'r', 'i', 'f', 'i', 'c', 'a', 't', 'i', 'o', 'n', ' ', 'f', 'a', 'i', 'l', 'e', 'd', ' ', 'a', 'n', 'd', ' ', 'n', 'o', ' ', 'p', 'r', 'o', 'p', 'o', 's', 'e', 'd', ' ', 'f', 'i', 'x', 'e', 'd', ' ', 'e', 'n', 't', 'r', 'y'],
        categorization_instructions().len() == 993,
        verification_instructions().len() == 936,
{
    reveal_strlit("gpt-3.5-turbo");
    reveal_strlit("gpt-4o");
    reveal_strlit("Verification failed and no proposed fixed entry");
    reveal_strlit("You are a helpful assistant. Your role is to categorize an entry inferring more precise information from its description. Return me a JSON object containing keys: 'category' (string), which is the same as the 'category' key in input, 'entry_type' (enum: 'feature', 'bug'), which identifies if this is a feature or a bug; 'title' (string), which contains a short bug meaningful description of what is described; 'description' (string), which contains all data that you got, but well formatted in markdown and spell-checked; 'links' (list of strings), which should contain all links present in the data that you received. Pay attention to not change the meaning of what is described. The JSON can be compact, with no extra characters added. It's very important that you return me only a valid JSON structure, don't return any markdown prefix and don't anny any extra space or newline characters, because I will have to parse your response in JSON directly so it should be very clean and compact.");
    reveal_strlit("You are a helpful assistant. Your role is to verify that all the data in the provided entry is consistent with the data in the raw entry. You can return me a JSON object with three fields: 'result' (boolean), which indicates the result of the verification and the 'reason' (string), which contains the reason of the failure if the result is false or null if the result is true and 'fixed_entry' (object), null if the verification result is true, otherwise having exactly the same structure of the input JSON entry, but fixed according to the verification reason. Pay attention to not change the meaning of what is described. The JSON can be compact, with no extra characters added. It's very important that you return me only a valid JSON structure, don't return any markdown prefix and don't anny any extra space or newline characters, because I will have to parse your response in JSON directly so it should be very clean and compact.");
    assert(categorization_model() =~= seq!['g', 'p', 't', '-', '3', '.', '5', '-', 't', 'u', 'r', 'b', 'o']);
    assert(verification_model() =~= seq!['g', 'p', 't', '-', '4', 'o']);
    assert(no_fix_error() =~= seq!['V', 'e', 'r', 'i', 'f', 'i', 'c', 'a', 't', 'i', 'o', 'n', ' ', 'f', 'a', 'i', 'l', 'e', 'd', ' ', 'a', 'n', 'd', ' ', 'n', 'o', ' ', 'p', 'r', 'o', 'p', 'o', 's', 'e', 'd', ' ', 'f', 'i', 'x', 'e', 'd', ' ', 'e', 'n', 't', 'r', 'y']);
}

} // verus!
