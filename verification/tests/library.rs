use golem_ai::analyzer::{self, analysis_request, analysis_result, categorize_entries, CategoryWithData};
use golem_ai::categorizer::{
    self, apply_verification, categorization_prompt, entry_from_reply, resolve_verification, categorization_request, verification_prompt,
    verification_request, Entry, EntryType, ParsedEntry, ParsedEntryType, RawEntry,
    VerificationResult,
};
use golem_ai::common::{
    bearer_authorization, ollama_request, OpenAIChatCompletionRequestMessage,
    OpenAIChatCompletionResponseChoice, OpenAIChatCompletionResponseMessage, OpenAIRequest,
    OpenAIResponse, TEMPERATURE_0_7_BITS,
};
use golem_ai::pending::{drop_ready, PendingCalls};
use golem_ai::text::{is_whitespace, json_payload, trim, unfenced};
use golem_ai::worker::{self, Context, HistoryEntry};
use golem_ai::common::OllamaResponse;

fn parsed(entry_type: ParsedEntryType) -> ParsedEntry {
    ParsedEntry {
        category: "Critical bugs".to_string(),
        entry_type,
        title: "Crash".to_string(),
        description: "It crashes".to_string(),
        links: vec!["https://example.com/1".to_string()],
    }
}

fn reply(content: &str) -> OllamaResponse {
    OllamaResponse {
        model: "gemma3".to_string(),
        response: content.to_string(),
        created_at: "2025-04-02T09:40:14.256108802Z".to_string(),
        done: true,
        done_reason: "stop".to_string(),
    }
}

#[test]
fn categorizer_contexts_are_the_instructions() {
    let c = categorizer::context();
    assert!(c.starts_with("You are a helpful assistant. Your role is to categorize an entry"));
    assert!(c.ends_with("so it should be very clean and compact."));
    assert!(c.contains("'entry_type' (enum: 'feature', 'bug')"));
    assert_eq!(c.len(), 993);
    let v = categorizer::verification_context();
    assert!(v.starts_with("You are a helpful assistant. Your role is to verify that all the data"));
    assert!(v.contains("'fixed_entry' (object)"));
    assert_eq!(v.len(), 936);
}

#[test]
fn analyzer_and_worker_contexts_are_the_instructions() {
    let a = analyzer::context();
    assert!(a.starts_with("You are a helpful assistant. Your role is to read and extract all the entries present in a Notion document"));
    assert_eq!(a.len(), 1017);
    assert_eq!(
        worker::context(),
        "You are a helpful assistant. Your role is to read and extract all the entries in a notion document"
    );
}

#[test]
fn message_constructors_set_role_and_content() {
    let m = OpenAIChatCompletionRequestMessage::new("assistant".to_string(), "hi".to_string());
    assert_eq!(m.role, "assistant");
    assert_eq!(m.content, "hi");
    let u = OpenAIChatCompletionRequestMessage::new_user("question".to_string());
    assert_eq!(u.role, "user");
    assert_eq!(u.content, "question");
    let s = OpenAIChatCompletionRequestMessage::new_system("rules".to_string());
    assert_eq!(s.role, "system");
    assert_eq!(s.content, "rules");
}

#[test]
fn request_constructors_keep_their_parts() {
    let r = OpenAIRequest::new(
        "gpt-4".to_string(),
        vec![OpenAIChatCompletionRequestMessage::new_user("x".to_string())],
        true,
        7,
    );
    assert_eq!(r.model, "gpt-4");
    assert_eq!(r.messages.len(), 1);
    assert!(r.stream);
    assert_eq!(r.temperature_bits, 7);
    let r = OpenAIRequest::new_system_and_user(
        "gpt-3.5-turbo".to_string(),
        "You are a poetic assistant.".to_string(),
        "Write a short poem about AI.".to_string(),
        false,
        TEMPERATURE_0_7_BITS,
    );
    assert_eq!(r.messages.len(), 2);
    assert_eq!(r.messages[0].role, "system");
    assert_eq!(r.messages[0].content, "You are a poetic assistant.");
    assert_eq!(r.messages[1].role, "user");
    assert_eq!(r.messages[1].content, "Write a short poem about AI.");
    assert!(!r.stream);
}

#[test]
fn temperature_bits_are_those_of_0_7() {
    assert_eq!(f32::from_bits(TEMPERATURE_0_7_BITS), 0.7f32);
}

#[test]
fn get_message_takes_the_first_choice() {
    let mut response = OpenAIResponse {
        id: "chatcmpl-BIAN9cIYZ4HlPhVdjCNTErEWSm5k6".to_string(),
        model: "gpt-3.5-turbo-0125".to_string(),
        object: "chat.completion".to_string(),
        choices: vec![],
    };
    assert_eq!(response.get_message(), None);
    assert_eq!(response.get_message_or_err(), Err("No message in the response".to_string()));
    for (i, text) in ["first", "second"].iter().enumerate() {
        response.choices.push(OpenAIChatCompletionResponseChoice {
            index: i,
            message: OpenAIChatCompletionResponseMessage {
                role: "assistant".to_string(),
                content: text.to_string(),
            },
            finish_reason: "stop".to_string(),
        });
    }
    assert_eq!(response.get_message(), Some("first".to_string()));
    assert_eq!(response.get_message_or_err(), Ok("first".to_string()));
}

#[test]
fn ollama_request_asks_gemma3_without_streaming() {
    let r = ollama_request("tell me something about golem cloud".to_string());
    assert_eq!(r.model, "gemma3");
    assert_eq!(r.prompt, "tell me something about golem cloud");
    assert!(!r.stream);
}

#[test]
fn bearer_authorization_prefixes_the_key() {
    assert_eq!(bearer_authorization("API_KEY"), "Bearer API_KEY");
    assert_eq!(bearer_authorization(""), "Bearer ");
}

#[test]
fn trim_removes_unicode_whitespace_at_both_ends() {
    assert_eq!(trim("  \t\n{\"a\": 1}\r\n "), "{\"a\": 1}");
    assert_eq!(trim("\u{3000}\u{a0}x y\u{2029}\u{85}"), "x y");
    assert_eq!(trim(" \u{2003} "), "");
    assert_eq!(trim(""), "");
    assert_eq!(trim("\u{200b}x"), "\u{200b}x");
    for s in ["  a b  ", "\u{2000}\u{200a}z\u{202f}", "\u{1680}q\u{205f}", "\u{b}\u{c}w\u{1c}"] {
        assert_eq!(trim(s), s.trim());
    }
}

#[test]
fn is_whitespace_agrees_with_std() {
    for u in 0u32..0x3100 {
        if let Some(c) = char::from_u32(u) {
            assert_eq!(is_whitespace(c), c.is_whitespace(), "{:x}", u);
        }
    }
}

#[test]
fn unfenced_needs_both_fences() {
    assert_eq!(unfenced("```json{\"result\":true}```"), "{\"result\":true}");
    assert_eq!(unfenced("```json```"), "");
    assert_eq!(unfenced("```json{}``"), "```json{}``");
    assert_eq!(unfenced("{}```"), "{}```");
    assert_eq!(unfenced("```js{}```"), "```js{}```");
    assert_eq!(unfenced(" ```json{}```"), " ```json{}```");
}

#[test]
fn json_payload_of_fenced_replies() {
    assert_eq!(
        json_payload("```json{\"result\":true,\"reason\":null}```"),
        "{\"result\":true,\"reason\":null}"
    );
    assert_eq!(
        json_payload("```json{\"result\":false,\"reason\":\"Test\"}```"),
        "{\"result\":false,\"reason\":\"Test\"}"
    );
    assert_eq!(json_payload("```json\n[{\"a\":1}]\n```"), "[{\"a\":1}]");
    assert_eq!(json_payload("  [1, 2]\n"), "[1, 2]");
    let long = r#"```json{"category":"Critical missing features","entry_type": "feature","links": ["https://github.com/golemcloud/golem/pull/1432"]}```"#;
    assert_eq!(
        json_payload(long),
        r#"{"category":"Critical missing features","entry_type": "feature","links": ["https://github.com/golemcloud/golem/pull/1432"]}"#
    );
}

#[test]
fn entry_conversions_round_trip() {
    for t in [ParsedEntryType::Feature, ParsedEntryType::Bug] {
        let p = parsed(t);
        let e = Entry::from(p.clone());
        assert_eq!(e.category, p.category);
        assert_eq!(e.title, p.title);
        assert_eq!(e.description, p.description);
        assert_eq!(e.links, p.links);
        assert_eq!(
            e.entry_type,
            if t == ParsedEntryType::Feature { EntryType::Feature } else { EntryType::Bug }
        );
        assert_eq!(ParsedEntry::from(e), p);
    }
}

#[test]
fn categorization_prompt_and_request() {
    let raw = RawEntry { category: "Critical bugs".to_string(), data: "It crashes".to_string() };
    assert_eq!(categorization_prompt(&raw), "CATEGORY: Critical bugs\nDATA: It crashes");
    let r = categorization_request(&raw);
    assert_eq!(r.model, "gpt-3.5-turbo");
    assert_eq!(r.messages[0].role, "system");
    assert_eq!(r.messages[0].content, categorizer::context());
    assert_eq!(r.messages[1].role, "user");
    assert_eq!(r.messages[1].content, "CATEGORY: Critical bugs\nDATA: It crashes");
    assert!(!r.stream);
    assert_eq!(r.temperature_bits, 0.7f32.to_bits());
}

#[test]
fn verification_prompt_and_request() {
    let raw = RawEntry { category: "Critical bugs".to_string(), data: "It crashes".to_string() };
    let json = "{\"category\":\"Critical bugs\"}";
    let expected =
        "RAW ENTRY CATEGORY: Critical bugs\nRAW ENTRY DATA: It crashes\nENTRY JSON: {\"category\":\"Critical bugs\"}";
    assert_eq!(verification_prompt(&raw, json), expected);
    let r = verification_request(&raw, json);
    assert_eq!(r.model, "gpt-4o");
    assert_eq!(r.messages[0].content, categorizer::verification_context());
    assert_eq!(r.messages[1].content, expected);
    assert_eq!(r.temperature_bits, 0.7f32.to_bits());
}

#[test]
fn approved_entry_is_kept() {
    let entry = Entry::from(parsed(ParsedEntryType::Bug));
    let verdict = VerificationResult { result: true, reason: None, fixed_entry: None };
    assert_eq!(apply_verification(entry.clone(), verdict), Ok(entry));
}

#[test]
fn rejected_entry_is_replaced_by_the_fix() {
    let entry = Entry::from(parsed(ParsedEntryType::Bug));
    let fix = parsed(ParsedEntryType::Feature);
    let verdict = VerificationResult {
        result: false,
        reason: Some("it is a feature".to_string()),
        fixed_entry: Some(fix.clone()),
    };
    assert_eq!(apply_verification(entry, verdict), Ok(Entry::from(fix)));
}

#[test]
fn rejected_entry_without_fix_is_an_error() {
    let entry = Entry::from(parsed(ParsedEntryType::Bug));
    let verdict =
        VerificationResult { result: false, reason: Some("Test".to_string()), fixed_entry: None };
    assert_eq!(
        apply_verification(entry, verdict),
        Err("Verification failed and no proposed fixed entry".to_string())
    );
}

#[test]
fn analysis_request_carries_the_document() {
    let r = analysis_request("# Golem 1.2".to_string());
    assert_eq!(r.model, "gpt-3.5-turbo");
    assert_eq!(r.messages[0].content, analyzer::context());
    assert_eq!(r.messages[1].role, "user");
    assert_eq!(r.messages[1].content, "# Golem 1.2");
    assert_eq!(r.temperature_bits, 0.7f32.to_bits());
}

#[test]
fn category_with_data_becomes_a_raw_entry() {
    let c = CategoryWithData { category: "Critical bugs".to_string(), data: "x".to_string() };
    let raw = RawEntry::from(c);
    assert_eq!(raw, RawEntry { category: "Critical bugs".to_string(), data: "x".to_string() });
}

#[test]
fn categorize_entries_calls_once_per_entry_in_order() {
    let entries = vec![
        CategoryWithData { category: "A".to_string(), data: "one".to_string() },
        CategoryWithData { category: "B".to_string(), data: "two".to_string() },
        CategoryWithData { category: "C".to_string(), data: "fail".to_string() },
    ];
    let seen = std::cell::RefCell::new(Vec::new());
    let results = categorize_entries(entries, |raw: &RawEntry| {
        seen.borrow_mut().push(raw.clone());
        if raw.data == "fail" {
            Err(format!("cannot categorize {}", raw.category))
        } else {
            Ok(Entry {
                category: raw.category.clone(),
                entry_type: EntryType::Feature,
                title: raw.data.clone(),
                description: String::new(),
                links: vec![],
            })
        }
    });
    assert_eq!(results.len(), 3);
    assert_eq!(results[0].as_ref().unwrap().title, "one");
    assert_eq!(results[1].as_ref().unwrap().category, "B");
    assert_eq!(results[2], Err("cannot categorize C".to_string()));
    let seen = seen.into_inner();
    assert_eq!(seen.len(), 3);
    assert_eq!(seen[2], RawEntry { category: "C".to_string(), data: "fail".to_string() });
    assert!(categorize_entries(vec![], |_r: &RawEntry| Err(String::new())).is_empty());
}

#[test]
fn drop_ready_removes_listed_positions() {
    assert_eq!(drop_ready(&vec![10, 11, 12, 13, 14], &vec![3, 0]), vec![11, 12, 14]);
    assert_eq!(drop_ready(&vec!['a', 'b'], &vec![]), vec!['a', 'b']);
    assert_eq!(drop_ready(&vec!['a', 'b'], &vec![1, 0]), Vec::<char>::new());
    assert_eq!(drop_ready(&vec![1, 2], &vec![7]), vec![1, 2]);
}

#[test]
fn pending_calls_complete_in_any_order() {
    let mut calls: PendingCalls<u32> = PendingCalls::new(4);
    assert_eq!(calls.pending_count(), 4);
    assert!(!calls.is_done());
    // Calls 1 and 3 finish first.
    let ready = vec![3, 1];
    assert_eq!(calls.ready_calls(&ready), vec![3, 1]);
    calls.complete(&ready, vec![Ok(30), Err("boom".to_string())]);
    assert_eq!(calls.pending_count(), 2);
    // Pending calls are now 0 and 2; position 1 is call 2.
    let ready = vec![1];
    assert_eq!(calls.ready_calls(&ready), vec![2]);
    calls.complete(&ready, vec![Ok(20)]);
    let ready = vec![0];
    assert_eq!(calls.ready_calls(&ready), vec![0]);
    calls.complete(&ready, vec![Ok(0)]);
    assert!(calls.is_done());
    assert_eq!(
        calls.into_results(),
        vec![Ok(0), Err("boom".to_string()), Ok(20), Ok(30)]
    );
}

#[test]
fn pending_calls_start_not_ready() {
    let calls: PendingCalls<u32> = PendingCalls::new(2);
    assert_eq!(
        calls.into_results(),
        vec![Err("Not ready".to_string()), Err("Not ready".to_string())]
    );
    let empty: PendingCalls<u32> = PendingCalls::new(0);
    assert!(empty.is_done());
}

#[test]
fn worker_prompt_recalls_history() {
    let mut ctx = Context::default();
    assert_eq!(ctx.prompt("hello"), "Context: \nhello: ");
    assert_eq!(ctx.record("hello".to_string(), Ok(reply("Hi there!"))), Ok("Hi there!".to_string()));
    assert_eq!(
        ctx.record("again".to_string(), Err("connection refused".to_string())),
        Err("connection refused".to_string())
    );
    assert_eq!(ctx.record("why".to_string(), Ok(reply("because"))), Ok("because".to_string()));
    assert_eq!(
        ctx.prompt("next"),
        "Context: \nMessage hello: Response: Hi there!\nMessage why: Response: because\nnext: "
    );
    assert_eq!(
        ctx.history(),
        vec![
            HistoryEntry { message: "hello".to_string(), response: "Hi there!".to_string() },
            HistoryEntry { message: "why".to_string(), response: "because".to_string() },
        ]
    );
    assert!(Context::new().history().is_empty());
}

#[test]
fn entry_from_reply_maps_or_passes_the_error() {
    let p = parsed(ParsedEntryType::Feature);
    assert_eq!(entry_from_reply(Ok(p.clone())), Ok(Entry::from(p)));
    assert_eq!(
        entry_from_reply(Err("expected value at line 1 column 1".to_string())),
        Err("expected value at line 1 column 1".to_string())
    );
}

#[test]
fn resolve_verification_passes_decoding_errors() {
    let entry = Entry::from(parsed(ParsedEntryType::Bug));
    assert_eq!(
        resolve_verification(entry.clone(), Err("missing field `result`".to_string())),
        Err("missing field `result`".to_string())
    );
    let ok = VerificationResult { result: true, reason: None, fixed_entry: None };
    assert_eq!(resolve_verification(entry.clone(), Ok(ok)), Ok(entry.clone()));
    let no_fix =
        VerificationResult { result: false, reason: Some("Test".to_string()), fixed_entry: None };
    assert_eq!(
        resolve_verification(entry, Ok(no_fix)),
        Err("Verification failed and no proposed fixed entry".to_string())
    );
}

#[test]
fn analysis_result_returns_the_reply_or_the_error() {
    let found = Ok(vec![CategoryWithData { category: "A".to_string(), data: "x".to_string() }]);
    assert_eq!(analysis_result("[...]".to_string(), &found), Ok("[...]".to_string()));
    let failed: Result<Vec<CategoryWithData>, String> = Err("EOF while parsing".to_string());
    assert_eq!(analysis_result("[".to_string(), &failed), Err("EOF while parsing".to_string()));
}

#[test]
fn concurrent_categorization_matches_blocking() {
    let entries: Vec<CategoryWithData> = (0..5)
        .map(|i| CategoryWithData { category: format!("C{}", i), data: format!("d{}", i) })
        .collect();
    let answer = |raw: &RawEntry| -> Result<Entry, String> {
        if raw.data == "d3" {
            Err("timeout".to_string())
        } else {
            Ok(Entry {
                category: raw.category.clone(),
                entry_type: EntryType::Bug,
                title: raw.data.clone(),
                description: String::new(),
                links: vec![],
            })
        }
    };
    let blocking = categorize_entries(entries.clone(), answer);

    let mut calls: PendingCalls<Entry> = PendingCalls::new(entries.len());
    for report in [vec![4u32, 1], vec![2], vec![0, 1]] {
        let outcomes = calls
            .ready_calls(&report)
            .into_iter()
            .map(|c| answer(&RawEntry::from(entries[c].clone())))
            .collect();
        calls.complete(&report, outcomes);
    }
    assert!(calls.is_done());
    assert_eq!(calls.into_results(), blocking);
}

#[test]
fn fresh_worker_history_is_the_answered_questions() {
    let ctx = Context::new();
    assert!(ctx.history().is_empty());
    let mut ctx = Context::new();
    let _ = ctx.record("a".to_string(), Err("down".to_string()));
    let _ = ctx.record("b".to_string(), Err("down".to_string()));
    assert!(ctx.history().is_empty());
    let _ = ctx.record("c".to_string(), Ok(reply("yes")));
    assert_eq!(
        ctx.history(),
        vec![HistoryEntry { message: "c".to_string(), response: "yes".to_string() }]
    );
}
