//! Reading a reply: the upstream error envelope and the generated text in
//! either of the two layouts.

use crate::json::{parsed_json, views_of, Json, JsonValue};
use vstd::prelude::*;
use vstd::string::StringExecFns;

verus! {

/// Why a call failed.
#[derive(Debug)]
pub enum Error {
    /// The exchange with the server could not be completed.
    Transport(String),
    /// The reply's body is not JSON.
    MalformedResponse,
    /// The server answered with a failing status and an error message.
    Upstream(String),
}

/// The mathematical value of an [`Error`].
pub enum Failure {
    Transport(Seq<char>),
    MalformedResponse,
    Upstream(Seq<char>),
}

impl View for Error {
    type V = Failure;

    open spec fn view(&self) -> Failure {
        match self {
            Error::Transport(detail) => Failure::Transport(detail@),
            Error::MalformedResponse => Failure::MalformedResponse,
            Error::Upstream(message) => Failure::Upstream(message@),
        }
    }
}

/// The description shown for a failure.
pub open spec fn failure_description(failure: Failure) -> Seq<char> {
    match failure {
        Failure::Transport(detail) => "HTTP request failed: "@ + detail,
        Failure::MalformedResponse => "unable to read HTTP response body"@,
        Failure::Upstream(message) => message,
    }
}

impl Error {
    /// Describes the failure; for an upstream error this is the server's
    /// message, word for word.
    pub fn description(&self) -> (text: String)
        ensures
            text@ == failure_description(self@),
    {
        match self {
            Error::Transport(detail) => String::from_str("HTTP request failed: ").concat(
                detail.as_str(),
            ),
            Error::MalformedResponse => String::from_str("unable to read HTTP response body"),
            Error::Upstream(message) => message.clone(),
        }
    }
}

/// The texts of a list of strings, element by element.
pub open spec fn texts_of(strings: Seq<String>) -> Seq<Seq<char>> {
    Seq::new(strings.len(), |i: int| strings[i]@)
}

/// The mathematical value of what a call returns.
pub open spec fn outcome_of(result: Result<Vec<String>, Error>) -> Result<Seq<Seq<char>>, Failure> {
    match result {
        Ok(fragments) => Ok(texts_of(fragments@)),
        Err(error) => Err(error@),
    }
}

/// Whether an HTTP status reports success: the codes 200 to 299.
pub open spec fn status_is_success(status: u16) -> bool {
    200 <= status < 300
}

/// Whether the member `key` is there and is not exactly the string
/// `expected`. A member that holds anything but a string, `null` included,
/// is there and is not that string; only an absent member does not count.
pub open spec fn names_other(value: JsonValue, key: Seq<char>, expected: Seq<char>) -> bool {
    match value.member(key) {
        Some(found) => found.as_text() != Some(expected),
        None => false,
    }
}

/// The message of the error envelope, `error.message`, where it is a string.
pub open spec fn upstream_message(doc: JsonValue) -> Option<Seq<char>> {
    match doc.member("error"@) {
        Some(envelope) => envelope.text_at("message"@),
        None => None,
    }
}

/// What one entry of `choices` contributes: the string `message.content`,
/// unless `message.role` is there and is not exactly `assistant`.
pub open spec fn choice_fragment(choice: JsonValue) -> Option<Seq<char>> {
    match choice.member("message"@) {
        Some(message) => if names_other(message, "role"@, "assistant"@) {
            None
        } else {
            message.text_at("content"@)
        },
        None => None,
    }
}

/// The refusal that one entry of `choices` carries in place of content: the
/// string `message.refusal` of an entry that is not skipped and has no
/// string `message.content`.
pub open spec fn choice_refusal(choice: JsonValue) -> Option<Seq<char>> {
    match choice.member("message"@) {
        Some(message) => if names_other(message, "role"@, "assistant"@)
            || message.text_at("content"@).is_some() {
            None
        } else {
            message.text_at("refusal"@)
        },
        None => None,
    }
}

/// What one element of a chunk's `content` contributes: its string `text`,
/// unless its `type` is there and is not exactly `output_text`.
pub open spec fn part_fragment(part: JsonValue) -> Option<Seq<char>> {
    if names_other(part, "type"@, "output_text"@) {
        None
    } else {
        part.text_at("text"@)
    }
}

/// The contributions of a list of elements, in order, each judged by `pick`.
pub open spec fn collect(
    items: Seq<JsonValue>,
    pick: spec_fn(JsonValue) -> Option<Seq<char>>,
) -> Seq<Seq<char>>
    decreases items.len(),
{
    if items.len() == 0 {
        Seq::empty()
    } else {
        let before = collect(items.drop_last(), pick);
        match pick(items.last()) {
            Some(text) => before.push(text),
            None => before,
        }
    }
}

/// The fragments of the `choices` layout.
pub open spec fn chat_fragments(choices: Seq<JsonValue>) -> Seq<Seq<char>> {
    collect(choices, |choice: JsonValue| choice_fragment(choice))
}

/// The refusals of the `choices` layout.
pub open spec fn chat_refusals(choices: Seq<JsonValue>) -> Seq<Seq<char>> {
    collect(choices, |choice: JsonValue| choice_refusal(choice))
}

/// What one chunk of `output` contributes: the fragments of its `content`
/// array, unless its `type` is there and is not exactly `message`, or its
/// `role` is there and is not exactly `assistant`.
pub open spec fn chunk_fragments(chunk: JsonValue) -> Seq<Seq<char>> {
    if names_other(chunk, "type"@, "message"@) || names_other(chunk, "role"@, "assistant"@) {
        Seq::empty()
    } else {
        match chunk.items_at("content"@) {
            Some(parts) => collect(parts, |part: JsonValue| part_fragment(part)),
            None => Seq::empty(),
        }
    }
}

/// The fragments of the `output` layout: those of each chunk, in order.
pub open spec fn output_fragments(chunks: Seq<JsonValue>) -> Seq<Seq<char>>
    decreases chunks.len(),
{
    if chunks.len() == 0 {
        Seq::empty()
    } else {
        output_fragments(chunks.drop_last()) + chunk_fragments(chunks.last())
    }
}

/// The generated text of a reply. An array under `choices` selects the chat
/// layout; failing that, an array under `output` selects the structured
/// layout; a reply with neither holds no text.
pub open spec fn fragments(doc: JsonValue) -> Seq<Seq<char>> {
    match doc.items_at("choices"@) {
        Some(choices) => chat_fragments(choices),
        None => match doc.items_at("output"@) {
            Some(chunks) => output_fragments(chunks),
            None => Seq::empty(),
        },
    }
}

/// The refusals of a reply; only the chat layout carries any.
pub open spec fn refusals(doc: JsonValue) -> Seq<Seq<char>> {
    match doc.items_at("choices"@) {
        Some(choices) => chat_refusals(choices),
        None => Seq::empty(),
    }
}

/// What a parsed reply means: the upstream's message as a failure where the
/// status is failing and the envelope holds one, else the generated text.
pub open spec fn interpretation(status: u16, doc: JsonValue) -> Result<Seq<Seq<char>>, Failure> {
    if !status_is_success(status) && upstream_message(doc).is_some() {
        Err(Failure::Upstream(upstream_message(doc).unwrap()))
    } else {
        Ok(fragments(doc))
    }
}

/// What a reply means, given what parsing its body gave.
pub open spec fn reply_meaning(status: u16, parsed: Option<JsonValue>) -> Result<
    Seq<Seq<char>>,
    Failure,
> {
    match parsed {
        Some(doc) => interpretation(status, doc),
        None => Err(Failure::MalformedResponse),
    }
}

/// Tells whether an HTTP status reports success.
pub fn is_success(status: u16) -> (success: bool)
    ensures
        success == status_is_success(status),
{
    200 <= status && status < 300
}

/// Tells whether the member `key` is there and is not exactly the string
/// `expected`.
fn has_other_name(value: &Json, key: &str, expected: &str) -> (other: bool)
    ensures
        other == names_other(value@, key@, expected@),
{
    match value.member(key) {
        Some(found) => match found.as_text() {
            Some(text) => {
                let wanted = String::from_str(expected);
                !(*text == wanted)
            },
            None => true,
        },
        None => false,
    }
}

/// Appends a copy of `text` to `fragments`.
fn push_copy(fragments: &mut Vec<String>, text: &String)
    ensures
        texts_of(final(fragments)@) == texts_of(old(fragments)@).push(text@),
{
    fragments.push(text.clone());
    assert(texts_of(fragments@) =~= texts_of(old(fragments)@).push(text@));
}

/// Reads the message of the error envelope.
pub fn error_message(doc: &Json) -> (message: Option<&String>)
    ensures
        match message {
            Some(text) => upstream_message(doc@) == Some(text@),
            None => upstream_message(doc@).is_none(),
        },
{
    match doc.member("error") {
        Some(envelope) => envelope.text_at("message"),
        None => None,
    }
}

/// Appends what the entries of `choices` contribute.
fn read_choices(choices: &Vec<Json>, fragments: &mut Vec<String>)
    ensures
        texts_of(final(fragments)@) == texts_of(old(fragments)@) + chat_fragments(
            views_of(choices@),
        ),
{
    let ghost pick = |choice: JsonValue| choice_fragment(choice);
    let ghost all = views_of(choices@);
    let mut i: usize = 0;
    assert(texts_of(fragments@) =~= texts_of(old(fragments)@) + collect(all.take(0), pick));
    while i < choices.len()
        invariant
            i <= choices.len(),
            all == views_of(choices@),
            pick == (|choice: JsonValue| choice_fragment(choice)),
            texts_of(fragments@) == texts_of(old(fragments)@) + collect(all.take(i as int), pick),
        decreases choices.len() - i,
    {
        let ghost before = texts_of(fragments@);
        let choice = &choices[i];
        proof {
            assert(all.take(i + 1).drop_last() =~= all.take(i as int));
            assert(all.take(i + 1).last() == choice@);
        }
        match choice.member("message") {
            Some(message) => {
                if !has_other_name(message, "role", "assistant") {
                    match message.text_at("content") {
                        Some(content) => {
                            push_copy(fragments, content);
                        },
                        None => {},
                    }
                }
            },
            None => {},
        }
        assert(texts_of(fragments@) =~= texts_of(old(fragments)@) + collect(
            all.take(i + 1),
            pick,
        ));
        i += 1;
    }
    assert(all.take(choices.len() as int) =~= all);
}

/// Appends the refusals that the entries of `choices` carry.
fn read_refusals(choices: &Vec<Json>, refused: &mut Vec<String>)
    ensures
        texts_of(final(refused)@) == texts_of(old(refused)@) + chat_refusals(views_of(choices@)),
{
    let ghost pick = |choice: JsonValue| choice_refusal(choice);
    let ghost all = views_of(choices@);
    let mut i: usize = 0;
    assert(texts_of(refused@) =~= texts_of(old(refused)@) + collect(all.take(0), pick));
    while i < choices.len()
        invariant
            i <= choices.len(),
            all == views_of(choices@),
            pick == (|choice: JsonValue| choice_refusal(choice)),
            texts_of(refused@) == texts_of(old(refused)@) + collect(all.take(i as int), pick),
        decreases choices.len() - i,
    {
        let choice = &choices[i];
        proof {
            assert(all.take(i + 1).drop_last() =~= all.take(i as int));
            assert(all.take(i + 1).last() == choice@);
        }
        match choice.member("message") {
            Some(message) => {
                if !has_other_name(message, "role", "assistant") && message.text_at(
                    "content",
                ).is_none() {
                    match message.text_at("refusal") {
                        Some(refusal) => {
                            push_copy(refused, refusal);
                        },
                        None => {},
                    }
                }
            },
            None => {},
        }
        assert(texts_of(refused@) =~= texts_of(old(refused)@) + collect(all.take(i + 1), pick));
        i += 1;
    }
    assert(all.take(choices.len() as int) =~= all);
}

/// Appends what the elements of one chunk's `content` contribute.
fn read_parts(parts: &Vec<Json>, fragments: &mut Vec<String>)
    ensures
        texts_of(final(fragments)@) == texts_of(old(fragments)@) + collect(
            views_of(parts@),
            |part: JsonValue| part_fragment(part),
        ),
{
    let ghost pick = |part: JsonValue| part_fragment(part);
    let ghost all = views_of(parts@);
    let mut i: usize = 0;
    assert(texts_of(fragments@) =~= texts_of(old(fragments)@) + collect(all.take(0), pick));
    while i < parts.len()
        invariant
            i <= parts.len(),
            all == views_of(parts@),
            pick == (|part: JsonValue| part_fragment(part)),
            texts_of(fragments@) == texts_of(old(fragments)@) + collect(all.take(i as int), pick),
        decreases parts.len() - i,
    {
        let part = &parts[i];
        proof {
            assert(all.take(i + 1).drop_last() =~= all.take(i as int));
            assert(all.take(i + 1).last() == part@);
        }
        if !has_other_name(part, "type", "output_text") {
            match part.text_at("text") {
                Some(text) => {
                    push_copy(fragments, text);
                },
                None => {},
            }
        }
        assert(texts_of(fragments@) =~= texts_of(old(fragments)@) + collect(
            all.take(i + 1),
            pick,
        ));
        i += 1;
    }
    assert(all.take(parts.len() as int) =~= all);
}

/// Appends what the chunks of `output` contribute.
fn read_output(chunks: &Vec<Json>, fragments: &mut Vec<String>)
    ensures
        texts_of(final(fragments)@) == texts_of(old(fragments)@) + output_fragments(
            views_of(chunks@),
        ),
{
    let ghost all = views_of(chunks@);
    let mut i: usize = 0;
    assert(texts_of(fragments@) =~= texts_of(old(fragments)@) + output_fragments(all.take(0)));
    while i < chunks.len()
        invariant
            i <= chunks.len(),
            all == views_of(chunks@),
            texts_of(fragments@) == texts_of(old(fragments)@) + output_fragments(
                all.take(i as int),
            ),
        decreases chunks.len() - i,
    {
        let chunk = &chunks[i];
        proof {
            assert(all.take(i + 1).drop_last() =~= all.take(i as int));
            assert(all.take(i + 1).last() == chunk@);
        }
        if !has_other_name(chunk, "type", "message") && !has_other_name(
            chunk,
            "role",
            "assistant",
        ) {
            match chunk.items_at("content") {
                Some(parts) => {
                    read_parts(parts, fragments);
                },
                None => {},
            }
        }
        assert(texts_of(fragments@) =~= texts_of(old(fragments)@) + output_fragments(
            all.take(i + 1),
        ));
        i += 1;
    }
    assert(all.take(chunks.len() as int) =~= all);
}

/// Extracts the generated text of a parsed reply, in upstream order.
pub fn extract(doc: &Json) -> (found: Vec<String>)
    ensures
        texts_of(found@) == fragments(doc@),
{
    let mut found: Vec<String> = Vec::new();
    assert(texts_of(found@) =~= Seq::<Seq<char>>::empty());
    match doc.items_at("choices") {
        Some(choices) => {
            read_choices(choices, &mut found);
            assert(texts_of(found@) =~= fragments(doc@));
        },
        None => match doc.items_at("output") {
            Some(chunks) => {
                read_output(chunks, &mut found);
                assert(texts_of(found@) =~= fragments(doc@));
            },
            None => {},
        },
    }
    found
}

/// Lists the refusals of a parsed reply, in upstream order. They are no
/// part of the generated text and fail no call; a caller may report them.
pub fn list_refusals(doc: &Json) -> (refused: Vec<String>)
    ensures
        texts_of(refused@) == refusals(doc@),
{
    let mut refused: Vec<String> = Vec::new();
    assert(texts_of(refused@) =~= Seq::<Seq<char>>::empty());
    match doc.items_at("choices") {
        Some(choices) => {
            read_refusals(choices, &mut refused);
            assert(texts_of(refused@) =~= refusals(doc@));
        },
        None => {},
    }
    refused
}

/// Interprets a parsed reply: fails with the upstream's message where the
/// status is failing and the error envelope holds one, and returns the
/// generated text otherwise, whatever the status.
pub fn interpret_document(status: u16, doc: &Json) -> (result: Result<Vec<String>, Error>)
    ensures
        outcome_of(result) == interpretation(status, doc@),
{
    if !is_success(status) {
        match error_message(doc) {
            Some(message) => {
                return Err(Error::Upstream(message.clone()));
            },
            None => {},
        }
    }
    Ok(extract(doc))
}

/// Interprets what parsing a reply's body gave: no document is a malformed
/// reply.
pub fn interpret_parsed(status: u16, parsed: Option<Json>) -> (result: Result<Vec<String>, Error>)
    ensures
        outcome_of(result) == reply_meaning(
            status,
            match parsed {
                Some(doc) => Some(doc@),
                None => None,
            },
        ),
{
    match parsed {
        Some(doc) => interpret_document(status, &doc),
        None => Err(Error::MalformedResponse),
    }
}

/// Interprets a reply from its status and the text of its body. A body that
/// is not JSON fails the call under every status.
pub fn interpret(status: u16, body: &str) -> (result: Result<Vec<String>, Error>)
    ensures
        outcome_of(result) == reply_meaning(status, parsed_json(body@)),
        parsed_json(body@).is_none() ==> result matches Err(Error::MalformedResponse),
{
    interpret_parsed(status, Json::parse(body))
}

/// What the transport hands back when the exchange completed.
#[derive(Debug)]
pub struct Reply {
    /// The HTTP status code.
    pub status: u16,
    /// The body, as text.
    pub body: String,
}

/// What became of one exchange with the server.
#[derive(Debug)]
pub enum Exchange {
    /// It could not be completed; the transport's account of why.
    Failed(String),
    /// A reply came, but its body could not be read to the end.
    Unreadable,
    /// A reply came and was read.
    Completed(Reply),
}

/// How a call ends: its result, and the refusals to report beside it.
#[derive(Debug)]
pub struct Conclusion {
    /// The generated text, or why the call failed.
    pub result: Result<Vec<String>, Error>,
    /// The refusals met while reading the text. They fail no call.
    pub refusals: Vec<String>,
}

/// What an exchange means for the call's result.
pub open spec fn exchange_meaning(exchange: Exchange) -> Result<Seq<Seq<char>>, Failure> {
    match exchange {
        Exchange::Failed(detail) => Err(Failure::Transport(detail@)),
        Exchange::Unreadable => Err(Failure::MalformedResponse),
        Exchange::Completed(reply) => reply_meaning(reply.status, parsed_json(reply.body@)),
    }
}

/// The refusals to report for a reply: those of its document where the
/// call succeeds, none where it fails.
pub open spec fn reported_refusals(status: u16, parsed: Option<JsonValue>) -> Seq<Seq<char>> {
    match parsed {
        Some(doc) => if interpretation(status, doc) is Ok {
            refusals(doc)
        } else {
            Seq::empty()
        },
        None => Seq::empty(),
    }
}

/// The refusals to report for an exchange.
pub open spec fn exchange_refusals(exchange: Exchange) -> Seq<Seq<char>> {
    match exchange {
        Exchange::Completed(reply) => reported_refusals(reply.status, parsed_json(reply.body@)),
        _ => Seq::empty(),
    }
}

/// Lists the refusals to report for a parsed reply under its status.
pub fn refusals_to_report(status: u16, doc: &Json) -> (refused: Vec<String>)
    ensures
        texts_of(refused@) == reported_refusals(status, Some(doc@)),
{
    if !is_success(status) && error_message(doc).is_some() {
        let refused: Vec<String> = Vec::new();
        assert(texts_of(refused@) =~= Seq::<Seq<char>>::empty());
        refused
    } else {
        list_refusals(doc)
    }
}

/// Concludes a call from what the transport reported. An exchange that
/// failed fails the call with the transport's account of it; a body that
/// could not be read fails it as a malformed reply; a reply that was read
/// is interpreted from its status and body, and its refusals are listed
/// where the call succeeds.
pub fn conclude(exchange: Exchange) -> (conclusion: Conclusion)
    ensures
        outcome_of(conclusion.result) == exchange_meaning(exchange),
        texts_of(conclusion.refusals@) == exchange_refusals(exchange),
{
    let mut refusals: Vec<String> = Vec::new();
    assert(texts_of(refusals@) =~= Seq::<Seq<char>>::empty());
    match exchange {
        Exchange::Failed(detail) => Conclusion { result: Err(Error::Transport(detail)), refusals },
        Exchange::Unreadable => Conclusion { result: Err(Error::MalformedResponse), refusals },
        Exchange::Completed(reply) => {
            let parsed = Json::parse(reply.body.as_str());
            match &parsed {
                Some(doc) => {
                    refusals = refusals_to_report(reply.status, doc);
                },
                None => {},
            }
            let result = interpret_parsed(reply.status, parsed);
            Conclusion { result, refusals }
        },
    }
}

} // verus!
