//! What holds of every reply read and of every request described.

use crate::json::JsonValue;
use crate::request::request_headers;
use crate::response::{
    chat_fragments, choice_fragment, choice_refusal, chunk_fragments, collect, fragments,
    interpretation, names_other, output_fragments, part_fragment, reply_meaning,
    status_is_success, upstream_message, Failure,
};
use vstd::prelude::*;

verus! {

/// A body that is not JSON fails the call under every status.
pub proof fn lemma_malformed_body_always_fails(status: u16)
    ensures
        reply_meaning(status, None) == Err::<Seq<Seq<char>>, Failure>(Failure::MalformedResponse),
{
}

/// Under a failing status, an error envelope with a message fails the call
/// with that message, whatever else the reply holds.
pub proof fn lemma_upstream_message_overrides_content(
    status: u16,
    doc: JsonValue,
    message: Seq<char>,
)
    requires
        !status_is_success(status),
        upstream_message(doc) == Some(message),
    ensures
        interpretation(status, doc) == Err::<Seq<Seq<char>>, Failure>(Failure::Upstream(message)),
{
}

/// A reply without an error message is read for its text under every
/// status, and a reply with a success status is read whatever its envelope.
pub proof fn lemma_content_is_read_despite_failing_status(status: u16, doc: JsonValue)
    requires
        status_is_success(status) || upstream_message(doc).is_none(),
    ensures
        interpretation(status, doc) == Ok::<Seq<Seq<char>>, Failure>(fragments(doc)),
{
}

/// A reply whose `choices` hold one entry, with string content and a role
/// that is absent or the assistant's, gives exactly that content.
pub proof fn lemma_single_choice_gives_its_content(
    status: u16,
    doc: JsonValue,
    choice: JsonValue,
    message: JsonValue,
    content: Seq<char>,
)
    requires
        status_is_success(status),
        doc.items_at("choices"@) == Some(seq![choice]),
        choice.member("message"@) == Some(message),
        !names_other(message, "role"@, "assistant"@),
        message.text_at("content"@) == Some(content),
    ensures
        interpretation(status, doc) == Ok::<Seq<Seq<char>>, Failure>(seq![content]),
{
    let pick = |entry: JsonValue| choice_fragment(entry);
    let choices = seq![choice];
    assert(choices.drop_last() =~= Seq::<JsonValue>::empty());
    assert(collect(choices.drop_last(), pick) =~= Seq::<Seq<char>>::empty());
    assert(choices.last() == choice);
    assert(collect(choices, pick) =~= seq![content]);
}

/// An entry of `choices` that names another role than the assistant's, or
/// carries no string content, adds nothing: the text is that of the entries
/// before it. A refusal in place of content is such an entry.
pub proof fn lemma_unusable_choice_adds_nothing(choices: Seq<JsonValue>, choice: JsonValue)
    requires
        choice_fragment(choice).is_none(),
    ensures
        chat_fragments(choices.push(choice)) == chat_fragments(choices),
{
    let all = choices.push(choice);
    assert(all.drop_last() =~= choices);
    assert(all.last() == choice);
}

/// An entry of `choices` whose `message.role` is there without being
/// exactly the string `assistant` contributes neither text nor a refusal,
/// whatever it holds: a role that is a number, a flag or `null` is such a
/// role.
pub proof fn lemma_other_role_skips_the_choice(
    choice: JsonValue,
    message: JsonValue,
    role: JsonValue,
)
    requires
        choice.member("message"@) == Some(message),
        message.member("role"@) == Some(role),
        role.as_text() != Some("assistant"@),
    ensures
        choice_fragment(choice).is_none(),
        choice_refusal(choice).is_none(),
{
}

/// A chunk of `output` whose `type` or `role` is there without being
/// exactly the expected word contributes nothing, and neither does an
/// element of `content` with such a `type`.
pub proof fn lemma_other_type_or_role_skips(value: JsonValue, found: JsonValue)
    ensures
        value.member("type"@) == Some(found) && found.as_text() != Some("message"@)
            ==> chunk_fragments(value) == Seq::<Seq<char>>::empty(),
        value.member("role"@) == Some(found) && found.as_text() != Some("assistant"@)
            ==> chunk_fragments(value) == Seq::<Seq<char>>::empty(),
        value.member("type"@) == Some(found) && found.as_text() != Some("output_text"@)
            ==> part_fragment(value).is_none(),
{
}

/// An entry read as a refusal contributes no text.
pub proof fn lemma_refusal_is_no_text(choice: JsonValue)
    requires
        choice_refusal(choice).is_some(),
    ensures
        choice_fragment(choice).is_none(),
{
}

/// A usable entry of `choices` adds its content after the text of the
/// entries before it: upstream order is kept and nothing is merged.
pub proof fn lemma_usable_choice_is_appended(
    choices: Seq<JsonValue>,
    choice: JsonValue,
    content: Seq<char>,
)
    requires
        choice_fragment(choice) == Some(content),
    ensures
        chat_fragments(choices.push(choice)) == chat_fragments(choices).push(content),
{
    let all = choices.push(choice);
    assert(all.drop_last() =~= choices);
    assert(all.last() == choice);
}

/// A reply with an array under neither `choices` nor `output` holds no text.
pub proof fn lemma_no_array_no_text(doc: JsonValue)
    requires
        doc.items_at("choices"@).is_none(),
        doc.items_at("output"@).is_none(),
    ensures
        fragments(doc) == Seq::<Seq<char>>::empty(),
{
}

/// The text of the structured layout is that of its chunks, one after the
/// other.
pub proof fn lemma_output_is_read_chunk_by_chunk(chunks: Seq<JsonValue>, chunk: JsonValue)
    ensures
        output_fragments(chunks.push(chunk)) == output_fragments(chunks) + chunk_fragments(chunk),
{
    let all = chunks.push(chunk);
    assert(all.drop_last() =~= chunks);
    assert(all.last() == chunk);
}

/// A reply without `choices` whose `output` holds one chunk, neither of
/// another type than a message nor of another role than the assistant's,
/// with one element of text under `content`, gives exactly that text.
pub proof fn lemma_single_output_text_gives_its_text(
    status: u16,
    doc: JsonValue,
    chunk: JsonValue,
    part: JsonValue,
    text: Seq<char>,
)
    requires
        status_is_success(status),
        doc.items_at("choices"@).is_none(),
        doc.items_at("output"@) == Some(seq![chunk]),
        !names_other(chunk, "type"@, "message"@),
        !names_other(chunk, "role"@, "assistant"@),
        chunk.items_at("content"@) == Some(seq![part]),
        !names_other(part, "type"@, "output_text"@),
        part.text_at("text"@) == Some(text),
    ensures
        interpretation(status, doc) == Ok::<Seq<Seq<char>>, Failure>(seq![text]),
{
    let pick = |element: JsonValue| part_fragment(element);
    let parts = seq![part];
    assert(parts.drop_last() =~= Seq::<JsonValue>::empty());
    assert(collect(parts.drop_last(), pick) =~= Seq::<Seq<char>>::empty());
    assert(parts.last() == part);
    assert(collect(parts, pick) =~= seq![text]);
    assert(chunk_fragments(chunk) == seq![text]);
    let chunks = seq![chunk];
    assert(chunks.drop_last() =~= Seq::<JsonValue>::empty());
    assert(output_fragments(chunks.drop_last()) =~= Seq::<Seq<char>>::empty());
    assert(chunks.last() == chunk);
    assert(output_fragments(chunks) =~= seq![text]);
}

/// The credential shows in the value of the first header, behind the word
/// `Bearer`, and in no other header: the others are the same for every
/// credential.
pub proof fn lemma_credential_only_in_authorization(secret: Seq<char>, other: Seq<char>)
    ensures
        request_headers(secret).len() == 3,
        request_headers(secret)[0] == ("Authorization"@, "Bearer "@ + secret),
        request_headers(secret)[1] == request_headers(other)[1],
        request_headers(secret)[2] == request_headers(other)[2],
{
}

} // verus!
