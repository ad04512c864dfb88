//! What the sidecar says on its stdout: one JSON object per line, with a `type` and a `payload`.
use vstd::prelude::*;
use vstd::utf8::encode_utf8;

use crate::document::{
    find_member, find_values, is_object_text, items_view, json_document, lemma_json_view, member,
    members_view, optional_json, optional_json_ref, read_json, skim_object, slices_view,
    values_written, Json, JsonView,
};
use crate::text::text_is;

verus! {

/// Payload of a `send_chat_result` notification.
#[derive(Debug, Clone)]
pub struct SendChatResult {
    /// The correlation id of the command that this answers.
    pub request_id: u64,
    pub ok: bool,
    /// The platform's id for an accepted message.
    pub message_id: String,
    pub drop_code: String,
    pub drop_message: String,
    pub error_message: String,
}

/// [`SendChatResult`] as plain values.
pub struct AnswerView {
    pub request_id: u64,
    pub ok: bool,
    pub message_id: Seq<char>,
    pub drop_code: Seq<char>,
    pub drop_message: Seq<char>,
    pub error_message: Seq<char>,
}

impl View for SendChatResult {
    type V = AnswerView;

    open spec fn view(&self) -> AnswerView {
        AnswerView {
            request_id: self.request_id,
            ok: self.ok,
            message_id: self.message_id@,
            drop_code: self.drop_code@,
            drop_message: self.drop_message@,
            error_message: self.error_message@,
        }
    }
}

/// One line of the sidecar's stdout. `B` is what an emote bundle is decoded to. Unknown and
/// malformed lines have variants of their own, so that the caller can log them.
#[derive(Debug)]
pub enum SidecarEvent<B> {
    /// The sidecar is alive.
    Heartbeat,
    /// The emotes of a channel that was joined. Boxed because a bundle is much larger than the
    /// other variants.
    EmoteBundle(Box<B>),
    /// The answer to a command, to be routed by its `request_id`.
    SendChatResult(SendChatResult),
    /// A well-formed message with a type that the host does not know.
    Other(String),
    /// The line is no JSON, or lacks the `{type, payload}` shape.
    Invalid,
}

// ---------------------------------------------------------------------------
// Answers
// ---------------------------------------------------------------------------

/// The parts of a `send_chat_result` payload, each where it is given.
pub struct AnswerParts {
    pub request_id: Option<JsonView>,
    pub ok: Option<JsonView>,
    pub message_id: Option<JsonView>,
    pub drop_code: Option<JsonView>,
    pub drop_message: Option<JsonView>,
    pub error_message: Option<JsonView>,
}

/// A text part: empty where it is left out, no answer at all where it is something else.
pub open spec fn text_part(part: Option<JsonView>) -> Option<Seq<char>> {
    match part {
        None => Some(Seq::empty()),
        Some(JsonView::Text(s)) => Some(s),
        _ => None,
    }
}

/// The correlation id: zero where it is left out.
pub open spec fn id_part(part: Option<JsonView>) -> Option<u64> {
    match part {
        None => Some(0u64),
        Some(JsonView::Number { unsigned, .. }) => unsigned,
        _ => None,
    }
}

/// Whether the send worked, which is never left out.
pub open spec fn flag_part(part: Option<JsonView>) -> Option<bool> {
    match part {
        Some(JsonView::Bool(b)) => Some(b),
        _ => None,
    }
}

/// The answer that the parts make up, if each of them is what it should be.
pub open spec fn answer_of_parts(parts: AnswerParts) -> Option<AnswerView> {
    match (
        id_part(parts.request_id),
        flag_part(parts.ok),
        text_part(parts.message_id),
        text_part(parts.drop_code),
        text_part(parts.drop_message),
        text_part(parts.error_message),
    ) {
        (
            Some(request_id),
            Some(ok),
            Some(message_id),
            Some(drop_code),
            Some(drop_message),
            Some(error_message),
        ) => Some(
            AnswerView { request_id, ok, message_id, drop_code, drop_message, error_message },
        ),
        _ => None,
    }
}

/// The item at `i`, if there is one.
pub open spec fn item(items: Seq<JsonView>, i: int) -> Option<JsonView> {
    if 0 <= i < items.len() {
        Some(items[i])
    } else {
        None
    }
}

/// The answer in a `send_chat_result` payload: an object with the parts as its members, or an
/// array with the parts in their order and nothing after them.
pub open spec fn answer_of(payload: JsonView) -> Option<AnswerView> {
    match payload {
        JsonView::Object(members) => answer_of_parts(
            AnswerParts {
                request_id: member(members, "request_id"@),
                ok: member(members, "ok"@),
                message_id: member(members, "message_id"@),
                drop_code: member(members, "drop_code"@),
                drop_message: member(members, "drop_message"@),
                error_message: member(members, "error_message"@),
            },
        ),
        JsonView::Array(items) => if items.len() <= 6 {
            answer_of_parts(
                AnswerParts {
                    request_id: item(items, 0),
                    ok: item(items, 1),
                    message_id: item(items, 2),
                    drop_code: item(items, 3),
                    drop_message: item(items, 4),
                    error_message: item(items, 5),
                },
            )
        } else {
            None
        },
        _ => None,
    }
}

fn read_text_part(part: Option<&Json>) -> (r: Option<String>)
    ensures
        match text_part(optional_json_ref(part)) {
            Some(s) => r is Some && r->0@ == s,
            None => r is None,
        },
{
    match part {
        None => Some(String::new()),
        Some(Json::Text(s)) => Some(s.clone()),
        Some(_) => None,
    }
}

fn read_id_part(part: Option<&Json>) -> (r: Option<u64>)
    ensures
        r == id_part(optional_json_ref(part)),
{
    match part {
        None => Some(0),
        Some(Json::Number { unsigned, .. }) => *unsigned,
        Some(_) => None,
    }
}

fn read_flag_part(part: Option<&Json>) -> (r: Option<bool>)
    ensures
        r == flag_part(optional_json_ref(part)),
{
    match part {
        Some(Json::Bool(b)) => Some(*b),
        _ => None,
    }
}

fn read_item(items: &Vec<Json>, i: usize) -> (r: Option<&Json>)
    ensures
        optional_json_ref(r) == item(items_view(items@), i as int),
{
    if i < items.len() {
        Some(&items[i])
    } else {
        None
    }
}

/// Reads the payload of a `send_chat_result` notification.
pub fn decode_answer(payload: &Json) -> (r: Option<SendChatResult>)
    ensures
        match answer_of(payload@) {
            Some(answer) => r is Some && r->0@ == answer,
            None => r is None,
        },
{
    proof {
        lemma_json_view(*payload);
    }
    let (request_id, ok, message_id, drop_code, drop_message, error_message) = match payload {
        Json::Object(members) => (
            find_member(members, "request_id"),
            find_member(members, "ok"),
            find_member(members, "message_id"),
            find_member(members, "drop_code"),
            find_member(members, "drop_message"),
            find_member(members, "error_message"),
        ),
        Json::Array(items) => {
            if items.len() > 6 {
                return None;
            }
            (
                read_item(items, 0),
                read_item(items, 1),
                read_item(items, 2),
                read_item(items, 3),
                read_item(items, 4),
                read_item(items, 5),
            )
        },
        _ => return None,
    };
    match (
        read_id_part(request_id),
        read_flag_part(ok),
        read_text_part(message_id),
        read_text_part(drop_code),
        read_text_part(drop_message),
        read_text_part(error_message),
    ) {
        (
            Some(request_id),
            Some(ok),
            Some(message_id),
            Some(drop_code),
            Some(drop_message),
            Some(error_message),
        ) => Some(
            SendChatResult { request_id, ok, message_id, drop_code, drop_message, error_message },
        ),
        _ => None,
    }
}

// ---------------------------------------------------------------------------
// Events
// ---------------------------------------------------------------------------

/// What a line says, before an emote bundle in it is decoded.
pub enum Reading {
    Heartbeat,
    /// An emote bundle, with its payload as it came.
    Bundle(JsonView),
    Answer(AnswerView),
    Other(Seq<char>),
    Invalid,
}

/// What a line with the document `doc` says; `None` where it is no JSON. A line has a type and a
/// payload, which may be `null`; the type decides.
pub open spec fn reading(doc: Option<JsonView>) -> Reading {
    match doc {
        Some(JsonView::Object(members)) => match (
            member(members, "type"@),
            member(members, "payload"@),
        ) {
            (Some(JsonView::Text(msg_type)), Some(payload)) => if msg_type == "heartbeat"@ {
                Reading::Heartbeat
            } else if msg_type == "emote_bundle"@ {
                Reading::Bundle(payload)
            } else if msg_type == "send_chat_result"@ {
                match answer_of(payload) {
                    Some(answer) => Reading::Answer(answer),
                    None => Reading::Invalid,
                }
            } else if msg_type.len() == 0 {
                Reading::Invalid
            } else {
                Reading::Other(msg_type)
            },
            _ => Reading::Invalid,
        },
        _ => Reading::Invalid,
    }
}

/// `event` is what `reading` says, with whatever an emote bundle in it was decoded to.
pub open spec fn tells<B>(event: SidecarEvent<B>, reading: Reading) -> bool {
    match reading {
        Reading::Heartbeat => event is Heartbeat,
        Reading::Bundle(_) => event is EmoteBundle || event is Invalid,
        Reading::Answer(answer) => event matches SidecarEvent::SendChatResult(r) && r@ == answer,
        Reading::Other(t) => event matches SidecarEvent::Other(s) && s@ == t,
        Reading::Invalid => event is Invalid,
    }
}

/// Takes the value of the first member called `name` out of the members.
fn take_member(members: Vec<(String, Json)>, name: &str) -> (r: Option<Json>)
    ensures
        optional_json(r) == member(members_view(members@), name@),
{
    let mut list = members;
    let ghost all = members_view(members@);
    assert(all.skip(0) =~= all);
    let n: usize = list.len();
    let mut i: usize = 0;
    while i < n
        invariant
            i <= n == list@.len(),
            list@ == members@,
            all == members_view(members@),
            member(all, name@) == member(all.skip(i as int), name@),
        decreases n - i,
    {
        assert(all[i as int] == (members@[i as int].0@, members@[i as int].1@));
        if text_is(&list[i].0, name) {
            assert(member(all, name@) == Some(members@[i as int].1@));
            let (_, value) = list.remove(i);
            return Some(value);
        }
        assert(all.skip(i as int).drop_first() =~= all.skip(i + 1));
        i += 1;
    }
    None
}

/// Tells what a line with the document `doc` says. An emote bundle is what `decode_bundle` makes
/// of the payload, and the line is invalid where that is nothing.
pub fn classify_event<B, D>(doc: Option<Json>, decode_bundle: D) -> (r: SidecarEvent<B>) where
    D: FnOnce(Json) -> Option<B>,

    requires
        forall|payload: Json| call_requires(decode_bundle, (payload,)),
    ensures
        tells(r, reading(optional_json(doc))),
        reading(optional_json(doc)) matches Reading::Bundle(p) ==> exists|
            payload: Json,
            decoded: Option<B>,
        | #[trigger]
            call_ensures(decode_bundle, (payload,), decoded) && payload@ == p && match decoded {
                Some(bundle) => r == SidecarEvent::EmoteBundle(Box::new(bundle)),
                None => r is Invalid,
            },
{
    let members = match doc {
        Some(Json::Object(members)) => {
            proof {
                lemma_json_view(Json::Object(members));
            }
            members
        },
        _ => return SidecarEvent::Invalid,
    };
    let msg_type = match find_member(&members, "type") {
        Some(Json::Text(msg_type)) => msg_type.clone(),
        _ => return SidecarEvent::Invalid,
    };
    let payload = match take_member(members, "payload") {
        Some(payload) => payload,
        None => return SidecarEvent::Invalid,
    };
    if text_is(&msg_type, "heartbeat") {
        SidecarEvent::Heartbeat
    } else if text_is(&msg_type, "emote_bundle") {
        match decode_bundle(payload) {
            Some(bundle) => SidecarEvent::EmoteBundle(Box::new(bundle)),
            None => SidecarEvent::Invalid,
        }
    } else if text_is(&msg_type, "send_chat_result") {
        match decode_answer(&payload) {
            Some(answer) => SidecarEvent::SendChatResult(answer),
            None => SidecarEvent::Invalid,
        }
    } else if msg_type.as_str().is_empty() {
        SidecarEvent::Invalid
    } else {
        SidecarEvent::Other(msg_type)
    }
}

/// The ASCII white space: tab, line feed, form feed, carriage return and space.
pub open spec fn is_ascii_space(b: u8) -> bool {
    b == 0x09 || b == 0x0a || b == 0x0c || b == 0x0d || b == 0x20
}

/// `bytes` from the first on that is not white space.
pub open spec fn stripped_start(bytes: Seq<u8>) -> Seq<u8>
    decreases bytes.len(),
{
    if bytes.len() > 0 && is_ascii_space(bytes[0]) {
        stripped_start(bytes.drop_first())
    } else {
        bytes
    }
}

/// `bytes` up to the last that is not white space.
pub open spec fn stripped_end(bytes: Seq<u8>) -> Seq<u8>
    decreases bytes.len(),
{
    if bytes.len() > 0 && is_ascii_space(bytes.last()) {
        stripped_end(bytes.drop_last())
    } else {
        bytes
    }
}

/// A line without the white space at its two ends.
pub open spec fn stripped(bytes: Seq<u8>) -> Seq<u8> {
    stripped_end(stripped_start(bytes))
}

/// The object with the given type and payload and nothing else, both as they were written.
pub open spec fn envelope_text(msg_type: Seq<u8>, payload: Seq<u8>) -> Seq<u8> {
    encode_utf8("{\"type\":"@) + msg_type + encode_utf8(",\"payload\":"@) + payload
        + encode_utf8("}"@)
}

/// The envelope in the text of an object: its type and its payload, each of which it gives exactly
/// once. Whatever else it gives is left behind.
pub open spec fn envelope_in(text: Seq<u8>) -> Option<Seq<u8>> {
    let types = values_written(text, text.len() as int, "type"@);
    let payloads = values_written(text, text.len() as int, "payload"@);
    if types.len() == 1 && payloads.len() == 1 {
        Some(envelope_text(types[0], payloads[0]))
    } else {
        None
    }
}

/// What a line says. White space around the object is tolerated, and of its members only the type
/// and the payload are read.
pub open spec fn line_reading(line: Seq<u8>) -> Reading {
    let text = stripped(line);
    if text.len() == 0 || !is_object_text(text) {
        Reading::Invalid
    } else {
        match envelope_in(text) {
            Some(envelope) => reading(json_document(envelope)),
            None => Reading::Invalid,
        }
    }
}

/// Is `b` ASCII white space?
fn ascii_space(b: u8) -> (r: bool)
    ensures
        r == is_ascii_space(b),
{
    b == 0x09 || b == 0x0a || b == 0x0c || b == 0x0d || b == 0x20
}

/// Takes the white space off the two ends of a line.
pub fn strip(line: &[u8]) -> (r: &[u8])
    ensures
        r@ == stripped(line@),
{
    let mut start: usize = 0;
    assert(line@.skip(0) =~= line@);
    while start < line.len() && ascii_space(line[start])
        invariant
            start <= line@.len(),
            stripped_start(line@) == stripped_start(line@.skip(start as int)),
        decreases line@.len() - start,
    {
        assert(line@.skip(start as int).drop_first() =~= line@.skip(start + 1));
        start += 1;
    }
    assert(stripped_start(line@) == line@.skip(start as int));
    let mut end: usize = line.len();
    assert(line@.subrange(start as int, end as int) =~= line@.skip(start as int));
    while start < end && ascii_space(line[end - 1])
        invariant
            start <= end <= line@.len(),
            stripped(line@) == stripped_end(line@.subrange(start as int, end as int)),
        decreases end,
    {
        assert(line@.subrange(start as int, end as int).drop_last() =~= line@.subrange(
            start as int,
            end - 1,
        ));
        end -= 1;
    }
    vstd::slice::slice_subrange(line, start, end)
}

/// Appends the bytes of `s`.
fn append_text(bytes: &mut Vec<u8>, s: &str)
    ensures
        final(bytes)@ == old(bytes)@ + encode_utf8(s@),
{
    append_bytes(bytes, s.as_bytes());
}

/// Appends `more`.
fn append_bytes(bytes: &mut Vec<u8>, more: &[u8])
    ensures
        final(bytes)@ == old(bytes)@ + more@,
{
    for i in 0..more.len()
        invariant
            bytes@ == old(bytes)@ + more@.take(i as int),
    {
        bytes.push(more[i]);
        assert(bytes@ =~= old(bytes)@ + more@.take(i + 1));
    }
    assert(more@.take(more@.len() as int) =~= more@);
}

/// Takes the envelope out of the text of an object; `None` where it does not give the type and
/// the payload exactly once each.
pub fn take_envelope(text: &[u8]) -> (r: Option<Vec<u8>>)
    ensures
        match envelope_in(text@) {
            Some(envelope) => r is Some && r->0@ == envelope,
            None => r is None,
        },
{
    let types = find_values(text, "type");
    let payloads = find_values(text, "payload");
    assert(slices_view(types@).len() == types@.len());
    assert(slices_view(payloads@).len() == payloads@.len());
    if types.len() != 1 || payloads.len() != 1 {
        return None;
    }
    assert(slices_view(types@)[0] == types@[0]@);
    assert(slices_view(payloads@)[0] == payloads@[0]@);
    let mut envelope: Vec<u8> = Vec::new();
    append_text(&mut envelope, "{\"type\":");
    append_bytes(&mut envelope, types[0]);
    append_text(&mut envelope, ",\"payload\":");
    append_bytes(&mut envelope, payloads[0]);
    append_text(&mut envelope, "}");
    assert(envelope@ =~= envelope_text(types@[0]@, payloads@[0]@));
    Some(envelope)
}

/// Reads one line of the sidecar's stdout. Members beside the type and the payload are stepped
/// over.
pub fn parse_sidecar_event<B, D>(bytes: &[u8], decode_bundle: D) -> (r: SidecarEvent<B>) where
    D: FnOnce(Json) -> Option<B>,

    requires
        forall|payload: Json| call_requires(decode_bundle, (payload,)),
    ensures
        tells(r, line_reading(bytes@)),
        line_reading(bytes@) matches Reading::Bundle(p) ==> exists|
            payload: Json,
            decoded: Option<B>,
        | #[trigger]
            call_ensures(decode_bundle, (payload,), decoded) && payload@ == p && match decoded {
                Some(bundle) => r == SidecarEvent::EmoteBundle(Box::new(bundle)),
                None => r is Invalid,
            },
{
    let line = strip(bytes);
    if line.len() == 0 || !skim_object(line) {
        return SidecarEvent::Invalid;
    }
    match take_envelope(line) {
        Some(envelope) => classify_event(read_json(envelope.as_slice()), decode_bundle),
        None => SidecarEvent::Invalid,
    }
}

// ---------------------------------------------------------------------------
// Laws
// ---------------------------------------------------------------------------

/// Nothing but ASCII white space.
pub open spec fn is_space(bytes: Seq<u8>) -> bool {
    forall|i: int| 0 <= i < bytes.len() ==> is_ascii_space(bytes[i])
}

proof fn lemma_stripped_start_after_space(before: Seq<u8>, bytes: Seq<u8>)
    requires
        is_space(before),
    ensures
        stripped_start(before + bytes) == stripped_start(bytes),
    decreases before.len(),
{
    if before.len() == 0 {
        assert(before + bytes =~= bytes);
    } else {
        lemma_stripped_start_after_space(before.drop_first(), bytes);
        assert((before + bytes).drop_first() =~= before.drop_first() + bytes);
    }
}

proof fn lemma_stripped_end_before_space(bytes: Seq<u8>, after: Seq<u8>)
    requires
        is_space(after),
    ensures
        stripped_end(bytes + after) == stripped_end(bytes),
    decreases after.len(),
{
    if after.len() == 0 {
        assert(bytes + after =~= bytes);
    } else {
        lemma_stripped_end_before_space(bytes, after.drop_last());
        assert((bytes + after).drop_last() =~= bytes + after.drop_last());
    }
}

proof fn lemma_stripped_start_before_space(bytes: Seq<u8>, after: Seq<u8>)
    ensures
        is_space(bytes) ==> stripped_start(bytes + after) == stripped_start(after),
        !is_space(bytes) ==> stripped_start(bytes + after) == stripped_start(bytes) + after,
    decreases bytes.len(),
{
    if is_space(bytes) {
        lemma_stripped_start_after_space(bytes, after);
    } else if is_ascii_space(bytes[0]) {
        let rest = bytes.drop_first();
        assert((bytes + after).drop_first() =~= rest + after);
        if is_space(rest) {
            assert forall|i: int| 0 <= i < bytes.len() implies is_ascii_space(bytes[i]) by {
                if i > 0 {
                    assert(bytes[i] == rest[i - 1]);
                }
            }
        }
        lemma_stripped_start_before_space(rest, after);
    } else {
        assert((bytes + after)[0] == bytes[0]);
    }
}

proof fn lemma_stripped_space(bytes: Seq<u8>)
    requires
        is_space(bytes),
    ensures
        stripped(bytes) == Seq::<u8>::empty(),
{
    lemma_stripped_start_after_space(bytes, Seq::empty());
    assert(bytes + Seq::empty() =~= bytes);
}

/// White space before and after a line changes nothing of what it says.
pub proof fn law_space_around_a_line_is_tolerated(before: Seq<u8>, line: Seq<u8>, after: Seq<u8>)
    requires
        is_space(before),
        is_space(after),
    ensures
        line_reading(before + line + after) == line_reading(line),
{
    assert(before + line + after =~= before + (line + after));
    lemma_stripped_start_after_space(before, line + after);
    lemma_stripped_start_before_space(line, after);
    if is_space(line) {
        lemma_stripped_space(line);
        lemma_stripped_space(after);
    } else {
        lemma_stripped_end_before_space(stripped_start(line), after);
    }
}

/// A line of white space is invalid.
pub proof fn law_blank_lines_are_invalid(line: Seq<u8>)
    requires
        is_space(line),
    ensures
        line_reading(line) == Reading::Invalid,
{
    lemma_stripped_space(line);
}

/// A line is invalid unless it is an object with a payload and with a type that is a text and not
/// empty.
pub proof fn law_events_have_a_type_and_a_payload(doc: JsonView)
    requires
        !(reading(Some(doc)) is Invalid),
    ensures
        doc matches JsonView::Object(members) && member(members, "type"@) matches Some(
            JsonView::Text(t),
        ) && t.len() > 0 && member(members, "payload"@) is Some,
{
    reveal_strlit("heartbeat");
    reveal_strlit("emote_bundle");
    reveal_strlit("send_chat_result");
}

/// Only the payloads of emote bundles and answers are looked at: of any other line with a payload
/// the type alone says what it is.
pub proof fn law_other_payloads_are_not_read(
    a: Seq<(Seq<char>, JsonView)>,
    b: Seq<(Seq<char>, JsonView)>,
)
    requires
        member(a, "type"@) == member(b, "type"@),
        member(a, "type"@) != Some(JsonView::Text("emote_bundle"@)),
        member(a, "type"@) != Some(JsonView::Text("send_chat_result"@)),
        member(a, "payload"@) is Some,
        member(b, "payload"@) is Some,
    ensures
        reading(Some(JsonView::Object(a))) == reading(Some(JsonView::Object(b))),
{
}

/// An answer always says whether the send worked: without an `ok` there is no answer.
pub proof fn law_answers_say_whether_it_worked(members: Seq<(Seq<char>, JsonView)>)
    ensures
        answer_of(JsonView::Object(members)) matches Some(answer) ==> member(members, "ok"@)
            == Some(JsonView::Bool(answer.ok)),
{
}

/// A part that is left out, or a text.
pub open spec fn is_text_or_left_out(part: Option<JsonView>) -> bool {
    part is None || part->0 is Text
}

/// Every line with a `send_chat_result` whose payload says whether it worked, and gives the other
/// parts right or not at all, is an answer. It says what the payload says: each part is the
/// member's value, or zero or the empty text where the member is left out.
pub proof fn law_well_formed_answers_arrive<B>(
    line: Seq<(Seq<char>, JsonView)>,
    members: Seq<(Seq<char>, JsonView)>,
    event: SidecarEvent<B>,
)
    requires
        tells(event, reading(Some(JsonView::Object(line)))),
        member(line, "type"@) == Some(JsonView::Text("send_chat_result"@)),
        member(line, "payload"@) == Some(JsonView::Object(members)),
        member(members, "ok"@) is Some && member(members, "ok"@)->0 is Bool,
        member(members, "request_id"@) matches Some(id) ==> id matches JsonView::Number {
            unsigned,
            ..
        } && unsigned is Some,
        is_text_or_left_out(member(members, "message_id"@)),
        is_text_or_left_out(member(members, "drop_code"@)),
        is_text_or_left_out(member(members, "drop_message"@)),
        is_text_or_left_out(member(members, "error_message"@)),
    ensures
        event matches SidecarEvent::SendChatResult(r) && {
            &&& member(members, "ok"@) == Some(JsonView::Bool(r.ok))
            &&& match member(members, "request_id"@) {
                Some(id) => id matches JsonView::Number { unsigned, .. } && unsigned == Some(
                    r.request_id,
                ),
                None => r.request_id == 0,
            }
            &&& match member(members, "message_id"@) {
                Some(part) => part == JsonView::Text(r.message_id@),
                None => r.message_id@.len() == 0,
            }
            &&& match member(members, "drop_code"@) {
                Some(part) => part == JsonView::Text(r.drop_code@),
                None => r.drop_code@.len() == 0,
            }
            &&& match member(members, "drop_message"@) {
                Some(part) => part == JsonView::Text(r.drop_message@),
                None => r.drop_message@.len() == 0,
            }
            &&& match member(members, "error_message"@) {
                Some(part) => part == JsonView::Text(r.error_message@),
                None => r.error_message@.len() == 0,
            }
        },
{
    reveal_strlit("heartbeat");
    reveal_strlit("emote_bundle");
    reveal_strlit("send_chat_result");
    assert("send_chat_result"@[0] != "heartbeat"@[0]);
    assert("send_chat_result"@[0] != "emote_bundle"@[0]);
}

/// Every line that comes out as an answer is a `send_chat_result`, and no part of its payload is
/// of the wrong kind: an object with an `ok`, or an array of two to six items.
pub proof fn law_answers_come_from_well_formed_lines<B>(
    line: Seq<(Seq<char>, JsonView)>,
    event: SidecarEvent<B>,
)
    requires
        tells(event, reading(Some(JsonView::Object(line)))),
        event is SendChatResult,
    ensures
        member(line, "type"@) == Some(JsonView::Text("send_chat_result"@)),
        match member(line, "payload"@) {
            Some(JsonView::Object(members)) => {
                &&& member(members, "ok"@) is Some && member(members, "ok"@)->0 is Bool
                &&& member(members, "request_id"@) matches Some(id) ==> id is Number
                &&& is_text_or_left_out(member(members, "message_id"@))
                &&& is_text_or_left_out(member(members, "drop_code"@))
                &&& is_text_or_left_out(member(members, "drop_message"@))
                &&& is_text_or_left_out(member(members, "error_message"@))
            },
            Some(JsonView::Array(items)) => 2 <= items.len() <= 6 && items[1] is Bool,
            _ => false,
        },
{
}

/// The names of the parts, in the order in which an array gives them.
pub open spec fn part_names() -> Seq<Seq<char>> {
    seq![
        "request_id"@,
        "ok"@,
        "message_id"@,
        "drop_code"@,
        "drop_message"@,
        "error_message"@,
    ]
}

/// The object that gives the items under the names of the parts.
pub open spec fn named(items: Seq<JsonView>) -> Seq<(Seq<char>, JsonView)> {
    Seq::new(items.len(), |i: int| (part_names()[i], items[i]))
}

proof fn lemma_member_at(members: Seq<(Seq<char>, JsonView)>, i: int)
    requires
        0 <= i < members.len(),
        forall|j: int| 0 <= j < i ==> (#[trigger] members[j]).0 != members[i].0,
    ensures
        member(members, members[i].0) == Some(members[i].1),
    decreases i,
{
    if i > 0 {
        assert(members[0].0 != members[i].0);
        let rest = members.drop_first();
        assert(rest[i - 1] == members[i]);
        assert forall|j: int| 0 <= j < i - 1 implies (#[trigger] rest[j]).0 != rest[i - 1].0 by {
            assert(rest[j] == members[j + 1]);
        }
        lemma_member_at(rest, i - 1);
    }
}

proof fn lemma_member_absent(members: Seq<(Seq<char>, JsonView)>, name: Seq<char>)
    requires
        forall|j: int| 0 <= j < members.len() ==> (#[trigger] members[j]).0 != name,
    ensures
        member(members, name) is None,
    decreases members.len(),
{
    if members.len() > 0 {
        assert(members[0].0 != name);
        let rest = members.drop_first();
        assert forall|j: int| 0 <= j < rest.len() implies (#[trigger] rest[j]).0 != name by {
            assert(rest[j] == members[j + 1]);
        }
        lemma_member_absent(rest, name);
    }
}

proof fn lemma_part_names_differ(i: int, j: int)
    requires
        0 <= i < 6,
        0 <= j < 6,
        i != j,
    ensures
        part_names()[i] != part_names()[j],
{
    reveal_strlit("request_id");
    reveal_strlit("ok");
    reveal_strlit("message_id");
    reveal_strlit("drop_code");
    reveal_strlit("drop_message");
    reveal_strlit("error_message");
    let (a, b) = (part_names()[i], part_names()[j]);
    if a == b {
        assert(a.len() == b.len() && a[0] == b[0]);
    }
}

proof fn lemma_named_part(items: Seq<JsonView>, i: int)
    requires
        items.len() <= 6,
        0 <= i < 6,
    ensures
        member(named(items), part_names()[i]) == if i < items.len() {
            Some(items[i])
        } else {
            None
        },
{
    let members = named(items);
    assert forall|j: int| 0 <= j < members.len() && j != i implies (#[trigger] members[j]).0
        != part_names()[i] by {
        lemma_part_names_differ(i, j);
    }
    if i < items.len() {
        assert(members[i].0 == part_names()[i]);
        lemma_member_at(members, i);
    } else {
        lemma_member_absent(members, part_names()[i]);
    }
}

/// An array says the same as the object that gives its items under the names of the parts, in
/// their order; one with more items than parts says nothing.
pub proof fn law_arrays_say_what_objects_say(items: Seq<JsonView>)
    ensures
        items.len() <= 6 ==> answer_of(JsonView::Array(items)) == answer_of(
            JsonView::Object(named(items)),
        ),
        items.len() > 6 ==> answer_of(JsonView::Array(items)) is None,
{
    if items.len() <= 6 {
        lemma_named_part(items, 0);
        lemma_named_part(items, 1);
        lemma_named_part(items, 2);
        lemma_named_part(items, 3);
        lemma_named_part(items, 4);
        lemma_named_part(items, 5);
    }
}

/// A line with a type and a payload is what its type says: heartbeats, bundles and answers come
/// out as such, any other type comes out as itself, and only an empty type or the payload of an
/// answer can make such a line invalid.
pub proof fn law_the_type_decides<B>(
    line: Seq<(Seq<char>, JsonView)>,
    msg_type: Seq<char>,
    event: SidecarEvent<B>,
)
    requires
        tells(event, reading(Some(JsonView::Object(line)))),
        member(line, "type"@) == Some(JsonView::Text(msg_type)),
        member(line, "payload"@) is Some,
    ensures
        event is Heartbeat <==> msg_type == "heartbeat"@,
        event is EmoteBundle ==> msg_type == "emote_bundle"@,
        msg_type == "emote_bundle"@ ==> reading(Some(JsonView::Object(line))) == Reading::Bundle(
            member(line, "payload"@)->0,
        ),
        event is SendChatResult ==> msg_type == "send_chat_result"@,
        event matches SidecarEvent::Other(s) ==> s@ == msg_type,
        event is Invalid ==> msg_type.len() == 0 || msg_type == "emote_bundle"@ || msg_type
            == "send_chat_result"@,
        msg_type.len() == 0 ==> event is Invalid,
{
    reveal_strlit("heartbeat");
    reveal_strlit("emote_bundle");
    reveal_strlit("send_chat_result");
    assert("heartbeat"@[0] != "emote_bundle"@[0]);
    assert("heartbeat"@[0] != "send_chat_result"@[0]);
    assert("emote_bundle"@[0] != "send_chat_result"@[0]);
}

proof fn lemma_stripped_start(bytes: Seq<u8>)
    ensures
        stripped_start(bytes).len() <= bytes.len(),
        stripped_start(bytes) == bytes.skip(bytes.len() - stripped_start(bytes).len()),
        is_space(bytes.take(bytes.len() - stripped_start(bytes).len())),
        stripped_start(bytes).len() > 0 ==> !is_ascii_space(stripped_start(bytes)[0]),
    decreases bytes.len(),
{
    if bytes.len() > 0 && is_ascii_space(bytes[0]) {
        let rest = bytes.drop_first();
        lemma_stripped_start(rest);
        let n = bytes.len() - stripped_start(bytes).len();
        assert(stripped_start(bytes) =~= bytes.skip(n));
        assert forall|i: int| 0 <= i < n implies is_ascii_space(#[trigger] bytes.take(n)[i]) by {
            if i > 0 {
                assert(bytes.take(n)[i] == rest.take(n - 1)[i - 1]);
            }
        }
    } else {
        assert(bytes =~= bytes.skip(0));
    }
}

proof fn lemma_stripped_end(bytes: Seq<u8>)
    ensures
        stripped_end(bytes).len() <= bytes.len(),
        stripped_end(bytes) == bytes.take(stripped_end(bytes).len() as int),
        is_space(bytes.skip(stripped_end(bytes).len() as int)),
        stripped_end(bytes).len() > 0 ==> !is_ascii_space(stripped_end(bytes).last()),
    decreases bytes.len(),
{
    if bytes.len() > 0 && is_ascii_space(bytes.last()) {
        let rest = bytes.drop_last();
        lemma_stripped_end(rest);
        let n = stripped_end(bytes).len() as int;
        assert(stripped_end(bytes) =~= bytes.take(n));
        assert forall|i: int| 0 <= i < bytes.len() - n implies is_ascii_space(
            #[trigger] bytes.skip(n)[i],
        ) by {
            if i < bytes.len() - n - 1 {
                assert(bytes.skip(n)[i] == rest.skip(n)[i]);
            }
        }
    } else {
        assert(bytes =~= bytes.take(bytes.len() as int));
    }
}

/// Stripping takes white space off the two ends of a line and nothing else: what is left neither
/// begins nor ends with white space, and nothing is left exactly of a line of white space.
pub proof fn law_stripping(line: Seq<u8>)
    ensures
        exists|before: Seq<u8>, after: Seq<u8>|
            #![auto]
            is_space(before) && is_space(after) && line == before + stripped(line) + after,
        stripped(line).len() > 0 ==> !is_ascii_space(stripped(line)[0]) && !is_ascii_space(
            stripped(line).last(),
        ),
        stripped(line).len() == 0 <==> is_space(line),
{
    let t = stripped_start(line);
    lemma_stripped_start(line);
    lemma_stripped_end(t);
    let before = line.take(line.len() - t.len());
    let after = t.skip(stripped(line).len() as int);
    assert(line =~= before + stripped(line) + after);
    assert(is_space(before) && is_space(after) && line == before + stripped(line) + after);
    if stripped(line).len() == 0 {
        assert forall|i: int| 0 <= i < line.len() implies is_ascii_space(line[i]) by {
            if i < before.len() {
                assert(line[i] == before[i]);
            } else {
                assert(line[i] == after[i - before.len()]);
            }
        }
    } else {
        assert(line[before.len() as int] == stripped(line)[0]);
    }
}

/// A member is found under its name where no member before it has that name, and nothing is found
/// under a name that no member has.
pub proof fn law_members_are_looked_up_by_name(
    members: Seq<(Seq<char>, JsonView)>,
    name: Seq<char>,
    i: int,
)
    ensures
        0 <= i < members.len() && members[i].0 == name && (forall|j: int|
            0 <= j < i ==> (#[trigger] members[j]).0 != name) ==> member(members, name) == Some(
            members[i].1,
        ),
        (forall|j: int| 0 <= j < members.len() ==> (#[trigger] members[j]).0 != name) ==> member(
            members,
            name,
        ) is None,
{
    if 0 <= i < members.len() && members[i].0 == name && (forall|j: int|
        0 <= j < i ==> (#[trigger] members[j]).0 != name) {
        lemma_member_at(members, i);
    }
    if forall|j: int| 0 <= j < members.len() ==> (#[trigger] members[j]).0 != name {
        lemma_member_absent(members, name);
    }
}

/// Whatever decoder reads the bundles, a line is told by what it reads: a heartbeat as a
/// heartbeat, an answer with every part of it, an unknown type as itself; and a bundle is what the
/// decoder made of its payload, and nothing where the decoder made nothing.
pub proof fn law_events_tell_what_was_read<B>(event: SidecarEvent<B>, read: Reading)
    requires
        tells(event, read),
    ensures
        event is Heartbeat <==> read is Heartbeat,
        event is SendChatResult <==> read is Answer,
        event is Other <==> read is Other,
        event is EmoteBundle ==> read is Bundle,
        event is Invalid ==> read is Invalid || read is Bundle,
        event matches SidecarEvent::SendChatResult(r) ==> {
            &&& read->Answer_0.request_id == r.request_id
            &&& read->Answer_0.ok == r.ok
            &&& read->Answer_0.message_id == r.message_id@
            &&& read->Answer_0.drop_code == r.drop_code@
            &&& read->Answer_0.drop_message == r.drop_message@
            &&& read->Answer_0.error_message == r.error_message@
        },
        event matches SidecarEvent::Other(s) ==> read->Other_0 == s@,
{
}

/// What `decode_answer` gives for an object is what stands under the names of the parts; where it
/// gives nothing, the `ok` is missing or a part is of the wrong kind.
pub proof fn law_decoding_an_answer(payload: Json, r: Option<SendChatResult>)
    requires
        call_ensures(decode_answer, (&payload,), r),
        payload@ is Object,
    ensures
        ({
            let ms = payload@->Object_0;
            match r {
                Some(answer) => {
                    &&& member(ms, "ok"@) == Some(JsonView::Bool(answer.ok))
                    &&& member(ms, "message_id"@) matches Some(part) ==> part == JsonView::Text(
                        answer.message_id@,
                    )
                    &&& member(ms, "message_id"@) is None ==> answer.message_id@.len() == 0
                    &&& member(ms, "request_id"@) is None ==> answer.request_id == 0
                    &&& member(ms, "request_id"@) matches Some(id) ==> (id matches JsonView::Number {
                        unsigned,
                        ..
                    } && unsigned == Some(answer.request_id))
                },
                None => {
                    ||| !(member(ms, "ok"@) is Some && member(ms, "ok"@)->0 is Bool)
                    ||| (member(ms, "request_id"@) matches Some(id) && !(id matches
                        JsonView::Number { unsigned, .. } && unsigned is Some))
                    ||| !is_text_or_left_out(member(ms, "message_id"@))
                    ||| !is_text_or_left_out(member(ms, "drop_code"@))
                    ||| !is_text_or_left_out(member(ms, "drop_message"@))
                    ||| !is_text_or_left_out(member(ms, "error_message"@))
                },
            }
        }),
{
}

} // verus!
