//! Objects as they are written: which members a reader of the bytes finds.
use vstd::prelude::*;
use vstd::utf8::{encode_utf8, is_ascii_chars_encode_utf8};

use crate::document::{
    cursor_at, is_object_text, json_document, values_written, Cursor, Json, JsonView,
};
use crate::events::{
    envelope_in, envelope_text, is_space, law_space_around_a_line_is_tolerated, line_reading,
    parse_sidecar_event, reading, stripped, tells, Reading, SidecarEvent,
};
use crate::json::{
    BACKSLASH, CLOSE_BRACE, CLOSE_BRACKET, COLON, COMMA, OPEN_BRACE, OPEN_BRACKET, QUOTE,
};

verus! {

/// A piece of a document as it is written, as far as its outline goes.
pub enum Piece {
    /// A byte outside any text: part of a number or a word, white space, a comma or a colon.
    Byte(u8),
    /// A text, with what stands between its quotes.
    Text(Seq<u8>),
    /// An array, with what stands between its brackets.
    Array(Seq<Piece>),
    /// An object, with what stands between its braces.
    Object(Seq<Piece>),
}

/// What may stand between the quotes of a text: a quote or a backslash only behind a backslash.
pub open spec fn is_text_body(body: Seq<u8>) -> bool
    decreases body.len(),
{
    if body.len() == 0 {
        true
    } else if body[0] == BACKSLASH {
        body.len() >= 2 && is_text_body(body.skip(2))
    } else {
        body[0] != QUOTE && is_text_body(body.skip(1))
    }
}

/// A byte that neither begins nor ends a text, an array or an object.
pub open spec fn is_outline_free(b: u8) -> bool {
    b != QUOTE && b != OPEN_BRACE && b != CLOSE_BRACE && b != OPEN_BRACKET && b != CLOSE_BRACKET
}

/// Every piece is one, down to the innermost.
pub open spec fn well_formed(pieces: Seq<Piece>) -> bool
    decreases pieces,
{
    pieces.len() == 0 || {
        &&& match pieces[0] {
            Piece::Byte(b) => is_outline_free(b),
            Piece::Text(body) => is_text_body(body),
            Piece::Array(inner) => well_formed(inner),
            Piece::Object(inner) => well_formed(inner),
        }
        &&& well_formed(pieces.drop_first())
    }
}

/// The bytes of the pieces, one after the other.
pub open spec fn written(pieces: Seq<Piece>) -> Seq<u8>
    decreases pieces,
{
    if pieces.len() == 0 {
        Seq::empty()
    } else {
        let first = match pieces[0] {
            Piece::Byte(b) => seq![b],
            Piece::Text(body) => seq![QUOTE] + body + seq![QUOTE],
            Piece::Array(inner) => seq![OPEN_BRACKET] + written(inner) + seq![CLOSE_BRACKET],
            Piece::Object(inner) => seq![OPEN_BRACE] + written(inner) + seq![CLOSE_BRACE],
        };
        first + written(pieces.drop_first())
    }
}

/// No comma and no colon stands among the pieces, but for those inside a piece.
pub open spec fn is_one_value(pieces: Seq<Piece>) -> bool {
    forall|i: int|
        0 <= i < pieces.len() ==> (#[trigger] pieces[i] matches Piece::Byte(b) ==> b != COMMA && b
            != COLON)
}

/// White space, as it may stand around the name of a member.
pub open spec fn is_gap(bytes: Seq<u8>) -> bool {
    forall|i: int|
        0 <= i < bytes.len() ==> (#[trigger] bytes[i]) == 0x20 || bytes[i] == 0x09 || bytes[i]
            == 0x0a || bytes[i] == 0x0d
}

/// A member as it is written.
pub struct WrittenMember {
    /// What stands before its name.
    pub before: Seq<u8>,
    /// What stands between the quotes of its name.
    pub name: Seq<u8>,
    /// What stands between its name and the colon.
    pub between: Seq<u8>,
    /// Its value, with the white space around it.
    pub value: Seq<Piece>,
}

impl WrittenMember {
    pub open spec fn wf(self) -> bool {
        &&& is_gap(self.before)
        &&& is_text_body(self.name)
        &&& is_gap(self.between)
        &&& well_formed(self.value)
        &&& is_one_value(self.value)
    }

    /// The name with its quotes.
    pub open spec fn quoted(self) -> Seq<u8> {
        seq![QUOTE] + self.name + seq![QUOTE]
    }

    /// What stands before the value.
    pub open spec fn label(self) -> Seq<u8> {
        self.before + self.quoted() + self.between + seq![COLON]
    }

    /// The member is called `name`.
    pub open spec fn is_called(self, name: Seq<char>) -> bool {
        json_document(self.quoted()) == Some(JsonView::Text(name))
    }
}

/// The members with commas between them, and the closing brace.
pub open spec fn members_written(ms: Seq<WrittenMember>) -> Seq<u8>
    decreases ms.len(),
{
    if ms.len() == 0 {
        seq![CLOSE_BRACE]
    } else if ms.len() == 1 {
        ms[0].label() + written(ms[0].value) + seq![CLOSE_BRACE]
    } else {
        ms[0].label() + written(ms[0].value) + seq![COMMA] + members_written(ms.drop_first())
    }
}

/// An object with these members.
pub open spec fn object_written(ms: Seq<WrittenMember>) -> Seq<u8> {
    seq![OPEN_BRACE] + members_written(ms)
}

/// The values of the members called `name`, in their order.
pub open spec fn values_called(ms: Seq<WrittenMember>, name: Seq<char>) -> Seq<Seq<u8>>
    decreases ms.len(),
{
    if ms.len() == 0 {
        Seq::empty()
    } else if ms[0].is_called(name) {
        seq![written(ms[0].value)] + values_called(ms.drop_first(), name)
    } else {
        values_called(ms.drop_first(), name)
    }
}

// ---------------------------------------------------------------------------
// The walk over each part
// ---------------------------------------------------------------------------

/// `part` stands in `text` at the position `i`.
spec fn stands_at(text: Seq<u8>, i: int, part: Seq<u8>) -> bool {
    0 <= i && i + part.len() <= text.len() && text.subrange(i, i + part.len()) == part
}

proof fn lemma_stands_apart(text: Seq<u8>, i: int, a: Seq<u8>, b: Seq<u8>)
    requires
        stands_at(text, i, a + b),
    ensures
        stands_at(text, i, a),
        stands_at(text, i + a.len(), b),
{
    assert(text.subrange(i, i + a.len()) =~= (a + b).take(a.len() as int));
    assert((a + b).take(a.len() as int) =~= a);
    assert(text.subrange(i + a.len(), i + a.len() + b.len()) =~= (a + b).skip(a.len() as int));
    assert((a + b).skip(a.len() as int) =~= b);
}

proof fn lemma_stands_byte(text: Seq<u8>, i: int, b: u8)
    requires
        stands_at(text, i, seq![b]),
    ensures
        text[i] == b,
{
    assert(text.subrange(i, i + 1)[0] == seq![b][0]);
}

/// Inside a text the walk stands still.
proof fn lemma_walk_text_body(text: Seq<u8>, i: int, body: Seq<u8>, name: Seq<char>)
    requires
        stands_at(text, i, body),
        is_text_body(body),
        cursor_at(text, i).in_text,
        !cursor_at(text, i).escaped,
    ensures
        cursor_at(text, i + body.len()) == cursor_at(text, i),
        values_written(text, i + body.len(), name) == values_written(text, i, name),
    decreases body.len(),
{
    if body.len() > 0 {
        assert(text.subrange(i, i + body.len())[0] == text[i]);
        if body[0] == BACKSLASH {
            assert(body =~= body.take(2) + body.skip(2));
            lemma_stands_apart(text, i, body.take(2), body.skip(2));
            assert(cursor_at(text, i + 1) == cursor_at(text, i).after(i, text[i]));
            assert(cursor_at(text, i + 2) == cursor_at(text, i + 1).after(i + 1, text[i + 1]));
            assert(cursor_at(text, i + 2) == cursor_at(text, i));
            assert(values_written(text, i + 1, name) == values_written(text, i, name));
            assert(values_written(text, i + 2, name) == values_written(text, i + 1, name));
            lemma_walk_text_body(text, i + 2, body.skip(2), name);
        } else {
            assert(body =~= body.take(1) + body.skip(1));
            lemma_stands_apart(text, i, body.take(1), body.skip(1));
            assert(cursor_at(text, i + 1) == cursor_at(text, i).after(i, text[i]));
            assert(values_written(text, i + 1, name) == values_written(text, i, name));
            lemma_walk_text_body(text, i + 1, body.skip(1), name);
        }
    }
}

/// Over a text the walk moves, right inside the outermost object, only the latest text.
proof fn lemma_walk_text(text: Seq<u8>, i: int, body: Seq<u8>, name: Seq<char>)
    requires
        stands_at(text, i, seq![QUOTE] + body + seq![QUOTE]),
        is_text_body(body),
        !cursor_at(text, i).in_text,
        !cursor_at(text, i).escaped,
    ensures
        ({
            let n = i + body.len() + 2;
            let c = cursor_at(text, i);
            &&& cursor_at(text, n) == if c.depth == 1 {
                Cursor { start: i, end: n, ..c }
            } else {
                c
            }
            &&& values_written(text, n, name) == values_written(text, i, name)
        }),
{
    let q = seq![QUOTE];
    lemma_stands_apart(text, i, q + body, q);
    lemma_stands_apart(text, i, q, body);
    lemma_stands_byte(text, i, QUOTE);
    let m = i + 1 + body.len();
    lemma_stands_byte(text, m, QUOTE);
    assert(cursor_at(text, i + 1) == cursor_at(text, i).after(i, text[i]));
    assert(values_written(text, i + 1, name) == values_written(text, i, name));
    lemma_walk_text_body(text, i + 1, body, name);
    assert(cursor_at(text, m + 1) == cursor_at(text, m).after(m, text[m]));
    assert(values_written(text, m + 1, name) == values_written(text, m, name));
}

/// Over the pieces of a value the walk moves nothing that matters.
proof fn lemma_walk_pieces(text: Seq<u8>, i: int, pieces: Seq<Piece>, name: Seq<char>)
    requires
        stands_at(text, i, written(pieces)),
        well_formed(pieces),
        !cursor_at(text, i).in_text,
        !cursor_at(text, i).escaped,
        cursor_at(text, i).depth >= 1,
        cursor_at(text, i).depth == 1 ==> is_one_value(pieces),
    ensures
        ({
            let n = i + written(pieces).len();
            let (c, d) = (cursor_at(text, i), cursor_at(text, n));
            &&& d == (Cursor { start: d.start, end: d.end, ..c })
            &&& c.depth > 1 ==> d == c
            &&& values_written(text, n, name) == values_written(text, i, name)
        }),
    decreases pieces, 0int,
{
    if pieces.len() > 0 {
        let rest = pieces.drop_first();
        let first = match pieces[0] {
            Piece::Byte(b) => seq![b],
            Piece::Text(body) => seq![QUOTE] + body + seq![QUOTE],
            Piece::Array(inner) => seq![OPEN_BRACKET] + written(inner) + seq![CLOSE_BRACKET],
            Piece::Object(inner) => seq![OPEN_BRACE] + written(inner) + seq![CLOSE_BRACE],
        };
        lemma_stands_apart(text, i, first, written(rest));
        let m = i + first.len();
        match pieces[0] {
            Piece::Byte(b) => {
                lemma_stands_byte(text, i, b);
                assert(cursor_at(text, i + 1) == cursor_at(text, i).after(i, text[i]));
                assert(values_written(text, i + 1, name) == values_written(text, i, name));
            },
            Piece::Text(body) => {
                lemma_walk_text(text, i, body, name);
            },
            Piece::Array(inner) => {
                assert(decreases_to!(pieces[0] => inner));
                lemma_walk_nested(text, i, OPEN_BRACKET, inner, CLOSE_BRACKET, name);
            },
            Piece::Object(inner) => {
                assert(decreases_to!(pieces[0] => inner));
                lemma_walk_nested(text, i, OPEN_BRACE, inner, CLOSE_BRACE, name);
            },
        }
        if cursor_at(text, i).depth == 1 {
            assert forall|k: int| 0 <= k < rest.len() implies (#[trigger] rest[k] matches
                Piece::Byte(b) ==> b != COMMA && b != COLON) by {
                assert(rest[k] == pieces[k + 1]);
            }
        }
        lemma_walk_pieces(text, m, rest, name);
        assert(i + written(pieces).len() == m + written(rest).len());
    } else {
        assert(written(pieces).len() == 0);
    }
}

proof fn lemma_walk_nested(
    text: Seq<u8>,
    i: int,
    open: u8,
    inner: Seq<Piece>,
    close: u8,
    name: Seq<char>,
)
    requires
        stands_at(text, i, seq![open] + written(inner) + seq![close]),
        open == OPEN_BRACE || open == OPEN_BRACKET,
        close == CLOSE_BRACE || close == CLOSE_BRACKET,
        well_formed(inner),
        !cursor_at(text, i).in_text,
        !cursor_at(text, i).escaped,
        cursor_at(text, i).depth >= 1,
    ensures
        ({
            let n = i + written(inner).len() + 2;
            &&& cursor_at(text, n) == cursor_at(text, i)
            &&& values_written(text, n, name) == values_written(text, i, name)
        }),
    decreases inner, 1int,
{
    lemma_stands_apart(text, i, seq![open] + written(inner), seq![close]);
    lemma_stands_apart(text, i, seq![open], written(inner));
    lemma_stands_byte(text, i, open);
    let m = i + 1 + written(inner).len();
    lemma_stands_byte(text, m, close);
    assert(cursor_at(text, i + 1) == cursor_at(text, i).after(i, text[i]));
    assert(values_written(text, i + 1, name) == values_written(text, i, name));
    lemma_walk_pieces(text, i + 1, inner, name);
    assert(cursor_at(text, m + 1) == cursor_at(text, m).after(m, text[m]));
    assert(values_written(text, m + 1, name) == values_written(text, m, name));
}

/// Over white space the walk stands still.
proof fn lemma_walk_gap(text: Seq<u8>, i: int, gap: Seq<u8>, name: Seq<char>)
    requires
        stands_at(text, i, gap),
        is_gap(gap),
        !cursor_at(text, i).in_text,
    ensures
        cursor_at(text, i + gap.len()) == cursor_at(text, i),
        values_written(text, i + gap.len(), name) == values_written(text, i, name),
    decreases gap.len(),
{
    if gap.len() > 0 {
        assert(gap =~= gap.take(1) + gap.skip(1));
        lemma_stands_apart(text, i, gap.take(1), gap.skip(1));
        assert(text[i] == text.subrange(i, i + 1)[0]);
        assert(text[i] == gap[0]);
        assert(cursor_at(text, i + 1) == cursor_at(text, i).after(i, text[i]));
        assert(values_written(text, i + 1, name) == values_written(text, i, name));
        lemma_walk_gap(text, i + 1, gap.skip(1), name);
    }
}

/// Over a member the walk gets to know its name and where its value begins.
proof fn lemma_walk_member(text: Seq<u8>, i: int, m: WrittenMember, name: Seq<char>)
    requires
        stands_at(text, i, m.label() + written(m.value)),
        m.wf(),
        !cursor_at(text, i).in_text,
        !cursor_at(text, i).escaped,
        cursor_at(text, i).depth == 1,
    ensures
        ({
            let at = i + m.label().len();
            let n = at + written(m.value).len();
            let c = cursor_at(text, n);
            &&& !c.in_text && !c.escaped && c.depth == 1
            &&& c.value == at
            &&& text.subrange(c.name_start, c.name_end) == m.quoted()
            &&& text.subrange(c.value, n) == written(m.value)
            &&& values_written(text, n, name) == values_written(text, i, name)
        }),
{
    lemma_stands_apart(text, i, m.label(), written(m.value));
    lemma_stands_apart(text, i, m.before + m.quoted() + m.between, seq![COLON]);
    lemma_stands_apart(text, i, m.before + m.quoted(), m.between);
    lemma_stands_apart(text, i, m.before, m.quoted());
    let a = i + m.before.len();
    let b = a + m.quoted().len();
    let colon = b + m.between.len();
    lemma_walk_gap(text, i, m.before, name);
    lemma_walk_text(text, a, m.name, name);
    assert(b == a + m.name.len() + 2);
    lemma_walk_gap(text, b, m.between, name);
    lemma_stands_byte(text, colon, COLON);
    assert(cursor_at(text, colon + 1) == cursor_at(text, colon).after(colon, text[colon]));
    assert(values_written(text, colon + 1, name) == values_written(text, colon, name));
    assert(colon + 1 == i + m.label().len());
    lemma_walk_pieces(text, colon + 1, m.value, name);
}

/// Over the members the walk finds those that are called `name`.
proof fn lemma_walk_members(text: Seq<u8>, i: int, ms: Seq<WrittenMember>, name: Seq<char>)
    requires
        stands_at(text, i, members_written(ms)),
        forall|k: int| 0 <= k < ms.len() ==> (#[trigger] ms[k]).wf(),
        !cursor_at(text, i).in_text,
        !cursor_at(text, i).escaped,
        cursor_at(text, i).depth == 1,
        cursor_at(text, i).value == 0,
    ensures
        values_written(text, i + members_written(ms).len(), name) == values_written(text, i, name)
            + values_called(ms, name),
    decreases ms.len(),
{
    let start = values_written(text, i, name);
    if ms.len() == 0 {
        lemma_stands_byte(text, i, CLOSE_BRACE);
        assert(values_written(text, i + 1, name) == start);
        assert(start + values_called(ms, name) =~= start);
    } else {
        let m = ms[0];
        let rest = ms.drop_first();
        let body = m.label() + written(m.value);
        let n = i + body.len();
        let behind = if ms.len() == 1 {
            seq![CLOSE_BRACE]
        } else {
            seq![COMMA]
        };
        if ms.len() > 1 {
            lemma_stands_apart(text, i, body + seq![COMMA], members_written(rest));
        }
        lemma_stands_apart(text, i, body, behind);
        lemma_stands_byte(text, n, behind[0]);
        lemma_walk_member(text, i, m, name);
        let c = cursor_at(text, n);
        assert(c.ends_member(text[n]));
        let found = if m.is_called(name) {
            start.push(written(m.value))
        } else {
            start
        };
        assert(values_written(text, n + 1, name) == found);
        assert(cursor_at(text, n + 1) == c.after(n, text[n]));
        if ms.len() == 1 {
            assert(rest.len() == 0);
            assert(values_called(rest, name) =~= Seq::empty());
        } else {
            assert forall|k: int| 0 <= k < rest.len() implies (#[trigger] rest[k]).wf() by {
                assert(rest[k] == ms[k + 1]);
            }
            lemma_walk_members(text, n + 1, rest, name);
        }
        assert(found + values_called(rest, name) =~= start + values_called(ms, name));
    }
}

// ---------------------------------------------------------------------------
// Laws
// ---------------------------------------------------------------------------

/// In an object, however it is written, exactly the values of its own members are found under
/// their names, in their order: neither what stands in a text nor what is nested deeper is taken
/// for a member, and none is missed.
pub proof fn law_members_are_found(ms: Seq<WrittenMember>, name: Seq<char>)
    requires
        forall|k: int| 0 <= k < ms.len() ==> (#[trigger] ms[k]).wf(),
    ensures
        values_written(object_written(ms), object_written(ms).len() as int, name)
            == values_called(ms, name),
{
    let text = object_written(ms);
    assert(text.subrange(0, text.len() as int) =~= text);
    lemma_stands_apart(text, 0, seq![OPEN_BRACE], members_written(ms));
    lemma_stands_byte(text, 0, OPEN_BRACE);
    assert(cursor_at(text, 0).depth == 0);
    assert(cursor_at(text, 1) == cursor_at(text, 0).after(0, text[0]));
    assert(values_written(text, 0, name) =~= Seq::empty());
    assert(values_written(text, 1, name) == values_written(text, 0, name));
    lemma_walk_members(text, 1, ms, name);
    assert(values_written(text, 1, name) + values_called(ms, name) =~= values_called(ms, name));
}

/// A line gives an envelope exactly where it gives one type and one payload, and the envelope is
/// made of those two as they are written. What else the line gives, and in what order, does not
/// matter.
pub proof fn law_envelopes_are_found(ms: Seq<WrittenMember>)
    requires
        forall|k: int| 0 <= k < ms.len() ==> (#[trigger] ms[k]).wf(),
    ensures
        ({
            let types = values_called(ms, "type"@);
            let payloads = values_called(ms, "payload"@);
            if types.len() == 1 && payloads.len() == 1 {
                envelope_in(object_written(ms)) == Some(envelope_text(types[0], payloads[0]))
            } else {
                envelope_in(object_written(ms)) is None
            }
        }),
{
    law_members_are_found(ms, "type"@);
    law_members_are_found(ms, "payload"@);
}

/// The envelope is itself an object: the one with the type and the payload, under these names,
/// and nothing else.
pub proof fn law_envelopes_are_objects(msg_type: Seq<Piece>, payload: Seq<Piece>)
    ensures
        envelope_text(written(msg_type), written(payload)) == object_written(
            seq![
                WrittenMember {
                    before: Seq::empty(),
                    name: encode_utf8("type"@),
                    between: Seq::empty(),
                    value: msg_type,
                },
                WrittenMember {
                    before: Seq::empty(),
                    name: encode_utf8("payload"@),
                    between: Seq::empty(),
                    value: payload,
                },
            ],
        ),
{
    reveal_strlit("{\"type\":");
    reveal_strlit(",\"payload\":");
    reveal_strlit("}");
    reveal_strlit("type");
    reveal_strlit("payload");
    is_ascii_chars_encode_utf8("{\"type\":"@);
    is_ascii_chars_encode_utf8(",\"payload\":"@);
    is_ascii_chars_encode_utf8("}"@);
    is_ascii_chars_encode_utf8("type"@);
    is_ascii_chars_encode_utf8("payload"@);
    let a = WrittenMember {
        before: Seq::empty(),
        name: encode_utf8("type"@),
        between: Seq::empty(),
        value: msg_type,
    };
    let b = WrittenMember {
        before: Seq::empty(),
        name: encode_utf8("payload"@),
        between: Seq::empty(),
        value: payload,
    };
    let ms = seq![a, b];
    assert(ms.drop_first() =~= seq![b]);
    reveal_with_fuel(members_written, 3);
    assert(seq![b][0] == b);
    assert(members_written(seq![b]) == b.label() + written(payload) + seq![CLOSE_BRACE]);
    assert(seq![OPEN_BRACE] + a.label() =~= encode_utf8("{\"type\":"@));
    assert(seq![COMMA] + b.label() =~= encode_utf8(",\"payload\":"@));
    assert(seq![CLOSE_BRACE] =~= encode_utf8("}"@));
    assert(object_written(ms) =~= (seq![OPEN_BRACE] + a.label()) + written(msg_type) + (seq![COMMA]
        + b.label()) + written(payload) + seq![CLOSE_BRACE]);
}

proof fn lemma_object_ends(ms: Seq<WrittenMember>)
    ensures
        members_written(ms).len() > 0,
        members_written(ms).last() == CLOSE_BRACE,
    decreases ms.len(),
{
    if ms.len() > 1 {
        lemma_object_ends(ms.drop_first());
    }
}

/// A line is read by its type and its payload, whatever white space stands around it and whatever
/// else it gives: it says what the envelope of the two says. Without either, with either twice, or
/// where it is no object, it is invalid.
pub proof fn law_lines_are_read_by_their_envelope(
    before: Seq<u8>,
    ms: Seq<WrittenMember>,
    after: Seq<u8>,
)
    requires
        is_space(before),
        is_space(after),
        forall|k: int| 0 <= k < ms.len() ==> (#[trigger] ms[k]).wf(),
    ensures
        ({
            let line = before + object_written(ms) + after;
            let types = values_called(ms, "type"@);
            let payloads = values_called(ms, "payload"@);
            if is_object_text(object_written(ms)) && types.len() == 1 && payloads.len() == 1 {
                line_reading(line) == reading(json_document(envelope_text(types[0], payloads[0])))
            } else {
                line_reading(line) == Reading::Invalid
            }
        }),
{
    let text = object_written(ms);
    law_space_around_a_line_is_tolerated(before, text, after);
    lemma_object_ends(ms);
    assert(text[0] == OPEN_BRACE);
    assert(text.last() == CLOSE_BRACE);
    assert(stripped(text) == text);
    law_envelopes_are_found(ms);
}

/// Reading the bytes of a line gives what its type and its payload say, whatever stands around and
/// beside them. A bundle that comes out is one that the decoder gave, for the payload of a line
/// that is a bundle.
pub proof fn law_parsing_a_line<B, D>(
    bytes: &[u8],
    before: Seq<u8>,
    ms: Seq<WrittenMember>,
    after: Seq<u8>,
    decode_bundle: D,
    event: SidecarEvent<B>,
) where D: FnOnce(Json) -> Option<B>
    requires
        call_ensures(parse_sidecar_event::<B, D>, (bytes, decode_bundle), event),
        bytes@ == before + object_written(ms) + after,
        is_space(before),
        is_space(after),
        forall|k: int| 0 <= k < ms.len() ==> (#[trigger] ms[k]).wf(),
        is_object_text(object_written(ms)),
    ensures
        ({
            let types = values_called(ms, "type"@);
            let payloads = values_called(ms, "payload"@);
            if types.len() == 1 && payloads.len() == 1 {
                tells(event, reading(json_document(envelope_text(types[0], payloads[0]))))
            } else {
                event is Invalid
            }
        }),
        event matches SidecarEvent::EmoteBundle(bundle) ==> exists|payload: Json| #[trigger]
            call_ensures(decode_bundle, (payload,), Some(*bundle)),
{
    law_lines_are_read_by_their_envelope(before, ms, after);
    if let SidecarEvent::EmoteBundle(bundle) = event {
        let read = line_reading(bytes@);
        let (payload, decoded) = choose|payload: Json, decoded: Option<B>|
            #[trigger] call_ensures(decode_bundle, (payload,), decoded) && payload@
                == read->Bundle_0 && match decoded {
                Some(b) => event == SidecarEvent::EmoteBundle(Box::new(b)),
                None => event is Invalid,
            };
        assert(call_ensures(decode_bundle, (payload,), Some(*bundle)));
    }
}

} // verus!
