//! JSON as the control plane writes it.
use vstd::prelude::*;
use vstd::utf8::encode_utf8;

verus! {

/// `serde_json::Error`: why a value could not be written as JSON. Opaque here.
#[verifier::external_type_specification]
#[verifier::external_body]
pub struct ExJsonError(serde_json::Error);

pub const QUOTE: u8 = 0x22;

pub const BACKSLASH: u8 = 0x5c;

pub const MINUS: u8 = 0x2d;

pub const COLON: u8 = 0x3a;

pub const COMMA: u8 = 0x2c;

pub const OPEN_BRACE: u8 = 0x7b;

pub const CLOSE_BRACE: u8 = 0x7d;

pub const OPEN_BRACKET: u8 = 0x5b;

pub const CLOSE_BRACKET: u8 = 0x5d;

pub const ZERO: u8 = 0x30;

pub const NEWLINE: u8 = 0x0a;

// ---------------------------------------------------------------------------
// How scalars are written
// ---------------------------------------------------------------------------

/// A JSON value that is neither an array nor an object: what a control line carries.
pub enum Scalar {
    Text(Seq<char>),
    Integer(int),
}

/// One `"name":value` pair of a control line.
pub struct Member {
    pub name: Seq<char>,
    pub value: Scalar,
}

/// The lower-case hexadecimal digit for `n`, where `n < 16`.
pub open spec fn hex_digit(n: u8) -> u8 {
    if n < 10 {
        (ZERO + n) as u8
    } else {
        (0x61 + (n - 10)) as u8
    }
}

/// How one byte of a UTF-8 text is written between the quotes of a JSON string.
pub open spec fn escaped_byte(b: u8) -> Seq<u8> {
    if b == QUOTE || b == BACKSLASH {
        seq![BACKSLASH, b]
    } else if b == 0x08 {
        seq![BACKSLASH, 0x62]
    } else if b == 0x09 {
        seq![BACKSLASH, 0x74]
    } else if b == 0x0a {
        seq![BACKSLASH, 0x6e]
    } else if b == 0x0c {
        seq![BACKSLASH, 0x66]
    } else if b == 0x0d {
        seq![BACKSLASH, 0x72]
    } else if b < 0x20 {
        seq![BACKSLASH, 0x75, ZERO, ZERO, hex_digit(b / 16), hex_digit(b % 16)]
    } else {
        seq![b]
    }
}

/// The escaped bytes, one after the other.
pub open spec fn escaped(bytes: Seq<u8>) -> Seq<u8>
    decreases bytes.len(),
{
    if bytes.len() == 0 {
        seq![]
    } else {
        escaped_byte(bytes[0]) + escaped(bytes.drop_first())
    }
}

/// A text as a JSON string: its UTF-8 bytes, escaped, between quotes.
pub open spec fn text_bytes(s: Seq<char>) -> Seq<u8> {
    seq![QUOTE] + escaped(encode_utf8(s)) + seq![QUOTE]
}

/// A natural number in decimal, without leading zeros.
pub open spec fn decimal(n: nat) -> Seq<u8>
    decreases n,
{
    if n < 10 {
        seq![(ZERO + n) as u8]
    } else {
        decimal(n / 10).push((ZERO + n % 10) as u8)
    }
}

/// An integer in decimal, with a minus sign where it is negative.
pub open spec fn integer_bytes(n: int) -> Seq<u8> {
    if n < 0 {
        seq![MINUS] + decimal((-n) as nat)
    } else {
        decimal(n as nat)
    }
}

pub open spec fn scalar_bytes(v: Scalar) -> Seq<u8> {
    match v {
        Scalar::Text(s) => text_bytes(s),
        Scalar::Integer(n) => integer_bytes(n),
    }
}

pub open spec fn member_bytes(m: Member) -> Seq<u8> {
    text_bytes(m.name) + seq![COLON] + scalar_bytes(m.value)
}

/// The members in order, separated by commas.
pub open spec fn members_bytes(ms: Seq<Member>) -> Seq<u8>
    decreases ms.len(),
{
    if ms.len() == 0 {
        seq![]
    } else if ms.len() == 1 {
        member_bytes(ms[0])
    } else {
        member_bytes(ms[0]) + seq![COMMA] + members_bytes(ms.drop_first())
    }
}

/// The value that the members give under `name`, the first where there are several.
pub open spec fn value_named(ms: Seq<Member>, name: Seq<char>) -> Option<Scalar>
    decreases ms.len(),
{
    if ms.len() == 0 {
        None
    } else if ms[0].name == name {
        Some(ms[0].value)
    } else {
        value_named(ms.drop_first(), name)
    }
}

/// A compact JSON object.
pub open spec fn object_bytes(ms: Seq<Member>) -> Seq<u8> {
    seq![OPEN_BRACE] + members_bytes(ms) + seq![CLOSE_BRACE]
}

// ---------------------------------------------------------------------------
// Writing, through serde_json
// ---------------------------------------------------------------------------

/// Calls `serde_json::to_vec` on a text. It writes the UTF-8 bytes between quotes, with
/// quotes, backslashes and the bytes below 0x20 escaped, and does not fail: a text has no
/// map keys, and its `Serialize` never gives up.
#[verifier::external_body]
fn write_text(s: &str) -> (r: Result<Vec<u8>, serde_json::Error>)
    ensures
        r is Ok,
        r->Ok_0@ == text_bytes(s@),
{
    serde_json::to_vec(s)
}

/// Calls `serde_json::to_vec` on a `u64`. It writes the number in decimal and does not fail.
#[verifier::external_body]
fn write_unsigned(n: u64) -> (r: Result<Vec<u8>, serde_json::Error>)
    ensures
        r is Ok,
        r->Ok_0@ == integer_bytes(n as int),
{
    serde_json::to_vec(&n)
}

/// Calls `serde_json::to_vec` on an `i64`. It writes the number in decimal, with a minus sign
/// where it is negative, and does not fail.
#[verifier::external_body]
fn write_signed(n: i64) -> (r: Result<Vec<u8>, serde_json::Error>)
    ensures
        r is Ok,
        r->Ok_0@ == integer_bytes(n as int),
{
    serde_json::to_vec(&n)
}

/// A JSON object under construction: the members so far, without the closing brace.
pub struct ObjectWriter {
    bytes: Vec<u8>,
    members: Ghost<Seq<Member>>,
}

impl ObjectWriter {
    /// The members written so far.
    pub closed spec fn members(&self) -> Seq<Member> {
        self.members@
    }

    pub closed spec fn wf(&self) -> bool {
        self.bytes@ == seq![OPEN_BRACE] + members_bytes(self.members@)
    }

    pub fn new() -> (w: Self)
        ensures
            w.wf(),
            w.members() == Seq::<Member>::empty(),
    {
        let mut bytes: Vec<u8> = Vec::new();
        bytes.push(OPEN_BRACE);
        let w = ObjectWriter { bytes, members: Ghost(Seq::empty()) };
        assert(w.bytes@ =~= seq![OPEN_BRACE] + members_bytes(w.members@));
        w
    }

    /// Writes one member whose value is already encoded.
    fn push_member(&mut self, name: &str, mut value: Vec<u8>, Ghost(v): Ghost<Scalar>) -> (r: Result<
        (),
        serde_json::Error,
    >)
        requires
            old(self).wf(),
            value@ == scalar_bytes(v),
        ensures
            r is Ok,
            final(self).wf(),
            final(self).members() == old(self).members().push(Member { name: name@, value: v }),
    {
        let mut key = match write_text(name) {
            Ok(key) => key,
            Err(e) => return Err(e),
        };
        proof {
            lemma_members_push(self.members@, Member { name: name@, value: v });
        }
        if self.bytes.len() > 1 {
            self.bytes.push(COMMA);
        }
        self.bytes.append(&mut key);
        self.bytes.push(COLON);
        self.bytes.append(&mut value);
        proof {
            let ms = old(self).members@;
            let m = Member { name: name@, value: v };
            if ms.len() > 0 {
                lemma_members_nonempty(ms);
            }
            assert(self.bytes@ =~= seq![OPEN_BRACE] + members_bytes(ms.push(m)));
            self.members@ = ms.push(m);
        }
        Ok(())
    }

    pub fn text(&mut self, name: &str, value: &str) -> (r: Result<(), serde_json::Error>)
        requires
            old(self).wf(),
        ensures
            r is Ok,
            final(self).wf(),
            final(self).members() == old(self).members().push(
                Member { name: name@, value: Scalar::Text(value@) },
            ),
    {
        let bytes = match write_text(value) {
            Ok(bytes) => bytes,
            Err(e) => return Err(e),
        };
        self.push_member(name, bytes, Ghost(Scalar::Text(value@)))
    }

    pub fn unsigned(&mut self, name: &str, value: u64) -> (r: Result<(), serde_json::Error>)
        requires
            old(self).wf(),
        ensures
            r is Ok,
            final(self).wf(),
            final(self).members() == old(self).members().push(
                Member { name: name@, value: Scalar::Integer(value as int) },
            ),
    {
        let bytes = match write_unsigned(value) {
            Ok(bytes) => bytes,
            Err(e) => return Err(e),
        };
        self.push_member(name, bytes, Ghost(Scalar::Integer(value as int)))
    }

    pub fn signed(&mut self, name: &str, value: i64) -> (r: Result<(), serde_json::Error>)
        requires
            old(self).wf(),
        ensures
            r is Ok,
            final(self).wf(),
            final(self).members() == old(self).members().push(
                Member { name: name@, value: Scalar::Integer(value as int) },
            ),
    {
        let bytes = match write_signed(value) {
            Ok(bytes) => bytes,
            Err(e) => return Err(e),
        };
        self.push_member(name, bytes, Ghost(Scalar::Integer(value as int)))
    }

    /// Closes the object.
    pub fn finish(self) -> (bytes: Vec<u8>)
        requires
            self.wf(),
        ensures
            bytes@ == object_bytes(self.members()),
    {
        let mut bytes = self.bytes;
        bytes.push(CLOSE_BRACE);
        assert(bytes@ =~= object_bytes(self.members@));
        bytes
    }
}

// ---------------------------------------------------------------------------
// Facts about the encoding
// ---------------------------------------------------------------------------

proof fn lemma_members_nonempty(ms: Seq<Member>)
    requires
        ms.len() > 0,
    ensures
        members_bytes(ms).len() > 0,
{
}

/// Appending a member appends its bytes, after a comma where it is not the first.
proof fn lemma_members_push(ms: Seq<Member>, m: Member)
    ensures
        members_bytes(ms.push(m)) == if ms.len() == 0 {
            member_bytes(m)
        } else {
            members_bytes(ms) + seq![COMMA] + member_bytes(m)
        },
    decreases ms.len(),
{
    if ms.len() == 0 {
        assert(ms.push(m)[0] == m);
    } else {
        let rest = ms.drop_first();
        lemma_members_push(rest, m);
        assert(ms.push(m).drop_first() =~= rest.push(m));
        assert(ms.push(m)[0] == ms[0]);
        if ms.len() == 1 {
            assert(rest.len() == 0);
            assert(members_bytes(ms.push(m)) =~= member_bytes(ms[0]) + seq![COMMA] + member_bytes(m));
        } else {
            assert(members_bytes(ms.push(m)) =~= members_bytes(ms) + seq![COMMA] + member_bytes(m));
        }
    }
}

/// An object is its braces with the members between them: it starts empty, its first member
/// stands alone, and every other is appended behind a comma.
pub proof fn law_objects_grow_by_a_member(ms: Seq<Member>, m: Member)
    ensures
        object_bytes(Seq::empty()) == seq![OPEN_BRACE, CLOSE_BRACE],
        ms.len() == 0 ==> object_bytes(ms.push(m)) == seq![OPEN_BRACE] + text_bytes(m.name) + seq![
            COLON,
        ] + scalar_bytes(m.value) + seq![CLOSE_BRACE],
        ms.len() > 0 ==> object_bytes(ms.push(m)) == object_bytes(ms).drop_last() + seq![COMMA]
            + text_bytes(m.name) + seq![COLON] + scalar_bytes(m.value) + seq![CLOSE_BRACE],
{
    lemma_members_push(ms, m);
    assert(object_bytes(Seq::empty()) =~= seq![OPEN_BRACE, CLOSE_BRACE]);
    let tail = text_bytes(m.name) + seq![COLON] + scalar_bytes(m.value);
    if ms.len() == 0 {
        assert(object_bytes(ms.push(m)) =~= seq![OPEN_BRACE] + text_bytes(m.name) + seq![COLON]
            + scalar_bytes(m.value) + seq![CLOSE_BRACE]);
    } else {
        assert(object_bytes(ms).drop_last() =~= seq![OPEN_BRACE] + members_bytes(ms));
        assert(object_bytes(ms.push(m)) =~= object_bytes(ms).drop_last() + seq![COMMA] + text_bytes(
            m.name,
        ) + seq![COLON] + scalar_bytes(m.value) + seq![CLOSE_BRACE]);
    }
}

/// Members are found in the first of two lists that has them.
pub proof fn lemma_value_named_in_both(a: Seq<Member>, b: Seq<Member>, name: Seq<char>)
    ensures
        value_named(a + b, name) == match value_named(a, name) {
            Some(v) => Some(v),
            None => value_named(b, name),
        },
    decreases a.len(),
{
    if a.len() == 0 {
        assert(a + b =~= b);
    } else {
        assert((a + b)[0] == a[0]);
        assert((a + b).drop_first() =~= a.drop_first() + b);
        lemma_value_named_in_both(a.drop_first(), b, name);
    }
}

/// A member is found under its name where no member before it has that name.
pub proof fn lemma_value_named_at(ms: Seq<Member>, i: int)
    requires
        0 <= i < ms.len(),
        forall|j: int| 0 <= j < i ==> (#[trigger] ms[j]).name != ms[i].name,
    ensures
        value_named(ms, ms[i].name) == Some(ms[i].value),
    decreases i,
{
    if i > 0 {
        assert(ms[0].name != ms[i].name);
        let rest = ms.drop_first();
        assert(rest[i - 1] == ms[i]);
        assert forall|j: int| 0 <= j < i - 1 implies (#[trigger] rest[j]).name != rest[i - 1].name by {
            assert(rest[j] == ms[j + 1]);
        }
        lemma_value_named_at(rest, i - 1);
    }
}

/// Nothing is found under a name that no member has.
pub proof fn lemma_value_named_absent(ms: Seq<Member>, name: Seq<char>)
    requires
        forall|j: int| 0 <= j < ms.len() ==> (#[trigger] ms[j]).name != name,
    ensures
        value_named(ms, name) is None,
    decreases ms.len(),
{
    if ms.len() > 0 {
        assert(ms[0].name != name);
        let rest = ms.drop_first();
        assert forall|j: int| 0 <= j < rest.len() implies (#[trigger] rest[j]).name != name by {
            assert(rest[j] == ms[j + 1]);
        }
        lemma_value_named_absent(rest, name);
    }
}

} // verus!
