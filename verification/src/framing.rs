//! How a control command is framed for the sidecar's stdin: one compact JSON object per line.
use vstd::prelude::*;
use vstd::utf8::encode_utf8;

use crate::json::{
    decimal, escaped, escaped_byte, hex_digit, integer_bytes, member_bytes, members_bytes,
    object_bytes, scalar_bytes, text_bytes, Member, Scalar, BACKSLASH, CLOSE_BRACE, COLON, COMMA,
    MINUS, NEWLINE, OPEN_BRACE, QUOTE, ZERO,
};

verus! {

/// The bytes of a control line: the object, then a newline.
pub open spec fn control_line(ms: Seq<Member>) -> Seq<u8> {
    object_bytes(ms).push(NEWLINE)
}

// ---------------------------------------------------------------------------
// A line is a line
// ---------------------------------------------------------------------------

/// No byte of `bytes` is a newline.
pub open spec fn newline_free(bytes: Seq<u8>) -> bool {
    forall|i: int| 0 <= i < bytes.len() ==> bytes[i] != NEWLINE
}

proof fn lemma_escaped_newline_free(bytes: Seq<u8>)
    ensures
        newline_free(escaped(bytes)),
    decreases bytes.len(),
{
    if bytes.len() > 0 {
        lemma_escaped_newline_free(bytes.drop_first());
        assert(newline_free(escaped_byte(bytes[0])));
    }
}

proof fn lemma_decimal_digits(n: nat)
    ensures
        decimal(n).len() > 0,
        forall|i: int| 0 <= i < decimal(n).len() ==> ZERO <= #[trigger] decimal(n)[i] <= ZERO + 9,
    decreases n,
{
    if n >= 10 {
        lemma_decimal_digits(n / 10);
    }
}

proof fn lemma_member_newline_free(m: Member)
    ensures
        newline_free(member_bytes(m)),
{
    lemma_escaped_newline_free(encode_utf8(m.name));
    match m.value {
        Scalar::Text(s) => lemma_escaped_newline_free(encode_utf8(s)),
        Scalar::Integer(n) => lemma_decimal_digits(if n < 0 { (-n) as nat } else { n as nat }),
    }
}

proof fn lemma_members_newline_free(ms: Seq<Member>)
    ensures
        newline_free(members_bytes(ms)),
    decreases ms.len(),
{
    if ms.len() > 0 {
        lemma_member_newline_free(ms[0]);
        lemma_members_newline_free(ms.drop_first());
    }
}

/// Whatever the members hold, a control line has exactly one newline, and that is its last
/// byte: a text with line breaks in it cannot break out of its line.
pub proof fn law_control_line_is_one_line(ms: Seq<Member>)
    ensures
        control_line(ms).len() > 0,
        control_line(ms).last() == NEWLINE,
        newline_free(control_line(ms).drop_last()),
{
    lemma_members_newline_free(ms);
    assert(control_line(ms).drop_last() =~= object_bytes(ms));
}

// ---------------------------------------------------------------------------
// A line says what it was made from
// ---------------------------------------------------------------------------

proof fn lemma_escaped_byte_prefix(p: u8, q: u8, x: Seq<u8>, y: Seq<u8>)
    requires
        escaped_byte(p) + x == escaped_byte(q) + y,
    ensures
        p == q,
        x == y,
{
    let l = escaped_byte(p) + x;
    let r = escaped_byte(q) + y;
    assert(l[0] == escaped_byte(p)[0]);
    assert(r[0] == escaped_byte(q)[0]);
    if l[0] == BACKSLASH {
        assert(l[1] == escaped_byte(p)[1]);
        assert(r[1] == escaped_byte(q)[1]);
        if l[1] == 0x75 {
            assert(l[4] == escaped_byte(p)[4]);
            assert(r[4] == escaped_byte(q)[4]);
            assert(l[5] == escaped_byte(p)[5]);
            assert(r[5] == escaped_byte(q)[5]);
            assert(hex_digit(p / 16) == hex_digit(q / 16));
            assert(hex_digit(p % 16) == hex_digit(q % 16));
            assert(p / 16 == q / 16 && p % 16 == q % 16);
        }
    }
    assert(p == q);
    assert(x =~= l.skip(escaped_byte(p).len() as int));
    assert(y =~= r.skip(escaped_byte(q).len() as int));
}

proof fn lemma_escaped_terminated(a: Seq<u8>, b: Seq<u8>, x: Seq<u8>, y: Seq<u8>)
    requires
        escaped(a) + (seq![QUOTE] + x) == escaped(b) + (seq![QUOTE] + y),
    ensures
        a == b,
        x == y,
    decreases a.len(),
{
    let l = escaped(a) + (seq![QUOTE] + x);
    let r = escaped(b) + (seq![QUOTE] + y);
    if a.len() == 0 && b.len() == 0 {
        assert(a =~= b);
        assert(x =~= l.skip(1));
        assert(y =~= r.skip(1));
    } else if a.len() == 0 {
        assert(l[0] == QUOTE);
        assert(r[0] == escaped_byte(b[0])[0]);
    } else if b.len() == 0 {
        assert(r[0] == QUOTE);
        assert(l[0] == escaped_byte(a[0])[0]);
    } else {
        let ta = escaped(a.drop_first()) + (seq![QUOTE] + x);
        let tb = escaped(b.drop_first()) + (seq![QUOTE] + y);
        assert(l =~= escaped_byte(a[0]) + ta);
        assert(r =~= escaped_byte(b[0]) + tb);
        lemma_escaped_byte_prefix(a[0], b[0], ta, tb);
        lemma_escaped_terminated(a.drop_first(), b.drop_first(), x, y);
        assert(a =~= seq![a[0]] + a.drop_first());
        assert(b =~= seq![b[0]] + b.drop_first());
    }
}

proof fn lemma_text_prefix(s: Seq<char>, t: Seq<char>, x: Seq<u8>, y: Seq<u8>)
    requires
        text_bytes(s) + x == text_bytes(t) + y,
    ensures
        s == t,
        x == y,
{
    let l = text_bytes(s) + x;
    let r = text_bytes(t) + y;
    assert(l.skip(1) =~= escaped(encode_utf8(s)) + (seq![QUOTE] + x));
    assert(r.skip(1) =~= escaped(encode_utf8(t)) + (seq![QUOTE] + y));
    lemma_escaped_terminated(encode_utf8(s), encode_utf8(t), x, y);
    vstd::utf8::encode_utf8_decode_utf8(s);
    vstd::utf8::encode_utf8_decode_utf8(t);
}

proof fn lemma_decimal_injective(a: nat, b: nat)
    requires
        decimal(a) == decimal(b),
    ensures
        a == b,
    decreases a,
{
    lemma_decimal_digits(a);
    lemma_decimal_digits(b);
    if a < 10 && b < 10 {
        assert(decimal(a)[0] == ZERO + a);
        assert(decimal(b)[0] == ZERO + b);
    } else if a >= 10 && b >= 10 {
        assert(decimal(a).drop_last() =~= decimal(a / 10));
        assert(decimal(b).drop_last() =~= decimal(b / 10));
        assert(decimal(a).last() == ZERO + a % 10);
        assert(decimal(b).last() == ZERO + b % 10);
        lemma_decimal_injective(a / 10, b / 10);
    } else if a < 10 {
        lemma_decimal_digits(b / 10);
        assert(decimal(b).len() == decimal(b / 10).len() + 1);
    } else {
        lemma_decimal_digits(a / 10);
        assert(decimal(a).len() == decimal(a / 10).len() + 1);
    }
}

/// `x` goes on where a value ends: with a comma or the closing brace.
spec fn after_value(x: Seq<u8>) -> bool {
    x.len() > 0 && (x[0] == COMMA || x[0] == CLOSE_BRACE)
}

proof fn lemma_decimal_prefix(a: nat, b: nat, x: Seq<u8>, y: Seq<u8>)
    requires
        decimal(a) + x == decimal(b) + y,
        after_value(x),
        after_value(y),
    ensures
        a == b,
        x == y,
{
    lemma_decimal_digits(a);
    lemma_decimal_digits(b);
    let l = decimal(a) + x;
    let r = decimal(b) + y;
    let n = decimal(a).len() as int;
    let m = decimal(b).len() as int;
    assert(l[n] == x[0]);
    assert(r[m] == y[0]);
    if n < m {
        assert(r[n] == decimal(b)[n]);
    }
    if m < n {
        assert(l[m] == decimal(a)[m]);
    }
    assert(decimal(a) =~= l.take(n));
    assert(decimal(b) =~= r.take(m));
    assert(x =~= l.skip(n));
    assert(y =~= r.skip(m));
    lemma_decimal_injective(a, b);
}

proof fn lemma_integer_prefix(a: int, b: int, x: Seq<u8>, y: Seq<u8>)
    requires
        integer_bytes(a) + x == integer_bytes(b) + y,
        after_value(x),
        after_value(y),
    ensures
        a == b,
        x == y,
{
    let l = integer_bytes(a) + x;
    let r = integer_bytes(b) + y;
    let na: nat = if a < 0 { (-a) as nat } else { a as nat };
    let nb: nat = if b < 0 { (-b) as nat } else { b as nat };
    lemma_decimal_digits(na);
    lemma_decimal_digits(nb);
    assert(l[0] == integer_bytes(a)[0]);
    assert(r[0] == integer_bytes(b)[0]);
    if a < 0 {
        assert(b < 0) by {
            if b >= 0 {
                assert(r[0] == decimal(nb)[0]);
            }
        }
        assert(l.skip(1) =~= decimal(na) + x);
        assert(r.skip(1) =~= decimal(nb) + y);
        lemma_decimal_prefix(na, nb, x, y);
    } else {
        assert(l[0] == decimal(na)[0]);
        assert(b >= 0);
        lemma_decimal_prefix(na, nb, x, y);
    }
}

proof fn lemma_scalar_prefix(v: Scalar, w: Scalar, x: Seq<u8>, y: Seq<u8>)
    requires
        scalar_bytes(v) + x == scalar_bytes(w) + y,
        after_value(x),
        after_value(y),
    ensures
        v == w,
        x == y,
{
    let l = scalar_bytes(v) + x;
    let r = scalar_bytes(w) + y;
    match (v, w) {
        (Scalar::Text(s), Scalar::Text(t)) => lemma_text_prefix(s, t, x, y),
        (Scalar::Integer(a), Scalar::Integer(b)) => lemma_integer_prefix(a, b, x, y),
        (Scalar::Text(s), Scalar::Integer(b)) => {
            lemma_decimal_digits(if b < 0 { (-b) as nat } else { b as nat });
            assert(l[0] == QUOTE);
            assert(r[0] == integer_bytes(b)[0]);
        },
        (Scalar::Integer(a), Scalar::Text(t)) => {
            lemma_decimal_digits(if a < 0 { (-a) as nat } else { a as nat });
            assert(r[0] == QUOTE);
            assert(l[0] == integer_bytes(a)[0]);
        },
    }
}

proof fn lemma_member_prefix(m: Member, n: Member, x: Seq<u8>, y: Seq<u8>)
    requires
        member_bytes(m) + x == member_bytes(n) + y,
        after_value(x),
        after_value(y),
    ensures
        m == n,
        x == y,
{
    let l = scalar_bytes(m.value) + x;
    let r = scalar_bytes(n.value) + y;
    assert(member_bytes(m) + x =~= text_bytes(m.name) + (seq![COLON] + l));
    assert(member_bytes(n) + y =~= text_bytes(n.name) + (seq![COLON] + r));
    lemma_text_prefix(m.name, n.name, seq![COLON] + l, seq![COLON] + r);
    assert(l =~= (seq![COLON] + l).skip(1));
    assert(r =~= (seq![COLON] + r).skip(1));
    lemma_scalar_prefix(m.value, n.value, x, y);
}

/// What stands behind the first member of `ms`, up to and with the closing brace and `x`.
spec fn behind_first(ms: Seq<Member>, x: Seq<u8>) -> Seq<u8> {
    if ms.len() == 1 {
        seq![CLOSE_BRACE] + x
    } else {
        seq![COMMA] + (members_bytes(ms.drop_first()) + (seq![CLOSE_BRACE] + x))
    }
}

proof fn lemma_members_split(ms: Seq<Member>, x: Seq<u8>)
    requires
        ms.len() > 0,
    ensures
        members_bytes(ms) + (seq![CLOSE_BRACE] + x) == member_bytes(ms[0]) + behind_first(ms, x),
        after_value(behind_first(ms, x)),
        (members_bytes(ms) + (seq![CLOSE_BRACE] + x))[0] == QUOTE,
{
    assert(members_bytes(ms) + (seq![CLOSE_BRACE] + x) =~= member_bytes(ms[0]) + behind_first(
        ms,
        x,
    ));
    assert((member_bytes(ms[0]) + behind_first(ms, x))[0] == text_bytes(ms[0].name)[0]);
}

proof fn lemma_members_prefix(a: Seq<Member>, b: Seq<Member>, x: Seq<u8>)
    requires
        members_bytes(a) + (seq![CLOSE_BRACE] + x) == members_bytes(b) + (seq![CLOSE_BRACE] + x),
    ensures
        a == b,
    decreases a.len(),
{
    let close = seq![CLOSE_BRACE] + x;
    if a.len() == 0 && b.len() == 0 {
        assert(a =~= b);
    } else if a.len() == 0 {
        lemma_members_split(b, x);
        assert((members_bytes(a) + close)[0] == CLOSE_BRACE);
    } else if b.len() == 0 {
        lemma_members_split(a, x);
        assert((members_bytes(b) + close)[0] == CLOSE_BRACE);
    } else {
        lemma_members_split(a, x);
        lemma_members_split(b, x);
        lemma_member_prefix(a[0], b[0], behind_first(a, x), behind_first(b, x));
        let ra = a.drop_first();
        let rb = b.drop_first();
        if a.len() > 1 && b.len() > 1 {
            assert(members_bytes(ra) + close =~= behind_first(a, x).skip(1));
            assert(members_bytes(rb) + close =~= behind_first(b, x).skip(1));
            lemma_members_prefix(ra, rb, x);
        } else if a.len() == 1 && b.len() == 1 {
            assert(ra =~= rb);
        } else {
            assert(behind_first(a, x)[0] != behind_first(b, x)[0]);
        }
        assert(a =~= seq![a[0]] + ra);
        assert(b =~= seq![b[0]] + rb);
    }
}

/// A control line can be read in one way only: two lines are equal exactly where they were
/// made from the same members, in the same order.
pub proof fn law_control_line_is_unambiguous(a: Seq<Member>, b: Seq<Member>)
    ensures
        control_line(a) == control_line(b) <==> a == b,
{
    if control_line(a) == control_line(b) {
        let end = seq![NEWLINE];
        let close = seq![CLOSE_BRACE] + end;
        assert(control_line(a) =~= seq![OPEN_BRACE] + (members_bytes(a) + close));
        assert(control_line(b) =~= seq![OPEN_BRACE] + (members_bytes(b) + close));
        assert(control_line(a).skip(1) =~= members_bytes(a) + close);
        assert(control_line(b).skip(1) =~= members_bytes(b) + close);
        lemma_members_prefix(a, b, end);
    }
}

/// A control line is its object and the newline behind it, and nothing more.
pub proof fn law_control_line_is_its_object(ms: Seq<Member>)
    ensures
        control_line(ms) == object_bytes(ms) + seq![NEWLINE],
{
    assert(control_line(ms) =~= object_bytes(ms) + seq![NEWLINE]);
}

} // verus!
