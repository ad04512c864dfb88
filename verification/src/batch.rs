//! From raw ring-buffer payloads to the messages of the chat feed.
use vstd::prelude::*;

verus! {

/// How long the drain loop waits for a signal, in milliseconds. The sidecar signals each ring
/// write, so this only bounds the latency of a missed signal: short enough not to be noticed,
/// long enough not to burn wakes while the sidecar is quiet.
pub const SIGNAL_WAIT_TIMEOUT: u64 = 100;

/// The name of the sidecar's binary.
pub const SIDECAR_BINARY: &'static str = "sidecar";

/// Platform tag bytes that the sidecar puts before each payload.
pub const TAG_TWITCH: u8 = 0x01;

pub const TAG_KICK: u8 = 0x02;

pub const TAG_YOUTUBE: u8 = 0x03;

/// Where a message comes from.
#[derive(Debug, Clone, Copy, PartialEq, Eq, Structural)]
pub enum Platform {
    Twitch,
    Kick,
    YouTube,
}

/// Who offers an emote.
#[derive(Debug, Clone, Copy, PartialEq, Eq, Structural)]
pub enum Provider {
    Twitch,
    SevenTv,
    Bttv,
    Ffz,
}

/// An emote that can stand in a message.
#[derive(Debug, Clone)]
pub struct EmoteMeta {
    pub id: String,
    pub code: String,
    pub provider: Provider,
    pub url_1x: String,
    pub url_2x: String,
    pub url_4x: String,
    pub width: u32,
    pub height: u32,
    pub animated: bool,
    pub zero_width: bool,
}

/// An emote in a message: the bytes `start..end` of its text.
#[derive(Debug, Clone)]
pub struct EmoteSpan {
    pub start: usize,
    pub end: usize,
    pub emote: EmoteMeta,
}

/// A badge that a chatter wears. The frontend resolves it against its own store.
#[derive(Debug, Clone)]
pub struct Badge {
    pub set_id: String,
    pub id: String,
}

/// A chat message, whatever platform it comes from. Times are in milliseconds since the Unix
/// epoch. `D` is whatever else a parser finds in the payload, which the host hands through.
#[derive(Debug, Clone)]
pub struct UnifiedMessage<D> {
    pub platform: Platform,
    pub display_name: String,
    pub message_text: String,
    pub badges: Vec<Badge>,
    pub emote_spans: Vec<EmoteSpan>,
    /// When the platform says that the message was sent.
    pub timestamp: i64,
    /// When the message reached the host.
    pub arrival_time: i64,
    /// What the feed sorts by.
    pub effective_ts: i64,
    /// Orders messages with the same `effective_ts`; given by the drain loop.
    pub arrival_seq: u64,
    pub details: D,
}

/// What a platform's parser made of a payload.
#[derive(Debug)]
pub enum ParseOutcome<D> {
    Message(UnifiedMessage<D>),
    /// Well-formed, but no chat message.
    NotChat,
    /// Malformed.
    Failed,
    /// The parser panicked.
    Panicked,
}

/// The platform that a tag byte stands for.
pub open spec fn platform_of(tag: u8) -> Option<Platform> {
    if tag == TAG_TWITCH {
        Some(Platform::Twitch)
    } else if tag == TAG_KICK {
        Some(Platform::Kick)
    } else if tag == TAG_YOUTUBE {
        Some(Platform::YouTube)
    } else {
        None
    }
}

/// The platform that a tag byte stands for; `None` where it stands for none.
pub fn tagged_platform(tag: u8) -> (r: Option<Platform>)
    ensures
        r == platform_of(tag),
{
    if tag == TAG_TWITCH {
        Some(Platform::Twitch)
    } else if tag == TAG_KICK {
        Some(Platform::Kick)
    } else if tag == TAG_YOUTUBE {
        Some(Platform::YouTube)
    } else {
        None
    }
}

/// What the batch gets for one outcome of a parser: a message with the emotes that `scan` finds
/// in its text added and with the time that `stamp` gives it, or nothing.
pub open spec fn finished<D, S, T>(
    scan: S,
    stamp: T,
    outcome: ParseOutcome<D>,
    out: Option<UnifiedMessage<D>>,
) -> bool where
    S: Fn(&str, Vec<EmoteSpan>) -> Vec<EmoteSpan>,
    T: Fn(i64, i64) -> i64,
 {
    match outcome {
        ParseOutcome::Message(msg) => exists|text: &str, spans: Vec<EmoteSpan>, ts: i64|
            {
                &&& #[trigger] call_ensures(scan, (text, msg.emote_spans), spans)
                &&& #[trigger] call_ensures(stamp, (msg.timestamp, msg.arrival_time), ts)
                &&& text@ == msg.message_text@
                &&& out == Some(UnifiedMessage { emote_spans: spans, effective_ts: ts, ..msg })
            },
        _ => out is None,
    }
}

/// What the batch gets for one payload: the tag byte picks the platform, whose parser gets the
/// bytes after it. An empty payload and one with an unknown tag give nothing, and no parser sees
/// them.
pub open spec fn handled<D, P, S, T>(
    parse: P,
    scan: S,
    stamp: T,
    payload: Seq<u8>,
    out: Option<UnifiedMessage<D>>,
) -> bool where
    P: Fn(Platform, &[u8]) -> ParseOutcome<D>,
    S: Fn(&str, Vec<EmoteSpan>) -> Vec<EmoteSpan>,
    T: Fn(i64, i64) -> i64,
 {
    if payload.len() == 0 {
        out is None
    } else {
        match platform_of(payload[0]) {
            Some(platform) => exists|data: &[u8], outcome: ParseOutcome<D>|
                {
                    &&& #[trigger] call_ensures(parse, (platform, data), outcome)
                    &&& data@ == payload.skip(1)
                    &&& finished(scan, stamp, outcome, out)
                },
            None => out is None,
        }
    }
}

/// The messages among `outs`, in their order.
pub open spec fn kept<D>(outs: Seq<Option<UnifiedMessage<D>>>) -> Seq<UnifiedMessage<D>>
    decreases outs.len(),
{
    if outs.len() == 0 {
        Seq::empty()
    } else {
        match outs.last() {
            Some(msg) => kept(outs.drop_last()).push(msg),
            None => kept(outs.drop_last()),
        }
    }
}

/// Handles one payload.
fn handle_payload<D, P, S, T>(payload: &Vec<u8>, parse: &P, scan: &S, stamp: &T) -> (out: Option<
    UnifiedMessage<D>,
>) where
    P: Fn(Platform, &[u8]) -> ParseOutcome<D>,
    S: Fn(&str, Vec<EmoteSpan>) -> Vec<EmoteSpan>,
    T: Fn(i64, i64) -> i64,

    requires
        forall|platform: Platform, data: &[u8]| call_requires(*parse, (platform, data)),
        forall|text: &str, spans: Vec<EmoteSpan>| call_requires(*scan, (text, spans)),
        forall|timestamp: i64, arrival: i64| call_requires(*stamp, (timestamp, arrival)),
    ensures
        handled(*parse, *scan, *stamp, payload@, out),
{
    if payload.len() == 0 {
        return None;
    }
    let platform = match tagged_platform(payload[0]) {
        Some(platform) => platform,
        None => return None,
    };
    let data = vstd::slice::slice_subrange(payload.as_slice(), 1, payload.len());
    assert(data@ =~= payload@.skip(1));
    let outcome = parse(platform, data);
    let ghost parsed = outcome;
    let out = match outcome {
        ParseOutcome::Message(msg) => {
            let UnifiedMessage {
                platform,
                display_name,
                message_text,
                badges,
                emote_spans,
                timestamp,
                arrival_time,
                effective_ts: _,
                arrival_seq,
                details,
            } = msg;
            let emote_spans = scan(message_text.as_str(), emote_spans);
            let effective_ts: i64 = stamp(timestamp, arrival_time);
            Some(
                UnifiedMessage {
                    platform,
                    display_name,
                    message_text,
                    badges,
                    emote_spans,
                    timestamp,
                    arrival_time,
                    effective_ts,
                    arrival_seq,
                    details,
                },
            )
        },
        _ => None,
    };
    assert(finished(*scan, *stamp, parsed, out));
    out
}

/// Turns raw ring-buffer payloads into messages and appends them to `batch`. `parse` is the
/// platforms' parsers, `scan` adds the emotes in a text to those that are known already, and
/// `stamp` gives a message its place in the feed, from its two times. What is no chat message,
/// or cannot be parsed, is dropped.
pub fn parse_batch<D, P, S, T>(
    raw: &[Vec<u8>],
    batch: &mut Vec<UnifiedMessage<D>>,
    parse: P,
    scan: S,
    stamp: T,
) where
    P: Fn(Platform, &[u8]) -> ParseOutcome<D>,
    S: Fn(&str, Vec<EmoteSpan>) -> Vec<EmoteSpan>,
    T: Fn(i64, i64) -> i64,

    requires
        forall|platform: Platform, data: &[u8]| call_requires(parse, (platform, data)),
        forall|text: &str, spans: Vec<EmoteSpan>| call_requires(scan, (text, spans)),
        forall|timestamp: i64, arrival: i64| call_requires(stamp, (timestamp, arrival)),
    ensures
        exists|outs: Seq<Option<UnifiedMessage<D>>>|
            {
                &&& outs.len() == raw@.len()
                &&& forall|i: int|
                    0 <= i < raw@.len() ==> handled(
                        parse,
                        scan,
                        stamp,
                        (#[trigger] raw@[i])@,
                        outs[i],
                    )
                &&& final(batch)@ == old(batch)@ + #[trigger] kept(outs)
            },
{
    let ghost mut outs: Seq<Option<UnifiedMessage<D>>> = Seq::empty();
    let ghost before = batch@;
    assert(batch@ =~= before + kept(outs));
    for i in 0..raw.len()
        invariant
            forall|platform: Platform, data: &[u8]| call_requires(parse, (platform, data)),
            forall|text: &str, spans: Vec<EmoteSpan>| call_requires(scan, (text, spans)),
            forall|timestamp: i64, arrival: i64| call_requires(stamp, (timestamp, arrival)),
            outs.len() == i,
            forall|j: int|
                0 <= j < i ==> handled(parse, scan, stamp, (#[trigger] raw@[j])@, outs[j]),
            batch@ == before + kept(outs),
    {
        let out = handle_payload(&raw[i], &parse, &scan, &stamp);
        proof {
            assert(outs.push(out).drop_last() =~= outs);
            outs = outs.push(out);
        }
        if let Some(msg) = out {
            batch.push(msg);
            assert(batch@ =~= before + kept(outs));
        }
    }
}

/// The messages of two batches of payloads, one after the other, are the messages of both
/// together: it does not matter where the drain loop cuts the stream.
pub proof fn law_batches_add_up<D>(
    first: Seq<Option<UnifiedMessage<D>>>,
    second: Seq<Option<UnifiedMessage<D>>>,
)
    ensures
        kept(first + second) == kept(first) + kept(second),
    decreases second.len(),
{
    if second.len() == 0 {
        assert(first + second =~= first);
        assert(kept(first) + kept(second) =~= kept(first));
    } else {
        law_batches_add_up(first, second.drop_last());
        assert((first + second).drop_last() =~= first + second.drop_last());
        assert(kept(first + second) =~= kept(first) + kept(second));
    }
}

/// No more messages come out than payloads went in, and each is one that a payload gave.
pub proof fn law_messages_come_from_payloads<D>(outs: Seq<Option<UnifiedMessage<D>>>)
    ensures
        kept(outs).len() <= outs.len(),
        forall|i: int|
            0 <= i < kept(outs).len() ==> outs.contains(Some(#[trigger] kept(outs)[i])),
    decreases outs.len(),
{
    if outs.len() > 0 {
        let rest = outs.drop_last();
        law_messages_come_from_payloads(rest);
        assert forall|i: int| 0 <= i < kept(outs).len() implies outs.contains(
            Some(#[trigger] kept(outs)[i]),
        ) by {
            if i < kept(rest).len() {
                let msg = kept(rest)[i];
                let j = choose|j: int| 0 <= j < rest.len() && rest[j] == Some(msg);
                assert(outs[j] == Some(msg));
            } else {
                assert(outs[outs.len() - 1] == Some(kept(outs)[i]));
            }
        }
    }
}

/// Empty payloads and unknown tags never reach the feed.
pub proof fn law_unknown_payloads_are_dropped<D, P, S, T>(
    parse: P,
    scan: S,
    stamp: T,
    payload: Seq<u8>,
    out: Option<UnifiedMessage<D>>,
) where
    P: Fn(Platform, &[u8]) -> ParseOutcome<D>,
    S: Fn(&str, Vec<EmoteSpan>) -> Vec<EmoteSpan>,
    T: Fn(i64, i64) -> i64,

    requires
        handled(parse, scan, stamp, payload, out),
        payload.len() == 0 || platform_of(payload[0]) is None,
    ensures
        out is None,
{
}

/// A payload whose parser fails, panics or finds no chat message never reaches the feed, and
/// of a message only the emotes and the place in the feed are the host's doing.
pub proof fn law_only_emotes_and_place_are_added<D, S, T>(
    scan: S,
    stamp: T,
    outcome: ParseOutcome<D>,
    out: Option<UnifiedMessage<D>>,
) where S: Fn(&str, Vec<EmoteSpan>) -> Vec<EmoteSpan>, T: Fn(i64, i64) -> i64
    requires
        finished(scan, stamp, outcome, out),
    ensures
        out is Some <==> outcome is Message,
        outcome matches ParseOutcome::Message(msg) ==> {
            &&& out->0.platform == msg.platform
            &&& out->0.display_name == msg.display_name
            &&& out->0.message_text == msg.message_text
            &&& out->0.badges == msg.badges
            &&& out->0.timestamp == msg.timestamp
            &&& out->0.arrival_time == msg.arrival_time
            &&& out->0.arrival_seq == msg.arrival_seq
            &&& out->0.details == msg.details
        },
{
}

/// Every message is scanned and placed, whatever its platform: the emotes that come out are what
/// `scan` makes of the text of this very message and of the emotes it came with, and the place is
/// what `stamp` makes of its two times.
pub proof fn law_every_message_is_scanned_and_placed<D, S, T>(
    scan: S,
    stamp: T,
    msg: UnifiedMessage<D>,
    out: Option<UnifiedMessage<D>>,
) where S: Fn(&str, Vec<EmoteSpan>) -> Vec<EmoteSpan>, T: Fn(i64, i64) -> i64
    requires
        finished(scan, stamp, ParseOutcome::Message(msg), out),
    ensures
        out is Some,
        exists|text: &str| #[trigger]
            call_ensures(scan, (text, msg.emote_spans), out->0.emote_spans) && text@
                == msg.message_text@,
        call_ensures(stamp, (msg.timestamp, msg.arrival_time), out->0.effective_ts),
{
    let (text, spans, ts) = choose|text: &str, spans: Vec<EmoteSpan>, ts: i64|
        {
            &&& #[trigger] call_ensures(scan, (text, msg.emote_spans), spans)
            &&& #[trigger] call_ensures(stamp, (msg.timestamp, msg.arrival_time), ts)
            &&& text@ == msg.message_text@
            &&& out == Some(UnifiedMessage { emote_spans: spans, effective_ts: ts, ..msg })
        };
    assert(out->0.emote_spans == spans);
    assert(call_ensures(scan, (text, msg.emote_spans), out->0.emote_spans));
}

/// A scan that finds the same emotes in equal texts finds them for every platform alike: two
/// messages that differ in the platform alone come out with the same emotes and the same place.
pub proof fn law_platforms_are_treated_alike<D, S, T>(
    scan: S,
    stamp: T,
    a: UnifiedMessage<D>,
    b: UnifiedMessage<D>,
    out_a: Option<UnifiedMessage<D>>,
    out_b: Option<UnifiedMessage<D>>,
) where S: Fn(&str, Vec<EmoteSpan>) -> Vec<EmoteSpan>, T: Fn(i64, i64) -> i64
    requires
        a.message_text@ == b.message_text@,
        a.emote_spans == b.emote_spans,
        a.timestamp == b.timestamp,
        a.arrival_time == b.arrival_time,
        forall|t: &str, u: &str, spans: Vec<EmoteSpan>, x: Vec<EmoteSpan>, y: Vec<EmoteSpan>|
            t@ == u@ && #[trigger] call_ensures(scan, (t, spans), x) && #[trigger] call_ensures(
                scan,
                (u, spans),
                y,
            ) ==> x == y,
        forall|t: i64, u: i64, x: i64, y: i64| #[trigger]
            call_ensures(stamp, (t, u), x) && #[trigger] call_ensures(stamp, (t, u), y) ==> x == y,
        finished(scan, stamp, ParseOutcome::Message(a), out_a),
        finished(scan, stamp, ParseOutcome::Message(b), out_b),
    ensures
        out_a is Some && out_b is Some,
        out_a->0.emote_spans == out_b->0.emote_spans,
        out_a->0.effective_ts == out_b->0.effective_ts,
{
}

/// A payload of a platform reaches that platform's parser whole but for its tag, and what the
/// parser makes of it decides: a message comes out exactly where the parser found one, and it is
/// the one that the parser found, scanned and placed.
pub proof fn law_payloads_reach_their_parser<D, P, S, T>(
    parse: P,
    scan: S,
    stamp: T,
    payload: Seq<u8>,
    out: Option<UnifiedMessage<D>>,
) where
    P: Fn(Platform, &[u8]) -> ParseOutcome<D>,
    S: Fn(&str, Vec<EmoteSpan>) -> Vec<EmoteSpan>,
    T: Fn(i64, i64) -> i64,

    requires
        handled(parse, scan, stamp, payload, out),
        payload.len() > 0,
        payload[0] == TAG_TWITCH || payload[0] == TAG_KICK || payload[0] == TAG_YOUTUBE,
    ensures
        exists|platform: Platform, data: &[u8], outcome: ParseOutcome<D>|
            {
                &&& #[trigger] call_ensures(parse, (platform, data), outcome)
                &&& seq![payload[0]] + data@ == payload
                &&& platform is Twitch <==> payload[0] == TAG_TWITCH
                &&& platform is Kick <==> payload[0] == TAG_KICK
                &&& platform is YouTube <==> payload[0] == TAG_YOUTUBE
                &&& outcome is Message <==> out is Some
                &&& outcome matches ParseOutcome::Message(msg) ==> {
                    &&& out->0.message_text == msg.message_text
                    &&& out->0.platform == msg.platform
                    &&& exists|text: &str| #[trigger]
                        call_ensures(scan, (text, msg.emote_spans), out->0.emote_spans) && text@
                            == msg.message_text@
                    &&& call_ensures(
                        stamp,
                        (msg.timestamp, msg.arrival_time),
                        out->0.effective_ts,
                    )
                }
            },
{
    let platform = platform_of(payload[0])->0;
    let (data, outcome) = choose|data: &[u8], outcome: ParseOutcome<D>|
        {
            &&& #[trigger] call_ensures(parse, (platform, data), outcome)
            &&& data@ == payload.skip(1)
            &&& finished(scan, stamp, outcome, out)
        };
    assert(call_ensures(parse, (platform, data), outcome));
    assert(seq![payload[0]] + data@ =~= payload);
    if let ParseOutcome::Message(msg) = outcome {
        law_every_message_is_scanned_and_placed(scan, stamp, msg, out);
    }
}

/// Only the three tags stand for a platform, and each for a different one.
pub proof fn law_tags_stand_for_one_platform_each(a: u8, b: u8)
    ensures
        platform_of(a) is Some <==> 1 <= a <= 3,
        platform_of(a) is Some && platform_of(a) == platform_of(b) ==> a == b,
{
}

/// Each payload that gave a message puts just that message into the feed, and each that gave
/// none leaves the feed as it was.
pub proof fn law_a_payload_adds_its_message<D>(
    before: Seq<Option<UnifiedMessage<D>>>,
    out: Option<UnifiedMessage<D>>,
)
    ensures
        out matches Some(msg) ==> kept(before.push(out)) == kept(before).push(msg),
        out is None ==> kept(before.push(out)) == kept(before),
        kept(Seq::<Option<UnifiedMessage<D>>>::empty()).len() == 0,
{
    assert(before.push(out).drop_last() =~= before);
}

/// Parsing a batch only appends: what was there stays in front, as it was, and each payload adds
/// one message at most.
pub proof fn law_batches_only_grow<D, P, S, T>(raw: &[Vec<u8>], parse: P, scan: S, stamp: T) where
    P: Fn(Platform, &[u8]) -> ParseOutcome<D>,
    S: Fn(&str, Vec<EmoteSpan>) -> Vec<EmoteSpan>,
    T: Fn(i64, i64) -> i64,

    ensures
        forall|batch: &mut Vec<UnifiedMessage<D>>, r: ()| #[trigger]
            call_ensures(parse_batch::<D, P, S, T>, (raw, batch, parse, scan, stamp), r) ==> {
                &&& batch@.len() <= final(batch)@.len() <= batch@.len() + raw@.len()
                &&& final(batch)@.take(batch@.len() as int) == batch@
            },
{
    assert forall|batch: &mut Vec<UnifiedMessage<D>>, r: ()| #[trigger]
        call_ensures(parse_batch::<D, P, S, T>, (raw, batch, parse, scan, stamp), r) implies {
        &&& batch@.len() <= final(batch)@.len() <= batch@.len() + raw@.len()
        &&& final(batch)@.take(batch@.len() as int) == batch@
    } by {
        let outs = choose|outs: Seq<Option<UnifiedMessage<D>>>|
            {
                &&& outs.len() == raw@.len()
                &&& forall|i: int|
                    0 <= i < raw@.len() ==> handled(
                        parse,
                        scan,
                        stamp,
                        (#[trigger] raw@[i])@,
                        outs[i],
                    )
                &&& final(batch)@ == batch@ + #[trigger] kept(outs)
            };
        law_messages_come_from_payloads(outs);
        assert(final(batch)@.take(batch@.len() as int) =~= batch@);
    }
}

} // verus!
