//! Reading what the probing tools report: numbers buried in text, track
//! kinds by their tags, and durations.

use crate::model::TrackKind;
use crate::seqs::{lemma_flatten_take_ends, lemma_flatten_take_step, push_arg};
use crate::text::{
    chars_of, decimal_digits, find_char, first_index_of, is_digit, is_digit_char, parse_u64,
    parse_unsigned, push_decimal, str_eq, string_of_range,
};
use vstd::prelude::*;
use vstd::string::StringExecFns;

verus! {

/// Each character of a text where it is a digit.
pub open spec fn digit_groups(text: Seq<char>) -> Seq<Seq<char>> {
    Seq::new(
        text.len(),
        |i: int|
            if is_digit(text[i]) {
                seq![text[i]]
            } else {
                Seq::empty()
            },
    )
}

/// The digits of a text, in order, without anything else.
pub open spec fn digits_of(text: Seq<char>) -> Seq<char> {
    digit_groups(text).flatten()
}

/// The digits of a text, in order, without anything else.
pub fn digits_only(text: &str) -> (out: String)
    ensures
        out@ == digits_of(text@),
{
    let chars = chars_of(text);
    let ghost groups = digit_groups(text@);
    let mut out = String::new();
    let mut i: usize = 0;
    proof {
        lemma_flatten_take_ends(groups);
    }
    while i < chars.len()
        invariant
            i <= chars.len(),
            chars@ == text@,
            groups == digit_groups(text@),
            out@ == groups.take(i as int).flatten(),
        decreases chars.len() - i,
    {
        proof {
            lemma_flatten_take_step(groups, i as int);
        }
        let ghost so_far = out@;
        if is_digit_char(chars[i]) {
            out.push(chars[i]);
            assert(out@ == so_far + groups[i as int]);
        } else {
            assert(so_far + groups[i as int] == so_far);
        }
        i += 1;
    }
    out
}

/// The number that the digits of a text write, where there are digits and
/// the number fits in 64 bits.
pub open spec fn number_in(text: Seq<char>) -> Option<u64> {
    match parse_unsigned(digits_of(text), u64::MAX as nat) {
        Some(v) => Some(v as u64),
        None => None,
    }
}

/// The number that the digits of a text write.
pub fn parse_number_text(text: &str) -> (r: Option<u64>)
    ensures
        r == number_in(text@),
{
    let digits = digits_only(text);
    parse_u64(digits.as_str())
}

/// The track id that a text holds, where it is not zero.
pub open spec fn positive_id_in(text: Seq<char>) -> Option<u64> {
    match number_in(text) {
        Some(v) => if v > 0 {
            Some(v)
        } else {
            None
        },
        None => None,
    }
}

/// The track id that a text holds, where it is not zero.
pub fn parse_positive_id_text(text: &str) -> (r: Option<u64>)
    ensures
        r == positive_id_in(text@),
{
    match parse_number_text(text) {
        Some(v) => if v > 0 {
            Some(v)
        } else {
            None
        },
        None => None,
    }
}

/// The bit rate that a text states, in bits per second. A number below
/// 10000 is taken to be in kilobits per second; the result is nothing where
/// it would not fit in 64 bits.
pub open spec fn bitrate_in(text: Seq<char>) -> Option<u64> {
    match number_in(text) {
        Some(v) => if v < 10000 {
            Some((v * 1000) as u64)
        } else {
            Some(v)
        },
        None => None,
    }
}

/// The bit rate that a text states, in bits per second.
pub fn parse_bitrate_text(text: &str) -> (r: Option<u64>)
    ensures
        r == bitrate_in(text@),
{
    match parse_number_text(text) {
        Some(v) => if v < 10000 {
            Some(v * 1000)
        } else {
            Some(v)
        },
        None => None,
    }
}

/// The kind of track that the multiplexer's probe calls by this tag.
pub open spec fn multiplexer_kind(tag: Seq<char>) -> Option<TrackKind> {
    if tag == "video"@ {
        Some(TrackKind::Video)
    } else if tag == "audio"@ {
        Some(TrackKind::Audio)
    } else if tag == "subtitles"@ {
        Some(TrackKind::Subtitle)
    } else {
        None
    }
}

/// The kind of track that the multiplexer's probe calls by this tag.
pub fn kind_from_multiplexer(tag: &str) -> (r: Option<TrackKind>)
    ensures
        r == multiplexer_kind(tag@),
{
    if str_eq(tag, "video") {
        Some(TrackKind::Video)
    } else if str_eq(tag, "audio") {
        Some(TrackKind::Audio)
    } else if str_eq(tag, "subtitles") {
        Some(TrackKind::Subtitle)
    } else {
        None
    }
}

/// The kind of track that the media inspector calls by this tag.
pub open spec fn inspector_kind(tag: Seq<char>) -> Option<TrackKind> {
    if tag == "Video"@ {
        Some(TrackKind::Video)
    } else if tag == "Audio"@ {
        Some(TrackKind::Audio)
    } else if tag == "Text"@ {
        Some(TrackKind::Subtitle)
    } else {
        None
    }
}

/// The kind of track that the media inspector calls by this tag.
pub fn kind_from_inspector(tag: &str) -> (r: Option<TrackKind>)
    ensures
        r == inspector_kind(tag@),
{
    if str_eq(tag, "Video") {
        Some(TrackKind::Video)
    } else if str_eq(tag, "Audio") {
        Some(TrackKind::Audio)
    } else if str_eq(tag, "Text") {
        Some(TrackKind::Subtitle)
    } else {
        None
    }
}

/// A number in at least two digits.
pub open spec fn two_digits(n: nat) -> Seq<char> {
    if n < 10 {
        "0"@ + decimal_digits(n)
    } else {
        decimal_digits(n)
    }
}

/// Hours, minutes and seconds, each in at least two digits, with colons
/// between them.
pub open spec fn clock_text(hours: nat, minutes: nat, seconds: nat) -> Seq<char> {
    two_digits(hours) + ":"@ + two_digits(minutes) + ":"@ + two_digits(seconds)
}

/// A duration of whole seconds as hours, minutes and seconds.
pub open spec fn duration_text(total_seconds: u64) -> Seq<char> {
    clock_text(
        (total_seconds / 3600) as nat,
        ((total_seconds % 3600) / 60) as nat,
        (total_seconds % 60) as nat,
    )
}

fn push_two_digits(out: &mut String, n: u64)
    ensures
        final(out)@ == old(out)@ + two_digits(n as nat),
{
    let ghost before = out@;
    if n < 10 {
        out.append("0");
        push_decimal(out, n as u128);
        assert(out@ == before + ("0"@ + decimal_digits(n as nat)));
    } else {
        push_decimal(out, n as u128);
    }
}

fn clock_string(hours: u64, minutes: u64, seconds: u64) -> (out: String)
    ensures
        out@ == clock_text(hours as nat, minutes as nat, seconds as nat),
{
    let mut out = String::new();
    push_two_digits(&mut out, hours);
    assert(Seq::<char>::empty() + two_digits(hours as nat) == two_digits(hours as nat));
    out.append(":");
    push_two_digits(&mut out, minutes);
    out.append(":");
    push_two_digits(&mut out, seconds);
    out
}

/// A duration of whole seconds as hours, minutes and seconds.
pub fn format_duration(total_seconds: u64) -> (out: String)
    ensures
        out@ == duration_text(total_seconds),
{
    clock_string(total_seconds / 3600, (total_seconds % 3600) / 60, total_seconds % 60)
}

/// The parts of `s` between the occurrences of `c`.
pub open spec fn split_on(s: Seq<char>, c: char) -> Seq<Seq<char>>
    decreases s.len(),
{
    let i = first_index_of(s, c);
    if 0 <= i < s.len() {
        seq![s.take(i)] + split_on(s.skip(i + 1), c)
    } else {
        seq![s]
    }
}

/// `s` up to its first `c`.
pub open spec fn before_first(s: Seq<char>, c: char) -> Seq<char> {
    s.take(first_index_of(s, c))
}

/// The duration that a text of the form `hours:minutes:seconds` states,
/// with or without a fraction behind the seconds: the three numbers as they
/// are written, each in at least two digits.
pub open spec fn clock_duration(text: Seq<char>) -> Option<Seq<char>> {
    let parts = split_on(text, ':');
    if parts.len() >= 3 {
        match (
            parse_unsigned(parts[0], u64::MAX as nat),
            parse_unsigned(parts[1], u64::MAX as nat),
            parse_unsigned(before_first(parts[2], '.'), u64::MAX as nat),
        ) {
            (Some(h), Some(m), Some(s)) => Some(clock_text(h, m, s)),
            _ => None,
        }
    } else {
        None
    }
}

/// The parts of `s` between the occurrences of `c`.
pub fn split_str(s: &str, c: char) -> (parts: Vec<String>)
    ensures
        parts.deep_view() == split_on(s@, c),
{
    let chars = chars_of(s);
    let mut parts: Vec<String> = Vec::new();
    let mut start: usize = 0;
    proof {
        assert(chars@.skip(0) == chars@);
        assert(parts.deep_view() == Seq::<Seq<char>>::empty());
        assert(Seq::<Seq<char>>::empty() + split_on(s@, c) == split_on(s@, c));
    }
    loop
        invariant
            start <= chars.len(),
            chars@ == s@,
            split_on(s@, c) == parts.deep_view() + split_on(chars@.skip(start as int), c),
        decreases chars.len() - start,
    {
        let ghost here = chars@.skip(start as int);
        let ghost done = parts.deep_view();
        let mut end: usize = start;
        assert(here.skip(0) == here);
        while end < chars.len() && chars[end] != c
            invariant
                start <= end <= chars.len(),
                here == chars@.skip(start as int),
                first_index_of(here, c) == (end - start) + first_index_of(
                    here.skip(end - start),
                    c,
                ),
            decreases chars.len() - end,
        {
            assert(here.skip(end - start).skip(1) == here.skip(end - start + 1));
            assert(here.skip(end - start)[0] == chars@[end as int]);
            end += 1;
        }
        proof {
            if end < chars.len() {
                assert(here.skip(end - start)[0] == chars@[end as int]);
            }
            assert(first_index_of(here, c) == end - start);
            assert(here.take(end - start) == chars@.subrange(start as int, end as int));
        }
        push_arg(&mut parts, string_of_range(&chars, start, end));
        if end == chars.len() {
            assert(here.take(here.len() as int) == here);
            assert(done + seq![here] == done.push(here));
            return parts;
        }
        proof {
            assert(here.skip(end - start + 1) == chars@.skip(end + 1));
            let rest = split_on(chars@.skip(end + 1), c);
            assert(done + (seq![here.take(end - start)] + rest) == done.push(
                here.take(end - start),
            ) + rest);
        }
        start = end + 1;
    }
}

/// The duration that a text of the form `hours:minutes:seconds` states.
pub fn parse_clock_duration(text: &str) -> (r: Option<String>)
    ensures
        r.deep_view() == clock_duration(text@),
{
    let parts = split_str(text, ':');
    if parts.len() < 3 {
        return None;
    }
    let seconds_chars = chars_of(parts[2].as_str());
    let dot = find_char(&seconds_chars, '.');
    let whole = string_of_range(&seconds_chars, 0, dot);
    assert(seconds_chars@.subrange(0, dot as int) == before_first(parts.deep_view()[2], '.'));
    match (
        parse_u64(parts[0].as_str()),
        parse_u64(parts[1].as_str()),
        parse_u64(whole.as_str()),
    ) {
        (Some(h), Some(m), Some(s)) => Some(clock_string(h, m, s)),
        _ => None,
    }
}

} // verus!
