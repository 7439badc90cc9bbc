//! The small pieces that multiplexer arguments are made of: a track id with
//! a value behind a colon, and a flag that is present only with its value.

use crate::seqs::{push_arg, push_str_arg};
use crate::text::{decimal_digits, i64_to_string, is_blank, is_blank_str, push_decimal, signed_decimal};
use vstd::prelude::*;
use vstd::string::StringExecFns;

verus! {

/// `id`, a colon, and `value`.
pub open spec fn tagged(id: nat, value: Seq<char>) -> Seq<char> {
    decimal_digits(id) + ":"@ + value
}

/// How the multiplexer writes a flag.
pub open spec fn yes_no(b: bool) -> Seq<char> {
    if b {
        "yes"@
    } else {
        "no"@
    }
}

/// How the property editor writes a flag.
pub open spec fn one_zero(b: bool) -> Seq<char> {
    if b {
        "1"@
    } else {
        "0"@
    }
}

/// The value tagged with the id, where there is a value.
pub open spec fn tagged_text(id: nat, value: Option<Seq<char>>) -> Option<Seq<char>> {
    match value {
        Some(v) => Some(tagged(id, v)),
        None => None,
    }
}

/// The name tagged with the id, where there is a name that is not blank.
pub open spec fn tagged_name(id: nat, name: Option<Seq<char>>) -> Option<Seq<char>> {
    match name {
        Some(n) => if is_blank(n) {
            None
        } else {
            Some(tagged(id, n))
        },
        None => None,
    }
}

/// `yes` or `no` tagged with the id, where the flag is set either way.
pub open spec fn tagged_bool(id: nat, value: Option<bool>) -> Option<Seq<char>> {
    match value {
        Some(b) => Some(tagged(id, yes_no(b))),
        None => None,
    }
}

/// The delay in milliseconds tagged with the id, where there is a delay.
pub open spec fn tagged_delay(id: nat, delay_ms: Option<i64>) -> Option<Seq<char>> {
    match delay_ms {
        Some(d) => Some(tagged(id, signed_decimal(d as int))),
        None => None,
    }
}

/// The flag and its value, or nothing where there is no value.
pub open spec fn opt_flag(flag: Seq<char>, value: Option<Seq<char>>) -> Seq<Seq<char>> {
    match value {
        Some(v) => seq![flag, v],
        None => Seq::empty(),
    }
}

/// `id`, a colon, and `value`.
pub fn tagged_string(id: u128, value: &str) -> (out: String)
    ensures
        out@ == tagged(id as nat, value@),
{
    let mut out = String::new();
    push_decimal(&mut out, id);
    assert(Seq::<char>::empty() + decimal_digits(id as nat) == decimal_digits(id as nat));
    out.append(":");
    out.append(value);
    out
}

/// The value tagged with the id, where there is a value.
pub fn tagged_text_string(id: u128, value: &Option<String>) -> (out: Option<String>)
    ensures
        out.deep_view() == tagged_text(id as nat, value.deep_view()),
{
    match value {
        Some(v) => Some(tagged_string(id, v.as_str())),
        None => None,
    }
}

/// The name tagged with the id, where there is a name that is not blank.
pub fn tagged_name_string(id: u128, name: &Option<String>) -> (out: Option<String>)
    ensures
        out.deep_view() == tagged_name(id as nat, name.deep_view()),
{
    match name {
        Some(n) => {
            if is_blank_str(n.as_str()) {
                None
            } else {
                Some(tagged_string(id, n.as_str()))
            }
        },
        None => None,
    }
}

/// `yes` or `no` tagged with the id, where the flag is set either way.
pub fn tagged_bool_string(id: u128, value: Option<bool>) -> (out: Option<String>)
    ensures
        out.deep_view() == tagged_bool(id as nat, value),
{
    match value {
        Some(b) => Some(
            tagged_string(
                id,
                if b {
                    "yes"
                } else {
                    "no"
                },
            ),
        ),
        None => None,
    }
}

/// The delay in milliseconds tagged with the id, where there is a delay.
pub fn tagged_delay_string(id: u128, delay_ms: Option<i64>) -> (out: Option<String>)
    ensures
        out.deep_view() == tagged_delay(id as nat, delay_ms),
{
    match delay_ms {
        Some(d) => {
            let text = i64_to_string(d);
            Some(tagged_string(id, text.as_str()))
        },
        None => None,
    }
}

/// Appends the flag and its value to `args`, where there is a value.
pub fn push_opt_flag(args: &mut Vec<String>, flag: &str, value: Option<String>)
    ensures
        final(args).deep_view() == old(args).deep_view() + opt_flag(flag@, value.deep_view()),
{
    let ghost before = args.deep_view();
    match value {
        Some(v) => {
            push_str_arg(args, flag);
            push_arg(args, v);
            assert(before.push(flag@).push(v@) == before + seq![flag@, v@]);
        },
        None => {
            assert(before + Seq::<Seq<char>>::empty() == before);
        },
    }
}

/// Appends the flag to `args` where `present` holds.
pub fn push_flag_if(args: &mut Vec<String>, present: bool, flag: &str)
    ensures
        final(args).deep_view() == old(args).deep_view() + (if present {
            seq![flag@]
        } else {
            Seq::empty()
        }),
{
    let ghost before = args.deep_view();
    if present {
        push_str_arg(args, flag);
        assert(before.push(flag@) == before + seq![flag@]);
    } else {
        assert(before + Seq::<Seq<char>>::empty() == before);
    }
}

} // verus!
