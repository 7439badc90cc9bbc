//! The in-place edit builder: the directives that make the property editor
//! change the kept tracks of a container without remuxing it.

use crate::flags::one_zero;
use crate::model::{MuxJobRequest, MuxJobView, TrackKind, TrackView};
use crate::selection::{is_removed, is_track_removed, parse_track_id, track_id};
use crate::seqs::{lemma_flatten_take_ends, lemma_flatten_take_step, push_arg, push_str_arg};
use crate::text::{decimal_digits, push_decimal, trim, trim_str};
use vstd::prelude::*;
use vstd::string::StringExecFns;

verus! {

/// How the property editor names a track: by its position counted from 1.
pub open spec fn track_selector(position: nat) -> Seq<char> {
    "track:"@ + decimal_digits(position)
}

/// One directive: set `property` of the track at `position` to `value`;
/// nothing where there is no value.
pub open spec fn edit_directive(position: nat, property: Seq<char>, value: Option<Seq<char>>) -> Seq<
    Seq<char>,
> {
    match value {
        Some(v) => seq!["--edit"@, track_selector(position), "--set"@, property + "="@ + v],
        None => Seq::empty(),
    }
}

/// How a flag is written, where it is set either way.
pub open spec fn flag_text(value: Option<bool>) -> Option<Seq<char>> {
    match value {
        Some(b) => Some(one_zero(b)),
        None => None,
    }
}

/// A text without the whitespace around it, where there is a text.
pub open spec fn trimmed(value: Option<Seq<char>>) -> Option<Seq<char>> {
    match value {
        Some(v) => Some(trim(v)),
        None => None,
    }
}

/// The property that holds the forced flag of a track of `kind`.
pub open spec fn forced_property(kind: TrackKind) -> Seq<char> {
    if kind == TrackKind::Subtitle {
        "flag-forced-display"@
    } else {
        "flag-forced"@
    }
}

/// The forced flag of a track as the editor writes it, where it is set
/// either way and the track is a video, audio or subtitle track.
pub open spec fn forced_text(t: TrackView) -> Option<Seq<char>> {
    if t.kind == TrackKind::Other {
        None
    } else {
        flag_text(t.is_forced)
    }
}

/// The directives for one track: none for a removed one; else its trimmed
/// name (an empty one clears the name), its language, its default flag and
/// its forced flag, each where it is set. The editor counts tracks from 1.
pub open spec fn directives_at(t: TrackView, index: int) -> Seq<Seq<char>> {
    if is_removed(t) {
        Seq::empty()
    } else {
        let position = (track_id(t, index) + 1) as nat;
        edit_directive(position, "name"@, trimmed(t.name)) + edit_directive(
            position,
            "language"@,
            t.language,
        ) + edit_directive(position, "flag-default"@, flag_text(t.is_default)) + edit_directive(
            position,
            forced_property(t.kind),
            forced_text(t),
        )
    }
}

/// The directives for each track.
pub open spec fn directive_groups(tracks: Seq<TrackView>) -> Seq<Seq<Seq<char>>> {
    Seq::new(tracks.len(), |i: int| directives_at(tracks[i], i))
}

/// The property editor's arguments for a job, after the file's path.
pub open spec fn mkvpropedit_args(job: MuxJobView) -> Seq<Seq<char>> {
    directive_groups(job.video.tracks).flatten()
}

fn push_directive(args: &mut Vec<String>, position: u128, property: &str, value: Option<&str>)
    ensures
        final(args).deep_view() == old(args).deep_view() + edit_directive(
            position as nat,
            property@,
            match value {
                Some(v) => Some(v@),
                None => None,
            },
        ),
{
    let ghost before = args.deep_view();
    match value {
        Some(v) => {
            push_str_arg(args, "--edit");
            let mut selector = String::from_str("track:");
            push_decimal(&mut selector, position);
            push_arg(args, selector);
            push_str_arg(args, "--set");
            let mut setting = String::from_str(property);
            setting.append("=");
            setting.append(v);
            push_arg(args, setting);
            assert(args.deep_view() == before + edit_directive(
                position as nat,
                property@,
                Some(v@),
            ));
        },
        None => {
            assert(before + Seq::<Seq<char>>::empty() == before);
        },
    }
}

fn flag_str(value: Option<bool>) -> (r: Option<&'static str>)
    ensures
        (match r {
            Some(v) => Some(v@),
            None => None,
        }) == flag_text(value),
{
    match value {
        Some(true) => Some("1"),
        Some(false) => Some("0"),
        None => None,
    }
}

/// The property editor's arguments for a job, after the file's path. An
/// empty list means that there is nothing to edit.
pub fn build_mkvpropedit_args(job: &MuxJobRequest) -> (args: Vec<String>)
    ensures
        args.deep_view() == mkvpropedit_args(job@),
{
    let tracks = &job.video.tracks;
    let ghost groups = directive_groups(tracks.deep_view());
    let mut args: Vec<String> = Vec::new();
    let mut index: usize = 0;
    proof {
        lemma_flatten_take_ends(groups);
        assert(args.deep_view() == Seq::<Seq<char>>::empty());
    }
    while index < tracks.len()
        invariant
            index <= tracks.len(),
            groups == directive_groups(tracks.deep_view()),
            args.deep_view() == groups.take(index as int).flatten(),
        decreases tracks.len() - index,
    {
        proof {
            lemma_flatten_take_step(groups, index as int);
        }
        let ghost so_far = args.deep_view();
        let track = &tracks[index];
        if !is_track_removed(track) {
            let position: u128 = parse_track_id(track, index) as u128 + 1;
            match &track.name {
                Some(n) => {
                    let name = trim_str(n.as_str());
                    push_directive(&mut args, position, "name", Some(name.as_str()));
                },
                None => {
                    push_directive(&mut args, position, "name", None);
                },
            }
            match &track.language {
                Some(l) => {
                    push_directive(&mut args, position, "language", Some(l.as_str()));
                },
                None => {
                    push_directive(&mut args, position, "language", None);
                },
            }
            push_directive(&mut args, position, "flag-default", flag_str(track.is_default));
            push_directive(
                &mut args,
                position,
                if track.kind == TrackKind::Subtitle {
                    "flag-forced-display"
                } else {
                    "flag-forced"
                },
                if track.kind == TrackKind::Other {
                    None
                } else {
                    flag_str(track.is_forced)
                },
            );
        }
        assert(args.deep_view() == so_far + groups[index as int]);
        index += 1;
    }
    args
}

} // verus!
