//! Command synthesis: the argument list that makes the multiplexer build
//! one job's output. The order of the arguments decides which file each
//! flag applies to, so every part has its fixed place.

use crate::entries::{
    any_wants_default, audio_entries, carried_subtitle_entries, lookup_override, override_of,
    resolve_audio_entries, resolve_subtitle_entries, subtitle_entries, wants_default, EntryView,
    ResolvedEntry,
};
use crate::flags::{
    opt_flag, push_flag_if, push_opt_flag, tagged, tagged_bool, tagged_bool_string, tagged_delay,
    tagged_delay_string, tagged_name, tagged_name_string, tagged_string, tagged_text,
    tagged_text_string,
};
use crate::model::{
    ExternalFileInfo, ExternalFileView, FileScope, MuxJobRequest, MuxJobView, MuxSettings,
    MuxSettingsView, TrackInfo, TrackKind, TrackView,
};
use crate::selection::{
    apply_track_selection, collect_track_ids_by_action, collect_track_ids_by_language, ids_of,
    is_removed, is_track_removed, keep_ids_for, parse_track_id, selection_flags, track_id,
    IdFilter,
};
use crate::seqs::{
    lemma_concat_three, lemma_flatten_take_ends, lemma_flatten_take_step, push_arg, push_str_arg,
};
use crate::text::{
    decimal_digits, is_blank, is_blank_str, join, join_strings, signed_decimal, u64_to_string,
    usize_to_string,
};
use vstd::prelude::*;

verus! {

// ---------------------------------------------------------------------------
// What the arguments are
// ---------------------------------------------------------------------------

/// The flags that strip what the primary container brings along.
pub open spec fn strip_flags(settings: MuxSettingsView) -> Seq<Seq<char>> {
    (if settings.discard_old_chapters {
        seq!["--no-chapters"@]
    } else {
        Seq::empty()
    }) + (if settings.discard_old_attachments {
        seq!["--no-attachments"@]
    } else {
        Seq::empty()
    }) + (if settings.remove_global_tags {
        seq!["--no-global-tags"@]
    } else {
        Seq::empty()
    })
}

/// The default-track flag for each track of `kind` that passes `filter`.
pub open spec fn default_flag_groups(
    tracks: Seq<TrackView>,
    kind: TrackKind,
    filter: IdFilter,
    value: Seq<char>,
) -> Seq<Seq<Seq<char>>> {
    let ids = ids_of(tracks, kind, filter);
    Seq::new(ids.len(), |i: int| seq!["--default-track-flag"@, tagged(ids[i] as nat, value)])
}

/// One default-track flag with `value` for each track of `kind` that passes
/// `filter`.
pub open spec fn default_flags(
    tracks: Seq<TrackView>,
    kind: TrackKind,
    filter: IdFilter,
    value: Seq<char>,
) -> Seq<Seq<char>> {
    default_flag_groups(tracks, kind, filter, value).flatten()
}

/// The flags that take the default away from the kept tracks of `kind`,
/// where an external entry asks to be the default.
pub open spec fn clear_default_flags(
    tracks: Seq<TrackView>,
    kind: TrackKind,
    entries: Seq<EntryView>,
) -> Seq<Seq<char>> {
    if wants_default(entries) {
        default_flags(tracks, kind, IdFilter::Kept, "no"@)
    } else {
        Seq::empty()
    }
}

/// The flags that make the tracks of `kind` in `language` the default.
pub open spec fn promote_flags(
    tracks: Seq<TrackView>,
    kind: TrackKind,
    language: Option<Seq<char>>,
) -> Seq<Seq<char>> {
    match language {
        Some(l) => default_flags(tracks, kind, IdFilter::Language(seq![l]), "yes"@),
        None => Seq::empty(),
    }
}

/// The language allow-list that is in force, if any.
pub open spec fn allow_list(enabled: bool, languages: Seq<Seq<char>>) -> Option<Seq<Seq<char>>> {
    if enabled && languages.len() > 0 {
        Some(languages)
    } else {
        None
    }
}

/// The flag that sets the forced flag of a primary track: one name for
/// subtitle tracks, another for audio and video tracks.
pub open spec fn forced_flag(kind: TrackKind) -> Seq<char> {
    if kind == TrackKind::Subtitle {
        "--forced-display-flag"@
    } else {
        "--forced-track"@
    }
}

/// The forced flag of a primary track as it is written, where it is set
/// either way and the track is a video, audio or subtitle track.
pub open spec fn forced_value(t: TrackView, id: nat) -> Option<Seq<char>> {
    if t.kind == TrackKind::Other {
        None
    } else {
        tagged_bool(id, t.is_forced)
    }
}

/// The edits of one kept track of the primary container: its name unless
/// blank, its language, its default flag and its forced flag, each where
/// it is set.
pub open spec fn track_edits_at(t: TrackView, index: int) -> Seq<Seq<char>> {
    if is_removed(t) {
        Seq::empty()
    } else {
        let id = track_id(t, index) as nat;
        opt_flag("--track-name"@, tagged_name(id, t.name)) + opt_flag(
            "--language"@,
            tagged_text(id, t.language),
        ) + opt_flag("--default-track-flag"@, tagged_bool(id, t.is_default)) + opt_flag(
            forced_flag(t.kind),
            forced_value(t, id),
        )
    }
}

/// The edits of each track.
pub open spec fn track_edit_groups(tracks: Seq<TrackView>) -> Seq<Seq<Seq<char>>> {
    Seq::new(tracks.len(), |i: int| track_edits_at(tracks[i], i))
}

/// The edits of the kept tracks of the primary container, in container
/// order.
pub open spec fn track_edit_flags(tracks: Seq<TrackView>) -> Seq<Seq<char>> {
    track_edit_groups(tracks).flatten()
}

/// The place of a track in the output: the file's number among the inputs,
/// a colon, and the track's id in that file.
pub open spec fn order_item(file_number: nat, track: nat) -> Seq<char> {
    tagged(file_number, decimal_digits(track))
}

/// The kept tracks of `kind` of the primary container, which is input 0.
pub open spec fn primary_order(tracks: Seq<TrackView>, kind: TrackKind) -> Seq<Seq<char>> {
    let ids = ids_of(tracks, kind, IdFilter::Kept);
    Seq::new(ids.len(), |i: int| order_item(0, ids[i] as nat))
}

/// The place of each entry where the entry is of `scope`.
pub open spec fn external_order_groups(entries: Seq<EntryView>, first: nat, scope: FileScope) -> Seq<
    Seq<Seq<char>>,
> {
    Seq::new(
        entries.len(),
        |p: int|
            if entries[p].file.scope == scope {
                seq![order_item((first + p) as nat, entries[p].track_id as nat)]
            } else {
                Seq::empty()
            },
    )
}

/// The entries of `scope`, where the entries are the inputs `first`,
/// `first + 1` and so on.
pub open spec fn external_order(entries: Seq<EntryView>, first: nat, scope: FileScope) -> Seq<
    Seq<char>,
> {
    external_order_groups(entries, first, scope).flatten()
}

/// The order of the tracks in the output: primary video, external audio
/// (bulk, then per primary file), primary audio, primary subtitles, external
/// subtitles (bulk, then per primary file).
pub open spec fn order_items(
    tracks: Seq<TrackView>,
    audio: Seq<EntryView>,
    subtitles: Seq<EntryView>,
) -> Seq<Seq<char>> {
    primary_order(tracks, TrackKind::Video) + external_order(audio, 1, FileScope::Bulk)
        + external_order(audio, 1, FileScope::PerPrimary) + primary_order(
        tracks,
        TrackKind::Audio,
    ) + primary_order(tracks, TrackKind::Subtitle) + external_order(
        subtitles,
        1 + audio.len(),
        FileScope::Bulk,
    ) + external_order(subtitles, 1 + audio.len(), FileScope::PerPrimary)
}

/// The track-order flag: present where there is an external audio or
/// subtitle entry and the order is not empty.
pub open spec fn track_order_flags(
    tracks: Seq<TrackView>,
    audio: Seq<EntryView>,
    subtitles: Seq<EntryView>,
) -> Seq<Seq<char>> {
    let items = order_items(tracks, audio, subtitles);
    if audio.len() + subtitles.len() > 0 && items.len() > 0 {
        seq!["--track-order"@, join(items, ","@)]
    } else {
        Seq::empty()
    }
}

/// The first value where there is one, else the second.
pub open spec fn or_else<T>(first: Option<T>, second: Option<T>) -> Option<T> {
    if first is Some {
        first
    } else {
        second
    }
}

/// The language of an entry: what the user set for the track, else the
/// file's language where it applies to this entry.
pub open spec fn entry_language(e: EntryView) -> Option<Seq<char>> {
    or_else(
        match override_of(e) {
            Some(o) => o.language,
            None => None,
        },
        if e.apply_language {
            e.file.language
        } else {
            None
        },
    )
}

/// The name of an entry's track: what the user set for the track, else the
/// file's.
pub open spec fn entry_name(e: EntryView) -> Option<Seq<char>> {
    or_else(
        match override_of(e) {
            Some(o) => o.track_name,
            None => None,
        },
        e.file.track_name,
    )
}

/// The delay of an entry's track: what the user set for the track, else the
/// file's.
pub open spec fn entry_delay(e: EntryView) -> Option<i64> {
    or_else(
        match override_of(e) {
            Some(o) => o.delay_ms,
            None => None,
        },
        e.file.delay_ms,
    )
}

/// The flags that make the multiplexer take nothing from the next file but
/// tracks of one kind, up to the flag that selects the track.
pub open spec fn exclusive_flags(subtitle: bool) -> Seq<Seq<char>> {
    if subtitle {
        seq![
            "--no-video"@,
            "--no-audio"@,
            "--no-chapters"@,
            "--no-attachments"@,
            "--no-global-tags"@,
            "--subtitle-tracks"@,
        ]
    } else {
        seq![
            "--no-video"@,
            "--no-subtitles"@,
            "--no-chapters"@,
            "--no-attachments"@,
            "--no-global-tags"@,
            "--audio-tracks"@,
        ]
    }
}

/// The start of an entry's arguments: the flags that single out its track,
/// and the track's id.
pub open spec fn entry_head(e: EntryView, subtitle: bool) -> Seq<Seq<char>> {
    exclusive_flags(subtitle) + seq![decimal_digits(e.track_id as nat)]
}

/// The language, name and delay of an entry's track, each where it is set.
pub open spec fn entry_edits(e: EntryView) -> Seq<Seq<char>> {
    let id = e.track_id as nat;
    opt_flag("--language"@, tagged_text(id, entry_language(e))) + opt_flag(
        "--track-name"@,
        tagged_name(id, entry_name(e)),
    ) + opt_flag("--sync"@, tagged_delay(id, entry_delay(e)))
}

/// The end of an entry's arguments: the default flag, for a subtitle the
/// forced flag, and the file. An audio entry never gets a forced flag.
pub open spec fn entry_tail(e: EntryView, subtitle: bool) -> Seq<Seq<char>> {
    let id = e.track_id as nat;
    opt_flag("--default-track-flag"@, tagged_bool(id, e.is_default)) + opt_flag(
        "--forced-display-flag"@,
        if subtitle {
            tagged_bool(id, e.is_forced)
        } else {
            None
        },
    ) + seq![e.file.path]
}

/// The arguments of one external entry: the flags that single out its
/// track; the track's language, name and delay; its default flag, for a
/// subtitle its forced flag, and last the file.
pub open spec fn entry_flags(e: EntryView, subtitle: bool) -> Seq<Seq<char>> {
    entry_head(e, subtitle) + entry_edits(e) + entry_tail(e, subtitle)
}

/// The arguments of each entry.
pub open spec fn entry_flag_groups(entries: Seq<EntryView>, subtitle: bool) -> Seq<
    Seq<Seq<char>>,
> {
    Seq::new(entries.len(), |p: int| entry_flags(entries[p], subtitle))
}

/// The arguments of the external entries, entry by entry.
pub open spec fn entries_flags(entries: Seq<EntryView>, subtitle: bool) -> Seq<Seq<char>> {
    entry_flag_groups(entries, subtitle).flatten()
}

/// The arguments of one chapter file: the flag, the file, and a shift of
/// the file just added where the delay is not zero.
pub open spec fn chapter_flags_at(file: ExternalFileView) -> Seq<Seq<char>> {
    seq!["--chapters"@, file.path] + opt_flag(
        "--sync"@,
        match file.delay_ms {
            Some(d) => if d != 0 {
                Some(tagged(0, signed_decimal(d as int)))
            } else {
                None
            },
            None => None,
        },
    )
}

/// The arguments of each chapter file.
pub open spec fn chapter_flag_groups(chapters: Seq<ExternalFileView>) -> Seq<Seq<Seq<char>>> {
    Seq::new(chapters.len(), |i: int| chapter_flags_at(chapters[i]))
}

/// The arguments of the chapter files, file by file.
pub open spec fn chapter_flags(chapters: Seq<ExternalFileView>) -> Seq<Seq<char>> {
    chapter_flag_groups(chapters).flatten()
}

/// The arguments of each attachment: the flag and the file.
pub open spec fn attachment_flag_groups(attachments: Seq<ExternalFileView>) -> Seq<
    Seq<Seq<char>>,
> {
    Seq::new(attachments.len(), |i: int| seq!["--attach-file"@, attachments[i].path])
}

/// The arguments of the attachments, file by file.
pub open spec fn attachment_flags(attachments: Seq<ExternalFileView>) -> Seq<Seq<char>> {
    attachment_flag_groups(attachments).flatten()
}

/// The subtitle entries of a job: those of its subtitle files, then those
/// that its audio files carry along.
pub open spec fn job_subtitle_entries(job: MuxJobView) -> Seq<EntryView> {
    subtitle_entries(job.subtitles) + carried_subtitle_entries(job.audios)
}

/// The argument list for one job, part by part in its fixed order.
pub open spec fn mkvmerge_args(job: MuxJobView, settings: MuxSettingsView, output: Seq<char>) -> Seq<
    Seq<char>,
> {
    let tracks = job.video.tracks;
    let audio = audio_entries(job.audios);
    let subtitles = job_subtitle_entries(job);
    seq!["--gui-mode"@, "--output"@, output] + strip_flags(settings) + clear_default_flags(
        tracks,
        TrackKind::Audio,
        audio,
    ) + clear_default_flags(tracks, TrackKind::Subtitle, subtitles) + promote_flags(
        tracks,
        TrackKind::Audio,
        settings.make_audio_default_language,
    ) + promote_flags(tracks, TrackKind::Subtitle, settings.make_subtitle_default_language)
        + selection_flags(tracks, TrackKind::Video, None) + selection_flags(
        tracks,
        TrackKind::Audio,
        keep_ids_for(
            tracks,
            TrackKind::Audio,
            allow_list(settings.only_keep_audios_enabled, settings.only_keep_audio_languages),
        ),
    ) + selection_flags(
        tracks,
        TrackKind::Subtitle,
        keep_ids_for(
            tracks,
            TrackKind::Subtitle,
            allow_list(
                settings.only_keep_subtitles_enabled,
                settings.only_keep_subtitle_languages,
            ),
        ),
    ) + track_edit_flags(tracks) + track_order_flags(tracks, audio, subtitles) + seq![
        job.video.path,
    ] + entries_flags(audio, false) + entries_flags(subtitles, true) + chapter_flags(
        job.chapters,
    ) + attachment_flags(job.attachments)
}

/// Whether a job can be done by editing the primary container in place: the
/// source is overwritten, no external file is merged in, and no language
/// allow-list is in force.
pub open spec fn fast_path_eligible(job: MuxJobView, settings: MuxSettingsView) -> bool {
    &&& is_blank(settings.destination_dir)
    &&& settings.overwrite_source
    &&& job.audios.len() == 0
    &&& job.subtitles.len() == 0
    &&& job.chapters.len() == 0
    &&& job.attachments.len() == 0
    &&& allow_list(settings.only_keep_audios_enabled, settings.only_keep_audio_languages) is None
    &&& allow_list(settings.only_keep_subtitles_enabled, settings.only_keep_subtitle_languages)
        is None
}

// ---------------------------------------------------------------------------
// Building them
// ---------------------------------------------------------------------------

fn push_strip_flags(args: &mut Vec<String>, settings: &MuxSettings)
    ensures
        final(args).deep_view() == old(args).deep_view() + strip_flags(settings@),
{
    let ghost before = args.deep_view();
    push_flag_if(args, settings.discard_old_chapters, "--no-chapters");
    push_flag_if(args, settings.discard_old_attachments, "--no-attachments");
    push_flag_if(args, settings.remove_global_tags, "--no-global-tags");
    assert(args.deep_view() == before + strip_flags(settings@));
}

/// Appends one default-track flag with `value` for each of `ids`.
fn push_default_flags(
    args: &mut Vec<String>,
    ids: &Vec<usize>,
    value: &str,
    Ghost(tracks): Ghost<Seq<TrackView>>,
    Ghost(kind): Ghost<TrackKind>,
    Ghost(filter): Ghost<IdFilter>,
)
    requires
        ids@ == ids_of(tracks, kind, filter),
    ensures
        final(args).deep_view() == old(args).deep_view() + default_flags(
            tracks,
            kind,
            filter,
            value@,
        ),
{
    let ghost before = args.deep_view();
    let ghost groups = default_flag_groups(tracks, kind, filter, value@);
    let mut i: usize = 0;
    proof {
        lemma_flatten_take_ends(groups);
        assert(before + Seq::<Seq<char>>::empty() == before);
    }
    while i < ids.len()
        invariant
            i <= ids.len(),
            ids@ == ids_of(tracks, kind, filter),
            groups == default_flag_groups(tracks, kind, filter, value@),
            args.deep_view() == before + groups.take(i as int).flatten(),
        decreases ids.len() - i,
    {
        proof {
            lemma_flatten_take_step(groups, i as int);
        }
        let ghost so_far = args.deep_view();
        push_str_arg(args, "--default-track-flag");
        push_arg(args, tagged_string(ids[i] as u128, value));
        assert(args.deep_view() == so_far + groups[i as int]);
        assert(before + (groups.take(i as int).flatten() + groups[i as int]) == so_far
            + groups[i as int]);
        i += 1;
    }
}

fn push_clear_default_flags(
    args: &mut Vec<String>,
    tracks: &Vec<TrackInfo>,
    kind: TrackKind,
    entries: &Vec<ResolvedEntry<'_>>,
)
    ensures
        final(args).deep_view() == old(args).deep_view() + clear_default_flags(
            tracks.deep_view(),
            kind,
            entries.deep_view(),
        ),
{
    if any_wants_default(entries) {
        let (ids, _) = collect_track_ids_by_action(tracks.as_slice(), kind);
        push_default_flags(
            args,
            &ids,
            "no",
            Ghost(tracks.deep_view()),
            Ghost(kind),
            Ghost(IdFilter::Kept),
        );
    } else {
        assert(args.deep_view() + Seq::<Seq<char>>::empty() == args.deep_view());
    }
}

fn push_promote_flags(
    args: &mut Vec<String>,
    tracks: &Vec<TrackInfo>,
    kind: TrackKind,
    language: &Option<String>,
)
    ensures
        final(args).deep_view() == old(args).deep_view() + promote_flags(
            tracks.deep_view(),
            kind,
            language.deep_view(),
        ),
{
    match language {
        Some(l) => {
            let mut languages: Vec<String> = Vec::new();
            push_arg(&mut languages, l.clone());
            assert(languages.deep_view() == seq![l@]);
            let ids = collect_track_ids_by_language(
                tracks.as_slice(),
                kind,
                languages.as_slice(),
            );
            push_default_flags(
                args,
                &ids,
                "yes",
                Ghost(tracks.deep_view()),
                Ghost(kind),
                Ghost(IdFilter::Language(seq![l@])),
            );
        },
        None => {
            assert(args.deep_view() + Seq::<Seq<char>>::empty() == args.deep_view());
        },
    }
}

/// The ids that a language allow-list stands for, where one is in force.
fn keep_ids(tracks: &Vec<TrackInfo>, kind: TrackKind, enabled: bool, languages: &Vec<String>) -> (r:
    Option<Vec<usize>>)
    ensures
        r.deep_view() == keep_ids_for(
            tracks.deep_view(),
            kind,
            allow_list(enabled, languages.deep_view()),
        ),
{
    if enabled && languages.len() > 0 {
        let ids = collect_track_ids_by_language(tracks.as_slice(), kind, languages.as_slice());
        assert(ids.deep_view() == ids@);
        Some(ids)
    } else {
        None
    }
}

fn push_track_edits(args: &mut Vec<String>, tracks: &Vec<TrackInfo>)
    ensures
        final(args).deep_view() == old(args).deep_view() + track_edit_flags(tracks.deep_view()),
{
    let ghost before = args.deep_view();
    let ghost groups = track_edit_groups(tracks.deep_view());
    let mut index: usize = 0;
    proof {
        lemma_flatten_take_ends(groups);
        assert(before + Seq::<Seq<char>>::empty() == before);
    }
    while index < tracks.len()
        invariant
            index <= tracks.len(),
            groups == track_edit_groups(tracks.deep_view()),
            args.deep_view() == before + groups.take(index as int).flatten(),
        decreases tracks.len() - index,
    {
        proof {
            lemma_flatten_take_step(groups, index as int);
        }
        let ghost so_far = args.deep_view();
        let track = &tracks[index];
        if !is_track_removed(track) {
            let id = parse_track_id(track, index) as u128;
            push_opt_flag(args, "--track-name", tagged_name_string(id, &track.name));
            push_opt_flag(args, "--language", tagged_text_string(id, &track.language));
            push_opt_flag(args, "--default-track-flag", tagged_bool_string(id, track.is_default));
            push_opt_flag(
                args,
                if track.kind == TrackKind::Subtitle {
                    "--forced-display-flag"
                } else {
                    "--forced-track"
                },
                if track.kind == TrackKind::Other {
                    None
                } else {
                    tagged_bool_string(id, track.is_forced)
                },
            );
        }
        assert(args.deep_view() == so_far + groups[index as int]);
        assert(before + (groups.take(index as int).flatten() + groups[index as int]) == so_far
            + groups[index as int]);
        index += 1;
    }
}

fn push_primary_order(items: &mut Vec<String>, tracks: &Vec<TrackInfo>, kind: TrackKind)
    ensures
        final(items).deep_view() == old(items).deep_view() + primary_order(
            tracks.deep_view(),
            kind,
        ),
{
    let ghost before = items.deep_view();
    let ghost wanted = primary_order(tracks.deep_view(), kind);
    let (ids, _) = collect_track_ids_by_action(tracks.as_slice(), kind);
    let mut i: usize = 0;
    assert(before + wanted.take(0) == before);
    while i < ids.len()
        invariant
            i <= ids.len(),
            ids@ == ids_of(tracks.deep_view(), kind, IdFilter::Kept),
            wanted == primary_order(tracks.deep_view(), kind),
            items.deep_view() == before + wanted.take(i as int),
        decreases ids.len() - i,
    {
        let track = usize_to_string(ids[i]);
        push_arg(items, tagged_string(0, track.as_str()));
        assert(wanted.take(i + 1) == wanted.take(i as int).push(wanted[i as int]));
        assert(before + wanted.take(i + 1) == (before + wanted.take(i as int)).push(
            wanted[i as int],
        ));
        i += 1;
    }
    assert(wanted.take(i as int) == wanted);
}

fn push_external_order(
    items: &mut Vec<String>,
    entries: &Vec<ResolvedEntry<'_>>,
    first: u128,
    scope: FileScope,
)
    requires
        first <= usize::MAX + 1,
    ensures
        final(items).deep_view() == old(items).deep_view() + external_order(
            entries.deep_view(),
            first as nat,
            scope,
        ),
{
    let ghost before = items.deep_view();
    let ghost groups = external_order_groups(entries.deep_view(), first as nat, scope);
    let mut p: usize = 0;
    proof {
        lemma_flatten_take_ends(groups);
        assert(before + Seq::<Seq<char>>::empty() == before);
    }
    while p < entries.len()
        invariant
            p <= entries.len(),
            first <= usize::MAX + 1,
            groups == external_order_groups(entries.deep_view(), first as nat, scope),
            items.deep_view() == before + groups.take(p as int).flatten(),
        decreases entries.len() - p,
    {
        proof {
            lemma_flatten_take_step(groups, p as int);
        }
        let ghost so_far = items.deep_view();
        let entry = &entries[p];
        if entry.file.scope == scope {
            let track = u64_to_string(entry.track_id);
            push_arg(items, tagged_string(first + p as u128, track.as_str()));
            assert(items.deep_view() == so_far + groups[p as int]);
        } else {
            assert(so_far + groups[p as int] == so_far);
        }
        assert(before + (groups.take(p as int).flatten() + groups[p as int]) == so_far
            + groups[p as int]);
        p += 1;
    }
}

fn push_track_order(
    args: &mut Vec<String>,
    tracks: &Vec<TrackInfo>,
    audio: &Vec<ResolvedEntry<'_>>,
    subtitles: &Vec<ResolvedEntry<'_>>,
)
    ensures
        final(args).deep_view() == old(args).deep_view() + track_order_flags(
            tracks.deep_view(),
            audio.deep_view(),
            subtitles.deep_view(),
        ),
{
    let ghost before = args.deep_view();
    if audio.len() == 0 && subtitles.len() == 0 {
        assert(before + Seq::<Seq<char>>::empty() == before);
        return ;
    }
    let mut items: Vec<String> = Vec::new();
    assert(items.deep_view() == Seq::<Seq<char>>::empty());
    let after_audio: u128 = 1 + audio.len() as u128;
    push_primary_order(&mut items, tracks, TrackKind::Video);
    push_external_order(&mut items, audio, 1, FileScope::Bulk);
    push_external_order(&mut items, audio, 1, FileScope::PerPrimary);
    push_primary_order(&mut items, tracks, TrackKind::Audio);
    push_primary_order(&mut items, tracks, TrackKind::Subtitle);
    push_external_order(&mut items, subtitles, after_audio, FileScope::Bulk);
    push_external_order(&mut items, subtitles, after_audio, FileScope::PerPrimary);
    assert(items.deep_view() == order_items(
        tracks.deep_view(),
        audio.deep_view(),
        subtitles.deep_view(),
    ));
    if items.len() > 0 {
        push_str_arg(args, "--track-order");
        push_arg(args, join_strings(&items, ","));
        assert(args.deep_view() == before + seq![
            "--track-order"@,
            join(items.deep_view(), ","@),
        ]);
    } else {
        assert(before + Seq::<Seq<char>>::empty() == before);
    }
}

/// What the user set for the entry's track, else the fallback.
fn pick_text<'a>(first: &'a Option<String>, second: &'a Option<String>) -> (r: &'a Option<String>)
    ensures
        r.deep_view() == or_else(first.deep_view(), second.deep_view()),
{
    if first.is_some() {
        first
    } else {
        second
    }
}

fn push_exclusive_flags(args: &mut Vec<String>, subtitle: bool)
    ensures
        final(args).deep_view() == old(args).deep_view() + exclusive_flags(subtitle),
{
    let ghost before = args.deep_view();
    push_str_arg(args, "--no-video");
    push_str_arg(
        args,
        if subtitle {
            "--no-audio"
        } else {
            "--no-subtitles"
        },
    );
    push_str_arg(args, "--no-chapters");
    push_str_arg(args, "--no-attachments");
    push_str_arg(args, "--no-global-tags");
    push_str_arg(
        args,
        if subtitle {
            "--subtitle-tracks"
        } else {
            "--audio-tracks"
        },
    );
    assert(args.deep_view() == before + exclusive_flags(subtitle));
}

fn push_entry_head(args: &mut Vec<String>, entry: &ResolvedEntry<'_>, subtitle: bool)
    ensures
        final(args).deep_view() == old(args).deep_view() + entry_head(entry@, subtitle),
{
    let ghost before = args.deep_view();
    push_exclusive_flags(args, subtitle);
    push_arg(args, u64_to_string(entry.track_id));
    assert(args.deep_view() == before + entry_head(entry@, subtitle));
}

fn push_entry_edits(args: &mut Vec<String>, entry: &ResolvedEntry<'_>)
    ensures
        final(args).deep_view() == old(args).deep_view() + entry_edits(entry@),
{
    let ghost before = args.deep_view();
    let id = entry.track_id as u128;
    let none: Option<String> = None;
    let set = lookup_override(entry.file, entry.track_id);
    let (set_language, set_name, set_delay) = match set {
        Some(o) => (&o.language, &o.track_name, o.delay_ms),
        None => (&none, &none, None),
    };
    let language = pick_text(
        set_language,
        if entry.apply_language {
            &entry.file.language
        } else {
            &none
        },
    );
    let name = pick_text(set_name, &entry.file.track_name);
    let delay = if set_delay.is_some() {
        set_delay
    } else {
        entry.file.delay_ms
    };
    assert(language.deep_view() == entry_language(entry@));
    assert(name.deep_view() == entry_name(entry@));
    assert(delay == entry_delay(entry@));
    push_opt_flag(args, "--language", tagged_text_string(id, language));
    push_opt_flag(args, "--track-name", tagged_name_string(id, name));
    push_opt_flag(args, "--sync", tagged_delay_string(id, delay));
    assert(args.deep_view() == before + entry_edits(entry@));
}

fn push_entry_tail(args: &mut Vec<String>, entry: &ResolvedEntry<'_>, subtitle: bool)
    ensures
        final(args).deep_view() == old(args).deep_view() + entry_tail(entry@, subtitle),
{
    let ghost before = args.deep_view();
    let id = entry.track_id as u128;
    push_opt_flag(args, "--default-track-flag", tagged_bool_string(id, entry.is_default));
    push_opt_flag(
        args,
        "--forced-display-flag",
        if subtitle {
            tagged_bool_string(id, entry.is_forced)
        } else {
            None
        },
    );
    push_str_arg(args, entry.file.path.as_str());
    assert(args.deep_view() == before + entry_tail(entry@, subtitle));
}

fn push_entry_flags(args: &mut Vec<String>, entry: &ResolvedEntry<'_>, subtitle: bool)
    ensures
        final(args).deep_view() == old(args).deep_view() + entry_flags(entry@, subtitle),
{
    let ghost before = args.deep_view();
    push_entry_head(args, entry, subtitle);
    push_entry_edits(args, entry);
    push_entry_tail(args, entry, subtitle);
    proof {
        lemma_concat_three(
            before,
            entry_head(entry@, subtitle),
            entry_edits(entry@),
            entry_tail(entry@, subtitle),
        );
    }
}

fn push_entries_flags(args: &mut Vec<String>, entries: &Vec<ResolvedEntry<'_>>, subtitle: bool)
    ensures
        final(args).deep_view() == old(args).deep_view() + entries_flags(
            entries.deep_view(),
            subtitle,
        ),
{
    let ghost before = args.deep_view();
    let ghost groups = entry_flag_groups(entries.deep_view(), subtitle);
    let mut p: usize = 0;
    proof {
        lemma_flatten_take_ends(groups);
        assert(before + Seq::<Seq<char>>::empty() == before);
    }
    while p < entries.len()
        invariant
            p <= entries.len(),
            groups == entry_flag_groups(entries.deep_view(), subtitle),
            args.deep_view() == before + groups.take(p as int).flatten(),
        decreases entries.len() - p,
    {
        proof {
            lemma_flatten_take_step(groups, p as int);
        }
        let ghost so_far = args.deep_view();
        push_entry_flags(args, &entries[p], subtitle);
        assert(before + (groups.take(p as int).flatten() + groups[p as int]) == so_far
            + groups[p as int]);
        p += 1;
    }
}

fn push_chapter_flags(args: &mut Vec<String>, chapters: &Vec<ExternalFileInfo>)
    ensures
        final(args).deep_view() == old(args).deep_view() + chapter_flags(chapters.deep_view()),
{
    let ghost before = args.deep_view();
    let ghost groups = chapter_flag_groups(chapters.deep_view());
    let mut i: usize = 0;
    proof {
        lemma_flatten_take_ends(groups);
        assert(before + Seq::<Seq<char>>::empty() == before);
    }
    while i < chapters.len()
        invariant
            i <= chapters.len(),
            groups == chapter_flag_groups(chapters.deep_view()),
            args.deep_view() == before + groups.take(i as int).flatten(),
        decreases chapters.len() - i,
    {
        proof {
            lemma_flatten_take_step(groups, i as int);
        }
        let ghost so_far = args.deep_view();
        let chapter = &chapters[i];
        push_str_arg(args, "--chapters");
        push_str_arg(args, chapter.path.as_str());
        let shift = match chapter.delay_ms {
            Some(d) => if d != 0 {
                tagged_delay_string(0, Some(d))
            } else {
                None
            },
            None => None,
        };
        push_opt_flag(args, "--sync", shift);
        assert(args.deep_view() == so_far + groups[i as int]);
        assert(before + (groups.take(i as int).flatten() + groups[i as int]) == so_far
            + groups[i as int]);
        i += 1;
    }
}

fn push_attachment_flags(args: &mut Vec<String>, attachments: &Vec<ExternalFileInfo>)
    ensures
        final(args).deep_view() == old(args).deep_view() + attachment_flags(
            attachments.deep_view(),
        ),
{
    let ghost before = args.deep_view();
    let ghost groups = attachment_flag_groups(attachments.deep_view());
    let mut i: usize = 0;
    proof {
        lemma_flatten_take_ends(groups);
        assert(before + Seq::<Seq<char>>::empty() == before);
    }
    while i < attachments.len()
        invariant
            i <= attachments.len(),
            groups == attachment_flag_groups(attachments.deep_view()),
            args.deep_view() == before + groups.take(i as int).flatten(),
        decreases attachments.len() - i,
    {
        proof {
            lemma_flatten_take_step(groups, i as int);
        }
        let ghost so_far = args.deep_view();
        push_str_arg(args, "--attach-file");
        push_str_arg(args, attachments[i].path.as_str());
        assert(args.deep_view() == so_far + groups[i as int]);
        assert(before + (groups.take(i as int).flatten() + groups[i as int]) == so_far
            + groups[i as int]);
        i += 1;
    }
}

/// The argument list that makes the multiplexer write the job's output to
/// `output_path`.
pub fn build_mkvmerge_command(job: &MuxJobRequest, settings: &MuxSettings, output_path: &str) -> (args:
    Vec<String>)
    ensures
        args.deep_view() == mkvmerge_args(job@, settings@, output_path@),
{
    let tracks = &job.video.tracks;
    let audio = resolve_audio_entries(&job.audios);
    let subtitles = resolve_subtitle_entries(&job.subtitles, &job.audios);
    let mut args: Vec<String> = Vec::new();
    assert(args.deep_view() == Seq::<Seq<char>>::empty());
    push_str_arg(&mut args, "--gui-mode");
    push_str_arg(&mut args, "--output");
    push_str_arg(&mut args, output_path);
    assert(args.deep_view() == seq!["--gui-mode"@, "--output"@, output_path@]);
    push_strip_flags(&mut args, settings);
    push_clear_default_flags(&mut args, tracks, TrackKind::Audio, &audio);
    push_clear_default_flags(&mut args, tracks, TrackKind::Subtitle, &subtitles);
    push_promote_flags(&mut args, tracks, TrackKind::Audio, &settings.make_audio_default_language);
    push_promote_flags(
        &mut args,
        tracks,
        TrackKind::Subtitle,
        &settings.make_subtitle_default_language,
    );
    let audio_keep = keep_ids(
        tracks,
        TrackKind::Audio,
        settings.only_keep_audios_enabled,
        &settings.only_keep_audio_languages,
    );
    let subtitle_keep = keep_ids(
        tracks,
        TrackKind::Subtitle,
        settings.only_keep_subtitles_enabled,
        &settings.only_keep_subtitle_languages,
    );
    apply_track_selection(&mut args, tracks.as_slice(), TrackKind::Video, None);
    apply_track_selection(&mut args, tracks.as_slice(), TrackKind::Audio, audio_keep);
    apply_track_selection(&mut args, tracks.as_slice(), TrackKind::Subtitle, subtitle_keep);
    push_track_edits(&mut args, tracks);
    push_track_order(&mut args, tracks, &audio, &subtitles);
    let ghost so_far = args.deep_view();
    push_str_arg(&mut args, job.video.path.as_str());
    assert(args.deep_view() == so_far + seq![job.video.path@]);
    push_entries_flags(&mut args, &audio, false);
    push_entries_flags(&mut args, &subtitles, true);
    push_chapter_flags(&mut args, &job.chapters);
    push_attachment_flags(&mut args, &job.attachments);
    args
}

/// Whether `job` can be done by editing its primary container in place.
pub fn is_fast_path_eligible(job: &MuxJobRequest, settings: &MuxSettings) -> (r: bool)
    ensures
        r == fast_path_eligible(job@, settings@),
{
    is_blank_str(settings.destination_dir.as_str()) && settings.overwrite_source
        && job.audios.len() == 0 && job.subtitles.len() == 0 && job.chapters.len() == 0
        && job.attachments.len() == 0 && !(settings.only_keep_audios_enabled
        && settings.only_keep_audio_languages.len() > 0) && !(
    settings.only_keep_subtitles_enabled && settings.only_keep_subtitle_languages.len() > 0)
}

/// What synthesis gives for one job.
pub struct Synthesis {
    /// The multiplexer's arguments.
    pub arguments: Vec<String>,
    /// Whether the job could be done by an in-place edit instead.
    pub fast_path_eligible: bool,
}

/// Turns a job and the settings into the multiplexer's arguments, and says
/// whether the job is eligible for the in-place fast path.
pub fn synthesize(job: &MuxJobRequest, settings: &MuxSettings, output_path: &str) -> (out: Synthesis)
    ensures
        out.arguments.deep_view() == mkvmerge_args(job@, settings@, output_path@),
        out.fast_path_eligible == fast_path_eligible(job@, settings@),
{
    Synthesis {
        arguments: build_mkvmerge_command(job, settings, output_path),
        fast_path_eligible: is_fast_path_eligible(job, settings),
    }
}

/// Synthesis depends on nothing but what the job, the settings and the
/// output path hold: inputs with equal views give the same arguments and
/// the same verdict on the fast path.
pub proof fn law_synthesis_is_deterministic(
    job: MuxJobRequest,
    settings: MuxSettings,
    output: Seq<char>,
    other_job: MuxJobRequest,
    other_settings: MuxSettings,
    other_output: Seq<char>,
)
    requires
        job@ == other_job@,
        settings@ == other_settings@,
        output == other_output,
    ensures
        mkvmerge_args(job@, settings@, output) == mkvmerge_args(
            other_job@,
            other_settings@,
            other_output,
        ),
        fast_path_eligible(job@, settings@) == fast_path_eligible(other_job@, other_settings@),
{
}

} // verus!
