//! Track selection: which tracks of the primary container survive, by the
//! users' removal marks and by a language allow-list, and the multiplexer
//! flags that say so.

use crate::model::{TrackAction, TrackInfo, TrackKind, TrackView};
use crate::seqs::{
    lemma_flatten_contains, lemma_flatten_take_ends, lemma_flatten_take_step, push_arg,
    push_str_arg,
};
use crate::text::{
    decimal_digits, eq_ignore_ascii_case, join, join_strings, parse_unsigned, parse_usize,
    str_eq_ignore_ascii_case, usize_to_string,
};
use vstd::prelude::*;

verus! {

/// The numeric id of a track: the id that the prober reported where it is a
/// number, else the track's position in its container.
pub open spec fn track_id(t: TrackView, index: int) -> usize {
    match parse_unsigned(t.id, usize::MAX as nat) {
        Some(v) => v as usize,
        None => index as usize,
    }
}

/// Whether a track is marked for removal.
pub open spec fn is_removed(t: TrackView) -> bool {
    t.action == TrackAction::Remove
}

/// Whether `language` equals one of `languages`, ASCII case aside.
pub open spec fn language_listed(language: Seq<char>, languages: Seq<Seq<char>>) -> bool {
    exists|k: int|
        0 <= k < languages.len() && eq_ignore_ascii_case(#[trigger] languages[k], language)
}

/// Which tracks of a kind a list of ids is drawn from.
pub enum IdFilter {
    /// Every track of the kind.
    All,
    /// The tracks that are not marked for removal.
    Kept,
    /// The tracks whose language is one of these, ASCII case aside.
    Language(Seq<Seq<char>>),
}

/// Whether a track is of `kind` and passes `filter`.
pub open spec fn passes(t: TrackView, kind: TrackKind, filter: IdFilter) -> bool {
    t.kind == kind && match filter {
        IdFilter::All => true,
        IdFilter::Kept => !is_removed(t),
        IdFilter::Language(languages) => t.language matches Some(l) && language_listed(
            l,
            languages,
        ),
    }
}

/// The id of each track where the track is of `kind` and passes `filter`.
pub open spec fn id_groups(tracks: Seq<TrackView>, kind: TrackKind, filter: IdFilter) -> Seq<
    Seq<usize>,
> {
    Seq::new(
        tracks.len(),
        |i: int|
            if passes(tracks[i], kind, filter) {
                seq![track_id(tracks[i], i)]
            } else {
                Seq::empty()
            },
    )
}

/// The ids of the tracks of `kind` that pass `filter`, in container order.
pub open spec fn ids_of(tracks: Seq<TrackView>, kind: TrackKind, filter: IdFilter) -> Seq<usize> {
    id_groups(tracks, kind, filter).flatten()
}

/// Whether a track of `kind` is marked for removal.
pub open spec fn has_removed(tracks: Seq<TrackView>, kind: TrackKind) -> bool {
    exists|i: int| 0 <= i < tracks.len() && (#[trigger] tracks[i]).kind == kind && is_removed(tracks[i])
}

/// Each item of `left` where `right` holds it.
pub open spec fn listed_groups(left: Seq<usize>, right: Seq<usize>) -> Seq<Seq<usize>> {
    Seq::new(
        left.len(),
        |i: int|
            if right.contains(left[i]) {
                seq![left[i]]
            } else {
                Seq::empty()
            },
    )
}

/// The items of `left` that occur in `right`, in the order of `left`.
pub open spec fn intersect(left: Seq<usize>, right: Seq<usize>) -> Seq<usize> {
    listed_groups(left, right).flatten()
}

/// The selection before any allow-list: every track of the kind while none
/// of them is marked for removal, else those that are not marked.
pub open spec fn baseline_ids(tracks: Seq<TrackView>, kind: TrackKind) -> Seq<usize> {
    if has_removed(tracks, kind) {
        ids_of(tracks, kind, IdFilter::Kept)
    } else {
        ids_of(tracks, kind, IdFilter::All)
    }
}

/// The ids that survive: the baseline, cut down to the allow-list where
/// there is one.
pub open spec fn selected_ids(
    tracks: Seq<TrackView>,
    kind: TrackKind,
    keep: Option<Seq<usize>>,
) -> Seq<usize> {
    match keep {
        Some(k) => intersect(baseline_ids(tracks, kind), k),
        None => baseline_ids(tracks, kind),
    }
}

/// Whether anything could have been taken away from the full set.
pub open spec fn was_filtered(
    tracks: Seq<TrackView>,
    kind: TrackKind,
    keep: Option<Seq<usize>>,
) -> bool {
    has_removed(tracks, kind) || keep is Some
}

/// The flag that takes no track of `kind` from the next file; there is
/// none for a kind other than video, audio and subtitle.
pub open spec fn disable_flag(kind: TrackKind) -> Option<Seq<char>> {
    match kind {
        TrackKind::Video => Some("--no-video"@),
        TrackKind::Audio => Some("--no-audio"@),
        TrackKind::Subtitle => Some("--no-subtitles"@),
        TrackKind::Other => None,
    }
}

/// The flag that lists the tracks of `kind` to take from the next file;
/// there is none for a kind other than video, audio and subtitle.
pub open spec fn select_flag(kind: TrackKind) -> Option<Seq<char>> {
    match kind {
        TrackKind::Video => Some("--video-tracks"@),
        TrackKind::Audio => Some("--audio-tracks"@),
        TrackKind::Subtitle => Some("--subtitle-tracks"@),
        TrackKind::Other => None,
    }
}

/// The ids in decimal, separated by commas.
pub open spec fn id_list_text(ids: Seq<usize>) -> Seq<char> {
    join(Seq::new(ids.len(), |i: int| decimal_digits(ids[i] as nat)), ","@)
}

/// The flags that tell the multiplexer which tracks of `kind` to take from
/// the primary container: none where the container has no such track or
/// nothing was filtered, the flag that disables the kind where nothing
/// survives, else the list of the surviving ids. A kind that has no such
/// flags gets none.
pub open spec fn selection_flags(
    tracks: Seq<TrackView>,
    kind: TrackKind,
    keep: Option<Seq<usize>>,
) -> Seq<Seq<char>> {
    let selected = selected_ids(tracks, kind, keep);
    if ids_of(tracks, kind, IdFilter::All).len() == 0 || !was_filtered(tracks, kind, keep) {
        Seq::empty()
    } else if selected.len() == 0 {
        match disable_flag(kind) {
            Some(flag) => seq![flag],
            None => Seq::empty(),
        }
    } else {
        match select_flag(kind) {
            Some(flag) => seq![flag, id_list_text(selected)],
            None => Seq::empty(),
        }
    }
}

/// The numeric id of a track: the id that the prober reported where it is
/// a number, else `index`, the track's position in its container.
pub fn parse_track_id(track: &TrackInfo, index: usize) -> (id: usize)
    ensures
        id == track_id(track@, index as int),
{
    match parse_usize(track.id.as_str()) {
        Some(v) => v,
        None => index,
    }
}

/// Whether a track is marked for removal.
pub fn is_track_removed(track: &TrackInfo) -> (r: bool)
    ensures
        r == is_removed(track@),
{
    track.action == TrackAction::Remove
}

/// Whether `language` equals one of `languages`, ASCII case aside.
pub fn is_language_listed(language: &str, languages: &[String]) -> (r: bool)
    ensures
        r == language_listed(language@, languages.deep_view()),
{
    let mut k: usize = 0;
    while k < languages.len()
        invariant
            k <= languages.len(),
            forall|j: int|
                0 <= j < k ==> !eq_ignore_ascii_case(
                    #[trigger] languages.deep_view()[j],
                    language@,
                ),
        decreases languages.len() - k,
    {
        if str_eq_ignore_ascii_case(languages[k].as_str(), language) {
            assert(eq_ignore_ascii_case(languages.deep_view()[k as int], language@));
            return true;
        }
        k += 1;
    }
    false
}

/// The ids of the tracks of `kind` whose language is one of `languages`,
/// ASCII case aside, in container order.
pub fn collect_track_ids_by_language(
    tracks: &[TrackInfo],
    kind: TrackKind,
    languages: &[String],
) -> (ids: Vec<usize>)
    ensures
        ids@ == ids_of(tracks.deep_view(), kind, IdFilter::Language(languages.deep_view())),
{
    let ghost groups = id_groups(
        tracks.deep_view(),
        kind,
        IdFilter::Language(languages.deep_view()),
    );
    let mut ids: Vec<usize> = Vec::new();
    let mut index: usize = 0;
    proof {
        lemma_flatten_take_ends(groups);
    }
    while index < tracks.len()
        invariant
            index <= tracks.len(),
            groups == id_groups(
                tracks.deep_view(),
                kind,
                IdFilter::Language(languages.deep_view()),
            ),
            ids@ == groups.take(index as int).flatten(),
        decreases tracks.len() - index,
    {
        proof {
            lemma_flatten_take_step(groups, index as int);
        }
        let track = &tracks[index];
        if track.kind == kind {
            if let Some(language) = &track.language {
                if is_language_listed(language.as_str(), languages) {
                    ids.push(parse_track_id(track, index));
                }
            }
        }
        index += 1;
    }
    ids
}

/// The ids of the tracks of `kind` that are not marked for removal, in
/// container order, and whether any track of the kind is marked.
pub fn collect_track_ids_by_action(tracks: &[TrackInfo], kind: TrackKind) -> (r: (
    Vec<usize>,
    bool,
))
    ensures
        r.0@ == ids_of(tracks.deep_view(), kind, IdFilter::Kept),
        r.1 == has_removed(tracks.deep_view(), kind),
{
    let ghost view = tracks.deep_view();
    let ghost groups = id_groups(view, kind, IdFilter::Kept);
    let mut ids: Vec<usize> = Vec::new();
    let mut removed = false;
    let mut index: usize = 0;
    proof {
        lemma_flatten_take_ends(groups);
    }
    while index < tracks.len()
        invariant
            index <= tracks.len(),
            view == tracks.deep_view(),
            groups == id_groups(view, kind, IdFilter::Kept),
            ids@ == groups.take(index as int).flatten(),
            removed == (exists|j: int|
                0 <= j < index && (#[trigger] view[j]).kind == kind && is_removed(view[j])),
        decreases tracks.len() - index,
    {
        proof {
            lemma_flatten_take_step(groups, index as int);
        }
        let track = &tracks[index];
        if track.kind == kind {
            if is_track_removed(track) {
                assert(view[index as int].kind == kind && is_removed(view[index as int]));
                removed = true;
            } else {
                ids.push(parse_track_id(track, index));
            }
        }
        index += 1;
    }
    (ids, removed)
}

/// The ids of all tracks of `kind`, in container order.
pub fn collect_track_ids(tracks: &[TrackInfo], kind: TrackKind) -> (ids: Vec<usize>)
    ensures
        ids@ == ids_of(tracks.deep_view(), kind, IdFilter::All),
{
    let ghost groups = id_groups(tracks.deep_view(), kind, IdFilter::All);
    let mut ids: Vec<usize> = Vec::new();
    let mut index: usize = 0;
    proof {
        lemma_flatten_take_ends(groups);
    }
    while index < tracks.len()
        invariant
            index <= tracks.len(),
            groups == id_groups(tracks.deep_view(), kind, IdFilter::All),
            ids@ == groups.take(index as int).flatten(),
        decreases tracks.len() - index,
    {
        proof {
            lemma_flatten_take_step(groups, index as int);
        }
        let track = &tracks[index];
        if track.kind == kind {
            ids.push(parse_track_id(track, index));
        }
        index += 1;
    }
    ids
}

/// Whether `ids` holds `id`.
pub fn contains_id(ids: &Vec<usize>, id: usize) -> (r: bool)
    ensures
        r == ids@.contains(id),
{
    let mut i: usize = 0;
    while i < ids.len()
        invariant
            i <= ids.len(),
            forall|j: int| 0 <= j < i ==> ids@[j] != id,
        decreases ids.len() - i,
    {
        if ids[i] == id {
            return true;
        }
        i += 1;
    }
    false
}

/// The items of `left` that occur in `right`, in the order of `left`.
pub fn intersect_ids(left: Vec<usize>, right: Vec<usize>) -> (out: Vec<usize>)
    ensures
        out@ == intersect(left@, right@),
{
    let ghost groups = listed_groups(left@, right@);
    let mut out: Vec<usize> = Vec::new();
    let mut i: usize = 0;
    proof {
        lemma_flatten_take_ends(groups);
    }
    while i < left.len()
        invariant
            i <= left.len(),
            groups == listed_groups(left@, right@),
            out@ == groups.take(i as int).flatten(),
        decreases left.len() - i,
    {
        proof {
            lemma_flatten_take_step(groups, i as int);
        }
        if contains_id(&right, left[i]) {
            out.push(left[i]);
        }
        i += 1;
    }
    out
}

/// The selection for one kind of track: the surviving ids, and whether
/// anything could have been taken away from the full set.
pub fn select_tracks(tracks: &[TrackInfo], kind: TrackKind, only_keep_ids: Option<Vec<usize>>) -> (r:
    (Vec<usize>, bool))
    ensures
        r.0@ == selected_ids(tracks.deep_view(), kind, only_keep_ids.deep_view()),
        r.1 == was_filtered(tracks.deep_view(), kind, only_keep_ids.deep_view()),
{
    let (action_ids, removed) = collect_track_ids_by_action(tracks, kind);
    let baseline = if removed {
        action_ids
    } else {
        collect_track_ids(tracks, kind)
    };
    match only_keep_ids {
        Some(keep) => {
            assert(keep.deep_view() == keep@);
            (intersect_ids(baseline, keep), true)
        },
        None => (baseline, removed),
    }
}

/// The ids in decimal, separated by commas.
pub fn id_list(ids: &Vec<usize>) -> (out: String)
    ensures
        out@ == id_list_text(ids@),
{
    let ghost texts = Seq::new(ids@.len(), |i: int| decimal_digits(ids@[i] as nat));
    let mut parts: Vec<String> = Vec::new();
    let mut i: usize = 0;
    while i < ids.len()
        invariant
            i <= ids.len(),
            texts == Seq::new(ids@.len(), |i: int| decimal_digits(ids@[i] as nat)),
            parts.deep_view() == texts.take(i as int),
        decreases ids.len() - i,
    {
        push_arg(&mut parts, usize_to_string(ids[i]));
        assert(texts.take(i + 1) == texts.take(i as int).push(texts[i as int]));
        i += 1;
    }
    assert(texts.take(i as int) == texts);
    join_strings(&parts, ",")
}

/// Appends to `args` the flags that tell the multiplexer which tracks of
/// `kind` to take from the primary container.
pub fn apply_track_selection(
    args: &mut Vec<String>,
    tracks: &[TrackInfo],
    kind: TrackKind,
    only_keep_ids: Option<Vec<usize>>,
)
    ensures
        final(args).deep_view() == old(args).deep_view() + selection_flags(
            tracks.deep_view(),
            kind,
            only_keep_ids.deep_view(),
        ),
{
    let ghost before = args.deep_view();
    let type_ids = collect_track_ids(tracks, kind);
    if type_ids.len() == 0 {
        assert(before + Seq::<Seq<char>>::empty() == before);
        return ;
    }
    let (selected, filtered) = select_tracks(tracks, kind, only_keep_ids);
    if !filtered {
        assert(before + Seq::<Seq<char>>::empty() == before);
        return ;
    }
    if selected.len() == 0 {
        match kind {
            TrackKind::Audio => push_str_arg(args, "--no-audio"),
            TrackKind::Subtitle => push_str_arg(args, "--no-subtitles"),
            TrackKind::Video => push_str_arg(args, "--no-video"),
            TrackKind::Other => {
                assert(before + Seq::<Seq<char>>::empty() == before);
                return ;
            },
        }
        assert(before.push(disable_flag(kind)->0) == before + seq![disable_flag(kind)->0]);
        return ;
    }
    match kind {
        TrackKind::Audio => push_str_arg(args, "--audio-tracks"),
        TrackKind::Subtitle => push_str_arg(args, "--subtitle-tracks"),
        TrackKind::Video => push_str_arg(args, "--video-tracks"),
        TrackKind::Other => {
            assert(before + Seq::<Seq<char>>::empty() == before);
            return ;
        },
    }
    push_arg(args, id_list(&selected));
    assert(before.push(select_flag(kind)->0).push(id_list_text(selected@)) == before + seq![
        select_flag(kind)->0,
        id_list_text(selected@),
    ]);
}

/// Whether `id` is the id of a track of `kind` that passes `filter`.
pub open spec fn some_track_has_id(
    tracks: Seq<TrackView>,
    kind: TrackKind,
    filter: IdFilter,
    id: usize,
) -> bool {
    exists|i: int|
        0 <= i < tracks.len() && passes(#[trigger] tracks[i], kind, filter) && track_id(
            tracks[i],
            i,
        ) == id
}

/// The allow-list of ids that a list of languages stands for.
pub open spec fn keep_ids_for(
    tracks: Seq<TrackView>,
    kind: TrackKind,
    languages: Option<Seq<Seq<char>>>,
) -> Option<Seq<usize>> {
    match languages {
        Some(l) => Some(ids_of(tracks, kind, IdFilter::Language(l))),
        None => None,
    }
}

/// A list of ids holds exactly the ids of the tracks it is drawn from.
pub proof fn lemma_ids_of_contains(
    tracks: Seq<TrackView>,
    kind: TrackKind,
    filter: IdFilter,
    id: usize,
)
    ensures
        ids_of(tracks, kind, filter).contains(id) <==> some_track_has_id(tracks, kind, filter, id),
{
    let groups = id_groups(tracks, kind, filter);
    lemma_flatten_contains(groups, id);
    if ids_of(tracks, kind, filter).contains(id) {
        let i = choose|i: int| 0 <= i < groups.len() && (#[trigger] groups[i]).contains(id);
        assert(passes(tracks[i], kind, filter));
        assert(groups[i][0] == id);
    }
    if some_track_has_id(tracks, kind, filter, id) {
        let i = choose|i: int|
            0 <= i < tracks.len() && passes(#[trigger] tracks[i], kind, filter) && track_id(
                tracks[i],
                i,
            ) == id;
        assert(groups[i][0] == id);
        assert(groups[i].contains(id));
    }
}

/// The intersection holds exactly what both lists hold.
pub proof fn lemma_intersect_contains(left: Seq<usize>, right: Seq<usize>, id: usize)
    ensures
        intersect(left, right).contains(id) <==> left.contains(id) && right.contains(id),
{
    let groups = listed_groups(left, right);
    lemma_flatten_contains(groups, id);
    if intersect(left, right).contains(id) {
        let i = choose|i: int| 0 <= i < groups.len() && (#[trigger] groups[i]).contains(id);
        assert(right.contains(left[i]));
        assert(groups[i][0] == id);
        assert(left[i] == id);
    }
    if left.contains(id) && right.contains(id) {
        let i = choose|i: int| 0 <= i < left.len() && left[i] == id;
        assert(groups[i][0] == id);
        assert(groups[i].contains(id));
    }
}

/// While no track of a kind is marked for removal, the selection starts
/// from every track of that kind, whether or not an allow-list follows; and
/// without an allow-list the selection is that full set, nothing counts as
/// filtered, and no flag is emitted.
pub proof fn law_unmarked_selects_all(tracks: Seq<TrackView>, kind: TrackKind)
    requires
        !has_removed(tracks, kind),
    ensures
        baseline_ids(tracks, kind) == ids_of(tracks, kind, IdFilter::All),
        selected_ids(tracks, kind, None) == ids_of(tracks, kind, IdFilter::All),
        !was_filtered(tracks, kind, None),
        selection_flags(tracks, kind, None) == Seq::<Seq<char>>::empty(),
{
}

/// Once a track of a kind is marked for removal, an id is selected exactly
/// if it is the id of a track of that kind that is not marked and, where an
/// allow-list of languages is given, also the id of a track of that kind
/// whose language is on the list: the two conditions intersect.
pub proof fn law_marked_are_excluded(
    tracks: Seq<TrackView>,
    kind: TrackKind,
    languages: Option<Seq<Seq<char>>>,
    id: usize,
)
    requires
        has_removed(tracks, kind),
    ensures
        selected_ids(tracks, kind, keep_ids_for(tracks, kind, languages)).contains(id) <==> (
        some_track_has_id(tracks, kind, IdFilter::Kept, id) && (languages matches Some(l)
            ==> some_track_has_id(tracks, kind, IdFilter::Language(l), id))),
{
    lemma_ids_of_contains(tracks, kind, IdFilter::Kept, id);
    match languages {
        Some(l) => {
            lemma_ids_of_contains(tracks, kind, IdFilter::Language(l), id);
            lemma_intersect_contains(
                ids_of(tracks, kind, IdFilter::Kept),
                ids_of(tracks, kind, IdFilter::Language(l)),
                id,
            );
        },
        None => {},
    }
}

} // verus!
