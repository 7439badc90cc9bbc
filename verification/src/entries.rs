//! Resolving the external audio and subtitle files of a job into entries:
//! one entry for each track that a file contributes.

use crate::model::{ExternalFileInfo, ExternalFileView, TrackOverride, TrackOverrideView};
use crate::seqs::{lemma_flatten_take_ends, lemma_flatten_take_step};
use vstd::prelude::*;

verus! {

/// One track taken from one external file.
#[derive(Clone, Copy, Debug)]
pub struct ResolvedEntry<'a> {
    pub file: &'a ExternalFileInfo,
    pub track_id: u64,
    pub is_default: Option<bool>,
    pub is_forced: Option<bool>,
    /// Whether the file's own language applies to this track.
    pub apply_language: bool,
}

/// What an entry is: the file, the track, and what holds of the track.
pub struct EntryView {
    pub file: ExternalFileView,
    pub track_id: u64,
    pub is_default: Option<bool>,
    pub is_forced: Option<bool>,
    pub apply_language: bool,
}

impl<'a> DeepView for ResolvedEntry<'a> {
    type V = EntryView;

    open spec fn deep_view(&self) -> EntryView {
        EntryView {
            file: self.file.deep_view(),
            track_id: self.track_id,
            is_default: self.is_default,
            is_forced: self.is_forced,
            apply_language: self.apply_language,
        }
    }
}

impl<'a> View for ResolvedEntry<'a> {
    type V = EntryView;

    open spec fn view(&self) -> EntryView {
        self.deep_view()
    }
}

/// The track ids that a file contributes. The user's selection decides
/// where there is one, and an empty selection contributes nothing. Else
/// the probed ids decide where the probe found more than one track; else
/// the id that the file declares, else the one probed id, else id 0.
pub open spec fn resolved_ids(
    included: Option<Seq<u64>>,
    probed: Option<Seq<u64>>,
    declared: Option<u64>,
) -> Seq<u64> {
    match included {
        Some(ids) => ids,
        None => {
            let found = match probed {
                Some(p) => if p.len() > 1 {
                    p
                } else {
                    match declared {
                        Some(id) => seq![id],
                        None => p,
                    }
                },
                None => match declared {
                    Some(id) => seq![id],
                    None => Seq::empty(),
                },
            };
            if found.len() == 0 {
                seq![0u64]
            } else {
                found
            }
        },
    }
}

/// The entry for the `k`-th id of a file. Where the file asks to be the
/// default, only its first entry is; only the first entry takes the file's
/// language.
pub open spec fn entry_at(file: ExternalFileView, ids: Seq<u64>, k: int) -> EntryView {
    EntryView {
        file,
        track_id: ids[k],
        is_default: if file.is_default == Some(true) {
            Some(k == 0)
        } else {
            file.is_default
        },
        is_forced: file.is_forced,
        apply_language: k == 0,
    }
}

/// The entries of one file, given what the probe found in it.
pub open spec fn file_entries(file: ExternalFileView, probed: Option<Seq<u64>>) -> Seq<EntryView> {
    let ids = resolved_ids(file.included_track_ids, probed, file.track_id);
    Seq::new(ids.len(), |k: int| entry_at(file, ids, k))
}

/// The entries of each audio file.
pub open spec fn audio_entry_groups(audios: Seq<ExternalFileView>) -> Seq<Seq<EntryView>> {
    Seq::new(audios.len(), |i: int| file_entries(audios[i], audios[i].probed_audio_ids))
}

/// The entries of the external audio files, file by file.
pub open spec fn audio_entries(audios: Seq<ExternalFileView>) -> Seq<EntryView> {
    audio_entry_groups(audios).flatten()
}

/// The entries of each subtitle file.
pub open spec fn subtitle_entry_groups(subtitles: Seq<ExternalFileView>) -> Seq<Seq<EntryView>> {
    Seq::new(
        subtitles.len(),
        |i: int| file_entries(subtitles[i], subtitles[i].probed_subtitle_ids),
    )
}

/// The entries of the external subtitle files, file by file.
pub open spec fn subtitle_entries(subtitles: Seq<ExternalFileView>) -> Seq<EntryView> {
    subtitle_entry_groups(subtitles).flatten()
}

/// The subtitle tracks that an audio file carries along: none unless the
/// file asks for them; then the user's selection, else the probed ids.
pub open spec fn carried_ids(file: ExternalFileView) -> Seq<u64> {
    if file.include_subtitles != Some(true) {
        Seq::empty()
    } else {
        match file.included_subtitle_track_ids {
            Some(ids) => ids,
            None => match file.probed_subtitle_ids {
                Some(p) => p,
                None => Seq::empty(),
            },
        }
    }
}

/// The entry for a subtitle track that an audio file carries along: it takes
/// neither flags nor language from the file.
pub open spec fn carried_entry_at(file: ExternalFileView, ids: Seq<u64>, k: int) -> EntryView {
    EntryView { file, track_id: ids[k], is_default: None, is_forced: None, apply_language: false }
}

/// The entries for the subtitle tracks that one audio file carries along.
pub open spec fn carried_entries(file: ExternalFileView) -> Seq<EntryView> {
    let ids = carried_ids(file);
    Seq::new(ids.len(), |k: int| carried_entry_at(file, ids, k))
}

/// The carried entries of each audio file.
pub open spec fn carried_entry_groups(audios: Seq<ExternalFileView>) -> Seq<Seq<EntryView>> {
    Seq::new(audios.len(), |i: int| carried_entries(audios[i]))
}

/// The entries for the subtitle tracks that the audio files carry along.
pub open spec fn carried_subtitle_entries(audios: Seq<ExternalFileView>) -> Seq<EntryView> {
    carried_entry_groups(audios).flatten()
}

/// Whether one of the entries asks to be the default track.
pub open spec fn wants_default(entries: Seq<EntryView>) -> bool {
    exists|p: int| 0 <= p < entries.len() && (#[trigger] entries[p]).is_default == Some(true)
}

/// What the user set for the entry's track, if anything.
pub open spec fn override_of(e: EntryView) -> Option<TrackOverrideView> {
    if e.file.track_overrides.contains_key(e.track_id) {
        Some(e.file.track_overrides[e.track_id])
    } else {
        None
    }
}

fn copy_ids(ids: &Vec<u64>) -> (out: Vec<u64>)
    ensures
        out@ == ids@,
{
    let mut out: Vec<u64> = Vec::new();
    let mut i: usize = 0;
    while i < ids.len()
        invariant
            i <= ids.len(),
            out@ == ids@.take(i as int),
        decreases ids.len() - i,
    {
        out.push(ids[i]);
        i += 1;
    }
    assert(ids@.take(i as int) == ids@);
    out
}

/// The track ids that a file contributes.
pub fn resolve_ids(included: &Option<Vec<u64>>, probed: &Option<Vec<u64>>, declared: Option<u64>) -> (out:
    Vec<u64>)
    ensures
        out@ == resolved_ids(included.deep_view(), probed.deep_view(), declared),
{
    match included {
        Some(ids) => {
            assert(ids.deep_view() == ids@);
            copy_ids(ids)
        },
        None => {
            let mut found: Vec<u64> = Vec::new();
            match probed {
                Some(p) => {
                    assert(p.deep_view() == p@);
                    if p.len() > 1 {
                        found = copy_ids(p);
                    } else {
                        match declared {
                            Some(id) => {
                                found.push(id);
                            },
                            None => {
                                found = copy_ids(p);
                            },
                        }
                    }
                },
                None => {
                    match declared {
                        Some(id) => {
                            found.push(id);
                        },
                        None => {},
                    }
                },
            }
            if found.len() == 0 {
                found.push(0);
            }
            found
        },
    }
}

/// Appends one item to a list, seen through the deep view.
pub fn push_entry<'a>(out: &mut Vec<ResolvedEntry<'a>>, entry: ResolvedEntry<'a>)
    ensures
        final(out).deep_view() == old(out).deep_view().push(entry.deep_view()),
{
    out.push(entry);
    assert(out.deep_view() =~= old(out).deep_view().push(entry.deep_view()));
}

/// Appends the entries of one file.
pub fn push_file_entries<'a>(
    out: &mut Vec<ResolvedEntry<'a>>,
    file: &'a ExternalFileInfo,
    probed: &Option<Vec<u64>>,
)
    ensures
        final(out).deep_view() == old(out).deep_view() + file_entries(file@, probed.deep_view()),
{
    let ghost before = out.deep_view();
    let ghost wanted = file_entries(file@, probed.deep_view());
    let ids = resolve_ids(&file.included_track_ids, probed, file.track_id);
    let first_is_default = match file.is_default {
        Some(true) => true,
        _ => false,
    };
    let mut k: usize = 0;
    assert(before + wanted.take(0) == before);
    while k < ids.len()
        invariant
            k <= ids.len(),
            ids@ == resolved_ids(file@.included_track_ids, probed.deep_view(), file@.track_id),
            wanted == file_entries(file@, probed.deep_view()),
            first_is_default == (file@.is_default == Some(true)),
            out.deep_view() == before + wanted.take(k as int),
        decreases ids.len() - k,
    {
        let entry = ResolvedEntry {
            file,
            track_id: ids[k],
            is_default: if first_is_default {
                Some(k == 0)
            } else {
                file.is_default
            },
            is_forced: file.is_forced,
            apply_language: k == 0,
        };
        assert(entry.deep_view() == wanted[k as int]);
        push_entry(out, entry);
        assert(wanted.take(k + 1) == wanted.take(k as int).push(wanted[k as int]));
        assert(before + wanted.take(k + 1) == (before + wanted.take(k as int)).push(
            wanted[k as int],
        ));
        k += 1;
    }
    assert(wanted.take(k as int) == wanted);
}

/// Appends the entries for the subtitle tracks that an audio file carries.
pub fn push_carried_entries<'a>(out: &mut Vec<ResolvedEntry<'a>>, file: &'a ExternalFileInfo)
    ensures
        final(out).deep_view() == old(out).deep_view() + carried_entries(file@),
{
    let ghost before = out.deep_view();
    let ghost wanted = carried_entries(file@);
    let wanted_by_file = match file.include_subtitles {
        Some(true) => true,
        _ => false,
    };
    let none: Vec<u64> = Vec::new();
    let ids: &Vec<u64> = if !wanted_by_file {
        &none
    } else {
        match &file.included_subtitle_track_ids {
            Some(ids) => ids,
            None => match &file.probed_subtitle_ids {
                Some(p) => p,
                None => &none,
            },
        }
    };
    assert(ids@ == carried_ids(file@)) by {
        if wanted_by_file {
            match file.included_subtitle_track_ids {
                Some(i) => {
                    assert(i.deep_view() == i@);
                },
                None => match file.probed_subtitle_ids {
                    Some(p) => {
                        assert(p.deep_view() == p@);
                    },
                    None => {},
                },
            }
        }
    }
    let mut k: usize = 0;
    assert(before + wanted.take(0) == before);
    while k < ids.len()
        invariant
            k <= ids.len(),
            ids@ == carried_ids(file@),
            wanted == carried_entries(file@),
            out.deep_view() == before + wanted.take(k as int),
        decreases ids.len() - k,
    {
        let entry = ResolvedEntry {
            file,
            track_id: ids[k],
            is_default: None,
            is_forced: None,
            apply_language: false,
        };
        assert(entry.deep_view() == wanted[k as int]);
        push_entry(out, entry);
        assert(wanted.take(k + 1) == wanted.take(k as int).push(wanted[k as int]));
        assert(before + wanted.take(k + 1) == (before + wanted.take(k as int)).push(
            wanted[k as int],
        ));
        k += 1;
    }
    assert(wanted.take(k as int) == wanted);
}

/// The entries of the external audio files of a job.
pub fn resolve_audio_entries<'a>(audios: &'a Vec<ExternalFileInfo>) -> (out: Vec<ResolvedEntry<'a>>)
    ensures
        out.deep_view() == audio_entries(audios.deep_view()),
{
    let ghost groups = audio_entry_groups(audios.deep_view());
    let mut out: Vec<ResolvedEntry<'a>> = Vec::new();
    let mut i: usize = 0;
    proof {
        lemma_flatten_take_ends(groups);
        assert(out.deep_view() == Seq::<EntryView>::empty());
    }
    while i < audios.len()
        invariant
            i <= audios.len(),
            groups == audio_entry_groups(audios.deep_view()),
            out.deep_view() == groups.take(i as int).flatten(),
        decreases audios.len() - i,
    {
        proof {
            lemma_flatten_take_step(groups, i as int);
        }
        let file = &audios[i];
        push_file_entries(&mut out, file, &file.probed_audio_ids);
        i += 1;
    }
    out
}

/// The entries of the external subtitle files of a job, followed by those
/// for the subtitle tracks that its audio files carry along.
pub fn resolve_subtitle_entries<'a>(
    subtitles: &'a Vec<ExternalFileInfo>,
    audios: &'a Vec<ExternalFileInfo>,
) -> (out: Vec<ResolvedEntry<'a>>)
    ensures
        out.deep_view() == subtitle_entries(subtitles.deep_view()) + carried_subtitle_entries(
            audios.deep_view(),
        ),
{
    let ghost groups = subtitle_entry_groups(subtitles.deep_view());
    let mut out: Vec<ResolvedEntry<'a>> = Vec::new();
    let mut i: usize = 0;
    proof {
        lemma_flatten_take_ends(groups);
        assert(out.deep_view() == Seq::<EntryView>::empty());
    }
    while i < subtitles.len()
        invariant
            i <= subtitles.len(),
            groups == subtitle_entry_groups(subtitles.deep_view()),
            out.deep_view() == groups.take(i as int).flatten(),
        decreases subtitles.len() - i,
    {
        proof {
            lemma_flatten_take_step(groups, i as int);
        }
        let file = &subtitles[i];
        push_file_entries(&mut out, file, &file.probed_subtitle_ids);
        i += 1;
    }
    let ghost own = subtitle_entries(subtitles.deep_view());
    let ghost carried = carried_entry_groups(audios.deep_view());
    let mut j: usize = 0;
    proof {
        lemma_flatten_take_ends(carried);
        assert(own + Seq::<EntryView>::empty() == own);
    }
    while j < audios.len()
        invariant
            j <= audios.len(),
            carried == carried_entry_groups(audios.deep_view()),
            out.deep_view() == own + carried.take(j as int).flatten(),
        decreases audios.len() - j,
    {
        proof {
            lemma_flatten_take_step(carried, j as int);
            assert(own + (carried.take(j as int).flatten() + carried[j as int]) == (own
                + carried.take(j as int).flatten()) + carried[j as int]);
        }
        push_carried_entries(&mut out, &audios[j]);
        j += 1;
    }
    out
}

/// Whether one of the entries asks to be the default track.
pub fn any_wants_default(entries: &Vec<ResolvedEntry<'_>>) -> (r: bool)
    ensures
        r == wants_default(entries.deep_view()),
{
    let mut p: usize = 0;
    while p < entries.len()
        invariant
            p <= entries.len(),
            forall|q: int| 0 <= q < p ==> (#[trigger] entries.deep_view()[q]).is_default != Some(true),
        decreases entries.len() - p,
    {
        if let Some(true) = entries[p].is_default {
            assert(entries.deep_view()[p as int].is_default == Some(true));
            return true;
        }
        p += 1;
    }
    false
}

/// What the user set for the track `id` of `file`, if anything.
pub fn lookup_override(file: &ExternalFileInfo, id: u64) -> (r: Option<&TrackOverride>)
    ensures
        r.deep_view() == (if file@.track_overrides.contains_key(id) {
            Some(file@.track_overrides[id])
        } else {
            None
        }),
{
    broadcast use vstd::std_specs::hash::group_hash_axioms;

    file.track_overrides.get(&id)
}

/// For a file that was probed and in which the user selected no tracks, the
/// probe alone decides the number of entries: as many as it found tracks
/// where it found more than one, else exactly one. Of several entries only
/// the first takes the file's language, and only the first can inherit the
/// file's wish to be the default.
pub proof fn law_probed_file_entries(file: ExternalFileView, probed: Seq<u64>)
    requires
        file.included_track_ids is None,
    ensures
        file_entries(file, Some(probed)).len() == (if probed.len() > 1 {
            probed.len()
        } else {
            1
        }),
        forall|k: int|
            1 <= k < file_entries(file, Some(probed)).len() ==> {
                let e = #[trigger] file_entries(file, Some(probed))[k];
                !e.apply_language && e.is_default != Some(true)
            },
        file_entries(file, Some(probed))[0].apply_language,
        file.is_default == Some(true) ==> file_entries(file, Some(probed))[0].is_default == Some(
            true,
        ),
{
}

} // verus!
