//! The data that a remux job is made of, and the mathematical view of each type.

use std::collections::HashMap;
use vstd::prelude::*;

verus! {

/// What a track of the primary container carries.
#[derive(Clone, Copy, Debug, PartialEq, Eq, Structural)]
pub enum TrackKind {
    Video,
    Audio,
    Subtitle,
    /// Anything else that the prober listed as a track. Such a track keeps
    /// its place among the tracks and can be edited, but it is never
    /// selected by kind and has no forced flag.
    Other,
}

/// Whether the user keeps a track or has marked it for removal.
#[derive(Clone, Copy, Debug, PartialEq, Eq, Structural)]
pub enum TrackAction {
    Keep,
    Remove,
}

/// One track of the primary container, as probed and then edited by the user.
#[derive(Clone, Debug)]
pub struct TrackInfo {
    /// The id that the prober reported, as text.
    pub id: String,
    pub kind: TrackKind,
    pub language: Option<String>,
    pub name: Option<String>,
    pub is_default: Option<bool>,
    pub is_forced: Option<bool>,
    pub action: TrackAction,
}

/// What a track is, with its texts as sequences of characters.
pub struct TrackView {
    pub id: Seq<char>,
    pub kind: TrackKind,
    pub language: Option<Seq<char>>,
    pub name: Option<Seq<char>>,
    pub is_default: Option<bool>,
    pub is_forced: Option<bool>,
    pub action: TrackAction,
}

impl DeepView for TrackInfo {
    type V = TrackView;

    open spec fn deep_view(&self) -> TrackView {
        TrackView {
            id: self.id@,
            kind: self.kind,
            language: self.language.deep_view(),
            name: self.name.deep_view(),
            is_default: self.is_default,
            is_forced: self.is_forced,
            action: self.action,
        }
    }
}

impl View for TrackInfo {
    type V = TrackView;

    open spec fn view(&self) -> TrackView {
        self.deep_view()
    }
}

/// What an external file contributes to the output.
#[derive(Clone, Copy, Debug, PartialEq, Eq, Structural)]
pub enum ExternalKind {
    Audio,
    Subtitle,
    Chapter,
    Attachment,
}

/// Whether an external file goes into every job of a batch or into the job
/// of one primary file only.
#[derive(Clone, Copy, Debug, PartialEq, Eq, Structural)]
pub enum FileScope {
    Bulk,
    PerPrimary,
}

/// What the user set for one track of an external file, in place of the
/// file's own settings. Delays are in milliseconds.
#[derive(Clone, Debug)]
pub struct TrackOverride {
    pub language: Option<String>,
    pub track_name: Option<String>,
    pub delay_ms: Option<i64>,
}

/// What an override is, with its texts as sequences of characters.
pub struct TrackOverrideView {
    pub language: Option<Seq<char>>,
    pub track_name: Option<Seq<char>>,
    pub delay_ms: Option<i64>,
}

impl DeepView for TrackOverride {
    type V = TrackOverrideView;

    open spec fn deep_view(&self) -> TrackOverrideView {
        TrackOverrideView {
            language: self.language.deep_view(),
            track_name: self.track_name.deep_view(),
            delay_ms: self.delay_ms,
        }
    }
}

impl View for TrackOverride {
    type V = TrackOverrideView;

    open spec fn view(&self) -> TrackOverrideView {
        self.deep_view()
    }
}

/// An audio, subtitle, chapter or attachment file that is merged into the
/// output. Delays are in milliseconds.
#[derive(Clone, Debug)]
pub struct ExternalFileInfo {
    pub path: String,
    pub kind: ExternalKind,
    pub scope: FileScope,
    pub language: Option<String>,
    pub track_name: Option<String>,
    pub delay_ms: Option<i64>,
    pub is_default: Option<bool>,
    pub is_forced: Option<bool>,
    /// The track id that the file declares.
    pub track_id: Option<u64>,
    /// The tracks that the user selected from the file.
    pub included_track_ids: Option<Vec<u64>>,
    /// Whether the subtitle tracks of an audio file are taken along.
    pub include_subtitles: Option<bool>,
    /// The subtitle tracks that the user selected from an audio file.
    pub included_subtitle_track_ids: Option<Vec<u64>>,
    /// Per-track settings, by track id.
    pub track_overrides: HashMap<u64, TrackOverride>,
    /// The ids of the file's audio tracks as probed; `None` where the
    /// file was not probed or the probe failed.
    pub probed_audio_ids: Option<Vec<u64>>,
    /// The ids of the file's subtitle tracks as probed.
    pub probed_subtitle_ids: Option<Vec<u64>>,
}

/// What an external file is: its texts as sequences of characters, its
/// lists as sequences, and its overrides as a map by track id.
pub struct ExternalFileView {
    pub path: Seq<char>,
    pub kind: ExternalKind,
    pub scope: FileScope,
    pub language: Option<Seq<char>>,
    pub track_name: Option<Seq<char>>,
    pub delay_ms: Option<i64>,
    pub is_default: Option<bool>,
    pub is_forced: Option<bool>,
    pub track_id: Option<u64>,
    pub included_track_ids: Option<Seq<u64>>,
    pub include_subtitles: Option<bool>,
    pub included_subtitle_track_ids: Option<Seq<u64>>,
    pub track_overrides: Map<u64, TrackOverrideView>,
    pub probed_audio_ids: Option<Seq<u64>>,
    pub probed_subtitle_ids: Option<Seq<u64>>,
}

impl DeepView for ExternalFileInfo {
    type V = ExternalFileView;

    open spec fn deep_view(&self) -> ExternalFileView {
        ExternalFileView {
            path: self.path@,
            kind: self.kind,
            scope: self.scope,
            language: self.language.deep_view(),
            track_name: self.track_name.deep_view(),
            delay_ms: self.delay_ms,
            is_default: self.is_default,
            is_forced: self.is_forced,
            track_id: self.track_id,
            included_track_ids: self.included_track_ids.deep_view(),
            include_subtitles: self.include_subtitles,
            included_subtitle_track_ids: self.included_subtitle_track_ids.deep_view(),
            track_overrides: Map::new(
                |id: u64| self.track_overrides@.contains_key(id),
                |id: u64| self.track_overrides@[id].deep_view(),
            ),
            probed_audio_ids: self.probed_audio_ids.deep_view(),
            probed_subtitle_ids: self.probed_subtitle_ids.deep_view(),
        }
    }
}

impl View for ExternalFileInfo {
    type V = ExternalFileView;

    open spec fn view(&self) -> ExternalFileView {
        self.deep_view()
    }
}

/// The primary container of a job.
#[derive(Clone, Debug)]
pub struct VideoFileInfo {
    pub path: String,
    /// The file's size in bytes.
    pub size: u64,
    pub tracks: Vec<TrackInfo>,
}

/// What a primary container is: its path, size and tracks.
pub struct VideoFileView {
    pub path: Seq<char>,
    pub size: u64,
    pub tracks: Seq<TrackView>,
}

impl DeepView for VideoFileInfo {
    type V = VideoFileView;

    open spec fn deep_view(&self) -> VideoFileView {
        VideoFileView { path: self.path@, size: self.size, tracks: self.tracks.deep_view() }
    }
}

impl View for VideoFileInfo {
    type V = VideoFileView;

    open spec fn view(&self) -> VideoFileView {
        self.deep_view()
    }
}

/// One remux job: a primary container and the external files merged into it.
#[derive(Clone, Debug)]
pub struct MuxJobRequest {
    pub id: String,
    pub video: VideoFileInfo,
    pub audios: Vec<ExternalFileInfo>,
    pub subtitles: Vec<ExternalFileInfo>,
    pub chapters: Vec<ExternalFileInfo>,
    pub attachments: Vec<ExternalFileInfo>,
}

/// What a job is: its id, its primary container and its external files.
pub struct MuxJobView {
    pub id: Seq<char>,
    pub video: VideoFileView,
    pub audios: Seq<ExternalFileView>,
    pub subtitles: Seq<ExternalFileView>,
    pub chapters: Seq<ExternalFileView>,
    pub attachments: Seq<ExternalFileView>,
}

impl DeepView for MuxJobRequest {
    type V = MuxJobView;

    open spec fn deep_view(&self) -> MuxJobView {
        MuxJobView {
            id: self.id@,
            video: self.video.deep_view(),
            audios: self.audios.deep_view(),
            subtitles: self.subtitles.deep_view(),
            chapters: self.chapters.deep_view(),
            attachments: self.attachments.deep_view(),
        }
    }
}

impl View for MuxJobRequest {
    type V = MuxJobView;

    open spec fn view(&self) -> MuxJobView {
        self.deep_view()
    }
}

/// The policy that holds for every job of a session.
#[derive(Clone, Debug)]
pub struct MuxSettings {
    /// Where outputs go; blank means beside the source.
    pub destination_dir: String,
    pub overwrite_source: bool,
    pub add_crc: bool,
    pub remove_old_crc: bool,
    pub keep_log_file: bool,
    pub abort_on_errors: bool,
    pub max_parallel_jobs: Option<usize>,
    pub only_keep_audios_enabled: bool,
    pub only_keep_subtitles_enabled: bool,
    pub only_keep_audio_languages: Vec<String>,
    pub only_keep_subtitle_languages: Vec<String>,
    pub discard_old_chapters: bool,
    pub discard_old_attachments: bool,
    pub remove_global_tags: bool,
    pub make_audio_default_language: Option<String>,
    pub make_subtitle_default_language: Option<String>,
    pub use_mkvpropedit: bool,
}

/// What the settings are, with their texts as sequences of characters.
pub struct MuxSettingsView {
    pub destination_dir: Seq<char>,
    pub overwrite_source: bool,
    pub add_crc: bool,
    pub remove_old_crc: bool,
    pub keep_log_file: bool,
    pub abort_on_errors: bool,
    pub max_parallel_jobs: Option<usize>,
    pub only_keep_audios_enabled: bool,
    pub only_keep_subtitles_enabled: bool,
    pub only_keep_audio_languages: Seq<Seq<char>>,
    pub only_keep_subtitle_languages: Seq<Seq<char>>,
    pub discard_old_chapters: bool,
    pub discard_old_attachments: bool,
    pub remove_global_tags: bool,
    pub make_audio_default_language: Option<Seq<char>>,
    pub make_subtitle_default_language: Option<Seq<char>>,
    pub use_mkvpropedit: bool,
}

impl DeepView for MuxSettings {
    type V = MuxSettingsView;

    open spec fn deep_view(&self) -> MuxSettingsView {
        MuxSettingsView {
            destination_dir: self.destination_dir@,
            overwrite_source: self.overwrite_source,
            add_crc: self.add_crc,
            remove_old_crc: self.remove_old_crc,
            keep_log_file: self.keep_log_file,
            abort_on_errors: self.abort_on_errors,
            max_parallel_jobs: self.max_parallel_jobs,
            only_keep_audios_enabled: self.only_keep_audios_enabled,
            only_keep_subtitles_enabled: self.only_keep_subtitles_enabled,
            only_keep_audio_languages: self.only_keep_audio_languages.deep_view(),
            only_keep_subtitle_languages: self.only_keep_subtitle_languages.deep_view(),
            discard_old_chapters: self.discard_old_chapters,
            discard_old_attachments: self.discard_old_attachments,
            remove_global_tags: self.remove_global_tags,
            make_audio_default_language: self.make_audio_default_language.deep_view(),
            make_subtitle_default_language: self.make_subtitle_default_language.deep_view(),
            use_mkvpropedit: self.use_mkvpropedit,
        }
    }
}

impl View for MuxSettings {
    type V = MuxSettingsView;

    open spec fn view(&self) -> MuxSettingsView {
        self.deep_view()
    }
}

} // verus!
