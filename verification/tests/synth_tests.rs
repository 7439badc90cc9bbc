use batch_remux::entries::{resolve_audio_entries, resolve_ids, resolve_subtitle_entries};
use batch_remux::model::{
    ExternalFileInfo, ExternalKind, FileScope, MuxJobRequest, MuxSettings, TrackAction, TrackInfo,
    TrackKind, TrackOverride, VideoFileInfo,
};
use batch_remux::synth::{build_mkvmerge_command, is_fast_path_eligible, synthesize};
use std::collections::HashMap;

fn syn_track(id: &str, kind: TrackKind, language: Option<&str>) -> TrackInfo {
    TrackInfo {
        id: id.to_string(),
        kind,
        language: language.map(|l| l.to_string()),
        name: None,
        is_default: None,
        is_forced: None,
        action: TrackAction::Keep,
    }
}

fn syn_bare_track(id: &str, kind: TrackKind) -> TrackInfo {
    syn_track(id, kind, None)
}

fn syn_file(path: &str, kind: ExternalKind) -> ExternalFileInfo {
    ExternalFileInfo {
        path: path.to_string(),
        kind,
        scope: FileScope::Bulk,
        language: None,
        track_name: None,
        delay_ms: None,
        is_default: None,
        is_forced: None,
        track_id: None,
        included_track_ids: None,
        include_subtitles: None,
        included_subtitle_track_ids: None,
        track_overrides: HashMap::new(),
        probed_audio_ids: None,
        probed_subtitle_ids: None,
    }
}

fn syn_settings() -> MuxSettings {
    MuxSettings {
        destination_dir: "/out".to_string(),
        overwrite_source: false,
        add_crc: false,
        remove_old_crc: false,
        keep_log_file: false,
        abort_on_errors: false,
        max_parallel_jobs: None,
        only_keep_audios_enabled: false,
        only_keep_subtitles_enabled: false,
        only_keep_audio_languages: Vec::new(),
        only_keep_subtitle_languages: Vec::new(),
        discard_old_chapters: false,
        discard_old_attachments: false,
        remove_global_tags: false,
        make_audio_default_language: None,
        make_subtitle_default_language: None,
        use_mkvpropedit: false,
    }
}

fn syn_job(tracks: Vec<TrackInfo>) -> MuxJobRequest {
    MuxJobRequest {
        id: "job-1".to_string(),
        video: VideoFileInfo { path: "/in/movie.mkv".to_string(), size: 1000, tracks },
        audios: Vec::new(),
        subtitles: Vec::new(),
        chapters: Vec::new(),
        attachments: Vec::new(),
    }
}

fn syn_args(items: &[&str]) -> Vec<String> {
    items.iter().map(|s| s.to_string()).collect()
}

#[test]
fn plain_job_has_only_output_and_input() {
    let job = syn_job(vec![
        syn_bare_track("0", TrackKind::Video),
        syn_bare_track("1", TrackKind::Audio),
    ]);
    assert_eq!(
        build_mkvmerge_command(&job, &syn_settings(), "/out/movie.mkv"),
        syn_args(&["--gui-mode", "--output", "/out/movie.mkv", "/in/movie.mkv"])
    );
}

#[test]
fn strip_flags_follow_the_output() {
    let job = syn_job(vec![syn_bare_track("0", TrackKind::Video)]);
    let mut settings = syn_settings();
    settings.discard_old_chapters = true;
    settings.discard_old_attachments = true;
    settings.remove_global_tags = true;
    assert_eq!(
        build_mkvmerge_command(&job, &settings, "o.mkv"),
        syn_args(&[
            "--gui-mode", "--output", "o.mkv", "--no-chapters", "--no-attachments",
            "--no-global-tags", "/in/movie.mkv",
        ])
    );
}

#[test]
fn keep_language_filter_selects_only_matching_audio() {
    let job = syn_job(vec![
        syn_bare_track("0", TrackKind::Video),
        syn_track("1", TrackKind::Audio, Some("Japanese")),
        syn_track("2", TrackKind::Audio, Some("English")),
    ]);
    let mut settings = syn_settings();
    settings.only_keep_audios_enabled = true;
    settings.only_keep_audio_languages = vec!["English".to_string()];
    let args = build_mkvmerge_command(&job, &settings, "/out/movie.mkv");
    assert_eq!(
        args,
        syn_args(&[
            "--gui-mode", "--output", "/out/movie.mkv", "--audio-tracks", "2",
            "--language", "1:Japanese", "--language", "2:English", "/in/movie.mkv",
        ])
    );
    assert!(!args.contains(&"--video-tracks".to_string()));
    assert!(!args.contains(&"--subtitle-tracks".to_string()));
    assert!(!args.contains(&"--no-video".to_string()));
    assert!(!args.contains(&"--no-subtitles".to_string()));
}

#[test]
fn disabled_or_empty_filter_is_not_applied() {
    let job = syn_job(vec![syn_track("1", TrackKind::Audio, Some("Japanese"))]);
    let mut settings = syn_settings();
    settings.only_keep_audios_enabled = true;
    assert_eq!(
        build_mkvmerge_command(&job, &settings, "o"),
        syn_args(&["--gui-mode", "--output", "o", "--language", "1:Japanese", "/in/movie.mkv"])
    );
    settings.only_keep_audios_enabled = false;
    settings.only_keep_audio_languages = vec!["English".to_string()];
    assert_eq!(
        build_mkvmerge_command(&job, &settings, "o"),
        syn_args(&["--gui-mode", "--output", "o", "--language", "1:Japanese", "/in/movie.mkv"])
    );
}

#[test]
fn track_edits_come_before_the_primary_file() {
    let mut video = syn_bare_track("0", TrackKind::Video);
    video.name = Some("  ".to_string());
    video.is_forced = Some(true);
    let mut audio = syn_track("1", TrackKind::Audio, Some("eng"));
    audio.name = Some("Main Mix".to_string());
    audio.is_default = Some(true);
    audio.is_forced = Some(true);
    let mut subtitle = syn_bare_track("x", TrackKind::Subtitle);
    subtitle.is_default = Some(false);
    subtitle.is_forced = Some(false);
    let mut removed = syn_track("3", TrackKind::Subtitle, Some("ger"));
    removed.action = TrackAction::Remove;
    let job = syn_job(vec![video, audio, subtitle, removed]);
    assert_eq!(
        build_mkvmerge_command(&job, &syn_settings(), "o"),
        syn_args(&[
            "--gui-mode", "--output", "o",
            "--subtitle-tracks", "2",
            "--forced-track", "0:yes",
            "--track-name", "1:Main Mix", "--language", "1:eng", "--default-track-flag", "1:yes",
            "--forced-track", "1:yes",
            "--default-track-flag", "2:no", "--forced-display-flag", "2:no",
            "/in/movie.mkv",
        ])
    );
}

#[test]
fn forced_audio_track_gets_its_own_flag() {
    let mut audio = syn_bare_track("1", TrackKind::Audio);
    audio.is_forced = Some(true);
    let mut video = syn_bare_track("0", TrackKind::Video);
    video.is_forced = Some(false);
    let job = syn_job(vec![video, audio]);
    assert_eq!(
        build_mkvmerge_command(&job, &syn_settings(), "o"),
        syn_args(&[
            "--gui-mode", "--output", "o",
            "--forced-track", "0:no", "--forced-track", "1:yes",
            "/in/movie.mkv",
        ])
    );
}

#[test]
fn track_of_another_kind_keeps_its_place_and_its_edits() {
    let mut menu = syn_track("menu", TrackKind::Other, Some("eng"));
    menu.name = Some("Menu".to_string());
    menu.is_default = Some(false);
    menu.is_forced = Some(true);
    let audio = syn_track("second", TrackKind::Audio, Some("jpn"));
    let job = syn_job(vec![menu, audio]);
    assert_eq!(
        build_mkvmerge_command(&job, &syn_settings(), "o"),
        syn_args(&[
            "--gui-mode", "--output", "o",
            "--track-name", "0:Menu", "--language", "0:eng", "--default-track-flag", "0:no",
            "--language", "1:jpn",
            "/in/movie.mkv",
        ])
    );
}

#[test]
fn promoted_language_becomes_default() {
    let job = syn_job(vec![
        syn_track("1", TrackKind::Audio, Some("eng")),
        syn_track("2", TrackKind::Audio, Some("ENG")),
        syn_track("3", TrackKind::Subtitle, Some("eng")),
    ]);
    let mut settings = syn_settings();
    settings.make_audio_default_language = Some("Eng".to_string());
    assert_eq!(
        build_mkvmerge_command(&job, &settings, "o"),
        syn_args(&[
            "--gui-mode", "--output", "o",
            "--default-track-flag", "1:yes", "--default-track-flag", "2:yes",
            "--language", "1:eng", "--language", "2:ENG", "--language", "3:eng",
            "/in/movie.mkv",
        ])
    );
}

#[test]
fn file_without_probe_or_declared_id_uses_track_zero() {
    assert_eq!(resolve_ids(&None, &None, None), vec![0]);
    assert_eq!(resolve_ids(&None, &Some(vec![]), None), vec![0]);
    assert_eq!(resolve_ids(&None, &None, Some(4)), vec![4]);
    assert_eq!(resolve_ids(&None, &Some(vec![7]), None), vec![7]);
    assert_eq!(resolve_ids(&None, &Some(vec![7]), Some(4)), vec![4]);
    assert_eq!(resolve_ids(&None, &Some(vec![7, 8]), Some(4)), vec![7, 8]);
    assert_eq!(resolve_ids(&Some(vec![2, 5]), &Some(vec![7, 8]), Some(4)), vec![2, 5]);
    assert_eq!(resolve_ids(&Some(vec![]), &Some(vec![7, 8]), Some(4)), Vec::<u64>::new());
}

#[test]
fn probed_file_gives_one_entry_per_track() {
    let mut many = syn_file("/a/many.mka", ExternalKind::Audio);
    many.probed_audio_ids = Some(vec![1, 2, 3]);
    many.language = Some("jpn".to_string());
    many.is_default = Some(true);
    let mut one = syn_file("/a/one.mka", ExternalKind::Audio);
    one.probed_audio_ids = Some(vec![5]);
    let mut none = syn_file("/a/none.mka", ExternalKind::Audio);
    none.probed_audio_ids = Some(vec![]);
    let audios = vec![many, one, none];
    let entries = resolve_audio_entries(&audios);
    assert_eq!(entries.len(), 5);
    let ids: Vec<u64> = entries.iter().map(|e| e.track_id).collect();
    assert_eq!(ids, vec![1, 2, 3, 5, 0]);
    let language: Vec<bool> = entries.iter().map(|e| e.apply_language).collect();
    assert_eq!(language, vec![true, false, false, true, true]);
    let defaults: Vec<Option<bool>> = entries.iter().map(|e| e.is_default).collect();
    assert_eq!(defaults, vec![Some(true), Some(false), Some(false), None, None]);
    assert_eq!(entries[1].file.path, "/a/many.mka");
    assert_eq!(entries[3].file.path, "/a/one.mka");
}

#[test]
fn audio_file_can_carry_its_subtitles_along() {
    let mut audio = syn_file("/a/dub.mka", ExternalKind::Audio);
    audio.include_subtitles = Some(true);
    audio.probed_subtitle_ids = Some(vec![4, 6]);
    audio.is_default = Some(true);
    audio.is_forced = Some(true);
    let mut quiet = syn_file("/a/quiet.mka", ExternalKind::Audio);
    quiet.probed_subtitle_ids = Some(vec![9]);
    let mut listed = syn_file("/a/listed.mka", ExternalKind::Audio);
    listed.include_subtitles = Some(true);
    listed.included_subtitle_track_ids = Some(vec![2]);
    listed.probed_subtitle_ids = Some(vec![7, 8]);
    let audios = vec![audio, quiet, listed];
    let mut sub = syn_file("/s/a.srt", ExternalKind::Subtitle);
    sub.track_id = Some(0);
    let subtitles = vec![sub];
    let entries = resolve_subtitle_entries(&subtitles, &audios);
    let ids: Vec<u64> = entries.iter().map(|e| e.track_id).collect();
    assert_eq!(ids, vec![0, 4, 6, 2]);
    assert_eq!(entries[1].is_default, None);
    assert_eq!(entries[1].is_forced, None);
    assert!(!entries[1].apply_language);
    assert!(entries[0].apply_language);
}

#[test]
fn external_audio_is_added_with_exclusive_flags() {
    let mut job = syn_job(vec![
        syn_bare_track("0", TrackKind::Video),
        syn_bare_track("1", TrackKind::Audio),
    ]);
    let mut audio = syn_file("/a/dub.mka", ExternalKind::Audio);
    audio.track_id = Some(0);
    audio.language = Some("ger".to_string());
    audio.track_name = Some("Dub".to_string());
    audio.delay_ms = Some(-1500);
    audio.is_default = Some(true);
    audio.is_forced = Some(true);
    job.audios.push(audio);
    assert_eq!(
        build_mkvmerge_command(&job, &syn_settings(), "o"),
        syn_args(&[
            "--gui-mode", "--output", "o",
            "--default-track-flag", "1:no",
            "--track-order", "0:0,1:0,0:1",
            "/in/movie.mkv",
            "--no-video", "--no-subtitles", "--no-chapters", "--no-attachments",
            "--no-global-tags", "--audio-tracks", "0",
            "--language", "0:ger", "--track-name", "0:Dub", "--sync", "0:-1500",
            "--default-track-flag", "0:yes",
            "/a/dub.mka",
        ])
    );
}

#[test]
fn external_subtitle_gets_its_forced_flag() {
    let mut job = syn_job(vec![
        syn_bare_track("0", TrackKind::Video),
        syn_bare_track("1", TrackKind::Subtitle),
    ]);
    let mut sub = syn_file("/s/signs.ass", ExternalKind::Subtitle);
    sub.track_id = Some(0);
    sub.is_default = Some(false);
    sub.is_forced = Some(true);
    sub.track_name = Some(" ".to_string());
    job.subtitles.push(sub);
    assert_eq!(
        build_mkvmerge_command(&job, &syn_settings(), "o"),
        syn_args(&[
            "--gui-mode", "--output", "o",
            "--track-order", "0:0,0:1,1:0",
            "/in/movie.mkv",
            "--no-video", "--no-audio", "--no-chapters", "--no-attachments",
            "--no-global-tags", "--subtitle-tracks", "0",
            "--default-track-flag", "0:no", "--forced-display-flag", "0:yes",
            "/s/signs.ass",
        ])
    );
}

#[test]
fn removed_primary_tracks_keep_their_default_when_external_takes_over() {
    let mut removed = syn_bare_track("2", TrackKind::Audio);
    removed.action = TrackAction::Remove;
    let mut job = syn_job(vec![syn_bare_track("1", TrackKind::Audio), removed]);
    let mut audio = syn_file("/a/dub.mka", ExternalKind::Audio);
    audio.is_default = Some(true);
    job.audios.push(audio);
    let args = build_mkvmerge_command(&job, &syn_settings(), "o");
    assert_eq!(
        args,
        syn_args(&[
            "--gui-mode", "--output", "o",
            "--default-track-flag", "1:no",
            "--audio-tracks", "1",
            "--track-order", "1:0,0:1",
            "/in/movie.mkv",
            "--no-video", "--no-subtitles", "--no-chapters", "--no-attachments",
            "--no-global-tags", "--audio-tracks", "0",
            "--default-track-flag", "0:yes",
            "/a/dub.mka",
        ])
    );
}

#[test]
fn track_order_puts_bulk_before_per_file_entries() {
    let mut job = syn_job(vec![
        syn_bare_track("0", TrackKind::Video),
        syn_bare_track("1", TrackKind::Audio),
        syn_bare_track("2", TrackKind::Subtitle),
    ]);
    let mut per_file = syn_file("/a/per.mka", ExternalKind::Audio);
    per_file.scope = FileScope::PerPrimary;
    per_file.probed_audio_ids = Some(vec![1, 2]);
    let mut bulk = syn_file("/a/bulk.mka", ExternalKind::Audio);
    bulk.track_id = Some(3);
    job.audios = vec![per_file, bulk];
    let mut sub_per = syn_file("/s/per.srt", ExternalKind::Subtitle);
    sub_per.scope = FileScope::PerPrimary;
    let sub_bulk = syn_file("/s/bulk.srt", ExternalKind::Subtitle);
    job.subtitles = vec![sub_per, sub_bulk];
    let args = build_mkvmerge_command(&job, &syn_settings(), "o");
    let at = args.iter().position(|a| a == "--track-order").unwrap();
    assert_eq!(args[at + 1], "0:0,3:3,1:1,2:2,0:1,0:2,5:0,4:0");
    assert_eq!(args[at + 2], "/in/movie.mkv");
}

#[test]
fn per_track_overrides_win_over_file_settings() {
    let mut job = syn_job(vec![syn_bare_track("0", TrackKind::Video)]);
    let mut audio = syn_file("/a/multi.mka", ExternalKind::Audio);
    audio.included_track_ids = Some(vec![1, 2]);
    audio.language = Some("eng".to_string());
    audio.track_name = Some("File".to_string());
    audio.delay_ms = Some(100);
    audio.track_overrides.insert(
        2,
        TrackOverride { language: Some("fre".to_string()), track_name: None, delay_ms: Some(0) },
    );
    audio.track_overrides.insert(
        7,
        TrackOverride { language: Some("xxx".to_string()), track_name: None, delay_ms: None },
    );
    job.audios.push(audio);
    assert_eq!(
        build_mkvmerge_command(&job, &syn_settings(), "o"),
        syn_args(&[
            "--gui-mode", "--output", "o",
            "--track-order", "0:0,1:1,2:2",
            "/in/movie.mkv",
            "--no-video", "--no-subtitles", "--no-chapters", "--no-attachments",
            "--no-global-tags", "--audio-tracks", "1",
            "--language", "1:eng", "--track-name", "1:File", "--sync", "1:100",
            "/a/multi.mka",
            "--no-video", "--no-subtitles", "--no-chapters", "--no-attachments",
            "--no-global-tags", "--audio-tracks", "2",
            "--language", "2:fre", "--track-name", "2:File", "--sync", "2:0",
            "/a/multi.mka",
        ])
    );
}

#[test]
fn later_entries_of_a_file_do_not_take_its_language() {
    let mut job = syn_job(Vec::new());
    let mut sub = syn_file("/s/multi.mks", ExternalKind::Subtitle);
    sub.probed_subtitle_ids = Some(vec![0, 1]);
    sub.language = Some("eng".to_string());
    sub.is_default = Some(true);
    job.subtitles.push(sub);
    assert_eq!(
        build_mkvmerge_command(&job, &syn_settings(), "o"),
        syn_args(&[
            "--gui-mode", "--output", "o",
            "--track-order", "1:0,2:1",
            "/in/movie.mkv",
            "--no-video", "--no-audio", "--no-chapters", "--no-attachments",
            "--no-global-tags", "--subtitle-tracks", "0",
            "--language", "0:eng", "--default-track-flag", "0:yes",
            "/s/multi.mks",
            "--no-video", "--no-audio", "--no-chapters", "--no-attachments",
            "--no-global-tags", "--subtitle-tracks", "1",
            "--default-track-flag", "1:no",
            "/s/multi.mks",
        ])
    );
}

#[test]
fn file_with_empty_selection_contributes_nothing() {
    let mut job = syn_job(Vec::new());
    let mut audio = syn_file("/a/none.mka", ExternalKind::Audio);
    audio.included_track_ids = Some(Vec::new());
    job.audios.push(audio);
    assert_eq!(
        build_mkvmerge_command(&job, &syn_settings(), "o"),
        syn_args(&["--gui-mode", "--output", "o", "/in/movie.mkv"])
    );
}

#[test]
fn chapters_and_attachments_come_last() {
    let mut job = syn_job(Vec::new());
    let mut shifted = syn_file("/c/ch.xml", ExternalKind::Chapter);
    shifted.delay_ms = Some(2500);
    let mut unshifted = syn_file("/c/ch2.xml", ExternalKind::Chapter);
    unshifted.delay_ms = Some(0);
    job.chapters = vec![shifted, unshifted, syn_file("/c/ch3.xml", ExternalKind::Chapter)];
    job.attachments = vec![syn_file("/f/font.ttf", ExternalKind::Attachment)];
    assert_eq!(
        build_mkvmerge_command(&job, &syn_settings(), "o"),
        syn_args(&[
            "--gui-mode", "--output", "o", "/in/movie.mkv",
            "--chapters", "/c/ch.xml", "--sync", "0:2500",
            "--chapters", "/c/ch2.xml",
            "--chapters", "/c/ch3.xml",
            "--attach-file", "/f/font.ttf",
        ])
    );
}

#[test]
fn synthesis_is_repeatable() {
    let mut job = syn_job(vec![
        syn_bare_track("0", TrackKind::Video),
        syn_track("1", TrackKind::Audio, Some("eng")),
    ]);
    let mut audio = syn_file("/a/dub.mka", ExternalKind::Audio);
    audio.track_overrides.insert(
        0,
        TrackOverride { language: None, track_name: Some("n".to_string()), delay_ms: None },
    );
    job.audios.push(audio);
    let settings = syn_settings();
    let first = build_mkvmerge_command(&job, &settings, "o");
    let second = build_mkvmerge_command(&job.clone(), &settings.clone(), "o");
    assert_eq!(first, second);
}

#[test]
fn fast_path_needs_overwrite_and_no_externals() {
    let job = syn_job(vec![syn_bare_track("0", TrackKind::Video)]);
    let mut settings = syn_settings();
    assert!(!is_fast_path_eligible(&job, &settings));
    settings.destination_dir = "  ".to_string();
    assert!(!is_fast_path_eligible(&job, &settings));
    settings.overwrite_source = true;
    assert!(is_fast_path_eligible(&job, &settings));
    settings.only_keep_audios_enabled = true;
    assert!(is_fast_path_eligible(&job, &settings));
    settings.only_keep_audio_languages = vec!["eng".to_string()];
    assert!(!is_fast_path_eligible(&job, &settings));
    settings.only_keep_audios_enabled = false;
    let mut with_chapter = job.clone();
    with_chapter.chapters.push(syn_file("/c/ch.xml", ExternalKind::Chapter));
    assert!(!is_fast_path_eligible(&with_chapter, &settings));
    let out = synthesize(&job, &settings, "o");
    assert!(out.fast_path_eligible);
    assert_eq!(out.arguments, syn_args(&["--gui-mode", "--output", "o", "/in/movie.mkv"]));
}
