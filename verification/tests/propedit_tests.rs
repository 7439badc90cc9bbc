use batch_remux::model::{MuxJobRequest, TrackAction, TrackInfo, TrackKind, VideoFileInfo};
use batch_remux::propedit::build_mkvpropedit_args;

fn pe_track(id: &str, kind: TrackKind) -> TrackInfo {
    TrackInfo {
        id: id.to_string(),
        kind,
        language: None,
        name: None,
        is_default: None,
        is_forced: None,
        action: TrackAction::Keep,
    }
}

fn pe_job(tracks: Vec<TrackInfo>) -> MuxJobRequest {
    MuxJobRequest {
        id: "job-1".to_string(),
        video: VideoFileInfo { path: "/in/movie.mkv".to_string(), size: 10, tracks },
        audios: Vec::new(),
        subtitles: Vec::new(),
        chapters: Vec::new(),
        attachments: Vec::new(),
    }
}

fn pe_args(items: &[&str]) -> Vec<String> {
    items.iter().map(|s| s.to_string()).collect()
}

#[test]
fn tracks_without_edits_give_no_directives() {
    let job = pe_job(vec![
        pe_track("0", TrackKind::Video),
        pe_track("1", TrackKind::Audio),
        pe_track("2", TrackKind::Subtitle),
    ]);
    assert_eq!(build_mkvpropedit_args(&job), Vec::<String>::new());
    assert_eq!(build_mkvpropedit_args(&pe_job(Vec::new())), Vec::<String>::new());
}

#[test]
fn directives_count_tracks_from_one() {
    let mut audio = pe_track("1", TrackKind::Audio);
    audio.language = Some("eng".to_string());
    let job = pe_job(vec![pe_track("0", TrackKind::Video), audio]);
    assert_eq!(
        build_mkvpropedit_args(&job),
        pe_args(&["--edit", "track:2", "--set", "language=eng"])
    );
}

#[test]
fn name_is_trimmed_and_may_be_empty() {
    let mut video = pe_track("0", TrackKind::Video);
    video.name = Some("  Feature  ".to_string());
    let mut audio = pe_track("1", TrackKind::Audio);
    audio.name = Some("   ".to_string());
    let job = pe_job(vec![video, audio]);
    assert_eq!(
        build_mkvpropedit_args(&job),
        pe_args(&[
            "--edit", "track:1", "--set", "name=Feature",
            "--edit", "track:2", "--set", "name=",
        ])
    );
}

#[test]
fn forced_flag_is_named_by_track_kind() {
    let mut video = pe_track("0", TrackKind::Video);
    video.is_forced = Some(false);
    let mut audio = pe_track("1", TrackKind::Audio);
    audio.is_forced = Some(true);
    audio.is_default = Some(false);
    let mut subtitle = pe_track("2", TrackKind::Subtitle);
    subtitle.is_forced = Some(true);
    subtitle.is_default = Some(true);
    let job = pe_job(vec![video, audio, subtitle]);
    assert_eq!(
        build_mkvpropedit_args(&job),
        pe_args(&[
            "--edit", "track:1", "--set", "flag-forced=0",
            "--edit", "track:2", "--set", "flag-default=0",
            "--edit", "track:2", "--set", "flag-forced=1",
            "--edit", "track:3", "--set", "flag-default=1",
            "--edit", "track:3", "--set", "flag-forced-display=1",
        ])
    );
}

#[test]
fn track_of_another_kind_has_no_forced_flag() {
    let mut menu = pe_track("0", TrackKind::Other);
    menu.name = Some("Menu".to_string());
    menu.is_forced = Some(true);
    let job = pe_job(vec![menu]);
    assert_eq!(
        build_mkvpropedit_args(&job),
        pe_args(&["--edit", "track:1", "--set", "name=Menu"])
    );
}

#[test]
fn removed_tracks_are_not_edited() {
    let mut removed = pe_track("1", TrackKind::Audio);
    removed.language = Some("eng".to_string());
    removed.action = TrackAction::Remove;
    let mut kept = pe_track("not-a-number", TrackKind::Audio);
    kept.language = Some("jpn".to_string());
    let job = pe_job(vec![removed, kept]);
    assert_eq!(
        build_mkvpropedit_args(&job),
        pe_args(&["--edit", "track:2", "--set", "language=jpn"])
    );
}

#[test]
fn largest_track_id_does_not_overflow() {
    let mut track = pe_track("18446744073709551615", TrackKind::Audio);
    track.language = Some("eng".to_string());
    let job = pe_job(vec![track]);
    let args = build_mkvpropedit_args(&job);
    let expected = (usize::MAX as u128 + 1).to_string();
    assert_eq!(args[1], format!("track:{}", expected));
}
