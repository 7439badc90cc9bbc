use batch_remux::model::{TrackAction, TrackInfo, TrackKind};
use batch_remux::selection::{
    apply_track_selection, collect_track_ids, collect_track_ids_by_action,
    collect_track_ids_by_language, intersect_ids, is_language_listed, is_track_removed,
    parse_track_id, select_tracks,
};

fn sel_track(id: &str, kind: TrackKind, language: Option<&str>, action: TrackAction) -> TrackInfo {
    TrackInfo {
        id: id.to_string(),
        kind,
        language: language.map(|l| l.to_string()),
        name: None,
        is_default: None,
        is_forced: None,
        action,
    }
}

fn sel_sample() -> Vec<TrackInfo> {
    vec![
        sel_track("0", TrackKind::Video, None, TrackAction::Keep),
        sel_track("1", TrackKind::Audio, Some("English"), TrackAction::Keep),
        sel_track("2", TrackKind::Audio, Some("Japanese"), TrackAction::Keep),
        sel_track("3", TrackKind::Subtitle, Some("english"), TrackAction::Keep),
        sel_track("4", TrackKind::Subtitle, None, TrackAction::Keep),
    ]
}

fn sel_langs(items: &[&str]) -> Vec<String> {
    items.iter().map(|s| s.to_string()).collect()
}

#[test]
fn track_id_is_parsed_or_falls_back_to_position() {
    let t = sel_track("12", TrackKind::Audio, None, TrackAction::Keep);
    assert_eq!(parse_track_id(&t, 3), 12);
    let t = sel_track("track-a", TrackKind::Audio, None, TrackAction::Keep);
    assert_eq!(parse_track_id(&t, 3), 3);
    let t = sel_track("", TrackKind::Audio, None, TrackAction::Keep);
    assert_eq!(parse_track_id(&t, 0), 0);
    let t = sel_track("+4", TrackKind::Audio, None, TrackAction::Keep);
    assert_eq!(parse_track_id(&t, 9), 4);
}

#[test]
fn removed_tracks_are_recognised() {
    assert!(is_track_removed(&sel_track("0", TrackKind::Video, None, TrackAction::Remove)));
    assert!(!is_track_removed(&sel_track("0", TrackKind::Video, None, TrackAction::Keep)));
}

#[test]
fn languages_match_without_regard_to_ascii_case() {
    assert!(is_language_listed("english", &sel_langs(&["Arabic", "ENGLISH"])));
    assert!(!is_language_listed("eng", &sel_langs(&["Arabic", "ENGLISH"])));
    assert!(!is_language_listed("english", &[]));
}

#[test]
fn ids_by_language_keep_container_order() {
    let tracks = sel_sample();
    assert_eq!(
        collect_track_ids_by_language(&tracks, TrackKind::Audio, &sel_langs(&["japanese", "english"])),
        vec![1, 2]
    );
    assert_eq!(
        collect_track_ids_by_language(&tracks, TrackKind::Subtitle, &sel_langs(&["English"])),
        vec![3]
    );
    assert_eq!(
        collect_track_ids_by_language(&tracks, TrackKind::Video, &sel_langs(&["English"])),
        Vec::<usize>::new()
    );
}

#[test]
fn ids_by_action_leave_out_removed_tracks() {
    let mut tracks = sel_sample();
    assert_eq!(
        collect_track_ids_by_action(&tracks, TrackKind::Audio),
        (vec![1, 2], false)
    );
    tracks[1].action = TrackAction::Remove;
    assert_eq!(
        collect_track_ids_by_action(&tracks, TrackKind::Audio),
        (vec![2], true)
    );
    assert_eq!(
        collect_track_ids_by_action(&tracks, TrackKind::Subtitle),
        (vec![3, 4], false)
    );
    assert_eq!(collect_track_ids(&tracks, TrackKind::Audio), vec![1, 2]);
}

#[test]
fn intersection_keeps_the_order_of_the_left_list() {
    assert_eq!(intersect_ids(vec![3, 1, 2, 1], vec![1, 3]), vec![3, 1, 1]);
    assert_eq!(intersect_ids(vec![1, 2], vec![]), Vec::<usize>::new());
    assert_eq!(intersect_ids(vec![], vec![1]), Vec::<usize>::new());
}

#[test]
fn unmarked_tracks_select_the_full_set_and_emit_nothing() {
    let tracks = sel_sample();
    for kind in [TrackKind::Video, TrackKind::Audio, TrackKind::Subtitle] {
        let (selected, filtered) = select_tracks(&tracks, kind, None);
        assert_eq!(selected, collect_track_ids(&tracks, kind));
        assert!(!filtered);
        let mut args = vec!["x".to_string()];
        apply_track_selection(&mut args, &tracks, kind, None);
        assert_eq!(args, vec!["x".to_string()]);
    }
}

#[test]
fn marked_tracks_are_excluded_and_the_allow_list_intersects() {
    let mut tracks = sel_sample();
    tracks.push(sel_track("5", TrackKind::Audio, Some("English"), TrackAction::Remove));
    let (selected, filtered) = select_tracks(&tracks, TrackKind::Audio, None);
    assert_eq!(selected, vec![1, 2]);
    assert!(filtered);
    let keep = collect_track_ids_by_language(&tracks, TrackKind::Audio, &sel_langs(&["english"]));
    assert_eq!(keep, vec![1, 5]);
    let (selected, filtered) = select_tracks(&tracks, TrackKind::Audio, Some(keep));
    assert_eq!(selected, vec![1]);
    assert!(filtered);
}

#[test]
fn selection_flag_lists_surviving_ids() {
    let mut tracks = sel_sample();
    tracks[2].action = TrackAction::Remove;
    let mut args = Vec::new();
    apply_track_selection(&mut args, &tracks, TrackKind::Audio, None);
    assert_eq!(args, vec!["--audio-tracks".to_string(), "1".to_string()]);

    let tracks = sel_sample();
    let mut args = Vec::new();
    apply_track_selection(&mut args, &tracks, TrackKind::Subtitle, Some(vec![4, 3]));
    assert_eq!(args, vec!["--subtitle-tracks".to_string(), "3,4".to_string()]);
}

#[test]
fn empty_selection_disables_the_kind() {
    let mut tracks = sel_sample();
    tracks[0].action = TrackAction::Remove;
    let mut args = Vec::new();
    apply_track_selection(&mut args, &tracks, TrackKind::Video, None);
    assert_eq!(args, vec!["--no-video".to_string()]);

    let tracks = sel_sample();
    let mut args = Vec::new();
    apply_track_selection(&mut args, &tracks, TrackKind::Audio, Some(vec![]));
    assert_eq!(args, vec!["--no-audio".to_string()]);
    let mut args = Vec::new();
    apply_track_selection(&mut args, &tracks, TrackKind::Subtitle, Some(vec![9]));
    assert_eq!(args, vec!["--no-subtitles".to_string()]);
}

#[test]
fn kind_without_tracks_emits_nothing() {
    let tracks = vec![sel_track("0", TrackKind::Video, None, TrackAction::Keep)];
    let mut args = Vec::new();
    apply_track_selection(&mut args, &tracks, TrackKind::Audio, Some(vec![]));
    assert_eq!(args, Vec::<String>::new());
}

#[test]
fn tracks_of_another_kind_are_never_selected_by_flag() {
    let mut tracks = sel_sample();
    tracks.push(sel_track("9", TrackKind::Other, Some("eng"), TrackAction::Remove));
    tracks.push(sel_track("10", TrackKind::Other, Some("eng"), TrackAction::Keep));
    let mut args = Vec::new();
    apply_track_selection(&mut args, &tracks, TrackKind::Other, None);
    assert_eq!(args, Vec::<String>::new());
    apply_track_selection(&mut args, &tracks, TrackKind::Other, Some(vec![]));
    assert_eq!(args, Vec::<String>::new());
    let mut args = Vec::new();
    apply_track_selection(&mut args, &tracks, TrackKind::Audio, None);
    assert_eq!(args, Vec::<String>::new());
}

#[test]
fn allow_list_equal_to_full_set_still_emits_the_list() {
    let tracks = sel_sample();
    let mut args = Vec::new();
    apply_track_selection(&mut args, &tracks, TrackKind::Audio, Some(vec![1, 2]));
    assert_eq!(args, vec!["--audio-tracks".to_string(), "1,2".to_string()]);
}
