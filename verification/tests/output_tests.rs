use batch_remux::checksum::{format_crc, Checksum};
use batch_remux::model::MuxSettings;
use batch_remux::output::{
    check_free_space, file_name_with_crc, file_name_without_crc, get_output_paths, output_dir,
};

fn out_settings(destination: &str, overwrite: bool) -> MuxSettings {
    MuxSettings {
        destination_dir: destination.to_string(),
        overwrite_source: overwrite,
        add_crc: false,
        remove_old_crc: false,
        keep_log_file: false,
        abort_on_errors: false,
        max_parallel_jobs: None,
        only_keep_audios_enabled: false,
        only_keep_subtitles_enabled: false,
        only_keep_audio_languages: Vec::new(),
        only_keep_subtitle_languages: Vec::new(),
        discard_old_chapters: false,
        discard_old_attachments: false,
        remove_global_tags: false,
        make_audio_default_language: None,
        make_subtitle_default_language: None,
        use_mkvpropedit: false,
    }
}

#[test]
fn destination_mode_writes_the_final_name_directly() {
    let names = get_output_paths("/src", "movie", &out_settings("/dest", false), 1700000000);
    assert_eq!(names.directory, "/dest");
    assert_eq!(names.output_name, "movie.mkv");
    assert_eq!(names.final_name, "movie.mkv");
    assert!(!names.overwrite_mode);
}

#[test]
fn overwrite_mode_writes_a_temporary_name() {
    let names = get_output_paths("/src", "movie", &out_settings("  ", false), 1700000000);
    assert_eq!(names.directory, "/src");
    assert_eq!(names.output_name, "movie#1700000000.mkv");
    assert_eq!(names.final_name, "movie.mkv");
    assert!(names.overwrite_mode);

    let names = get_output_paths("/src", "movie", &out_settings("/dest", true), 0);
    assert_eq!(names.directory, "/dest");
    assert_eq!(names.output_name, "movie#0.mkv");
    assert_eq!(names.final_name, "movie.mkv");
    assert!(names.overwrite_mode);
}

#[test]
fn output_directory_falls_back_to_the_source() {
    assert_eq!(output_dir("/src", &out_settings("", false)), "/src");
    assert_eq!(output_dir("/src", &out_settings(" \t", true)), "/src");
    assert_eq!(output_dir("/src", &out_settings("/d", false)), "/d");
}

#[test]
fn checksum_stamp_goes_before_the_extension() {
    assert_eq!(file_name_with_crc("movie.mkv", "1A2B3C4D"), "movie [1A2B3C4D].mkv");
    assert_eq!(file_name_with_crc("movie.mkv.mkv", "00000000"), "movie [00000000].mkv");
    assert_eq!(file_name_with_crc("movie", "FFFFFFFF"), "movie [FFFFFFFF].mkv");
}

#[test]
fn old_checksum_stamp_is_stripped() {
    assert_eq!(file_name_without_crc("movie [1A2B3C4D].mkv"), "movie.mkv");
    assert_eq!(file_name_without_crc("movie.mkv"), "movie.mkv");
    assert_eq!(file_name_without_crc("[Group] movie [1A2B3C4D].mkv"), "[Group] movie.mkv");
    assert_eq!(file_name_without_crc("a.mkv.b [x].mkv"), "a.mkv.b.mkv");
    assert_eq!(file_name_without_crc("[only].mkv"), ".mkv");
    assert_eq!(file_name_without_crc("movie [1A2B3C4D].mkv.mkv"), "movie.mkv");
}

#[test]
fn brackets_that_do_not_end_the_stem_stay() {
    assert_eq!(file_name_without_crc("[Grp] Show.mkv"), "[Grp] Show.mkv");
    assert_eq!(file_name_without_crc("Show [v2] final.mkv"), "Show [v2] final.mkv");
    assert_eq!(file_name_without_crc("Show [open.mkv"), "Show [open.mkv");
    assert_eq!(file_name_without_crc("Show] .mkv"), "Show] .mkv");
    assert_eq!(file_name_without_crc("[Grp] Show [ABCD1234].mkv"), "[Grp] Show.mkv");
}

#[test]
fn free_space_is_enough_unless_it_is_less() {
    assert_eq!(check_free_space(100, 100), Ok(()));
    assert_eq!(check_free_space(101, 100), Ok(()));
    assert_eq!(check_free_space(0, 0), Ok(()));
    assert_eq!(
        check_free_space(99, 100),
        Err("Not enough free space. Required: 100 bytes".to_string())
    );
}

#[test]
fn crc_is_written_as_eight_upper_case_hex_digits() {
    assert_eq!(format_crc(0), "00000000");
    assert_eq!(format_crc(0xCBF43926), "CBF43926");
    assert_eq!(format_crc(0x0000000a), "0000000A");
    assert_eq!(format_crc(u32::MAX), "FFFFFFFF");
    assert_eq!(format_crc(0x12345678), format!("{:08X}", 0x12345678u32));
}

#[test]
fn checksum_of_the_standard_check_input() {
    let mut sum = Checksum::new();
    assert!(sum.update(b"123456789"));
    assert_eq!(sum.value(), 0xCBF43926);
}

#[test]
fn checksum_does_not_depend_on_the_chunking() {
    let data = b"The quick brown fox jumps over the lazy dog";
    let mut whole = Checksum::new();
    assert!(whole.update(data));
    let mut parts = Checksum::new();
    assert!(parts.update(&data[..10]));
    assert!(parts.update(&data[10..11]));
    assert!(parts.update(&[]));
    assert!(parts.update(&data[11..]));
    assert_eq!(whole.token(), "414FA339");
    assert_eq!(parts.token(), "414FA339");
    assert_eq!(Checksum::new().token(), "00000000");
    assert_eq!(crc32fast::hash(data), 0x414FA339);
}

#[test]
fn finished_file_carries_its_checksum_in_brackets() {
    let names = get_output_paths("/src", "episode 01", &out_settings("", true), 42);
    let mut sum = Checksum::new();
    assert!(sum.update(b"123456789"));
    let stamped = file_name_with_crc(&names.final_name, &sum.token());
    assert_eq!(stamped, "episode 01 [CBF43926].mkv");
    let open = stamped.rfind('[').unwrap();
    let close = stamped.rfind(']').unwrap();
    let token = &stamped[open + 1..close];
    assert_eq!(token.len(), 8);
    assert!(token.chars().all(|c| c.is_ascii_digit() || ('A'..='F').contains(&c)));
    assert!(stamped.ends_with("].mkv"));
}
