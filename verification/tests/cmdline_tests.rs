use batch_remux::cmdline::{join_mkvmerge_command, quote_arg, split_command_line};

fn strings(items: &[&str]) -> Vec<String> {
    items.iter().map(|s| s.to_string()).collect()
}

#[test]
fn plain_argument_is_left_alone() {
    assert_eq!(quote_arg("--output"), "--output");
    assert_eq!(quote_arg(""), "");
}

#[test]
fn argument_with_space_is_quoted() {
    assert_eq!(quote_arg("My Video.mkv"), "\"My Video.mkv\"");
}

#[test]
fn double_quotes_are_escaped() {
    assert_eq!(quote_arg("say \"hi\""), "\"say \\\"hi\\\"\"");
    assert_eq!(quote_arg("it's"), "\"it's\"");
}

#[test]
fn command_line_starts_with_program_name() {
    let args = strings(&["--output", "/tmp/out file.mkv", "in.mkv"]);
    assert_eq!(
        join_mkvmerge_command(&args),
        "mkvmerge --output \"/tmp/out file.mkv\" in.mkv"
    );
    assert_eq!(join_mkvmerge_command(&[]), "mkvmerge");
}

#[test]
fn command_line_splits_back_into_arguments() {
    let args = strings(&["--track-name", "0:Director's \"cut\"", "", "a\\\"b c", "x\\y"]);
    let line = join_mkvmerge_command(&args);
    let mut expected = vec!["mkvmerge".to_string()];
    expected.extend(args);
    assert_eq!(split_command_line(&line), Some(expected));
}

#[test]
fn backslashes_are_escaped_inside_quotes_only() {
    assert_eq!(quote_arg("C:\\dir\\file"), "C:\\dir\\file");
    assert_eq!(quote_arg("a b\\"), "\"a b\\\\\"");
    assert_eq!(quote_arg("C:\\My Videos\\"), "\"C:\\\\My Videos\\\\\"");
    assert_eq!(quote_arg("\\\" x"), "\"\\\\\\\" x\"");
}

#[test]
fn quoted_argument_ending_in_backslash_splits_back() {
    let args = strings(&["C:\\My Videos\\", "a b\\", "\\", "x\ty", "", "\\\" \\\\", "'"]);
    let line = join_mkvmerge_command(&args);
    let mut expected = vec!["mkvmerge".to_string()];
    expected.extend(args);
    assert_eq!(split_command_line(&line), Some(expected));
}

#[test]
fn unterminated_quote_is_rejected() {
    assert_eq!(split_command_line("mkvmerge \"abc"), None);
    assert_eq!(split_command_line("mkvmerge \"abc\"x"), None);
}
