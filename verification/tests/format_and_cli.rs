use unzipper::cli::{CliAction, parse_args};
use unzipper::format::{render_comment_line, render_dir_line, render_file_line, u64_to_string};

#[test]
fn decimal_zero() {
    assert_eq!(u64_to_string(0), "0");
}

#[test]
fn decimal_single_digit() {
    assert_eq!(u64_to_string(7), "7");
}

#[test]
fn decimal_round_number() {
    assert_eq!(u64_to_string(10), "10");
    assert_eq!(u64_to_string(100), "100");
}

#[test]
fn decimal_large() {
    assert_eq!(u64_to_string(987654321), "987654321");
    assert_eq!(u64_to_string(u64::MAX), "18446744073709551615");
}

#[test]
fn comment_line_exact() {
    assert_eq!(
        render_comment_line(4, "hello there"),
        "File 4 comment:hello there"
    );
}

#[test]
fn comment_line_empty_comment_text() {
    assert_eq!(render_comment_line(0, ""), "File 0 comment:");
}

#[test]
fn dir_line_has_two_spaces_before_quote() {
    assert_eq!(render_dir_line(3, "a/b"), "File 3 extracted to  \"a/b\"");
}

#[test]
fn file_line_exact() {
    assert_eq!(
        render_file_line(7, "x/y.txt", 1234),
        "File 7 extracted to \"x/y.txt\" (1234 bytes )"
    );
}

#[test]
fn file_line_zero_bytes() {
    assert_eq!(
        render_file_line(0, "empty.bin", 0),
        "File 0 extracted to \"empty.bin\" (0 bytes )"
    );
}

#[test]
fn missing_filename_gives_usage() {
    let args = vec![String::from("prog")];
    assert_eq!(
        parse_args(&args),
        CliAction::Usage(String::from("Usage: prog <filename>"))
    );
}

#[test]
fn filename_argument_gives_extract() {
    let args = vec![String::from("prog"), String::from("a.zip")];
    assert_eq!(parse_args(&args), CliAction::Extract(String::from("a.zip")));
}

#[test]
fn extra_arguments_ignored() {
    let args = vec![
        String::from("prog"),
        String::from("a.zip"),
        String::from("b.zip"),
    ];
    assert_eq!(parse_args(&args), CliAction::Extract(String::from("a.zip")));
}
