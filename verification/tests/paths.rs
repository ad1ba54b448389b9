use xscreen::errors::Error;
use xscreen::output::{
    dec_string, join_path, output_base, resolve_output, resolve_output_now, screenshot_file_name,
    two_digit_string, year_string, Timestamp,
};

fn sample_time() -> Timestamp {
    Timestamp { year: 2024, month: 1, day: 2, hour: 3, minute: 4, second: 5 }
}

#[test]
fn generated_name_matches_pattern() {
    assert_eq!(screenshot_file_name(&sample_time()), "Screenshot 2024-01-02 03-04-05.png");
    let t = Timestamp { year: 1999, month: 12, day: 31, hour: 23, minute: 59, second: 59 };
    assert_eq!(screenshot_file_name(&t), "Screenshot 1999-12-31 23-59-59.png");
}

#[test]
fn directory_base_gets_generated_name_appended() {
    let r = resolve_output("/home/u".to_string(), true, &sample_time());
    assert_eq!(r, "/home/u/Screenshot 2024-01-02 03-04-05.png");
}

#[test]
fn directory_with_trailing_separator_gets_single_separator() {
    let r = resolve_output("/srv/shots/".to_string(), true, &sample_time());
    assert_eq!(r, "/srv/shots/Screenshot 2024-01-02 03-04-05.png");
}

#[test]
fn file_base_is_used_unmodified() {
    let r = resolve_output("/home/u/out.png".to_string(), false, &sample_time());
    assert_eq!(r, "/home/u/out.png");
}

#[test]
fn explicit_argument_wins_over_home() {
    let r = output_base(Some("/a/b".to_string()), Some("/home/u".to_string()));
    assert_eq!(r.unwrap(), "/a/b");
}

#[test]
fn missing_argument_falls_back_to_home() {
    let r = output_base(None, Some("/home/u".to_string()));
    assert_eq!(r.unwrap(), "/home/u");
}

#[test]
fn no_argument_and_no_home_is_invalid_path() {
    let err = output_base(None, None).unwrap_err();
    assert!(matches!(err, Error::InvalidPath));
}

#[test]
fn fullscreen_capture_default_path() {
    // Full-screen mode with no output argument, home directory /home/u,
    // at 2024-01-02T03:04:05.
    let base = output_base(None, Some("/home/u".to_string())).unwrap();
    let path = resolve_output(base, true, &sample_time());
    assert_eq!(path, "/home/u/Screenshot 2024-01-02 03-04-05.png");
}

#[test]
fn clock_based_name_lies_under_directory() {
    let r = resolve_output_now("/home/u".to_string(), true);
    assert!(r.starts_with("/home/u/Screenshot "));
    assert!(r.ends_with(".png"));
    assert_eq!(r.len(), "/home/u/".len() + "Screenshot YYYY-MM-DD HH-MM-SS.png".len());
}

#[test]
fn clock_based_name_keeps_files_unmodified() {
    let r = resolve_output_now("/home/u/shot.png".to_string(), false);
    assert_eq!(r, "/home/u/shot.png");
}

#[test]
fn join_path_inserts_separator() {
    assert_eq!(join_path("/home/u", "a.png"), "/home/u/a.png");
    assert_eq!(join_path("/home/u/", "a.png"), "/home/u/a.png");
    assert_eq!(join_path("", "a.png"), "/a.png");
}

#[test]
fn decimal_rendering_is_exact() {
    assert_eq!(dec_string(0), "0");
    assert_eq!(dec_string(7), "7");
    assert_eq!(dec_string(10), "10");
    assert_eq!(dec_string(4294967295), "4294967295");
    assert_eq!(two_digit_string(3), "03");
    assert_eq!(two_digit_string(59), "59");
    assert_eq!(year_string(2024), "2024");
    assert_eq!(year_string(33), "0033");
    assert_eq!(year_string(12345), "12345");
    assert_eq!(year_string(-1), "-0001");
}
