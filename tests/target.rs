use feroxbuster::error::FeroxError;
use feroxbuster::target::{get_current_depth, get_targets, TargetSource};

#[test]
fn depth_of_top_level_url_is_one() {
    assert_eq!(get_current_depth("http://localhost"), 1);
    assert_eq!(get_current_depth("http://localhost/"), 1);
}

#[test]
fn depth_counts_path_segments() {
    assert_eq!(get_current_depth("http://localhost/src"), 2);
    assert_eq!(get_current_depth("http://localhost/src/"), 2);
    assert_eq!(get_current_depth("https://example.test/a/b/c"), 4);
    assert_eq!(get_current_depth("https://example.test/a/b/c/"), 4);
}

#[test]
fn depth_without_scheme_is_zero() {
    assert_eq!(get_current_depth("localhost/src"), 0);
    assert_eq!(get_current_depth(""), 0);
}

#[test]
fn configured_target_is_the_only_target() {
    let r = get_targets(TargetSource::Configured("http://example.test".to_string()));
    assert_eq!(r, Ok(vec!["http://example.test".to_string()]));
}

#[test]
fn stream_targets_keep_arrival_order() {
    let lines = vec![Some("http://a.test".to_string()), Some("http://b.test".to_string())];
    let r = get_targets(TargetSource::Stream(lines));
    assert_eq!(r, Ok(vec!["http://a.test".to_string(), "http://b.test".to_string()]));
}

#[test]
fn empty_stream_gives_no_targets() {
    assert_eq!(get_targets(TargetSource::Stream(Vec::new())), Ok(Vec::new()));
}

#[test]
fn undecodable_stream_line_is_an_input_stream_error() {
    let lines = vec![Some("http://a.test".to_string()), None];
    assert_eq!(get_targets(TargetSource::Stream(lines)), Err(FeroxError::InputStream));
}
