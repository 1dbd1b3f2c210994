use rednote::url::is_valid_rednote_url;

#[test]
fn other_scheme_is_rejected() {
    assert!(!is_valid_rednote_url("ftp://xiaohongshu.com/abc"));
}

#[test]
fn empty_path_is_rejected() {
    assert!(!is_valid_rednote_url("https://xiaohongshu.com/"));
}

#[test]
fn main_domain_with_path_is_accepted() {
    assert!(is_valid_rednote_url("https://xiaohongshu.com/x"));
}

#[test]
fn short_link_domain_with_subdomain_is_accepted() {
    assert!(is_valid_rednote_url("https://www.xhslink.com/y"));
}

#[test]
fn plain_http_and_upper_case_are_accepted() {
    assert!(is_valid_rednote_url("http://www.xiaohongshu.com/explore/64abc123"));
    assert!(is_valid_rednote_url("HTTPS://WWW.XIAOHONGSHU.COM/explore/1"));
}

#[test]
fn other_host_is_rejected() {
    assert!(!is_valid_rednote_url("https://example.com/abc"));
    assert!(!is_valid_rednote_url("https://xiaohongshu.org/abc"));
}

#[test]
fn whitespace_in_path_is_rejected() {
    assert!(!is_valid_rednote_url("https://xiaohongshu.com/a b"));
    assert!(!is_valid_rednote_url("https://xiaohongshu.com/ab\n"));
}

#[test]
fn missing_slash_after_host_is_rejected() {
    assert!(!is_valid_rednote_url("https://xiaohongshu.com"));
    assert!(!is_valid_rednote_url(""));
}

#[test]
fn domain_in_query_of_other_host_is_rejected() {
    assert!(!is_valid_rednote_url("https://evil.com/?u=xiaohongshu.com/abc"));
}

#[test]
fn domain_as_suffix_of_other_name_is_rejected() {
    assert!(!is_valid_rednote_url("https://evilxiaohongshu.com/x"));
    assert!(!is_valid_rednote_url("https://evil-xhslink.com/x"));
}

#[test]
fn whitespace_in_host_is_rejected() {
    assert!(!is_valid_rednote_url("https://a b.xiaohongshu.com/x"));
}

#[test]
fn several_subdomain_labels_are_accepted() {
    assert!(is_valid_rednote_url("https://m.www.xiaohongshu.com/discovery/item/1"));
    assert!(is_valid_rednote_url("http://sub-1.xhslink.com/a/B3c"));
}

#[test]
fn credentials_or_port_before_host_are_rejected() {
    assert!(!is_valid_rednote_url("https://user@xiaohongshu.com/x"));
    assert!(!is_valid_rednote_url("https://evil.com:80/.xiaohongshu.com/x"));
}
