use filehost::config::{decimal_string, default_user_url, parse_flag, ConfigError, Environment, Settings};
use filehost::naming::{generate_name, name_with_prefix, random_prefix};
use filehost::pages::index;
use filehost::reply::{not_found_reply, Body, Reply, Status};
use filehost::upload::{begin_upload, file_path, finish_upload, join, plan_upload, UploadStep};

fn env() -> Environment {
    Environment {
        root_dir: None,
        use_key: None,
        key: None,
        user_url: None,
        title: None,
        use_cors: None,
    }
}

fn settings_with_url(url: &str) -> Settings {
    let mut e = env();
    e.user_url = Some(url.to_string());
    e.root_dir = Some("/srv/files".to_string());
    Settings::resolve(e, "127.0.0.1", 8000).unwrap()
}

fn keyed_settings() -> Settings {
    let mut e = env();
    e.use_key = Some("true".to_string());
    e.key = Some("secret123".to_string());
    Settings::resolve(e, "127.0.0.1", 8000).unwrap()
}

fn raw_text(r: &Reply) -> String {
    match &r.body {
        Body::Raw(t) => t.clone(),
        Body::Html(_) => panic!("expected a plain-text body"),
    }
}

fn stored(step: UploadStep) -> (String, String) {
    match step {
        UploadStep::Store { new_name, path } => (new_name, path),
        UploadStep::Reject(r) => panic!("upload refused: {:?}", r),
    }
}

fn rejected(step: UploadStep) -> Reply {
    match step {
        UploadStep::Reject(r) => r,
        UploadStep::Store { new_name, .. } => panic!("upload stored as {}", new_name),
    }
}

fn is_valid_prefix(p: &str) -> bool {
    p.chars().count() == 4 && p.chars().all(|c| c.is_ascii_alphanumeric())
}

#[test]
fn defaults_when_nothing_is_set() {
    let s = Settings::resolve(env(), "127.0.0.1", 8000).unwrap();
    assert_eq!(s.root_dir, "/var/files");
    assert_eq!(s.key, None);
    assert_eq!(s.user_url, "http://127.0.0.1:8000");
    assert_eq!(s.title, "Simpler Filehost");
    assert!(!s.use_cors);
}

#[test]
fn configured_values_are_kept() {
    let mut e = env();
    e.root_dir = Some("/tmp/up".to_string());
    e.user_url = Some("https://f.example".to_string());
    e.title = Some("Drop".to_string());
    e.use_cors = Some("true".to_string());
    let s = Settings::resolve(e, "0.0.0.0", 80).unwrap();
    assert_eq!(s.root_dir, "/tmp/up");
    assert_eq!(s.user_url, "https://f.example");
    assert_eq!(s.title, "Drop");
    assert!(s.use_cors);
}

#[test]
fn key_required_but_unset_fails_to_start() {
    let mut e = env();
    e.use_key = Some("true".to_string());
    assert_eq!(Settings::resolve(e, "127.0.0.1", 8000).err(), Some(ConfigError::MissingKey));
}

#[test]
fn key_ignored_unless_switched_on() {
    let mut e = env();
    e.key = Some("secret123".to_string());
    let s = Settings::resolve(e, "127.0.0.1", 8000).unwrap();
    assert_eq!(s.key, None);
    let mut e = env();
    e.use_key = Some("false".to_string());
    e.key = Some("secret123".to_string());
    assert_eq!(Settings::resolve(e, "127.0.0.1", 8000).unwrap().key, None);
}

#[test]
fn empty_key_disables_the_check() {
    let mut e = env();
    e.use_key = Some("true".to_string());
    e.key = Some(String::new());
    assert_eq!(Settings::resolve(e, "127.0.0.1", 8000).unwrap().key, None);
}

#[test]
fn flags_are_on_only_for_true() {
    assert!(parse_flag(&Some("true".to_string())));
    assert!(!parse_flag(&Some("TRUE".to_string())));
    assert!(!parse_flag(&Some("false".to_string())));
    assert!(!parse_flag(&Some("1".to_string())));
    assert!(!parse_flag(&None));
}

#[test]
fn port_numbers_in_decimal() {
    assert_eq!(decimal_string(0), "0");
    assert_eq!(decimal_string(7), "7");
    assert_eq!(decimal_string(10), "10");
    assert_eq!(decimal_string(8000), "8000");
    assert_eq!(decimal_string(65535), "65535");
    assert_eq!(default_user_url("10.0.0.2", 443), "http://10.0.0.2:443");
}

#[test]
fn status_codes() {
    assert_eq!(Status::Success.code(), 200);
    assert_eq!(Status::SeeOther.code(), 303);
    assert_eq!(Status::BadRequest.code(), 400);
    assert_eq!(Status::NotFound.code(), 404);
    assert_eq!(Status::InternalServerError.code(), 500);
}

#[test]
fn names_keep_the_original_verbatim() {
    assert_eq!(name_with_prefix("Ab3z", "report.pdf"), "Ab3z-report.pdf");
    assert_eq!(name_with_prefix("Ab3z", "../a/b.txt"), "Ab3z-../a/b.txt");
    assert_eq!(join("/var/files", "x-y"), "/var/files/x-y");
}

#[test]
fn random_prefixes_are_four_alphanumerics() {
    for _ in 0..50 {
        let p = random_prefix();
        assert!(is_valid_prefix(&p), "bad prefix {:?}", p);
    }
    let n = generate_name("notes.txt");
    assert_eq!(n.len(), 14);
    assert!(is_valid_prefix(&n[..4]));
    assert_eq!(&n[4..], "-notes.txt");
}

#[test]
fn report_pdf_round_trip() {
    let s = settings_with_url("http://files.example");
    let (new_name, path) = stored(begin_upload(&s, "", Some("report.pdf")));
    assert!(is_valid_prefix(&new_name[..4]));
    assert_eq!(&new_name[4..], "-report.pdf");
    assert_eq!(path, format!("/srv/files/{}", new_name));
    let r = finish_upload(&s, &new_name, true, false);
    assert_eq!(r.status.code(), 200);
    let url = raw_text(&r);
    assert_eq!(url, format!("http://files.example/{}", new_name));
    let segment = url.strip_prefix("http://files.example/").unwrap();
    assert_eq!(file_path(&s, segment), path);
}

#[test]
fn plan_with_a_given_prefix() {
    let s = settings_with_url("http://h");
    let (new_name, path) = stored(plan_upload(&s, "anything", Some("a.txt"), "Q9zk"));
    assert_eq!(new_name, "Q9zk-a.txt");
    assert_eq!(path, "/srv/files/Q9zk-a.txt");
}

#[test]
fn wrong_key_is_refused() {
    let s = keyed_settings();
    let r = rejected(begin_upload(&s, "wrong", Some("report.pdf")));
    assert_eq!(r.status.code(), 400);
    assert_eq!(raw_text(&r), "key not found in the header");
    let r = rejected(plan_upload(&s, "", Some("report.pdf"), "abcd"));
    assert_eq!(raw_text(&r), "key not found in the header");
}

#[test]
fn right_key_is_accepted() {
    let s = keyed_settings();
    let (new_name, _) = stored(begin_upload(&s, "secret123", Some("report.pdf")));
    let r = finish_upload(&s, &new_name, true, false);
    assert_eq!(r.status, Status::Success);
    assert_eq!(raw_text(&r), format!("http://127.0.0.1:8000/{}", new_name));
}

#[test]
fn key_is_checked_before_the_name() {
    let s = keyed_settings();
    let r = rejected(plan_upload(&s, "wrong", None, "abcd"));
    assert_eq!(raw_text(&r), "key not found in the header");
}

#[test]
fn missing_or_empty_name_is_refused() {
    let s = settings_with_url("http://h");
    for name in [None, Some("")] {
        let r = rejected(plan_upload(&s, "", name, "abcd"));
        assert_eq!(r.status, Status::BadRequest);
        assert_eq!(raw_text(&r), "File name invalid");
    }
}

#[test]
fn same_name_different_prefixes_differ() {
    let s = settings_with_url("http://h");
    let (n1, p1) = stored(plan_upload(&s, "", Some("same.bin"), "aaaa"));
    let (n2, p2) = stored(plan_upload(&s, "", Some("same.bin"), "aaab"));
    assert_ne!(n1, n2);
    assert_ne!(p1, p2);
}

#[test]
fn failed_copy_gives_a_generic_500() {
    let s = settings_with_url("http://h");
    let r = finish_upload(&s, "abcd-x", false, true);
    assert_eq!(r.status.code(), 500);
    assert_eq!(raw_text(&r), "Some stupid internal error occurred");
}

#[test]
fn alternate_reply_is_an_html_link() {
    let s = settings_with_url("http://h");
    let r = finish_upload(&s, "abcd-x.png", true, true);
    assert_eq!(r.status.code(), 303);
    match r.body {
        Body::Html(t) => assert_eq!(t, r#"Here is your file: <a href="http://h/abcd-x.png">http://h/abcd-x.png</a>"#),
        Body::Raw(_) => panic!("expected HTML"),
    }
}

#[test]
fn unknown_file_is_not_found() {
    let r = not_found_reply();
    assert_eq!(r.status.code(), 404);
    assert_eq!(raw_text(&r), "");
}

#[test]
fn help_page_names_title_and_url() {
    let mut e = env();
    e.title = Some("My Host".to_string());
    e.user_url = Some("http://up.example".to_string());
    let s = Settings::resolve(e, "127.0.0.1", 8000).unwrap();
    let page = index(&s);
    assert!(page.starts_with("\n<html>"));
    assert!(page.contains("<title>\n    My Host\n  </title>"));
    assert!(page.contains("curl -F file=@\"[file]\" http://up.example\n"));
    assert!(page.contains("curl -F file=@\"[file]\" -F \"key=[key]\" http://up.example\n"));
    assert!(page.trim_end().ends_with("</html>"));
}
