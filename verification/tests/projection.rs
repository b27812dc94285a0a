use slurpgit::repo::{PLACEHOLDER_URL, PRIVATE_MARKER, REDACTED_NAME};
use slurpgit::{project, ProjectionError, RawRepo, RepoType, RequiredField};

fn raw(id: u64, name: &str, url: Option<&str>, private: bool, fork: bool) -> RawRepo {
    RawRepo {
        id,
        html_url: url.map(String::from),
        name: String::from(name),
        description: None,
        language: None,
        private: Some(private),
        fork: Some(fork),
        archived: Some(false),
    }
}

#[test]
fn private_record_is_redacted() {
    let view = project(raw(7, "secret", Some("http://x/b"), true, false)).unwrap();
    assert_eq!(view.name(), "*****");
    assert_eq!(view.name(), REDACTED_NAME);
    assert_eq!(view.html_url(), &None);
    assert!(view.private());
    assert_eq!(view.id(), 7);
}

#[test]
fn private_record_without_url_is_redacted() {
    let view = project(raw(7, "", None, true, true)).unwrap();
    assert_eq!(view.name(), "*****");
    assert_eq!(view.html_url(), &None);
    assert_eq!(view.repo_type(), RepoType::Fork);
}

#[test]
fn public_record_keeps_name_and_url() {
    let view = project(raw(1, "alpha", Some("http://x/a"), false, false)).unwrap();
    assert_eq!(view.name(), "alpha");
    assert_eq!(view.html_url(), &Some(String::from("http://x/a")));
    assert!(!view.private());
    assert_eq!(view.id(), 1);
}

#[test]
fn public_record_named_like_the_placeholder_is_kept() {
    let view = project(raw(1, "*****", Some("http://x/stars"), false, false)).unwrap();
    assert_eq!(view.name(), "*****");
    assert_eq!(view.html_url(), &Some(String::from("http://x/stars")));
}

#[test]
fn public_record_without_url_is_no_error() {
    let view = project(raw(3, "bare", None, false, false)).unwrap();
    assert_eq!(view.name(), "bare");
    assert_eq!(view.html_url(), &None);
    assert_eq!(view.url(), "http://240.0.0.0");
    assert_eq!(view.url(), PLACEHOLDER_URL);
    assert_eq!(view.url_anchor(), "[private repo]");
    assert_eq!(view.url_anchor(), PRIVATE_MARKER);
}

#[test]
fn fork_flag_decides_the_kind() {
    let fork = project(raw(1, "a", None, false, true)).unwrap();
    let source = project(raw(2, "b", None, false, false)).unwrap();
    assert_eq!(fork.repo_type(), RepoType::Fork);
    assert_eq!(source.repo_type(), RepoType::Source);
}

#[test]
fn kind_labels() {
    assert_eq!(RepoType::Source.to_string(), "Source");
    assert_eq!(RepoType::Fork.to_string(), "Fork");
}

#[test]
fn missing_private_flag_is_an_error() {
    let mut record = raw(1, "alpha", Some("http://x/a"), false, false);
    record.private = None;
    assert_eq!(
        project(record),
        Err(ProjectionError::MissingField(RequiredField::Private))
    );
}

#[test]
fn missing_fork_flag_is_an_error() {
    let mut record = raw(1, "alpha", Some("http://x/a"), true, false);
    record.fork = None;
    assert_eq!(
        project(record),
        Err(ProjectionError::MissingField(RequiredField::Fork))
    );
}

#[test]
fn missing_private_flag_is_reported_before_missing_fork_flag() {
    let mut record = raw(1, "alpha", None, false, false);
    record.private = None;
    record.fork = None;
    assert_eq!(
        project(record),
        Err(ProjectionError::MissingField(RequiredField::Private))
    );
}

#[test]
fn required_field_names() {
    assert_eq!(RequiredField::Private.name(), "private");
    assert_eq!(RequiredField::Fork.name(), "fork");
}

#[test]
fn description_and_language_pass_through() {
    let mut record = raw(1, "alpha", None, true, false);
    record.description = Some(String::from("a <b>secret</b> thing"));
    record.language = Some(String::from("Rust"));
    let view = project(record).unwrap();
    assert_eq!(
        view.description(),
        &Some(String::from("a <b>secret</b> thing"))
    );
    assert_eq!(view.language(), &Some(String::from("Rust")));

    let bare = project(raw(2, "beta", None, false, false)).unwrap();
    assert_eq!(bare.description(), &None);
    assert_eq!(bare.language(), &None);
}

#[test]
fn archived_follows_its_own_flag() {
    let mut record = raw(1, "alpha", None, true, false);
    record.archived = Some(false);
    assert!(!project(record).unwrap().archived());

    let mut record = raw(1, "alpha", None, false, false);
    record.archived = Some(true);
    assert!(project(record).unwrap().archived());

    let mut record = raw(1, "alpha", None, true, false);
    record.archived = None;
    assert!(!project(record).unwrap().archived());
}

#[test]
fn url_text_of_a_public_record() {
    let view = project(raw(1, "alpha", Some("http://x/a"), false, false)).unwrap();
    assert_eq!(view.url(), "http://x/a");
}

#[test]
fn anchor_of_a_public_record() {
    let view = project(raw(1, "alpha", Some("http://x/a"), false, false)).unwrap();
    assert_eq!(
        view.url_anchor(),
        "<a href=\"http://x/a\">alpha</a>"
    );
}

#[test]
fn anchor_of_a_private_record() {
    let view = project(raw(2, "secret", Some("http://x/b"), true, false)).unwrap();
    assert_eq!(view.url_anchor(), "[private repo]");
    assert_eq!(view.url(), "http://240.0.0.0");
}

#[test]
fn summary_of_a_public_record() {
    let view = project(raw(1, "alpha", Some("http://x/a"), false, false)).unwrap();
    assert_eq!(view.to_string(), "alpha (private? false), url: http://x/a");
}

#[test]
fn summary_of_a_private_record() {
    let view = project(raw(2, "secret", Some("http://x/b"), true, false)).unwrap();
    assert_eq!(
        view.to_string(),
        "***** (private? true), url: http://240.0.0.0"
    );
}

#[test]
fn option_rendering() {
    let record = RawRepo {
        id: 1,
        html_url: Some(String::from("http://github.com/crispinb")),
        name: String::from("Fark"),
        description: None,
        language: None,
        private: Some(true),
        fork: Some(false),
        archived: Some(false),
    };
    let repo = project(record).unwrap();
    println!("rep with a missing descr: \n{}", repo.to_string());
    assert_eq!(repo.description(), &None);
    assert_eq!(repo.repo_type(), RepoType::Source);
    let row = repo.listing_row();
    assert_eq!(row.description, "");
    assert_eq!(row.language, "?");
    assert!(!repo.to_string().contains("Fark"));
    assert!(!repo.to_string().contains("crispinb"));
}

#[test]
fn projecting_is_deterministic() {
    let record = raw(9, "gamma", Some("http://x/g"), false, true);
    let first = project(record.clone()).unwrap();
    let second = project(record).unwrap();
    assert_eq!(first, second);
    assert_eq!(first.clone(), first);
}

#[test]
fn anchor_label_is_the_name_alone() {
    let view = project(raw(4, "my repo", Some("https://x/y?z=1"), false, true)).unwrap();
    let anchor = view.url_anchor();
    assert_eq!(anchor, "<a href=\"https://x/y?z=1\">my repo</a>");
    assert!(anchor.ends_with(">my repo</a>"));
}
