use src_manage::repo_url::{ParseError, RepoUrl};

#[test]
fn git_scheme_works() {
    let parsed = RepoUrl::parse("git@github.com:foldu/src-manage.git").unwrap();

    assert_eq!(&parsed.host, "github.com");
    assert_eq!(&parsed.owner, "foldu");
    assert_eq!(&parsed.repo_name, "src-manage");
}

#[test]
fn https_scheme_works() {
    let parsed = RepoUrl::parse("https://github.com/foldu/src-manage.git").unwrap();

    assert_eq!(&parsed.host, "github.com");
    assert_eq!(&parsed.owner, "foldu");
    assert_eq!(&parsed.repo_name, "src-manage");
}

#[test]
fn suffix_strip_round_trip() {
    let bare = RepoUrl::parse("git@github.com:foldu/src-manage").unwrap();
    let suffixed = RepoUrl::parse("git@github.com:foldu/src-manage.git").unwrap();

    assert_eq!(bare.host, suffixed.host);
    assert_eq!(bare.owner, suffixed.owner);
    assert_eq!(bare.repo_name, suffixed.repo_name);
}

#[test]
fn suffix_stripped_once() {
    let parsed = RepoUrl::from_url("github.com", "foldu/tool.git.git").unwrap();
    assert_eq!(&parsed.repo_name, "tool.git");

    let again = RepoUrl::from_url("github.com", "foldu/tool.git").unwrap();
    assert_eq!(&again.repo_name, "tool");
}

#[test]
fn missing_host_is_rejected() {
    assert_eq!(
        RepoUrl::from_url("", "foldu/src-manage"),
        Err(ParseError::MissingHost)
    );
}

#[test]
fn missing_owner_is_rejected() {
    assert_eq!(RepoUrl::from_url("github.com", ""), Err(ParseError::MissingOwner));
    assert_eq!(RepoUrl::from_url("github.com", "/"), Err(ParseError::MissingOwner));
    assert_eq!(
        RepoUrl::from_url("github.com", "//src-manage"),
        Err(ParseError::MissingOwner)
    );
}

#[test]
fn missing_repo_name_is_rejected() {
    assert_eq!(
        RepoUrl::from_url("github.com", "foldu"),
        Err(ParseError::MissingRepoName)
    );
}

#[test]
fn extra_segments_are_ignored() {
    let parsed = RepoUrl::from_url("github.com", "foldu/src-manage/extra").unwrap();
    assert_eq!(&parsed.owner, "foldu");
    assert_eq!(&parsed.repo_name, "src-manage");
}

#[test]
fn hostless_locator_is_rejected() {
    let r = RepoUrl::parse("/just/a/local/path");
    assert_eq!(r, Err(ParseError::MissingHost));
}

#[test]
fn garbage_locator_is_rejected() {
    let r = RepoUrl::parse("");
    assert!(r.is_err());
}
