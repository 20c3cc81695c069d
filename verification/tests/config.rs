use src_manage::config::{expanduser, str_eq, Config, ConfigConfig, HostConfig};
use src_manage::repo_url::RepoUrl;

fn sample_config(flatten_github: bool) -> Config {
    Config {
        config: ConfigConfig { src_dir: "/home/u/src".to_owned() },
        hosts: vec![("github.com".to_owned(), HostConfig { flatten: flatten_github })],
        sync_default: Vec::new(),
    }
}

fn sample_repo(host: &str) -> RepoUrl {
    RepoUrl {
        host: host.to_owned(),
        owner: "foldu".to_owned(),
        repo_name: "src-manage".to_owned(),
    }
}

#[test]
fn expanduser_works() {
    let home = etcetera::home_dir().expect("Failed getting home dir");
    let home_str = home.to_str().expect("home dir is not valid text");

    assert_eq!(
        expanduser("~/test.cfg", home_str),
        home.join("test.cfg").to_str().unwrap()
    );
    assert_eq!(expanduser("~", home_str), home_str);
    assert_eq!(expanduser("lol", home_str), "lol");
}

#[test]
fn expanduser_leaves_tilde_prefixed_names_alone() {
    assert_eq!(expanduser("~user/x", "/home/u"), "~user/x");
    assert_eq!(expanduser("a/~/b", "/home/u"), "a/~/b");
}

#[test]
fn resolve_without_rule_keeps_owner() {
    let cfg = sample_config(true);
    let dir = cfg.get_directory_for(&sample_repo("gitlab.com"));
    assert_eq!(dir, "/home/u/src/gitlab.com/foldu/src-manage");
}

#[test]
fn resolve_with_flatten_false_keeps_owner() {
    let cfg = sample_config(false);
    let dir = cfg.get_directory_for(&sample_repo("github.com"));
    assert_eq!(dir, "/home/u/src/github.com/foldu/src-manage");
}

#[test]
fn resolve_with_flatten_true_omits_owner() {
    let cfg = sample_config(true);
    let dir = cfg.get_directory_for(&sample_repo("github.com"));
    assert_eq!(dir, "/home/u/src/github.com/src-manage");
}

#[test]
fn first_matching_rule_wins() {
    let mut cfg = sample_config(true);
    cfg.hosts.push(("github.com".to_owned(), HostConfig { flatten: false }));
    assert!(cfg.flatten_for("github.com"));
    assert!(!cfg.flatten_for("example.org"));
}

#[test]
fn str_eq_compares_contents() {
    assert!(str_eq("abc", "abc"));
    assert!(!str_eq("abc", "abd"));
    assert!(!str_eq("abc", "abcd"));
    assert!(str_eq("", ""));
}
