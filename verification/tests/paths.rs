use project_tabs::path::{
    base_dir, child_path, entry_path, expand_home, expand_home_with, starts_with_home, BASE_DIR,
};

#[test]
fn home_shorthand_is_replaced_by_the_home_directory() {
    let full = expand_home_with("~/Documents/rakesh/projects", Some("/home/rakesh".to_string()));
    assert_eq!(full, "/home/rakesh/Documents/rakesh/projects");
}

#[test]
fn a_path_without_the_shorthand_stays_unchanged() {
    assert_eq!(expand_home_with("/tmp/x", Some("/home/rakesh".to_string())), "/tmp/x");
    assert_eq!(expand_home("/tmp/x"), "/tmp/x");
}

#[test]
fn without_a_home_directory_the_path_stays_unexpanded() {
    assert_eq!(expand_home_with("~/Documents", None), "~/Documents");
}

#[test]
fn only_a_leading_tilde_and_slash_count_as_the_shorthand() {
    let home = || Some("/h".to_string());
    assert_eq!(expand_home_with("~", home()), "~");
    assert_eq!(expand_home_with("~user/x", home()), "~user/x");
    assert_eq!(expand_home_with("a/~/x", home()), "a/~/x");
    assert_eq!(expand_home_with("", home()), "");
    assert_eq!(expand_home_with("~/", home()), "/h/");
    assert_eq!(expand_home_with("~/~/x", home()), "/h/~/x");
}

#[test]
fn the_rest_of_the_path_is_kept_character_by_character() {
    let full = expand_home_with("~/caf\u{e9}/\u{1F4C1} x", Some("/home/\u{e9}".to_string()));
    assert_eq!(full, "/home/\u{e9}/caf\u{e9}/\u{1F4C1} x");
}

#[test]
fn the_shorthand_is_recognised() {
    assert!(starts_with_home("~/x"));
    assert!(starts_with_home("~/"));
    assert!(!starts_with_home("~"));
    assert!(!starts_with_home("/~/"));
    assert!(!starts_with_home(""));
}

#[test]
fn expansion_uses_the_home_directory_of_the_user() {
    let full = expand_home("~/Documents/rakesh/projects");
    match dirs::home_dir().and_then(|h| h.into_os_string().into_string().ok()) {
        Some(home) => assert_eq!(full, format!("{}/Documents/rakesh/projects", home)),
        None => assert_eq!(full, "~/Documents/rakesh/projects"),
    }
}

#[test]
fn the_base_directory_is_the_expanded_constant() {
    assert_eq!(BASE_DIR, "~/Documents/rakesh/projects");
    assert_eq!(base_dir(), expand_home(BASE_DIR));
}

#[test]
fn a_child_path_joins_with_a_slash() {
    assert_eq!(child_path("/base", "alpha"), "/base/alpha");
    assert_eq!(child_path("", "x"), "/x");
    assert_eq!(child_path("rel", ""), "rel/");
}

#[test]
fn an_entry_path_is_base_project_entry() {
    assert_eq!(entry_path("/home/u/p", "beta", "main.rs"), "/home/u/p/beta/main.rs");
}
