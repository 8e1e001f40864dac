use hazelnut_service::paths::{
    expand_home, expand_path, expand_variables, find_variable, substitute, Reference,
};

fn vars() -> Vec<(String, String)> {
    vec![
        ("HOME".to_string(), "/home/me".to_string()),
        ("DATA_DIR".to_string(), "/srv/data".to_string()),
        ("LOOP".to_string(), "$HOME".to_string()),
        ("HOME".to_string(), "/second".to_string()),
        ("with space".to_string(), "spaced".to_string()),
    ]
}

#[test]
fn tilde_alone_is_home() {
    assert_eq!(expand_home("~", Some("/home/me")), "/home/me");
}

#[test]
fn tilde_prefix_is_joined_to_home() {
    assert_eq!(expand_home("~/Downloads", Some("/home/me")), "/home/me/Downloads");
    assert_eq!(expand_home("~/a/b", Some("/home/me/")), "/home/me/a/b");
    assert_eq!(expand_home("~/", Some("/home/me")), "/home/me/");
}

#[test]
fn tilde_with_rooted_rest_gives_the_rest() {
    assert_eq!(expand_home("~//etc/x", Some("/home/me")), "/etc/x");
}

#[test]
fn tilde_elsewhere_stays() {
    assert_eq!(expand_home("/a/~/b", Some("/home/me")), "/a/~/b");
    assert_eq!(expand_home("~user/x", Some("/home/me")), "~user/x");
    assert_eq!(expand_home("", Some("/home/me")), "");
}

#[test]
fn tilde_stays_without_home() {
    assert_eq!(expand_home("~", None), "~");
    assert_eq!(expand_home("~/x", None), "~/x");
}

#[test]
fn bare_and_braced_references() {
    assert_eq!(expand_variables("$HOME/x", &vars()), "/home/me/x");
    assert_eq!(expand_variables("${HOME}/x", &vars()), "/home/me/x");
    assert_eq!(expand_variables("a/$DATA_DIR/b/${HOME}", &vars()), "a//srv/data/b//home/me");
    assert_eq!(expand_variables("${with space}", &vars()), "spaced");
    assert_eq!(expand_variables("$HOMEx/$HOME.txt", &vars()), "$HOMEx//home/me.txt");
}

#[test]
fn unset_reference_stays_as_written() {
    assert_eq!(expand_variables("$NOPE/x/${ALSO_NOT}", &vars()), "$NOPE/x/${ALSO_NOT}");
    assert_eq!(expand_variables("$HOME", &vec![]), "$HOME");
}

#[test]
fn what_is_no_reference_stays() {
    assert_eq!(expand_variables("plain/path", &vars()), "plain/path");
    assert_eq!(expand_variables("cost: $5 and ${}", &vars()), "cost: $5 and ${}");
    assert_eq!(expand_variables("$", &vars()), "$");
    assert_eq!(expand_variables("", &vars()), "");
    assert_eq!(expand_variables("$$HOME", &vars()), "$/home/me");
}

#[test]
fn value_is_not_expanded_again() {
    assert_eq!(expand_variables("$LOOP/x", &vars()), "$HOME/x");
}

#[test]
fn text_beyond_ascii_is_kept() {
    assert_eq!(expand_variables("é/$HOME/ü${DATA_DIR}ß", &vars()), "é//home/me/ü/srv/dataß");
}

#[test]
fn first_variable_of_a_name_counts() {
    let v = vars();
    assert_eq!(find_variable(&v, &"HOME".to_string()), Some(&"/home/me".to_string()));
    assert_eq!(find_variable(&v, &"home".to_string()), None);
}

#[test]
fn substitute_prefers_braced_name() {
    let r = Reference {
        before: "a".to_string(),
        whole: "${HOME}".to_string(),
        braced: Some("HOME".to_string()),
        bare: Some("DATA_DIR".to_string()),
        after: "b".to_string(),
    };
    assert_eq!(substitute(&r, &vars()), "/home/me");
    let bare = Reference { braced: None, ..r.clone() };
    assert_eq!(substitute(&bare, &vars()), "/srv/data");
    let unset = Reference { braced: Some("NOPE".to_string()), ..r.clone() };
    assert_eq!(substitute(&unset, &vars()), "${HOME}");
    let nameless = Reference { braced: None, bare: None, ..r };
    assert_eq!(substitute(&nameless, &vars()), "${HOME}");
}

#[test]
fn expand_path_does_home_then_variables() {
    assert_eq!(
        expand_path("~/$DATA_DIR/x", Some("/home/me"), &vars()),
        "/home/me//srv/data/x"
    );
    assert_eq!(expand_path("~", Some("/h/$HOME"), &vars()), "/h//home/me");
    assert_eq!(expand_path("/tmp/x", None, &vec![]), "/tmp/x");
}
