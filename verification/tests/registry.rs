use bound_variables::BoundVariables;

#[test]
fn new_registry_binds_nothing() {
    let bound = BoundVariables::new();
    assert!(!bound.is_bound("token"));
    assert!(!bound.is_bound(""));
    assert_eq!(bound.resolve("token"), None);
}

#[test]
fn default_registry_binds_nothing() {
    let bound = BoundVariables::default();
    assert!(!bound.is_bound("token"));
}

#[test]
fn register_binds_the_name_to_the_path() {
    let mut bound = BoundVariables::new();
    bound.register("token".to_string(), "/ctx/secrets/token.txt".to_string());
    assert!(bound.is_bound("token"));
    assert_eq!(bound.resolve("token"), Some(&"/ctx/secrets/token.txt".to_string()));
    assert!(!bound.is_bound("Token"));
    assert!(!bound.is_bound("toke"));
    assert!(!bound.is_bound("token "));
}

#[test]
fn register_again_overwrites_the_path() {
    let mut bound = BoundVariables::new();
    bound.register("token".to_string(), "/ctx/old.txt".to_string());
    bound.register("session".to_string(), "/ctx/session.txt".to_string());
    bound.register("token".to_string(), "/ctx/new.txt".to_string());
    assert_eq!(bound.resolve("token"), Some(&"/ctx/new.txt".to_string()));
    assert_eq!(bound.resolve("session"), Some(&"/ctx/session.txt".to_string()));
}

#[test]
fn two_names_may_share_a_path() {
    let mut bound = BoundVariables::new();
    bound.register("a".to_string(), "/ctx/shared.txt".to_string());
    bound.register("b".to_string(), "/ctx/shared.txt".to_string());
    assert_eq!(bound.resolve("a"), Some(&"/ctx/shared.txt".to_string()));
    assert_eq!(bound.resolve("b"), Some(&"/ctx/shared.txt".to_string()));
}

#[test]
fn the_empty_name_can_be_bound() {
    let mut bound = BoundVariables::new();
    bound.register(String::new(), "/ctx/empty.txt".to_string());
    assert!(bound.is_bound(""));
    assert!(!bound.is_bound("x"));
}

#[test]
fn names_are_compared_character_by_character() {
    let mut bound = BoundVariables::new();
    bound.register("clé".to_string(), "/ctx/a.txt".to_string());
    assert!(bound.is_bound("clé"));
    assert!(!bound.is_bound("cle"));
}

#[test]
fn a_clone_has_the_same_bindings_and_its_own_life() {
    let mut bound = BoundVariables::new();
    bound.register("token".to_string(), "/ctx/token.txt".to_string());
    let mut copy = bound.clone();
    assert_eq!(copy.resolve("token"), Some(&"/ctx/token.txt".to_string()));
    copy.register("other".to_string(), "/ctx/other.txt".to_string());
    copy.register("token".to_string(), "/ctx/moved.txt".to_string());
    assert!(copy.is_bound("other"));
    assert!(!bound.is_bound("other"));
    assert_eq!(bound.resolve("token"), Some(&"/ctx/token.txt".to_string()));
}
