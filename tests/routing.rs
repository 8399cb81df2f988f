use mosura::command::{route, Entity, Verb};

fn args(words: &[&str]) -> Vec<String> {
    words.iter().map(|w| w.to_string()).collect()
}

#[test]
fn route_get_with_identifier() {
    let sel = route(&args(&["ticket", "get", "T-1"])).ok().unwrap();
    assert!(sel.entity == Entity::Ticket);
    assert!(sel.verb == Verb::Get);
    assert_eq!(sel.identifier, Some("T-1".to_string()));
}

#[test]
fn route_get_without_identifier_is_usage_error() {
    assert!(route(&args(&["ticket", "get"])).is_err());
}

#[test]
fn route_list() {
    let sel = route(&args(&["ticket", "list"])).ok().unwrap();
    assert!(sel.entity == Entity::Ticket);
    assert!(sel.verb == Verb::List);
    assert_eq!(sel.identifier, None);
}

#[test]
fn route_unknown_entity_is_usage_error() {
    assert!(route(&args(&["widget", "get", "1"])).is_err());
}

#[test]
fn route_rejects_extra_and_missing_words() {
    assert!(route(&args(&[])).is_err());
    assert!(route(&args(&["ticket"])).is_err());
    assert!(route(&args(&["ticket", "list", "extra"])).is_err());
    assert!(route(&args(&["ticket", "get", "T-1", "T-2"])).is_err());
    assert!(route(&args(&["ticket", "delete", "T-1"])).is_err());
}

#[test]
fn usage_error_message_names_the_grammar() {
    let e = route(&args(&["widget", "get", "1"])).err().unwrap();
    assert!(e.message.contains("ticket get <ID>"));
    assert!(e.message.contains("ticket list"));
}
