use mosura::client::{ClientError, Rendered, Ticket, TicketList};
use mosura::command::UsageError;
use mosura::present::{describe, present, render, Failure};
use mosura::settings::ConfigError;

#[test]
fn renders_ticket() {
    let t = Ticket { id: "T-1".to_string(), name: "Fix bug".to_string() };
    assert_eq!(render(&Rendered::Ticket(t)), "Ticket { id: \"T-1\", name: \"Fix bug\" }");
}

#[test]
fn renders_ticket_list() {
    let l = TicketList { items: vec!["T-1".to_string(), "T-2".to_string()] };
    assert_eq!(render(&Rendered::Tickets(l)), "Tickets { items: [\"T-1\", \"T-2\"] }");
    let empty = TicketList { items: vec![] };
    assert_eq!(render(&Rendered::Tickets(empty)), "Tickets { items: [] }");
}

#[test]
fn rendering_escapes_like_debug() {
    let (id, name) = ("a\"b", "c\\d\ne\tf\r");
    let t = Ticket { id: id.to_string(), name: name.to_string() };
    let got = render(&Rendered::Ticket(t));
    assert_eq!(got, "Ticket { id: \"a\\\"b\", name: \"c\\\\d\\ne\\tf\\r\" }");
    assert_eq!(got, format!("Ticket {{ id: {:?}, name: {:?} }}", id, name));
}

#[test]
fn describes_each_failure() {
    let cases = vec![
        (Failure::Config(ConfigError::Unwritable("x".to_string())), "could not load settings: cannot create configuration file: x"),
        (Failure::Config(ConfigError::Malformed("x".to_string())), "could not load settings: malformed configuration file: x"),
        (Failure::Config(ConfigError::InvalidEnv("x".to_string())), "could not load settings: invalid environment override: x"),
        (Failure::Usage(UsageError { message: "x".to_string() }), "usage error: x"),
        (Failure::Client(ClientError::Transport("x".to_string())), "error making request: x"),
        (Failure::Client(ClientError::Decode("x".to_string())), "error decoding response json: x"),
    ];
    for (f, text) in cases {
        assert_eq!(describe(&f), text);
    }
}

#[test]
fn present_separates_success_and_failure() {
    let ok = present(&Ok(Rendered::Tickets(TicketList { items: vec!["T-1".to_string()] })));
    assert!(!ok.is_error);
    assert_eq!(ok.line, "Tickets { items: [\"T-1\"] }");
    let err = present(&Err(Failure::Client(ClientError::Transport("refused".to_string()))));
    assert!(err.is_error);
    assert_eq!(err.line, "error making request: refused");
}
