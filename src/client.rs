use vstd::prelude::*;

use crate::command::{CommandSelection, Entity, SelectionView, Verb};
use crate::settings::{Settings, SettingsView};

verus! {

/// A ticket as the remote service returns it.
pub struct Ticket {
    pub id: String,
    pub name: String,
}

/// The identifiers of all tickets, in the order the service gave them.
pub struct TicketList {
    pub items: Vec<String>,
}

/// The one outbound request of an invocation: a `GET` of `url` with two headers.
pub struct Request {
    pub url: String,
    pub user_agent: String,
    pub authorization: String,
}

/// What came back from sending a request and decoding its body in the shape the verb expects.
pub enum Reply {
    /// No response was received; the cause.
    Unreachable(String),
    /// A response came but its body did not decode; the cause.
    Undecodable(String),
    /// The body decoded as a single ticket.
    Ticket(Ticket),
    /// The body decoded as a list of ticket identifiers.
    Tickets(TicketList),
}

/// A successfully decoded result.
pub enum Rendered {
    Ticket(Ticket),
    Tickets(TicketList),
}

/// Why an operation failed, with the underlying cause.
pub enum ClientError {
    /// The request could not be sent or no response was received.
    Transport(String),
    /// A response was received but its body is not of the expected shape.
    Decode(String),
}

/// The `User-Agent` header of every request.
pub open spec fn user_agent() -> Seq<char> {
    "MosuraCLI"@
}

/// The `Authorization` header for a token.
pub open spec fn bearer(token: Seq<char>) -> Seq<char> {
    "Bearer "@ + token
}

/// The path segment of an entity kind.
pub open spec fn entity_path(e: Entity) -> Seq<char> {
    match e {
        Entity::Ticket => "/ticket"@,
    }
}

/// `{api}/ticket/{id}` for `Get`, `{api}/ticket` for `List`.
pub open spec fn request_url(sel: SelectionView, cfg: SettingsView) -> Seq<char> {
    match sel.identifier {
        Some(id) => cfg.api + entity_path(sel.entity) + "/"@ + id,
        None => cfg.api + entity_path(sel.entity),
    }
}

/// Appends the path segment of `e` to `url`.
fn append_entity_path(url: &mut String, e: Entity)
    ensures
        final(url)@ == old(url)@ + entity_path(e),
{
    match e {
        Entity::Ticket => url.append("/ticket"),
    }
}

/// The request that carries out `sel` against the service that `cfg` names.
pub fn build_request(sel: &CommandSelection, cfg: &Settings) -> (r: Request)
    requires
        sel.wf(),
    ensures
        r.url@ == request_url(sel@, cfg@),
        r.user_agent@ == user_agent(),
        r.authorization@ == bearer(cfg.token@),
{
    let mut url = cfg.api.clone();
    append_entity_path(&mut url, sel.entity);
    match &sel.identifier {
        Some(id) => {
            url.append("/");
            url.append(id.as_str());
        },
        None => {},
    }
    let authorization = String::from_str("Bearer ").concat(cfg.token.as_str());
    Request { url, user_agent: String::from_str("MosuraCLI"), authorization }
}

/// The cause given when a body decoded in the other verb's shape.
pub open spec fn shape_mismatch() -> Seq<char> {
    "response body does not have the expected shape"@
}

/// The result of the operation `sel` given what came back for it: no response is a
/// transport error; an undecodable body, or one of the other verb's shape, a decode error;
/// else the decoded value.
pub fn execute(sel: &CommandSelection, reply: Reply) -> (r: Result<Rendered, ClientError>)
    ensures
        match reply {
            Reply::Unreachable(c) => r == Err::<Rendered, ClientError>(ClientError::Transport(c)),
            Reply::Undecodable(c) => r == Err::<Rendered, ClientError>(ClientError::Decode(c)),
            Reply::Ticket(t) => if sel.verb == Verb::Get {
                r == Ok::<Rendered, ClientError>(Rendered::Ticket(t))
            } else {
                r is Err && r->Err_0 is Decode && r->Err_0->Decode_0@ == shape_mismatch()
            },
            Reply::Tickets(l) => if sel.verb == Verb::List {
                r == Ok::<Rendered, ClientError>(Rendered::Tickets(l))
            } else {
                r is Err && r->Err_0 is Decode && r->Err_0->Decode_0@ == shape_mismatch()
            },
        },
{
    match reply {
        Reply::Unreachable(c) => Err(ClientError::Transport(c)),
        Reply::Undecodable(c) => Err(ClientError::Decode(c)),
        Reply::Ticket(t) => match sel.verb {
            Verb::Get => Ok(Rendered::Ticket(t)),
            Verb::List => Err(
                ClientError::Decode(
                    String::from_str("response body does not have the expected shape"),
                ),
            ),
        },
        Reply::Tickets(l) => match sel.verb {
            Verb::List => Ok(Rendered::Tickets(l)),
            Verb::Get => Err(
                ClientError::Decode(
                    String::from_str("response body does not have the expected shape"),
                ),
            ),
        },
    }
}

} // verus!
