use vstd::prelude::*;

verus! {

/// The kinds of remote object a command can act on.
#[derive(PartialEq, Eq, Structural, Clone, Copy, Debug)]
pub enum Entity {
    Ticket,
}

/// What a command asks of its entity.
#[derive(PartialEq, Eq, Structural, Clone, Copy, Debug)]
pub enum Verb {
    Get,
    List,
}

/// One interpreted command line: an entity, a verb, and the identifier that `Get` needs.
pub struct CommandSelection {
    pub entity: Entity,
    pub verb: Verb,
    pub identifier: Option<String>,
}

/// The mathematical content of a `CommandSelection`.
pub ghost struct SelectionView {
    pub entity: Entity,
    pub verb: Verb,
    pub identifier: Option<Seq<char>>,
}

impl View for CommandSelection {
    type V = SelectionView;

    open spec fn view(&self) -> SelectionView {
        SelectionView {
            entity: self.entity,
            verb: self.verb,
            identifier: match self.identifier {
                Some(s) => Some(s@),
                None => None,
            },
        }
    }
}

impl CommandSelection {
    /// An identifier is present exactly when the verb is `Get`.
    pub open spec fn wf(&self) -> bool {
        self.identifier is Some <==> self.verb == Verb::Get
    }
}

/// The command line does not match the command grammar.
pub struct UsageError {
    pub message: String,
}

/// The selection that the words of a command line name, if they follow the grammar
/// `ticket get <ID>` or `ticket list`.
pub open spec fn route_spec(args: Seq<Seq<char>>) -> Option<SelectionView> {
    if args.len() == 3 && args[0] == "ticket"@ && args[1] == "get"@ {
        Some(SelectionView { entity: Entity::Ticket, verb: Verb::Get, identifier: Some(args[2]) })
    } else if args.len() == 2 && args[0] == "ticket"@ && args[1] == "list"@ {
        Some(SelectionView { entity: Entity::Ticket, verb: Verb::List, identifier: None })
    } else {
        None
    }
}

/// The text of each word of a command line.
pub open spec fn words(args: Seq<String>) -> Seq<Seq<char>> {
    args.map_values(|a: String| a@)
}

/// The error for a command line outside the grammar.
fn usage() -> (r: UsageError) {
    UsageError {
        message: String::from_str("usage: mosura ticket get <ID> | mosura ticket list"),
    }
}

/// Maps the words of a command line, after the program's name, onto one operation.
pub fn route(args: &Vec<String>) -> (r: Result<CommandSelection, UsageError>)
    ensures
        r is Ok <==> route_spec(words(args@)) is Some,
        r is Ok ==> r->Ok_0.wf() && Some(r->Ok_0@) == route_spec(words(args@)),
{
    let ghost w = words(args@);
    let ticket = String::from_str("ticket");
    let get = String::from_str("get");
    let list = String::from_str("list");
    if args.len() == 3 && args[0] == ticket && args[1] == get {
        assert(w[0] == args@[0]@ && w[1] == args@[1]@ && w[2] == args@[2]@);
        Ok(
            CommandSelection {
                entity: Entity::Ticket,
                verb: Verb::Get,
                identifier: Some(args[2].clone()),
            },
        )
    } else if args.len() == 2 && args[0] == ticket && args[1] == list {
        assert(w[0] == args@[0]@ && w[1] == args@[1]@);
        Ok(CommandSelection { entity: Entity::Ticket, verb: Verb::List, identifier: None })
    } else {
        proof {
            if args@.len() >= 2 {
                assert(w[0] == args@[0]@ && w[1] == args@[1]@);
            }
        }
        Err(usage())
    }
}

} // verus!
