use vstd::prelude::*;

use crate::client::{ClientError, Rendered, Ticket, TicketList};
use crate::command::UsageError;
use crate::settings::ConfigError;

verus! {

/// How one character appears inside a quoted string.
pub open spec fn escaped_char(c: char) -> Seq<char> {
    if c == '"' {
        "\\\""@
    } else if c == '\\' {
        "\\\\"@
    } else if c == '\n' {
        "\\n"@
    } else if c == '\r' {
        "\\r"@
    } else if c == '\t' {
        "\\t"@
    } else {
        seq![c]
    }
}

/// Every character of `s`, escaped, in order.
pub open spec fn escaped(s: Seq<char>) -> Seq<char>
    decreases s.len(),
{
    if s.len() == 0 {
        Seq::empty()
    } else {
        escaped(s.drop_last()) + escaped_char(s.last())
    }
}

/// `s` between double quotes, with quotes, backslashes and line controls escaped.
pub open spec fn quoted(s: Seq<char>) -> Seq<char> {
    "\""@ + escaped(s) + "\""@
}

/// The quoted items, separated by `", "`.
pub open spec fn joined(items: Seq<Seq<char>>) -> Seq<char>
    decreases items.len(),
{
    if items.len() == 0 {
        Seq::empty()
    } else if items.len() == 1 {
        quoted(items[0])
    } else {
        joined(items.drop_last()) + ", "@ + quoted(items.last())
    }
}

/// The debug-style text of a ticket.
pub open spec fn ticket_text(t: Ticket) -> Seq<char> {
    "Ticket { id: "@ + quoted(t.id@) + ", name: "@ + quoted(t.name@) + " }"@
}

/// The debug-style text of a ticket list.
pub open spec fn ticket_list_text(l: TicketList) -> Seq<char> {
    "Tickets { items: ["@ + joined(l.items@.map_values(|s: String| s@)) + "] }"@
}

/// The debug-style text of a decoded result.
pub open spec fn rendered_text(r: Rendered) -> Seq<char> {
    match r {
        Rendered::Ticket(t) => ticket_text(t),
        Rendered::Tickets(l) => ticket_list_text(l),
    }
}

/// Appends `s` to `out`, escaped.
fn push_escaped(out: &mut String, s: &str)
    ensures
        final(out)@ == old(out)@ + escaped(s@),
{
    let n = s.unicode_len();
    let mut i: usize = 0;
    while i < n
        invariant
            n == s@.len(),
            i <= n,
            out@ == old(out)@ + escaped(s@.subrange(0, i as int)),
        decreases n - i,
    {
        let c = s.get_char(i);
        if c == '"' {
            out.append("\\\"");
        } else if c == '\\' {
            out.append("\\\\");
        } else if c == '\n' {
            out.append("\\n");
        } else if c == '\r' {
            out.append("\\r");
        } else if c == '\t' {
            out.append("\\t");
        } else {
            let one = s.substring_char(i, i + 1);
            assert(one@ =~= seq![c]);
            out.append(one);
        }
        proof {
            let next = s@.subrange(0, i + 1);
            assert(next.drop_last() =~= s@.subrange(0, i as int));
            assert(next.last() == c);
        }
        i = i + 1;
    }
    assert(s@.subrange(0, n as int) =~= s@);
}

/// Appends `s` to `out`, quoted.
fn push_quoted(out: &mut String, s: &str)
    ensures
        final(out)@ == old(out)@ + quoted(s@),
{
    out.append("\"");
    push_escaped(out, s);
    out.append("\"");
    assert(final(out)@ =~= old(out)@ + quoted(s@));
}

/// The debug-style text of a ticket: `Ticket { id: "T-1", name: "Fix bug" }`.
pub fn render_ticket(t: &Ticket) -> (r: String)
    ensures
        r@ == ticket_text(*t),
{
    let mut out = String::from_str("Ticket { id: ");
    push_quoted(&mut out, t.id.as_str());
    out.append(", name: ");
    push_quoted(&mut out, t.name.as_str());
    out.append(" }");
    assert(out@ =~= ticket_text(*t));
    out
}

/// The debug-style text of a ticket list: `Tickets { items: ["T-1", "T-2"] }`.
pub fn render_ticket_list(l: &TicketList) -> (r: String)
    ensures
        r@ == ticket_list_text(*l),
{
    let ghost items = l.items@.map_values(|s: String| s@);
    let mut out = String::from_str("Tickets { items: [");
    let ghost start = out@;
    let mut i: usize = 0;
    while i < l.items.len()
        invariant
            i <= l.items@.len(),
            items == l.items@.map_values(|s: String| s@),
            out@ == start + joined(items.subrange(0, i as int)),
        decreases l.items@.len() - i,
    {
        if i > 0 {
            out.append(", ");
        }
        push_quoted(&mut out, l.items[i].as_str());
        proof {
            let next = items.subrange(0, i + 1);
            assert(next.drop_last() =~= items.subrange(0, i as int));
            assert(next.last() == l.items@[i as int]@);
            if i == 0 {
                assert(items.subrange(0, 0) =~= Seq::<Seq<char>>::empty());
                assert(next.len() == 1 && next[0] == next.last());
            }
            assert(out@ =~= start + joined(next));
        }
        i = i + 1;
    }
    assert(items.subrange(0, l.items@.len() as int) =~= items);
    out.append("] }");
    assert(out@ =~= ticket_list_text(*l));
    out
}

/// The debug-style text of a decoded result.
pub fn render(r: &Rendered) -> (s: String)
    ensures
        s@ == rendered_text(*r),
{
    match r {
        Rendered::Ticket(t) => render_ticket(t),
        Rendered::Tickets(l) => render_ticket_list(l),
    }
}

/// Any failure of an invocation: of resolution, of routing, or of the operation.
pub enum Failure {
    Config(ConfigError),
    Usage(UsageError),
    Client(ClientError),
}

/// The one diagnostic line for a failure: its category, then its cause.
pub open spec fn failure_text(f: Failure) -> Seq<char> {
    match f {
        Failure::Config(ConfigError::Unwritable(c)) => "could not load settings: cannot create configuration file: "@
            + c@,
        Failure::Config(ConfigError::Malformed(c)) => "could not load settings: malformed configuration file: "@
            + c@,
        Failure::Config(ConfigError::InvalidEnv(c)) => "could not load settings: invalid environment override: "@
            + c@,
        Failure::Usage(u) => "usage error: "@ + u.message@,
        Failure::Client(ClientError::Transport(c)) => "error making request: "@ + c@,
        Failure::Client(ClientError::Decode(c)) => "error decoding response json: "@ + c@,
    }
}

/// The diagnostic line for a failure.
pub fn describe(f: &Failure) -> (r: String)
    ensures
        r@ == failure_text(*f),
{
    match f {
        Failure::Config(ConfigError::Unwritable(c)) => String::from_str(
            "could not load settings: cannot create configuration file: ",
        ).concat(c.as_str()),
        Failure::Config(ConfigError::Malformed(c)) => String::from_str(
            "could not load settings: malformed configuration file: ",
        ).concat(c.as_str()),
        Failure::Config(ConfigError::InvalidEnv(c)) => String::from_str(
            "could not load settings: invalid environment override: ",
        ).concat(c.as_str()),
        Failure::Usage(u) => String::from_str("usage error: ").concat(u.message.as_str()),
        Failure::Client(ClientError::Transport(c)) => String::from_str(
            "error making request: ",
        ).concat(c.as_str()),
        Failure::Client(ClientError::Decode(c)) => String::from_str(
            "error decoding response json: ",
        ).concat(c.as_str()),
    }
}

/// What an invocation writes: one line, to the error stream exactly when it failed.
pub struct Presentation {
    pub is_error: bool,
    pub line: String,
}

/// The output for an invocation's outcome: the rendered result on success, else the
/// diagnostic line on the error stream.
pub fn present(outcome: &Result<Rendered, Failure>) -> (r: Presentation)
    ensures
        match outcome {
            Ok(v) => !r.is_error && r.line@ == rendered_text(*v),
            Err(f) => r.is_error && r.line@ == failure_text(*f),
        },
{
    match outcome {
        Ok(v) => Presentation { is_error: false, line: render(v) },
        Err(f) => Presentation { is_error: true, line: describe(f) },
    }
}

} // verus!
