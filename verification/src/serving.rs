//! What the server needs to decide before it listens: which addresses to try,
//! and what to tell a client about itself.

use vstd::prelude::*;
use crate::document::{entries_view, push_entry, DocView, Document, Numeral};

verus! {

/// How many ports after the first are tried.
pub const EXTRA_PORTS: u16 = 20;

/// One attempt to listen: a port, on the unspecified address of IPv6 or of
/// IPv4.
#[derive(Clone, Copy, Debug, PartialEq, Eq)]
pub struct BindAttempt {
    pub port: u16,
    pub v6: bool,
}

/// The last port that is tried when the first is `port`: twenty further, or
/// the largest port there is.
pub open spec fn last_port(port: u16) -> u16 {
    if port + EXTRA_PORTS <= u16::MAX {
        (port + EXTRA_PORTS) as u16
    } else {
        u16::MAX
    }
}

/// The attempts in their order: each port from the first to the last, on
/// IPv6 and then on IPv4.
pub open spec fn attempts(port: u16) -> Seq<BindAttempt> {
    Seq::new(
        (2 * (last_port(port) - port + 1)) as nat,
        |i: int| BindAttempt { port: (port + i / 2) as u16, v6: i % 2 == 0 },
    )
}

/// The addresses to try, in the order in which to try them.
pub fn bind_attempts(port: u16) -> (list: Vec<BindAttempt>)
    ensures
        list@ == attempts(port),
{
    let last: u16 = if port <= u16::MAX - EXTRA_PORTS {
        port + EXTRA_PORTS
    } else {
        u16::MAX
    };
    let mut list: Vec<BindAttempt> = Vec::new();
    let mut p: u16 = port;
    loop
        invariant_except_break
            port <= p <= last,
            last == last_port(port),
            list@.len() == 2 * (p - port),
            forall|i: int| 0 <= i < list@.len() ==> list@[i] == attempts(port)[i],
        ensures
            list@.len() == 2 * (last_port(port) - port + 1),
            forall|i: int| 0 <= i < list@.len() ==> list@[i] == attempts(port)[i],
        decreases last - p,
    {
        list.push(BindAttempt { port: p, v6: true });
        list.push(BindAttempt { port: p, v6: false });
        if p == last {
            break ;
        }
        p = p + 1;
    }
    list
}

/// The address that is reported where the machine's own cannot be found.
pub open spec fn fallback_address() -> Seq<char> {
    "127.0.0.1"@
}

/// What a client is told about the server: its address and its port.
pub open spec fn server_info_view(address: Option<Seq<char>>, port: u16) -> DocView {
    DocView::Record(
        seq![
            (
                "ip"@,
                DocView::Text(
                    match address {
                        Some(a) => a,
                        None => fallback_address(),
                    },
                ),
            ),
            ("port"@, DocView::Number(Numeral::Unsigned(port as u64))),
        ],
    )
}

/// What a client is told about the server: the address of the machine, or
/// the loopback address where that is not known, and the port.
pub fn server_info(address: Option<String>, port: u16) -> (info: Document)
    ensures
        info@ == server_info_view(crate::text::opt_text(address), port),
{
    let ip = match address {
        Some(a) => a,
        None => String::from_str("127.0.0.1"),
    };
    let mut e: Vec<(String, Document)> = Vec::new();
    push_entry(&mut e, "ip", Document::Text(ip));
    push_entry(&mut e, "port", Document::Number(Numeral::Unsigned(port as u64)));
    assert(entries_view(e@) =~= server_info_view(crate::text::opt_text(address), port)->Record_0);
    Document::Record(e)
}

/// The answer to a command: it is the same whatever the command was.
pub open spec fn acknowledgement_view() -> DocView {
    DocView::Record(seq![("status"@, DocView::Text("ok"@))])
}

/// The answer to a command. There is no other: a command that was not
/// understood, or whose payload could not be read, is answered alike.
pub fn acknowledgement() -> (answer: Document)
    ensures
        answer@ == acknowledgement_view(),
{
    let mut e: Vec<(String, Document)> = Vec::new();
    push_entry(&mut e, "status", Document::text("ok"));
    assert(entries_view(e@) =~= acknowledgement_view()->Record_0);
    Document::Record(e)
}

/// The answer to a question for the status of the server.
pub open spec fn status_view() -> DocView {
    DocView::Record(seq![("status"@, DocView::Text("online"@))])
}

/// The answer to a question for the status of the server.
pub fn status_report() -> (answer: Document)
    ensures
        answer@ == status_view(),
{
    let mut e: Vec<(String, Document)> = Vec::new();
    push_entry(&mut e, "status", Document::text("online"));
    assert(entries_view(e@) =~= status_view()->Record_0);
    Document::Record(e)
}

} // verus!
