//! Backlog counters and the one-line records that an invocation emits.
use vstd::prelude::*;
use crate::address::{Addresses, ipv4_text, ipv6_text, push_ipv4, push_ipv6};
use crate::text::{decimal, push_digits, push_str, string_of};

verus! {

/// Accept-queue occupancy of a listening socket, read in the same invocation
/// as its identity.
#[derive(Clone, Copy, Debug, PartialEq, Eq, Structural)]
pub struct QueueSnapshot {
    pub current_length: u32,
    pub maximum_length: u32,
}

/// The head of a record: the family label and, when present, the counters.
pub open spec fn record_head(label: Seq<char>, queue: Option<QueueSnapshot>) -> Seq<char> {
    match queue {
        Some(q) => label + " 'accept queue' qlen: "@ + decimal(q.current_length as nat)
            + ", qmax: "@ + decimal(q.maximum_length as nat) + ", src address: "@,
        None => label + " src address: "@,
    }
}

/// The record for a decoded address pair; none for an unsupported family.
pub open spec fn record_text(addrs: Addresses, queue: Option<QueueSnapshot>) -> Option<Seq<char>> {
    match addrs {
        Addresses::V4 { source, dest } => Some(
            record_head("AF_INET"@, queue) + ipv4_text(source) + ", dest address: "@
                + ipv4_text(dest),
        ),
        Addresses::V6 { source, dest } => Some(
            record_head("AF_INET6"@, queue) + ipv6_text(source@) + ", dest address: "@
                + ipv6_text(dest@),
        ),
        Addresses::Unsupported { .. } => None,
    }
}

fn push_head(out: &mut Vec<char>, label: &str, queue: Option<QueueSnapshot>)
    ensures
        final(out)@ == old(out)@ + record_head(label@, queue),
{
    push_str(out, label);
    match queue {
        Some(q) => {
            push_str(out, " 'accept queue' qlen: ");
            push_digits(out, q.current_length, 10);
            push_str(out, ", qmax: ");
            push_digits(out, q.maximum_length, 10);
            push_str(out, ", src address: ");
        },
        None => {
            push_str(out, " src address: ");
        },
    }
    assert(final(out)@ =~= old(out)@ + record_head(label@, queue));
}

/// Formats the record of one invocation.
pub fn format_record(addrs: &Addresses, queue: Option<QueueSnapshot>) -> (r: Option<String>)
    ensures
        r matches Some(s) ==> record_text(*addrs, queue) == Some(s@),
        r is None <==> record_text(*addrs, queue) is None,
{
    let mut out: Vec<char> = Vec::new();
    match addrs {
        Addresses::V4 { source, dest } => {
            push_head(&mut out, "AF_INET", queue);
            push_ipv4(&mut out, *source);
            push_str(&mut out, ", dest address: ");
            push_ipv4(&mut out, *dest);
            assert(out@ =~= record_text(*addrs, queue)->Some_0);
            Some(string_of(&out))
        },
        Addresses::V6 { source, dest } => {
            push_head(&mut out, "AF_INET6", queue);
            push_ipv6(&mut out, source);
            push_str(&mut out, ", dest address: ");
            push_ipv6(&mut out, dest);
            assert(out@ =~= record_text(*addrs, queue)->Some_0);
            Some(string_of(&out))
        },
        Addresses::Unsupported { .. } => None,
    }
}

} // verus!
