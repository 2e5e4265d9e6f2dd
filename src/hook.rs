//! The per-invocation pipeline of a hook handler, as a state machine.
//!
//! A handler resolves the socket from its argument list, reads the socket's
//! identity, reads the two backlog counters when it is queue-aware, decodes the
//! addresses and finishes with an outcome code and at most one record. Each
//! kernel read is performed by the caller, which reports its result as an
//! `Event`; every decision is taken here.
use vstd::prelude::*;
use crate::address::{SocketIdentity, decode, decode_spec};
use crate::record::{QueueSnapshot, format_record, record_text};

verus! {

/// Outcome code of an invocation that ran to completion.
pub const HOOK_OK: u32 = 0;

/// Outcome code of an invocation that stopped on a missing argument or a
/// rejected read.
pub const HOOK_FAILED: u32 = 1;

/// The kernel entry point that a handler is bound to.
#[derive(Clone, Copy, Debug, PartialEq, Eq, Structural)]
pub enum HookKind {
    /// Inbound connection request; the socket is argument 2.
    ConnectionRequest,
    /// Removal from the accept queue; the socket's argument index depends on
    /// the target kernel's calling convention.
    Accept { socket_arg: usize },
    /// Outbound connect; the socket is argument 0.
    OutboundConnect,
    /// Fast-open backlog check: attachable, always succeeds, never emits.
    FastOpenCheck,
}

impl HookKind {
    /// Argument index of the socket, if the handler reads one.
    pub open spec fn socket_arg_spec(self) -> Option<usize> {
        match self {
            HookKind::ConnectionRequest => Some(2),
            HookKind::Accept { socket_arg } => Some(socket_arg),
            HookKind::OutboundConnect => Some(0),
            HookKind::FastOpenCheck => None,
        }
    }

    pub open spec fn reads_queue_spec(self) -> bool {
        match self {
            HookKind::ConnectionRequest | HookKind::Accept { .. } => true,
            _ => false,
        }
    }

    pub fn socket_arg(&self) -> (r: Option<usize>)
        ensures
            r == self.socket_arg_spec(),
    {
        match self {
            HookKind::ConnectionRequest => Some(2),
            HookKind::Accept { socket_arg } => Some(*socket_arg),
            HookKind::OutboundConnect => Some(0),
            HookKind::FastOpenCheck => None,
        }
    }

    pub fn reads_queue(&self) -> (r: bool)
        ensures
            r == self.reads_queue_spec(),
    {
        match self {
            HookKind::ConnectionRequest | HookKind::Accept { .. } => true,
            _ => false,
        }
    }
}

/// Where an invocation stands between two kernel reads.
#[derive(Clone, Copy, Debug)]
pub enum Invocation {
    ReadingIdentity { socket: u64 },
    ReadingLength { socket: u64, identity: SocketIdentity },
    ReadingMax { socket: u64, identity: SocketIdentity, current_length: u32 },
    Finished,
}

/// What the caller does next.
#[derive(Clone, Debug)]
pub enum Action {
    /// Copy the socket's common header out of kernel memory.
    ReadIdentity { socket: u64 },
    /// Read the socket's current backlog length.
    ReadQueueLength { socket: u64 },
    /// Read the socket's maximum backlog length.
    ReadQueueMax { socket: u64 },
    /// Emit the record, if any, and return `code` to the kernel.
    Finish { code: u32, record: Option<String> },
}

/// The result of the read that the last action asked for; an error holds the
/// code that the read primitive gave.
#[derive(Clone, Copy, Debug)]
pub enum Event {
    Identity(Result<SocketIdentity, i64>),
    QueueLength(Result<u32, i64>),
    QueueMax(Result<u32, i64>),
}

/// `a` finishes with `code` and exactly the record `record`.
pub open spec fn finishes(a: Action, code: u32, record: Option<Seq<char>>) -> bool {
    match a {
        Action::Finish { code: c, record: r } => c == code && match (r, record) {
            (Some(s), Some(t)) => s@ == t,
            (None, None) => true,
            _ => false,
        },
        _ => false,
    }
}

/// The record of a finished invocation: the decoded identity with the
/// counters, for a queue-aware handler.
pub open spec fn final_record(identity: SocketIdentity, queue: Option<QueueSnapshot>) -> Option<
    Seq<char>,
> {
    record_text(decode_spec(identity), queue)
}

fn finish(identity: &SocketIdentity, queue: Option<QueueSnapshot>) -> (r: (Invocation, Action))
    ensures
        r.0 is Finished,
        finishes(r.1, HOOK_OK, final_record(*identity, queue)),
{
    let addrs = decode(identity);
    let record = format_record(&addrs, queue);
    (Invocation::Finished, Action::Finish { code: HOOK_OK, record })
}

fn fail() -> (r: (Invocation, Action))
    ensures
        r.0 is Finished,
        finishes(r.1, HOOK_FAILED, None),
{
    (Invocation::Finished, Action::Finish { code: HOOK_FAILED, record: None })
}

/// Begins an invocation of `hook` with the kernel function's arguments.
pub fn start(hook: HookKind, args: &Vec<u64>) -> (r: (Invocation, Action))
    ensures
        match hook.socket_arg_spec() {
            None => r.0 is Finished && finishes(r.1, HOOK_OK, None),
            Some(i) => if i < args@.len() {
                r.0 == (Invocation::ReadingIdentity { socket: args@[i as int] })
                    && r.1 == (Action::ReadIdentity { socket: args@[i as int] })
            } else {
                r.0 is Finished && finishes(r.1, HOOK_FAILED, None)
            },
        },
{
    match hook.socket_arg() {
        None => (Invocation::Finished, Action::Finish { code: HOOK_OK, record: None }),
        Some(i) => {
            if i < args.len() {
                let socket = args[i];
                (Invocation::ReadingIdentity { socket }, Action::ReadIdentity { socket })
            } else {
                fail()
            }
        },
    }
}

/// Advances an invocation of `hook` by the result of the read it asked for.
/// A rejected read, or an event that does not answer the pending read, ends
/// the invocation with `HOOK_FAILED` and no record.
pub fn step(hook: HookKind, state: Invocation, event: Event) -> (r: (Invocation, Action))
    ensures
        match (state, event) {
            (Invocation::ReadingIdentity { socket }, Event::Identity(Ok(identity))) =>
                if hook.reads_queue_spec() {
                    r.0 == (Invocation::ReadingLength { socket, identity })
                        && r.1 == (Action::ReadQueueLength { socket })
                } else {
                    r.0 is Finished && finishes(r.1, HOOK_OK, final_record(identity, None))
                },
            (Invocation::ReadingLength { socket, identity }, Event::QueueLength(Ok(n))) =>
                r.0 == (Invocation::ReadingMax { socket, identity, current_length: n })
                    && r.1 == (Action::ReadQueueMax { socket }),
            (
                Invocation::ReadingMax { socket, identity, current_length },
                Event::QueueMax(Ok(m)),
            ) => r.0 is Finished && finishes(
                r.1,
                HOOK_OK,
                final_record(
                    identity,
                    Some(QueueSnapshot { current_length, maximum_length: m }),
                ),
            ),
            _ => r.0 is Finished && finishes(r.1, HOOK_FAILED, None),
        },
{
    match (state, event) {
        (Invocation::ReadingIdentity { socket }, Event::Identity(Ok(identity))) => {
            if hook.reads_queue() {
                (Invocation::ReadingLength { socket, identity }, Action::ReadQueueLength { socket })
            } else {
                finish(&identity, None)
            }
        },
        (Invocation::ReadingLength { socket, identity }, Event::QueueLength(Ok(n))) => {
            (
                Invocation::ReadingMax { socket, identity, current_length: n },
                Action::ReadQueueMax { socket },
            )
        },
        (Invocation::ReadingMax { socket, identity, current_length }, Event::QueueMax(Ok(m))) => {
            finish(&identity, Some(QueueSnapshot { current_length, maximum_length: m }))
        },
        _ => fail(),
    }
}

/// Begins the inbound connection-request handler.
pub fn q_tcp_conn_request(args: &Vec<u64>) -> (r: (Invocation, Action))
    ensures
        if 2 < args@.len() {
            r.0 == (Invocation::ReadingIdentity { socket: args@[2] })
                && r.1 == (Action::ReadIdentity { socket: args@[2] })
        } else {
            r.0 is Finished && finishes(r.1, HOOK_FAILED, None)
        },
{
    start(HookKind::ConnectionRequest, args)
}

/// Begins the accept handler, for a kernel that passes the socket as argument
/// `socket_arg`.
pub fn q_inet_csk_accept(socket_arg: usize, args: &Vec<u64>) -> (r: (Invocation, Action))
    ensures
        if socket_arg < args@.len() {
            r.0 == (Invocation::ReadingIdentity { socket: args@[socket_arg as int] })
                && r.1 == (Action::ReadIdentity { socket: args@[socket_arg as int] })
        } else {
            r.0 is Finished && finishes(r.1, HOOK_FAILED, None)
        },
{
    start(HookKind::Accept { socket_arg }, args)
}

/// Begins the fast-open backlog check handler, which finishes at once.
pub fn q_tcp_fastopen_queue_check(args: &Vec<u64>) -> (r: (Invocation, Action))
    ensures
        r.0 is Finished,
        finishes(r.1, HOOK_OK, None),
{
    start(HookKind::FastOpenCheck, args)
}

} // verus!
