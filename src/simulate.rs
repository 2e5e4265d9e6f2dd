//! A kernel image held in memory, and a driver that runs one hook invocation
//! against it, answering each read that the pipeline asks for.
use vstd::prelude::*;
use crate::address::{AF_INET, AF_INET6, SocketIdentity};
use crate::hook::{
    Action, Event, HOOK_FAILED, HOOK_OK, HookKind, Invocation, final_record, start, step,
};
use crate::record::QueueSnapshot;

verus! {

/// Error code of a read from an address that holds no readable object.
pub const EFAULT: i64 = -14;

/// A socket as the reads see it; a field that is `None` cannot be read.
#[derive(Clone, Copy, Debug)]
pub struct KernelSocket {
    pub address: u64,
    pub identity: Option<SocketIdentity>,
    pub ack_backlog: Option<u32>,
    pub max_ack_backlog: Option<u32>,
}

/// The sockets reachable by address; the first entry with an address wins.
#[derive(Clone, Debug)]
pub struct KernelImage {
    pub sockets: Vec<KernelSocket>,
}

/// A read that an invocation performed.
#[derive(Clone, Copy, Debug, PartialEq, Eq, Structural)]
pub enum ReadKind {
    Identity,
    QueueLength,
    QueueMax,
}

/// What one invocation did: its outcome code, the record it emitted, and the
/// reads it performed, in order.
#[derive(Clone, Debug)]
pub struct Report {
    pub code: u32,
    pub record: Option<String>,
    pub reads: Vec<ReadKind>,
}

/// The first socket at `address`.
pub open spec fn find(s: Seq<KernelSocket>, address: u64) -> Option<KernelSocket>
    decreases s.len(),
{
    if s.len() == 0 {
        None
    } else if s[0].address == address {
        Some(s[0])
    } else {
        find(s.drop_first(), address)
    }
}

pub open spec fn identity_read(s: Seq<KernelSocket>, address: u64) -> Result<SocketIdentity, i64> {
    match find(s, address) {
        Some(k) => match k.identity {
            Some(id) => Ok(id),
            None => Err(EFAULT),
        },
        None => Err(EFAULT),
    }
}

pub open spec fn length_read(s: Seq<KernelSocket>, address: u64) -> Result<u32, i64> {
    match find(s, address) {
        Some(k) => match k.ack_backlog {
            Some(n) => Ok(n),
            None => Err(EFAULT),
        },
        None => Err(EFAULT),
    }
}

pub open spec fn max_read(s: Seq<KernelSocket>, address: u64) -> Result<u32, i64> {
    match find(s, address) {
        Some(k) => match k.max_ack_backlog {
            Some(n) => Ok(n),
            None => Err(EFAULT),
        },
        None => Err(EFAULT),
    }
}

/// The code, record and reads of one invocation of `hook` with `args` on the
/// sockets `s`.
pub open spec fn run_spec(hook: HookKind, args: Seq<u64>, s: Seq<KernelSocket>) -> (
    u32,
    Option<Seq<char>>,
    Seq<ReadKind>,
) {
    match hook.socket_arg_spec() {
        None => (HOOK_OK, None, seq![]),
        Some(i) => if i >= args.len() {
            (HOOK_FAILED, None, seq![])
        } else {
            let socket = args[i as int];
            match identity_read(s, socket) {
                Err(_) => (HOOK_FAILED, None, seq![ReadKind::Identity]),
                Ok(id) => if !hook.reads_queue_spec() {
                    (HOOK_OK, final_record(id, None), seq![ReadKind::Identity])
                } else {
                    match length_read(s, socket) {
                        Err(_) => (
                            HOOK_FAILED,
                            None,
                            seq![ReadKind::Identity, ReadKind::QueueLength],
                        ),
                        Ok(n) => {
                            let reads = seq![
                                ReadKind::Identity,
                                ReadKind::QueueLength,
                                ReadKind::QueueMax,
                            ];
                            match max_read(s, socket) {
                                Err(_) => (HOOK_FAILED, None, reads),
                                Ok(m) => (
                                    HOOK_OK,
                                    final_record(
                                        id,
                                        Some(QueueSnapshot { current_length: n, maximum_length: m }),
                                    ),
                                    reads,
                                ),
                            }
                        },
                    }
                },
            }
        },
    }
}

/// The socket that an invocation of `hook` with `args` reads, if any.
pub open spec fn socket_of(hook: HookKind, args: Seq<u64>) -> Option<u64> {
    match hook.socket_arg_spec() {
        Some(i) => if i < args.len() {
            Some(args[i as int])
        } else {
            None
        },
        None => None,
    }
}

/// The text of an optional string.
pub open spec fn text_of(r: Option<String>) -> Option<Seq<char>> {
    match r {
        Some(s) => Some(s@),
        None => None,
    }
}

impl KernelImage {
    fn lookup(&self, address: u64) -> (r: Option<KernelSocket>)
        ensures
            r == find(self.sockets@, address),
    {
        let mut i: usize = 0;
        assert(self.sockets@.subrange(0, self.sockets@.len() as int) =~= self.sockets@);
        while i < self.sockets.len()
            invariant
                i <= self.sockets@.len(),
                find(self.sockets@, address) == find(
                    self.sockets@.subrange(i as int, self.sockets@.len() as int),
                    address,
                ),
            decreases self.sockets@.len() - i,
        {
            let k = self.sockets[i];
            proof {
                let rest = self.sockets@.subrange(i as int, self.sockets@.len() as int);
                assert(rest.drop_first() =~= self.sockets@.subrange(i + 1, self.sockets@.len() as int));
            }
            if k.address == address {
                return Some(k);
            }
            i = i + 1;
        }
        None
    }

    /// Copies the identity of the socket at `address`.
    pub fn read_identity(&self, address: u64) -> (r: Result<SocketIdentity, i64>)
        ensures
            r == identity_read(self.sockets@, address),
    {
        match self.lookup(address) {
            Some(k) => match k.identity {
                Some(id) => Ok(id),
                None => Err(EFAULT),
            },
            None => Err(EFAULT),
        }
    }

    /// Reads the current backlog length of the socket at `address`.
    pub fn read_queue_length(&self, address: u64) -> (r: Result<u32, i64>)
        ensures
            r == length_read(self.sockets@, address),
    {
        match self.lookup(address) {
            Some(k) => match k.ack_backlog {
                Some(n) => Ok(n),
                None => Err(EFAULT),
            },
            None => Err(EFAULT),
        }
    }

    /// Reads the maximum backlog length of the socket at `address`.
    pub fn read_queue_max(&self, address: u64) -> (r: Result<u32, i64>)
        ensures
            r == max_read(self.sockets@, address),
    {
        match self.lookup(address) {
            Some(k) => match k.max_ack_backlog {
                Some(n) => Ok(n),
                None => Err(EFAULT),
            },
            None => Err(EFAULT),
        }
    }

    /// Runs one invocation of `hook` with the kernel function's arguments
    /// `args`, answering its reads from this image.
    pub fn run(&self, hook: HookKind, args: &Vec<u64>) -> (r: Report)
        ensures
            r.code == run_spec(hook, args@, self.sockets@).0,
            text_of(r.record) == run_spec(hook, args@, self.sockets@).1,
            r.reads@ == run_spec(hook, args@, self.sockets@).2,
    {
        let mut reads: Vec<ReadKind> = Vec::new();
        let (state, action) = start(hook, args);
        match action {
            Action::ReadIdentity { socket } => {
                reads.push(ReadKind::Identity);
                let (state, action) = step(hook, state, Event::Identity(self.read_identity(socket)));
                match action {
                    Action::ReadQueueLength { socket } => {
                        reads.push(ReadKind::QueueLength);
                        let ev = Event::QueueLength(self.read_queue_length(socket));
                        let (state, action) = step(hook, state, ev);
                        match action {
                            Action::ReadQueueMax { socket } => {
                                reads.push(ReadKind::QueueMax);
                                let ev = Event::QueueMax(self.read_queue_max(socket));
                                let (_state, action) = step(hook, state, ev);
                                proof {
                                    assert(reads@ =~= run_spec(hook, args@, self.sockets@).2);
                                }
                                report(action, reads)
                            },
                            _ => {
                                assert(reads@ =~= run_spec(hook, args@, self.sockets@).2);
                                report(action, reads)
                            },
                        }
                    },
                    _ => {
                        assert(reads@ =~= run_spec(hook, args@, self.sockets@).2);
                        report(action, reads)
                    },
                }
            },
            _ => {
                assert(reads@ =~= run_spec(hook, args@, self.sockets@).2);
                report(action, reads)
            },
        }
    }
}

/// An identity whose family is neither `AF_INET` nor `AF_INET6` is skipped:
/// the invocation emits no record and, when every read it asks for succeeds,
/// returns `HOOK_OK`.
pub proof fn lemma_unsupported_family_skipped(
    hook: HookKind,
    args: Seq<u64>,
    s: Seq<KernelSocket>,
)
    requires
        socket_of(hook, args) is Some,
        identity_read(s, socket_of(hook, args)->Some_0) is Ok,
        identity_read(s, socket_of(hook, args)->Some_0)->Ok_0.family != AF_INET,
        identity_read(s, socket_of(hook, args)->Some_0)->Ok_0.family != AF_INET6,
    ensures
        run_spec(hook, args, s).1 is None,
        ({
            let socket = socket_of(hook, args)->Some_0;
            !hook.reads_queue_spec() || (length_read(s, socket) is Ok && max_read(s, socket) is Ok)
        }) ==> run_spec(hook, args, s).0 == HOOK_OK,
{
}

/// A failed identity read ends the invocation at once: no queue read is
/// attempted, the outcome is `HOOK_FAILED` and no record is emitted.
pub proof fn lemma_identity_failure_stops(hook: HookKind, args: Seq<u64>, s: Seq<KernelSocket>)
    requires
        socket_of(hook, args) is Some,
        identity_read(s, socket_of(hook, args)->Some_0) is Err,
    ensures
        run_spec(hook, args, s) == (HOOK_FAILED, None::<Seq<char>>, seq![ReadKind::Identity]),
{
}

/// A queue-aware invocation whose reads all succeed reads each counter once
/// and reports exactly the values stored in the socket.
pub proof fn lemma_queue_counters_reported(hook: HookKind, args: Seq<u64>, s: Seq<KernelSocket>)
    requires
        hook.reads_queue_spec(),
        socket_of(hook, args) is Some,
        identity_read(s, socket_of(hook, args)->Some_0) is Ok,
        length_read(s, socket_of(hook, args)->Some_0) is Ok,
        max_read(s, socket_of(hook, args)->Some_0) is Ok,
    ensures
        ({
            let socket = socket_of(hook, args)->Some_0;
            let q = QueueSnapshot {
                current_length: length_read(s, socket)->Ok_0,
                maximum_length: max_read(s, socket)->Ok_0,
            };
            &&& run_spec(hook, args, s).0 == HOOK_OK
            &&& run_spec(hook, args, s).1 == final_record(identity_read(s, socket)->Ok_0, Some(q))
            &&& run_spec(hook, args, s).2 == seq![
                ReadKind::Identity,
                ReadKind::QueueLength,
                ReadKind::QueueMax,
            ]
        }),
{
}

/// Invocations are isolated: what an invocation reports depends only on its
/// hook, its arguments and the socket at its argument, so no content of other
/// sockets can alter it.
pub proof fn lemma_invocations_isolated(
    hook: HookKind,
    args: Seq<u64>,
    s1: Seq<KernelSocket>,
    s2: Seq<KernelSocket>,
)
    requires
        socket_of(hook, args) is Some ==> find(s1, socket_of(hook, args)->Some_0) == find(
            s2,
            socket_of(hook, args)->Some_0,
        ),
    ensures
        run_spec(hook, args, s1) == run_spec(hook, args, s2),
{
}

fn report(action: Action, reads: Vec<ReadKind>) -> (r: Report)
    requires
        action is Finish,
    ensures
        r.code == action->Finish_code,
        text_of(r.record) == text_of(action->Finish_record),
        r.reads == reads,
{
    match action {
        Action::Finish { code, record } => Report { code, record, reads },
        _ => Report { code: HOOK_FAILED, record: None, reads },
    }
}

} // verus!
