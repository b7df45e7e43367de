//! The socket provisioner's plan.
//!
//! For a listen endpoint, a transport and a worker count N, the provisioner
//! creates N sockets, every one bound to the same endpoint with address reuse
//! and port reuse enabled, so that the kernel distributes incoming work across
//! them. This module computes the plan — one socket specification per worker —
//! as plain data; the process applies each specification with the actual
//! socket calls.

use vstd::prelude::*;
use crate::addr::{domain, spec_domain, Endpoint, IpDomain};

verus! {

/// The listen backlog of every stream socket.
pub const BACKLOG: usize = 1024;

/// The transport a worker serves.
#[derive(Clone, Copy, Debug, PartialEq, Eq, Structural)]
pub enum Transport {
    Stream,
    Datagram,
}

/// How a worker's loop is driven: on one dedicated operating-system thread
/// with blocking calls, or as a cooperative task woken by readiness events.
#[derive(Clone, Copy, Debug, PartialEq, Eq, Structural)]
pub enum Scheduling {
    DedicatedThread,
    Cooperative,
}

/// The options set on one socket before it is handed to its worker.
#[derive(Clone, Copy, Debug, PartialEq, Eq)]
pub struct SocketConfig {
    /// Allow rebinding the address; always on.
    pub reuse_address: bool,
    /// Allow N sockets on one address with kernel load sharing; always on.
    pub reuse_port: bool,
    /// On exactly for cooperatively scheduled workers, whose poller must never
    /// be blocked by one socket.
    pub non_blocking: bool,
    /// The listen backlog; present exactly for stream sockets, which listen
    /// after binding. Datagram sockets only bind.
    pub backlog: Option<usize>,
}

/// The socket options for one transport under one scheduling choice.
pub open spec fn spec_socket_config(transport: Transport, scheduling: Scheduling) -> SocketConfig {
    SocketConfig {
        reuse_address: true,
        reuse_port: true,
        non_blocking: scheduling is Cooperative,
        backlog: if transport is Stream {
            Some(BACKLOG)
        } else {
            None
        },
    }
}

/// Computes the socket options for one transport under one scheduling choice:
/// address reuse and port reuse are always enabled, non-blocking mode exactly
/// for cooperative scheduling, and a backlog of [`BACKLOG`] exactly for the
/// stream transport.
pub fn socket_config(transport: Transport, scheduling: Scheduling) -> (config: SocketConfig)
    ensures
        config == spec_socket_config(transport, scheduling),
{
    SocketConfig {
        reuse_address: true,
        reuse_port: true,
        non_blocking: match scheduling {
            Scheduling::Cooperative => true,
            Scheduling::DedicatedThread => false,
        },
        backlog: match transport {
            Transport::Stream => Some(BACKLOG),
            Transport::Datagram => None,
        },
    }
}

/// Everything the process needs to create and bind one worker's socket.
#[derive(Clone, Copy, Debug, PartialEq, Eq)]
pub struct SocketSpec {
    /// The worker's ordinal among the workers of its transport, for
    /// diagnostics; `0..count`.
    pub ordinal: usize,
    /// The endpoint the socket is bound to; the same for every worker.
    pub endpoint: Endpoint,
    pub transport: Transport,
    /// The domain the socket is created in: the family of the endpoint's IP.
    pub domain: IpDomain,
    pub config: SocketConfig,
}

/// The specification of the socket with ordinal `i` in a plan.
pub open spec fn spec_socket_spec(
    e: Endpoint,
    transport: Transport,
    scheduling: Scheduling,
    i: int,
) -> SocketSpec {
    SocketSpec {
        ordinal: i as usize,
        endpoint: e,
        transport,
        domain: spec_domain(e),
        config: spec_socket_config(transport, scheduling),
    }
}

/// Computes the provisioning plan: one socket specification per worker, with
/// ordinals `0..count`, all bound to the same endpoint, all in the endpoint's
/// IP family, all with the options of [`socket_config`]. A count of zero
/// yields an empty plan — no sockets — and is not an error.
pub fn provision_plan(
    listen_addr: &Endpoint,
    transport: Transport,
    scheduling: Scheduling,
    count: usize,
) -> (plan: Vec<SocketSpec>)
    ensures
        plan@.len() == count,
        forall|i: int|
            0 <= i < count ==> plan@[i] == spec_socket_spec(
                *listen_addr,
                transport,
                scheduling,
                i,
            ),
        count == 0 ==> plan@ == Seq::<SocketSpec>::empty(),
{
    let mut plan: Vec<SocketSpec> = Vec::new();
    let mut id: usize = 0;
    while id < count
        invariant
            id <= count,
            plan@.len() == id,
            forall|i: int|
                0 <= i < id ==> plan@[i] == spec_socket_spec(*listen_addr, transport, scheduling, i),
        decreases count - id,
    {
        let spec = SocketSpec {
            ordinal: id,
            endpoint: *listen_addr,
            transport,
            domain: domain(listen_addr),
            config: socket_config(transport, scheduling),
        };
        plan.push(spec);
        id = id + 1;
    }
    proof {
        if count == 0 {
            assert(plan@ =~= Seq::<SocketSpec>::empty());
        }
    }
    plan
}

} // verus!
