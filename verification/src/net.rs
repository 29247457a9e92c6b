use vstd::prelude::*;

use crate::config::{scaled, Intensity};
use crate::mem::at_least;

verus! {

/// Port used when none (0) is given.
pub const DEFAULT_PORT: u16 = 19456;
/// Most concurrent loopback clients per round.
pub const MAX_CLIENTS: usize = 32;
/// 127.0.0.1 as a number, the first octet most significant.
pub const LOOPBACK: u32 = 0x7f00_0001;
/// Payload writes per client connection.
pub const WRITES_PER_CLIENT: usize = 64;

/// Parameters of the loopback network stress (127.0.0.1 only).
#[derive(Debug, Clone, Copy, PartialEq, Eq, Structural)]
pub struct NetPlan {
    /// The IPv4 address that is bound and connected to, as a number (the first octet
    /// most significant): always `LOOPBACK`, 127.0.0.1.
    pub host: u32,
    pub port: u16,
    pub payload_size: usize,
    pub clients: usize,
}

/// The network stress parameters for a port (0 = default), intensity and thread count.
pub open spec fn net_plan_of(port: u16, level: nat, threads: usize) -> NetPlan {
    NetPlan {
        host: LOOPBACK,
        port: if port == 0 { DEFAULT_PORT } else { port },
        payload_size: at_least(scaled(32768, level), 4096) as usize,
        clients: if threads > MAX_CLIENTS { MAX_CLIENTS } else if threads < 1 { 1 } else { threads },
    }
}

/// The network stress parameters (see `net_plan_of`): loopback only, the default
/// port for 0, a payload of `max(scale(32 KiB), 4 KiB)` and 1 to 32 clients.
pub fn net_plan(intensity: Intensity, port: u16, threads: usize) -> (r: NetPlan)
    ensures
        r == net_plan_of(port, intensity.0 as nat, threads),
{
    let payload = intensity.scale_usize(32768);
    let clients = if threads > MAX_CLIENTS {
        MAX_CLIENTS
    } else if threads < 1 {
        1
    } else {
        threads
    };
    NetPlan {
        host: LOOPBACK,
        port: if port == 0 { DEFAULT_PORT } else { port },
        payload_size: if payload < 4096 { 4096 } else { payload },
        clients,
    }
}

/// Law: the network stress runs one client per worker thread, at least one and at
/// most 32; it uses the given port, or the default one for 0; it only ever addresses
/// 127.0.0.1; and each payload is at least 4 KiB.
pub proof fn law_net_clients_follow_threads(port: u16, level: nat, threads: usize)
    ensures
        1 <= threads <= MAX_CLIENTS ==> net_plan_of(port, level, threads).clients == threads,
        threads == 0 ==> net_plan_of(port, level, threads).clients == 1,
        threads > MAX_CLIENTS ==> net_plan_of(port, level, threads).clients == MAX_CLIENTS,
        port != 0 ==> net_plan_of(port, level, threads).port == port,
        port == 0 ==> net_plan_of(port, level, threads).port == DEFAULT_PORT,
        net_plan_of(port, level, threads).host == LOOPBACK,
        net_plan_of(port, level, threads).payload_size >= 4096,
{
}

} // verus!
