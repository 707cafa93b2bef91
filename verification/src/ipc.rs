//! Plain data exchanged between clients and the server.

use vstd::prelude::*;
use crate::grid::Ent;

verus! {

/// The identity of a connected client.
#[derive(Debug, Clone, Copy, PartialEq, Eq, Structural, Hash)]
pub struct ClientId(pub u64);

/// Who sent a message.
#[derive(Debug, Clone, Copy, PartialEq, Eq, Structural)]
pub enum MessageSource {
    Server,
    Client(ClientId),
}

/// How a message is meant to be taken.
#[derive(Debug, Clone, Copy, PartialEq, Eq, Structural)]
pub enum MessageLevel {
    Telemetry,
    Command,
    Response,
}

/// Information each client sends to the server regularly.
#[derive(Debug, Clone, Copy, PartialEq, Eq, Structural)]
pub struct ClientTelemetry {
    pub ticks: u64,
}

/// Hashes of a few key tables, sent to detect desynchronized clients.
#[derive(Debug, Clone, Copy, PartialEq, Eq, Structural)]
pub struct SyncFrame {
    pub next_id: Ent,
    pub tick: u64,
    pub grids: u128,
    pub inventories: u128,
    pub thrusters: u128,
}

} // verus!
