//! The server's side of the conversation: which messages it takes, what
//! each command asks it to do, and what becomes of a client's request to
//! change the world.
//!
//! The server acknowledges every message before routing it; the caller
//! does the work an action names.

use vstd::prelude::*;
use crate::blob::TableIdent;
use crate::client_session::ClientRequest;
use crate::ipc::{ClientId, ClientTelemetry, MessageLevel, MessageSource};

verus! {

/// Where a message from a client goes: to the commands, or to the
/// telemetry the server keeps.
#[derive(Debug, Clone, PartialEq)]
pub enum ServerRoute<K> {
    Command(ClientId, K),
    Telemetry(ClientId, K),
}

/// Where a message goes: nowhere when it does not come from a client (it
/// is only warned about), else by its level. Responses are not taken by the
/// server and are left out.
pub open spec fn route_spec<K>(source: MessageSource, level: MessageLevel, kind: K) -> Option<ServerRoute<K>> {
    match source {
        MessageSource::Server => None,
        MessageSource::Client(id) => match level {
            MessageLevel::Telemetry => Some(ServerRoute::Telemetry(id, kind)),
            _ => Some(ServerRoute::Command(id, kind)),
        },
    }
}

/// Routes a message by its source and level.
pub fn route_message<K>(source: MessageSource, level: MessageLevel, kind: K) -> (r: Option<ServerRoute<K>>)
    requires
        source is Client ==> level != MessageLevel::Response,
    ensures
        r == route_spec(source, level, kind),
{
    match source {
        MessageSource::Server => None,
        MessageSource::Client(id) => match level {
            MessageLevel::Telemetry => Some(ServerRoute::Telemetry(id, kind)),
            _ => Some(ServerRoute::Command(id, kind)),
        },
    }
}

/// What the server does for a client's command.
#[derive(Debug, Clone, PartialEq)]
pub enum ServerAction<D> {
    /// Broadcast a pong.
    AcceptPing,
    /// Broadcast a reply to the text ([text_reply]).
    AcceptText(String),
    SetSimSpeed(u32),
    FindGridByName(String),
    ListGrids,
    ListPrototypes,
    ListParts,
    ListThrusters,
    ListComputers,
    /// Broadcast the server's statistics.
    ServerStatistics,
    /// Send one table's blob to the client.
    SendBlob(ClientId, TableIdent),
    /// Send every table's blob to the client.
    SendAllBlobs(ClientId),
    /// Apply a change to the world, then settle it with
    /// [after_request_delta].
    ApplyDelta(D),
    /// Answer that the command is not supported.
    Unsupported,
}

/// What the server does for each command of `client`.
pub open spec fn command_action<D>(client: ClientId, kind: ClientRequest<D>) -> ServerAction<D> {
    match kind {
        ClientRequest::Ping => ServerAction::AcceptPing,
        ClientRequest::Text(s) => ServerAction::AcceptText(s),
        ClientRequest::SetSimSpeed(s) => ServerAction::SetSimSpeed(s),
        ClientRequest::FindGridByName(n) => ServerAction::FindGridByName(n),
        ClientRequest::PrintEntityInfo(TableIdent::Grids) => ServerAction::ListGrids,
        ClientRequest::PrintEntityInfo(TableIdent::Protos) => ServerAction::ListPrototypes,
        ClientRequest::PrintEntityInfo(TableIdent::Parts) => ServerAction::ListParts,
        ClientRequest::PrintEntityInfo(TableIdent::Thrusters) => ServerAction::ListThrusters,
        ClientRequest::PrintEntityInfo(TableIdent::Computers) => ServerAction::ListComputers,
        ClientRequest::RequestServerStatistics => ServerAction::ServerStatistics,
        ClientRequest::ClientBlobRequest(t) => ServerAction::SendBlob(client, t),
        ClientRequest::ClientBlobRequestAll => ServerAction::SendAllBlobs(client),
        ClientRequest::RequestDelta(d) => ServerAction::ApplyDelta(d),
        _ => ServerAction::Unsupported,
    }
}

/// The action for a command of `client`.
pub fn dispatch_command<D>(client: ClientId, kind: ClientRequest<D>) -> (a: ServerAction<D>)
    ensures
        a == command_action(client, kind),
{
    match kind {
        ClientRequest::Ping => ServerAction::AcceptPing,
        ClientRequest::Text(s) => ServerAction::AcceptText(s),
        ClientRequest::SetSimSpeed(s) => ServerAction::SetSimSpeed(s),
        ClientRequest::FindGridByName(n) => ServerAction::FindGridByName(n),
        ClientRequest::PrintEntityInfo(TableIdent::Grids) => ServerAction::ListGrids,
        ClientRequest::PrintEntityInfo(TableIdent::Protos) => ServerAction::ListPrototypes,
        ClientRequest::PrintEntityInfo(TableIdent::Parts) => ServerAction::ListParts,
        ClientRequest::PrintEntityInfo(TableIdent::Thrusters) => ServerAction::ListThrusters,
        ClientRequest::PrintEntityInfo(TableIdent::Computers) => ServerAction::ListComputers,
        ClientRequest::RequestServerStatistics => ServerAction::ServerStatistics,
        ClientRequest::ClientBlobRequest(t) => ServerAction::SendBlob(client, t),
        ClientRequest::ClientBlobRequestAll => ServerAction::SendAllBlobs(client),
        ClientRequest::RequestDelta(d) => ServerAction::ApplyDelta(d),
        _ => ServerAction::Unsupported,
    }
}

/// The telemetry a client's telemetry message brings, to be kept under
/// that client; other telemetry messages bring none.
pub fn telemetry_record<D>(client: ClientId, kind: ClientRequest<D>) -> (r: Option<(ClientId, ClientTelemetry)>)
    ensures
        r == (match kind {
            ClientRequest::ClientTelemetry(t) => Some((client, t)),
            _ => None,
        }),
{
    match kind {
        ClientRequest::ClientTelemetry(t) => Some((client, t)),
        _ => None,
    }
}

/// The server's reply to a text: `Here king, you dropped this: "text"`.
pub open spec fn reply_text(s: Seq<char>) -> Seq<char> {
    "Here king, you dropped this: \""@ + s + "\""@
}

/// The reply to a text a client sent.
pub fn text_reply(s: &str) -> (r: String)
    ensures
        r@ == reply_text(s@),
{
    let mut r = "Here king, you dropped this: \"".to_owned();
    r.append(s);
    r.append("\"");
    r
}

/// A change to the world that was applied, with the tick and the sender.
#[derive(Debug, Clone)]
pub struct DeltaLog<D> {
    pub tick: u64,
    pub source: MessageSource,
    pub delta: D,
}

/// What becomes of a requested change to the world.
#[derive(Debug, Clone)]
pub enum DeltaOutcome<D, E> {
    /// It was applied: queue `queued` for the clients and record `log`.
    Applied { queued: D, log: DeltaLog<D> },
    /// It failed: log the error; nothing is queued.
    Failed(E),
}

/// Settles a requested change to the world once the world tried to apply
/// it: an applied change is queued for the clients and recorded with the
/// tick and the sender; a failed one gives its error, and nothing is
/// queued.
pub fn after_request_delta<D: Clone, E>(applied: Result<(), E>, tick: u64, source: MessageSource, delta: D) -> (r: DeltaOutcome<D, E>)
    ensures
        match applied {
            Ok(()) => r matches DeltaOutcome::Applied { queued, log } && cloned(delta, queued) && log == (DeltaLog {
                tick,
                source,
                delta,
            }),
            Err(e) => r == DeltaOutcome::<D, E>::Failed(e),
        },
{
    match applied {
        Ok(()) => {
            let queued = delta.clone();
            DeltaOutcome::Applied { queued, log: DeltaLog { tick, source, delta } }
        },
        Err(e) => DeltaOutcome::Failed(e),
    }
}

/// The table a listing action lists, if it is one.
pub open spec fn listed_table<D>(a: ServerAction<D>) -> Option<TableIdent> {
    match a {
        ServerAction::ListGrids => Some(TableIdent::Grids),
        ServerAction::ListPrototypes => Some(TableIdent::Protos),
        ServerAction::ListParts => Some(TableIdent::Parts),
        ServerAction::ListThrusters => Some(TableIdent::Thrusters),
        ServerAction::ListComputers => Some(TableIdent::Computers),
        _ => None,
    }
}

/// Asking for the entities of a table lists that very table, for the grids,
/// prototypes, parts, thrusters and computers, and is unsupported for the
/// others; so two different tables never give the same listing.
pub proof fn lemma_listing_lists_the_table<D>(client: ClientId, t: TableIdent, t2: TableIdent)
    ensures
        (t is Grids || t is Protos || t is Parts || t is Thrusters || t is Computers) ==> listed_table(
            command_action(client, ClientRequest::<D>::PrintEntityInfo(t)),
        ) == Some(t),
        !(t is Grids || t is Protos || t is Parts || t is Thrusters || t is Computers) ==> command_action(
            client,
            ClientRequest::<D>::PrintEntityInfo(t),
        ) == ServerAction::<D>::Unsupported,
        t != t2 && command_action(client, ClientRequest::<D>::PrintEntityInfo(t)) == command_action(
            client,
            ClientRequest::<D>::PrintEntityInfo(t2),
        ) ==> command_action(client, ClientRequest::<D>::PrintEntityInfo(t)) == ServerAction::<D>::Unsupported,
{
}

/// Blobs go to the client that asked for them, the table asked for or all
/// of them; a requested change, a text, a speed or a name is passed on as
/// sent; a ping is answered with a pong and a statistics request with the
/// statistics; what a client only says, introduces or reports is not a
/// command the server takes.
pub proof fn lemma_commands_answer_the_sender<D>(client: ClientId, t: TableIdent, d: D, text: String, speed: u32, un: String)
    ensures
        command_action(client, ClientRequest::<D>::ClientBlobRequest(t)) == ServerAction::<D>::SendBlob(client, t),
        command_action(client, ClientRequest::<D>::ClientBlobRequestAll) == ServerAction::<D>::SendAllBlobs(client),
        command_action(client, ClientRequest::<D>::RequestDelta(d)) == ServerAction::<D>::ApplyDelta(d),
        command_action(client, ClientRequest::<D>::Text(text)) == ServerAction::<D>::AcceptText(text),
        command_action(client, ClientRequest::<D>::SetSimSpeed(speed)) == ServerAction::<D>::SetSimSpeed(speed),
        command_action(client, ClientRequest::<D>::FindGridByName(text)) == ServerAction::<D>::FindGridByName(text),
        command_action(client, ClientRequest::<D>::Ping) == ServerAction::<D>::AcceptPing,
        command_action(client, ClientRequest::<D>::RequestServerStatistics) == ServerAction::<D>::ServerStatistics,
        command_action(client, ClientRequest::<D>::ClientSays(text)) == ServerAction::<D>::Unsupported,
        command_action(client, ClientRequest::<D>::Introduction { username: un }) == ServerAction::<D>::Unsupported,
        command_action(client, ClientRequest::<D>::BeginAsyncWorldDownload) == ServerAction::<D>::Unsupported,
{
}

/// Only a client's messages are taken: the server's own are dropped, a
/// client's telemetry goes to the telemetry and never to the commands, and
/// its commands go to the commands, each under the client that sent it.
pub proof fn lemma_routing_by_sender<K>(id: ClientId, level: MessageLevel, kind: K)
    ensures
        route_spec(MessageSource::Server, level, kind) is None,
        route_spec(MessageSource::Client(id), MessageLevel::Telemetry, kind) == Some(ServerRoute::Telemetry(id, kind)),
        route_spec(MessageSource::Client(id), MessageLevel::Command, kind) == Some(ServerRoute::Command(id, kind)),
{
}

} // verus!
