use bary::blob::TableIdent;
use bary::client_session::{
    on_server_event, terminal_effect, AppState, ChatLine, ClientEffect, ClientRequest,
    ClientSession, ServerEvent, TerminalEffect,
};
use bary::grid::Ent;
use bary::ipc::{ClientId, ClientTelemetry, MessageLevel, MessageSource};
use bary::server_dispatch::{
    after_request_delta, dispatch_command, route_message, telemetry_record, text_reply,
    DeltaOutcome, ServerAction, ServerRoute,
};
use bary::world_commands::{TermCmd, WorldDelta};

type Ev = ServerEvent<u8, u8, ()>;
type Eff = ClientEffect<u8, u8, ()>;

fn session() -> ClientSession<Vec<u8>> {
    ClientSession::new("sally".to_string(), vec![1, 2, 3])
}

#[test]
fn handshake_steps() {
    let s = session();
    assert_eq!(s.state, AppState::Loading(0, 1000, "Hello there!".to_string()));
    let (s, e): (_, Vec<Eff>) = on_server_event(s, Ev::WhoGoesThere, vec![]);
    assert!(matches!(&e[..], [ClientEffect::Send(ClientRequest::Introduction { username })] if username == "sally"));
    let (s, e): (_, Vec<Eff>) = on_server_event(s, Ev::TakeYourHatOff, vec![]);
    assert!(s.handshake_complete && e.is_empty());
    let (s, e): (_, Vec<Eff>) = on_server_event(s, Ev::HaveNewSave, vec![9]);
    assert!(matches!(&e[..], [ClientEffect::Send(ClientRequest::BeginAsyncWorldDownload)]));
    assert!(s.download.is_some());
    let (s, e): (_, Vec<Eff>) = on_server_event(s, Ev::BlobResponse(7), vec![]);
    assert!(matches!(&e[..], [ClientEffect::UnpackBlob(7)]));
    let mut s = s;
    for t in TableIdent::all() {
        s.download.as_mut().unwrap().world_mut().push(t.name().len() as u8);
        let (next, e): (_, Vec<Eff>) = s.on_blob_unpacked(t, true);
        assert!(e.is_empty());
        s = next;
    }
    assert!(s.download.is_none());
    assert_eq!(s.world.len(), 15);
    let (s, _): (_, Vec<Eff>) = on_server_event(s, Ev::FinishWorldDownload, vec![]);
    assert_eq!(s.state, AppState::InWorld);
    let (s, e): (_, Vec<Eff>) = on_server_event(s, Ev::Kicked, vec![]);
    assert_eq!(s.state, AppState::Kicked);
    assert!(s.world.is_empty());
    assert!(matches!(&e[..], [ClientEffect::Disconnect]));
}

#[test]
fn blobs_without_download() {
    let (s, e): (_, Vec<Eff>) = on_server_event(session(), Ev::BlobResponse(1), vec![]);
    assert!(matches!(&e[..], [ClientEffect::NoDownloadUnderway]));
    let (_, e): (_, Vec<Eff>) = s.on_blob_unpacked(TableIdent::Grids, true);
    assert!(matches!(&e[..], [ClientEffect::NoDownloadUnderway]));
    let (_, e): (_, Vec<Eff>) = on_server_event(session(), Ev::MultiBlobResponse(Ent(5), 77, vec![3, 4]), vec![]);
    assert!(matches!(
        &e[..],
        [
            ClientEffect::WarnDeltaTicks(77),
            ClientEffect::SetWorldClock { next_id: Ent(5), ticks: 77 },
            ClientEffect::ReceiveBlob(3),
            ClientEffect::ReceiveBlob(4)
        ]
    ));
}

#[test]
fn chat_lines() {
    let (_, e): (_, Vec<Eff>) = on_server_event(session(), Ev::ChatMessage(ClientId(42), "hi".to_string()), vec![]);
    match &e[..] {
        [ClientEffect::Chat(l)] => assert_eq!(l.text(), "[ClientId(42)]: hi"),
        _ => panic!("expected a chat line"),
    }
    assert_eq!(ChatLine::Connected("bob".to_string()).text(), "bob just connected.");
    assert_eq!(ChatLine::Disconnected("bob".to_string()).text(), "bob just disconnected.");
    assert_eq!(ChatLine::Said(ClientId(0), "".to_string()).text(), "[ClientId(0)]: ");
    for ev in [Ev::Ack, Ev::Pong, Ev::ServerStatistics] {
        let (_, e): (_, Vec<Eff>) = on_server_event(session(), ev, vec![]);
        assert!(e.is_empty());
    }
    let (_, e): (_, Vec<Eff>) = on_server_event(session(), Ev::Unsupported, vec![]);
    assert!(matches!(&e[..], [ClientEffect::Unsupported]));
}

#[test]
fn terminal_commands_act() {
    type C = TermCmd<(), (), ()>;
    assert!(matches!(terminal_effect(C::Ping), TerminalEffect::Send(ClientRequest::Ping)));
    assert!(matches!(terminal_effect(C::Clear), TerminalEffect::ClearTerminal));
    assert!(matches!(terminal_effect(C::ClientReqAllBlobs), TerminalEffect::RequestDownload));
    assert!(matches!(
        terminal_effect(C::World(WorldDelta::DespawnGrid(Ent(3)))),
        TerminalEffect::Send(ClientRequest::RequestDelta(WorldDelta::DespawnGrid(Ent(3))))
    ));
    assert!(matches!(terminal_effect(C::ListSaves), TerminalEffect::Unsupported(TermCmd::ListSaves)));
    assert!(matches!(terminal_effect(C::ServerConnect), TerminalEffect::Reconnect));
}

#[test]
fn server_routing() {
    let c = MessageSource::Client(ClientId(2));
    assert_eq!(route_message(MessageSource::Server, MessageLevel::Command, 1u8), None);
    assert_eq!(route_message(c, MessageLevel::Command, 1u8), Some(ServerRoute::Command(ClientId(2), 1)));
    assert_eq!(route_message(c, MessageLevel::Telemetry, 1u8), Some(ServerRoute::Telemetry(ClientId(2), 1)));
    type R = ClientRequest<u8>;
    assert_eq!(dispatch_command(ClientId(2), R::PrintEntityInfo(TableIdent::Parts)), ServerAction::ListParts);
    assert_eq!(dispatch_command(ClientId(2), R::PrintEntityInfo(TableIdent::Pipes)), ServerAction::Unsupported);
    assert_eq!(dispatch_command(ClientId(2), R::ClientBlobRequestAll), ServerAction::SendAllBlobs(ClientId(2)));
    assert_eq!(dispatch_command(ClientId(2), R::RequestDelta(4)), ServerAction::ApplyDelta(4));
    assert_eq!(dispatch_command(ClientId(2), R::ClientSays("x".to_string())), ServerAction::Unsupported);
    assert_eq!(
        telemetry_record(ClientId(2), R::ClientTelemetry(ClientTelemetry { ticks: 9 })),
        Some((ClientId(2), ClientTelemetry { ticks: 9 }))
    );
    assert_eq!(telemetry_record(ClientId(2), R::Ping), None);
    assert_eq!(text_reply("hi"), "Here king, you dropped this: \"hi\"");
}

#[test]
fn requested_deltas() {
    let c = MessageSource::Client(ClientId(2));
    match after_request_delta::<u8, String>(Ok(()), 40, c, 6) {
        DeltaOutcome::Applied { queued, log } => {
            assert_eq!(queued, 6);
            assert_eq!((log.tick, log.source, log.delta), (40, c, 6));
        }
        DeltaOutcome::Failed(_) => panic!("expected it applied"),
    }
    assert!(matches!(after_request_delta::<u8, &str>(Err("no"), 40, c, 6), DeltaOutcome::Failed("no")));
}
