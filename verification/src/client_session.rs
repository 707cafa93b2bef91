//! The client's side of the conversation with a server: the handshake,
//! world downloads, chat lines, and what the terminal's commands ask of the
//! server.
//!
//! The session decides; the caller does the work it asks for in the
//! effects it returns (sending, unpacking a blob into the download's world,
//! applying world changes) and reports back what came of it.

use vstd::prelude::*;
use crate::blob::TableIdent;
use crate::download::{failed_status, got_status, AsyncWorldDownload};
use crate::grid::Ent;
use crate::ipc::{ClientId, ClientTelemetry, SyncFrame};
use crate::world_commands::{TermCmd, WorldDelta};

verus! {

/// What a client asks of the server.
#[derive(Debug, Clone, PartialEq)]
pub enum ClientRequest<D> {
    Introduction { username: String },
    BeginAsyncWorldDownload,
    ClientSays(String),
    Ping,
    Text(String),
    SetSimSpeed(u32),
    FindGridByName(String),
    PrintEntityInfo(TableIdent),
    RequestServerStatistics,
    ClientBlobRequest(TableIdent),
    ClientBlobRequestAll,
    RequestDelta(D),
    ClientTelemetry(ClientTelemetry),
}

/// What the server tells a client; `B` is the type of a table's blob, `D`
/// of a world change and `P` of the players' table.
#[derive(Debug, Clone)]
pub enum ServerEvent<B, D, P> {
    ChatMessage(ClientId, String),
    Driver { ticks: u64, deltas: Vec<D>, players: P },
    BlobResponse(B),
    MultiBlobResponse(Ent, u64, Vec<B>),
    FinishWorldDownload,
    SyncFrame(SyncFrame),
    HaveNewSave,
    Kicked,
    WhoGoesThere,
    TakeYourHatOff,
    PlayerConnected(String),
    PlayerDisconnected(String),
    Ack,
    Pong,
    ServerStatistics,
    /// Anything else the server may send.
    Unsupported,
}

/// A line for the chat.
#[derive(Debug, Clone, PartialEq, Eq)]
pub enum ChatLine {
    Said(ClientId, String),
    Connected(String),
    Disconnected(String),
}

/// The decimal digits of `n`.
pub open spec fn decimal_text(n: nat) -> Seq<char>
    decreases n,
{
    if n < 10 {
        seq![(48 + n) as char]
    } else {
        decimal_text(n / 10).push((48 + n % 10) as char)
    }
}

/// The text of a chat line: `[ClientId(n)]: text`, `name just connected.`,
/// `name just disconnected.`.
pub open spec fn chat_text(l: ChatLine) -> Seq<char> {
    match l {
        ChatLine::Said(id, t) => "[ClientId("@ + decimal_text(id.0 as nat) + ")]: "@ + t@,
        ChatLine::Connected(u) => u@ + " just connected."@,
        ChatLine::Disconnected(u) => u@ + " just disconnected."@,
    }
}

/// Calls the `Display` of `u64`: its decimal digits.
#[verifier::external_body]
fn u64_text(n: u64) -> (s: String)
    ensures
        s@ == decimal_text(n as nat),
{
    format!("{}", n)
}

impl ChatLine {
    /// The text of this line.
    pub fn text(&self) -> (s: String)
        ensures
            s@ == chat_text(*self),
    {
        match self {
            ChatLine::Said(id, t) => {
                let mut s = "[ClientId(".to_owned();
                s.append(u64_text(id.0).as_str());
                s.append(")]: ");
                s.append(t.as_str());
                s
            },
            ChatLine::Connected(u) => {
                let mut s = u.clone();
                s.append(" just connected.");
                s
            },
            ChatLine::Disconnected(u) => {
                let mut s = u.clone();
                s.append(" just disconnected.");
                s
            },
        }
    }
}

/// What the session asks the caller to do.
#[derive(Debug, Clone)]
pub enum ClientEffect<B, D, P> {
    /// Send a request to the server.
    Send(ClientRequest<D>),
    /// Add a line to the chat.
    Chat(ChatLine),
    /// Bring the world up to `ticks`, applying and logging the changes, and
    /// take the players' table.
    ApplyDriver { ticks: u64, deltas: Vec<D>, players: P },
    /// Warn how far the world's clock is from `ticks`.
    WarnDeltaTicks(u64),
    /// Set the world's next entity handle and its clock.
    SetWorldClock { next_id: Ent, ticks: u64 },
    /// Handle this blob as if the server had just sent it.
    ReceiveBlob(B),
    /// Unpack this blob into the download's world and report the outcome
    /// to [ClientSession::on_blob_unpacked].
    UnpackBlob(B),
    /// Report that a blob came with no download underway.
    NoDownloadUnderway,
    /// Disconnect from the server.
    Disconnect,
    /// Report a message the client does not handle.
    Unsupported,
}

/// Where the client application is.
#[derive(Debug, Clone, PartialEq, Eq)]
pub enum AppState {
    Loading(u32, u32, String),
    MainMenu,
    ListSaves,
    InWorld,
    Kicked,
    Settings,
}

/// The client's side of the conversation: where it is, who it is, its
/// world, whether the server has let it in, and the download underway.
pub struct ClientSession<W> {
    pub state: AppState,
    pub username: String,
    pub world: W,
    pub handshake_complete: bool,
    pub download: Option<AsyncWorldDownload<W>>,
}

impl<W> ClientSession<W> {
    /// The download underway, if any, is well formed.
    pub open spec fn wf(&self) -> bool {
        self.download matches Some(d) ==> d.wf()
    }
}

/// What a message from the server does to the session and asks of the
/// caller, when it does not start a download:
/// - a chat message, a player connecting or leaving: a chat line;
/// - a driver packet: the world is brought up to it;
/// - a blob: unpacked into the download's world when one is underway;
/// - several blobs: the clock is set, and each is handled in turn;
/// - the end of a download: into the world;
/// - kicked: disconnect, the state is kicked, and the world is `empty`;
/// - who goes there: an introduction with the user's name;
/// - take your hat off: the handshake is complete;
/// - acknowledgements, pongs, statistics and sync frames: nothing;
/// - anything else: reported as unsupported.
pub open spec fn client_step<W, B, D, P>(
    s: ClientSession<W>,
    ev: ServerEvent<B, D, P>,
    empty: W,
) -> (ClientSession<W>, Seq<ClientEffect<B, D, P>>) {
    match ev {
        ServerEvent::ChatMessage(id, t) => (s, seq![ClientEffect::Chat(ChatLine::Said(id, t))]),
        ServerEvent::Driver { ticks, deltas, players } => (
            s,
            seq![ClientEffect::ApplyDriver { ticks, deltas, players }],
        ),
        ServerEvent::BlobResponse(b) => (
            s,
            if s.download is Some { seq![ClientEffect::UnpackBlob(b)] } else { seq![ClientEffect::NoDownloadUnderway] },
        ),
        ServerEvent::MultiBlobResponse(next_id, ticks, blobs) => (
            s,
            seq![ClientEffect::WarnDeltaTicks(ticks), ClientEffect::SetWorldClock { next_id, ticks }]
                + blobs@.map_values(|b: B| ClientEffect::<B, D, P>::ReceiveBlob(b)),
        ),
        ServerEvent::FinishWorldDownload => (ClientSession { state: AppState::InWorld, ..s }, Seq::empty()),
        ServerEvent::Kicked => (
            ClientSession { state: AppState::Kicked, world: empty, ..s },
            seq![ClientEffect::Disconnect],
        ),
        ServerEvent::WhoGoesThere => (
            s,
            seq![ClientEffect::Send(ClientRequest::Introduction { username: s.username })],
        ),
        ServerEvent::TakeYourHatOff => (ClientSession { handshake_complete: true, ..s }, Seq::empty()),
        ServerEvent::PlayerConnected(u) => (s, seq![ClientEffect::Chat(ChatLine::Connected(u))]),
        ServerEvent::PlayerDisconnected(u) => (s, seq![ClientEffect::Chat(ChatLine::Disconnected(u))]),
        ServerEvent::Unsupported => (s, seq![ClientEffect::Unsupported]),
        _ => (s, Seq::empty()),
    }
}

/// `t` is `s` with a fresh download into `empty` started, and the server
/// asked for the world.
pub open spec fn download_started<W, B, D, P>(
    s: ClientSession<W>,
    empty: W,
    t: ClientSession<W>,
    effects: Seq<ClientEffect<B, D, P>>,
) -> bool {
    &&& t.state == s.state
    &&& t.username == s.username
    &&& t.world == s.world
    &&& t.handshake_complete == s.handshake_complete
    &&& t.download matches Some(d) && d.wf() && d@.completed == Set::<TableIdent>::empty() && d@.expected == 14
        && d@.status == "Requesting world from server..."@ && !d@.failed && d.spec_world() == empty
    &&& effects == seq![ClientEffect::<B, D, P>::Send(ClientRequest::BeginAsyncWorldDownload)]
}

impl<W> ClientSession<W> {
    /// A session that is loading, with no world downloaded and no
    /// handshake yet.
    pub fn new(username: String, world: W) -> (s: Self)
        ensures
            s.state == AppState::Loading(0, 1000, s.state->Loading_2),
            s.state->Loading_2@ == "Hello there!"@,
            s.username == username,
            s.world == world,
            !s.handshake_complete,
            s.download is None,
    {
        ClientSession {
            state: AppState::Loading(0, 1000, "Hello there!".to_owned()),
            username,
            world,
            handshake_complete: false,
            download: None,
        }
    }

    /// Asks the server for the whole world, and starts a download into
    /// `empty`.
    pub fn request_world_download<B, D, P>(self, empty: W) -> (r: (Self, Vec<ClientEffect<B, D, P>>))
        ensures
            download_started(self, empty, r.0, r.1@),
    {
        let d = AsyncWorldDownload::new(empty);
        let mut effects: Vec<ClientEffect<B, D, P>> = Vec::new();
        effects.push(ClientEffect::Send(ClientRequest::BeginAsyncWorldDownload));
        let s = ClientSession { download: Some(d), ..self };
        (s, effects)
    }
}

/// One message from the server: a new save starts a download into `empty`
/// and asks the server for the world; every other message is as
/// [client_step] says.
pub fn on_server_event<W, B, D, P>(s: ClientSession<W>, ev: ServerEvent<B, D, P>, empty: W) -> (r: (
    ClientSession<W>,
    Vec<ClientEffect<B, D, P>>,
))
    ensures
        ev is HaveNewSave ==> download_started(s, empty, r.0, r.1@),
        !(ev is HaveNewSave) ==> (r.0, r.1@) == client_step(s, ev, empty),
{
    let mut effects: Vec<ClientEffect<B, D, P>> = Vec::new();
    match ev {
        ServerEvent::ChatMessage(id, t) => {
            effects.push(ClientEffect::Chat(ChatLine::Said(id, t)));
            (s, effects)
        },
        ServerEvent::Driver { ticks, deltas, players } => {
            effects.push(ClientEffect::ApplyDriver { ticks, deltas, players });
            (s, effects)
        },
        ServerEvent::BlobResponse(b) => {
            if s.download.is_some() {
                effects.push(ClientEffect::UnpackBlob(b));
            } else {
                effects.push(ClientEffect::NoDownloadUnderway);
            }
            (s, effects)
        },
        ServerEvent::MultiBlobResponse(next_id, ticks, blobs) => {
            effects.push(ClientEffect::WarnDeltaTicks(ticks));
            effects.push(ClientEffect::SetWorldClock { next_id, ticks });
            let ghost head = effects@;
            let ghost bs = blobs@;
            let mut rest = blobs;
            let mut n: usize = 0;
            assert(bs.len() == rest.len());
            while rest.len() > 0
                invariant
                    bs.len() <= usize::MAX,
                    n + rest@.len() == bs.len(),
                    forall|k: int| 0 <= k < rest@.len() ==> #[trigger] rest@[k] == bs[n + k],
                    effects@ == head + bs.take(n as int).map_values(|b: B| ClientEffect::<B, D, P>::ReceiveBlob(b)),
                    head.len() == 2,
                decreases rest@.len(),
            {
                let b = rest.remove(0);
                effects.push(ClientEffect::ReceiveBlob(b));
                assert(bs.take(n + 1) =~= bs.take(n as int).push(bs[n as int]));
                assert(effects@ =~= head + bs.take(n + 1).map_values(|b: B| ClientEffect::<B, D, P>::ReceiveBlob(b)));
                n = n + 1;
            }
            assert(bs.take(n as int) =~= bs);
            (s, effects)
        },
        ServerEvent::FinishWorldDownload => (ClientSession { state: AppState::InWorld, ..s }, effects),
        ServerEvent::HaveNewSave => s.request_world_download(empty),
        ServerEvent::Kicked => {
            effects.push(ClientEffect::Disconnect);
            (ClientSession { state: AppState::Kicked, world: empty, ..s }, effects)
        },
        ServerEvent::WhoGoesThere => {
            effects.push(ClientEffect::Send(ClientRequest::Introduction { username: s.username.clone() }));
            (s, effects)
        },
        ServerEvent::TakeYourHatOff => (ClientSession { handshake_complete: true, ..s }, effects),
        ServerEvent::PlayerConnected(u) => {
            effects.push(ClientEffect::Chat(ChatLine::Connected(u)));
            (s, effects)
        },
        ServerEvent::PlayerDisconnected(u) => {
            effects.push(ClientEffect::Chat(ChatLine::Disconnected(u)));
            (s, effects)
        },
        ServerEvent::Unsupported => {
            effects.push(ClientEffect::Unsupported);
            (s, effects)
        },
        ServerEvent::SyncFrame(_) | ServerEvent::Ack | ServerEvent::Pong | ServerEvent::ServerStatistics => (s, effects),
    }
}

/// The tables received after a blob for `table` was unpacked or not.
pub open spec fn completed_after(c: Set<TableIdent>, table: TableIdent, unpacked: bool) -> Set<TableIdent> {
    if unpacked { c.insert(table) } else { c }
}

/// `t` is `s` after a blob for `table` was unpacked into the download's
/// world, or failed to be: with no download underway nothing changes and
/// this is reported; otherwise the download records the outcome, and once
/// every table has arrived its world replaces the session's world and the
/// download is over.
pub open spec fn blob_recorded<W, B, D, P>(
    s: ClientSession<W>,
    table: TableIdent,
    unpacked: bool,
    t: ClientSession<W>,
    effects: Seq<ClientEffect<B, D, P>>,
) -> bool {
    match s.download {
        None => t == s && effects == seq![ClientEffect::<B, D, P>::NoDownloadUnderway],
        Some(d) => {
            let completed = completed_after(d@.completed, table, unpacked);
            let done = forall|x: TableIdent| #[trigger] completed.contains(x);
            &&& effects == Seq::<ClientEffect<B, D, P>>::empty()
            &&& t.state == s.state
            &&& t.username == s.username
            &&& t.handshake_complete == s.handshake_complete
            &&& done ==> t.download is None && t.world == d.spec_world()
            &&& !done ==> {
                &&& t.world == s.world
                &&& t.download matches Some(d2) && d2.wf() && d2@.completed == completed
                    && d2@.expected == d@.expected && d2@.failed == (d@.failed || !unpacked)
                    && d2.spec_world() == d.spec_world()
                    && d2@.status == (if unpacked { got_status(table) } else { failed_status(table) })
            }
        },
    }
}

impl<W> ClientSession<W> {
    /// Records the outcome of unpacking a blob for `table` into the
    /// download's world; see [blob_recorded].
    pub fn on_blob_unpacked<B, D, P>(self, table: TableIdent, unpacked: bool) -> (r: (Self, Vec<ClientEffect<B, D, P>>))
        requires
            self.wf(),
        ensures
            r.0.wf(),
            blob_recorded(self, table, unpacked, r.0, r.1@),
    {
        let mut effects: Vec<ClientEffect<B, D, P>> = Vec::new();
        let ghost s0 = self;
        let ClientSession { state, username, world, handshake_complete, download } = self;
        match download {
            None => {
                effects.push(ClientEffect::NoDownloadUnderway);
                assert(effects@ =~= seq![ClientEffect::<B, D, P>::NoDownloadUnderway]);
                let t = ClientSession { state, username, world, handshake_complete, download: None };
                assert(t == s0);
                (t, effects)
            },
            Some(mut d) => {
                let ghost d0 = d;
                assert(effects@ =~= Seq::<ClientEffect<B, D, P>>::empty());
                d.add_blob(table, unpacked);
                assert(d@.completed == completed_after(d0@.completed, table, unpacked));
                if d.is_complete() {
                    let w = d.world();
                    (ClientSession { state, username, world: w, handshake_complete, download: None }, effects)
                } else {
                    (ClientSession { state, username, world, handshake_complete, download: Some(d) }, effects)
                }
            },
        }
    }
}

/// What a terminal command asks of the client.
#[derive(Debug, Clone)]
pub enum TerminalEffect<V, I, R> {
    /// Send a request to the server.
    Send(ClientRequest<WorldDelta<V, I, R>>),
    ClearTerminal,
    Exit,
    Reconnect,
    Disconnect,
    /// Warn of the request and start a download of the whole world
    /// ([ClientSession::request_world_download]).
    RequestDownload,
    Help,
    ToggleDebugMode,
    /// Report a command the client does not handle.
    Unsupported(TermCmd<V, I, R>),
}

/// What each terminal command asks of the client: most are sent on to the
/// server; clearing, exiting, connecting, disconnecting, help and the debug
/// mode act here; asking for all blobs starts a download; the commands about
/// saves and blob information are not handled by a client.
pub open spec fn terminal_effect_spec<V, I, R>(cmd: TermCmd<V, I, R>) -> TerminalEffect<V, I, R> {
    match cmd {
        TermCmd::Say(s) => TerminalEffect::Send(ClientRequest::ClientSays(s)),
        TermCmd::Ping => TerminalEffect::Send(ClientRequest::Ping),
        TermCmd::Clear => TerminalEffect::ClearTerminal,
        TermCmd::SetSimSpeed(speed) => TerminalEffect::Send(ClientRequest::SetSimSpeed(speed)),
        TermCmd::FindGridByName(name) => TerminalEffect::Send(ClientRequest::FindGridByName(name)),
        TermCmd::Exit => TerminalEffect::Exit,
        TermCmd::PrintEntityInfo(t) => TerminalEffect::Send(ClientRequest::PrintEntityInfo(t)),
        TermCmd::ServerConnect => TerminalEffect::Reconnect,
        TermCmd::ServerDisconnect => TerminalEffect::Disconnect,
        TermCmd::RequestServerStatistics => TerminalEffect::Send(ClientRequest::RequestServerStatistics),
        TermCmd::ClientReqBlob(t) => TerminalEffect::Send(ClientRequest::ClientBlobRequest(t)),
        TermCmd::ClientReqAllBlobs => TerminalEffect::RequestDownload,
        TermCmd::World(d) => TerminalEffect::Send(ClientRequest::RequestDelta(d)),
        TermCmd::Help => TerminalEffect::Help,
        TermCmd::ToggleDebugMode => TerminalEffect::ToggleDebugMode,
        _ => TerminalEffect::Unsupported(cmd),
    }
}

/// What a terminal command asks of the client.
pub fn terminal_effect<V, I, R>(cmd: TermCmd<V, I, R>) -> (e: TerminalEffect<V, I, R>)
    ensures
        e == terminal_effect_spec(cmd),
{
    match cmd {
        TermCmd::Say(s) => TerminalEffect::Send(ClientRequest::ClientSays(s)),
        TermCmd::Ping => TerminalEffect::Send(ClientRequest::Ping),
        TermCmd::Clear => TerminalEffect::ClearTerminal,
        TermCmd::SetSimSpeed(speed) => TerminalEffect::Send(ClientRequest::SetSimSpeed(speed)),
        TermCmd::FindGridByName(name) => TerminalEffect::Send(ClientRequest::FindGridByName(name)),
        TermCmd::Exit => TerminalEffect::Exit,
        TermCmd::PrintEntityInfo(t) => TerminalEffect::Send(ClientRequest::PrintEntityInfo(t)),
        TermCmd::ServerConnect => TerminalEffect::Reconnect,
        TermCmd::ServerDisconnect => TerminalEffect::Disconnect,
        TermCmd::RequestServerStatistics => TerminalEffect::Send(ClientRequest::RequestServerStatistics),
        TermCmd::ClientReqBlob(t) => TerminalEffect::Send(ClientRequest::ClientBlobRequest(t)),
        TermCmd::ClientReqAllBlobs => TerminalEffect::RequestDownload,
        TermCmd::World(d) => TerminalEffect::Send(ClientRequest::RequestDelta(d)),
        TermCmd::Help => TerminalEffect::Help,
        TermCmd::ToggleDebugMode => TerminalEffect::ToggleDebugMode,
        other => TerminalEffect::Unsupported(other),
    }
}

/// The client's part of the handshake: asked who goes there, it introduces
/// itself by its user name and changes nothing else; told to take its hat
/// off, the handshake is complete; asked to begin on a new save, it asks
/// for the world ([on_server_event]); at the end of the download it is in
/// the world; kicked, it disconnects and keeps no world.
pub proof fn lemma_handshake<W, B, D, P>(s: ClientSession<W>, empty: W)
    ensures
        client_step(s, ServerEvent::<B, D, P>::WhoGoesThere, empty) == (
            s,
            seq![ClientEffect::<B, D, P>::Send(ClientRequest::Introduction { username: s.username })],
        ),
        client_step(s, ServerEvent::<B, D, P>::TakeYourHatOff, empty).0.handshake_complete,
        client_step(s, ServerEvent::<B, D, P>::FinishWorldDownload, empty).0.state == AppState::InWorld,
        client_step(s, ServerEvent::<B, D, P>::Kicked, empty).0.state == AppState::Kicked,
        client_step(s, ServerEvent::<B, D, P>::Kicked, empty).0.world == empty,
        client_step(s, ServerEvent::<B, D, P>::Kicked, empty).1 == seq![ClientEffect::<B, D, P>::Disconnect],
{
}

/// A player's arrival or departure, or a chat message, leaves the session
/// as it was and adds exactly one chat line: "name just connected.",
/// "name just disconnected." or "[ClientId(n)]: text". An arrival is never
/// announced as a departure, nor the other way round.
pub proof fn lemma_chat_events<W, B, D, P>(s: ClientSession<W>, u: String, id: ClientId, t: String, empty: W)
    ensures
        client_step(s, ServerEvent::<B, D, P>::PlayerDisconnected(u), empty).0 == s,
        client_step(s, ServerEvent::<B, D, P>::PlayerDisconnected(u), empty).1.len() == 1,
        client_step(s, ServerEvent::<B, D, P>::PlayerDisconnected(u), empty).1[0] matches ClientEffect::Chat(l)
            && chat_text(l) == u@ + " just disconnected."@,
        client_step(s, ServerEvent::<B, D, P>::PlayerConnected(u), empty).0 == s,
        client_step(s, ServerEvent::<B, D, P>::PlayerConnected(u), empty).1.len() == 1,
        client_step(s, ServerEvent::<B, D, P>::PlayerConnected(u), empty).1[0] matches ClientEffect::Chat(l)
            && chat_text(l) == u@ + " just connected."@,
        client_step(s, ServerEvent::<B, D, P>::ChatMessage(id, t), empty).0 == s,
        client_step(s, ServerEvent::<B, D, P>::ChatMessage(id, t), empty).1.len() == 1,
        client_step(s, ServerEvent::<B, D, P>::ChatMessage(id, t), empty).1[0] matches ClientEffect::Chat(l)
            && chat_text(l) == "[ClientId("@ + decimal_text(id.0 as nat) + ")]: "@ + t@,
        u@ + " just connected."@ != u@ + " just disconnected."@,
{
    reveal_strlit(" just connected.");
    reveal_strlit(" just disconnected.");
    assert((u@ + " just connected."@).len() != (u@ + " just disconnected."@).len());
}

/// A blob from the server is unpacked into the download underway, or
/// reported when there is none; a batch of blobs first sets the world's
/// clock and then hands on every blob, in the order received; a driver
/// packet is applied as sent; acknowledgements, pongs, statistics and sync
/// frames ask for nothing. None of these changes the session.
pub proof fn lemma_blob_events<W, B, D, P>(
    s: ClientSession<W>,
    b: B,
    next_id: Ent,
    ticks: u64,
    blobs: Vec<B>,
    deltas: Vec<D>,
    players: P,
    frame: SyncFrame,
    empty: W,
)
    ensures
        client_step(s, ServerEvent::<B, D, P>::BlobResponse(b), empty).0 == s,
        s.download is Some ==> client_step(s, ServerEvent::<B, D, P>::BlobResponse(b), empty).1 == seq![
            ClientEffect::<B, D, P>::UnpackBlob(b),
        ],
        s.download is None ==> client_step(s, ServerEvent::<B, D, P>::BlobResponse(b), empty).1 == seq![
            ClientEffect::<B, D, P>::NoDownloadUnderway,
        ],
        ({
            let r = client_step(s, ServerEvent::<B, D, P>::MultiBlobResponse(next_id, ticks, blobs), empty);
            &&& r.0 == s
            &&& r.1.len() == blobs@.len() + 2
            &&& r.1[0] == ClientEffect::<B, D, P>::WarnDeltaTicks(ticks)
            &&& r.1[1] == ClientEffect::<B, D, P>::SetWorldClock { next_id, ticks }
            &&& forall|k: int| 0 <= k < blobs@.len() ==> #[trigger] r.1[k + 2] == ClientEffect::<B, D, P>::ReceiveBlob(blobs@[k])
        }),
        client_step(s, ServerEvent::<B, D, P>::Driver { ticks, deltas, players }, empty) == (
            s,
            seq![ClientEffect::<B, D, P>::ApplyDriver { ticks, deltas, players }],
        ),
        client_step(s, ServerEvent::<B, D, P>::Ack, empty) == (s, Seq::<ClientEffect<B, D, P>>::empty()),
        client_step(s, ServerEvent::<B, D, P>::Pong, empty) == (s, Seq::<ClientEffect<B, D, P>>::empty()),
        client_step(s, ServerEvent::<B, D, P>::ServerStatistics, empty) == (s, Seq::<ClientEffect<B, D, P>>::empty()),
        client_step(s, ServerEvent::<B, D, P>::SyncFrame(frame), empty) == (s, Seq::<ClientEffect<B, D, P>>::empty()),
{
    let r = client_step(s, ServerEvent::<B, D, P>::MultiBlobResponse(next_id, ticks, blobs), empty);
    assert forall|k: int| 0 <= k < blobs@.len() implies #[trigger] r.1[k + 2] == ClientEffect::<B, D, P>::ReceiveBlob(blobs@[k]) by {
    }
}

/// A download runs its course: a new save starts one that has received no
/// table, fills `empty`, and asks the server for the world, keeping the
/// current world until then. When the last missing table is unpacked, the
/// download's world becomes the session's and the download is over; a table
/// that fails to unpack, while others are still missing, keeps the download
/// going, marked failed, with the session's world untouched.
pub proof fn lemma_download_course<W, B, D, P>(
    s: ClientSession<W>,
    empty: W,
    table: TableIdent,
    t: ClientSession<W>,
    effects: Seq<ClientEffect<B, D, P>>,
)
    ensures
        download_started(s, empty, t, effects) ==> {
            &&& effects == seq![ClientEffect::<B, D, P>::Send(ClientRequest::BeginAsyncWorldDownload)]
            &&& t.world == s.world
            &&& t.state == s.state
            &&& t.download matches Some(d) && d@.completed.is_empty() && d.spec_world() == empty && !d@.failed
        },
        (s.download matches Some(d) && (forall|x: TableIdent| x != table ==> #[trigger] d@.completed.contains(x))
            && blob_recorded(s, table, true, t, effects)) ==> {
            &&& t.download is None
            &&& t.world == s.download->0.spec_world()
            &&& effects.len() == 0
        },
        (s.download matches Some(d) && (exists|x: TableIdent| !#[trigger] d@.completed.contains(x))
            && blob_recorded(s, table, false, t, effects)) ==> {
            &&& t.world == s.world
            &&& t.download matches Some(d2) && d2@.failed && d2@.completed == s.download->0@.completed
        },
        (s.download is None && blob_recorded(s, table, true, t, effects)) ==> t == s && effects == seq![
            ClientEffect::<B, D, P>::NoDownloadUnderway,
        ],
{
    match s.download {
        Some(d) => {
            if (exists|x: TableIdent| !#[trigger] d@.completed.contains(x)) && blob_recorded(s, table, false, t, effects) {
                let x = choose|x: TableIdent| !#[trigger] d@.completed.contains(x);
                assert(!completed_after(d@.completed, table, false).contains(x));
            }
            if (forall|x: TableIdent| x != table ==> #[trigger] d@.completed.contains(x)) && blob_recorded(s, table, true, t, effects) {
                assert forall|x: TableIdent| #[trigger] completed_after(d@.completed, table, true).contains(x) by {
                    if x != table {
                        assert(d@.completed.contains(x));
                    }
                }
            }
        },
        None => {},
    }
}

/// The terminal's commands that talk to the server send it a request
/// carrying the command's own argument; asking for every blob starts a
/// download rather than sending one request; clearing, exiting,
/// connecting, disconnecting, help and the debug mode stay with the client;
/// the save and blob-information commands are reported as unsupported,
/// unchanged.
pub proof fn lemma_terminal_commands<V, I, R>(text: String, d: WorldDelta<V, I, R>, t: TableIdent, speed: u32, b: bool)
    ensures
        terminal_effect_spec(TermCmd::<V, I, R>::Say(text)) == TerminalEffect::<V, I, R>::Send(ClientRequest::ClientSays(text)),
        terminal_effect_spec(TermCmd::<V, I, R>::World(d)) == TerminalEffect::<V, I, R>::Send(ClientRequest::RequestDelta(d)),
        terminal_effect_spec(TermCmd::<V, I, R>::ClientReqBlob(t)) == TerminalEffect::<V, I, R>::Send(ClientRequest::ClientBlobRequest(t)),
        terminal_effect_spec(TermCmd::<V, I, R>::PrintEntityInfo(t)) == TerminalEffect::<V, I, R>::Send(ClientRequest::PrintEntityInfo(t)),
        terminal_effect_spec(TermCmd::<V, I, R>::SetSimSpeed(speed)) == TerminalEffect::<V, I, R>::Send(ClientRequest::SetSimSpeed(speed)),
        terminal_effect_spec(TermCmd::<V, I, R>::FindGridByName(text)) == TerminalEffect::<V, I, R>::Send(ClientRequest::FindGridByName(text)),
        terminal_effect_spec(TermCmd::<V, I, R>::Ping) == TerminalEffect::<V, I, R>::Send(ClientRequest::Ping),
        terminal_effect_spec(TermCmd::<V, I, R>::RequestServerStatistics) == TerminalEffect::<V, I, R>::Send(ClientRequest::RequestServerStatistics),
        terminal_effect_spec(TermCmd::<V, I, R>::ClientReqAllBlobs) == TerminalEffect::<V, I, R>::RequestDownload,
        terminal_effect_spec(TermCmd::<V, I, R>::Clear) == TerminalEffect::<V, I, R>::ClearTerminal,
        terminal_effect_spec(TermCmd::<V, I, R>::Exit) == TerminalEffect::<V, I, R>::Exit,
        terminal_effect_spec(TermCmd::<V, I, R>::ServerConnect) == TerminalEffect::<V, I, R>::Reconnect,
        terminal_effect_spec(TermCmd::<V, I, R>::ServerDisconnect) == TerminalEffect::<V, I, R>::Disconnect,
        terminal_effect_spec(TermCmd::<V, I, R>::Help) == TerminalEffect::<V, I, R>::Help,
        terminal_effect_spec(TermCmd::<V, I, R>::ToggleDebugMode) == TerminalEffect::<V, I, R>::ToggleDebugMode,
        terminal_effect_spec(TermCmd::<V, I, R>::SaveWorldToDisk(text, b)) == TerminalEffect::<V, I, R>::Unsupported(
            TermCmd::SaveWorldToDisk(text, b),
        ),
        terminal_effect_spec(TermCmd::<V, I, R>::LoadSave(text)) == TerminalEffect::<V, I, R>::Unsupported(TermCmd::LoadSave(text)),
        terminal_effect_spec(TermCmd::<V, I, R>::PrintBlobInfo(t)) == TerminalEffect::<V, I, R>::Unsupported(TermCmd::PrintBlobInfo(t)),
{
}

} // verus!
