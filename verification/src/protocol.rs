use vstd::prelude::*;

verus! {

/// What a client sends to the server.
#[derive(Debug, Clone, PartialEq, Eq)]
pub enum ClientMessage {
    Join { username: String },
    Leave,
    SendMessage { content: String },
}

/// What the server sends to a client, as a reply or as a broadcast.
/// User ids are the 128-bit values of UUIDs.
#[derive(Debug, Clone, PartialEq, Eq)]
pub enum ServerMessage {
    JoinSuccess { user_id: u128 },
    JoinError { error: String },
    UserJoined { username: String },
    UserLeft { username: String },
    Message { username: String, content: String },
    Error { error: String },
}

/// A client message with its text taken as characters.
pub enum ClientMessageModel {
    Join(Seq<char>),
    Leave,
    SendMessage(Seq<char>),
}

/// A server message with its text taken as characters.
pub enum ServerMessageModel {
    JoinSuccess(u128),
    JoinError(Seq<char>),
    UserJoined(Seq<char>),
    UserLeft(Seq<char>),
    Message(Seq<char>, Seq<char>),
    Error(Seq<char>),
}

impl View for ClientMessage {
    type V = ClientMessageModel;

    open spec fn view(&self) -> ClientMessageModel {
        match self {
            ClientMessage::Join { username } => ClientMessageModel::Join(username@),
            ClientMessage::Leave => ClientMessageModel::Leave,
            ClientMessage::SendMessage { content } => ClientMessageModel::SendMessage(content@),
        }
    }
}

impl View for ServerMessage {
    type V = ServerMessageModel;

    open spec fn view(&self) -> ServerMessageModel {
        match self {
            ServerMessage::JoinSuccess { user_id } => ServerMessageModel::JoinSuccess(*user_id),
            ServerMessage::JoinError { error } => ServerMessageModel::JoinError(error@),
            ServerMessage::UserJoined { username } => ServerMessageModel::UserJoined(username@),
            ServerMessage::UserLeft { username } => ServerMessageModel::UserLeft(username@),
            ServerMessage::Message { username, content } => ServerMessageModel::Message(
                username@,
                content@,
            ),
            ServerMessage::Error { error } => ServerMessageModel::Error(error@),
        }
    }
}

/// Each message is viewed field by field: the view keeps every text of the
/// message in its own place and the id as it is.
pub proof fn law_message_views(c: ClientMessage, m: ServerMessage)
    ensures
        c matches ClientMessage::Join { username } ==> c@ == ClientMessageModel::Join(username@),
        c matches ClientMessage::Leave ==> c@ == ClientMessageModel::Leave,
        c matches ClientMessage::SendMessage { content } ==> c@ == ClientMessageModel::SendMessage(
            content@,
        ),
        m matches ServerMessage::JoinSuccess { user_id } ==> m@ == ServerMessageModel::JoinSuccess(
            user_id,
        ),
        m matches ServerMessage::JoinError { error } ==> m@ == ServerMessageModel::JoinError(
            error@,
        ),
        m matches ServerMessage::UserJoined { username } ==> m@ == ServerMessageModel::UserJoined(
            username@,
        ),
        m matches ServerMessage::UserLeft { username } ==> m@ == ServerMessageModel::UserLeft(
            username@,
        ),
        m matches ServerMessage::Message { username, content } ==> m@
            == ServerMessageModel::Message(username@, content@),
        m matches ServerMessage::Error { error } ==> m@ == ServerMessageModel::Error(error@),
        reply_view(Some(m)) == Some(m@),
        reply_view(None) is None,
{
}

/// An optional server message, by its view.
pub open spec fn reply_view(reply: Option<ServerMessage>) -> Option<ServerMessageModel> {
    match reply {
        Some(m) => Some(m@),
        None => None,
    }
}

/// A message for the whole room, with the id of the user on whose behalf
/// it is sent.
#[derive(Debug, Clone, PartialEq, Eq)]
pub struct Broadcast {
    pub sender: u128,
    pub message: ServerMessage,
}

/// A broadcast with its message taken by its view.
pub struct BroadcastModel {
    pub sender: u128,
    pub message: ServerMessageModel,
}

impl View for Broadcast {
    type V = BroadcastModel;

    open spec fn view(&self) -> BroadcastModel {
        BroadcastModel { sender: self.sender, message: self.message@ }
    }
}

/// Whether a connection whose session holds `session` receives `broadcast`:
/// every connection receives every broadcast, except that a chat message
/// does not go back to the user who sent it.
pub open spec fn delivered_to(broadcast: BroadcastModel, session: Option<u128>) -> bool {
    !(broadcast.message is Message && session == Some(broadcast.sender))
}

/// Join and leave notices reach every connection, whatever its session;
/// the only broadcast a connection does not receive is a chat message sent
/// by the user whose id its session holds.
pub proof fn law_delivery(broadcast: BroadcastModel, session: Option<u128>)
    ensures
        !(broadcast.message is Message) ==> delivered_to(broadcast, session),
        broadcast.message is Message ==> (delivered_to(broadcast, session) <==> session != Some(
            broadcast.sender,
        )),
        session is None ==> delivered_to(broadcast, session),
{
}

/// Decides whether a connection whose session holds `session` receives
/// `broadcast`.
pub fn delivers_to(broadcast: &Broadcast, session: Option<u128>) -> (deliver: bool)
    ensures
        deliver == delivered_to(broadcast@, session),
{
    match &broadcast.message {
        ServerMessage::Message { .. } => match session {
            Some(id) => id != broadcast.sender,
            None => true,
        },
        _ => true,
    }
}

/// A sequence of broadcasts, each by its view.
pub open spec fn views(broadcasts: Seq<Broadcast>) -> Seq<BroadcastModel> {
    broadcasts.map_values(|b: Broadcast| b@)
}

/// The broadcasts appended to `before` to make `after`, when `after` extends
/// `before`.
pub open spec fn appended(before: Seq<Broadcast>, after: Seq<Broadcast>) -> Seq<BroadcastModel> {
    views(after.skip(before.len() as int))
}

/// `after` is `before` with broadcasts added at its end.
pub open spec fn extends(before: Seq<Broadcast>, after: Seq<Broadcast>) -> bool {
    &&& before.len() <= after.len()
    &&& after.take(before.len() as int) == before
}

/// Pushing one broadcast appends exactly that broadcast.
pub proof fn lemma_push_appended(before: Seq<Broadcast>, b: Broadcast)
    ensures
        extends(before, before.push(b)),
        appended(before, before.push(b)) == seq![b@],
{
    assert(before.push(b).take(before.len() as int) =~= before);
    assert(before.push(b).skip(before.len() as int) =~= seq![b]);
    assert(views(seq![b]) =~= seq![b@]);
}

/// A sequence extends itself by nothing.
pub proof fn lemma_nothing_appended(before: Seq<Broadcast>)
    ensures
        extends(before, before),
        appended(before, before) == Seq::<BroadcastModel>::empty(),
{
    assert(before.take(before.len() as int) =~= before);
    assert(before.skip(before.len() as int) =~= Seq::<Broadcast>::empty());
    assert(views(Seq::<Broadcast>::empty()) =~= Seq::<BroadcastModel>::empty());
}

/// Extending in two steps appends what each step appended, in order.
pub proof fn lemma_appended_twice(a: Seq<Broadcast>, b: Seq<Broadcast>, c: Seq<Broadcast>)
    requires
        extends(a, b),
        extends(b, c),
    ensures
        extends(a, c),
        appended(a, c) == appended(a, b) + appended(b, c),
{
    assert(c.take(a.len() as int) =~= b.take(a.len() as int));
    assert(c.skip(a.len() as int) =~= b.skip(a.len() as int) + c.skip(b.len() as int));
    assert(views(b.skip(a.len() as int) + c.skip(b.len() as int)) =~= views(b.skip(a.len() as int)) + views(c.skip(b.len() as int)));
}

} // verus!
