use vstd::prelude::*;
use vstd::string::*;
use crate::protocol::{
    Broadcast, BroadcastModel, ClientMessage, ClientMessageModel, ServerMessage,
    ServerMessageModel, appended, delivered_to, extends,
    reply_view, lemma_nothing_appended, lemma_push_appended,
};
use crate::messages::{chat_message, joined_notice, left_notice};
use crate::users::{
    User, UserStore, UsernameStore, create_user_stores, get_user, is_v4_id, name_table_contains,
    name_table_insert, user_table_insert, name_table, random_user_id,
    law_register_keeps_consistent, law_unregister_keeps_consistent, registry_consistent,
    remove_user, user_table,
};

verus! {

/// The state of a chat room served over line-based TCP: the users, their
/// names, and the broadcasts that wait to be sent to every connection.
pub struct ChatServer {
    users: UserStore,
    usernames: UsernameStore,
    broadcast_tx: Vec<Broadcast>,
}

/// A chat server as values: users by id, ids by name, and pending
/// broadcasts.
pub struct ChatRoom {
    pub users: Map<u128, Seq<char>>,
    pub names: Map<Seq<char>, u128>,
    pub pending: Seq<Broadcast>,
}

impl ChatServer {
    /// The room that this server holds.
    pub closed spec fn room(&self) -> ChatRoom {
        ChatRoom {
            users: user_table(self.users),
            names: name_table(self.usernames),
            pending: self.broadcast_tx@,
        }
    }
}

impl View for ChatServer {
    type V = ChatRoom;

    open spec fn view(&self) -> ChatRoom {
        self.room()
    }
}

/// The reply to a `Join` from a connection that has joined already.
pub open spec fn already_joined_text() -> Seq<char> {
    "Already joined"@
}

/// The error of a `Join` under a name that is taken.
pub open spec fn name_taken_text() -> Seq<char> {
    "Username already taken"@
}

/// The reply to a line that is not a client message, given the parser's
/// description of what is wrong with it.
pub open spec fn invalid_line_text(detail: Seq<char>) -> Seq<char> {
    "Invalid message format: "@ + detail
}

/// One client message, on a connection whose session holds `session`, takes
/// the registry from (`users`, `names`) to (`users2`, `names2`) and the
/// session to `session2`, broadcasts `broadcasts`, and ends in `result`: a
/// reply or nothing, or an error text.
pub open spec fn processed(
    users: Map<u128, Seq<char>>,
    names: Map<Seq<char>, u128>,
    session: Option<u128>,
    message: ClientMessageModel,
    users2: Map<u128, Seq<char>>,
    names2: Map<Seq<char>, u128>,
    session2: Option<u128>,
    broadcasts: Seq<BroadcastModel>,
    result: Result<Option<ServerMessageModel>, Seq<char>>,
) -> bool {
    match message {
        ClientMessageModel::Join(name) => if session is Some {
            &&& users2 == users
            &&& names2 == names
            &&& session2 == session
            &&& broadcasts == Seq::<BroadcastModel>::empty()
            &&& result == Ok::<Option<ServerMessageModel>, Seq<char>>(
                Some(ServerMessageModel::Error(already_joined_text())),
            )
        } else if names.dom().contains(name) {
            &&& users2 == users
            &&& names2 == names
            &&& session2 == session
            &&& broadcasts == Seq::<BroadcastModel>::empty()
            &&& result == Err::<Option<ServerMessageModel>, Seq<char>>(name_taken_text())
        } else {
            &&& result matches Ok(Some(ServerMessageModel::JoinSuccess(id)))
            &&& is_v4_id(id)
            &&& users2 == users.insert(id, name)
            &&& names2 == names.insert(name, id)
            &&& session2 == Some(id)
            &&& broadcasts == seq![joined_notice(id, name)]
        },
        ClientMessageModel::Leave => {
            &&& session2 == None::<u128>
            &&& result == Ok::<Option<ServerMessageModel>, Seq<char>>(None)
            &&& match session {
                Some(id) => if users.dom().contains(id) {
                    &&& users2 == users.remove(id)
                    &&& names2 == names.remove(users[id])
                    &&& broadcasts == seq![left_notice(id, users[id])]
                } else {
                    &&& users2 == users
                    &&& names2 == names
                    &&& broadcasts == Seq::<BroadcastModel>::empty()
                },
                None => {
                    &&& users2 == users
                    &&& names2 == names
                    &&& broadcasts == Seq::<BroadcastModel>::empty()
                },
            }
        },
        ClientMessageModel::SendMessage(content) => {
            &&& users2 == users
            &&& names2 == names
            &&& session2 == session
            &&& result == Ok::<Option<ServerMessageModel>, Seq<char>>(None)
            &&& match session {
                Some(id) => if users.dom().contains(id) {
                    broadcasts == seq![chat_message(id, users[id], content)]
                } else {
                    broadcasts == Seq::<BroadcastModel>::empty()
                },
                None => broadcasts == Seq::<BroadcastModel>::empty(),
            }
        },
    }
}

/// A processing result, by its views.
pub open spec fn result_view(result: Result<Option<ServerMessage>, String>) -> Result<
    Option<ServerMessageModel>,
    Seq<char>,
> {
    match result {
        Ok(reply) => Ok(reply_view(reply)),
        Err(error) => Err(error@),
    }
}

/// The answer to a line: a reply, the error of processing as an `Error`,
/// or nothing.
pub open spec fn answer_of(result: Result<Option<ServerMessageModel>, Seq<char>>) -> Option<
    ServerMessageModel,
> {
    match result {
        Ok(reply) => reply,
        Err(error) => Some(ServerMessageModel::Error(error)),
    }
}

/// On the line-based server a connection joins once. A join from a
/// connection that has not joined registers the new user under the id it
/// answers when the name is free, touching no other user or name, and is
/// an error when the name is taken; a join from a connection that has
/// joined is refused and changes nothing.
pub proof fn law_server_join(
    users: Map<u128, Seq<char>>,
    names: Map<Seq<char>, u128>,
    session: Option<u128>,
    name: Seq<char>,
    users2: Map<u128, Seq<char>>,
    names2: Map<Seq<char>, u128>,
    session2: Option<u128>,
    broadcasts: Seq<BroadcastModel>,
    result: Result<Option<ServerMessageModel>, Seq<char>>,
)
    requires
        processed(
            users,
            names,
            session,
            ClientMessageModel::Join(name),
            users2,
            names2,
            session2,
            broadcasts,
            result,
        ),
    ensures
        session is Some ==> {
            &&& result == Ok::<Option<ServerMessageModel>, Seq<char>>(
                Some(ServerMessageModel::Error("Already joined"@)),
            )
            &&& users2 == users && names2 == names && session2 == session
            &&& broadcasts.len() == 0
        },
        session is None && names.dom().contains(name) ==> {
            &&& result == Err::<Option<ServerMessageModel>, Seq<char>>("Username already taken"@)
            &&& users2 == users && names2 == names && session2 is None
            &&& broadcasts.len() == 0
        },
        session is None && !names.dom().contains(name) ==> (result matches Ok(
            Some(ServerMessageModel::JoinSuccess(id)),
        ) && {
            &&& session2 == Some(id)
            &&& users2.dom().contains(id) && users2[id] == name
            &&& names2.dom().contains(name) && names2[name] == id
            &&& forall|x: u128|
                #![trigger users2.dom().contains(x)]
                #![trigger users.dom().contains(x)]
                x != id ==> (users2.dom().contains(x) == users.dom().contains(x) && (
                users.dom().contains(x) ==> users2[x] == users[x]))
            &&& forall|n: Seq<char>|
                #![trigger names2.dom().contains(n)]
                #![trigger names.dom().contains(n)]
                n != name ==> (names2.dom().contains(n) == names.dom().contains(n) && (
                names.dom().contains(n) ==> names2[n] == names[n]))
            &&& broadcasts.len() == 1
            &&& broadcasts[0].sender == id
            &&& broadcasts[0].message == ServerMessageModel::UserJoined(name)
        }),
{
}

/// A leave ends the connection's session, unregisters exactly its user and
/// that user's name if still registered, tells the room, and is answered
/// with nothing.
pub proof fn law_server_leave(
    users: Map<u128, Seq<char>>,
    names: Map<Seq<char>, u128>,
    session: Option<u128>,
    users2: Map<u128, Seq<char>>,
    names2: Map<Seq<char>, u128>,
    session2: Option<u128>,
    broadcasts: Seq<BroadcastModel>,
    result: Result<Option<ServerMessageModel>, Seq<char>>,
)
    requires
        processed(
            users,
            names,
            session,
            ClientMessageModel::Leave,
            users2,
            names2,
            session2,
            broadcasts,
            result,
        ),
    ensures
        session2 is None,
        result == Ok::<Option<ServerMessageModel>, Seq<char>>(None),
        (session is Some && users.dom().contains(session->Some_0)) ==> {
            &&& !users2.dom().contains(session->Some_0)
            &&& !names2.dom().contains(users[session->Some_0])
            &&& forall|x: u128|
                #![trigger users2.dom().contains(x)]
                #![trigger users.dom().contains(x)]
                x != session->Some_0 ==> (users2.dom().contains(x) == users.dom().contains(x) && (
                users.dom().contains(x) ==> users2[x] == users[x]))
            &&& forall|n: Seq<char>|
                #![trigger names2.dom().contains(n)]
                #![trigger names.dom().contains(n)]
                n != users[session->Some_0] ==> (names2.dom().contains(n) == names.dom().contains(
                    n,
                ) && (names.dom().contains(n) ==> names2[n] == names[n]))
            &&& broadcasts.len() == 1
            &&& broadcasts[0].sender == session->Some_0
            &&& broadcasts[0].message == ServerMessageModel::UserLeft(users[session->Some_0])
        },
        !(session is Some && users.dom().contains(session->Some_0)) ==> users2 == users && names2
            == names && broadcasts.len() == 0,
{
}

/// A chat message never changes the registry, the session or the answer
/// (always nothing). From a connection whose user is registered it is
/// broadcast exactly once, whatever its content, under that user's id and
/// name; from any other connection nothing is broadcast.
pub proof fn law_server_send(
    users: Map<u128, Seq<char>>,
    names: Map<Seq<char>, u128>,
    session: Option<u128>,
    content: Seq<char>,
    users2: Map<u128, Seq<char>>,
    names2: Map<Seq<char>, u128>,
    session2: Option<u128>,
    broadcasts: Seq<BroadcastModel>,
    result: Result<Option<ServerMessageModel>, Seq<char>>,
)
    requires
        processed(
            users,
            names,
            session,
            ClientMessageModel::SendMessage(content),
            users2,
            names2,
            session2,
            broadcasts,
            result,
        ),
    ensures
        users2 == users,
        names2 == names,
        session2 == session,
        result == Ok::<Option<ServerMessageModel>, Seq<char>>(None),
        (session is Some && users.dom().contains(session->Some_0)) ==> {
            &&& broadcasts.len() == 1
            &&& broadcasts[0].sender == session->Some_0
            &&& broadcasts[0].message == ServerMessageModel::Message(
                users[session->Some_0],
                content,
            )
        },
        !(session is Some && users.dom().contains(session->Some_0)) ==> broadcasts.len() == 0,
{
}

/// A line's answer is the reply of processing it, or its error text as an
/// `Error`; a line that is not a message is answered with the parser's
/// description behind a fixed prefix.
pub proof fn law_server_answers(
    reply: Option<ServerMessageModel>,
    error: Seq<char>,
    detail: Seq<char>,
)
    ensures
        answer_of(Ok(reply)) == reply,
        answer_of(Err(error)) == Some(ServerMessageModel::Error(error)),
        invalid_line_text(detail) == "Invalid message format: "@ + detail,
{
}

/// A processing result is taken by the views of its reply or error.
pub proof fn law_result_view(result: Result<Option<ServerMessage>, String>)
    ensures
        result matches Err(e) ==> result_view(result) == Err::<Option<ServerMessageModel>, Seq<
            char,
        >>(e@),
        result matches Ok(Some(m)) ==> result_view(result) == Ok::<
            Option<ServerMessageModel>,
            Seq<char>,
        >(Some(m@)),
        result matches Ok(None) ==> result_view(result) == Ok::<Option<ServerMessageModel>, Seq<
            char,
        >>(None),
{
}

/// Each processed message keeps the registry consistent, so usernames stay
/// unique, provided that a successful join was given an id not in use.
pub proof fn law_server_step_keeps_consistent(
    users: Map<u128, Seq<char>>,
    names: Map<Seq<char>, u128>,
    session: Option<u128>,
    message: ClientMessageModel,
    users2: Map<u128, Seq<char>>,
    names2: Map<Seq<char>, u128>,
    session2: Option<u128>,
    broadcasts: Seq<BroadcastModel>,
    result: Result<Option<ServerMessageModel>, Seq<char>>,
)
    requires
        registry_consistent(users, names),
        processed(users, names, session, message, users2, names2, session2, broadcasts, result),
        result matches Ok(Some(ServerMessageModel::JoinSuccess(id))) ==> !users.dom().contains(id),
    ensures
        registry_consistent(users2, names2),
{
    match message {
        ClientMessageModel::Join(name) => {
            if session is None && !names.dom().contains(name) {
                let id = result->Ok_0->Some_0->JoinSuccess_0;
                law_register_keeps_consistent(users, names, id, name);
            }
        },
        ClientMessageModel::Leave => {
            if let Some(id) = session {
                if users.dom().contains(id) {
                    law_unregister_keeps_consistent(users, names, id);
                }
            }
        },
        ClientMessageModel::SendMessage(_) => {},
    }
}

/// A connection that joined under an id not in use and then leaves gives
/// back the registry as it was, ends with no session, and tells the room
/// that the user joined and then left.
pub proof fn law_server_join_then_leave_restores(
    users: Map<u128, Seq<char>>,
    names: Map<Seq<char>, u128>,
    name: Seq<char>,
    id: u128,
    users1: Map<u128, Seq<char>>,
    names1: Map<Seq<char>, u128>,
    session1: Option<u128>,
    broadcasts1: Seq<BroadcastModel>,
    users2: Map<u128, Seq<char>>,
    names2: Map<Seq<char>, u128>,
    session2: Option<u128>,
    broadcasts2: Seq<BroadcastModel>,
    result2: Result<Option<ServerMessageModel>, Seq<char>>,
)
    requires
        processed(
            users,
            names,
            None,
            ClientMessageModel::Join(name),
            users1,
            names1,
            session1,
            broadcasts1,
            Ok(Some(ServerMessageModel::JoinSuccess(id))),
        ),
        !users.dom().contains(id),
        processed(
            users1,
            names1,
            session1,
            ClientMessageModel::Leave,
            users2,
            names2,
            session2,
            broadcasts2,
            result2,
        ),
    ensures
        users2 == users,
        names2 == names,
        session1 == Some(id),
        session2 is None,
        broadcasts1 == seq![joined_notice(id, name)],
        broadcasts2 == seq![left_notice(id, name)],
        result2 == Ok::<Option<ServerMessageModel>, Seq<char>>(None),
{
    assert(users.insert(id, name).remove(id) =~= users);
    assert(names.insert(name, id).remove(name) =~= names);
}

/// A connection joins at most once: a second `Join` on a session that holds
/// an id is answered with an error and changes nothing.
pub proof fn law_server_joins_once(
    users: Map<u128, Seq<char>>,
    names: Map<Seq<char>, u128>,
    id: u128,
    name: Seq<char>,
    users2: Map<u128, Seq<char>>,
    names2: Map<Seq<char>, u128>,
    session2: Option<u128>,
    broadcasts: Seq<BroadcastModel>,
    result: Result<Option<ServerMessageModel>, Seq<char>>,
)
    requires
        processed(
            users,
            names,
            Some(id),
            ClientMessageModel::Join(name),
            users2,
            names2,
            session2,
            broadcasts,
            result,
        ),
    ensures
        users2 == users,
        names2 == names,
        session2 == Some(id),
        broadcasts.len() == 0,
        result == Ok::<Option<ServerMessageModel>, Seq<char>>(
            Some(ServerMessageModel::Error(already_joined_text())),
        ),
{
}

/// A chat message reaches every connection except the sender's.
pub proof fn law_server_message_not_echoed(
    users: Map<u128, Seq<char>>,
    names: Map<Seq<char>, u128>,
    session: Option<u128>,
    content: Seq<char>,
    users2: Map<u128, Seq<char>>,
    names2: Map<Seq<char>, u128>,
    session2: Option<u128>,
    broadcasts: Seq<BroadcastModel>,
    result: Result<Option<ServerMessageModel>, Seq<char>>,
    other: Option<u128>,
)
    requires
        processed(
            users,
            names,
            session,
            ClientMessageModel::SendMessage(content),
            users2,
            names2,
            session2,
            broadcasts,
            result,
        ),
        broadcasts.len() == 1,
    ensures
        broadcasts[0] == chat_message(session->Some_0, users[session->Some_0], content),
        !delivered_to(broadcasts[0], session),
        other != session ==> delivered_to(broadcasts[0], other),
{
}

impl ChatServer {
    /// A server with no users and no pending broadcasts.
    pub fn new() -> (server: Self)
        ensures
            server@.users == Map::<u128, Seq<char>>::empty(),
            server@.names == Map::<Seq<char>, u128>::empty(),
            server@.pending == Seq::<Broadcast>::empty(),
    {
        let (users, usernames) = create_user_stores();
        ChatServer { users, usernames, broadcast_tx: Vec::new() }
    }

    /// Hands out the pending broadcasts, in the order they were made, and
    /// leaves none.
    pub fn take_broadcasts(&mut self) -> (broadcasts: Vec<Broadcast>)
        ensures
            broadcasts@ == old(self)@.pending,
            final(self)@.pending == Seq::<Broadcast>::empty(),
            final(self)@.users == old(self)@.users,
            final(self)@.names == old(self)@.names,
    {
        let mut broadcasts = Vec::new();
        std::mem::swap(&mut broadcasts, &mut self.broadcast_tx);
        broadcasts
    }

    /// Processes one client message on a connection whose session holds
    /// `user_id`; broadcasts go to the pending list.
    pub fn process_message(&mut self, msg: ClientMessage, user_id: &mut Option<u128>) -> (result:
        Result<Option<ServerMessage>, String>)
        ensures
            extends(old(self)@.pending, final(self)@.pending),
            processed(
                old(self)@.users,
                old(self)@.names,
                *old(user_id),
                msg@,
                final(self)@.users,
                final(self)@.names,
                *final(user_id),
                appended(old(self)@.pending, final(self)@.pending),
                result_view(result),
            ),
    {
        match msg {
            ClientMessage::Join { username } => {
                if user_id.is_some() {
                    proof {
                        lemma_nothing_appended(self.broadcast_tx@);
                    }
                    return Ok(
                        Some(ServerMessage::Error { error: String::from_str("Already joined") }),
                    );
                }
                let name = username.clone();
                match self.add_user(username) {
                    Ok(id) => {
                        *user_id = Some(id);
                        let join_msg = Broadcast {
                            sender: id,
                            message: ServerMessage::UserJoined { username: name },
                        };
                        proof {
                            lemma_push_appended(self.broadcast_tx@, join_msg);
                        }
                        self.broadcast_tx.push(join_msg);
                        Ok(Some(ServerMessage::JoinSuccess { user_id: id }))
                    },
                    Err(error) => {
                        proof {
                            lemma_nothing_appended(self.broadcast_tx@);
                        }
                        Err(error)
                    },
                }
            },
            ClientMessage::Leave => {
                if let Some(id) = user_id.take() {
                    self.remove_user(id);
                } else {
                    proof {
                        lemma_nothing_appended(self.broadcast_tx@);
                    }
                }
                Ok(None)
            },
            ClientMessage::SendMessage { content } => {
                let mut sent = false;
                if let Some(id) = user_id {
                    if let Some(user) = get_user(&self.users, *id) {
                        let msg = Broadcast {
                            sender: *id,
                            message: ServerMessage::Message { username: user.username, content },
                        };
                        proof {
                            lemma_push_appended(self.broadcast_tx@, msg);
                        }
                        self.broadcast_tx.push(msg);
                        sent = true;
                    }
                }
                if !sent {
                    proof {
                        lemma_nothing_appended(self.broadcast_tx@);
                    }
                }
                Ok(None)
            },
        }
    }

    /// Registers `username` under a fresh random id, unless the name is
    /// taken.
    fn add_user(&mut self, username: String) -> (result: Result<u128, String>)
        ensures
            final(self)@.pending == old(self)@.pending,
            result is Err <==> old(self)@.names.dom().contains(username@),
            result matches Err(error) ==> {
                &&& error@ == name_taken_text()
                &&& final(self)@.users == old(self)@.users
                &&& final(self)@.names == old(self)@.names
            },
            result matches Ok(id) ==> {
                &&& is_v4_id(id)
                &&& final(self)@.users == old(self)@.users.insert(id, username@)
                &&& final(self)@.names == old(self)@.names.insert(username@, id)
            },
    {
        if name_table_contains(&self.usernames, username.as_str()) {
            return Err(String::from_str("Username already taken"));
        }
        let id = random_user_id();
        let name = username.clone();
        match name_table_insert(&mut self.usernames, username, id) {
            Some(_) => Err(String::from_str("Username already taken")),
            None => {
                user_table_insert(&mut self.users, id, User { username: name });
                Ok(id)
            },
        }
    }

    /// Unregisters the user with id `user_id`, if any, and tells the room.
    fn remove_user(&mut self, user_id: u128)
        ensures
            extends(old(self)@.pending, final(self)@.pending),
            old(self)@.users.dom().contains(user_id) ==> {
                &&& final(self)@.users == old(self)@.users.remove(user_id)
                &&& final(self)@.names == old(self)@.names.remove(old(self)@.users[user_id])
                &&& appended(old(self)@.pending, final(self)@.pending) == seq![
                    left_notice(user_id, old(self)@.users[user_id]),
                ]
            },
            !old(self)@.users.dom().contains(user_id) ==> {
                &&& final(self)@.users == old(self)@.users
                &&& final(self)@.names == old(self)@.names
                &&& appended(old(self)@.pending, final(self)@.pending) == Seq::<BroadcastModel>::empty()
            },
    {
        match remove_user(&mut self.users, &mut self.usernames, user_id) {
            Some(username) => {
                let leave_msg = Broadcast {
                    sender: user_id,
                    message: ServerMessage::UserLeft { username },
                };
                proof {
                    lemma_push_appended(self.broadcast_tx@, leave_msg);
                }
                self.broadcast_tx.push(leave_msg);
            },
            None => {
                proof {
                    lemma_nothing_appended(self.broadcast_tx@);
                }
            },
        }
    }

    /// Answers one non-empty line of a connection. `parsed` is the line read
    /// as a client message, or the parser's description of why it is not
    /// one.
    pub fn respond(&mut self, parsed: Result<ClientMessage, String>, user_id: &mut Option<u128>) -> (answer:
        Option<ServerMessage>)
        ensures
            extends(old(self)@.pending, final(self)@.pending),
            parsed matches Err(detail) ==> {
                &&& reply_view(answer) == Some(ServerMessageModel::Error(invalid_line_text(detail@)))
                &&& final(self)@ == old(self)@
                &&& *final(user_id) == *old(user_id)
            },
            parsed matches Ok(msg) ==> exists|result: Result<Option<ServerMessageModel>, Seq<char>>|
                {
                    &&& processed(
                        old(self)@.users,
                        old(self)@.names,
                        *old(user_id),
                        msg@,
                        final(self)@.users,
                        final(self)@.names,
                        *final(user_id),
                        appended(old(self)@.pending, final(self)@.pending),
                        result,
                    )
                    &&& reply_view(answer) == answer_of(result)
                },
    {
        match parsed {
            Ok(msg) => {
                let ghost before = self@;
                let ghost session = *user_id;
                let ghost message = msg@;
                let result = self.process_message(msg, user_id);
                let answer = match result {
                    Ok(reply) => reply,
                    Err(error) => Some(ServerMessage::Error { error }),
                };
                assert(reply_view(answer) == answer_of(result_view(result)));
                assert(processed(
                    before.users,
                    before.names,
                    session,
                    message,
                    self@.users,
                    self@.names,
                    *user_id,
                    appended(before.pending, self@.pending),
                    result_view(result),
                ));
                answer
            },
            Err(detail) => {
                proof {
                    lemma_nothing_appended(self.broadcast_tx@);
                }
                let mut error = String::from_str("Invalid message format: ");
                error.append(detail.as_str());
                Some(ServerMessage::Error { error })
            },
        }
    }

    /// Cleans up after a connection closes: a session that holds an id
    /// unregisters its user and tells the room.
    pub fn disconnect(&mut self, user_id: Option<u128>)
        ensures
            extends(old(self)@.pending, final(self)@.pending),
            processed(
                old(self)@.users,
                old(self)@.names,
                user_id,
                ClientMessageModel::Leave,
                final(self)@.users,
                final(self)@.names,
                None,
                appended(old(self)@.pending, final(self)@.pending),
                Ok(None),
            ),
    {
        if let Some(id) = user_id {
            self.remove_user(id);
        } else {
            proof {
                lemma_nothing_appended(self.broadcast_tx@);
            }
        }
    }
}

impl Default for ChatServer {
    fn default() -> (server: Self)
        ensures
            server@.users == Map::<u128, Seq<char>>::empty(),
            server@.names == Map::<Seq<char>, u128>::empty(),
            server@.pending == Seq::<Broadcast>::empty(),
    {
        Self::new()
    }
}

} // verus!
