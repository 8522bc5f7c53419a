use vstd::prelude::*;
use vstd::string::*;
use crate::protocol::{
    Broadcast, BroadcastModel, ClientMessage, ClientMessageModel, ServerMessage, ServerMessageModel,
    appended, delivered_to, extends, lemma_appended_twice, lemma_nothing_appended,
    lemma_push_appended, reply_view,
};
use crate::users::{
    UserStore, UsernameStore, add_user, get_user, is_v4_id, law_register_keeps_consistent,
    law_unregister_keeps_consistent, name_table, name_table_contains, registry_consistent,
    remove_user, taken_message, user_table,
};

verus! {

/// A session holds the id of a user that is still registered.
pub open spec fn session_registered(users: Map<u128, Seq<char>>, session: Option<u128>) -> bool {
    session matches Some(id) && users.dom().contains(id)
}

/// The reply to a `Leave` from a client that has not joined.
pub open spec fn not_joined_text() -> Seq<char> {
    "Not joined to a chat room"@
}

/// The reply to a `SendMessage` from a client that has not joined.
pub open spec fn must_join_text() -> Seq<char> {
    "Must join a chat room first"@
}

/// The reply to a `SendMessage` under an id that no user has.
pub open spec fn user_not_found_text() -> Seq<char> {
    "User not found"@
}

/// The broadcast that announces `name` joining under `id`.
pub open spec fn joined_notice(id: u128, name: Seq<char>) -> BroadcastModel {
    BroadcastModel { sender: id, message: ServerMessageModel::UserJoined(name) }
}

/// The broadcast that announces `name`, of id `id`, leaving.
pub open spec fn left_notice(id: u128, name: Seq<char>) -> BroadcastModel {
    BroadcastModel { sender: id, message: ServerMessageModel::UserLeft(name) }
}

/// The broadcast of `content`, sent by `name` whose id is `id`.
pub open spec fn chat_message(id: u128, name: Seq<char>, content: Seq<char>) -> BroadcastModel {
    BroadcastModel { sender: id, message: ServerMessageModel::Message(name, content) }
}

/// One client message, sent by the client whose session holds `user_id`,
/// takes the registry from (`users`, `names`) to (`users2`, `names2`),
/// broadcasts `broadcasts` to the room, and is answered with `reply`.
///
/// A successful join from a session whose user is still registered first
/// unregisters that user, so that a session has at most one user at a time.
pub open spec fn handled(
    users: Map<u128, Seq<char>>,
    names: Map<Seq<char>, u128>,
    user_id: Option<u128>,
    message: ClientMessageModel,
    users2: Map<u128, Seq<char>>,
    names2: Map<Seq<char>, u128>,
    broadcasts: Seq<BroadcastModel>,
    reply: Option<ServerMessageModel>,
) -> bool {
    match message {
        ClientMessageModel::Join(name) => if names.dom().contains(name) {
            &&& users2 == users
            &&& names2 == names
            &&& broadcasts == Seq::<BroadcastModel>::empty()
            &&& reply == Some(ServerMessageModel::JoinError(taken_message(name)))
        } else {
            &&& reply matches Some(ServerMessageModel::JoinSuccess(id))
            &&& is_v4_id(id)
            &&& if session_registered(users, user_id) {
                &&& users2 == users.remove(user_id->Some_0).insert(id, name)
                &&& names2 == names.remove(users[user_id->Some_0]).insert(name, id)
                &&& broadcasts == seq![
                    left_notice(user_id->Some_0, users[user_id->Some_0]),
                    joined_notice(id, name),
                ]
            } else {
                &&& users2 == users.insert(id, name)
                &&& names2 == names.insert(name, id)
                &&& broadcasts == seq![joined_notice(id, name)]
            }
        },
        ClientMessageModel::Leave => match user_id {
            None => {
                &&& users2 == users
                &&& names2 == names
                &&& broadcasts == Seq::<BroadcastModel>::empty()
                &&& reply == Some(ServerMessageModel::Error(not_joined_text()))
            },
            Some(id) => {
                &&& reply == None::<ServerMessageModel>
                &&& if users.dom().contains(id) {
                    &&& users2 == users.remove(id)
                    &&& names2 == names.remove(users[id])
                    &&& broadcasts == seq![left_notice(id, users[id])]
                } else {
                    &&& users2 == users
                    &&& names2 == names
                    &&& broadcasts == Seq::<BroadcastModel>::empty()
                }
            },
        },
        ClientMessageModel::SendMessage(content) => {
            &&& users2 == users
            &&& names2 == names
            &&& match user_id {
                None => {
                    &&& broadcasts == Seq::<BroadcastModel>::empty()
                    &&& reply == Some(ServerMessageModel::Error(must_join_text()))
                },
                Some(id) => if users.dom().contains(id) {
                    &&& broadcasts == seq![chat_message(id, users[id], content)]
                    &&& reply == None::<ServerMessageModel>
                } else {
                    &&& broadcasts == Seq::<BroadcastModel>::empty()
                    &&& reply == Some(ServerMessageModel::Error(user_not_found_text()))
                },
            }
        },
    }
}

/// Handles one message from a client, whose session holds `user_id` once it
/// has joined. What the room must hear is pushed onto `broadcast_tx`; the
/// direct answer to the client, if any, is returned.
pub fn handle_message(
    users: &mut UserStore,
    usernames: &mut UsernameStore,
    broadcast_tx: &mut Vec<Broadcast>,
    user_id: Option<u128>,
    message: ClientMessage,
) -> (response: Option<ServerMessage>)
    ensures
        extends(old(broadcast_tx)@, final(broadcast_tx)@),
        handled(
            user_table(*old(users)),
            name_table(*old(usernames)),
            user_id,
            message@,
            user_table(*final(users)),
            name_table(*final(usernames)),
            appended(old(broadcast_tx)@, final(broadcast_tx)@),
            reply_view(response),
        ),
{
    match message {
        ClientMessage::Join { username } => {
            if let Some(id) = user_id {
                if !name_table_contains(usernames, username.as_str()) {
                    let ghost before = broadcast_tx@;
                    let ghost users0 = user_table(*users);
                    let ghost names0 = name_table(*usernames);
                    handle_leave(users, usernames, broadcast_tx, id);
                    let ghost middle = broadcast_tx@;
                    let response = handle_join(users, usernames, broadcast_tx, username);
                    proof {
                        lemma_appended_twice(before, middle, broadcast_tx@);
                        if users0.dom().contains(id) {
                            assert(appended(before, broadcast_tx@) =~= seq![
                                left_notice(id, users0[id]),
                                appended(middle, broadcast_tx@)[0],
                            ]);
                        } else {
                            assert(appended(before, broadcast_tx@) =~= appended(
                                middle,
                                broadcast_tx@,
                            ));
                        }
                    }
                    return response;
                }
            }
            handle_join(users, usernames, broadcast_tx, username)
        },
        ClientMessage::Leave => {
            if let Some(user_id) = user_id {
                handle_leave(users, usernames, broadcast_tx, user_id)
            } else {
                proof {
                    lemma_nothing_appended(broadcast_tx@);
                }
                Some(ServerMessage::Error { error: String::from_str("Not joined to a chat room") })
            }
        },
        ClientMessage::SendMessage { content } => {
            if let Some(user_id) = user_id {
                handle_send_message(users, broadcast_tx, user_id, content)
            } else {
                proof {
                    lemma_nothing_appended(broadcast_tx@);
                }
                Some(
                    ServerMessage::Error { error: String::from_str("Must join a chat room first") },
                )
            }
        },
    }
}

fn handle_join(
    users: &mut UserStore,
    usernames: &mut UsernameStore,
    broadcast_tx: &mut Vec<Broadcast>,
    username: String,
) -> (response: Option<ServerMessage>)
    ensures
        extends(old(broadcast_tx)@, final(broadcast_tx)@),
        handled(
            user_table(*old(users)),
            name_table(*old(usernames)),
            None,
            ClientMessageModel::Join(username@),
            user_table(*final(users)),
            name_table(*final(usernames)),
            appended(old(broadcast_tx)@, final(broadcast_tx)@),
            reply_view(response),
        ),
{
    let name = username.clone();
    match add_user(users, usernames, username) {
        Ok(user_id) => {
            let notice = Broadcast {
                sender: user_id,
                message: ServerMessage::UserJoined { username: name },
            };
            proof {
                lemma_push_appended(broadcast_tx@, notice);
            }
            broadcast_tx.push(notice);
            Some(ServerMessage::JoinSuccess { user_id })
        },
        Err(error) => {
            proof {
                lemma_nothing_appended(broadcast_tx@);
            }
            Some(ServerMessage::JoinError { error })
        },
    }
}

fn handle_leave(
    users: &mut UserStore,
    usernames: &mut UsernameStore,
    broadcast_tx: &mut Vec<Broadcast>,
    user_id: u128,
) -> (response: Option<ServerMessage>)
    ensures
        extends(old(broadcast_tx)@, final(broadcast_tx)@),
        handled(
            user_table(*old(users)),
            name_table(*old(usernames)),
            Some(user_id),
            ClientMessageModel::Leave,
            user_table(*final(users)),
            name_table(*final(usernames)),
            appended(old(broadcast_tx)@, final(broadcast_tx)@),
            reply_view(response),
        ),
{
    if let Some(username) = remove_user(users, usernames, user_id) {
        let notice = Broadcast { sender: user_id, message: ServerMessage::UserLeft { username } };
        proof {
            lemma_push_appended(broadcast_tx@, notice);
        }
        broadcast_tx.push(notice);
    } else {
        proof {
            lemma_nothing_appended(broadcast_tx@);
        }
    }
    None
}

fn handle_send_message(
    users: &UserStore,
    broadcast_tx: &mut Vec<Broadcast>,
    user_id: u128,
    content: String,
) -> (response: Option<ServerMessage>)
    ensures
        extends(old(broadcast_tx)@, final(broadcast_tx)@),
        user_table(*users).dom().contains(user_id) ==> {
            &&& appended(old(broadcast_tx)@, final(broadcast_tx)@) == seq![
                chat_message(user_id, user_table(*users)[user_id], content@),
            ]
            &&& response is None
        },
        !user_table(*users).dom().contains(user_id) ==> {
            &&& appended(old(broadcast_tx)@, final(broadcast_tx)@) == Seq::<
                BroadcastModel,
            >::empty()
            &&& reply_view(response) == Some(ServerMessageModel::Error(user_not_found_text()))
        },
{
    if let Some(user) = get_user(users, user_id) {
        let message = Broadcast {
            sender: user_id,
            message: ServerMessage::Message { username: user.username, content },
        };
        proof {
            lemma_push_appended(broadcast_tx@, message);
        }
        broadcast_tx.push(message);
        None
    } else {
        proof {
            lemma_nothing_appended(broadcast_tx@);
        }
        Some(ServerMessage::Error { error: String::from_str("User not found") })
    }
}

/// The reply to a text frame that is not a client message.
pub open spec fn invalid_format_text() -> Seq<char> {
    "Invalid message format"@
}

/// The session id after a reply: a `JoinSuccess` sets it, anything else
/// leaves it.
pub open spec fn session_after(session: Option<u128>, reply: Option<ServerMessageModel>) -> Option<
    u128,
> {
    match reply {
        Some(ServerMessageModel::JoinSuccess(id)) => Some(id),
        _ => session,
    }
}

/// Handles one text frame of a connection whose session holds `session`.
/// `parsed` is the frame read as a client message, `None` when it is not
/// one. A successful join stores the new id in the session.
pub fn handle_text_frame(
    users: &mut UserStore,
    usernames: &mut UsernameStore,
    broadcast_tx: &mut Vec<Broadcast>,
    session: &mut Option<u128>,
    parsed: Option<ClientMessage>,
) -> (response: Option<ServerMessage>)
    ensures
        extends(old(broadcast_tx)@, final(broadcast_tx)@),
        parsed is None ==> {
            &&& reply_view(response) == Some(ServerMessageModel::Error(invalid_format_text()))
            &&& user_table(*final(users)) == user_table(*old(users))
            &&& name_table(*final(usernames)) == name_table(*old(usernames))
            &&& final(broadcast_tx)@ == old(broadcast_tx)@
            &&& *final(session) == *old(session)
        },
        parsed matches Some(message) ==> {
            &&& handled(
                user_table(*old(users)),
                name_table(*old(usernames)),
                *old(session),
                message@,
                user_table(*final(users)),
                name_table(*final(usernames)),
                appended(old(broadcast_tx)@, final(broadcast_tx)@),
                reply_view(response),
            )
            &&& *final(session) == session_after(*old(session), reply_view(response))
        },
{
    match parsed {
        Some(message) => {
            let response = handle_message(users, usernames, broadcast_tx, *session, message);
            if let Some(ServerMessage::JoinSuccess { user_id }) = &response {
                *session = Some(*user_id);
            }
            response
        },
        None => {
            proof {
                lemma_nothing_appended(broadcast_tx@);
            }
            Some(ServerMessage::Error { error: String::from_str("Invalid message format") })
        },
    }
}

/// Cleans up after a connection closes: a session that holds an id leaves
/// the room as a `Leave` would.
pub fn handle_disconnect(
    users: &mut UserStore,
    usernames: &mut UsernameStore,
    broadcast_tx: &mut Vec<Broadcast>,
    session: Option<u128>,
)
    ensures
        extends(old(broadcast_tx)@, final(broadcast_tx)@),
        session is None ==> {
            &&& user_table(*final(users)) == user_table(*old(users))
            &&& name_table(*final(usernames)) == name_table(*old(usernames))
            &&& final(broadcast_tx)@ == old(broadcast_tx)@
        },
        session is Some ==> handled(
            user_table(*old(users)),
            name_table(*old(usernames)),
            session,
            ClientMessageModel::Leave,
            user_table(*final(users)),
            name_table(*final(usernames)),
            appended(old(broadcast_tx)@, final(broadcast_tx)@),
            None,
        ),
{
    if session.is_some() {
        let _ = handle_message(users, usernames, broadcast_tx, session, ClientMessage::Leave);
    } else {
        proof {
            lemma_nothing_appended(broadcast_tx@);
        }
    }
}

/// A join under a free name registers the new user under the id it
/// answers, unregisters the joining session's previous user if it is still
/// registered, and touches no other user or name. The room hears the old
/// user leave, then the new user join.
pub proof fn law_join_free_name(
    users: Map<u128, Seq<char>>,
    names: Map<Seq<char>, u128>,
    session: Option<u128>,
    name: Seq<char>,
    users2: Map<u128, Seq<char>>,
    names2: Map<Seq<char>, u128>,
    broadcasts: Seq<BroadcastModel>,
    reply: Option<ServerMessageModel>,
)
    requires
        !names.dom().contains(name),
        handled(
            users,
            names,
            session,
            ClientMessageModel::Join(name),
            users2,
            names2,
            broadcasts,
            reply,
        ),
    ensures
        reply matches Some(ServerMessageModel::JoinSuccess(id)) && {
            &&& users2.dom().contains(id) && users2[id] == name
            &&& names2.dom().contains(name) && names2[name] == id
            &&& forall|x: u128|
                #![trigger users2.dom().contains(x)]
                #![trigger users.dom().contains(x)]
                x != id && session != Some(x) ==> (users2.dom().contains(x) == users.dom().contains(
                    x,
                ) && (users.dom().contains(x) ==> users2[x] == users[x]))
            &&& forall|n: Seq<char>|
                #![trigger names2.dom().contains(n)]
                #![trigger names.dom().contains(n)]
                n != name && !(session is Some && users.dom().contains(session->Some_0) && n
                    == users[session->Some_0]) ==> (names2.dom().contains(n) == names.dom().contains(n) && (
                names.dom().contains(n) ==> names2[n] == names[n]))
            &&& (session is Some && users.dom().contains(session->Some_0) && session->Some_0
                != id) ==> {
                &&& !users2.dom().contains(session->Some_0)
                &&& users[session->Some_0] != name ==> !names2.dom().contains(
                    users[session->Some_0],
                )
            }
            &&& broadcasts.len() > 0
            &&& broadcasts.last() == BroadcastModel {
                sender: id,
                message: ServerMessageModel::UserJoined(name),
            }
            &&& (session is Some && users.dom().contains(session->Some_0)) ==> {
                &&& broadcasts.len() == 2
                &&& broadcasts[0] == BroadcastModel {
                    sender: session->Some_0,
                    message: ServerMessageModel::UserLeft(users[session->Some_0]),
                }
            }
            &&& !(session is Some && users.dom().contains(session->Some_0)) ==> broadcasts.len() == 1
        },
{
    let id = reply->Some_0->JoinSuccess_0;
    if session is Some && users.dom().contains(session->Some_0) {
        let prev = session->Some_0;
        assert(users2 == users.remove(prev).insert(id, name));
        assert(names2 == names.remove(users[prev]).insert(name, id));
        assert(broadcasts.last() == BroadcastModel {
            sender: id,
            message: ServerMessageModel::UserJoined(name),
        });
    } else {
        assert(users2 == users.insert(id, name));
        assert(names2 == names.insert(name, id));
        assert(broadcasts.last() == BroadcastModel {
            sender: id,
            message: ServerMessageModel::UserJoined(name),
        });
    }
}

/// A join under a taken name is refused with a text that names it, and
/// changes and broadcasts nothing, whatever the session holds.
pub proof fn law_join_taken_name(
    users: Map<u128, Seq<char>>,
    names: Map<Seq<char>, u128>,
    session: Option<u128>,
    name: Seq<char>,
    users2: Map<u128, Seq<char>>,
    names2: Map<Seq<char>, u128>,
    broadcasts: Seq<BroadcastModel>,
    reply: Option<ServerMessageModel>,
)
    requires
        names.dom().contains(name),
        handled(
            users,
            names,
            session,
            ClientMessageModel::Join(name),
            users2,
            names2,
            broadcasts,
            reply,
        ),
    ensures
        reply == Some(
            ServerMessageModel::JoinError("Username '"@ + name + "' is already taken"@),
        ),
        users2 == users,
        names2 == names,
        broadcasts.len() == 0,
{
}

/// A leave unregisters exactly the session's user and its name, if it is
/// registered, tells the room, and answers nothing; from a session that
/// never joined it is answered with an error and changes nothing.
pub proof fn law_leave(
    users: Map<u128, Seq<char>>,
    names: Map<Seq<char>, u128>,
    session: Option<u128>,
    users2: Map<u128, Seq<char>>,
    names2: Map<Seq<char>, u128>,
    broadcasts: Seq<BroadcastModel>,
    reply: Option<ServerMessageModel>,
)
    requires
        handled(users, names, session, ClientMessageModel::Leave, users2, names2, broadcasts, reply),
    ensures
        session is None ==> {
            &&& reply == Some(ServerMessageModel::Error("Not joined to a chat room"@))
            &&& users2 == users && names2 == names && broadcasts.len() == 0
        },
        session matches Some(id) ==> {
            &&& reply is None
            &&& !users2.dom().contains(id)
            &&& forall|x: u128|
                #![trigger users2.dom().contains(x)]
                #![trigger users.dom().contains(x)]
                x != id ==> (users2.dom().contains(x) == users.dom().contains(x) && (
                users.dom().contains(x) ==> users2[x] == users[x]))
            &&& users.dom().contains(id) ==> {
                &&& !names2.dom().contains(users[id])
                &&& forall|n: Seq<char>|
                    #![trigger names2.dom().contains(n)]
                    #![trigger names.dom().contains(n)]
                    n != users[id] ==> (names2.dom().contains(n) == names.dom().contains(n) && (
                    names.dom().contains(n) ==> names2[n] == names[n]))
                &&& broadcasts == seq![
                    BroadcastModel { sender: id, message: ServerMessageModel::UserLeft(users[id]) },
                ]
            }
            &&& !users.dom().contains(id) ==> users2 == users && names2 == names
                && broadcasts.len() == 0
        },
{
}

/// A chat message never changes the registry. From a registered user it is
/// broadcast once, whatever its content, under that user's id and name,
/// with no reply; otherwise nothing is broadcast and the reply is an error.
pub proof fn law_send(
    users: Map<u128, Seq<char>>,
    names: Map<Seq<char>, u128>,
    session: Option<u128>,
    content: Seq<char>,
    users2: Map<u128, Seq<char>>,
    names2: Map<Seq<char>, u128>,
    broadcasts: Seq<BroadcastModel>,
    reply: Option<ServerMessageModel>,
)
    requires
        handled(
            users,
            names,
            session,
            ClientMessageModel::SendMessage(content),
            users2,
            names2,
            broadcasts,
            reply,
        ),
    ensures
        users2 == users,
        names2 == names,
        (session is Some && users.dom().contains(session->Some_0)) ==> {
            &&& reply is None
            &&& broadcasts.len() == 1
            &&& broadcasts[0].sender == session->Some_0
            &&& broadcasts[0].message == ServerMessageModel::Message(
                users[session->Some_0],
                content,
            )
        },
        session is None ==> broadcasts.len() == 0 && reply == Some(
            ServerMessageModel::Error("Must join a chat room first"@),
        ),
        session matches Some(id) && !users.dom().contains(id) ==> broadcasts.len() == 0 && reply
            == Some(ServerMessageModel::Error("User not found"@)),
{
}

/// The session holds the id of the last successful join; nothing else
/// changes it.
pub proof fn law_session_follows_joins(session: Option<u128>, reply: Option<ServerMessageModel>)
    ensures
        reply matches Some(ServerMessageModel::JoinSuccess(id)) ==> session_after(session, reply)
            == Some(id),
        !(reply matches Some(ServerMessageModel::JoinSuccess(_))) ==> session_after(session, reply)
            == session,
        invalid_format_text() == "Invalid message format"@,
{
}

/// A join from a session that holds no registered user, succeeding under
/// an id not in use, followed by a leave from that session, gives back the
/// registry as it was, tells the room that the user joined and left, and
/// answers nothing.
pub proof fn law_join_then_leave_restores(
    users: Map<u128, Seq<char>>,
    names: Map<Seq<char>, u128>,
    session: Option<u128>,
    name: Seq<char>,
    id: u128,
    users1: Map<u128, Seq<char>>,
    names1: Map<Seq<char>, u128>,
    broadcasts1: Seq<BroadcastModel>,
    users2: Map<u128, Seq<char>>,
    names2: Map<Seq<char>, u128>,
    broadcasts2: Seq<BroadcastModel>,
    reply2: Option<ServerMessageModel>,
)
    requires
        !session_registered(users, session),
        handled(
            users,
            names,
            session,
            ClientMessageModel::Join(name),
            users1,
            names1,
            broadcasts1,
            Some(ServerMessageModel::JoinSuccess(id)),
        ),
        !users.dom().contains(id),
        handled(
            users1,
            names1,
            Some(id),
            ClientMessageModel::Leave,
            users2,
            names2,
            broadcasts2,
            reply2,
        ),
    ensures
        users2 == users,
        names2 == names,
        broadcasts1 == seq![joined_notice(id, name)],
        broadcasts2 == seq![left_notice(id, name)],
        reply2 is None,
{
    assert(users.insert(id, name).remove(id) =~= users);
    assert(names.insert(name, id).remove(name) =~= names);
}

/// A join under a name that is taken is answered with `JoinError` and
/// changes nothing; a join under a free name is answered with
/// `JoinSuccess`.
pub proof fn law_join_refused_iff_taken(
    users: Map<u128, Seq<char>>,
    names: Map<Seq<char>, u128>,
    session: Option<u128>,
    name: Seq<char>,
    users2: Map<u128, Seq<char>>,
    names2: Map<Seq<char>, u128>,
    broadcasts: Seq<BroadcastModel>,
    reply: Option<ServerMessageModel>,
)
    requires
        handled(
            users,
            names,
            session,
            ClientMessageModel::Join(name),
            users2,
            names2,
            broadcasts,
            reply,
        ),
    ensures
        names.dom().contains(name) <==> reply == Some(ServerMessageModel::JoinError(taken_message(name))),
        !names.dom().contains(name) <==> reply matches Some(ServerMessageModel::JoinSuccess(_)),
        names.dom().contains(name) ==> users2 == users && names2 == names && broadcasts.len() == 0,
{
}

/// A successful join from a session whose user is still registered
/// replaces that user: the old user is unregistered, and its leaving is
/// announced before the new user's joining.
pub proof fn law_rejoin_replaces_user(
    users: Map<u128, Seq<char>>,
    names: Map<Seq<char>, u128>,
    old_id: u128,
    name: Seq<char>,
    id: u128,
    users2: Map<u128, Seq<char>>,
    names2: Map<Seq<char>, u128>,
    broadcasts: Seq<BroadcastModel>,
)
    requires
        users.dom().contains(old_id),
        !users.dom().contains(id),
        handled(
            users,
            names,
            Some(old_id),
            ClientMessageModel::Join(name),
            users2,
            names2,
            broadcasts,
            Some(ServerMessageModel::JoinSuccess(id)),
        ),
    ensures
        !users2.dom().contains(old_id),
        users2.dom().contains(id) && users2[id] == name,
        broadcasts == seq![left_notice(old_id, users[old_id]), joined_notice(id, name)],
{
}

/// Every step keeps the registry consistent, so usernames stay unique,
/// provided that a successful join was given an id not already in use.
pub proof fn law_step_keeps_consistent(
    users: Map<u128, Seq<char>>,
    names: Map<Seq<char>, u128>,
    session: Option<u128>,
    message: ClientMessageModel,
    users2: Map<u128, Seq<char>>,
    names2: Map<Seq<char>, u128>,
    broadcasts: Seq<BroadcastModel>,
    reply: Option<ServerMessageModel>,
)
    requires
        registry_consistent(users, names),
        handled(users, names, session, message, users2, names2, broadcasts, reply),
        reply matches Some(ServerMessageModel::JoinSuccess(id)) ==> !users.dom().contains(id),
    ensures
        registry_consistent(users2, names2),
{
    match message {
        ClientMessageModel::Join(name) => {
            if !names.dom().contains(name) {
                let id = reply->Some_0->JoinSuccess_0;
                if session_registered(users, session) {
                    let old_id = session->Some_0;
                    law_unregister_keeps_consistent(users, names, old_id);
                    law_register_keeps_consistent(
                        users.remove(old_id),
                        names.remove(users[old_id]),
                        id,
                        name,
                    );
                } else {
                    law_register_keeps_consistent(users, names, id, name);
                }
            }
        },
        ClientMessageModel::Leave => {
            if let Some(id) = session {
                if users.dom().contains(id) {
                    law_unregister_keeps_consistent(users, names, id);
                }
            }
        },
        ClientMessageModel::SendMessage(_) => {},
    }
}

/// A message is broadcast only on behalf of a registered user, under that
/// user's registered name and id, and the registry does not change.
pub proof fn law_message_speaks_for_sender(
    users: Map<u128, Seq<char>>,
    names: Map<Seq<char>, u128>,
    session: Option<u128>,
    content: Seq<char>,
    users2: Map<u128, Seq<char>>,
    names2: Map<Seq<char>, u128>,
    broadcasts: Seq<BroadcastModel>,
    reply: Option<ServerMessageModel>,
)
    requires
        handled(
            users,
            names,
            session,
            ClientMessageModel::SendMessage(content),
            users2,
            names2,
            broadcasts,
            reply,
        ),
    ensures
        users2 == users,
        names2 == names,
        broadcasts.len() <= 1,
        broadcasts.len() == 1 <==> session_registered(users, session),
        broadcasts.len() == 1 ==> broadcasts[0] == chat_message(
            session->Some_0,
            users[session->Some_0],
            content,
        ),
        broadcasts.len() == 1 <==> reply is None,
{
}

/// A chat message reaches every connection except the sender's: the
/// session that sent it does not receive it, and every other session does.
pub proof fn law_message_not_echoed(
    users: Map<u128, Seq<char>>,
    names: Map<Seq<char>, u128>,
    session: Option<u128>,
    content: Seq<char>,
    users2: Map<u128, Seq<char>>,
    names2: Map<Seq<char>, u128>,
    broadcasts: Seq<BroadcastModel>,
    reply: Option<ServerMessageModel>,
    other: Option<u128>,
)
    requires
        handled(
            users,
            names,
            session,
            ClientMessageModel::SendMessage(content),
            users2,
            names2,
            broadcasts,
            reply,
        ),
        broadcasts.len() == 1,
    ensures
        !delivered_to(broadcasts[0], session),
        other != session ==> delivered_to(broadcasts[0], other),
{
}

/// The ids a session has joined under, after a reply: a `JoinSuccess` adds
/// its id.
pub open spec fn joined_after(joined: Set<u128>, reply: Option<ServerMessageModel>) -> Set<u128> {
    match reply {
        Some(ServerMessageModel::JoinSuccess(id)) => joined.insert(id),
        _ => joined,
    }
}

/// Of the ids a session has joined under, only the one it holds now may
/// still be registered.
pub open spec fn session_tidy(users: Map<u128, Seq<char>>, session: Option<u128>, joined: Set<
    u128,
>) -> bool {
    forall|id: u128|
        #![trigger joined.contains(id)]
        joined.contains(id) && session != Some(id) ==> !users.dom().contains(id)
}

/// A new session has joined under no id.
pub proof fn law_new_session_tidy(users: Map<u128, Seq<char>>)
    ensures
        session_tidy(users, None, Set::empty()),
{
}

/// Each frame of a session keeps it tidy: a new join first unregisters the
/// session's previous user, so at most one user of the session is
/// registered at a time, and it is the one whose id the session holds. A
/// successful join is taken to get an id not in use.
pub proof fn law_session_stays_tidy(
    users: Map<u128, Seq<char>>,
    names: Map<Seq<char>, u128>,
    session: Option<u128>,
    joined: Set<u128>,
    message: ClientMessageModel,
    users2: Map<u128, Seq<char>>,
    names2: Map<Seq<char>, u128>,
    broadcasts: Seq<BroadcastModel>,
    reply: Option<ServerMessageModel>,
)
    requires
        session_tidy(users, session, joined),
        handled(users, names, session, message, users2, names2, broadcasts, reply),
        reply matches Some(ServerMessageModel::JoinSuccess(id)) ==> !users.dom().contains(id),
    ensures
        session_tidy(users2, session_after(session, reply), joined_after(joined, reply)),
{
    let session2 = session_after(session, reply);
    let joined2 = joined_after(joined, reply);
    assert forall|id: u128|
        #![trigger joined2.contains(id)]
        joined2.contains(id) && session2 != Some(id) implies !users2.dom().contains(id) by {
        if joined.contains(id) && session != Some(id) {
            assert(!users.dom().contains(id));
        }
    }
}

/// When a tidy session closes, none of the users it joined as is left in
/// either store: no id it joined under is registered, and no registered name
/// leads to one.
pub proof fn law_disconnect_leaves_nothing(
    users: Map<u128, Seq<char>>,
    names: Map<Seq<char>, u128>,
    session: Option<u128>,
    joined: Set<u128>,
    users2: Map<u128, Seq<char>>,
    names2: Map<Seq<char>, u128>,
    broadcasts: Seq<BroadcastModel>,
)
    requires
        registry_consistent(users, names),
        session_tidy(users, session, joined),
        session is None ==> users2 == users && names2 == names,
        session is Some ==> handled(
            users,
            names,
            session,
            ClientMessageModel::Leave,
            users2,
            names2,
            broadcasts,
            None,
        ),
    ensures
        forall|id: u128| #[trigger] joined.contains(id) ==> !users2.dom().contains(id),
        forall|name: Seq<char>| #[trigger]
            names2.dom().contains(name) ==> !joined.contains(names2[name]),
{
    if session is Some {
        law_step_keeps_consistent(
            users,
            names,
            session,
            ClientMessageModel::Leave,
            users2,
            names2,
            broadcasts,
            None,
        );
    }
    assert forall|name: Seq<char>| #[trigger]
        names2.dom().contains(name) implies !joined.contains(names2[name]) by {
        assert(users2.dom().contains(names2[name]));
    }
}

} // verus!
