use vstd::prelude::*;
use vstd::string::*;
use crate::protocol::{ClientMessage, ClientMessageModel, ServerMessage, ServerMessageModel};
use crate::text::{decimal, decimal_text, digits_value, law_decimal, same_text, starts_with, trim, trimmed};

verus! {

/// Where a client connects and under which name it joins.
pub struct Args {
    pub host: String,
    pub port: u16,
    pub username: String,
}

/// A chat client, set up with its connection settings.
pub struct ChatClient {
    args: Args,
}

/// The `host:port` address of `args`.
pub open spec fn address_of(args: Args) -> Seq<char> {
    args.host@ + ":"@ + decimal(args.port as nat)
}

/// The address of a server is its host, a colon, and its port in decimal
/// digits; the WebSocket URL is `ws://` followed by the address.
pub proof fn law_address(args: Args)
    ensures
        address_of(args).take(args.host@.len() as int) == args.host@,
        address_of(args)[args.host@.len() as int] == ':',
        digits_value(address_of(args).skip(args.host@.len() as int + 1)) == args.port as int,
        forall|k: int|
            args.host@.len() < k < address_of(args).len() ==> '0' <= #[trigger] address_of(args)[k]
                <= '9',
        ("ws://"@ + address_of(args)).skip(5) == address_of(args),
{
    reveal_strlit(":");
    reveal_strlit("ws://");
    let h = args.host@;
    let d = decimal(args.port as nat);
    law_decimal(args.port as nat);
    assert(address_of(args) == h + seq![':'] + d);
    assert(address_of(args).take(h.len() as int) =~= h);
    assert(address_of(args).skip(h.len() as int + 1) =~= d);
    assert forall|k: int| h.len() < k < address_of(args).len() implies '0' <= #[trigger] address_of(
        args,
    )[k] <= '9' by {
        assert(address_of(args)[k] == d[k - h.len() - 1]);
    }
    assert(("ws://"@ + address_of(args)).skip(5) =~= address_of(args));
}

impl ChatClient {
    /// The settings this client was made with.
    pub closed spec fn settings(&self) -> Args {
        self.args
    }

    pub fn new(args: Args) -> (client: Self)
        ensures
            client.settings() == args,
    {
        Self { args }
    }

    /// The name under which this client joins.
    pub fn username(&self) -> (name: &String)
        ensures
            *name == self.settings().username,
    {
        &self.args.username
    }

    /// The server address, `host:port`.
    pub fn address(&self) -> (addr: String)
        ensures
            addr@ == address_of(self.settings()),
    {
        let mut addr = self.args.host.clone();
        addr.append(":");
        let port = decimal_text(self.args.port);
        addr.append(port.as_str());
        addr
    }

    /// The WebSocket URL of the server, `ws://host:port`.
    pub fn ws_url(&self) -> (url: String)
        ensures
            url@ == "ws://"@ + address_of(self.settings()),
    {
        let addr = self.address();
        String::from_str("ws://").concat(addr.as_str())
    }

    /// The message that joins the room under this client's name.
    pub fn join_message(&self) -> (message: ClientMessage)
        ensures
            message@ == ClientMessageModel::Join(self.settings().username@),
    {
        ClientMessage::Join { username: self.args.username.clone() }
    }
}

/// What a client does with one line that its user typed.
pub enum InputAction {
    /// Nothing was typed: prompt again.
    Nothing,
    /// Send this message to the server and prompt again.
    Send(ClientMessage),
    /// Send this message to the server, say goodbye and stop.
    Quit(ClientMessage),
    /// Show this text to the user and prompt again.
    Notice(String),
}

/// An input action with its text taken as characters.
pub enum InputActionModel {
    Nothing,
    Send(ClientMessageModel),
    Quit(ClientMessageModel),
    Notice(Seq<char>),
}

impl View for InputAction {
    type V = InputActionModel;

    open spec fn view(&self) -> InputActionModel {
        match self {
            InputAction::Nothing => InputActionModel::Nothing,
            InputAction::Send(m) => InputActionModel::Send(m@),
            InputAction::Quit(m) => InputActionModel::Quit(m@),
            InputAction::Notice(text) => InputActionModel::Notice(text@),
        }
    }
}

/// The notice for `send` with nothing after it.
pub open spec fn empty_send_text() -> Seq<char> {
    "Please provide a message to send"@
}

/// The notice for a line that is no command.
pub open spec fn unknown_command_text() -> Seq<char> {
    "Unknown command. Use 'send <message>' to send a message or 'leave' to exit"@
}

/// What a typed line asks for, once trimmed: nothing, `leave`, `send `
/// followed by the message, or something unknown.
pub open spec fn input_action(line: Seq<char>) -> InputActionModel {
    let t = trimmed(line);
    let send = "send "@;
    if t.len() == 0 {
        InputActionModel::Nothing
    } else if t == "leave"@ {
        InputActionModel::Quit(ClientMessageModel::Leave)
    } else if send.len() <= t.len() && t.take(send.len() as int) == send {
        if t.len() == send.len() {
            InputActionModel::Notice(empty_send_text())
        } else {
            InputActionModel::Send(ClientMessageModel::SendMessage(t.skip(send.len() as int)))
        }
    } else {
        InputActionModel::Notice(unknown_command_text())
    }
}

/// Decides what to do with one line typed by the user.
pub fn parse_input(line: &str) -> (action: InputAction)
    ensures
        action@ == input_action(line@),
{
    let t = trim(line);
    if t.unicode_len() == 0 {
        return InputAction::Nothing;
    }
    if same_text(t, "leave") {
        return InputAction::Quit(ClientMessage::Leave);
    }
    let send = "send ";
    if starts_with(t, send) {
        let n = send.unicode_len();
        let len = t.unicode_len();
        if n == len {
            InputAction::Notice(String::from_str("Please provide a message to send"))
        } else {
            let content = String::from_str(t.substring_char(n, len));
            assert(t@.subrange(n as int, len as int) =~= t@.skip(n as int));
            InputAction::Send(ClientMessage::SendMessage { content })
        }
    } else {
        InputAction::Notice(
            String::from_str(
                "Unknown command. Use 'send <message>' to send a message or 'leave' to exit",
            ),
        )
    }
}

/// The messages a client sends for the lines its user types, in order: a
/// `send` line sends its message, the first `leave` line sends `Leave` and
/// ends the input, and every other line sends nothing.
pub open spec fn sent_for(lines: Seq<Seq<char>>) -> Seq<ClientMessageModel>
    decreases lines.len(),
{
    if lines.len() == 0 {
        Seq::empty()
    } else {
        match input_action(lines[0]) {
            InputActionModel::Send(m) => seq![m] + sent_for(lines.drop_first()),
            InputActionModel::Quit(m) => seq![m],
            _ => sent_for(lines.drop_first()),
        }
    }
}

/// How many of the typed lines a client reads: all of them, or up to and
/// including the first `leave` line.
pub open spec fn lines_read(lines: Seq<Seq<char>>) -> nat
    decreases lines.len(),
{
    if lines.len() == 0 {
        0
    } else if input_action(lines[0]) is Quit {
        1
    } else {
        1 + lines_read(lines.drop_first())
    }
}

/// A typed line that sends nothing and does not end the input.
pub open spec fn is_quiet(line: Seq<char>) -> bool {
    input_action(line) is Nothing || input_action(line) is Notice
}

/// None of `lines` ends the input.
pub open spec fn no_quit(lines: Seq<Seq<char>>) -> bool {
    forall|i: int| 0 <= i < lines.len() ==> !(#[trigger] input_action(lines[i]) is Quit)
}

/// Blank lines and lines that are no command send nothing: inserting them
/// anywhere before the first `leave` leaves what the client sends unchanged.
pub proof fn law_quiet_lines_send_nothing(
    before: Seq<Seq<char>>,
    line: Seq<char>,
    after: Seq<Seq<char>>,
)
    requires
        is_quiet(line),
        no_quit(before),
    ensures
        sent_for(before + seq![line] + after) == sent_for(before + after),
    decreases before.len(),
{
    if before.len() == 0 {
        assert((before + seq![line] + after).drop_first() =~= after);
        assert(before + after =~= after);
    } else {
        let rest = before.drop_first();
        assert((before + seq![line] + after).drop_first() =~= rest + seq![line] + after);
        assert((before + after).drop_first() =~= rest + after);
        assert((before + seq![line] + after)[0] == before[0]);
        assert((before + after)[0] == before[0]);
        assert(!(input_action(before[0]) is Quit));
        assert forall|i: int| 0 <= i < rest.len() implies !(#[trigger] input_action(rest[i]) is Quit) by {
            assert(rest[i] == before[i + 1]);
        }
        law_quiet_lines_send_nothing(rest, line, after);
    }
}

/// The typed lines that are not quiet, in order.
pub open spec fn loud_lines(lines: Seq<Seq<char>>) -> Seq<Seq<char>>
    decreases lines.len(),
{
    if lines.len() == 0 {
        Seq::empty()
    } else if is_quiet(lines[0]) {
        loud_lines(lines.drop_first())
    } else {
        seq![lines[0]] + loud_lines(lines.drop_first())
    }
}

/// What a client sends depends only on the lines that are not quiet.
pub proof fn law_only_loud_lines_count(lines: Seq<Seq<char>>)
    ensures
        sent_for(lines) == sent_for(loud_lines(lines)),
    decreases lines.len(),
{
    if lines.len() > 0 {
        law_only_loud_lines_count(lines.drop_first());
        if !is_quiet(lines[0]) {
            let loud = seq![lines[0]] + loud_lines(lines.drop_first());
            assert(loud[0] == lines[0]);
            assert(loud.drop_first() =~= loud_lines(lines.drop_first()));
        }
    }
}

/// Blank lines and lines that are no command, inserted anywhere and in any
/// number, change nothing of what a client sends: two inputs with the same
/// lines that are not quiet send the same messages.
pub proof fn law_quiet_lines_anywhere_send_nothing(lines1: Seq<Seq<char>>, lines2: Seq<Seq<char>>)
    requires
        loud_lines(lines1) == loud_lines(lines2),
    ensures
        sent_for(lines1) == sent_for(lines2),
{
    law_only_loud_lines_count(lines1);
    law_only_loud_lines_count(lines2);
}

/// The first `leave` line ends the input: it is the last line read, the
/// last message sent is `Leave`, and nothing typed after it matters.
pub proof fn law_leave_ends_input(before: Seq<Seq<char>>, line: Seq<char>, after: Seq<Seq<char>>)
    requires
        input_action(line) is Quit,
        no_quit(before),
    ensures
        input_action(line) == InputActionModel::Quit(ClientMessageModel::Leave),
        sent_for(before + seq![line] + after) == sent_for(before + seq![line]),
        sent_for(before + seq![line]).len() > 0,
        sent_for(before + seq![line]).last() == ClientMessageModel::Leave,
        lines_read(before + seq![line] + after) == before.len() + 1,
    decreases before.len(),
{
    if before.len() == 0 {
        assert(before + seq![line] =~= seq![line]);
        assert((before + seq![line] + after)[0] == line);
    } else {
        let rest = before.drop_first();
        assert((before + seq![line] + after).drop_first() =~= rest + seq![line] + after);
        assert((before + seq![line]).drop_first() =~= rest + seq![line]);
        assert((before + seq![line] + after)[0] == before[0]);
        assert((before + seq![line])[0] == before[0]);
        assert(!(input_action(before[0]) is Quit));
        assert forall|i: int| 0 <= i < rest.len() implies !(#[trigger] input_action(rest[i]) is Quit) by {
            assert(rest[i] == before[i + 1]);
        }
        law_leave_ends_input(rest, line, after);
        let tail = sent_for(rest + seq![line]);
        if let InputActionModel::Send(m) = input_action(before[0]) {
            assert((seq![m] + tail).last() == tail.last());
        }
    }
}

/// What a client shows for one server message: the lines to print, and
/// whether it stops listening afterwards.
pub struct Shown {
    pub lines: Vec<String>,
    pub stop: bool,
}

/// The lines shown for `message` by a client named `own`.
pub open spec fn shown_lines(message: ServerMessageModel, own: Seq<char>) -> Seq<Seq<char>> {
    match message {
        ServerMessageModel::JoinSuccess(_) => seq![
            "Successfully joined the chat room!"@,
            "Commands: 'send <message>' to send a message, 'leave' to exit"@,
        ],
        ServerMessageModel::JoinError(error) => seq!["Failed to join: "@ + error],
        ServerMessageModel::UserJoined(name) => if name == own {
            Seq::<Seq<char>>::empty()
        } else {
            seq!["* "@ + name + " joined the chat"@]
        },
        ServerMessageModel::UserLeft(name) => if name == own {
            Seq::<Seq<char>>::empty()
        } else {
            seq!["* "@ + name + " left the chat"@]
        },
        ServerMessageModel::Message(name, content) => seq![name + ": "@ + content],
        ServerMessageModel::Error(error) => seq!["Error: "@ + error],
    }
}

/// Whether a client stops listening after `message`: only a refused join
/// ends it.
pub open spec fn stops_after(message: ServerMessageModel) -> bool {
    message is JoinError
}

/// A client stops listening after a server message exactly when the message
/// is a refused join; no other message ends the listening.
pub proof fn law_stops_only_on_refused_join(message: ServerMessageModel)
    ensures
        stops_after(message) <==> message is JoinError,
        message is JoinSuccess ==> !stops_after(message),
        message is UserJoined ==> !stops_after(message),
        message is UserLeft ==> !stops_after(message),
        message is Message ==> !stops_after(message),
        message is Error ==> !stops_after(message),
{
}

/// What a client prints: its own joining and leaving are not shown, every
/// other user's joining or leaving is one line naming that user, a chat
/// message is one line of name and content, and errors are one line that
/// carries the error text.
pub proof fn law_shown_lines(message: ServerMessageModel, own: Seq<char>)
    ensures
        message matches ServerMessageModel::JoinSuccess(_) ==> shown_lines(message, own) == seq![
            "Successfully joined the chat room!"@,
            "Commands: 'send <message>' to send a message, 'leave' to exit"@,
        ],
        message matches ServerMessageModel::JoinError(e) ==> shown_lines(message, own) == seq![
            "Failed to join: "@ + e,
        ],
        message matches ServerMessageModel::UserJoined(n) ==> {
            &&& n == own ==> shown_lines(message, own).len() == 0
            &&& n != own ==> shown_lines(message, own) == seq!["* "@ + n + " joined the chat"@]
        },
        message matches ServerMessageModel::UserLeft(n) ==> {
            &&& n == own ==> shown_lines(message, own).len() == 0
            &&& n != own ==> shown_lines(message, own) == seq!["* "@ + n + " left the chat"@]
        },
        message matches ServerMessageModel::Message(n, c) ==> shown_lines(message, own) == seq![
            n + ": "@ + c,
        ],
        message matches ServerMessageModel::Error(e) ==> shown_lines(message, own) == seq![
            "Error: "@ + e,
        ],
{
}

/// What a typed line asks for depends only on it trimmed: an empty line
/// asks for nothing, `leave` quits with a `Leave`, and `send ` followed by
/// a non-empty text sends exactly that text; nothing else sends anything.
pub proof fn law_input_commands(line: Seq<char>, content: Seq<char>)
    ensures
        trimmed(line).len() == 0 ==> input_action(line) is Nothing,
        input_action(line) is Quit <==> trimmed(line) == "leave"@,
        input_action(line) is Quit ==> input_action(line) == InputActionModel::Quit(
            ClientMessageModel::Leave,
        ),
        input_action(line) == InputActionModel::Send(ClientMessageModel::SendMessage(content)) <==> (
        content.len() > 0 && trimmed(line) == "send "@ + content),
        input_action(line) is Send || input_action(line) is Quit || input_action(line) is Nothing
            || input_action(line) is Notice,
        !(input_action(line) is Send) && !(input_action(line) is Quit) ==> is_quiet(line),
{
    reveal_strlit("send ");
    reveal_strlit("leave");
    let t = trimmed(line);
    let send = "send "@;
    if content.len() > 0 && t == send + content {
        assert(t.take(5) =~= send);
        assert(t.skip(5) =~= content);
        assert(t.len() > 5);
        assert(t != "leave"@);
    }
    if input_action(line) == InputActionModel::Send(ClientMessageModel::SendMessage(content)) {
        assert(t =~= send + t.skip(5));
    }
}

/// The text of each line, in order.
pub open spec fn line_texts(lines: Seq<String>) -> Seq<Seq<char>> {
    lines.map_values(|l: String| l@)
}

fn joined2(a: &str, b: &str) -> (s: String)
    ensures
        s@ == a@ + b@,
{
    let mut s = String::from_str(a);
    s.append(b);
    s
}

fn joined(a: &str, b: &str, c: &str) -> (s: String)
    ensures
        s@ == a@ + b@ + c@,
{
    let mut s = String::from_str(a);
    s.append(b);
    s.append(c);
    s
}

/// Decides what a client named `own` shows for one server message.
pub fn show_server_message(message: &ServerMessage, own: &String) -> (shown: Shown)
    ensures
        line_texts(shown.lines@) == shown_lines(message@, own@),
        shown.stop == stops_after(message@),
{
    let mut lines: Vec<String> = Vec::new();
    let mut stop = false;
    match message {
        ServerMessage::JoinSuccess { .. } => {
            lines.push(String::from_str("Successfully joined the chat room!"));
            lines.push(
                String::from_str("Commands: 'send <message>' to send a message, 'leave' to exit"),
            );
        },
        ServerMessage::JoinError { error } => {
            lines.push(joined2("Failed to join: ", error.as_str()));
            stop = true;
        },
        ServerMessage::UserJoined { username } => {
            if !username.eq(own) {
                lines.push(joined("* ", username.as_str(), " joined the chat"));
            }
        },
        ServerMessage::UserLeft { username } => {
            if !username.eq(own) {
                lines.push(joined("* ", username.as_str(), " left the chat"));
            }
        },
        ServerMessage::Message { username, content } => {
            lines.push(joined(username.as_str(), ": ", content.as_str()));
        },
        ServerMessage::Error { error } => {
            lines.push(joined2("Error: ", error.as_str()));
        },
    }
    assert(line_texts(lines@) =~= shown_lines(message@, own@));
    Shown { lines, stop }
}

} // verus!
