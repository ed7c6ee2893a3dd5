//! The client's side of the protocol.
//!
//! The interactive terminal client is a thin I/O loop around this module:
//! it connects, sends the join request, and then maps each local command to
//! a wire line. The mapping from local commands to wire lines is decided
//! here; reading the terminal and the socket stays with the caller.

use vstd::prelude::*;

verus! {

use vstd::string::StrSliceExecFns;
use crate::protocol::join_request;
use crate::protocol::leave_request;
use crate::protocol::msg_request;

/// What one line typed at the client's prompt asks for.
pub enum UserCommand {
    /// `send <text>`: broadcast `<text>`.
    Send(String),
    /// `leave`: disconnect gracefully.
    Leave,
    /// Anything else: show a usage hint, send nothing.
    Unknown,
}

/// A `send <text>` command; the text may be empty.
pub open spec fn is_send_command(line: Seq<char>) -> bool {
    line.len() >= 5 && line.subrange(0, 5) == "send "@
}

/// The text carried by a `send` command.
pub open spec fn send_text(line: Seq<char>) -> Seq<char> {
    line.subrange(5, line.len() as int)
}

/// A `leave` command: exactly the word `leave`.
pub open spec fn is_leave_command(line: Seq<char>) -> bool {
    line == "leave"@
}

/// Classifies one (already trimmed) line typed at the prompt.
pub fn parse_user_command(line: &str) -> (c: UserCommand)
    ensures
        c matches UserCommand::Send(text) ==> is_send_command(line@) && text@ == send_text(line@),
        c is Leave <==> is_leave_command(line@),
        c is Unknown <==> !is_send_command(line@) && !is_leave_command(line@),
{
    proof {
        reveal_strlit("send ");
        reveal_strlit("leave");
    }
    let n = line.unicode_len();
    if n == 5 && line.get_char(0) == 'l' && line.get_char(1) == 'e' && line.get_char(2) == 'a'
        && line.get_char(3) == 'v' && line.get_char(4) == 'e' {
        proof {
            assert(line@ =~= "leave"@);
            if is_send_command(line@) {
                assert(line@.subrange(0, 5)[0] == line@[0]);
            }
        }
        UserCommand::Leave
    } else if n >= 5 && line.get_char(0) == 's' && line.get_char(1) == 'e'
        && line.get_char(2) == 'n' && line.get_char(3) == 'd' && line.get_char(4) == ' ' {
        proof {
            assert(line@.subrange(0, 5) =~= "send "@);
            if is_leave_command(line@) {
                assert(line@[0] == "leave"@[0]);
            }
        }
        let text = line.substring_char(5, n);
        UserCommand::Send(text.to_owned())
    } else {
        proof {
            if is_send_command(line@) {
                assert(line@.subrange(0, 5)[0] == line@[0]);
                assert(line@.subrange(0, 5)[1] == line@[1]);
                assert(line@.subrange(0, 5)[2] == line@[2]);
                assert(line@.subrange(0, 5)[3] == line@[3]);
                assert(line@.subrange(0, 5)[4] == line@[4]);
            }
            if is_leave_command(line@) {
                assert(line@[0] == "leave"@[0]);
                assert(line@[1] == "leave"@[1]);
                assert(line@[2] == "leave"@[2]);
                assert(line@[3] == "leave"@[3]);
                assert(line@[4] == "leave"@[4]);
            }
        }
        UserCommand::Unknown
    }
}

/// One client identity: where to connect and under which name.
pub struct ChatClient {
    pub host: String,
    pub port: u16,
    pub username: String,
}

impl ChatClient {
    /// A client that will connect to `host:port` and join as `username`.
    pub fn new(host: String, port: u16, username: String) -> (c: ChatClient)
        ensures
            c.host == host,
            c.port == port,
            c.username == username,
    {
        ChatClient { host, port, username }
    }

    /// The first line this client writes after connecting.
    pub fn join_line(&self) -> (r: String)
        ensures
            r@ == "JOIN "@ + self.username@ + "\n"@,
    {
        join_request(self.username.as_str())
    }

    /// The wire line for one local command, if it asks to send anything.
    pub fn wire_line(&self, command: &UserCommand) -> (r: Option<String>)
        ensures
            command matches UserCommand::Send(text) ==> (r matches Some(l) && l@ == "MSG "@
                + text@ + "\n"@),
            command is Leave ==> (r matches Some(l) && l@ == "LEAVE\n"@),
            command is Unknown ==> r is None,
    {
        match command {
            UserCommand::Send(text) => Some(msg_request(text.as_str())),
            UserCommand::Leave => Some(leave_request()),
            UserCommand::Unknown => None,
        }
    }
}

} // verus!
