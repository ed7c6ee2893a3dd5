//! The wire grammar of the relay.
//!
//! Inbound lines (newline already stripped by the reader):
//! `JOIN <username>` with a non-empty username, `MSG <body>` with a possibly
//! empty body, and the bare word `LEAVE`. Outbound lines carry their
//! terminating newline: `FROM <sender> <body>` for a relayed message and
//! `ERROR Username already taken` for a rejected join.

use vstd::prelude::*;

verus! {

use vstd::string::StrSliceExecFns;
use vstd::string::StringExecFns;

/// A well-formed join request: `JOIN ` followed by a non-empty username.
/// The username is everything after the first space, so it may itself
/// contain spaces.
pub open spec fn is_join_line(line: Seq<char>) -> bool {
    line.len() > 5 && line.subrange(0, 5) == "JOIN "@
}

/// The username carried by a well-formed join request.
pub open spec fn join_username(line: Seq<char>) -> Seq<char> {
    line.subrange(5, line.len() as int)
}

/// A broadcast request: `MSG ` followed by the body, which may be empty.
pub open spec fn is_msg_line(line: Seq<char>) -> bool {
    line.len() >= 4 && line.subrange(0, 4) == "MSG "@
}

/// The body carried by a broadcast request.
pub open spec fn msg_body(line: Seq<char>) -> Seq<char> {
    line.subrange(4, line.len() as int)
}

/// A graceful-disconnect request: exactly the word `LEAVE`.
pub open spec fn is_leave_line(line: Seq<char>) -> bool {
    line == "LEAVE"@
}

/// Wire form of one relayed message, newline included.
pub open spec fn envelope_spec(sender: Seq<char>, body: Seq<char>) -> Seq<char> {
    "FROM "@ + sender + " "@ + body + "\n"@
}

/// The reply sent when a join names a username that is already registered.
pub open spec fn taken_error_spec() -> Seq<char> {
    "ERROR Username already taken\n"@
}

/// Parses a `JOIN` request; returns the username exactly when the line is a
/// well-formed join.
pub fn parse_join(line: &str) -> (r: Option<String>)
    ensures
        r is Some <==> is_join_line(line@),
        r matches Some(u) ==> u@ == join_username(line@),
{
    proof {
        reveal_strlit("JOIN ");
    }
    let n = line.unicode_len();
    if n < 6 {
        return None;
    }
    if line.get_char(0) == 'J' && line.get_char(1) == 'O' && line.get_char(2) == 'I'
        && line.get_char(3) == 'N' && line.get_char(4) == ' ' {
        proof {
            assert(line@.subrange(0, 5) =~= "JOIN "@);
        }
        let user = line.substring_char(5, n);
        Some(user.to_owned())
    } else {
        proof {
            if is_join_line(line@) {
                assert(line@.subrange(0, 5)[0] == line@[0]);
                assert(line@.subrange(0, 5)[1] == line@[1]);
                assert(line@.subrange(0, 5)[2] == line@[2]);
                assert(line@.subrange(0, 5)[3] == line@[3]);
                assert(line@.subrange(0, 5)[4] == line@[4]);
            }
        }
        None
    }
}

/// Parses a `MSG` request; returns the body exactly when the line is a
/// well-formed broadcast request.
pub fn parse_msg(line: &str) -> (r: Option<String>)
    ensures
        r is Some <==> is_msg_line(line@),
        r matches Some(b) ==> b@ == msg_body(line@),
{
    proof {
        reveal_strlit("MSG ");
    }
    let n = line.unicode_len();
    if n < 4 {
        return None;
    }
    if line.get_char(0) == 'M' && line.get_char(1) == 'S' && line.get_char(2) == 'G'
        && line.get_char(3) == ' ' {
        proof {
            assert(line@.subrange(0, 4) =~= "MSG "@);
        }
        let body = line.substring_char(4, n);
        Some(body.to_owned())
    } else {
        proof {
            if is_msg_line(line@) {
                assert(line@.subrange(0, 4)[0] == line@[0]);
                assert(line@.subrange(0, 4)[1] == line@[1]);
                assert(line@.subrange(0, 4)[2] == line@[2]);
                assert(line@.subrange(0, 4)[3] == line@[3]);
            }
        }
        None
    }
}

/// Recognizes the `LEAVE` request.
pub fn is_leave(line: &str) -> (r: bool)
    ensures
        r == is_leave_line(line@),
{
    proof {
        reveal_strlit("LEAVE");
    }
    let n = line.unicode_len();
    if n != 5 {
        return false;
    }
    let r = line.get_char(0) == 'L' && line.get_char(1) == 'E' && line.get_char(2) == 'A'
        && line.get_char(3) == 'V' && line.get_char(4) == 'E';
    proof {
        if r {
            assert(line@ =~= "LEAVE"@);
        } else if is_leave_line(line@) {
            assert(line@[0] == "LEAVE"@[0]);
            assert(line@[1] == "LEAVE"@[1]);
            assert(line@[2] == "LEAVE"@[2]);
            assert(line@[3] == "LEAVE"@[3]);
            assert(line@[4] == "LEAVE"@[4]);
        }
    }
    r
}

/// Renders one relayed message for delivery, newline included.
pub fn envelope(sender: &str, body: &str) -> (r: String)
    ensures
        r@ == envelope_spec(sender@, body@),
{
    let mut r = "FROM ".to_owned();
    r.append(sender);
    r.append(" ");
    r.append(body);
    r.append("\n");
    proof {
        assert(r@ =~= envelope_spec(sender@, body@));
    }
    r
}

/// The rejection line for a duplicate username, newline included.
pub fn taken_error_line() -> (r: String)
    ensures
        r@ == taken_error_spec(),
{
    "ERROR Username already taken\n".to_owned()
}

/// Builds the join request a client sends first, newline included.
pub fn join_request(username: &str) -> (r: String)
    ensures
        r@ == "JOIN "@ + username@ + "\n"@,
{
    let mut r = "JOIN ".to_owned();
    r.append(username);
    r.append("\n");
    proof {
        assert(r@ =~= "JOIN "@ + username@ + "\n"@);
    }
    r
}

/// Builds a broadcast request, newline included.
pub fn msg_request(body: &str) -> (r: String)
    ensures
        r@ == "MSG "@ + body@ + "\n"@,
{
    let mut r = "MSG ".to_owned();
    r.append(body);
    r.append("\n");
    proof {
        assert(r@ =~= "MSG "@ + body@ + "\n"@);
    }
    r
}

/// Builds the graceful-disconnect request, newline included.
pub fn leave_request() -> (r: String)
    ensures
        r@ == "LEAVE\n"@,
{
    "LEAVE\n".to_owned()
}

/// A join request built from a non-empty username parses back to exactly
/// that username: the grammar loses nothing.
pub proof fn lemma_join_round_trip(username: Seq<char>)
    requires
        username.len() > 0,
    ensures
        is_join_line("JOIN "@ + username),
        join_username("JOIN "@ + username) == username,
{
    reveal_strlit("JOIN ");
    let line = "JOIN "@ + username;
    assert(line.subrange(0, 5) =~= "JOIN "@);
    assert(line.subrange(5, line.len() as int) =~= username);
}

/// A broadcast request built from any body parses back to exactly that body.
pub proof fn lemma_msg_round_trip(body: Seq<char>)
    ensures
        is_msg_line("MSG "@ + body),
        msg_body("MSG "@ + body) == body,
{
    reveal_strlit("MSG ");
    let line = "MSG "@ + body;
    assert(line.subrange(0, 4) =~= "MSG "@);
    assert(line.subrange(4, line.len() as int) =~= body);
}

} // verus!
