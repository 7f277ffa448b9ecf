//! The decisions of a line-based chat between clients and a server: how
//! clients are numbered, what the server answers, and which typed lines
//! end a client's session.
use vstd::prelude::*;
use crate::text::{decimal, push_decimal, trim, trim_str};

verus! {

/// The server's answer to every message of a client.
pub open spec fn ack_text(client_id: nat) -> Seq<char> {
    "Message received from Client "@ + decimal(client_id)
}

/// The server's answer to every message of client `client_id`.
pub fn ack_message(client_id: usize) -> (s: String)
    ensures
        s@ == ack_text(client_id as nat),
{
    let mut s = "Message received from Client ".to_owned();
    push_decimal(&mut s, client_id);
    s
}

/// Whether a typed line asks to leave: it reads `exit` once surrounding
/// white space is removed.
pub fn is_exit_command(line: &str) -> (b: bool)
    ensures
        b == (trim(line@) == "exit"@),
{
    proof {
        reveal_strlit("exit");
    }
    let t = trim_str(line);
    if t.unicode_len() != 4 {
        return false;
    }
    let r = t.get_char(0) == 'e' && t.get_char(1) == 'x' && t.get_char(2) == 'i' && t.get_char(3)
        == 't';
    assert(r ==> t@ =~= "exit"@);
    r
}

/// Numbers the clients of the server in order of connection, from 1.
pub struct ClientCounter {
    count: usize,
}

impl View for ClientCounter {
    type V = nat;

    closed spec fn view(&self) -> nat {
        self.count as nat
    }
}

impl ClientCounter {
    /// A counter that has numbered nobody yet.
    pub fn new() -> (c: ClientCounter)
        ensures
            c@ == 0,
    {
        ClientCounter { count: 0 }
    }

    /// The number of clients numbered so far.
    pub fn count(&self) -> (n: usize)
        ensures
            n as nat == self@,
    {
        self.count
    }

    /// The number of the next client: one more than the last.
    pub fn next_id(&mut self) -> (id: usize)
        requires
            old(self)@ < usize::MAX,
        ensures
            final(self)@ == old(self)@ + 1,
            id as nat == final(self)@,
    {
        self.count = self.count + 1;
        self.count
    }
}

} // verus!
