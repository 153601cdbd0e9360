//! The remote-console session: packet ids, authentication, the reply size
//! ceiling, the one retry after a lost connection, and the text of commands.
//! The caller performs the reads and writes; this module decides.

use vstd::prelude::*;
use vstd::string::*;

use crate::error::{error_kind, ErrorKind, GameRLError};
use crate::rcon::{from_le_i32, packet_type_code, PacketType, RconPacket};

verus! {

/// Largest reply, in bytes after the size field, that the client reads.
pub const MAX_REPLY_SIZE: i32 = 4096;

/// Reply id by which the server refuses the shared secret.
pub const AUTH_REJECTED_ID: i32 = -1;

/// Reads the size field of a reply. A negative size, or one above
/// `MAX_REPLY_SIZE`, is a protocol error.
pub fn reply_size(header: &[u8]) -> (r: Result<usize, GameRLError>)
    requires
        header@.len() == 4,
    ensures
        (0 <= from_le_i32(header@) <= MAX_REPLY_SIZE) <==> r is Ok,
        r matches Ok(n) ==> n == from_le_i32(header@),
        r matches Err(e) ==> e is ProtocolError,
{
    let n = vstd::bytes::u32_from_le_bytes(header);
    #[verifier::truncate]
    let size = n as i32;
    if size < 0 || size > MAX_REPLY_SIZE {
        Err(GameRLError::ProtocolError("RCON packet too large".to_string()))
    } else {
        Ok(size as usize)
    }
}

/// What the reply to an authentication packet means: `None` when the secret
/// was accepted, else the kind of the failure.
pub open spec fn auth_outcome(reply_id: i32) -> Option<ErrorKind> {
    if reply_id == AUTH_REJECTED_ID {
        Some(ErrorKind::AuthenticationFailed)
    } else {
        None
    }
}

/// Checks the reply to an authentication packet.
pub fn check_auth_reply(reply_id: i32) -> (r: Result<(), GameRLError>)
    ensures
        r is Ok <==> auth_outcome(reply_id) is None,
        r matches Err(e) ==> Some(error_kind(e)) == auth_outcome(reply_id),
{
    if reply_id == AUTH_REJECTED_ID {
        Err(GameRLError::AuthenticationFailed("RCON authentication failed".to_string()))
    } else {
        Ok(())
    }
}

/// A refused secret is told apart from every other failure: the reply id
/// `-1` is an authentication failure, never a lost connection and never a
/// protocol error, and every other reply id is a success.
pub proof fn lemma_auth_failure_distinct(reply_id: i32)
    ensures
        reply_id == -1 ==> auth_outcome(reply_id) == Some(ErrorKind::AuthenticationFailed),
        auth_outcome(reply_id) != Some(ErrorKind::ConnectionLost),
        auth_outcome(reply_id) != Some(ErrorKind::ProtocolError),
        reply_id != -1 ==> auth_outcome(reply_id) is None,
{
}

/// Whether a failed command is tried again: once, after reconnecting, and
/// only when the connection was lost.
pub open spec fn retry_spec(e: GameRLError, already_retried: bool) -> bool {
    !already_retried && error_kind(e) == ErrorKind::ConnectionLost
}

/// Decides whether a failed command is tried again after a reconnect.
pub fn should_retry(e: &GameRLError, already_retried: bool) -> (r: bool)
    ensures
        r == retry_spec(*e, already_retried),
{
    !already_retried && e.kind() == ErrorKind::ConnectionLost
}

/// The id that follows `id`. Ids stay positive: after the largest they wrap
/// to 1, so no packet ever carries the id `-1` by which the server refuses
/// the secret.
pub open spec fn next_id_spec(id: i32) -> i32 {
    if 1 <= id < i32::MAX {
        (id + 1) as i32
    } else {
        1
    }
}

/// Packet ids and authentication state of one console connection.
pub struct ConsoleSession {
    next_id: i32,
    authenticated: bool,
}

impl ConsoleSession {
    /// A session before any connection; ids start at 1.
    pub fn new() -> (r: ConsoleSession)
        ensures
            r.wf(),
            r.next_id() == 1,
            !r.is_authenticated(),
    {
        ConsoleSession { next_id: 1, authenticated: false }
    }

    /// The id the next packet gets.
    pub closed spec fn next_id(&self) -> i32 {
        self.next_id
    }

    /// The session's invariant: the next id is positive.
    pub closed spec fn wf(&self) -> bool {
        self.next_id >= 1
    }

    /// Whether the server accepted the secret on the current connection.
    pub closed spec fn is_authenticated(&self) -> bool {
        self.authenticated
    }

    /// Whether the server accepted the secret on the current connection.
    pub fn is_connected(&self) -> (r: bool)
        ensures
            r == self.is_authenticated(),
    {
        self.authenticated
    }

    fn take_id(&mut self) -> (r: i32)
        requires
            old(self).wf(),
        ensures
            final(self).wf(),
            r >= 1,
            r == old(self).next_id(),
            final(self).next_id() == next_id_spec(r),
            final(self).is_authenticated() == old(self).is_authenticated(),
    {
        let id = self.next_id;
        self.next_id = if id < i32::MAX {
            id + 1
        } else {
            1
        };
        id
    }

    /// Starts a connection: the session is not authenticated until the reply
    /// to the returned authentication packet is checked.
    pub fn begin_auth(&mut self, password: &str) -> (r: RconPacket)
        requires
            old(self).wf(),
        ensures
            final(self).wf(),
            r.id >= 1,
            r.id != AUTH_REJECTED_ID,
            r.id == old(self).next_id(),
            r.packet_type == packet_type_code(PacketType::Auth),
            r.body@ == password@,
            final(self).next_id() == next_id_spec(old(self).next_id()),
            !final(self).is_authenticated(),
    {
        self.authenticated = false;
        let id = self.take_id();
        RconPacket::new(id, PacketType::Auth, password)
    }

    /// Records the reply to the authentication packet.
    pub fn on_auth_reply(&mut self, reply_id: i32) -> (r: Result<(), GameRLError>)
        requires
            old(self).wf(),
        ensures
            final(self).wf(),
            r is Ok <==> auth_outcome(reply_id) is None,
            r matches Err(e) ==> Some(error_kind(e)) == auth_outcome(reply_id),
            final(self).is_authenticated() == (r is Ok),
            final(self).next_id() == old(self).next_id(),
    {
        let r = check_auth_reply(reply_id);
        self.authenticated = r.is_ok();
        r
    }

    /// The packet for a command; a session that is not authenticated gets a
    /// connection error instead, and no id is used.
    pub fn begin_command(&mut self, command: &str) -> (r: Result<RconPacket, GameRLError>)
        requires
            old(self).wf(),
        ensures
            final(self).wf(),
            r matches Ok(p) ==> p.id >= 1,
            r is Ok <==> old(self).is_authenticated(),
            r matches Err(e) ==> e is IpcError,
            r matches Ok(p) ==> p.id == old(self).next_id() && p.packet_type == packet_type_code(
                PacketType::ExecCommand,
            ) && p.body@ == command@,
            final(self).next_id() == if r is Ok {
                next_id_spec(old(self).next_id())
            } else {
                old(self).next_id()
            },
            final(self).is_authenticated() == old(self).is_authenticated(),
    {
        if !self.authenticated {
            return Err(GameRLError::IpcError("RCON not authenticated".to_string()));
        }
        let id = self.take_id();
        Ok(RconPacket::new(id, PacketType::ExecCommand, command))
    }

    /// Marks the connection as lost.
    pub fn mark_disconnected(&mut self)
        requires
            old(self).wf(),
        ensures
            final(self).wf(),
            !final(self).is_authenticated(),
            final(self).next_id() == old(self).next_id(),
    {
        self.authenticated = false;
    }
}

/// A scripting command: the escape prefix `/c ` and the code.
pub fn lua_command(code: &str) -> (r: String)
    ensures
        r@ == "/c "@ + code@,
{
    String::from_str("/c ").concat(code)
}

/// The code of a call into a named remote interface:
/// `remote.call("<interface>", "<function>", <args>)`.
pub open spec fn remote_call_spec(interface: Seq<char>, func: Seq<char>, args: Seq<char>) -> Seq<
    char,
> {
    "remote.call(\""@ + interface + "\", \""@ + func + "\", "@ + args + ")"@
}

/// The code of a call into a named remote interface.
pub fn remote_call_code(interface: &str, func: &str, args: &str) -> (r: String)
    ensures
        r@ == remote_call_spec(interface@, func@, args@),
{
    let s = String::from_str("remote.call(\"").concat(interface).concat("\", \"").concat(
        func,
    ).concat("\", ").concat(args).concat(")");
    s
}

/// Decimal digits of a number, most significant first.
pub open spec fn decimal_spec(n: nat) -> Seq<char>
    decreases n,
{
    if n < 10 {
        seq![digit_char(n)]
    } else {
        decimal_spec(n / 10) + seq![digit_char(n % 10)]
    }
}

/// The character of a decimal digit.
pub open spec fn digit_char(d: nat) -> char {
    "0123456789"@[d as int]
}

fn digit_str(d: u64) -> (r: &'static str)
    requires
        d < 10,
    ensures
        r@ == seq![digit_char(d as nat)],
{
    proof {
        reveal_strlit("0123456789");
    }
    let r = match d {
        0 => "0",
        1 => "1",
        2 => "2",
        3 => "3",
        4 => "4",
        5 => "5",
        6 => "6",
        7 => "7",
        8 => "8",
        _ => "9",
    };
    proof {
        reveal_strlit("0");
        reveal_strlit("1");
        reveal_strlit("2");
        reveal_strlit("3");
        reveal_strlit("4");
        reveal_strlit("5");
        reveal_strlit("6");
        reveal_strlit("7");
        reveal_strlit("8");
        reveal_strlit("9");
    }
    r
}

/// The decimal text of a number.
pub fn decimal(n: u64) -> (r: String)
    ensures
        r@ == decimal_spec(n as nat),
{
    let mut rest = n / 10;
    let mut acc = String::from_str(digit_str(n % 10));
    assert(acc@ =~= seq![digit_char((n % 10) as nat)]);
    while rest > 0
        invariant
            rest <= n,
            decimal_spec(n as nat) == (if rest == 0 {
                Seq::<char>::empty()
            } else {
                decimal_spec(rest as nat)
            }) + acc@,
        decreases rest,
    {
        let d = rest % 10;
        let head = String::from_str(digit_str(d));
        proof {
            if rest / 10 == 0 {
                assert(decimal_spec(rest as nat) == seq![digit_char(d as nat)]);
            } else {
                assert(decimal_spec(rest as nat) == decimal_spec((rest / 10) as nat) + seq![
                    digit_char(d as nat),
                ]);
            }
        }
        acc = head.concat(acc.as_str());
        rest = rest / 10;
        proof {
            if rest == 0 {
                assert(decimal_spec(n as nat) =~= acc@);
            } else {
                assert(decimal_spec(n as nat) =~= decimal_spec(rest as nat) + acc@);
            }
        }
    }
    acc
}

/// Decimal text of a signed number: a minus sign before the digits of a
/// negative one.
pub open spec fn signed_decimal_spec(n: int) -> Seq<char> {
    if n < 0 {
        "-"@ + decimal_spec((-n) as nat)
    } else {
        decimal_spec(n as nat)
    }
}

/// The decimal text of a signed number.
pub fn signed_decimal(n: i32) -> (r: String)
    ensures
        r@ == signed_decimal_spec(n as int),
{
    if n < 0 {
        let m = (-(n as i64)) as u64;
        String::from_str("-").concat(decimal(m).as_str())
    } else {
        decimal(n as u64)
    }
}

/// A text argument of a remote call: the text between double quotes.
pub fn quoted(s: &str) -> (r: String)
    ensures
        r@ == "\""@ + s@ + "\""@,
{
    String::from_str("\"").concat(s).concat("\"")
}

/// The arguments of a step call: the agent, the action's JSON between
/// single quotes, and the tick count.
pub fn step_args(agent_id: &str, action_json: &str, ticks: u32) -> (r: String)
    ensures
        r@ == "\""@ + agent_id@ + "\", '"@ + action_json@ + "', "@ + decimal_spec(ticks as nat),
{
    let t = decimal(ticks as u64);
    String::from_str("\"").concat(agent_id).concat("\", '").concat(action_json).concat("', ").concat(
        t.as_str(),
    )
}

/// The arguments of a registration call: the agent, its type's name, and
/// its configuration's JSON between single quotes.
pub fn register_args(agent_id: &str, kind_name: &str, config_json: &str) -> (r: String)
    ensures
        r@ == "\""@ + agent_id@ + "\", \""@ + kind_name@ + "\", '"@ + config_json@ + "'"@,
{
    String::from_str("\"").concat(agent_id).concat("\", \"").concat(kind_name).concat(
        "\", '",
    ).concat(config_json).concat("'")
}

/// An optional argument: its text, or `nil` when absent.
pub open spec fn or_nil(arg: Option<Seq<char>>) -> Seq<char> {
    match arg {
        Some(a) => a,
        None => "nil"@,
    }
}

/// The arguments of a reset call: the seed and the quoted scenario, each
/// `nil` when absent.
pub fn reset_args(seed: Option<u64>, scenario: Option<&str>) -> (r: String)
    ensures
        r@ == or_nil(
            match seed {
                Some(s) => Some(decimal_spec(s as nat)),
                None => None,
            },
        ) + ", "@ + or_nil(
            match scenario {
                Some(s) => Some("\""@ + s@ + "\""@),
                None => None,
            },
        ),
{
    let a = match seed {
        Some(s) => decimal(s),
        None => String::from_str("nil"),
    };
    let b = match scenario {
        Some(s) => quoted(s),
        None => String::from_str("nil"),
    };
    a.concat(", ").concat(b.as_str())
}

} // verus!
