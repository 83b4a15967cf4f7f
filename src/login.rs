use vstd::prelude::*;

use crate::address::SocketAddress;
use crate::registry::AuthorizedSet;
use crate::text::{
    chars_of, contains, find_char, find_from, first_index, occurs_in, push_char, string_of, trim,
    trim_bounds,
};

verus! {

/// The text that marks an output line as a candidate login report.
pub const LOGIN_MARKER: &'static str = "logged in";

/// The text that a kick command starts with; the user name follows it.
pub const KICK_PREFIX: &'static str = "/kick ";

/// Why an output line did not yield a login event.
#[derive(Clone, Copy, Debug, PartialEq, Eq, Structural)]
pub enum LoginError {
    /// A delimiter that the login line shape needs is missing.
    MalformedLogLine,
    /// The address text does not read as a socket address.
    BadAddress,
}

/// The two fields that a login line carries, as text.
#[derive(Debug)]
pub struct LoginFields {
    pub username: String,
    pub address_text: String,
}

/// A login reported by the game server.
#[derive(Debug)]
pub struct LoginEvent {
    pub username: String,
    pub address: SocketAddress,
}

/// Index where the message body starts: just after the third `:` of the line.
pub open spec fn message_start(line: Seq<char>) -> Option<int> {
    match first_index(line, ':') {
        None => None,
        Some(a) => match find_from(line, ':', a + 1) {
            None => None,
            Some(b) => match find_from(line, ':', b + 1) {
                None => None,
                Some(c) => Some(c + 1),
            },
        },
    }
}

/// The text between the first `[` of `msg` (at `open`) and its first `]`,
/// or the end of `msg` where it has no `]`. Empty where that `]` comes first.
pub open spec fn bracket_payload(msg: Seq<char>, open: int) -> Seq<char> {
    let end = match first_index(msg, ']') {
        Some(e) => e,
        None => msg.len() as int,
    };
    if open + 1 <= end {
        msg.subrange(open + 1, end)
    } else {
        Seq::empty()
    }
}

/// The user name and address text of a login line, or why there are none.
///
/// The message body is what follows the third `:`; the user name is the
/// body up to its first `[`, trimmed; the address text is what follows the
/// first `/` of the bracket payload.
pub open spec fn spec_split_login(line: Seq<char>) -> Result<
    (Seq<char>, Seq<char>),
    LoginError,
> {
    match message_start(line) {
        None => Err(LoginError::MalformedLogLine),
        Some(m) => {
            let msg = line.subrange(m, line.len() as int);
            match first_index(msg, '[') {
                None => Err(LoginError::MalformedLogLine),
                Some(open) => {
                    let payload = bracket_payload(msg, open);
                    match first_index(payload, '/') {
                        None => Err(LoginError::MalformedLogLine),
                        Some(k) => Ok(
                            (
                                trim(msg.subrange(0, open)),
                                payload.subrange(k + 1, payload.len() as int),
                            ),
                        ),
                    }
                },
            }
        },
    }
}

/// The command that disconnects `username`, with its line end.
pub open spec fn spec_kick_command(username: Seq<char>) -> Seq<char> {
    KICK_PREFIX@ + username + seq!['\n']
}

/// A copy of `v[lo..hi]`.
fn copy_range(v: &Vec<char>, lo: usize, hi: usize) -> (r: Vec<char>)
    requires
        lo <= hi <= v.len(),
    ensures
        r@ == v@.subrange(lo as int, hi as int),
{
    let mut r: Vec<char> = Vec::new();
    let mut i = lo;
    while i < hi
        invariant
            lo <= i <= hi <= v.len(),
            r@ == v@.subrange(lo as int, i as int),
        decreases hi - i,
    {
        r.push(v[i]);
        i = i + 1;
        assert(r@ =~= v@.subrange(lo as int, i as int));
    }
    r
}

/// Whether an output line carries the login marker.
pub fn is_login_line(line: &str) -> (r: bool)
    ensures
        r == contains(line@, LOGIN_MARKER@),
{
    let v = chars_of(line);
    let marker = chars_of(LOGIN_MARKER);
    occurs_in(&v, &marker)
}

/// Takes a login line apart into its user name and its address text.
///
/// The result depends on the line alone.
pub fn split_login_line(line: &str) -> (r: Result<LoginFields, LoginError>)
    ensures
        match r {
            Ok(f) => spec_split_login(line@) == Ok::<_, LoginError>((f.username@, f.address_text@)),
            Err(e) => spec_split_login(line@) == Err::<(Seq<char>, Seq<char>), _>(e),
        },
{
    let v = chars_of(line);
    let a = match find_char(&v, ':', 0) {
        None => return Err(LoginError::MalformedLogLine),
        Some(a) => a,
    };
    let b = match find_char(&v, ':', a + 1) {
        None => return Err(LoginError::MalformedLogLine),
        Some(b) => b,
    };
    let c = match find_char(&v, ':', b + 1) {
        None => return Err(LoginError::MalformedLogLine),
        Some(c) => c,
    };
    let msg = copy_range(&v, c + 1, v.len());
    let open = match find_char(&msg, '[', 0) {
        None => return Err(LoginError::MalformedLogLine),
        Some(o) => o,
    };
    let end = match find_char(&msg, ']', 0) {
        Some(e) => e,
        None => msg.len(),
    };
    let payload = if open + 1 <= end {
        copy_range(&msg, open + 1, end)
    } else {
        Vec::new()
    };
    assert(payload@ == bracket_payload(msg@, open as int));
    let k = match find_char(&payload, '/', 0) {
        None => return Err(LoginError::MalformedLogLine),
        Some(k) => k,
    };
    let (ulo, uhi) = trim_bounds(&msg, 0, open);
    let username = string_of(&msg, ulo, uhi);
    let address_text = string_of(&payload, k + 1, payload.len());
    Ok(LoginFields { username, address_text })
}

/// Completes a login event from its fields and the socket address that
/// `address_text` reads as, if it reads as one.
pub fn login_event(fields: LoginFields, parsed: Option<SocketAddress>) -> (r: Result<
    LoginEvent,
    LoginError,
>)
    ensures
        match parsed {
            None => r == Err::<LoginEvent, _>(LoginError::BadAddress),
            Some(a) => (r matches Ok(ev) && ev.username@ == fields.username@ && ev.address == a),
        },
{
    match parsed {
        None => Err(LoginError::BadAddress),
        Some(address) => Ok(LoginEvent { username: fields.username, address }),
    }
}

/// The command that disconnects `username`, with its line end.
pub fn kick_command(username: &str) -> (r: String)
    ensures
        r@ == spec_kick_command(username@),
{
    let mut r = String::from_str(KICK_PREFIX);
    r.append(username);
    push_char(&mut r, '\n');
    r
}

/// A line typed on the operator console, as it is written to the game
/// server: with its line end.
pub fn console_command(line: &str) -> (r: String)
    ensures
        r@ == line@.push('\n'),
{
    let mut r = String::from_str(line);
    push_char(&mut r, '\n');
    r
}

/// What to write to the game server for a login event: nothing where its
/// address is authorized, else the kick command for its user name.
pub fn decide_login(set: &AuthorizedSet, event: &LoginEvent) -> (r: Option<String>)
    ensures
        set@.contains(event.address.ip) ==> r is None,
        !set@.contains(event.address.ip) ==> (r matches Some(cmd) && cmd@ == spec_kick_command(
            event.username@,
        )),
{
    if set.is_authorized(event.address.ip) {
        None
    } else {
        Some(kick_command(event.username.as_str()))
    }
}

} // verus!
