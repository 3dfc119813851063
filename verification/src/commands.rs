//! The structured commands of the protocol engine: each carries its
//! literal keyword, its fixed set of acceptable status codes, and its
//! operation-specific parameters; and the verified construction of the
//! exact line sent over the control channel.

use vstd::prelude::*;

use crate::codec::{decimal_digits, encode_octets};

verus! {

/// A command's fixed identity: the literal keyword sent on the wire
/// and the ordered set of status codes that count as success. Unused
/// slots hold the sentinel "000", which the matcher never counts as a
/// match.
pub struct BaseCommand {
    pub keyword: String,
    pub codes: Vec<String>,
}

/// Every base command carries exactly this many code slots.
pub const MAX_SUCCESS_RESPONSE_CODES: usize = 5;

impl BaseCommand {
    /// The base command is well formed: all code slots are filled.
    pub open spec fn wf(&self) -> bool {
        self.codes@.len() == MAX_SUCCESS_RESPONSE_CODES
    }
}

/// Builds a base command from its keyword and five code literals.
fn base_command(kw: &str, c0: &str, c1: &str, c2: &str, c3: &str, c4: &str) -> (r: BaseCommand)
    ensures
        r.wf(),
        r.keyword@ == kw@,
        r.codes.deep_view() =~= seq![c0@, c1@, c2@, c3@, c4@],
{
    let mut codes: Vec<String> = Vec::new();
    codes.push(c0.to_owned());
    codes.push(c1.to_owned());
    codes.push(c2.to_owned());
    codes.push(c3.to_owned());
    codes.push(c4.to_owned());
    BaseCommand { keyword: kw.to_owned(), codes }
}

/// The USER command: succeeds when already logged in, when a password
/// is needed, or when an account is needed.
pub fn user_base_command() -> (r: BaseCommand)
    ensures
        r.wf(),
        r.keyword@ == "USER"@,
        r.codes.deep_view() =~= seq!["230"@, "331"@, "332"@, "000"@, "000"@],
{
    base_command("USER", "230", "331", "332", "000", "000")
}

/// The PASS command: succeeds when logged in, when no password was
/// needed, or when an account is needed.
pub fn pass_base_command() -> (r: BaseCommand)
    ensures
        r.wf(),
        r.keyword@ == "PASS"@,
        r.codes.deep_view() =~= seq!["230"@, "202"@, "332"@, "000"@, "000"@],
{
    base_command("PASS", "230", "202", "332", "000", "000")
}

/// The PORT command: succeeds only with the plain acknowledgement.
pub fn port_base_command() -> (r: BaseCommand)
    ensures
        r.wf(),
        r.keyword@ == "PORT"@,
        r.codes.deep_view() =~= seq!["200"@, "000"@, "000"@, "000"@, "000"@],
{
    base_command("PORT", "200", "000", "000", "000", "000")
}

/// The LIST command: succeeds on the transfer-starting and
/// transfer-complete codes.
pub fn list_base_command() -> (r: BaseCommand)
    ensures
        r.wf(),
        r.keyword@ == "LIST"@,
        r.codes.deep_view() =~= seq!["125"@, "150"@, "226"@, "250"@, "000"@],
{
    base_command("LIST", "125", "150", "226", "250", "000")
}

/// The CWD command: succeeds only with the file-action-okay code.
pub fn cwd_base_command() -> (r: BaseCommand)
    ensures
        r.wf(),
        r.keyword@ == "CWD"@,
        r.codes.deep_view() =~= seq!["250"@, "000"@, "000"@, "000"@, "000"@],
{
    base_command("CWD", "250", "000", "000", "000", "000")
}

/// The RETR command: succeeds on the transfer-starting, restart-marker
/// and transfer-complete codes.
pub fn retr_base_command() -> (r: BaseCommand)
    ensures
        r.wf(),
        r.keyword@ == "RETR"@,
        r.codes.deep_view() =~= seq!["125"@, "150"@, "110"@, "226"@, "250"@],
{
    base_command("RETR", "125", "150", "110", "226", "250")
}

/// The QUIT command: succeeds only with the closing-connection code.
pub fn quit_base_command() -> (r: BaseCommand)
    ensures
        r.wf(),
        r.keyword@ == "QUIT"@,
        r.codes.deep_view() =~= seq!["221"@, "000"@, "000"@, "000"@, "000"@],
{
    base_command("QUIT", "221", "000", "000", "000", "000")
}

/// A structured command handed to the dispatcher. Each variant carries
/// its base command and its operation-specific parameters; transfer
/// commands also carry the local data-channel port.
pub enum Command {
    /// Authenticate with a user name.
    User(BaseCommand, String),
    /// Authenticate with a password.
    Pass(BaseCommand, String),
    /// Announce the local data port to the server.
    Port(BaseCommand, u16),
    /// Change the remote working directory.
    Cwd(BaseCommand, String),
    /// List a remote directory (possibly empty, meaning the current
    /// one); the bytes arrive over a data channel on the given port.
    List(BaseCommand, String, u16),
    /// Retrieve a remote file to a local destination path; the bytes
    /// arrive over a data channel on the given port.
    Retr(BaseCommand, String, String, u16),
    /// End the session.
    Quit(BaseCommand),
}

/// The line terminator of the control channel.
pub open spec fn crlf() -> Seq<char> {
    seq!['\r', '\n']
}

/// A command line with one argument: keyword, space, argument, CRLF.
pub open spec fn spec_arg_line(kw: Seq<char>, arg: Seq<char>) -> Seq<char> {
    kw + seq![' '] + arg + crlf()
}

/// A bare command line: keyword, CRLF.
pub open spec fn spec_bare_line(kw: Seq<char>) -> Seq<char> {
    kw + crlf()
}

/// The PORT command line: keyword, space, the comma-terminated octet
/// encoding of the local address, then the high and low bytes of the
/// port in decimal, separated by a comma, then CRLF.
pub open spec fn spec_port_line(kw: Seq<char>, local: Seq<u8>, port: u16) -> Seq<char> {
    kw + seq![' '] + encode_octets(local) + decimal_digits((port / 256) as nat) + seq![',']
        + decimal_digits((port % 256) as nat) + crlf()
}

/// The exact control line a command sends, given the local address's
/// octets (read only by the PORT command). A List of an empty
/// directory argument sends the bare keyword; a non-empty argument is
/// appended after a space.
pub open spec fn spec_command_line(c: Command, local: Seq<u8>) -> Seq<char> {
    match c {
        Command::User(b, name) => spec_arg_line(b.keyword@, name@),
        Command::Pass(b, pw) => spec_arg_line(b.keyword@, pw@),
        Command::Port(b, port) => spec_port_line(b.keyword@, local, port),
        Command::Cwd(b, dir) => spec_arg_line(b.keyword@, dir@),
        Command::List(b, dir, _port) => if dir@.len() == 0 {
            spec_bare_line(b.keyword@)
        } else {
            spec_arg_line(b.keyword@, dir@)
        },
        Command::Retr(b, path, _local_path, _port) => spec_arg_line(b.keyword@, path@),
        Command::Quit(b) => spec_bare_line(b.keyword@),
    }
}

/// The base command of a command.
pub open spec fn spec_base(c: Command) -> BaseCommand {
    match c {
        Command::User(b, _) => b,
        Command::Pass(b, _) => b,
        Command::Port(b, _) => b,
        Command::Cwd(b, _) => b,
        Command::List(b, _, _) => b,
        Command::Retr(b, _, _, _) => b,
        Command::Quit(b) => b,
    }
}

/// The port a data channel must listen on before the command line is
/// sent, for the commands that bear a transfer.
pub open spec fn spec_data_port(c: Command) -> Option<u16> {
    match c {
        Command::List(_, _, port) => Some(port),
        Command::Retr(_, _, _, port) => Some(port),
        _ => None,
    }
}

fn arg_line(kw: &str, arg: &str) -> (r: String)
    ensures
        r@ == spec_arg_line(kw@, arg@),
{
    let mut r = kw.to_owned();
    r.append(" ");
    r.append(arg);
    r.append("\r\n");
    proof {
        reveal_strlit(" ");
        reveal_strlit("\r\n");
        assert(" "@ =~= seq![' ']);
        assert("\r\n"@ =~= crlf());
        assert(r@ =~= spec_arg_line(kw@, arg@));
    }
    r
}

fn bare_line(kw: &str) -> (r: String)
    ensures
        r@ == spec_bare_line(kw@),
{
    let mut r = kw.to_owned();
    r.append("\r\n");
    proof {
        reveal_strlit("\r\n");
        assert("\r\n"@ =~= crlf());
        assert(r@ =~= spec_bare_line(kw@));
    }
    r
}

fn port_line(kw: &str, octets: &Vec<u8>, port: u16) -> (r: String)
    ensures
        r@ == spec_port_line(kw@, octets@, port),
{
    let mut r = kw.to_owned();
    r.append(" ");
    let encoded = crate::codec::convert_local_address(octets);
    r.append(encoded.as_str());
    let hi = crate::codec::decimal_string(port / 256);
    r.append(hi.as_str());
    r.append(",");
    let lo = crate::codec::decimal_string(port % 256);
    r.append(lo.as_str());
    r.append("\r\n");
    proof {
        reveal_strlit(" ");
        reveal_strlit(",");
        reveal_strlit("\r\n");
        assert(" "@ =~= seq![' ']);
        assert(","@ =~= seq![',']);
        assert("\r\n"@ =~= crlf());
        assert(r@ =~= spec_port_line(kw@, octets@, port));
    }
    r
}

impl Command {
    /// The base command: the keyword and the acceptable codes that
    /// every response to this command is validated against.
    pub fn base(&self) -> (b: &BaseCommand)
        ensures
            *b == spec_base(*self),
    {
        match self {
            Command::User(b, _) => b,
            Command::Pass(b, _) => b,
            Command::Port(b, _) => b,
            Command::Cwd(b, _) => b,
            Command::List(b, _, _) => b,
            Command::Retr(b, _, _, _) => b,
            Command::Quit(b) => b,
        }
    }

    /// The port a data channel must be listening on before this
    /// command's line is sent, if the command bears a transfer.
    pub fn data_port(&self) -> (p: Option<u16>)
        ensures
            p == spec_data_port(*self),
    {
        match self {
            Command::List(_, _, port) => Some(*port),
            Command::Retr(_, _, _, port) => Some(*port),
            _ => None,
        }
    }

    /// The exact line this command sends over the control channel.
    /// `local_octets` is the control socket's local address, read only
    /// by the PORT command.
    pub fn line(&self, local_octets: &Vec<u8>) -> (r: String)
        ensures
            r@ == spec_command_line(*self, local_octets@),
    {
        match self {
            Command::User(b, name) => arg_line(b.keyword.as_str(), name.as_str()),
            Command::Pass(b, pw) => arg_line(b.keyword.as_str(), pw.as_str()),
            Command::Port(b, port) => port_line(b.keyword.as_str(), local_octets, *port),
            Command::Cwd(b, dir) => arg_line(b.keyword.as_str(), dir.as_str()),
            Command::List(b, dir, _port) => {
                if dir.as_str().is_empty() {
                    bare_line(b.keyword.as_str())
                } else {
                    arg_line(b.keyword.as_str(), dir.as_str())
                }
            },
            Command::Retr(b, path, _local_path, _port) => arg_line(
                b.keyword.as_str(),
                path.as_str(),
            ),
            Command::Quit(b) => bare_line(b.keyword.as_str()),
        }
    }
}

} // verus!
