use vstd::prelude::*;
use vstd::string::*;

verus! {

/// The operation that a run performs.
#[derive(Debug, Clone, Copy, PartialEq, Eq, Structural)]
pub enum Command {
    Encrypt,
    Decrypt,
}

/// The command that `name` selects, if any.
pub open spec fn command_named(name: Seq<char>) -> Option<Command> {
    if name == "encrypt"@ {
        Some(Command::Encrypt)
    } else if name == "decrypt"@ {
        Some(Command::Decrypt)
    } else {
        None
    }
}

#[verifier::external_type_specification]
#[verifier::external_body]
pub struct ExJsonError(serde_json::Error);

/// The bytes that serde_json reads from `text` as a JSON array of integers in
/// 0..=255, or `None` where it rejects the text.
pub uninterp spec fn json_byte_array(text: Seq<char>) -> Option<Seq<u8>>;

/// Relies on `serde_json::from_str::<Vec<u8>>`: it reads a JSON array whose
/// elements are integers in 0..=255, and its outcome depends on the text alone.
#[verifier::external_body]
fn json_bytes(text: &str) -> (r: Result<Vec<u8>, serde_json::Error>)
    ensures
        r is Ok <==> json_byte_array(text@) is Some,
        r matches Ok(v) ==> json_byte_array(text@) == Some(v@),
{
    serde_json::from_str::<Vec<u8>>(text)
}

/// Whether `a` and `b` hold the same characters.
fn same_text(a: &str, b: &str) -> (r: bool)
    ensures
        r == (a@ == b@),
{
    let n = a.unicode_len();
    if n != b.unicode_len() {
        return false;
    }
    let mut i: usize = 0;
    while i < n
        invariant
            n == a@.len(),
            n == b@.len(),
            i <= n,
            forall|j: int| 0 <= j < i ==> a@[j] == b@[j],
        decreases n - i,
    {
        if a.get_char(i) != b.get_char(i) {
            return false;
        }
        i = i + 1;
    }
    assert(a@ =~= b@);
    true
}

impl Command {
    /// The command named `name`: "encrypt" or "decrypt"; `None` for any other
    /// text.
    pub fn from_name(name: &str) -> (r: Option<Command>)
        ensures
            r == command_named(name@),
    {
        if same_text(name, "encrypt") {
            Some(Command::Encrypt)
        } else if same_text(name, "decrypt") {
            Some(Command::Decrypt)
        } else {
            None
        }
    }
}

/// Reads a nonce written as a JSON array of byte values, such as
/// `[1,2,3,4,5,6,7,8,9,10,11,12]`. Its length is not checked here: a nonce of
/// the wrong length is refused when it is used.
pub fn parse_nonce(text: &str) -> (r: Result<Vec<u8>, serde_json::Error>)
    ensures
        r is Ok <==> json_byte_array(text@) is Some,
        r matches Ok(v) ==> json_byte_array(text@) == Some(v@),
{
    json_bytes(text)
}

/// One run of the tool, as the command line describes it.
pub struct Invocation {
    pub command: Command,
    pub password: String,
    pub file_path: String,
    pub nonce: Vec<u8>,
}

/// What the command line asks for.
pub enum Request {
    /// Fewer than four arguments: the usage line is shown.
    Usage,
    /// The nonce argument is not a JSON array of bytes.
    BadNonce(serde_json::Error),
    /// The command is neither "encrypt" nor "decrypt": nothing is done.
    InvalidCommand,
    /// A command to perform.
    Run(Invocation),
}

/// Reads the command line `args` (the program's name first, then the command,
/// the password, the file's path and the nonce). The nonce is read before the
/// command is looked at; arguments after the fourth are ignored.
pub fn parse_args(args: &Vec<String>) -> (r: Request)
    ensures
        args@.len() < 5 <==> r is Usage,
        args@.len() >= 5 ==> (r is BadNonce <==> json_byte_array(args@[4]@) is None),
        r is InvalidCommand <==> (args@.len() >= 5 && json_byte_array(args@[4]@) is Some
            && command_named(args@[1]@) is None),
        r matches Request::Run(inv) ==> (args@.len() >= 5
            && command_named(args@[1]@) == Some(inv.command)
            && inv.password@ == args@[2]@
            && inv.file_path@ == args@[3]@
            && json_byte_array(args@[4]@) == Some(inv.nonce@)),
{
    if args.len() < 5 {
        return Request::Usage;
    }
    let nonce = match parse_nonce(args[4].as_str()) {
        Ok(v) => v,
        Err(e) => return Request::BadNonce(e),
    };
    match Command::from_name(args[1].as_str()) {
        Some(command) => Request::Run(
            Invocation {
                command,
                password: args[2].clone(),
                file_path: args[3].clone(),
                nonce,
            },
        ),
        None => Request::InvalidCommand,
    }
}

} // verus!
