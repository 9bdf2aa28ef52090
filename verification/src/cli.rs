//! The command line: its commands and the PIN rule that `host --pin` and
//! `POST /session/create` share.
use vstd::prelude::*;

use crate::text::{all_ascii_digits, is_ascii_digit};

verus! {

/// The port the host listens on when none is given.
pub const DEFAULT_PORT: u16 = 41777;

/// A parsed command line.
#[derive(Debug)]
pub struct Cli {
    pub command: Command,
}

/// The three things the program can be asked to do.
#[derive(Debug)]
pub enum Command {
    /// Start the host server and stream the microphone to one mobile client.
    Host { port: u16, pin: String, input: Option<String> },
    /// List the available input devices.
    Devices,
    /// Run environment diagnostics.
    Doctor { port: u16, input: Option<String> },
}

/// A PIN is exactly six ASCII digits.
pub open spec fn is_pin(s: Seq<char>) -> bool {
    s.len() == 6 && all_ascii_digits(s)
}

/// The message every PIN rejection carries.
pub open spec fn bad_pin_message() -> Seq<char> {
    "PIN must contain exactly 6 digits"@
}

/// Whether `v` is a PIN: exactly six characters, each an ASCII digit.
pub fn is_valid_pin(v: &str) -> (r: bool)
    ensures
        r == is_pin(v@),
{
    let n: usize = v.unicode_len();
    if n != 6 {
        return false;
    }
    let mut i: usize = 0;
    while i < 6
        invariant
            i <= 6,
            v@.len() == 6,
            forall|j: int| 0 <= j < i ==> is_ascii_digit(#[trigger] v@[j]),
        decreases 6 - i,
    {
        let c = v.get_char(i);
        if !('0' <= c && c <= '9') {
            assert(!is_ascii_digit(v@[i as int]));
            return false;
        }
        i = i + 1;
    }
    true
}

/// Checks the `--pin` argument: it must be exactly six ASCII digits.
pub fn validate_pin(v: &str) -> (r: Result<String, String>)
    ensures
        r is Ok <==> is_pin(v@),
        r matches Ok(p) ==> p@ == v@,
        r matches Err(e) ==> e@ == bad_pin_message(),
{
    if !is_valid_pin(v) {
        return Err(String::from_str("PIN must contain exactly 6 digits"));
    }
    Ok(String::from_str(v))
}

} // verus!
