//! The input acquisition protocol: normalize a player's reply (or its
//! absence) into a validated action selector in 1..=3, or a parse failure.

use vstd::prelude::*;
use vstd::string::StringExecFns;
use crate::text::lower_of;
use crate::text::lowercase;

verus! {

/// Why a round's input acquisition failed: the reply was not a recognized
/// command, or no reply arrived before the 60-second deadline. Both are
/// recovered the same way: the caller notifies the player and re-prompts
/// without advancing the round.
#[derive(Clone, Copy, PartialEq, Eq, Structural, Debug)]
pub enum ParseFailure {
    Unrecognized,
    Timeout,
}

/// The selector a normalized reply stands for: exactly `!1`, `!2` and `!3`
/// map to 1, 2 and 3; any other content is unrecognized.
pub open spec fn spec_command_code(t: Seq<char>) -> Option<u8> {
    if t == "!1"@ {
        Some(1u8)
    } else if t == "!2"@ {
        Some(2u8)
    } else if t == "!3"@ {
        Some(3u8)
    } else {
        None
    }
}

/// The outcome of parsing a reply that did arrive, after normalization.
pub open spec fn spec_parse_outcome(t: Seq<char>) -> Result<u8, ParseFailure> {
    match spec_command_code(t) {
        Some(c) => Ok(c),
        None => Err(ParseFailure::Unrecognized),
    }
}

/// Map an already-normalized reply to its selector.
pub fn classify_command(t: &String) -> (r: Option<u8>)
    ensures
        r == spec_command_code(t@),
{
    if *t == String::from_str("!1") {
        Some(1)
    } else if *t == String::from_str("!2") {
        Some(2)
    } else if *t == String::from_str("!3") {
        Some(3)
    } else {
        None
    }
}

/// Normalize a player's reply into a validated selector: lower-case it and
/// compare against the literal command set. `None` stands for the deadline
/// passing with no reply and yields a timeout failure.
pub fn parse_reply(reply: Option<&str>) -> (r: Result<u8, ParseFailure>)
    ensures
        reply is None ==> r == Err::<u8, ParseFailure>(ParseFailure::Timeout),
        reply matches Some(s) ==> r == spec_parse_outcome(lower_of(s@)),
        r matches Ok(c) ==> 1 <= c <= 3,
{
    match reply {
        None => Err(ParseFailure::Timeout),
        Some(s) => {
            let low = lowercase(s);
            match classify_command(&low) {
                Some(c) => Ok(c),
                None => Err(ParseFailure::Unrecognized),
            }
        },
    }
}

} // verus!
