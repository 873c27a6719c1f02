//! Daemon authentication: one bearer token per instance.

use rand::RngCore;
use vstd::prelude::*;
use vstd::string::*;

use crate::ids::hex_digit;
use crate::provenance::{hex_encode, hex_text};
use crate::text::{leading_space, same_text};
use crate::text::{trailing_space, trim, trimmed, trimmed_end, trimmed_start, white_space};

verus! {

/// `rand::rng` with `RngCore::fill_bytes` gives bytes that depend on chance
/// alone; nothing is claimed of them.
#[verifier::external_body]
fn random_bytes() -> (r: [u8; 32])
{
    let mut bytes = [0u8; 32];
    rand::rng().fill_bytes(&mut bytes);
    bytes
}

/// Generate a fresh 256-bit token as 64 hex characters.
pub fn generate_token() -> (r: String)
    ensures
        exists|bytes: Seq<u8>| bytes.len() == 32 && r@ == #[trigger] hex_text(bytes),
        r@.len() == 64,
{
    let bytes = random_bytes();
    token_of(bytes.as_slice())
}

/// The token made of the given random bytes.
pub fn token_of(bytes: &[u8]) -> (r: String)
    ensures
        r@ == hex_text(bytes@),
{
    hex_encode(bytes)
}

/// What a token file holds: the token on a line of its own.
pub fn token_file(token: &str) -> (r: String)
    ensures
        r@ == token@.push('\n'),
{
    let mut text = token.to_owned();
    text.push('\n');
    text
}

/// The token that a file holds: its content without the white space around it.
pub fn read_token(content: &str) -> (r: String)
    ensures
        r@ == trimmed(content@),
{
    trim(content)
}

/// What is read from a token file is the token that was written to it.
pub proof fn token_round_trip(bytes: Seq<u8>)
    ensures
        trimmed(hex_text(bytes).push('\n')) == hex_text(bytes),
{
    let token = hex_text(bytes);
    assert forall|i: int| 0 <= i < token.len() implies !white_space(#[trigger] token[i]) by {
        let b = bytes[i / 2] as int;
        assert(0 <= b / 16 < 16 && 0 <= b % 16 < 16);
        assert(token[i] == hex_digit(b / 16) || token[i] == hex_digit(b % 16));
    }
    plain_line_is_trimmed(token);
}

proof fn plain_line_is_trimmed(token: Seq<char>)
    requires
        forall|i: int| 0 <= i < token.len() ==> !white_space(#[trigger] token[i]),
    ensures
        trimmed(token.push('\n')) == token,
{
    let line = token.push('\n');
    if token.len() == 0 {
        assert(line =~= seq!['\n']);
        assert(line.drop_first() =~= Seq::<char>::empty());
        assert(leading_space(line.drop_first()) == 0);
        assert(leading_space(line) == 1);
        assert(trimmed_start(line) =~= Seq::<char>::empty());
        assert(trailing_space(trimmed_start(line)) == 0);
    } else {
        assert(line[0] == token[0]);
        assert(leading_space(line) == 0);
        assert(trimmed_start(line) =~= line);
        assert(line.drop_last() =~= token);
        assert(!white_space(token.last()));
        assert(trailing_space(token) == 0);
        assert(trailing_space(line) == 1);
        assert(trimmed_end(line) =~= token);
    }
}

/// Whether an authorization header carries the token of the daemon.
pub fn authorized(header: Option<&str>, token: &str) -> (r: bool)
    ensures
        r <==> (header matches Some(value) && value@ == "Bearer "@ + token@),
{
    match header {
        Some(value) => {
            let expected = "Bearer ".to_owned().concat(token);
            same_text(value, expected.as_str())
        },
        None => false,
    }
}

} // verus!
