use vstd::prelude::*;
use vstd::utf8::*;
use rand::Rng;
use crate::marshal::{
    button_of, direction_or_click, effective_direction, key_of, parse_button, parse_key,
    ButtonName, DirectionName, KeyName,
};
use crate::state::BridgeError;

verus! {

/// A keyboard event for the input-simulation handle to emit.
#[derive(Clone, Copy, Debug, PartialEq, Eq, Structural)]
pub struct KeyEvent {
    pub key: KeyName,
    pub direction: DirectionName,
}

/// A mouse-button event for the input-simulation handle to emit.
#[derive(Clone, Copy, Debug, PartialEq, Eq, Structural)]
pub struct ButtonEvent {
    pub button: ButtonName,
    pub direction: DirectionName,
}

/// The outcome of a `key` call: an unknown key is an error, an unknown direction a click.
pub open spec fn key_event_of(key: Seq<char>, direction: Seq<char>) -> Result<KeyEvent, BridgeError> {
    match key_of(key) {
        Some(k) => Ok(KeyEvent { key: k, direction: effective_direction(direction) }),
        None => Err(BridgeError::UnrecognizedKey),
    }
}

/// The outcome of a `button` call: an unknown button is an error, an unknown direction
/// a click.
pub open spec fn button_event_of(button: Seq<char>, direction: Seq<char>) -> Result<
    ButtonEvent,
    BridgeError,
> {
    match button_of(button) {
        Some(b) => Ok(ButtonEvent { button: b, direction: effective_direction(direction) }),
        None => Err(BridgeError::UnrecognizedButton),
    }
}

/// Decides the keyboard event that `key(key, direction)` asks for.
pub fn keebi_key(key: &str, direction: &str) -> (r: Result<KeyEvent, BridgeError>)
    ensures
        r == key_event_of(key@, direction@),
{
    match parse_key(key) {
        Some(k) => Ok(KeyEvent { key: k, direction: direction_or_click(direction) }),
        None => Err(BridgeError::UnrecognizedKey),
    }
}

/// Decides the mouse-button event that `button(button, direction)` asks for.
pub fn keebi_button(button: &str, direction: &str) -> (r: Result<ButtonEvent, BridgeError>)
    ensures
        r == button_event_of(button@, direction@),
{
    match parse_button(button) {
        Some(b) => Ok(ButtonEvent { button: b, direction: direction_or_click(direction) }),
        None => Err(BridgeError::UnrecognizedButton),
    }
}

/// Whether a key or button call succeeds never depends on its direction: the same
/// name succeeds or fails with any direction string.
pub proof fn direction_never_decides_failure(name: Seq<char>, d1: Seq<char>, d2: Seq<char>)
    ensures
        key_event_of(name, d1) is Ok <==> key_event_of(name, d2) is Ok,
        button_event_of(name, d1) is Ok <==> button_event_of(name, d2) is Ok,
        key_event_of(name, d1) is Ok ==> key_event_of(name, d1)->Ok_0.key == key_event_of(
            name,
            d2,
        )->Ok_0.key,
        button_event_of(name, d1) is Ok ==> button_event_of(name, d1)->Ok_0.button
            == button_event_of(name, d2)->Ok_0.button,
{
}

/// Relies on rand's thread-local generator: `Rng::random::<char>` draws a scalar value.
#[verifier::external_body]
fn random_char() -> (c: char) {
    rand::rng().random::<char>()
}

/// Relies on `char::to_string`: the string that holds exactly that character.
#[verifier::external_body]
fn char_text(c: char) -> (r: String)
    ensures
        r@ == seq![c],
{
    c.to_string()
}

/// A string of one random Unicode scalar value.
pub fn keebi_rand_char() -> (r: String)
    ensures
        r@.len() == 1,
{
    let c = random_char();
    char_text(c)
}

/// What `String::from_utf8_lossy` makes of a byte sequence.
pub uninterp spec fn lossy_text_of(b: Seq<u8>) -> Seq<char>;

/// Relies on `String::from_utf8_lossy`: invalid sequences become U+FFFD, and valid
/// UTF-8 is decoded as it stands.
#[verifier::external_body]
fn decode_lossy(b: &[u8]) -> (r: String)
    ensures
        r@ == lossy_text_of(b@),
        valid_utf8(b@) ==> r@ == decode_utf8(b@),
{
    String::from_utf8_lossy(b).into_owned()
}

/// The result of `exec` once the shell has run: its standard output, decoded lossily,
/// or an error where the command could not be started (`None`).
pub fn exec_result(stdout: Option<Vec<u8>>) -> (r: Result<String, BridgeError>)
    ensures
        stdout is None ==> r == Err::<String, BridgeError>(BridgeError::CommandFailed),
        stdout is Some ==> r is Ok && r->Ok_0@ == lossy_text_of(stdout->Some_0@),
        stdout is Some && valid_utf8(stdout->Some_0@) ==> r is Ok && r->Ok_0@ == decode_utf8(
            stdout->Some_0@,
        ),
{
    match stdout {
        Some(bytes) => Ok(decode_lossy(bytes.as_slice())),
        None => Err(BridgeError::CommandFailed),
    }
}

} // verus!
