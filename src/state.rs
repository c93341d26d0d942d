use vstd::prelude::*;
use vstd::string::*;

verus! {

/// The failures that the bridge reports to a script.
#[derive(Clone, Copy, Debug, PartialEq, Eq, Structural)]
pub enum BridgeError {
    ArgumentOutOfBounds,
    UnrecognizedKey,
    UnrecognizedButton,
    CommandFailed,
}

impl BridgeError {
    /// The text that a script sees for this failure.
    pub open spec fn message_spec(self) -> Seq<char> {
        match self {
            BridgeError::ArgumentOutOfBounds => "Argument index out of bounds"@,
            BridgeError::UnrecognizedKey => "Unrecognized key"@,
            BridgeError::UnrecognizedButton => "Unrecognized button"@,
            BridgeError::CommandFailed => "Failed to exectue command"@,
        }
    }

    pub fn message(&self) -> (r: String)
        ensures
            r@ == self.message_spec(),
    {
        match self {
            BridgeError::ArgumentOutOfBounds => String::from_str("Argument index out of bounds"),
            BridgeError::UnrecognizedKey => String::from_str("Unrecognized key"),
            BridgeError::UnrecognizedButton => String::from_str("Unrecognized button"),
            BridgeError::CommandFailed => String::from_str("Failed to exectue command"),
        }
    }
}

/// What the script's host functions share: the arguments the script was started with.
/// The list is fixed once the state is made.
pub struct State {
    args: Vec<String>,
}

impl View for State {
    type V = Seq<Seq<char>>;

    closed spec fn view(&self) -> Seq<Seq<char>> {
        self.args@.map_values(|a: String| a@)
    }
}

impl State {
    pub fn new(args: Vec<String>) -> (r: State)
        ensures
            r@ == args@.map_values(|a: String| a@),
    {
        State { args }
    }

    /// How many arguments the script was given.
    pub fn arg_count(&self) -> (r: usize)
        ensures
            r == self@.len(),
    {
        self.args.len()
    }
}

/// Looks up the script argument at position `i`; a negative or too large index is
/// an out-of-bounds error.
pub fn keebi_arg(i: i64, state: &mut State) -> (r: Result<String, BridgeError>)
    ensures
        *final(state) == *old(state),
        r is Ok <==> 0 <= i < old(state)@.len(),
        r is Ok ==> r->Ok_0@ == old(state)@[i as int],
        r is Err ==> r->Err_0 == BridgeError::ArgumentOutOfBounds,
{
    if i < 0 || i as u64 >= state.args.len() as u64 {
        Err(BridgeError::ArgumentOutOfBounds)
    } else {
        let idx = i as usize;
        Ok(state.args[idx].clone())
    }
}

} // verus!
