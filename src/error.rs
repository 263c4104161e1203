use vstd::prelude::*;
use vstd::string::*;

verus! {

/// The reason a pool could not be built, as a human-readable message.
#[derive(Debug)]
pub struct PoolCreationError {
    pub message: String,
}

impl View for PoolCreationError {
    type V = Seq<char>;

    open spec fn view(&self) -> Seq<char> {
        self.message@
    }
}

impl PoolCreationError {
    pub fn new(message: String) -> (r: PoolCreationError)
        ensures
            r@ == message@,
    {
        PoolCreationError { message }
    }

    /// The error for a requested worker count that is not positive.
    pub fn invalid_size() -> (r: PoolCreationError)
        ensures
            r@ == invalid_size_message(),
            r@.len() > 0,
    {
        proof {
            reveal_strlit("Invalid size");
        }
        PoolCreationError { message: String::from_str("Invalid size") }
    }

    pub fn message(&self) -> (r: String)
        ensures
            r@ == self@,
    {
        self.message.clone()
    }

    pub fn description(&self) -> (r: &str)
        ensures
            r@ == self@,
    {
        self.message.as_str()
    }
}

/// The text carried by the error for a non-positive worker count.
pub open spec fn invalid_size_message() -> Seq<char> {
    "Invalid size"@
}

} // verus!
