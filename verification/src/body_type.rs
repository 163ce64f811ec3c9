use vstd::prelude::*;

verus! {

/// What a decoded message body turned out to be.
#[derive(Clone, Copy, Debug, PartialEq, Eq, Structural)]
pub enum MessageBodyType {
    /// The body holds the input of an ABI function.
    Input,
    /// The body holds the output of an ABI function.
    Output,
    /// The body holds the input of an imported ABI function: a contract
    /// answered an internal message sent by another contract.
    InternalOutput,
    /// The body holds the input of an ABI event.
    Event,
}

impl MessageBodyType {
    /// Whether the body carries what a function returned.
    pub open spec fn carries_output(self) -> bool {
        self == MessageBodyType::InternalOutput || self == MessageBodyType::Output
    }

    /// True for `Output` and `InternalOutput`, false for `Input` and `Event`.
    pub fn is_output(&self) -> (res: bool)
        ensures
            res == self.carries_output(),
    {
        match self {
            MessageBodyType::InternalOutput | MessageBodyType::Output => true,
            _ => false,
        }
    }
}

} // verus!
