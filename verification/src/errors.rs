//! What can be wrong with a line that a client sent.

use vstd::prelude::*;

verus! {

/// A fault in the content of one inbound line. The connection stays open;
/// the text goes back to the client that sent the line, and to nobody else.
#[derive(Debug, Copy, Clone, PartialEq, Eq, Structural)]
pub enum ClientError {
    UnknownProduct,
    UnknownAction,
    InvalidTransactionMessage,
}

impl ClientError {
    /// The line that tells the client what was wrong.
    pub open spec fn text(self) -> Seq<char> {
        match self {
            ClientError::UnknownProduct =>
                "Unknown product. Choose between: APPLE, PEAR, TOMATO, POTATO or ONION"@,
            ClientError::UnknownAction => "Unknown action. Choose between: BUY or SELL"@,
            ClientError::InvalidTransactionMessage =>
                "Invalid transaction message. Should be <Action>:<Item>"@,
        }
    }

    /// The error line as an owned string.
    pub fn to_string(&self) -> (r: String)
        ensures
            r@ == self.text(),
    {
        match self {
            ClientError::UnknownProduct =>
                "Unknown product. Choose between: APPLE, PEAR, TOMATO, POTATO or ONION".to_owned(),
            ClientError::UnknownAction => "Unknown action. Choose between: BUY or SELL".to_owned(),
            ClientError::InvalidTransactionMessage =>
                "Invalid transaction message. Should be <Action>:<Item>".to_owned(),
        }
    }
}

} // verus!
