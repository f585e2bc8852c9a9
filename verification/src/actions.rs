//! What a client may ask for, and what the server announces.

use crate::errors::ClientError;
use crate::text::same_text;
use vstd::prelude::*;

verus! {

/// The side of an intent.
#[derive(Debug, Copy, Clone, PartialEq, Eq, Structural)]
pub enum ClientActions {
    Buy,
    Sell,
}

impl ClientActions {
    /// The upper-case name under which the action goes over the wire.
    pub open spec fn name(self) -> Seq<char> {
        match self {
            ClientActions::Buy => "BUY"@,
            ClientActions::Sell => "SELL"@,
        }
    }

    /// The action that a token names, if it names one.
    pub open spec fn named(token: Seq<char>) -> Option<ClientActions> {
        if token == "BUY"@ {
            Some(ClientActions::Buy)
        } else if token == "SELL"@ {
            Some(ClientActions::Sell)
        } else {
            None
        }
    }

    /// The name in lower case, as log lines have it.
    pub open spec fn lower_name(self) -> Seq<char> {
        match self {
            ClientActions::Buy => "buy"@,
            ClientActions::Sell => "sell"@,
        }
    }

    /// The other side: what a counterparty must have asked for.
    pub open spec fn opposite(self) -> ClientActions {
        match self {
            ClientActions::Buy => ClientActions::Sell,
            ClientActions::Sell => ClientActions::Buy,
        }
    }

    /// The wire name as an owned string.
    pub fn to_string(&self) -> (r: String)
        ensures
            r@ == self.name(),
    {
        match self {
            ClientActions::Buy => "BUY".to_owned(),
            ClientActions::Sell => "SELL".to_owned(),
        }
    }

    /// The name in lower case.
    pub fn as_lower_str(&self) -> (r: &'static str)
        ensures
            r@ == self.lower_name(),
    {
        match self {
            ClientActions::Buy => "buy",
            ClientActions::Sell => "sell",
        }
    }

    /// Reads an upper-case token. Anything but `BUY` and `SELL` is refused.
    pub fn from_str(s: &str) -> (r: Result<ClientActions, ClientError>)
        ensures
            r == match ClientActions::named(s@) {
                Some(a) => Ok::<ClientActions, ClientError>(a),
                None => Err(ClientError::UnknownAction),
            },
    {
        if same_text(s, "BUY") {
            Ok(ClientActions::Buy)
        } else if same_text(s, "SELL") {
            Ok(ClientActions::Sell)
        } else {
            Err(ClientError::UnknownAction)
        }
    }
}

/// The kind of a line that the server sends.
#[derive(Debug, Copy, Clone, PartialEq, Eq, Structural)]
pub enum ServerActions {
    Trade,
    Ack,
}

impl ServerActions {
    /// The upper-case word that opens the line.
    pub open spec fn name(self) -> Seq<char> {
        match self {
            ServerActions::Trade => "TRADE"@,
            ServerActions::Ack => "ACK"@,
        }
    }

    /// The opening word as an owned string.
    pub fn to_string(&self) -> (r: String)
        ensures
            r@ == self.name(),
    {
        match self {
            ServerActions::Trade => "TRADE".to_owned(),
            ServerActions::Ack => "ACK".to_owned(),
        }
    }
}

} // verus!
