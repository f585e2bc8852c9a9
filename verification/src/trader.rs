//! A client's intent, and how a line of text becomes one.

use crate::actions::ClientActions;
use crate::errors::ClientError;
use crate::products::Product;
use crate::text::{decimal, to_decimal, to_uppercase, uppercase};
use crate::utils::{colon_parts, split_at_colon};
use vstd::prelude::*;
use vstd::string::StringExecFns;

verus! {

/// A parsed request of one trader to buy or sell one unit of a product.
#[derive(Debug, Copy, Clone, PartialEq, Eq, Structural)]
pub struct Transaction {
    pub trader_id: u16,
    pub action: ClientActions,
    pub product: Product,
}

impl Transaction {
    /// The intent that two upper-case tokens stand for. The action is looked
    /// at first: where both tokens are unknown, the action is reported.
    pub open spec fn of_tokens(trader_id: u16, action: Seq<char>, product: Seq<char>) -> Result<
        Transaction,
        ClientError,
    > {
        match ClientActions::named(action) {
            None => Err(ClientError::UnknownAction),
            Some(action) => match Product::named(product) {
                None => Err(ClientError::UnknownProduct),
                Some(product) => Ok(Transaction { trader_id, action, product }),
            },
        }
    }

    /// The intent that a message stands for: its two tokens, put in upper
    /// case. A message without a colon in its first line is malformed.
    pub open spec fn parse(trader_id: u16, message: Seq<char>) -> Result<Transaction, ClientError> {
        match colon_parts(message) {
            None => Err(ClientError::InvalidTransactionMessage),
            Some((action, product)) => Transaction::of_tokens(
                trader_id,
                uppercase(action),
                uppercase(product),
            ),
        }
    }

    /// The line that is logged for an accepted intent.
    pub open spec fn log_line(self) -> Seq<char> {
        "new "@ + self.action.lower_name() + " order ('"@ + decimal(self.trader_id as nat)
            + "', "@ + self.product.name() + ")"@
    }

    /// Builds the intent of `trader_id` from two tokens that are already in
    /// upper case.
    pub fn from_tokens(trader_id: u16, action: &str, product: &str) -> (r: Result<
        Transaction,
        ClientError,
    >)
        ensures
            r == Transaction::of_tokens(trader_id, action@, product@),
    {
        let action = match ClientActions::from_str(action) {
            Ok(action) => action,
            Err(e) => { return Err(e); },
        };
        let product = match Product::from_str(product) {
            Ok(product) => product,
            Err(e) => { return Err(e); },
        };
        Ok(Transaction { trader_id, action, product })
    }

    /// Parses one inbound message of `trader_id`.
    pub fn new_from(trader_id: u16, message: String) -> (r: Result<Transaction, ClientError>)
        ensures
            r == Transaction::parse(trader_id, message@),
    {
        match split_at_colon(message.as_str()) {
            None => Err(ClientError::InvalidTransactionMessage),
            Some((action, product)) => {
                let action = to_uppercase(action.as_str());
                let product = to_uppercase(product.as_str());
                Transaction::from_tokens(trader_id, action.as_str(), product.as_str())
            },
        }
    }

    /// Writes the line that is logged for an accepted intent.
    pub fn to_string(&self) -> (r: String)
        ensures
            r@ == self.log_line(),
    {
        let mut r = "new ".to_owned();
        r.append(self.action.as_lower_str());
        r.append(" order ('");
        r.append(to_decimal(self.trader_id).as_str());
        r.append("', ");
        r.append(self.product.as_str());
        r.append(")");
        r
    }
}

} // verus!
