//! The catalog.

use crate::errors::ClientError;
use crate::text::same_text;
use vstd::prelude::*;

verus! {

/// One of the five items of the catalog.
#[derive(Debug, Copy, Clone, PartialEq, Eq, Structural)]
pub enum Product {
    Apple,
    Pear,
    Tomato,
    Potato,
    Onion,
}

impl Product {
    /// The upper-case name under which the product goes over the wire.
    pub open spec fn name(self) -> Seq<char> {
        match self {
            Product::Apple => "APPLE"@,
            Product::Pear => "PEAR"@,
            Product::Tomato => "TOMATO"@,
            Product::Potato => "POTATO"@,
            Product::Onion => "ONION"@,
        }
    }

    /// The product that a token names, if it names one.
    pub open spec fn named(token: Seq<char>) -> Option<Product> {
        if token == "APPLE"@ {
            Some(Product::Apple)
        } else if token == "PEAR"@ {
            Some(Product::Pear)
        } else if token == "TOMATO"@ {
            Some(Product::Tomato)
        } else if token == "POTATO"@ {
            Some(Product::Potato)
        } else if token == "ONION"@ {
            Some(Product::Onion)
        } else {
            None
        }
    }

    /// The wire name as a static string slice.
    pub fn as_str(&self) -> (r: &'static str)
        ensures
            r@ == self.name(),
    {
        match self {
            Product::Apple => "APPLE",
            Product::Pear => "PEAR",
            Product::Tomato => "TOMATO",
            Product::Potato => "POTATO",
            Product::Onion => "ONION",
        }
    }

    /// The wire name as an owned string.
    pub fn to_string(&self) -> (r: String)
        ensures
            r@ == self.name(),
    {
        self.as_str().to_owned()
    }

    /// Reads an upper-case token. Anything but the five names is refused.
    pub fn from_str(s: &str) -> (r: Result<Product, ClientError>)
        ensures
            r == match Product::named(s@) {
                Some(p) => Ok::<Product, ClientError>(p),
                None => Err(ClientError::UnknownProduct),
            },
    {
        if same_text(s, "APPLE") {
            Ok(Product::Apple)
        } else if same_text(s, "PEAR") {
            Ok(Product::Pear)
        } else if same_text(s, "TOMATO") {
            Ok(Product::Tomato)
        } else if same_text(s, "POTATO") {
            Ok(Product::Potato)
        } else if same_text(s, "ONION") {
            Ok(Product::Onion)
        } else {
            Err(ClientError::UnknownProduct)
        }
    }
}

} // verus!
