//! One side of the book: the orders that wait for a counterparty.

use crate::products::Product;
use crate::trader::Transaction;
use vstd::prelude::*;
use vstd::std_specs::convert::FromSpecImpl;

verus! {

/// An intent that rests in a book: who wants the product. Which side it is
/// on is told by the book that holds it.
#[derive(Debug, Copy, Clone, PartialEq, Eq, Structural)]
pub struct TransactionInfo {
    pub trader_id: u16,
    pub product: Product,
}

/// The order that an intent leaves in a book: the intent without its side.
pub open spec fn resting(transaction: Transaction) -> TransactionInfo {
    TransactionInfo { trader_id: transaction.trader_id, product: transaction.product }
}

impl From<Transaction> for TransactionInfo {
    fn from(transaction: Transaction) -> (r: Self) {
        TransactionInfo { trader_id: transaction.trader_id, product: transaction.product }
    }
}

impl FromSpecImpl<Transaction> for TransactionInfo {
    open spec fn obeys_from_spec() -> bool {
        true
    }

    open spec fn from_spec(transaction: Transaction) -> Self {
        resting(transaction)
    }
}

/// Whether a resting order can be matched by someone who asks for `product`:
/// it is for that product, and it is not the asker's own.
pub open spec fn eligible(order: TransactionInfo, product: Product, trader_id: u16) -> bool {
    order.product == product && order.trader_id != trader_id
}

/// Whether `position` holds the oldest order of the book that is eligible.
pub open spec fn is_first_match(
    book: Seq<TransactionInfo>,
    product: Product,
    trader_id: u16,
    position: int,
) -> bool {
    &&& 0 <= position < book.len()
    &&& eligible(book[position], product, trader_id)
    &&& forall|j: int| 0 <= j < position ==> !eligible(#[trigger] book[j], product, trader_id)
}

/// Whether the book holds no eligible order at all.
pub open spec fn no_match(book: Seq<TransactionInfo>, product: Product, trader_id: u16) -> bool {
    forall|j: int| 0 <= j < book.len() ==> !eligible(#[trigger] book[j], product, trader_id)
}

/// Where the oldest eligible order of the book stands, if there is one.
pub open spec fn first_match(book: Seq<TransactionInfo>, product: Product, trader_id: u16)
    -> Option<int> {
    if exists|i: int| is_first_match(book, product, trader_id, i) {
        Some(choose|i: int| is_first_match(book, product, trader_id, i))
    } else {
        None
    }
}

/// The oldest eligible order is found at one position only, and a book with
/// no such position holds no eligible order.
pub proof fn lemma_first_match(book: Seq<TransactionInfo>, product: Product, trader_id: u16)
    ensures
        match first_match(book, product, trader_id) {
            Some(i) => is_first_match(book, product, trader_id, i),
            None => no_match(book, product, trader_id),
        },
        forall|i: int| is_first_match(book, product, trader_id, i) ==> first_match(
            book,
            product,
            trader_id,
        ) == Some(i),
{
    if first_match(book, product, trader_id).is_none() {
        lemma_scan(book, product, trader_id, book.len() as int);
    }
}

/// If no position is the first match, no position up to `n` is eligible.
proof fn lemma_scan(book: Seq<TransactionInfo>, product: Product, trader_id: u16, n: int)
    requires
        0 <= n <= book.len(),
        forall|i: int| !is_first_match(book, product, trader_id, i),
    ensures
        forall|j: int| 0 <= j < n ==> !eligible(#[trigger] book[j], product, trader_id),
    decreases n,
{
    if n > 0 {
        lemma_scan(book, product, trader_id, n - 1);
        assert(!is_first_match(book, product, trader_id, n - 1));
    }
}

/// The resting orders of one side, oldest first.
#[derive(Debug)]
pub struct TransactionStorage {
    pub data: Vec<TransactionInfo>,
}

impl View for TransactionStorage {
    type V = Seq<TransactionInfo>;

    open spec fn view(&self) -> Seq<TransactionInfo> {
        self.data@
    }
}

impl Default for TransactionStorage {
    fn default() -> (r: Self)
        ensures
            r@ == Seq::<TransactionInfo>::empty(),
    {
        TransactionStorage { data: Vec::new() }
    }
}

impl TransactionStorage {
    /// Puts an order at the end of the book.
    pub fn add(&mut self, transaction_info: TransactionInfo)
        ensures
            final(self)@ == old(self)@.push(transaction_info),
    {
        self.data.push(transaction_info);
    }

    /// Looks for the oldest order for `item` that `author_id` did not place
    /// itself, and says what it is for and where it stands.
    pub fn try_find(&self, item: Product, author_id: u16) -> (r: Option<(Product, usize)>)
        ensures
            match r {
                Some((product, position)) => product == item && first_match(
                    self@,
                    item,
                    author_id,
                ) == Some(position as int),
                None => first_match(self@, item, author_id).is_none(),
            },
    {
        let wanted = TransactionInfo { trader_id: author_id, product: item };
        let mut position: usize = 0;
        while position < self.data.len()
            invariant
                position <= self@.len(),
                wanted == (TransactionInfo { trader_id: author_id, product: item }),
                forall|j: int|
                    0 <= j < position ==> !eligible(#[trigger] self@[j], item, author_id),
            decreases self@.len() - position,
        {
            if same_product_diff_traders(&self.data[position], &wanted) {
                proof {
                    lemma_first_match(self@, item, author_id);
                }
                return Some((self.data[position].product, position));
            }
            position = position + 1;
        }
        proof {
            lemma_first_match(self@, item, author_id);
            match first_match(self@, item, author_id) {
                Some(i) => assert(!eligible(self@[i], item, author_id)),
                None => {},
            }
        }
        None
    }

    /// Takes out the order at `position`; the others keep their order.
    pub fn remove_at(&mut self, position: usize)
        requires
            position < old(self)@.len(),
        ensures
            final(self)@ == old(self)@.remove(position as int),
    {
        self.data.remove(position);
    }
}

/// Whether two orders are for the same product and of different traders.
pub fn same_product_diff_traders(
    transaction_info_a: &TransactionInfo,
    transaction_info_b: &TransactionInfo,
) -> (r: bool)
    ensures
        r == eligible(
            *transaction_info_a,
            transaction_info_b.product,
            transaction_info_b.trader_id,
        ),
{
    transaction_info_a.product == transaction_info_b.product && transaction_info_a.trader_id
        != transaction_info_b.trader_id
}

} // verus!
