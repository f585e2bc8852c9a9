//! What holds of the registry whatever the traders send: statements over
//! the registry as a value, each proved from the definitions of its steps.

use crate::actions::ClientActions;
use crate::products::Product;
use crate::storage::{eligible, first_match, is_first_match, lemma_first_match, resting,
    TransactionInfo};
use crate::trader::Transaction;
use crate::transaction_service::{at_most_one, trade_text, ServiceState};
use vstd::prelude::*;

verus! {

/// The intent of `trader_id` to buy `product`.
pub open spec fn buy(trader_id: u16, product: Product) -> Transaction {
    Transaction { trader_id, action: ClientActions::Buy, product }
}

/// The intent of `trader_id` to sell `product`.
pub open spec fn sell(trader_id: u16, product: Product) -> Transaction {
    Transaction { trader_id, action: ClientActions::Sell, product }
}

/// Whether nothing in the book can be matched by `trader_id` asking for
/// `product`.
pub open spec fn unmatched(book: Seq<TransactionInfo>, product: Product, trader_id: u16) -> bool {
    first_match(book, product, trader_id).is_none()
}

/// An eligible order that is put at the end of a book without eligible
/// orders is the one that is found, and taking it out gives the book back.
pub proof fn lemma_rest_then_match(
    book: Seq<TransactionInfo>,
    order: TransactionInfo,
    product: Product,
    trader_id: u16,
)
    requires
        unmatched(book, product, trader_id),
        eligible(order, product, trader_id),
    ensures
        first_match(book.push(order), product, trader_id) == Some(book.len() as int),
        book.push(order).remove(book.len() as int) == book,
{
    lemma_first_match(book, product, trader_id);
    let longer = book.push(order);
    assert(is_first_match(longer, product, trader_id, book.len() as int));
    lemma_first_match(longer, product, trader_id);
}

/// An order that is not eligible, put at the end of a book without eligible
/// orders, leaves the book without eligible orders.
pub proof fn lemma_rest_without_match(
    book: Seq<TransactionInfo>,
    order: TransactionInfo,
    product: Product,
    trader_id: u16,
)
    requires
        unmatched(book, product, trader_id),
        !eligible(order, product, trader_id),
    ensures
        unmatched(book.push(order), product, trader_id),
{
    lemma_first_match(book, product, trader_id);
    let longer = book.push(order);
    lemma_first_match(longer, product, trader_id);
}

/// Opposite intents of two different traders for one product meet, in
/// whichever order they arrive: the first rests, the second is matched with
/// it, and the registry is afterwards as it was before. This holds where no
/// order that rested before could be matched by either of the two.
pub proof fn law_opposite_intents_meet(s: ServiceState, product: Product, a: u16, b: u16)
    requires
        a != b,
        unmatched(s.sells, product, a),
        unmatched(s.buys, product, b),
    ensures
        s.submit(buy(a, product)).1.matched.is_none(),
        s.submit(buy(a, product)).0.submit(sell(b, product)).1.matched == Some(product),
        s.submit(buy(a, product)).0.submit(sell(b, product)).0 == s,
        s.submit(sell(b, product)).1.matched.is_none(),
        s.submit(sell(b, product)).0.submit(buy(a, product)).1.matched == Some(product),
        s.submit(sell(b, product)).0.submit(buy(a, product)).0 == s,
{
    lemma_rest_then_match(s.buys, resting(buy(a, product)), product, b);
    lemma_rest_then_match(s.sells, resting(sell(b, product)), product, a);
}

/// A trader's own opposite intents never meet: where nothing that rested
/// before could be matched, both rest, each on its side, in whichever order
/// they arrive.
pub proof fn law_no_self_trade(s: ServiceState, product: Product, trader_id: u16)
    requires
        unmatched(s.sells, product, trader_id),
        unmatched(s.buys, product, trader_id),
    ensures
        s.submit(buy(trader_id, product)).1.matched.is_none(),
        s.submit(buy(trader_id, product)).0.submit(sell(trader_id, product)).1.matched.is_none(),
        s.submit(buy(trader_id, product)).0.submit(sell(trader_id, product)).0 == (ServiceState {
            buys: s.buys.push(resting(buy(trader_id, product))),
            sells: s.sells.push(resting(sell(trader_id, product))),
            ..s
        }),
        s.submit(sell(trader_id, product)).1.matched.is_none(),
        s.submit(sell(trader_id, product)).0.submit(buy(trader_id, product)).1.matched.is_none(),
        s.submit(sell(trader_id, product)).0.submit(buy(trader_id, product)).0 == (ServiceState {
            buys: s.buys.push(resting(buy(trader_id, product))),
            sells: s.sells.push(resting(sell(trader_id, product))),
            ..s
        }),
{
    lemma_rest_without_match(s.buys, resting(buy(trader_id, product)), product, trader_id);
    lemma_rest_without_match(s.sells, resting(sell(trader_id, product)), product, trader_id);
}

/// Of two eligible orders the older one is matched: whatever is found
/// stands no later than any eligible order, and the younger of the two is
/// still in the book afterwards.
pub proof fn law_oldest_first(
    book: Seq<TransactionInfo>,
    product: Product,
    trader_id: u16,
    older: int,
    younger: int,
)
    requires
        0 <= older < younger < book.len(),
        eligible(book[older], product, trader_id),
        eligible(book[younger], product, trader_id),
    ensures
        first_match(book, product, trader_id).is_some(),
        first_match(book, product, trader_id).unwrap() <= older,
        book.remove(first_match(book, product, trader_id).unwrap())[younger - 1] == book[younger],
{
    lemma_first_match(book, product, trader_id);
}

/// Two sell orders for one product rest, one after the other; a buyer who
/// is neither of the two sellers comes later and could not be matched before.
/// The buyer is matched with the first of the two, and the second rests on.
pub proof fn law_fifo_tie_break(
    s: ServiceState,
    product: Product,
    first: u16,
    second: u16,
    buyer: u16,
)
    requires
        first != buyer,
        second != buyer,
        unmatched(s.sells, product, buyer),
    ensures
        s.register_order(sell(first, product)).register_order(
            sell(second, product),
        ).try_trade_with(buy(buyer, product)) == ((
            ServiceState { sells: s.sells.push(resting(sell(second, product))), ..s },
            Some(product),
        )),
{
    let one = resting(sell(first, product));
    let two = resting(sell(second, product));
    lemma_rest_then_match(s.sells, one, product, buyer);
    let book = s.sells.push(one).push(two);
    lemma_first_match(s.sells, product, buyer);
    assert(is_first_match(book, product, buyer, s.sells.len() as int));
    lemma_first_match(book, product, buyer);
    assert(book.remove(s.sells.len() as int) =~= s.sells.push(two));
}

/// An intent that finds no counterparty leaves exactly one new resting
/// order, at the end of the book of its own side, and nobody is told of a
/// trade: the only line is the acknowledgement to the sender.
pub proof fn law_unmatched_intent_rests(s: ServiceState, transaction: Transaction)
    requires
        unmatched(
            s.book(transaction.action.opposite()),
            transaction.product,
            transaction.trader_id,
        ),
    ensures
        s.submit(transaction).0 == s.register_order(transaction),
        s.submit(transaction).0.book(transaction.action) == s.book(transaction.action).push(
            resting(transaction),
        ),
        s.submit(transaction).0.book(transaction.action.opposite()) == s.book(
            transaction.action.opposite(),
        ),
        s.submit(transaction).0.traders == s.traders,
        s.submit(transaction).1.matched.is_none(),
        s.submit(transaction).1.notifications == at_most_one(
            s.confirm(transaction.trader_id, transaction.product),
        ),
        forall|i: int|
            0 <= i < s.submit(transaction).1.notifications.len() ==> (
            #[trigger] s.submit(transaction).1.notifications[i]).message != trade_text(
                transaction.product,
            ),
{
    lemma_ack_is_no_trade(transaction.product);
}

/// An acknowledgement and a trade announcement are different lines.
pub proof fn lemma_ack_is_no_trade(product: Product)
    ensures
        crate::transaction_service::ack_text(product) != trade_text(product),
{
    reveal_strlit("ACK");
    reveal_strlit("TRADE");
    assert(trade_text(product)[0] == 'T');
}

/// Once a trader has been removed, an acknowledgement for it goes nowhere
/// and no trade announcement is addressed to it. The books are not touched.
pub proof fn law_removed_trader_is_silent(s: ServiceState, trader_id: u16, product: Product)
    requires
        s.traders.no_duplicates(),
    ensures
        !s.remove_trader(trader_id).traders.contains(trader_id),
        s.remove_trader(trader_id).traders.no_duplicates(),
        s.remove_trader(trader_id).confirm(trader_id, product).is_none(),
        forall|text: Seq<char>| s.remove_trader(trader_id).send_error(trader_id, text).is_none(),
        forall|i: int|
            0 <= i < s.remove_trader(trader_id).inform_all(product).len() ==> (
            #[trigger] s.remove_trader(trader_id).inform_all(product)[i]).trader_id != trader_id,
        s.remove_trader(trader_id).buys == s.buys,
        s.remove_trader(trader_id).sells == s.sells,
{
    let before = s.traders;
    let after = before.remove_value(trader_id);
    before.index_of_first_ensures(trader_id);
    match before.index_of_first(trader_id) {
        Some(at) => {
            crate::directory::lemma_remove_keeps_unique(before, at);
            assert forall|j: int| 0 <= j < after.len() implies after[j] != trader_id by {}
        },
        None => {},
    }
}

/// Whether the book holds no order for `product`.
pub open spec fn holds_none_of(book: Seq<TransactionInfo>, product: Product) -> bool {
    forall|i: int| 0 <= i < book.len() ==> (#[trigger] book[i]).product != product
}

/// How many of the intents are on `side`.
pub open spec fn count_side(intents: Seq<Transaction>, side: ClientActions) -> nat
    decreases intents.len(),
{
    if intents.len() == 0 {
        0
    } else {
        count_side(intents.drop_first(), side) + if intents.first().action == side {
            1nat
        } else {
            0nat
        }
    }
}

/// The registry after a run of intents, each submitted as one step, and
/// the number of matches on the way.
pub open spec fn submit_all(s: ServiceState, intents: Seq<Transaction>) -> (ServiceState, nat)
    decreases intents.len(),
{
    if intents.len() == 0 {
        (s, 0)
    } else {
        let (next, outcome) = s.submit(intents.first());
        let (last, matches) = submit_all(next, intents.drop_first());
        (
            last,
            matches + if outcome.matched.is_some() {
                1nat
            } else {
                0nat
            },
        )
    }
}

/// A book without orders for `product` has nothing to match an asker for it.
pub proof fn lemma_none_of_is_unmatched(
    book: Seq<TransactionInfo>,
    product: Product,
    trader_id: u16,
)
    requires
        holds_none_of(book, product),
    ensures
        unmatched(book, product, trader_id),
{
    lemma_first_match(book, product, trader_id);
}

/// In a book that ends in a run of orders for `product`, all of traders
/// other than the asker, and holds no other order for it, the first of the
/// run is matched.
proof fn lemma_head_of_queue(
    base: Seq<TransactionInfo>,
    queue: Seq<TransactionInfo>,
    product: Product,
    trader_id: u16,
)
    requires
        holds_none_of(base, product),
        queue.len() > 0,
        eligible(queue[0], product, trader_id),
    ensures
        first_match(base + queue, product, trader_id) == Some(base.len() as int),
        (base + queue).remove(base.len() as int) == base + queue.drop_first(),
{
    let book = base + queue;
    assert(is_first_match(book, product, trader_id, base.len() as int));
    lemma_first_match(book, product, trader_id);
}

/// The run of intents, seen from a registry whose books hold, behind what
/// was there before, the orders for `product` that wait on one side only.
proof fn lemma_flow(
    s: ServiceState,
    base: ServiceState,
    waiting_buys: Seq<TransactionInfo>,
    waiting_sells: Seq<TransactionInfo>,
    intents: Seq<Transaction>,
    product: Product,
    is_buyer: spec_fn(u16) -> bool,
) -> (r: (Seq<TransactionInfo>, Seq<TransactionInfo>))
    requires
        s.traders == base.traders,
        s.buys == base.buys + waiting_buys,
        s.sells == base.sells + waiting_sells,
        holds_none_of(base.buys, product),
        holds_none_of(base.sells, product),
        waiting_buys.len() == 0 || waiting_sells.len() == 0,
        forall|i: int|
            0 <= i < waiting_buys.len() ==> (#[trigger] waiting_buys[i]).product == product
                && is_buyer(waiting_buys[i].trader_id),
        forall|i: int|
            0 <= i < waiting_sells.len() ==> (#[trigger] waiting_sells[i]).product == product
                && !is_buyer(waiting_sells[i].trader_id),
        forall|i: int|
            0 <= i < intents.len() ==> (#[trigger] intents[i]).product == product && (
            intents[i].action == ClientActions::Buy <==> is_buyer(intents[i].trader_id)),
    ensures
        submit_all(s, intents).0.traders == base.traders,
        submit_all(s, intents).0.buys == base.buys + r.0,
        submit_all(s, intents).0.sells == base.sells + r.1,
        r.0.len() == 0 || r.1.len() == 0,
        r.0.len() + submit_all(s, intents).1 == waiting_buys.len() + count_side(
            intents,
            ClientActions::Buy,
        ),
        r.1.len() + submit_all(s, intents).1 == waiting_sells.len() + count_side(
            intents,
            ClientActions::Sell,
        ),
    decreases intents.len(),
{
    if intents.len() == 0 {
        return (waiting_buys, waiting_sells);
    }
    let t = intents.first();
    let rest = intents.drop_first();
    let next = s.submit(t).0;
    match t.action {
        ClientActions::Buy => {
            if waiting_sells.len() > 0 {
                lemma_head_of_queue(base.sells, waiting_sells, product, t.trader_id);
                let shorter = waiting_sells.drop_first();
                lemma_flow(next, base, waiting_buys, shorter, rest, product, is_buyer)
            } else {
                lemma_none_of_is_unmatched(s.sells, product, t.trader_id);
                let longer = waiting_buys.push(resting(t));
                lemma_flow(next, base, longer, waiting_sells, rest, product, is_buyer)
            }
        },
        ClientActions::Sell => {
            if waiting_buys.len() > 0 {
                lemma_head_of_queue(base.buys, waiting_buys, product, t.trader_id);
                let shorter = waiting_buys.drop_first();
                lemma_flow(next, base, shorter, waiting_sells, rest, product, is_buyer)
            } else {
                lemma_none_of_is_unmatched(s.buys, product, t.trader_id);
                let longer = waiting_sells.push(resting(t));
                lemma_flow(next, base, waiting_buys, longer, rest, product, is_buyer)
            }
        },
    }
}

/// As many buy intents as sell intents for one product, no trader on both
/// sides, arrive in any order at a registry in which no order for that
/// product rests. Each is handled as one step. Then every buy is matched
/// with a sell: there are as many matches as buys, and the registry is
/// afterwards as it was before.
pub proof fn law_balanced_flow(s: ServiceState, intents: Seq<Transaction>, product: Product)
    requires
        holds_none_of(s.buys, product),
        holds_none_of(s.sells, product),
        forall|i: int| 0 <= i < intents.len() ==> (#[trigger] intents[i]).product == product,
        forall|i: int, j: int|
            0 <= i < intents.len() && 0 <= j < intents.len() && (#[trigger] intents[i]).action
                == ClientActions::Buy && (#[trigger] intents[j]).action == ClientActions::Sell
                ==> intents[i].trader_id != intents[j].trader_id,
        count_side(intents, ClientActions::Buy) == count_side(intents, ClientActions::Sell),
    ensures
        submit_all(s, intents).0 == s,
        submit_all(s, intents).1 == count_side(intents, ClientActions::Buy),
{
    let is_buyer = |trader_id: u16|
        exists|i: int|
            0 <= i < intents.len() && (#[trigger] intents[i]).action == ClientActions::Buy
                && intents[i].trader_id == trader_id;
    let none = Seq::<TransactionInfo>::empty();
    lemma_flow(s, s, none, none, intents, product, is_buyer);
}

} // verus!
