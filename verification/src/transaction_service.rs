//! The matching registry: both sides of the book, the directory of the
//! connected traders, and what is told to whom.

use crate::actions::{ClientActions, ServerActions};
use crate::directory::TraderDirectory;
use crate::errors::ClientError;
use crate::products::Product;
use crate::storage::{first_match, resting, TransactionInfo, TransactionStorage};
use crate::trader::Transaction;
use vstd::prelude::*;
use vstd::string::StringExecFns;

verus! {

/// One line for one trader. The transport delivers it; a trader that has
/// gone in the meantime is passed over.
#[derive(Debug, PartialEq, Eq)]
pub struct Notification {
    pub trader_id: u16,
    pub message: String,
}

/// A notification as a value: the receiver and the characters of the line.
pub struct NotificationView {
    pub trader_id: u16,
    pub message: Seq<char>,
}

impl View for Notification {
    type V = NotificationView;

    open spec fn view(&self) -> NotificationView {
        NotificationView { trader_id: self.trader_id, message: self.message@ }
    }
}

impl DeepView for Notification {
    type V = NotificationView;

    open spec fn deep_view(&self) -> NotificationView {
        self@
    }
}

/// The line that acknowledges an intent for `product`.
pub open spec fn ack_text(product: Product) -> Seq<char> {
    ServerActions::Ack.name() + ":"@ + product.name()
}

/// The line that announces a trade in `product`.
pub open spec fn trade_text(product: Product) -> Seq<char> {
    ServerActions::Trade.name() + ":"@ + product.name()
}

/// The line that is logged for a trade in `product`.
pub open spec fn trade_log_text(product: Product) -> Seq<char> {
    ServerActions::Trade.name() + " ("@ + product.name() + ")"@
}

/// What handling one inbound line led to.
#[derive(Debug)]
pub struct Outcome {
    /// The product that changed hands, where the intent met a counterparty.
    pub matched: Option<Product>,
    /// The lines to deliver, in this order.
    pub notifications: Vec<Notification>,
    /// The lines to log, in this order.
    pub log: Vec<String>,
}

/// An outcome as a value.
pub struct OutcomeView {
    pub matched: Option<Product>,
    pub notifications: Seq<NotificationView>,
    pub log: Seq<Seq<char>>,
}

impl View for Outcome {
    type V = OutcomeView;

    open spec fn view(&self) -> OutcomeView {
        OutcomeView {
            matched: self.matched,
            notifications: self.notifications.deep_view(),
            log: self.log.deep_view(),
        }
    }
}

/// The registry as a value: who is connected, and what rests on either side.
pub struct ServiceState {
    pub traders: Seq<u16>,
    pub sells: Seq<TransactionInfo>,
    pub buys: Seq<TransactionInfo>,
}

/// Nothing, or the one notification.
pub open spec fn at_most_one(notification: Option<NotificationView>) -> Seq<NotificationView> {
    match notification {
        Some(n) => seq![n],
        None => Seq::empty(),
    }
}

impl ServiceState {
    /// A registry with nobody connected and nothing resting.
    pub open spec fn empty() -> ServiceState {
        ServiceState { traders: Seq::empty(), sells: Seq::empty(), buys: Seq::empty() }
    }

    /// The book that holds the intents of one side.
    pub open spec fn book(self, side: ClientActions) -> Seq<TransactionInfo> {
        match side {
            ClientActions::Buy => self.buys,
            ClientActions::Sell => self.sells,
        }
    }

    /// The registry with the book of one side replaced.
    pub open spec fn with_book(self, side: ClientActions, book: Seq<TransactionInfo>)
        -> ServiceState {
        match side {
            ClientActions::Buy => ServiceState { buys: book, ..self },
            ClientActions::Sell => ServiceState { sells: book, ..self },
        }
    }

    /// After `trader_id` has connected.
    pub open spec fn register_trader(self, trader_id: u16) -> ServiceState {
        if self.traders.contains(trader_id) {
            self
        } else {
            ServiceState { traders: self.traders.push(trader_id), ..self }
        }
    }

    /// After `trader_id` has gone. What it left in the books stays there.
    pub open spec fn remove_trader(self, trader_id: u16) -> ServiceState {
        ServiceState { traders: self.traders.remove_value(trader_id), ..self }
    }

    /// A line for `trader_id`, which is dropped if the trader is not connected.
    pub open spec fn send_error(self, trader_id: u16, text: Seq<char>) -> Option<NotificationView> {
        if self.traders.contains(trader_id) {
            Some(NotificationView { trader_id, message: text })
        } else {
            None
        }
    }

    /// The acknowledgement for `trader_id`.
    pub open spec fn confirm(self, trader_id: u16, product: Product) -> Option<NotificationView> {
        self.send_error(trader_id, ack_text(product))
    }

    /// The announcement of a trade, once for everybody who is connected.
    pub open spec fn inform_all(self, product: Product) -> Seq<NotificationView> {
        Seq::new(
            self.traders.len(),
            |i: int| NotificationView { trader_id: self.traders[i], message: trade_text(product) },
        )
    }

    /// After the intent has been put to rest on its own side.
    pub open spec fn register_order(self, transaction: Transaction) -> ServiceState {
        self.with_book(
            transaction.action,
            self.book(transaction.action).push(resting(transaction)),
        )
    }

    /// The intent is held against the other side: the oldest order there for
    /// the same product and of another trader leaves the book.
    pub open spec fn try_trade_with(self, transaction: Transaction) -> (
        ServiceState,
        Option<Product>,
    ) {
        let side = transaction.action.opposite();
        match first_match(self.book(side), transaction.product, transaction.trader_id) {
            Some(i) => (self.with_book(side, self.book(side).remove(i)), Some(transaction.product)),
            None => (self, None),
        }
    }

    /// One intent, from receipt to the end: it is acknowledged, then matched
    /// and announced, or else put to rest.
    pub open spec fn submit(self, transaction: Transaction) -> (ServiceState, OutcomeView) {
        let ack = at_most_one(self.confirm(transaction.trader_id, transaction.product));
        let (after, matched) = self.try_trade_with(transaction);
        match matched {
            Some(product) => (
                after,
                OutcomeView {
                    matched,
                    notifications: ack + after.inform_all(product),
                    log: seq![transaction.log_line(), trade_log_text(product)],
                },
            ),
            None => (
                after.register_order(transaction),
                OutcomeView { matched, notifications: ack, log: seq![transaction.log_line()] },
            ),
        }
    }

    /// One inbound line, once it has been parsed: an intent is submitted, a
    /// fault is told to the sender alone and changes nothing.
    pub open spec fn respond(self, trader_id: u16, parsed: Result<Transaction, ClientError>) -> (
        ServiceState,
        OutcomeView,
    ) {
        match parsed {
            Ok(transaction) => self.submit(transaction),
            Err(e) => (
                self,
                OutcomeView {
                    matched: None,
                    notifications: at_most_one(self.send_error(trader_id, e.text())),
                    log: Seq::empty(),
                },
            ),
        }
    }
}

/// The single authority over both books and the directory.
#[derive(Debug)]
pub struct TransactionService {
    pub traders: TraderDirectory,
    pub sells: TransactionStorage,
    pub buys: TransactionStorage,
}

impl View for TransactionService {
    type V = ServiceState;

    open spec fn view(&self) -> ServiceState {
        ServiceState { traders: self.traders@, sells: self.sells@, buys: self.buys@ }
    }
}

impl Default for TransactionService {
    fn default() -> (r: Self)
        ensures
            r@ == ServiceState::empty(),
    {
        TransactionService {
            traders: TraderDirectory::default(),
            sells: TransactionStorage::default(),
            buys: TransactionStorage::default(),
        }
    }
}

impl TransactionService {
    /// The trade announcement for every trader that is connected, in the
    /// order in which they registered. Nobody is addressed twice.
    pub fn inform_all(&self, product: Product) -> (r: Vec<Notification>)
        ensures
            r.deep_view() == self@.inform_all(product),
            forall|i: int, j: int|
                0 <= i < j < r@.len() ==> (#[trigger] r@[i]).trader_id != (
                #[trigger] r@[j]).trader_id,
    {
        let mut r: Vec<Notification> = Vec::new();
        let n = self.traders.len();
        let mut at: usize = 0;
        while at < n
            invariant
                at <= n == self.traders@.len(),
                r@.len() == at,
                forall|i: int|
                    0 <= i < at ==> (#[trigger] r@[i])@ == (NotificationView {
                        trader_id: self.traders@[i],
                        message: trade_text(product),
                    }),
            decreases n - at,
        {
            let message = Self::inform_about_trade(product);
            r.push(Notification { trader_id: self.traders.get(at), message });
            at = at + 1;
        }
        r
    }

    /// The acknowledgement of an intent for `product`, if `trader_id` is
    /// still connected.
    pub fn confirm(&self, trader_id: u16, product: Product) -> (r: Option<Notification>)
        ensures
            r.deep_view() == self@.confirm(trader_id, product),
    {
        match self.get_trader_addr(trader_id) {
            Some(receiver) => Some(
                Notification { trader_id: receiver, message: Self::ack_order(product) },
            ),
            None => None,
        }
    }

    /// The line `error_msg` for `trader_id`, if it is still connected.
    pub fn send_error(&self, trader_id: u16, error_msg: String) -> (r: Option<Notification>)
        ensures
            r.deep_view() == self@.send_error(trader_id, error_msg@),
    {
        match self.get_trader_addr(trader_id) {
            Some(receiver) => Some(Notification { trader_id: receiver, message: error_msg }),
            None => None,
        }
    }

    /// Takes `trader_id` out of the directory. Its resting orders stay.
    pub fn remove_trader(&mut self, trader_id: u16)
        ensures
            final(self)@ == old(self)@.remove_trader(trader_id),
    {
        self.traders.remove(trader_id);
    }

    /// Enters `trader_id` into the directory. Doing so twice changes nothing.
    pub fn register_trader(&mut self, trader_id: u16)
        ensures
            final(self)@ == old(self)@.register_trader(trader_id),
    {
        self.traders.insert(trader_id);
    }

    /// Puts the intent to rest in the book of its own side.
    pub fn register_order(&mut self, transaction: Transaction)
        ensures
            final(self)@ == old(self)@.register_order(transaction),
    {
        match transaction.action {
            ClientActions::Buy => self.buys.add(TransactionInfo::from(transaction)),
            ClientActions::Sell => self.sells.add(TransactionInfo::from(transaction)),
        };
    }

    /// Looks for a counterparty on the other side and takes its order out
    /// of the book. Says which product changed hands, if one did.
    pub fn try_trade_with(&mut self, transaction: Transaction) -> (r: Option<Product>)
        ensures
            (final(self)@, r) == old(self)@.try_trade_with(transaction),
    {
        match transaction.action {
            ClientActions::Buy => self.find_seller(transaction.product, transaction.trader_id),
            ClientActions::Sell => self.find_buyer(transaction.product, transaction.trader_id),
        }
    }

    /// The line that is logged for a trade in `product`.
    pub fn log_trade(product: Product) -> (r: String)
        ensures
            r@ == trade_log_text(product),
    {
        let mut r = ServerActions::Trade.to_string();
        r.append(" (");
        r.append(product.as_str());
        r.append(")");
        r
    }

    /// The line that announces a trade in `product`.
    pub fn inform_about_trade(product: Product) -> (r: String)
        ensures
            r@ == trade_text(product),
    {
        let mut r = ServerActions::Trade.to_string();
        r.append(":");
        r.append(product.as_str());
        r
    }

    /// The line that acknowledges an intent for `product`.
    pub fn ack_order(product: Product) -> (r: String)
        ensures
            r@ == ack_text(product),
    {
        let mut r = ServerActions::Ack.to_string();
        r.append(":");
        r.append(product.as_str());
        r
    }

    /// Under which identity the transport reaches `trader_id`: its own, as
    /// long as it is connected.
    pub fn get_trader_addr(&self, trader_id: u16) -> (r: Option<u16>)
        ensures
            r == if self@.traders.contains(trader_id) {
                Some(trader_id)
            } else {
                None
            },
    {
        if self.traders.contains(trader_id) {
            Some(trader_id)
        } else {
            None
        }
    }

    /// The identities of all connected traders, in the order in which they
    /// registered.
    pub fn get_all_trader_addrs(&self) -> (r: Vec<u16>)
        ensures
            r@ == self@.traders,
            r@.no_duplicates(),
    {
        let mut r: Vec<u16> = Vec::new();
        let n = self.traders.len();
        let mut at: usize = 0;
        while at < n
            invariant
                at <= n == self.traders@.len(),
                r@ == self.traders@.take(at as int),
            decreases n - at,
        {
            r.push(self.traders.get(at));
            at = at + 1;
        }
        r
    }

    /// Matches a buyer: the oldest resting sell order for `product` that is
    /// not `author_id`'s own leaves the book.
    pub fn find_seller(&mut self, product: Product, author_id: u16) -> (r: Option<Product>)
        ensures
            (final(self)@, r) == old(self)@.try_trade_with(
                Transaction { trader_id: author_id, action: ClientActions::Buy, product },
            ),
    {
        match self.sells.try_find(product, author_id) {
            Some((matched_product, position)) => {
                self.sells.remove_at(position);
                Some(matched_product)
            },
            None => None,
        }
    }

    /// Matches a seller: the oldest resting buy order for `product` that is
    /// not `author_id`'s own leaves the book.
    pub fn find_buyer(&mut self, product: Product, author_id: u16) -> (r: Option<Product>)
        ensures
            (final(self)@, r) == old(self)@.try_trade_with(
                Transaction { trader_id: author_id, action: ClientActions::Sell, product },
            ),
    {
        match self.buys.try_find(product, author_id) {
            Some((matched_product, position)) => {
                self.buys.remove_at(position);
                Some(matched_product)
            },
            None => None,
        }
    }

    /// Handles one intent from receipt to the end, as one step: the sender
    /// gets its acknowledgement; then either the oldest counterparty leaves
    /// the other book and everybody connected hears of the trade, or the
    /// intent is put to rest on its own side.
    pub fn submit(&mut self, transaction: Transaction) -> (r: Outcome)
        ensures
            (final(self)@, r@) == old(self)@.submit(transaction),
    {
        let mut notifications: Vec<Notification> = Vec::new();
        let mut log: Vec<String> = Vec::new();
        log.push(transaction.to_string());
        match self.confirm(transaction.trader_id, transaction.product) {
            Some(ack) => notifications.push(ack),
            None => {},
        }
        let ghost ack = notifications.deep_view();
        assert(ack =~= at_most_one(
            old(self)@.confirm(transaction.trader_id, transaction.product),
        ));
        let matched = self.try_trade_with(transaction);
        match matched {
            Some(product) => {
                log.push(Self::log_trade(product));
                let mut trade = self.inform_all(product);
                let ghost told = trade.deep_view();
                notifications.append(&mut trade);
                assert(notifications.deep_view() =~= ack + told);
                assert(log.deep_view() =~= seq![transaction.log_line(), trade_log_text(product)]);
            },
            None => {
                self.register_order(transaction);
                assert(log.deep_view() =~= seq![transaction.log_line()]);
            },
        }
        Outcome { matched, notifications, log }
    }

    /// Handles one inbound line of `trader_id` that has been parsed: an
    /// intent is submitted; a fault goes back to the sender alone, and
    /// neither the books nor the directory change.
    pub fn respond(&mut self, trader_id: u16, parsed: Result<Transaction, ClientError>) -> (r:
        Outcome)
        ensures
            (final(self)@, r@) == old(self)@.respond(trader_id, parsed),
    {
        match parsed {
            Ok(transaction) => self.submit(transaction),
            Err(e) => {
                let mut notifications: Vec<Notification> = Vec::new();
                match self.send_error(trader_id, e.to_string()) {
                    Some(reply) => notifications.push(reply),
                    None => {},
                }
                let log: Vec<String> = Vec::new();
                assert(notifications.deep_view() =~= at_most_one(
                    self@.send_error(trader_id, e.text()),
                ));
                assert(log.deep_view() =~= Seq::<Seq<char>>::empty());
                Outcome { matched: None, notifications, log }
            },
        }
    }

    /// Handles one inbound line of `trader_id`: the line is parsed, and the
    /// registry responds to what it stands for.
    pub fn read_transaction_message(&mut self, trader_id: u16, line: String) -> (r: Outcome)
        ensures
            (final(self)@, r@) == old(self)@.respond(
                trader_id,
                Transaction::parse(trader_id, line@),
            ),
    {
        let parsed = Transaction::new_from(trader_id, line);
        self.respond(trader_id, parsed)
    }
}

} // verus!
