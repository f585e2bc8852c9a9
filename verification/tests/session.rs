use trading_core::{
    handle_new_trader, Notification, Product, SessionAction, SessionEvent, SessionState, Trader,
    TransactionInfo, TransactionService,
};

fn note(trader_id: u16, message: &str) -> Notification {
    Notification { trader_id, message: message.to_string() }
}

fn line(trader: &mut Trader, service: &mut TransactionService, text: &str) -> Vec<Notification> {
    match trader.process(service, SessionEvent::Line(text.to_string())) {
        SessionAction::Dispatch(outcome) => outcome.notifications,
        other => panic!("a line was answered by {:?}", other),
    }
}

#[test]
fn two_traders_meet() {
    let mut service = TransactionService::default();
    let mut a = handle_new_trader(1000, &mut service);
    assert_eq!(line(&mut a, &mut service, "buy:onion"), vec![note(1000, "ACK:ONION")]);
    assert_eq!(service.buys.data, vec![TransactionInfo { trader_id: 1000, product: Product::Onion }]);

    let mut b = handle_new_trader(2000, &mut service);
    assert_eq!(
        line(&mut b, &mut service, "sell:onion"),
        vec![note(2000, "ACK:ONION"), note(1000, "TRADE:ONION"), note(2000, "TRADE:ONION")]
    );
    assert!(service.buys.data.is_empty());
    assert!(service.sells.data.is_empty());
}

#[test]
fn a_new_session_is_active_and_registered() {
    let mut service = TransactionService::default();
    let trader = handle_new_trader(7, &mut service);
    assert_eq!(trader, Trader { trader_id: 7, state: SessionState::Active });
    assert_eq!(service.get_all_trader_addrs(), vec![7]);
}

#[test]
fn a_notification_is_written_as_it_is() {
    let mut service = TransactionService::default();
    let mut trader = handle_new_trader(7, &mut service);
    match trader.process(&mut service, SessionEvent::Notification("TRADE:PEAR".to_string())) {
        SessionAction::Write(text) => assert_eq!(text, "TRADE:PEAR"),
        other => panic!("a notification was answered by {:?}", other),
    }
    assert_eq!(trader.state, SessionState::Active);
}

#[test]
fn a_session_closes_on_the_end_of_the_stream_and_on_an_error() {
    for closing in [false, true] {
        let mut service = TransactionService::default();
        let mut other = handle_new_trader(1, &mut service);
        let mut trader = handle_new_trader(2, &mut service);
        line(&mut trader, &mut service, "sell:apple");
        let event = if closing { SessionEvent::EndOfStream } else { SessionEvent::TransportError };
        assert!(matches!(trader.process(&mut service, event), SessionAction::Close));
        assert_eq!(trader.state, SessionState::Closing);
        assert_eq!(service.get_all_trader_addrs(), vec![1, 2]);

        // A closing session takes no more lines.
        assert!(matches!(
            trader.process(&mut service, SessionEvent::Line("buy:pear".to_string())),
            SessionAction::Close
        ));
        assert!(service.buys.data.is_empty());

        trader.terminate(&mut service);
        assert_eq!(trader.state, SessionState::Terminated);
        assert_eq!(service.get_all_trader_addrs(), vec![1]);
        // What the trader left in the book stays, and still matches.
        assert_eq!(service.sells.data, vec![TransactionInfo { trader_id: 2, product: Product::Apple }]);
        assert_eq!(
            line(&mut other, &mut service, "buy:apple"),
            vec![note(1, "ACK:APPLE"), note(1, "TRADE:APPLE")]
        );
    }
}

#[test]
fn terminating_twice_leaves_a_later_session_alone() {
    let mut service = TransactionService::default();
    let mut old = handle_new_trader(5, &mut service);
    old.terminate(&mut service);
    assert!(service.get_all_trader_addrs().is_empty());
    let later = handle_new_trader(5, &mut service);
    old.terminate(&mut service);
    assert_eq!(service.get_all_trader_addrs(), vec![5]);
    assert_eq!(later.state, SessionState::Active);
    assert!(matches!(
        old.process(&mut service, SessionEvent::Notification("x".to_string())),
        SessionAction::Close
    ));
    assert_eq!(old.state, SessionState::Terminated);
}

#[test]
fn a_malformed_line_is_answered_and_the_session_goes_on() {
    let mut service = TransactionService::default();
    let mut trader = handle_new_trader(3, &mut service);
    assert_eq!(
        line(&mut trader, &mut service, "hello"),
        vec![note(3, "Invalid transaction message. Should be <Action>:<Item>")]
    );
    assert_eq!(trader.state, SessionState::Active);
    assert_eq!(line(&mut trader, &mut service, " Sell : Potato "), vec![note(3, "ACK:POTATO")]);
}
