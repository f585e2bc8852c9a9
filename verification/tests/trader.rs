use trading_core::{ClientActions, ClientError, Product, Transaction, TransactionInfo};

#[test]
fn test_transaction_from_str() {
    let trader_id = 0;
    let buy_order = "buy:onion".to_string();
    let expected_result = Transaction {
        trader_id,
        action: ClientActions::Buy,
        product: Product::Onion,
    };
    match Transaction::new_from(trader_id, buy_order) {
        Ok(result) => assert_eq!(result, expected_result),
        Err(_) => assert!(false),
    }
}

#[test]
fn test_transaction_incorrect_message() {
    let buy_order = "buy onion".to_string();
    let result = Transaction::new_from(0, buy_order);
    assert!(matches!(
        result,
        Err(ClientError::InvalidTransactionMessage)
    ));
}

#[test]
fn test_transaction_incorrect_product() {
    let buy_order = "buy:GME".to_string();
    let result = Transaction::new_from(0, buy_order);
    assert!(matches!(result, Err(ClientError::UnknownProduct)));
}

#[test]
fn test_transaction_incorrect_action() {
    let buy_order = "buyy:APPLE".to_string();
    let result = Transaction::new_from(0, buy_order);
    assert!(matches!(result, Err(ClientError::UnknownAction)));
}

#[test]
fn parse_is_the_same_in_any_case_and_spacing() {
    let expected = Transaction {
        trader_id: 9,
        action: ClientActions::Buy,
        product: Product::Apple,
    };
    for line in ["buy:apple", "BUY : APPLE  ", "Buy:Apple"] {
        assert_eq!(Transaction::new_from(9, line.to_string()), Ok(expected));
    }
}

#[test]
fn parse_names_each_fault() {
    assert_eq!(
        Transaction::new_from(1, "buyapple".to_string()),
        Err(ClientError::InvalidTransactionMessage)
    );
    assert_eq!(
        Transaction::new_from(1, "fly:apple".to_string()),
        Err(ClientError::UnknownAction)
    );
    assert_eq!(
        Transaction::new_from(1, "buy:kiwi".to_string()),
        Err(ClientError::UnknownProduct)
    );
    assert_eq!(
        Transaction::new_from(1, "fly:kiwi".to_string()),
        Err(ClientError::UnknownAction)
    );
    assert_eq!(
        Transaction::new_from(1, "".to_string()),
        Err(ClientError::InvalidTransactionMessage)
    );
    assert_eq!(
        Transaction::new_from(1, ":".to_string()),
        Err(ClientError::UnknownAction)
    );
}

#[test]
fn parse_reads_every_action_and_product() {
    let products = [
        ("apple", Product::Apple),
        ("pear", Product::Pear),
        ("tomato", Product::Tomato),
        ("potato", Product::Potato),
        ("onion", Product::Onion),
    ];
    let actions = [("buy", ClientActions::Buy), ("sell", ClientActions::Sell)];
    for (action_text, action) in actions {
        for (product_text, product) in products {
            let line = format!("{}:{}", action_text, product_text);
            assert_eq!(
                Transaction::new_from(513, line),
                Ok(Transaction { trader_id: 513, action, product })
            );
        }
    }
}

#[test]
fn parse_looks_at_the_first_line_only() {
    assert_eq!(
        Transaction::new_from(2, "sell:pear\nbuy:apple".to_string()),
        Ok(Transaction { trader_id: 2, action: ClientActions::Sell, product: Product::Pear })
    );
    assert_eq!(
        Transaction::new_from(2, "sell\n:pear".to_string()),
        Err(ClientError::InvalidTransactionMessage)
    );
    assert_eq!(
        Transaction::new_from(2, "sell:\npear".to_string()),
        Err(ClientError::UnknownProduct)
    );
}

#[test]
fn parse_splits_at_the_first_colon() {
    assert_eq!(
        Transaction::new_from(2, "buy:apple:pear".to_string()),
        Err(ClientError::UnknownProduct)
    );
    assert_eq!(
        Transaction::new_from(2, ":buy:apple".to_string()),
        Err(ClientError::UnknownAction)
    );
}

#[test]
fn parse_puts_tokens_in_upper_case_as_unicode_does() {
    // The long s and the dotless i have `S` and `I` as their upper case.
    assert_eq!(
        Transaction::new_from(3, "\u{17f}ell:on\u{131}on".to_string()),
        Ok(Transaction { trader_id: 3, action: ClientActions::Sell, product: Product::Onion })
    );
    // The Kelvin sign is an upper-case letter already, and is not `K`.
    assert_eq!(
        Transaction::new_from(3, "buy:\u{212a}iwi".to_string()),
        Err(ClientError::UnknownProduct)
    );
}

#[test]
fn from_tokens_wants_upper_case() {
    assert_eq!(
        Transaction::from_tokens(4, "SELL", "POTATO"),
        Ok(Transaction { trader_id: 4, action: ClientActions::Sell, product: Product::Potato })
    );
    assert_eq!(Transaction::from_tokens(4, "sell", "POTATO"), Err(ClientError::UnknownAction));
    assert_eq!(Transaction::from_tokens(4, "SELL", "potato"), Err(ClientError::UnknownProduct));
    assert_eq!(Transaction::from_tokens(4, "SELL ", "POTATO"), Err(ClientError::UnknownAction));
    assert_eq!(Transaction::from_tokens(4, "", ""), Err(ClientError::UnknownAction));
}

#[test]
fn transaction_log_line() {
    let transaction = Transaction {
        trader_id: 0,
        action: ClientActions::Buy,
        product: Product::Onion,
    };
    assert_eq!(transaction.to_string(), "new buy order ('0', ONION)");
    let transaction = Transaction {
        trader_id: 65535,
        action: ClientActions::Sell,
        product: Product::Tomato,
    };
    assert_eq!(transaction.to_string(), "new sell order ('65535', TOMATO)");
}

#[test]
fn resting_order_drops_the_side() {
    let transaction = Transaction {
        trader_id: 77,
        action: ClientActions::Sell,
        product: Product::Pear,
    };
    let info: TransactionInfo = transaction.into();
    assert_eq!(info, TransactionInfo { trader_id: 77, product: Product::Pear });
    assert_eq!(TransactionInfo::from(transaction), info);
}

#[test]
fn names_of_actions_products_and_errors() {
    assert_eq!(ClientActions::Buy.to_string(), "BUY");
    assert_eq!(ClientActions::Sell.to_string(), "SELL");
    assert_eq!(ClientActions::Buy.as_lower_str(), "buy");
    assert_eq!(ClientActions::Sell.as_lower_str(), "sell");
    assert_eq!(trading_core::ServerActions::Trade.to_string(), "TRADE");
    assert_eq!(trading_core::ServerActions::Ack.to_string(), "ACK");
    assert_eq!(Product::Apple.to_string(), "APPLE");
    assert_eq!(Product::Pear.to_string(), "PEAR");
    assert_eq!(Product::Tomato.to_string(), "TOMATO");
    assert_eq!(Product::Potato.to_string(), "POTATO");
    assert_eq!(Product::Onion.as_str(), "ONION");
    assert_eq!(
        ClientError::UnknownProduct.to_string(),
        "Unknown product. Choose between: APPLE, PEAR, TOMATO, POTATO or ONION"
    );
    assert_eq!(
        ClientError::UnknownAction.to_string(),
        "Unknown action. Choose between: BUY or SELL"
    );
    assert_eq!(
        ClientError::InvalidTransactionMessage.to_string(),
        "Invalid transaction message. Should be <Action>:<Item>"
    );
}

#[test]
fn from_str_reads_exact_names_only() {
    assert_eq!(ClientActions::from_str("BUY"), Ok(ClientActions::Buy));
    assert_eq!(ClientActions::from_str("SELL"), Ok(ClientActions::Sell));
    assert_eq!(ClientActions::from_str("Buy"), Err(ClientError::UnknownAction));
    assert_eq!(ClientActions::from_str("BU"), Err(ClientError::UnknownAction));
    assert_eq!(ClientActions::from_str("BUYS"), Err(ClientError::UnknownAction));
    assert_eq!(Product::from_str("APPLE"), Ok(Product::Apple));
    assert_eq!(Product::from_str("PEAR"), Ok(Product::Pear));
    assert_eq!(Product::from_str("TOMATO"), Ok(Product::Tomato));
    assert_eq!(Product::from_str("POTATO"), Ok(Product::Potato));
    assert_eq!(Product::from_str("ONION"), Ok(Product::Onion));
    assert_eq!(Product::from_str("ONIONS"), Err(ClientError::UnknownProduct));
    assert_eq!(Product::from_str("onion"), Err(ClientError::UnknownProduct));
    assert_eq!(Product::from_str(""), Err(ClientError::UnknownProduct));
}
