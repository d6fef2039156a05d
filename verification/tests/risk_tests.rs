use robo_trading::risk::PositionBook;

#[derive(Debug, Clone, PartialEq)]
struct Pos {
    entry_price: f64,
    quantity: f64,
}

#[test]
fn position_book_add_get_list_remove() {
    let mut book: PositionBook<Pos> = PositionBook::new();
    book.insert("BTCUSDT".to_string(), Pos { entry_price: 50000.0, quantity: 0.1 });
    assert!(book.get("BTCUSDT").is_some());
    assert_eq!(book.positions().len(), 1);
    let removed = book.remove("BTCUSDT");
    assert_eq!(removed, Some(Pos { entry_price: 50000.0, quantity: 0.1 }));
    assert!(book.get("BTCUSDT").is_none());
    assert_eq!(book.len(), 0);
}

#[test]
fn position_book_replaces_and_keeps_order() {
    let mut book: PositionBook<Pos> = PositionBook::new();
    book.insert("BTCUSDT".to_string(), Pos { entry_price: 1.0, quantity: 1.0 });
    book.insert("ETHUSDT".to_string(), Pos { entry_price: 2.0, quantity: 2.0 });
    book.insert("BTCUSDT".to_string(), Pos { entry_price: 3.0, quantity: 3.0 });
    assert_eq!(book.len(), 2);
    assert_eq!(book.symbols(), vec!["BTCUSDT".to_string(), "ETHUSDT".to_string()]);
    assert_eq!(book.get("BTCUSDT").unwrap().entry_price, 3.0);
    let listed: Vec<f64> = book.positions().iter().map(|p| p.quantity).collect();
    assert_eq!(listed, vec![3.0, 2.0]);
    assert!(book.contains("ETHUSDT"));
    assert!(!book.contains("XRPUSDT"));
    assert_eq!(book.remove("XRPUSDT"), None);
    book.remove("BTCUSDT");
    assert_eq!(book.symbols(), vec!["ETHUSDT".to_string()]);
}

#[test]
fn position_book_capacity() {
    let mut book: PositionBook<Pos> = PositionBook::new();
    assert!(book.has_capacity(3));
    assert!(!book.has_capacity(0));
    for s in ["A", "B", "C"] {
        book.insert(s.to_string(), Pos { entry_price: 1.0, quantity: 1.0 });
    }
    assert!(!book.has_capacity(3));
    assert!(book.has_capacity(4));
}
