use stonks::asset::{self, Feed, LiveData};
use stonks::config;
use stonks::errors::AppError;
use stonks::events::{Event, EventBus, Key, poll_timeout};
use stonks::search_page::{search, SearchEngine};
use stonks::signal::SignalWindow;
use stonks::text::to_upper;
use stonks::tracker::{Indicator, LivePriceTracker};

fn trade(symbol: &str, price: u64) -> LiveData {
    LiveData {
        price,
        symbol: String::from(symbol),
        time: 1_700_000_000_000,
        volume: 1_000,
    }
}

#[test]
fn indicator_follows_price_direction() {
    let mut tracker = LivePriceTracker::new(String::from("AAPL"));
    tracker.apply(&trade("AAPL", 150_000));
    assert!(matches!(tracker.indicator, Indicator::Unknown));
    assert_eq!(tracker.last_price, Some(150_000));
    tracker.apply(&trade("AAPL", 160_000));
    assert!(matches!(tracker.indicator, Indicator::Up));
    tracker.apply(&trade("AAPL", 140_000));
    assert!(matches!(tracker.indicator, Indicator::Down));
    tracker.apply(&trade("AAPL", 140_000));
    assert!(matches!(tracker.indicator, Indicator::Down));
    assert_eq!(tracker.last_price, Some(140_000));
}

#[test]
fn foreign_symbol_updates_are_ignored() {
    let mut tracker = LivePriceTracker::new(String::from("TSLA"));
    tracker.apply(&trade("TSLA", 200_000));
    tracker.apply(&trade("MSFT", 999_000));
    assert_eq!(tracker.last_price, Some(200_000));
    assert!(matches!(tracker.indicator, Indicator::Unknown));
}

#[test]
fn signal_window_length_is_invariant() {
    let initial: Vec<u64> = (0..100).collect();
    let mut window = SignalWindow::new(initial, 5);
    for round in 0..10u64 {
        let fresh: Vec<u64> = (0..5).map(|k| 1_000 * round + k).collect();
        window.on_tick(&fresh);
        assert_eq!(window.points.len(), 100);
    }
}

#[test]
fn signal_window_slides_oldest_out() {
    let initial: Vec<u64> = (0..10).collect();
    let mut window = SignalWindow::new(initial, 3);
    window.on_tick(&vec![100, 101, 102]);
    assert_eq!(window.points, vec![3, 4, 5, 6, 7, 8, 9, 100, 101, 102]);
}

#[test]
fn bus_is_fifo_for_clock_and_keys() {
    let mut bus = EventBus::new();
    bus.publish(Event::Tick);
    bus.publish(Event::KeyPress(Key::Char('a')));
    bus.publish(Event::Tick);
    assert!(matches!(bus.pop(), Some(Event::Tick)));
    assert!(matches!(bus.pop(), Some(Event::KeyPress(Key::Char('a')))));
    assert!(matches!(bus.pop(), Some(Event::Tick)));
    assert!(bus.pop().is_none());
}

#[test]
fn bus_coalesces_prices_per_symbol() {
    let mut bus = EventBus::new();
    bus.publish(Event::PriceUpdate(trade("AAPL", 1_000)));
    bus.publish(Event::Tick);
    bus.publish(Event::PriceUpdate(trade("TSLA", 2_000)));
    bus.publish(Event::PriceUpdate(trade("AAPL", 3_000)));
    assert_eq!(bus.len(), 3);
    match bus.pop() {
        Some(Event::PriceUpdate(u)) => {
            assert_eq!(u.symbol, "AAPL");
            assert_eq!(u.price, 3_000);
        }
        _ => panic!("expected the coalesced price first"),
    }
    assert!(matches!(bus.pop(), Some(Event::Tick)));
    match bus.pop() {
        Some(Event::PriceUpdate(u)) => {
            assert_eq!(u.symbol, "TSLA");
            assert_eq!(u.price, 2_000);
        }
        _ => panic!("expected the second symbol's price"),
    }
}

#[test]
fn poll_timeout_is_bounded_by_tick_rate() {
    assert_eq!(poll_timeout(200, 0), 200);
    assert_eq!(poll_timeout(200, 150), 50);
    assert_eq!(poll_timeout(200, 200), 0);
    assert_eq!(poll_timeout(200, 900), 0);
}

#[test]
fn feed_keeps_first_trade_of_a_batch() {
    let feed = Feed {
        data: Some(vec![trade("AAPL", 1_500), trade("AAPL", 1_600)]),
        message_type: String::from("trade"),
    };
    let update = asset::feed_to_update(feed).expect("a trade was sent");
    assert_eq!(update.price, 1_500);
    assert_eq!(update.symbol, "AAPL");
}

#[test]
fn feed_drops_pings_and_empty_batches() {
    let ping = Feed { data: None, message_type: String::from("ping") };
    assert!(asset::feed_to_update(ping).is_none());
    let empty = Feed { data: Some(Vec::new()), message_type: String::from("trade") };
    assert!(asset::feed_to_update(empty).is_none());
}

#[test]
fn history_range_covers_one_year() {
    assert_eq!(asset::history_range(1_700_000_000), (1_668_464_000, 1_700_000_000));
    assert_eq!(asset::history_range(1_000), (0, 1_000));
}

#[test]
fn get_range_folds_min_and_max() {
    assert_eq!(asset::get_range(&vec![217_680, 222_490, 217_190]), (217_190, 222_490));
    assert_eq!(asset::get_range(&Vec::new()), (4_294_967_295, 0));
    assert_eq!(asset::get_range(&vec![5_000_000_000]), (4_294_967_295, 5_000_000_000));
}

#[test]
fn subscribe_message_has_the_wire_shape() {
    assert_eq!(
        asset::subscribe_message("AAPL"),
        "{\"type\":\"subscribe\",\"symbol\":\"AAPL\"}"
    );
}

#[test]
fn to_upper_folds_ascii_only() {
    assert_eq!(to_upper("aapl"), "AAPL");
    assert_eq!(to_upper("TsLa-9"), "TSLA-9");
    assert_eq!(to_upper(""), "");
}

#[test]
fn config_requires_api_key() {
    let pairs = vec![(String::from("default_symbol"), String::from("MSFT"))];
    assert!(matches!(config::from_pairs(&pairs), Err(AppError::Config)));
}

#[test]
fn config_takes_first_match_and_defaults_symbol() {
    let pairs = vec![
        (String::from("api_key"), String::from("SECRET-REDACTED")),
        (String::from("api_key"), String::from("SECOND")),
        (String::from("ignored"), String::from("x")),
    ];
    let cfg = config::from_pairs(&pairs).expect("api_key is present");
    assert_eq!(cfg.api_key, "SECRET-REDACTED");
    assert_eq!(cfg.default_symbol, "TSLA");

    let pairs = vec![
        (String::from("default_symbol"), String::from("MSFT")),
        (String::from("api_key"), String::from("SECRET-REDACTED")),
    ];
    let cfg = config::from_pairs(&pairs).expect("api_key is present");
    assert_eq!(cfg.default_symbol, "MSFT");
}

#[test]
fn error_messages_name_the_failure() {
    assert_eq!(AppError::Connection.message(), "connection failed");
    assert_eq!(AppError::Decode.message(), "malformed payload");
    assert_eq!(AppError::ChannelClosed.message(), "event source closed");
    assert_eq!(AppError::Config.message(), "missing required configuration key");
}

#[test]
fn stocks_compare_by_canonical_symbol() {
    let a = stonks::asset::Stock {
        currency: String::from("USD"),
        description: String::from("Apple Inc"),
        display_symbol: String::from("AAPL"),
        symbol: String::from("AAPL"),
        security_type: String::from("Common Stock"),
    };
    let mut b = a.clone();
    b.description = String::from("something else entirely");
    assert!(a == b);
    b.symbol = String::from("MSFT");
    assert!(a != b);
}

#[test]
fn search_ranks_the_indexed_securities() {
    let stocks = vec![
        stonks::asset::Stock {
            currency: String::from("USD"),
            description: String::from("Apple Inc"),
            display_symbol: String::from("AAPL"),
            symbol: String::from("AAPL"),
            security_type: String::from("Common Stock"),
        },
        stonks::asset::Stock {
            currency: String::from("USD"),
            description: String::from("Tesla Inc"),
            display_symbol: String::from("TSLA"),
            symbol: String::from("TSLA"),
            security_type: String::from("Common Stock"),
        },
        stonks::asset::Stock {
            currency: String::from("USD"),
            description: String::from("Microsoft Corporation"),
            display_symbol: String::from("MSFT"),
            symbol: String::from("MSFT"),
            security_type: String::from("Common Stock"),
        },
    ];
    let engine = SearchEngine::new(&stocks);
    let hits = search(&engine, "apple");
    assert!(!hits.is_empty());
    assert_eq!(hits[0].symbol, "AAPL");
    let hits = search(&engine, "microsoft");
    assert!(!hits.is_empty());
    assert_eq!(hits[0].symbol, "MSFT");
    let hits = search(&engine, "zzzqqq");
    assert!(hits.is_empty());
}
