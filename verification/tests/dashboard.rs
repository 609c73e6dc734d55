use stonks::app::{App, InputMode, State, SubmitPolicy, TabsState};
use stonks::asset::Stock;
use stonks::cache::{CacheState, CompanyDataCache};
use stonks::config::AppConfig;
use stonks::events::Source;
use stonks::tracker::Indicator;

fn test_config() -> AppConfig {
    AppConfig {
        api_key: String::from("SECRET-REDACTED"),
        default_symbol: String::from("TSLA"),
    }
}

fn fresh_app(policy: SubmitPolicy) -> App {
    App::new(
        String::from("Stonks"),
        String::from("TSLA"),
        test_config(),
        policy,
    )
}

#[test]
fn new_app_starts_clean() {
    let app = fresh_app(SubmitPolicy::SetSymbol);
    assert!(matches!(app.input_mode, InputMode::Normal));
    assert!(matches!(app.state, State::Normal));
    assert_eq!(app.input, "");
    assert_eq!(app.symbol, "TSLA");
    assert!(!app.should_quit);
    assert!(app.show_chart);
    assert_eq!(app.tabs.index, 0);
    assert_eq!(app.tabs.titles, vec!["Tab0", "Tab1"]);
    assert!(app.securities.is_empty());
    assert!(app.search_engine.is_none());
    assert!(matches!(app.tracker.indicator, Indicator::Unknown));
    assert!(app.tracker.last_price.is_none());
}

#[test]
fn help_text_follows_the_mode() {
    assert_eq!(
        stonks::app::help_text(InputMode::Normal),
        "Search for an asset"
    );
    assert_eq!(
        stonks::app::help_text(InputMode::Editing),
        "Press Esc to stop editing, Enter to record the message"
    );
}

#[test]
fn slash_toggles_input_mode() {
    let mut app = fresh_app(SubmitPolicy::SetSymbol);
    app.on_key('/');
    assert!(matches!(app.input_mode, InputMode::Editing));
    app.on_key('/');
    assert!(matches!(app.input_mode, InputMode::Normal));
}

#[test]
fn q_quits_in_normal_mode_only() {
    let mut app = fresh_app(SubmitPolicy::SetSymbol);
    app.on_key('/');
    app.on_key('q');
    assert!(!app.should_quit);
    assert_eq!(app.input, "q");
    app.on_key('/');
    app.on_key('q');
    assert!(app.should_quit);
    assert_eq!(app.input, "q");
}

#[test]
fn typing_appends_only_while_editing() {
    let mut app = fresh_app(SubmitPolicy::SetSymbol);
    app.on_key('a');
    assert_eq!(app.input, "");
    app.on_key('/');
    app.on_key('a');
    app.on_key('b');
    assert_eq!(app.input, "ab");
}

#[test]
fn submit_round_trip_sets_symbol() {
    let mut app = fresh_app(SubmitPolicy::SetSymbol);
    app.on_key('/');
    app.on_key('A');
    app.on_key('A');
    app.on_key('P');
    app.on_key('L');
    app.on_enter();
    assert_eq!(app.symbol, "AAPL");
    assert_eq!(app.input, "");
    assert!(matches!(app.input_mode, InputMode::Normal));
}

#[test]
fn submit_upper_cases_the_buffer() {
    let mut app = fresh_app(SubmitPolicy::SetSymbol);
    app.on_key('/');
    app.on_key('m');
    app.on_key('s');
    app.on_key('f');
    app.on_key('t');
    app.on_enter();
    assert_eq!(app.symbol, "MSFT");
}

#[test]
fn submit_round_trip_opens_search() {
    let mut app = fresh_app(SubmitPolicy::OpenSearch);
    app.on_key('/');
    app.on_key('A');
    app.on_key('A');
    app.on_key('P');
    app.on_key('L');
    app.on_enter();
    assert!(matches!(app.state, State::Search));
    assert_eq!(app.input, "AAPL");
    assert_eq!(app.symbol, "TSLA");
}

#[test]
fn escape_leaves_editing_and_keeps_buffer() {
    let mut app = fresh_app(SubmitPolicy::SetSymbol);
    app.on_key('/');
    app.on_key('x');
    app.on_escape();
    assert!(matches!(app.input_mode, InputMode::Normal));
    assert_eq!(app.input, "x");
}

#[test]
fn on_backspace_removes_last_and_is_noop_when_empty() {
    let mut app = fresh_app(SubmitPolicy::SetSymbol);
    app.on_backspace();
    assert_eq!(app.input, "");
    app.on_key('/');
    app.on_key('a');
    app.on_key('b');
    app.on_backspace();
    assert_eq!(app.input, "a");
}

#[test]
fn tabs_wrap_around_both_ends() {
    let mut app = fresh_app(SubmitPolicy::SetSymbol);
    assert_eq!(app.tabs.index, 0);
    app.on_right();
    assert_eq!(app.tabs.index, 1);
    app.on_right();
    assert_eq!(app.tabs.index, 0);
    app.on_left();
    assert_eq!(app.tabs.index, 1);
    app.on_left();
    assert_eq!(app.tabs.index, 0);
}

#[test]
fn tabs_state_cycles_over_titles() {
    let mut tabs = TabsState::new(vec![
        String::from("Tab0"),
        String::from("Tab1"),
    ]);
    tabs.next();
    assert_eq!(tabs.index, 1);
    tabs.next();
    assert_eq!(tabs.index, 0);
    tabs.previous();
    assert_eq!(tabs.index, 1);
}

fn sample_stock(symbol: &str, description: &str) -> Stock {
    Stock {
        currency: String::from("USD"),
        description: String::from(description),
        display_symbol: String::from(symbol),
        symbol: String::from(symbol),
        security_type: String::from("Common Stock"),
    }
}

#[test]
fn selection_moves_only_in_search_view() {
    let mut app = fresh_app(SubmitPolicy::OpenSearch);
    app.set_securities(vec![
        sample_stock("AAPL", "Apple Inc"),
        sample_stock("TSLA", "Tesla Inc"),
        sample_stock("MSFT", "Microsoft Corp"),
    ]);
    app.on_down();
    assert_eq!(app.selection, 0);
    app.on_enter();
    app.on_down();
    app.on_down();
    assert_eq!(app.selection, 2);
    app.on_down();
    assert_eq!(app.selection, 2);
    app.on_up();
    assert_eq!(app.selection, 1);
    app.on_up();
    app.on_up();
    assert_eq!(app.selection, 0);
}

#[test]
fn source_closed_degrades_then_quits() {
    let mut app = fresh_app(SubmitPolicy::SetSymbol);
    app.on_source_closed(Source::Feed);
    assert!(app.feed_closed);
    assert!(!app.should_quit);
    app.on_source_closed(Source::Clock);
    assert!(!app.should_quit);
    app.on_source_closed(Source::Input);
    assert!(app.should_quit);
}

#[test]
fn single_flight_per_symbol() {
    let mut cache = CompanyDataCache::new(String::from("MSFT"));
    let symbol = String::from("MSFT");
    let (state1, trigger1) = cache.get_or_trigger(&symbol);
    assert!(matches!(state1, CacheState::Loading));
    assert!(trigger1);
    let (state2, trigger2) = cache.get_or_trigger(&symbol);
    assert!(matches!(state2, CacheState::Loading));
    assert!(!trigger2);
}

#[test]
fn symbol_change_clears_cached_profile() {
    let mut app = fresh_app(SubmitPolicy::SetSymbol);
    app.on_key('/');
    app.on_key('m');
    app.on_key('s');
    app.on_key('f');
    app.on_key('t');
    app.on_enter();
    let (_, trigger) = app.company_state();
    assert!(trigger);
    let msft = String::from("MSFT");
    app.on_fetch_success(&msft, sample_profile("Microsoft Corp", "MSFT"));
    let (state, _) = app.company_state();
    match state {
        CacheState::Ready(info) => assert_eq!(info.ticker, "MSFT"),
        _ => panic!("expected the fetched profile"),
    }
    app.on_key('/');
    app.on_key('t');
    app.on_key('s');
    app.on_key('l');
    app.on_key('a');
    app.on_enter();
    let (state, trigger) = app.company_state();
    assert!(matches!(state, CacheState::Loading));
    assert!(trigger);
}

fn sample_profile(name: &str, ticker: &str) -> stonks::asset::CompanyInfo {
    stonks::asset::CompanyInfo {
        name: String::from(name),
        ticker: String::from(ticker),
        country: String::from("US"),
        market_capitalization: 100_000_000,
        exchange: String::from("NASDAQ"),
        currency: String::from("USD"),
        industry: String::from("Technology"),
        prices: stonks::asset::Prices { close: vec![217_680, 222_490, 217_190] },
    }
}

#[test]
fn stale_fetch_answer_is_discarded() {
    let mut app = fresh_app(SubmitPolicy::SetSymbol);
    let (_, trigger) = app.company_state();
    assert!(trigger);
    let old_symbol = String::from("MSFT");
    app.on_fetch_success(&old_symbol, sample_profile("Microsoft Corp", "MSFT"));
    let (state, trigger) = app.company_state();
    assert!(matches!(state, CacheState::Loading));
    assert!(!trigger);
}

#[test]
fn render_path_never_waits_for_a_fetch() {
    // The company panel is served from cached state alone: with a fetch that
    // never completes, every frame still gets an answer at once, and no
    // second fetch is ever dispatched.
    let mut app = fresh_app(SubmitPolicy::SetSymbol);
    let (state, trigger) = app.company_state();
    assert!(matches!(state, CacheState::Loading));
    assert!(trigger);
    for _ in 0..10 {
        let (state, trigger) = app.company_state();
        assert!(matches!(state, CacheState::Loading));
        assert!(!trigger);
    }
}

#[test]
fn fetch_failure_is_stored_not_replaced() {
    let mut app = fresh_app(SubmitPolicy::SetSymbol);
    let (_, trigger) = app.company_state();
    assert!(trigger);
    let symbol = String::from("TSLA");
    app.on_fetch_failure(&symbol, stonks::errors::AppError::Connection);
    let (state, trigger) = app.company_state();
    assert!(matches!(state, CacheState::Error(stonks::errors::AppError::Connection)));
    assert!(!trigger);
}
