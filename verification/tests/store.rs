use stockli::EMA_PERIOD;
use stockli::FetchError;
use stockli::Snapshot;
use stockli::StoreError;
use stockli::Watchlist;
use stockli::error_message;
use stockli::run_pipeline;

fn fourteen_prices() -> Vec<u64> {
    (0..14).map(|i| 1000 + 100 * i).collect()
}

fn good_pipeline(symbol: &str, open: u64, close: u64) -> Result<Snapshot, StoreError> {
    run_pipeline(symbol, Ok(fourteen_prices()), Ok((open, close)), EMA_PERIOD)
}

#[test]
fn add_scenario_aapl() {
    let mut w = Watchlist::new();
    let r = w.add_stock("AAPL".to_string(), good_pipeline("AAPL", 15000, 15500));
    assert_eq!(r.unwrap(), "Added AAPL to watchlist.");
    assert_eq!(w.tracked_symbols(), vec!["AAPL".to_string()]);
    let rows = w.get_cached_data();
    assert_eq!(rows.len(), 1);
    let (symbol, open, close, change, ema) = rows[0].clone();
    assert_eq!(symbol, "AAPL");
    assert_eq!(open, "$150.00");
    assert_eq!(close, "$155.00");
    assert_eq!(change, "3.33%");
    assert_eq!(ema, "[14.26, 15.02, 15.81, 16.63, 17.47]");
}

#[test]
fn add_already_tracked_is_error_and_noop() {
    let mut w = Watchlist::new();
    w.add_stock("AAPL".to_string(), good_pipeline("AAPL", 15000, 15500)).unwrap();
    let before = w.get_cached_data();
    let r = w.add_stock("AAPL".to_string(), good_pipeline("AAPL", 16000, 16500));
    assert_eq!(r.unwrap_err(), StoreError::AlreadyTracked);
    assert_eq!(w.tracked_symbols().len(), 1);
    assert_eq!(w.get_cached_data(), before);
}

#[test]
fn add_atomic_on_historical_fetch_failure() {
    let mut w = Watchlist::new();
    let p = run_pipeline("AAPL", Err(FetchError::Transport), Ok((15000, 15500)), EMA_PERIOD);
    let r = w.add_stock("AAPL".to_string(), p);
    assert_eq!(r.unwrap_err(), StoreError::HistoricalFetch(FetchError::Transport));
    assert_eq!(w.tracked_symbols().len(), 0);
    assert_eq!(w.get_cached_data().len(), 0);
}

#[test]
fn add_atomic_on_insufficient_history() {
    let mut w = Watchlist::new();
    let short: Vec<u64> = vec![1000; 13];
    let p = run_pipeline("AAPL", Ok(short), Ok((15000, 15500)), EMA_PERIOD);
    let r = w.add_stock("AAPL".to_string(), p);
    assert_eq!(r.unwrap_err(), StoreError::InsufficientHistory);
    assert_eq!(w.tracked_symbols().len(), 0);
    assert_eq!(w.get_cached_data().len(), 0);
}

#[test]
fn add_atomic_on_latest_fetch_failure() {
    let mut w = Watchlist::new();
    let p = run_pipeline("AAPL", Ok(fourteen_prices()), Err(FetchError::NoData), EMA_PERIOD);
    let r = w.add_stock("AAPL".to_string(), p);
    assert_eq!(r.unwrap_err(), StoreError::LatestFetch(FetchError::NoData));
    assert_eq!(w.tracked_symbols().len(), 0);
    assert_eq!(w.get_cached_data().len(), 0);
}

#[test]
fn add_atomic_on_invalid_quote() {
    let mut w = Watchlist::new();
    let p = run_pipeline("AAPL", Ok(fourteen_prices()), Ok((0, 15500)), EMA_PERIOD);
    let r = w.add_stock("AAPL".to_string(), p);
    assert_eq!(r.unwrap_err(), StoreError::InvalidData);
    assert_eq!(w.tracked_symbols().len(), 0);
    assert_eq!(w.get_cached_data().len(), 0);

    let p = run_pipeline("AAPL", Ok(fourteen_prices()), Ok((15000, 0)), EMA_PERIOD);
    let r = w.add_stock("AAPL".to_string(), p);
    assert_eq!(r.unwrap_err(), StoreError::InvalidData);
    assert_eq!(w.tracked_symbols().len(), 0);
}

#[test]
fn remove_untracked_is_noop() {
    let mut w = Watchlist::new();
    w.add_stock("AAPL".to_string(), good_pipeline("AAPL", 15000, 15500)).unwrap();
    let r = w.remove_stock("MSFT");
    assert_eq!(r.unwrap_err(), StoreError::NotTracked);
    assert_eq!(w.tracked_symbols(), vec!["AAPL".to_string()]);
}

#[test]
fn remove_tracked_deletes_entry_and_snapshot() {
    let mut w = Watchlist::new();
    w.add_stock("AAPL".to_string(), good_pipeline("AAPL", 15000, 15500)).unwrap();
    w.add_stock("MSFT".to_string(), good_pipeline("MSFT", 20000, 21000)).unwrap();
    let r = w.remove_stock("AAPL");
    assert_eq!(r.unwrap(), "Removed AAPL from watchlist.");
    assert_eq!(w.tracked_symbols(), vec!["MSFT".to_string()]);
    assert_eq!(w.get_cached_data().len(), 1);
    assert_eq!(w.get_cached_data()[0].0, "MSFT");
}

#[test]
fn refresh_keeps_tracked_set_when_all_fail() {
    let mut w = Watchlist::new();
    w.add_stock("AAPL".to_string(), good_pipeline("AAPL", 15000, 15500)).unwrap();
    w.add_stock("MSFT".to_string(), good_pipeline("MSFT", 20000, 21000)).unwrap();
    let outcomes = vec![
        ("AAPL".to_string(), run_pipeline("AAPL", Err(FetchError::Transport), Ok((1, 1)), EMA_PERIOD)),
        ("MSFT".to_string(), run_pipeline("MSFT", Err(FetchError::Malformed), Ok((1, 1)), EMA_PERIOD)),
    ];
    let report = w.refresh_data(outcomes);
    assert_eq!(report.len(), 2);
    assert_eq!(w.tracked_symbols(), vec!["AAPL".to_string(), "MSFT".to_string()]);
    // The failed symbols keep their last-known-good snapshots.
    assert_eq!(w.get_cached_data()[0].1, "$150.00");
    assert_eq!(w.get_cached_data()[1].1, "$200.00");
}

#[test]
fn refresh_isolation_single_failure() {
    let mut w = Watchlist::new();
    w.add_stock("AAPL".to_string(), good_pipeline("AAPL", 15000, 15500)).unwrap();
    w.add_stock("MSFT".to_string(), good_pipeline("MSFT", 20000, 21000)).unwrap();
    w.add_stock("TSLA".to_string(), good_pipeline("TSLA", 30000, 29000)).unwrap();
    let outcomes = vec![
        ("AAPL".to_string(), good_pipeline("AAPL", 16000, 16800)),
        ("MSFT".to_string(), run_pipeline("MSFT", Err(FetchError::Transport), Ok((1, 1)), EMA_PERIOD)),
        ("TSLA".to_string(), good_pipeline("TSLA", 31000, 30000)),
    ];
    let report = w.refresh_data(outcomes);
    assert_eq!(report.len(), 3);
    let failures: Vec<&String> = report.iter().filter(|m| m.starts_with("Failed")).collect();
    assert_eq!(failures.len(), 1);
    assert_eq!(report[0], "Updated data for AAPL.");
    assert_eq!(
        report[1],
        "Failed to refresh data for a stock: Failed to fetch historical data: HTTP request failed."
    );
    assert_eq!(report[2], "Updated data for TSLA.");
    // Tracked set unchanged; the two successes were republished, the failure kept.
    assert_eq!(w.tracked_symbols(), vec!["AAPL".to_string(), "MSFT".to_string(), "TSLA".to_string()]);
    let rows = w.get_cached_data();
    assert_eq!(rows[0].1, "$160.00");
    assert_eq!(rows[0].3, "5.00%");
    assert_eq!(rows[1].1, "$200.00");
    assert_eq!(rows[2].1, "$310.00");
    assert_eq!(rows[2].3, "-3.22%");
}

#[test]
fn refresh_of_empty_watchlist_reports_nothing() {
    let mut w = Watchlist::new();
    let report = w.refresh_data(Vec::new());
    assert_eq!(report.len(), 0);
    assert_eq!(w.tracked_symbols().len(), 0);
}

#[test]
fn removed_symbol_can_be_added_again() {
    let mut w = Watchlist::new();
    w.add_stock("AAPL".to_string(), good_pipeline("AAPL", 15000, 15500)).unwrap();
    w.remove_stock("AAPL").unwrap();
    let r = w.add_stock("AAPL".to_string(), good_pipeline("AAPL", 16000, 16500));
    assert_eq!(r.unwrap(), "Added AAPL to watchlist.");
    assert_eq!(w.get_cached_data()[0].1, "$160.00");
}

#[test]
fn empty_watchlist_shows_no_rows() {
    let w = Watchlist::new();
    assert_eq!(w.get_cached_data().len(), 0);
    assert!(!w.contains("AAPL"));
}

#[test]
fn refresh_reports_task_failure() {
    // The unit of work for a symbol crashed: the caller hands the store a
    // TaskFailure outcome, the symbol keeps its snapshot.
    let mut w = Watchlist::new();
    w.add_stock("AAPL".to_string(), good_pipeline("AAPL", 15000, 15500)).unwrap();
    let outcomes = vec![("AAPL".to_string(), Err(StoreError::TaskFailure))];
    let report = w.refresh_data(outcomes);
    assert_eq!(report, vec!["Failed to refresh data for a stock: Failed to join task.".to_string()]);
    assert_eq!(w.tracked_symbols(), vec!["AAPL".to_string()]);
    assert_eq!(w.get_cached_data()[0].1, "$150.00");
}

#[test]
fn error_messages_name_the_failure() {
    assert_eq!(
        error_message(&StoreError::AlreadyTracked, "AAPL"),
        "AAPL is already in your watchlist."
    );
    assert_eq!(error_message(&StoreError::NotTracked, "AAPL"), "AAPL is not in your watchlist.");
    assert_eq!(
        error_message(&StoreError::HistoricalFetch(FetchError::NoData), "AAPL"),
        "Failed to fetch historical data: No historical data available."
    );
    assert_eq!(
        error_message(&StoreError::InsufficientHistory, "AAPL"),
        "Not enough data for EMA calculation."
    );
    assert_eq!(
        error_message(&StoreError::LatestFetch(FetchError::Malformed), "AAPL"),
        "Failed to fetch stock data: Failed to parse JSON."
    );
    assert_eq!(
        error_message(&StoreError::InvalidData, "AAPL"),
        "Invalid data fetched for 'AAPL'."
    );
    assert_eq!(error_message(&StoreError::TaskFailure, "AAPL"), "Failed to join task.");
}
