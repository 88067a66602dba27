use stockli::StockData;
use stockli::dollars;
use stockli::ema_list;
use stockli::make_stock_data;
use stockli::percent;

#[test]
fn snapshot_formatting_round_trip() {
    // open 100.00, close 110.00: the change is exactly 10.00 percent.
    let quote: StockData = make_stock_data("AAPL", 10000, 11000).unwrap();
    assert_eq!(quote.percentage_change, 1000);
    assert_eq!(dollars(quote.open), "$100.00");
    assert_eq!(dollars(quote.close), "$110.00");
    assert_eq!(percent(quote.percentage_change), "10.00%");
}

#[test]
fn dollars_pads_cents() {
    assert_eq!(dollars(5), "$0.05");
    assert_eq!(dollars(0), "$0.00");
    assert_eq!(dollars(123456), "$1234.56");
}

#[test]
fn percent_signs_and_padding() {
    assert_eq!(percent(333), "3.33%");
    assert_eq!(percent(-322), "-3.22%");
    assert_eq!(percent(0), "0.00%");
    assert_eq!(percent(-1000), "-10.00%");
}

#[test]
fn ema_list_brackets_and_joins() {
    assert_eq!(ema_list(&vec![1234, 1250, 1261]), "[12.34, 12.50, 12.61]");
    assert_eq!(ema_list(&vec![1000]), "[10.00]");
    assert_eq!(ema_list(&Vec::new()), "[]");
}

#[test]
fn percentage_change_truncates_toward_zero() {
    // 150.00 to 155.00 is 3.333...: kept as 3.33.
    let quote = make_stock_data("AAPL", 15000, 15500).unwrap();
    assert_eq!(quote.percentage_change, 333);
    // A drop of the same size truncates the same way.
    let quote = make_stock_data("AAPL", 15500, 15000).unwrap();
    assert_eq!(quote.percentage_change, -322);
}
