//! Presentation text, built and proved character by character: decimal
//! renderings of cent amounts and percentage changes, the bracketed EMA
//! list, and the outcome messages that the store hands to its caller.

use vstd::prelude::*;
use vstd::string::StringExecFns;
use crate::api::FetchError;
use crate::api::StoreError;

verus! {

/// The decimal digit character for `d`, meaningful for `0 <= d <= 9`.
pub open spec fn digit_char(d: int) -> char {
    if d == 0 {
        '0'
    } else if d == 1 {
        '1'
    } else if d == 2 {
        '2'
    } else if d == 3 {
        '3'
    } else if d == 4 {
        '4'
    } else if d == 5 {
        '5'
    } else if d == 6 {
        '6'
    } else if d == 7 {
        '7'
    } else if d == 8 {
        '8'
    } else {
        '9'
    }
}

/// The decimal digits of `n`, most significant first, meaningful for
/// `n >= 0`.
pub open spec fn dec_digits(n: int) -> Seq<char>
    decreases n,
{
    if n < 10 {
        seq![digit_char(n)]
    } else {
        dec_digits(n / 10).push(digit_char(n % 10))
    }
}

/// Exactly two decimal digits, zero-padded, meaningful for `0 <= n < 100`.
pub open spec fn two_digits(n: int) -> Seq<char> {
    seq![digit_char(n / 10), digit_char(n % 10)]
}

/// A cent amount as a decimal number with two places: `1234` is `12.34`.
pub open spec fn cents_text(cents: int) -> Seq<char> {
    dec_digits(cents / 100) + "."@ + two_digits(cents % 100)
}

/// A cent amount as a currency string: `1234` is `$12.34`.
pub open spec fn money_text(cents: int) -> Seq<char> {
    "$"@ + cents_text(cents)
}

/// A percentage in hundredths of a percent as a percent string with two
/// places: `333` is `3.33%`, `-1000` is `-10.00%`.
pub open spec fn pct_text(p: int) -> Seq<char> {
    let sign = if p < 0 {
        "-"@
    } else {
        Seq::<char>::empty()
    };
    sign + cents_text(if p < 0 {
        -p
    } else {
        p
    }) + "%"@
}

/// The items of the EMA window, rendered with two places and joined with
/// a comma and a space.
pub open spec fn ema_items_text(values: Seq<u64>) -> Seq<char>
    decreases values.len(),
{
    if values.len() == 0 {
        Seq::<char>::empty()
    } else if values.len() == 1 {
        cents_text(values[0] as int)
    } else {
        ema_items_text(values.drop_last()) + ", "@ + cents_text(values.last() as int)
    }
}

/// The bracketed EMA list: `[12.34, 12.50]`, or `[]` when empty.
pub open spec fn ema_list_text(values: Seq<u64>) -> Seq<char> {
    "["@ + ema_items_text(values) + "]"@
}

/// Append the digit character of `d` to `out`.
fn push_digit(out: &mut String, d: u64)
    requires
        d < 10,
    ensures
        final(out)@ == old(out)@ + seq![digit_char(d as int)],
{
    match d {
        0 => {
            out.append("0");
            proof {
                reveal_strlit("0");
                assert(old(out)@ + "0"@ =~= old(out)@ + seq![digit_char(d as int)]);
            }
        },
        1 => {
            out.append("1");
            proof {
                reveal_strlit("1");
                assert(old(out)@ + "1"@ =~= old(out)@ + seq![digit_char(d as int)]);
            }
        },
        2 => {
            out.append("2");
            proof {
                reveal_strlit("2");
                assert(old(out)@ + "2"@ =~= old(out)@ + seq![digit_char(d as int)]);
            }
        },
        3 => {
            out.append("3");
            proof {
                reveal_strlit("3");
                assert(old(out)@ + "3"@ =~= old(out)@ + seq![digit_char(d as int)]);
            }
        },
        4 => {
            out.append("4");
            proof {
                reveal_strlit("4");
                assert(old(out)@ + "4"@ =~= old(out)@ + seq![digit_char(d as int)]);
            }
        },
        5 => {
            out.append("5");
            proof {
                reveal_strlit("5");
                assert(old(out)@ + "5"@ =~= old(out)@ + seq![digit_char(d as int)]);
            }
        },
        6 => {
            out.append("6");
            proof {
                reveal_strlit("6");
                assert(old(out)@ + "6"@ =~= old(out)@ + seq![digit_char(d as int)]);
            }
        },
        7 => {
            out.append("7");
            proof {
                reveal_strlit("7");
                assert(old(out)@ + "7"@ =~= old(out)@ + seq![digit_char(d as int)]);
            }
        },
        8 => {
            out.append("8");
            proof {
                reveal_strlit("8");
                assert(old(out)@ + "8"@ =~= old(out)@ + seq![digit_char(d as int)]);
            }
        },
        _ => {
            out.append("9");
            proof {
                reveal_strlit("9");
                assert(old(out)@ + "9"@ =~= old(out)@ + seq![digit_char(d as int)]);
            }
        },
    }
}

/// Append the decimal digits of `n` to `out`.
fn push_dec(out: &mut String, n: u64)
    ensures
        final(out)@ == old(out)@ + dec_digits(n as int),
    decreases n,
{
    if n >= 10 {
        push_dec(out, n / 10);
        push_digit(out, n % 10);
        proof {
            assert((old(out)@ + dec_digits((n / 10) as int)) + seq![digit_char((n % 10) as int)]
                =~= old(out)@ + dec_digits(n as int));
        }
    } else {
        push_digit(out, n);
    }
}

/// Append exactly two digits of `n` to `out`, zero-padded.
fn push_two(out: &mut String, n: u64)
    requires
        n < 100,
    ensures
        final(out)@ == old(out)@ + two_digits(n as int),
{
    push_digit(out, n / 10);
    push_digit(out, n % 10);
    proof {
        assert((old(out)@ + seq![digit_char((n / 10) as int)]) + seq![digit_char((n % 10) as int)]
            =~= old(out)@ + two_digits(n as int));
    }
}

/// Append the two-place rendering of a cent amount to `out`.
fn push_cents(out: &mut String, cents: u64)
    ensures
        final(out)@ == old(out)@ + cents_text(cents as int),
{
    push_dec(out, cents / 100);
    out.append(".");
    push_two(out, cents % 100);
    proof {
        assert(((old(out)@ + dec_digits((cents / 100) as int)) + "."@) + two_digits(
            (cents % 100) as int,
        ) =~= old(out)@ + cents_text(cents as int));
    }
}

/// Render a cent amount as a currency string: `dollars(1234)` is `$12.34`.
pub fn dollars(cents: u64) -> (r: String)
    ensures
        r@ == money_text(cents as int),
{
    let mut out = String::new();
    out.append("$");
    push_cents(&mut out, cents);
    proof {
        assert(out@ =~= money_text(cents as int));
    }
    out
}

/// Render a percentage change (hundredths of a percent) with two places
/// and a trailing percent sign: `percent(-1000)` is `-10.00%`.
pub fn percent(p: i64) -> (r: String)
    ensures
        r@ == pct_text(p as int),
{
    let mut out = String::new();
    let magnitude: u64 = if p >= 0 {
        p as u64
    } else {
        out.append("-");
        (-(p as i128)) as u64
    };
    push_cents(&mut out, magnitude);
    out.append("%");
    proof {
        assert(out@ =~= pct_text(p as int));
    }
    out
}

/// Render the EMA window as a bracketed, comma-joined list of two-place
/// values: `[12.34, 12.50]`.
pub fn ema_list(values: &Vec<u64>) -> (r: String)
    ensures
        r@ == ema_list_text(values@),
{
    let mut out = String::new();
    out.append("[");
    let mut i: usize = 0;
    while i < values.len()
        invariant
            i <= values@.len(),
            out@ == "["@ + ema_items_text(values@.take(i as int)),
        decreases values@.len() - i as int,
    {
        if i > 0 {
            out.append(", ");
        }
        push_cents(&mut out, values[i]);
        proof {
            let t = values@.take(i as int + 1);
            assert(t.drop_last() =~= values@.take(i as int));
            assert(t.last() == values@[i as int]);
            assert(out@ =~= "["@ + ema_items_text(t));
        }
        i += 1;
    }
    out.append("]");
    proof {
        assert(values@.take(values@.len() as int) =~= values@);
        assert(out@ =~= ema_list_text(values@));
    }
    out
}

/// The message for a successful add.
pub open spec fn added_text(sym: Seq<char>) -> Seq<char> {
    "Added "@ + sym + " to watchlist."@
}

/// The message for a successful remove.
pub open spec fn removed_text(sym: Seq<char>) -> Seq<char> {
    "Removed "@ + sym + " from watchlist."@
}

/// The report line for a symbol whose refresh succeeded.
pub open spec fn updated_text(sym: Seq<char>) -> Seq<char> {
    "Updated data for "@ + sym + "."@
}

/// The description of a fetch failure.
pub open spec fn fetch_error_text(f: FetchError) -> Seq<char> {
    match f {
        FetchError::Transport => "HTTP request failed."@,
        FetchError::Malformed => "Failed to parse JSON."@,
        FetchError::NoData => "No historical data available."@,
    }
}

/// The description of a store failure concerning `sym`.
pub open spec fn error_text(e: StoreError, sym: Seq<char>) -> Seq<char> {
    match e {
        StoreError::AlreadyTracked => sym + " is already in your watchlist."@,
        StoreError::NotTracked => sym + " is not in your watchlist."@,
        StoreError::HistoricalFetch(f) => "Failed to fetch historical data: "@ + fetch_error_text(
            f,
        ),
        StoreError::InsufficientHistory => "Not enough data for EMA calculation."@,
        StoreError::LatestFetch(f) => "Failed to fetch stock data: "@ + fetch_error_text(f),
        StoreError::InvalidData => "Invalid data fetched for '"@ + sym + "'."@,
        StoreError::TaskFailure => "Failed to join task."@,
    }
}

/// The report line for a symbol whose refresh failed.
pub open spec fn refresh_failed_text(e: StoreError, sym: Seq<char>) -> Seq<char> {
    "Failed to refresh data for a stock: "@ + error_text(e, sym)
}

/// Build the message for a successful add of `symbol`.
pub fn added_message(symbol: &str) -> (r: String)
    ensures
        r@ == added_text(symbol@),
{
    let mut out = String::new();
    out.append("Added ");
    out.append(symbol);
    out.append(" to watchlist.");
    proof {
        assert(out@ =~= added_text(symbol@));
    }
    out
}

/// Build the message for a successful remove of `symbol`.
pub fn removed_message(symbol: &str) -> (r: String)
    ensures
        r@ == removed_text(symbol@),
{
    let mut out = String::new();
    out.append("Removed ");
    out.append(symbol);
    out.append(" from watchlist.");
    proof {
        assert(out@ =~= removed_text(symbol@));
    }
    out
}

/// Build the report line for a successful refresh of `symbol`.
pub fn updated_message(symbol: &str) -> (r: String)
    ensures
        r@ == updated_text(symbol@),
{
    let mut out = String::new();
    out.append("Updated data for ");
    out.append(symbol);
    out.append(".");
    proof {
        assert(out@ =~= updated_text(symbol@));
    }
    out
}

/// Build the description of a fetch failure.
fn fetch_error_message(f: FetchError) -> (r: String)
    ensures
        r@ == fetch_error_text(f),
{
    let mut out = String::new();
    match f {
        FetchError::Transport => out.append("HTTP request failed."),
        FetchError::Malformed => out.append("Failed to parse JSON."),
        FetchError::NoData => out.append("No historical data available."),
    }
    proof {
        assert(out@ =~= fetch_error_text(f));
    }
    out
}

/// Build the description of a store failure concerning `symbol`.
pub fn error_message(e: &StoreError, symbol: &str) -> (r: String)
    ensures
        r@ == error_text(*e, symbol@),
{
    let mut out = String::new();
    match e {
        StoreError::AlreadyTracked => {
            out.append(symbol);
            out.append(" is already in your watchlist.");
        },
        StoreError::NotTracked => {
            out.append(symbol);
            out.append(" is not in your watchlist.");
        },
        StoreError::HistoricalFetch(f) => {
            out.append("Failed to fetch historical data: ");
            let detail = fetch_error_message(*f);
            out.append(detail.as_str());
        },
        StoreError::InsufficientHistory => {
            out.append("Not enough data for EMA calculation.");
        },
        StoreError::LatestFetch(f) => {
            out.append("Failed to fetch stock data: ");
            let detail = fetch_error_message(*f);
            out.append(detail.as_str());
        },
        StoreError::InvalidData => {
            out.append("Invalid data fetched for '");
            out.append(symbol);
            out.append("'.");
        },
        StoreError::TaskFailure => {
            out.append("Failed to join task.");
        },
    }
    proof {
        assert(out@ =~= error_text(*e, symbol@));
    }
    out
}

/// Build the report line for a symbol whose refresh failed.
pub fn refresh_failed_message(e: &StoreError, symbol: &str) -> (r: String)
    ensures
        r@ == refresh_failed_text(*e, symbol@),
{
    let mut out = String::new();
    out.append("Failed to refresh data for a stock: ");
    let detail = error_message(e, symbol);
    out.append(detail.as_str());
    proof {
        assert(out@ =~= refresh_failed_text(*e, symbol@));
    }
    out
}

/// A success line and a failure line of a refresh report never coincide:
/// the one begins with `U`, the other with `F`.
pub proof fn lemma_report_lines_distinct(e: StoreError, sym_a: Seq<char>, sym_b: Seq<char>)
    ensures
        updated_text(sym_a) != refresh_failed_text(e, sym_b),
{
    reveal_strlit("Updated data for ");
    reveal_strlit("Failed to refresh data for a stock: ");
    assert(updated_text(sym_a)[0] == 'U');
    assert(refresh_failed_text(e, sym_b)[0] == 'F');
}

} // verus!
