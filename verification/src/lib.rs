//! A stock watchlist engine: a tracked set of ticker symbols with a cached
//! market snapshot per symbol, an exponential-moving-average (EMA) indicator
//! derived from historical closing prices, and a refresh pipeline that
//! validates fetched quotes and republishes snapshots atomically.
//!
//! Prices are fixed-point: a price is a whole number of cents (`u64`), and a
//! percentage change is a whole number of hundredths of a percent (`i64`).
//! Fetching itself is left to the caller; every decision made on fetched
//! data lives here.

use vstd::prelude::*;

mod api;
mod pipeline;
mod text;
mod utils;
mod watchlist;

pub use api::FetchError;
pub use api::StockData;
pub use api::StoreError;
pub use api::make_stock_data;
pub use api::pct_value;
pub use api::valid_quote;
pub use pipeline::ema_stage;
pub use pipeline::ema_stage_spec;
pub use pipeline::history_view;
pub use pipeline::lemma_pipeline_failures;
pub use pipeline::pipeline_spec;
pub use pipeline::recent_ema_u64;
pub use pipeline::run_pipeline;
pub use pipeline::snapshot_stage;
pub use pipeline::snapshot_stage_spec;
pub use text::added_message;
pub use text::added_text;
pub use text::cents_text;
pub use text::dec_digits;
pub use text::digit_char;
pub use text::dollars;
pub use text::ema_items_text;
pub use text::ema_list;
pub use text::ema_list_text;
pub use text::error_message;
pub use text::error_text;
pub use text::fetch_error_text;
pub use text::lemma_report_lines_distinct;
pub use text::money_text;
pub use text::pct_text;
pub use text::percent;
pub use text::refresh_failed_message;
pub use text::refresh_failed_text;
pub use text::removed_message;
pub use text::removed_text;
pub use text::two_digits;
pub use text::updated_message;
pub use text::updated_text;
pub use utils::calculate_ema;
pub use utils::ema_state;
pub use utils::ema_step;
pub use utils::recent_ema;
pub use watchlist::Snapshot;
pub use watchlist::SnapshotView;
pub use watchlist::Watchlist;
pub use watchlist::lemma_refresh_isolation;
pub use watchlist::snapshot_wf;
pub use watchlist::success_line_count;
pub use watchlist::wl_contains;
pub use watchlist::wl_wf;

verus! {

/// The EMA look-back period used by the add and refresh pipelines.
pub const EMA_PERIOD: usize = 14;

} // verus!
