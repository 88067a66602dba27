//! The per-symbol fetch-compute pipeline shared by add and refresh: the
//! historical closing prices feed the EMA engine, then the latest quote is
//! validated, and only when every stage succeeded is a snapshot produced.
//! The stages are split so that a caller can fetch the latest quote only
//! after the EMA stage has succeeded; `run_pipeline` is their composition.

use vstd::prelude::*;
use crate::api::FetchError;
use crate::api::StoreError;
use crate::api::make_stock_data;
use crate::api::valid_quote;
use crate::api::pct_value;
use crate::utils::calculate_ema;
use crate::utils::recent_ema;
use crate::watchlist::Snapshot;
use crate::watchlist::SnapshotView;
use crate::watchlist::snapshot_wf;

verus! {

/// The mathematical value of a fetched price series.
pub open spec fn history_view(h: Result<Vec<u64>, FetchError>) -> Result<Seq<u64>, FetchError> {
    match h {
        Ok(prices) => Ok(prices@),
        Err(f) => Err(f),
    }
}

/// The EMA window as the prices it was computed from, value for value.
pub open spec fn recent_ema_u64(prices: Seq<u64>, period: int) -> Seq<u64> {
    recent_ema(prices, period).map_values(|x: int| x as u64)
}

/// What the EMA stage yields: the fetch failure passed on, an
/// insufficient-history failure, or the EMA window.
pub open spec fn ema_stage_spec(hist: Result<Seq<u64>, FetchError>, period: int) -> Result<
    Seq<u64>,
    StoreError,
> {
    match hist {
        Err(f) => Err(StoreError::HistoricalFetch(f)),
        Ok(prices) => if prices.len() < period {
            Err(StoreError::InsufficientHistory)
        } else {
            Ok(recent_ema_u64(prices, period))
        },
    }
}

/// What the snapshot stage yields: the fetch failure passed on, the
/// quote rejected, or the snapshot with the derived percentage change.
pub open spec fn snapshot_stage_spec(ema: Seq<u64>, latest: Result<(u64, u64), FetchError>)
    -> Result<SnapshotView, StoreError> {
    match latest {
        Err(f) => Err(StoreError::LatestFetch(f)),
        Ok(quote) => if !valid_quote(quote.0, quote.1) {
            Err(StoreError::InvalidData)
        } else {
            Ok(
                SnapshotView {
                    open: quote.0,
                    close: quote.1,
                    percentage_change: pct_value(quote.0 as int, quote.1 as int) as i64,
                    recent_ema: ema,
                },
            )
        },
    }
}

/// The whole pipeline: EMA stage first, then the snapshot stage.
pub open spec fn pipeline_spec(
    hist: Result<Seq<u64>, FetchError>,
    latest: Result<(u64, u64), FetchError>,
    period: int,
) -> Result<SnapshotView, StoreError> {
    match ema_stage_spec(hist, period) {
        Err(e) => Err(e),
        Ok(window) => snapshot_stage_spec(window, latest),
    }
}

/// Run the EMA stage on a fetched price history.
pub fn ema_stage(historical: Result<Vec<u64>, FetchError>, period: usize) -> (r: Result<
    Vec<u64>,
    StoreError,
>)
    requires
        period >= 1,
    ensures
        r is Ok <==> ema_stage_spec(history_view(historical), period as int) is Ok,
        r is Ok ==> r->Ok_0@ == ema_stage_spec(history_view(historical), period as int)->Ok_0
            && r->Ok_0@.len() <= 5,
        r is Err ==> r->Err_0 == ema_stage_spec(history_view(historical), period as int)->Err_0,
{
    match historical {
        Err(f) => Err(StoreError::HistoricalFetch(f)),
        Ok(prices) => match calculate_ema(&prices, period) {
            None => Err(StoreError::InsufficientHistory),
            Some(window) => {
                proof {
                    assert(window@ =~= recent_ema_u64(prices@, period as int));
                }
                Ok(window)
            },
        },
    }
}

/// Run the snapshot stage on the EMA window and a fetched latest quote.
pub fn snapshot_stage(symbol: &str, ema: Vec<u64>, latest: Result<(u64, u64), FetchError>) -> (r:
    Result<Snapshot, StoreError>)
    ensures
        r is Ok <==> snapshot_stage_spec(ema@, latest) is Ok,
        r is Ok ==> r->Ok_0@ == snapshot_stage_spec(ema@, latest)->Ok_0,
        r is Err ==> r->Err_0 == snapshot_stage_spec(ema@, latest)->Err_0,
{
    match latest {
        Err(f) => Err(StoreError::LatestFetch(f)),
        Ok((open, close)) => match make_stock_data(symbol, open, close) {
            Err(e) => Err(e),
            Ok(quote) => Ok(
                Snapshot {
                    open: quote.open,
                    close: quote.close,
                    percentage_change: quote.percentage_change,
                    recent_ema: ema,
                },
            ),
        },
    }
}

/// Run the whole pipeline for one symbol. The resulting snapshot, if any,
/// is well formed: its EMA window has at most five values.
pub fn run_pipeline(
    symbol: &str,
    historical: Result<Vec<u64>, FetchError>,
    latest: Result<(u64, u64), FetchError>,
    period: usize,
) -> (r: Result<Snapshot, StoreError>)
    requires
        period >= 1,
    ensures
        r is Ok <==> pipeline_spec(history_view(historical), latest, period as int) is Ok,
        r is Ok ==> r->Ok_0@ == pipeline_spec(history_view(historical), latest, period as int)->Ok_0
            && snapshot_wf(r->Ok_0@),
        r is Err ==> r->Err_0 == pipeline_spec(history_view(historical), latest, period as int)->Err_0,
{
    match ema_stage(historical, period) {
        Err(e) => Err(e),
        Ok(window) => snapshot_stage(symbol, window, latest),
    }
}

/// Add atomicity, stage by stage: a failed historical fetch, a history
/// shorter than the period, a failed latest fetch, and a rejected quote
/// each make the whole pipeline fail with the corresponding error — so an
/// add with that outcome leaves the store untouched, as `add_stock`
/// guarantees of every failure.
pub proof fn lemma_pipeline_failures(
    hist: Result<Seq<u64>, FetchError>,
    latest: Result<(u64, u64), FetchError>,
    period: int,
)
    ensures
        hist is Err ==> pipeline_spec(hist, latest, period) == Err::<SnapshotView, StoreError>(
            StoreError::HistoricalFetch(hist->Err_0),
        ),
        hist is Ok && hist->Ok_0.len() < period ==> pipeline_spec(hist, latest, period) == Err::<
            SnapshotView,
            StoreError,
        >(StoreError::InsufficientHistory),
        hist is Ok && hist->Ok_0.len() >= period && latest is Err ==> pipeline_spec(
            hist,
            latest,
            period,
        ) == Err::<SnapshotView, StoreError>(StoreError::LatestFetch(latest->Err_0)),
        hist is Ok && hist->Ok_0.len() >= period && latest is Ok && !valid_quote(
            latest->Ok_0.0,
            latest->Ok_0.1,
        ) ==> pipeline_spec(hist, latest, period) == Err::<SnapshotView, StoreError>(
            StoreError::InvalidData,
        ),
{
}

} // verus!
