//! Request validation: static and stateful rules a trade request must pass
//! before an order is created for it.
//!
//! Prices and volumes are fixed-point integers: the caller picks a scale
//! (for instance ten-thousandths) and uses it consistently for volumes,
//! stop-loss and take-profit levels and the reference price.

use vstd::prelude::*;

verus! {

/// Which side of the market a trade request takes.
#[derive(Clone, Copy, Debug, PartialEq, Eq, Structural)]
pub enum Side {
    Buy,
    Sell,
}

/// A trade request as handed in by the boundary, before validation.
/// `volume` is signed so that out-of-range inputs can be represented and
/// rejected rather than silently coerced.
#[derive(Debug)]
pub struct TradeRequest {
    pub instrument: String,
    pub side: Side,
    pub volume: i64,
    pub stop_loss: Option<i64>,
    pub take_profit: Option<i64>,
}

/// A request that passed validation. `needs_review` is set when the
/// stop-loss/take-profit coherence check had to be skipped because no
/// reference price was available: the order is accepted but flagged for
/// manual review instead of being rejected.
#[derive(Debug)]
pub struct ValidatedRequest {
    pub instrument: String,
    pub side: Side,
    pub volume: i64,
    pub stop_loss: Option<i64>,
    pub take_profit: Option<i64>,
    pub needs_review: bool,
}

/// Why a request was rejected; the first rule that fails wins.
#[derive(Clone, Copy, Debug, PartialEq, Eq, Structural)]
pub enum ValidationError {
    /// The instrument name is empty.
    EmptyInstrument,
    /// The instrument is not on the configured allow-list.
    InstrumentNotAllowed,
    /// The volume is zero or negative.
    NonPositiveVolume,
    /// The volume exceeds the configured maximum.
    VolumeAboveMaximum,
    /// A stop-loss level is negative.
    NegativeStopLoss,
    /// A take-profit level is negative.
    NegativeTakeProfit,
    /// The stop-loss sits on the wrong side of the reference price.
    IncoherentStopLoss,
    /// The take-profit sits on the wrong side of the reference price.
    IncoherentTakeProfit,
}

/// Static validation policy. An empty allow-list admits every non-empty
/// instrument; a non-empty one admits exactly the instruments it names.
#[derive(Debug)]
pub struct ValidatorConfig {
    pub allowed_instruments: Vec<String>,
    pub max_volume: i64,
}

/// Whether the allow-list `allowed` names the instrument `instrument`.
pub open spec fn instrument_listed(allowed: Seq<String>, instrument: Seq<char>) -> bool {
    exists|i: int| 0 <= i < allowed.len() && allowed[i]@ == instrument
}

/// A stop-loss must sit on the losing side of the reference price: below
/// it for a buy, above it for a sell.
pub open spec fn stop_loss_coherent(side: Side, stop_loss: i64, reference: i64) -> bool {
    match side {
        Side::Buy => stop_loss < reference,
        Side::Sell => stop_loss > reference,
    }
}

/// A take-profit must sit on the winning side of the reference price:
/// above it for a buy, below it for a sell.
pub open spec fn take_profit_coherent(side: Side, take_profit: i64, reference: i64) -> bool {
    match side {
        Side::Buy => take_profit > reference,
        Side::Sell => take_profit < reference,
    }
}

/// The first validation rule that `request` breaks under `config` and
/// `reference`, or `None` when it passes them all.
pub open spec fn validation_error(
    request: TradeRequest,
    config: ValidatorConfig,
    reference: Option<i64>,
) -> Option<ValidationError> {
    if request.instrument@.len() == 0 {
        Some(ValidationError::EmptyInstrument)
    } else if config.allowed_instruments@.len() > 0
        && !instrument_listed(config.allowed_instruments@, request.instrument@) {
        Some(ValidationError::InstrumentNotAllowed)
    } else if request.volume <= 0 {
        Some(ValidationError::NonPositiveVolume)
    } else if request.volume > config.max_volume {
        Some(ValidationError::VolumeAboveMaximum)
    } else if request.stop_loss is Some && request.stop_loss->0 < 0 {
        Some(ValidationError::NegativeStopLoss)
    } else if request.take_profit is Some && request.take_profit->0 < 0 {
        Some(ValidationError::NegativeTakeProfit)
    } else if reference is Some && request.stop_loss is Some
        && !stop_loss_coherent(request.side, request.stop_loss->0, reference->0) {
        Some(ValidationError::IncoherentStopLoss)
    } else if reference is Some && request.take_profit is Some
        && !take_profit_coherent(request.side, request.take_profit->0, reference->0) {
        Some(ValidationError::IncoherentTakeProfit)
    } else {
        None
    }
}

/// Whether a request that passed validation must be flagged for manual
/// review: its protective levels could not be checked against a reference
/// price because none was available.
pub open spec fn review_flag(request: TradeRequest, reference: Option<i64>) -> bool {
    reference is None && (request.stop_loss is Some || request.take_profit is Some)
}

/// Whether the allow-list of `config` admits `instrument`.
fn instrument_allowed(config: &ValidatorConfig, instrument: &String) -> (r: bool)
    ensures
        r == instrument_listed(config.allowed_instruments@, instrument@),
{
    let n = config.allowed_instruments.len();
    let mut i: usize = 0;
    while i < n
        invariant
            n == config.allowed_instruments@.len(),
            0 <= i <= n,
            forall|k: int| 0 <= k < i ==> config.allowed_instruments@[k]@ != instrument@,
        decreases n - i,
    {
        if config.allowed_instruments[i].eq(instrument) {
            return true;
        }
        i = i + 1;
    }
    false
}

/// Validates `request` against `config` and the reference price, applying
/// the rules in order with the first failure winning: non-empty instrument,
/// allow-list membership, strictly positive volume, volume cap, non-negative
/// protective levels, and stop-loss/take-profit coherence relative to the
/// reference price (skipped, and the request flagged for review, when no
/// reference price is available). Deterministic and without side effects.
pub fn validate(
    request: TradeRequest,
    config: &ValidatorConfig,
    reference: Option<i64>,
) -> (r: Result<ValidatedRequest, ValidationError>)
    ensures
        match r {
            Ok(v) => {
                &&& validation_error(request, *config, reference) is None
                &&& v.instrument == request.instrument
                &&& v.side == request.side
                &&& v.volume == request.volume
                &&& v.stop_loss == request.stop_loss
                &&& v.take_profit == request.take_profit
                &&& v.needs_review == review_flag(request, reference)
            },
            Err(e) => validation_error(request, *config, reference) == Some(e),
        },
{
    if request.instrument.as_str().unicode_len() == 0 {
        return Err(ValidationError::EmptyInstrument);
    }
    if config.allowed_instruments.len() > 0 && !instrument_allowed(config, &request.instrument) {
        return Err(ValidationError::InstrumentNotAllowed);
    }
    if request.volume <= 0 {
        return Err(ValidationError::NonPositiveVolume);
    }
    if request.volume > config.max_volume {
        return Err(ValidationError::VolumeAboveMaximum);
    }
    match request.stop_loss {
        Some(sl) => {
            if sl < 0 {
                return Err(ValidationError::NegativeStopLoss);
            }
        },
        None => {},
    }
    match request.take_profit {
        Some(tp) => {
            if tp < 0 {
                return Err(ValidationError::NegativeTakeProfit);
            }
        },
        None => {},
    }
    let mut flagged = false;
    match reference {
        Some(price) => {
            match request.stop_loss {
                Some(sl) => {
                    let coherent = match request.side {
                        Side::Buy => sl < price,
                        Side::Sell => sl > price,
                    };
                    if !coherent {
                        return Err(ValidationError::IncoherentStopLoss);
                    }
                },
                None => {},
            }
            match request.take_profit {
                Some(tp) => {
                    let coherent = match request.side {
                        Side::Buy => tp > price,
                        Side::Sell => tp < price,
                    };
                    if !coherent {
                        return Err(ValidationError::IncoherentTakeProfit);
                    }
                },
                None => {},
            }
        },
        None => {
            flagged = request.stop_loss.is_some() || request.take_profit.is_some();
        },
    }
    Ok(ValidatedRequest {
        instrument: request.instrument,
        side: request.side,
        volume: request.volume,
        stop_loss: request.stop_loss,
        take_profit: request.take_profit,
        needs_review: flagged,
    })
}

} // verus!
