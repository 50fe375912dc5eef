//! Aster Futures exchange-info symbol definitions and the instrument cache entry.

use vstd::prelude::*;

use crate::enums::{AsterContractStatus, AsterProductType, AsterTradingStatus};
use crate::model::InstrumentId;
use crate::symbol::{format_instrument_id, instrument_symbol};

verus! {

/// A symbol filter of exchange info: the string-valued members of its JSON
/// object (such as `filterType`, `tickSize`, `maxPrice`), by name.
#[derive(Clone, Debug, PartialEq, Eq)]
pub struct SymbolFilter {
    /// The string-valued members, as (name, value) pairs.
    pub fields: Vec<(String, String)>,
}

/// A USD-M Futures symbol definition from exchange info.
#[derive(Clone, Debug, PartialEq, Eq)]
pub struct AsterFuturesUsdSymbol {
    /// Symbol name.
    pub symbol: String,
    /// Underlying pair.
    pub pair: String,
    /// Contract type (e.g. `PERPETUAL`).
    pub contract_type: String,
    /// Delivery date (milliseconds).
    pub delivery_date: i64,
    /// Onboard date (milliseconds).
    pub onboard_date: i64,
    /// Trading status.
    pub status: AsterTradingStatus,
    /// Maintenance margin percent.
    pub maint_margin_percent: String,
    /// Required margin percent.
    pub required_margin_percent: String,
    /// Base asset.
    pub base_asset: String,
    /// Quote asset.
    pub quote_asset: String,
    /// Margin asset.
    pub margin_asset: String,
    /// Price precision.
    pub price_precision: i32,
    /// Quantity precision.
    pub quantity_precision: i32,
    /// Base asset precision.
    pub base_asset_precision: i32,
    /// Quote precision.
    pub quote_precision: i32,
    /// Underlying type.
    pub underlying_type: Option<String>,
    /// Underlying sub types.
    pub underlying_sub_type: Vec<String>,
    /// Settlement plan.
    pub settle_plan: Option<i64>,
    /// Trigger protection threshold.
    pub trigger_protect: Option<String>,
    /// Liquidation fee rate.
    pub liquidation_fee: Option<String>,
    /// Market order price bound.
    pub market_take_bound: Option<String>,
    /// Supported order types.
    pub order_types: Vec<String>,
    /// Supported time in force values.
    pub time_in_force: Vec<String>,
    /// Symbol filters.
    pub filters: Vec<SymbolFilter>,
}

/// A COIN-M Futures symbol definition from exchange info.
#[derive(Clone, Debug, PartialEq, Eq)]
pub struct AsterFuturesCoinSymbol {
    /// Symbol name.
    pub symbol: String,
    /// Underlying pair.
    pub pair: String,
    /// Contract type (e.g. `PERPETUAL`).
    pub contract_type: String,
    /// Delivery date (milliseconds).
    pub delivery_date: i64,
    /// Onboard date (milliseconds).
    pub onboard_date: i64,
    /// Contract status.
    pub contract_status: Option<AsterContractStatus>,
    /// Contract size (the multiplier of the contract).
    pub contract_size: u64,
    /// Maintenance margin percent.
    pub maint_margin_percent: String,
    /// Required margin percent.
    pub required_margin_percent: String,
    /// Base asset.
    pub base_asset: String,
    /// Quote asset.
    pub quote_asset: String,
    /// Margin asset.
    pub margin_asset: String,
    /// Price precision.
    pub price_precision: i32,
    /// Quantity precision.
    pub quantity_precision: i32,
    /// Base asset precision.
    pub base_asset_precision: i32,
    /// Quote precision.
    pub quote_precision: i32,
    /// Equal quantity precision.
    pub equal_qty_precision: Option<i32>,
    /// Trigger protection threshold.
    pub trigger_protect: Option<String>,
    /// Liquidation fee rate.
    pub liquidation_fee: Option<String>,
    /// Market order price bound.
    pub market_take_bound: Option<String>,
    /// Supported order types.
    pub order_types: Vec<String>,
    /// Supported time in force values.
    pub time_in_force: Vec<String>,
    /// Symbol filters.
    pub filters: Vec<SymbolFilter>,
}

/// In-memory cache entry for Aster Futures instruments.
#[derive(Clone, Debug, PartialEq, Eq)]
pub enum AsterFuturesInstrument {
    /// USD-M futures symbol.
    UsdM(AsterFuturesUsdSymbol),
    /// COIN-M futures symbol.
    CoinM(AsterFuturesCoinSymbol),
}

/// The currency of a code (as the instrument's quote currency).
#[derive(Clone, Debug, PartialEq, Eq)]
pub struct Currency {
    /// The currency code.
    pub code: String,
}

impl AsterFuturesInstrument {
    /// The symbol name of the entry.
    pub open spec fn spec_symbol(&self) -> Seq<char> {
        match self {
            AsterFuturesInstrument::UsdM(s) => s.symbol@,
            AsterFuturesInstrument::CoinM(s) => s.symbol@,
        }
    }

    /// The price precision of the entry.
    pub open spec fn spec_price_precision(&self) -> i32 {
        match self {
            AsterFuturesInstrument::UsdM(s) => s.price_precision,
            AsterFuturesInstrument::CoinM(s) => s.price_precision,
        }
    }

    /// The quantity precision of the entry.
    pub open spec fn spec_quantity_precision(&self) -> i32 {
        match self {
            AsterFuturesInstrument::UsdM(s) => s.quantity_precision,
            AsterFuturesInstrument::CoinM(s) => s.quantity_precision,
        }
    }

    /// The product type of the entry.
    pub open spec fn spec_product_type(&self) -> AsterProductType {
        match self {
            AsterFuturesInstrument::UsdM(_) => AsterProductType::UsdM,
            AsterFuturesInstrument::CoinM(_) => AsterProductType::CoinM,
        }
    }

    /// Returns the symbol name for the instrument.
    pub fn symbol(&self) -> (s: String)
        ensures
            s@ == self.spec_symbol(),
    {
        match self {
            Self::UsdM(s) => s.symbol.clone(),
            Self::CoinM(s) => s.symbol.clone(),
        }
    }

    /// Returns the price precision for the instrument.
    pub fn price_precision(&self) -> (p: i32)
        ensures
            p == self.spec_price_precision(),
    {
        match self {
            Self::UsdM(s) => s.price_precision,
            Self::CoinM(s) => s.price_precision,
        }
    }

    /// Returns the quantity precision for the instrument.
    pub fn quantity_precision(&self) -> (p: i32)
        ensures
            p == self.spec_quantity_precision(),
    {
        match self {
            Self::UsdM(s) => s.quantity_precision,
            Self::CoinM(s) => s.quantity_precision,
        }
    }

    /// Returns the instrument ID: `<symbol>-PERP.ASTER` for USD-M and
    /// `<symbol>.ASTER` for COIN-M.
    pub fn id(&self) -> (id: InstrumentId)
        ensures
            id.symbol@ == instrument_symbol(self.spec_symbol(), self.spec_product_type()),
            id.venue@ == "ASTER"@,
    {
        match self {
            Self::UsdM(s) => format_instrument_id(s.symbol.as_str(), AsterProductType::UsdM),
            Self::CoinM(s) => format_instrument_id(s.symbol.as_str(), AsterProductType::CoinM),
        }
    }

    /// Returns the quote currency for the instrument.
    pub fn quote_currency(&self) -> (c: Currency)
        ensures
            c.code@ == match self {
                AsterFuturesInstrument::UsdM(s) => s.quote_asset@,
                AsterFuturesInstrument::CoinM(s) => s.quote_asset@,
            },
    {
        let quote_asset = match self {
            Self::UsdM(s) => &s.quote_asset,
            Self::CoinM(s) => &s.quote_asset,
        };
        Currency { code: quote_asset.clone() }
    }
}

} // verus!
