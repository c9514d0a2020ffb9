//! The paths of the request/response endpoints, for each interface.
//!
//! An endpoint that an interface does not offer has no path.

use crate::client::FApi;
use crate::client::SApi;
use vstd::prelude::*;

verus! {

/// The account endpoints.
pub trait AccountApi {
    fn balance() -> Option<&'static str>;

    fn hedge_mode() -> Option<&'static str>;

    fn listen_key() -> Option<&'static str>;

    fn positions() -> Option<&'static str>;
}

impl AccountApi for FApi {
    fn balance() -> Option<&'static str> {
        Some("/fapi/v2/balance")
    }

    fn hedge_mode() -> Option<&'static str> {
        Some("/fapi/v1/positionSide/dual")
    }

    fn listen_key() -> Option<&'static str> {
        Some("/fapi/v1/listenKey")
    }

    fn positions() -> Option<&'static str> {
        Some("/fapi/v2/positionRisk")
    }
}

impl AccountApi for SApi {
    fn balance() -> Option<&'static str> {
        None
    }

    fn hedge_mode() -> Option<&'static str> {
        None
    }

    fn listen_key() -> Option<&'static str> {
        Some("/api/v3/listenKey")
    }

    fn positions() -> Option<&'static str> {
        None
    }
}

/// The endpoints that describe the exchange.
pub trait ExchangeApi {
    fn info() -> Option<&'static str>;

    fn ping() -> Option<&'static str>;

    fn time() -> Option<&'static str>;
}

impl ExchangeApi for FApi {
    fn info() -> Option<&'static str> {
        Some("/fapi/v1/exchangeInfo")
    }

    fn ping() -> Option<&'static str> {
        Some("/fapi/v1/ping")
    }

    fn time() -> Option<&'static str> {
        Some("/fapi/v1/time")
    }
}

impl ExchangeApi for SApi {
    fn info() -> Option<&'static str> {
        Some("/api/v3/exchangeInfo")
    }

    fn ping() -> Option<&'static str> {
        Some("/api/v3/ping")
    }

    fn time() -> Option<&'static str> {
        Some("/api/v3/time")
    }
}

/// The market data endpoints.
pub trait MarketApi {
    fn agg_trades() -> Option<&'static str>;

    fn klines() -> Option<&'static str>;

    fn order_book() -> Option<&'static str>;
}

impl MarketApi for FApi {
    fn agg_trades() -> Option<&'static str> {
        Some("/fapi/v1/aggTrades")
    }

    fn klines() -> Option<&'static str> {
        Some("/fapi/v1/klines")
    }

    fn order_book() -> Option<&'static str> {
        Some("/fapi/v1/depth")
    }
}

impl MarketApi for SApi {
    fn agg_trades() -> Option<&'static str> {
        Some("/api/v3/aggTrades")
    }

    fn klines() -> Option<&'static str> {
        Some("/api/v3/klines")
    }

    fn order_book() -> Option<&'static str> {
        Some("/api/v3/depth")
    }
}

/// The trading endpoints.
pub trait TradeApi {
    fn all_orders() -> Option<&'static str>;

    fn all_open_orders() -> Option<&'static str>;

    fn auto_cancel_all() -> Option<&'static str>;

    fn batch_orders() -> Option<&'static str>;

    fn leverage() -> Option<&'static str>;

    fn open_orders() -> Option<&'static str>;

    fn order() -> Option<&'static str>;
}

impl TradeApi for FApi {
    fn all_orders() -> Option<&'static str> {
        Some("/fapi/v1/allOrders")
    }

    fn all_open_orders() -> Option<&'static str> {
        Some("/fapi/v1/allOpenOrders")
    }

    fn auto_cancel_all() -> Option<&'static str> {
        Some("/fapi/v1/countdownCancelAll")
    }

    fn batch_orders() -> Option<&'static str> {
        Some("/fapi/v1/batchOrders")
    }

    fn leverage() -> Option<&'static str> {
        Some("/fapi/v1/leverage")
    }

    fn open_orders() -> Option<&'static str> {
        Some("/fapi/v1/openOrders")
    }

    fn order() -> Option<&'static str> {
        Some("/fapi/v1/order")
    }
}

impl TradeApi for SApi {
    fn all_orders() -> Option<&'static str> {
        Some("/api/v3/allOrders")
    }

    fn all_open_orders() -> Option<&'static str> {
        Some("/api/v3/openOrders")
    }

    fn auto_cancel_all() -> Option<&'static str> {
        None
    }

    fn batch_orders() -> Option<&'static str> {
        None
    }

    fn leverage() -> Option<&'static str> {
        None
    }

    fn open_orders() -> Option<&'static str> {
        Some("/api/v3/openOrders")
    }

    fn order() -> Option<&'static str> {
        Some("/api/v3/order")
    }
}

} // verus!
