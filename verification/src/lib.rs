//! Verified core of the Aster venue adapter and the multi-IP client pools.

pub mod enums;
pub mod model;
pub mod text;
pub mod urls;
pub mod error;
pub mod channels;
pub mod rate_limit;
pub mod pool;
pub mod symbol;
pub mod decimal;
pub mod instrument;
pub mod parse;
pub mod http;
pub mod orders;
pub mod futures;
pub mod factories;
pub mod streams;
