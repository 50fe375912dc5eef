//! Factories for Aster data and execution clients: their names, the
//! configuration they expect, and which client a configuration selects.

use vstd::prelude::*;

use crate::enums::AsterProductType;
use crate::model::{AccountType, OmsType};
use crate::symbol::ASTER;
use crate::text::push_str;

verus! {

/// The debug name of a product type.
pub open spec fn product_type_name(p: AsterProductType) -> Seq<char> {
    match p {
        AsterProductType::Spot => "Spot"@,
        AsterProductType::Margin => "Margin"@,
        AsterProductType::UsdM => "UsdM"@,
        AsterProductType::CoinM => "CoinM"@,
        AsterProductType::Options => "Options"@,
    }
}

/// Returns the debug name of a product type.
pub fn product_type_debug_name(p: AsterProductType) -> (s: &'static str)
    ensures
        s@ == product_type_name(p),
{
    match p {
        AsterProductType::Spot => "Spot",
        AsterProductType::Margin => "Margin",
        AsterProductType::UsdM => "UsdM",
        AsterProductType::CoinM => "CoinM",
        AsterProductType::Options => "Options",
    }
}

/// The product type a client configuration selects: its first product type,
/// or USD-M when it lists none.
pub open spec fn selected_product_type(product_types: Seq<AsterProductType>) -> AsterProductType {
    if product_types.len() > 0 {
        product_types[0]
    } else {
        AsterProductType::UsdM
    }
}

/// Returns the product type a client configuration selects.
pub fn select_product_type(product_types: &Vec<AsterProductType>) -> (p: AsterProductType)
    ensures
        p == selected_product_type(product_types@),
{
    if product_types.len() > 0 {
        product_types[0]
    } else {
        AsterProductType::UsdM
    }
}

/// Whether Aster clients serve a product type (only the futures ones).
pub open spec fn client_supports(p: AsterProductType) -> bool {
    p == AsterProductType::UsdM || p == AsterProductType::CoinM
}

/// Factory for Aster data clients.
#[derive(Copy, Clone, Debug)]
pub struct AsterDataClientFactory;

impl AsterDataClientFactory {
    /// Creates a new factory.
    pub fn new() -> (f: Self) {
        AsterDataClientFactory
    }

    /// The venue name the factory registers under.
    pub fn name(&self) -> (s: &'static str)
        ensures
            s@ == "ASTER"@,
    {
        ASTER
    }

    /// The name of the configuration type the factory expects.
    pub fn config_type(&self) -> (s: &'static str)
        ensures
            s@ == "AsterDataClientConfig"@,
    {
        "AsterDataClientConfig"
    }

    /// Decides which data client a configuration with these product types
    /// creates: a futures data client for the selected product type when it
    /// is USD-M or COIN-M, an error naming it otherwise.
    pub fn client_product_type(&self, product_types: &Vec<AsterProductType>) -> (r: Result<
        AsterProductType,
        String,
    >)
        ensures
            client_supports(selected_product_type(product_types@)) ==> r == Ok::<
                AsterProductType,
                String,
            >(selected_product_type(product_types@)),
            !client_supports(selected_product_type(product_types@)) ==> r is Err && r->Err_0@
                == "Unsupported product type for Aster data client: "@ + product_type_name(
                selected_product_type(product_types@),
            ),
    {
        let p = select_product_type(product_types);
        match p {
            AsterProductType::UsdM | AsterProductType::CoinM => Ok(p),
            _ => {
                let mut msg = String::new();
                push_str(&mut msg, "Unsupported product type for Aster data client: ");
                push_str(&mut msg, product_type_debug_name(p));
                Err(msg)
            },
        }
    }
}

impl Default for AsterDataClientFactory {
    fn default() -> (f: Self) {
        AsterDataClientFactory
    }
}

/// What an execution client is created with: its product type, and the
/// account and order-management types that go with it.
#[derive(Copy, Clone, Debug, PartialEq, Eq, Structural)]
pub struct ExecutionClientSetup {
    /// The product type the client trades.
    pub product_type: AsterProductType,
    /// The account type (margin for futures).
    pub account_type: AccountType,
    /// The order management type (netting for futures).
    pub oms_type: OmsType,
}

/// Factory for Aster execution clients.
#[derive(Copy, Clone, Debug)]
pub struct AsterExecutionClientFactory;

impl AsterExecutionClientFactory {
    /// Creates a new factory.
    pub fn new() -> (f: Self) {
        AsterExecutionClientFactory
    }

    /// The venue name the factory registers under.
    pub fn name(&self) -> (s: &'static str)
        ensures
            s@ == "ASTER"@,
    {
        ASTER
    }

    /// The name of the configuration type the factory expects.
    pub fn config_type(&self) -> (s: &'static str)
        ensures
            s@ == "AsterExecClientConfig"@,
    {
        "AsterExecClientConfig"
    }

    /// Decides how an execution client for a configuration with these
    /// product types is set up: futures clients trade a margin account with
    /// netting order management; other product types are an error naming them.
    pub fn client_setup(&self, product_types: &Vec<AsterProductType>) -> (r: Result<
        ExecutionClientSetup,
        String,
    >)
        ensures
            client_supports(selected_product_type(product_types@)) ==> r == Ok::<
                ExecutionClientSetup,
                String,
            >(
                ExecutionClientSetup {
                    product_type: selected_product_type(product_types@),
                    account_type: AccountType::Margin,
                    oms_type: OmsType::Netting,
                },
            ),
            !client_supports(selected_product_type(product_types@)) ==> r is Err && r->Err_0@
                == "Unsupported product type for Aster execution client: "@ + product_type_name(
                selected_product_type(product_types@),
            ),
    {
        let p = select_product_type(product_types);
        match p {
            AsterProductType::UsdM | AsterProductType::CoinM => Ok(
                ExecutionClientSetup {
                    product_type: p,
                    account_type: AccountType::Margin,
                    oms_type: OmsType::Netting,
                },
            ),
            _ => {
                let mut msg = String::new();
                push_str(&mut msg, "Unsupported product type for Aster execution client: ");
                push_str(&mut msg, product_type_debug_name(p));
                Err(msg)
            },
        }
    }
}

impl Default for AsterExecutionClientFactory {
    fn default() -> (f: Self) {
        AsterExecutionClientFactory
    }
}

} // verus!
