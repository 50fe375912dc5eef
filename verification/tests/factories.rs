use nautilus_aster::enums::AsterProductType;
use nautilus_aster::factories::{
    product_type_debug_name, select_product_type, AsterDataClientFactory,
    AsterExecutionClientFactory, ExecutionClientSetup,
};
use nautilus_aster::model::{AccountType, OmsType};

#[test]
fn test_aster_data_client_factory_creation() {
    let factory = AsterDataClientFactory::new();
    assert_eq!(factory.name(), "ASTER");
    assert_eq!(factory.config_type(), "AsterDataClientConfig");
}

#[test]
fn test_aster_data_client_factory_default() {
    let factory = AsterDataClientFactory;
    assert_eq!(factory.name(), "ASTER");
    let factory = AsterDataClientFactory::default();
    assert_eq!(factory.name(), "ASTER");
}

#[test]
fn execution_factory_names() {
    let factory = AsterExecutionClientFactory::new();
    assert_eq!(factory.name(), "ASTER");
    assert_eq!(factory.config_type(), "AsterExecClientConfig");
    assert_eq!(AsterExecutionClientFactory::default().name(), "ASTER");
}

#[test]
fn product_type_selection_defaults_to_usdm() {
    assert_eq!(select_product_type(&vec![]), AsterProductType::UsdM);
    assert_eq!(
        select_product_type(&vec![AsterProductType::CoinM, AsterProductType::UsdM]),
        AsterProductType::CoinM
    );
}

#[test]
fn data_factory_accepts_futures_only() {
    let f = AsterDataClientFactory::new();
    assert_eq!(f.client_product_type(&vec![]), Ok(AsterProductType::UsdM));
    assert_eq!(
        f.client_product_type(&vec![AsterProductType::CoinM]),
        Ok(AsterProductType::CoinM)
    );
    assert_eq!(
        f.client_product_type(&vec![AsterProductType::Spot, AsterProductType::UsdM]),
        Err("Unsupported product type for Aster data client: Spot".to_string())
    );
}

#[test]
fn execution_factory_sets_up_margin_netting_clients() {
    let f = AsterExecutionClientFactory::new();
    assert_eq!(
        f.client_setup(&vec![AsterProductType::UsdM]),
        Ok(ExecutionClientSetup {
            product_type: AsterProductType::UsdM,
            account_type: AccountType::Margin,
            oms_type: OmsType::Netting,
        })
    );
    assert_eq!(
        f.client_setup(&vec![AsterProductType::Options]),
        Err("Unsupported product type for Aster execution client: Options".to_string())
    );
}

#[test]
fn product_type_debug_names() {
    assert_eq!(product_type_debug_name(AsterProductType::Margin), "Margin");
    assert_eq!(product_type_debug_name(AsterProductType::CoinM), "CoinM");
}
