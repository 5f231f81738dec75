use rgb_common::commitment::STATIC_BLINDING;
use rgb_common::manager::RGBManager;
use rgb_common::storage::RGBStorage;
use rgb_common::proxy::ClientError;
use rgb_common::types::{ContractId, Network, RgbInfo};
use rgb_common::wallet::{account_derivation_path, funding_recipient, get_coin_type, network_endpoints, WalletError};

#[test]
fn coin_type_is_zero_on_mainnet_only() {
    assert_eq!(get_coin_type(Network::Bitcoin), 0);
    assert_eq!(get_coin_type(Network::Testnet), 1);
    assert_eq!(get_coin_type(Network::Signet), 1);
    assert_eq!(get_coin_type(Network::Regtest), 1);
}

#[test]
fn account_path_is_hardened_bip84() {
    assert_eq!(account_derivation_path(Network::Bitcoin), vec![0x8000_0054, 0x8000_0000, 0x8000_0000]);
    assert_eq!(account_derivation_path(Network::Regtest), vec![0x8000_0054, 0x8000_0001, 0x8000_0000]);
}

#[test]
fn endpoints_are_known_on_testnet_and_regtest() {
    let t = network_endpoints(Network::Testnet).unwrap();
    assert_eq!(t.electrum_url, "ssl://electrum.iriswallet.com:50013");
    assert_eq!(t.proxy_url, "rpcs://proxy.iriswallet.com/0.2/json-rpc");
    let r = network_endpoints(Network::Regtest).unwrap();
    assert_eq!(r.electrum_url, "127.0.0.1:50001");
    assert_eq!(r.proxy_url, "rpc://127.0.0.1:3000/json-rpc");
    assert!(matches!(network_endpoints(Network::Bitcoin), Err(WalletError::UnsupportedNetwork)));
    assert!(matches!(network_endpoints(Network::Signet), Err(WalletError::UnsupportedNetwork)));
}

#[test]
fn funding_recipient_sends_the_local_amount() {
    let info = RgbInfo {
        channel_id: "c".to_owned(),
        contract_id: ContractId { bytes: [0u8; 32] },
        local_rgb_amount: 20000,
        remote_rgb_amount: 3,
    };
    let r = funding_recipient(&info, vec![0x00, 0x20], 150_000, &"rpc://proxy".to_owned());
    assert_eq!(r.script, vec![0x00, 0x20]);
    assert_eq!(r.amount, 20000);
    assert_eq!(r.amount_sat, 150_000);
    assert_eq!(r.blinding, STATIC_BLINDING);
    assert_eq!(r.blinding, 777);
    assert_eq!(r.transport_endpoints, vec!["rpc://proxy".to_owned()]);
}

#[test]
fn manager_setup_needs_a_known_network() {
    let m = RGBManager::init("/tmp/node", "regtest").unwrap();
    assert_eq!(m.path, "/tmp/node");
    assert_eq!(m.consignment_proxy().network, Network::Regtest);
    assert!(m.storage.get_assets_list().is_empty());
    assert!(matches!(RGBManager::init("/tmp/node", "liquid"), Err(ClientError::UnknownNetwork)));
}

#[test]
fn manager_records_allocations_and_watched_assets() {
    let mut m = RGBManager::init("/tmp/node", "testnet").unwrap();
    let info = RgbInfo {
        channel_id: "chan".to_owned(),
        contract_id: ContractId { bytes: [5u8; 32] },
        local_rgb_amount: 9,
        remote_rgb_amount: 1,
    };
    m.add_rgb_info(&info, true);
    assert!(m.storage.is_channel_rgb("chan", true));
    assert!(!m.storage.is_channel_rgb("chan", false));
    m.listen_for("rgb:asset");
    m.listen_for("rgb:asset");
    assert_eq!(m.storage.get_assets_list(), vec!["rgb:asset".to_owned()]);
}
