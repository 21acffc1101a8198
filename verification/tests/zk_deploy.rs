use scripts::json::JsonValue;
use scripts::zk_deploy::{
    container_write_args, resolve_zk_root, zk_root_candidate, zk_root_from_probe, ZkContractDeploy,
    ZkDeployAction, ZkDeployError, ZkDeployEvent,
};

fn strings(list: &[&str]) -> Vec<String> {
    list.iter().map(|s| s.to_string()).collect()
}

#[test]
fn container_write_args_encode_in_base64() {
    assert_eq!(
        container_write_args(b"hello", "/tmp/x.bin"),
        strings(&["sh", "-c", "printf '%s' 'aGVsbG8=' | base64 -d > /tmp/x.bin"])
    );
    assert_eq!(
        container_write_args(&[], "/tmp/e"),
        strings(&["sh", "-c", "printf '%s' '' | base64 -d > /tmp/e"])
    );
    assert_eq!(
        container_write_args(&[0xfb, 0xff], "/tmp/p"),
        strings(&["sh", "-c", "printf '%s' '+/8=' | base64 -d > /tmp/p"])
    );
}

#[test]
fn container_write_payload_has_padding_forms() {
    assert_eq!(container_write_args(b"ab", "/t")[2], "printf '%s' 'YWI=' | base64 -d > /t");
    assert_eq!(container_write_args(b"abc", "/t")[2], "printf '%s' 'YWJj' | base64 -d > /t");
    assert_eq!(container_write_args(b"abcd", "/t")[2], "printf '%s' 'YWJjZA==' | base64 -d > /t");
}

#[test]
fn zk_root_setting_wins() {
    assert_eq!(resolve_zk_root(Some("/opt/zk".to_string()), Some("/home/u".to_string())), Ok("/opt/zk".to_string()));
}

#[test]
fn zk_root_candidate_under_home() {
    assert_eq!(zk_root_candidate(Some("/home/u".to_string())), "/home/u/ZK/terp-core");
    assert_eq!(zk_root_candidate(None), "ZK/terp-core");
    assert_eq!(zk_root_from_probe("/h/ZK/terp-core".to_string(), true), Ok("/h/ZK/terp-core".to_string()));
    assert_eq!(zk_root_from_probe("/h/ZK/terp-core".to_string(), false), Err(ZkDeployError::ZkRootNotFound));
}

#[test]
fn zk_root_missing_home_checkout() {
    assert_eq!(
        resolve_zk_root(None, Some("/nonexistent-home-for-tests".to_string())),
        Err(ZkDeployError::ZkRootNotFound)
    );
}

#[test]
fn plan_fails_before_chain_work_when_wasm_missing() {
    assert_eq!(
        ZkContractDeploy::plan("/zk", false, true),
        Err(ZkDeployError::WasmNotFound("/zk/tests/interchaintest/contracts/zk_wasmvm_test.wasm".to_string()))
    );
    assert_eq!(
        ZkContractDeploy::plan("/zk", false, false),
        Err(ZkDeployError::WasmNotFound("/zk/tests/interchaintest/contracts/zk_wasmvm_test.wasm".to_string()))
    );
}

#[test]
fn plan_fails_when_vk_missing() {
    assert_eq!(
        ZkContractDeploy::plan("/zk", true, false),
        Err(ZkDeployError::VkNotFound("/zk/tests/interchaintest/circuits/no_rick.bin".to_string()))
    );
}

#[test]
fn start_reports_missing_artifacts() {
    let r = ZkContractDeploy::start(Some("/nonexistent-zk-root-for-tests".to_string()), None);
    assert_eq!(
        r,
        Err(ZkDeployError::WasmNotFound(
            "/nonexistent-zk-root-for-tests/tests/interchaintest/contracts/zk_wasmvm_test.wasm".to_string()
        ))
    );
}

fn tx_flags() -> Vec<&'static str> {
    vec!["--gas-prices", "0uterp", "--gas", "auto", "--gas-adjustment", "1.5", "-y", "--output", "json"]
}

fn listing(addr: &str) -> JsonValue {
    JsonValue::Object(vec![(
        "contracts".to_string(),
        JsonValue::Array(vec![JsonValue::Str(addr.to_string())]),
    )])
}

#[test]
fn full_deployment_sequence() {
    let (mut m, first) = ZkContractDeploy::plan("/zk", true, true).unwrap();
    assert_eq!(
        first,
        ZkDeployAction::CopyToContainer {
            host_path: "/zk/tests/interchaintest/contracts/zk_wasmvm_test.wasm".to_string(),
            container_path: "/tmp/zk_wasmvm_test.wasm".to_string(),
        }
    );
    assert_eq!(
        m.resume(ZkDeployEvent::Completed),
        Ok(ZkDeployAction::CopyToContainer {
            host_path: "/zk/tests/interchaintest/circuits/no_rick.bin".to_string(),
            container_path: "/tmp/no_rick.bin".to_string(),
        })
    );
    let mut upload = vec!["tx", "wasm", "headstash", "/tmp/zk_wasmvm_test.wasm", "/tmp/no_rick.bin", "--from", "validator"];
    upload.extend(tx_flags());
    assert_eq!(m.resume(ZkDeployEvent::Completed), Ok(ZkDeployAction::ChainExec { args: strings(&upload) }));
    assert_eq!(m.resume(ZkDeployEvent::Completed), Ok(ZkDeployAction::Sleep { secs: 3 }));
    let mut inst = vec![
        "tx", "wasm", "instantiate", "1", "{}", "--from", "validator", "--label", "zk-wasmvm-test", "--no-admin",
    ];
    inst.extend(tx_flags());
    assert_eq!(m.resume(ZkDeployEvent::Completed), Ok(ZkDeployAction::ChainExec { args: strings(&inst) }));
    assert_eq!(m.resume(ZkDeployEvent::Completed), Ok(ZkDeployAction::Sleep { secs: 3 }));
    assert_eq!(
        m.resume(ZkDeployEvent::Completed),
        Ok(ZkDeployAction::ChainQuery {
            args: strings(&["query", "wasm", "list-contract-by-code", "1", "--output", "json"])
        })
    );
    assert_eq!(
        m.resume(ZkDeployEvent::Listing(Ok(listing("terp1zk")))),
        Ok(ZkDeployAction::Done { address: "terp1zk".to_string() })
    );
    assert_eq!(m.resume(ZkDeployEvent::Completed), Err(ZkDeployError::UnexpectedEvent));
}

fn at_listing() -> ZkContractDeploy {
    let (mut m, _) = ZkContractDeploy::plan("/zk", true, true).unwrap();
    for _ in 0..6 {
        m.resume(ZkDeployEvent::Completed).unwrap();
    }
    m
}

#[test]
fn listing_errors() {
    let mut m = at_listing();
    assert_eq!(
        m.resume(ZkDeployEvent::Listing(Err("expected value at line 1".to_string()))),
        Err(ZkDeployError::ParseFailed("expected value at line 1".to_string()))
    );
    let mut m = at_listing();
    assert_eq!(
        m.resume(ZkDeployEvent::Listing(Ok(JsonValue::Object(vec![])))),
        Err(ZkDeployError::NoContractAddress)
    );
}

#[test]
fn unexpected_events_leave_the_deployment_as_it_was() {
    let (mut m, _) = ZkContractDeploy::plan("/zk", true, true).unwrap();
    let before = m.stage;
    assert_eq!(m.resume(ZkDeployEvent::Listing(Ok(listing("x")))), Err(ZkDeployError::UnexpectedEvent));
    assert_eq!(m.stage, before);
    let mut m = at_listing();
    assert_eq!(m.resume(ZkDeployEvent::Completed), Err(ZkDeployError::UnexpectedEvent));
    assert_eq!(
        m.resume(ZkDeployEvent::Listing(Ok(listing("terp1a")))),
        Ok(ZkDeployAction::Done { address: "terp1a".to_string() })
    );
}

#[test]
fn error_messages() {
    assert_eq!(
        ZkDeployError::ZkRootNotFound.message(),
        "Cannot find terp-core. Set ZK_ROOT env var or ensure ~/ZK/terp-core/ exists."
    );
    assert_eq!(
        ZkDeployError::WasmNotFound("/w.wasm".to_string()).message(),
        "WASM not found: /w.wasm. Build terp-core first."
    );
    assert_eq!(
        ZkDeployError::VkNotFound("/v.bin".to_string()).message(),
        "VK not found: /v.bin. Build terp-core first."
    );
    assert_eq!(
        ZkDeployError::ReadFailed { path: "/w".to_string(), reason: "denied".to_string() }.message(),
        "Failed to read /w: denied"
    );
    assert_eq!(
        ZkDeployError::ParseFailed("eof".to_string()).message(),
        "Failed to parse contract query: eof"
    );
    assert_eq!(ZkDeployError::NoContractAddress.message(), "No contract address found in query response");
}
