use scripts::deploy_data::{
    dao_admin, deploy_data_full, deploy_data_single, genesis_root_from_setting, headstash_keys_dir, trim_0x,
    vk_combined_path, zk_local_deploy, HeadstashTokenObject, TerpNetworkDeployData, TokenStrategy, VkFile,
    ZkDeployData,
};
use scripts::json::{get_field, JsonValue};
use scripts::shitstrap::{shit_deploy_data_full, shit_deploy_data_single};

fn s(text: &str) -> JsonValue {
    JsonValue::Str(text.to_string())
}

fn field<'a>(v: &'a JsonValue, key: &str) -> Option<&'a JsonValue> {
    match v {
        JsonValue::Object(es) => get_field(es, key),
        _ => None,
    }
}

fn collection(name: &str) -> JsonValue {
    JsonValue::Object(vec![
        ("name".to_string(), s(name)),
        ("owner".to_string(), JsonValue::Null),
    ])
}

fn whitelist() -> JsonValue {
    JsonValue::Object(vec![
        ("root".to_string(), s("abcd")),
        ("admins".to_string(), JsonValue::Array(vec![s("terp1old")])),
    ])
}

#[test]
fn trim_0x_strips_every_leading_prefix() {
    assert_eq!(trim_0x("0xabcd"), "abcd");
    assert_eq!(trim_0x("0x0xab"), "ab");
    assert_eq!(trim_0x("abcd"), "abcd");
    assert_eq!(trim_0x("0x"), "");
    assert_eq!(trim_0x("0"), "0");
    assert_eq!(trim_0x("x0xab"), "x0xab");
}

#[test]
fn genesis_root_default_is_32_zero_bytes() {
    assert_eq!(genesis_root_from_setting(None), vec![0u8; 32]);
}

#[test]
fn genesis_root_decodes_hex_of_either_case() {
    assert_eq!(genesis_root_from_setting(Some("0xdeadBEEF".to_string())), vec![0xde, 0xad, 0xbe, 0xef]);
    assert_eq!(genesis_root_from_setting(Some("00ff".to_string())), vec![0x00, 0xff]);
    assert_eq!(genesis_root_from_setting(Some(String::new())), Vec::<u8>::new());
}

#[test]
fn genesis_root_bad_hex_is_empty() {
    assert_eq!(genesis_root_from_setting(Some("abc".to_string())), Vec::<u8>::new());
    assert_eq!(genesis_root_from_setting(Some("0xzz".to_string())), Vec::<u8>::new());
}

#[test]
fn keys_dir_defaults() {
    assert_eq!(headstash_keys_dir(None), "./circuit_keys/headstash");
    assert_eq!(headstash_keys_dir(Some("/keys".to_string())), "/keys");
    assert_eq!(vk_combined_path("./circuit_keys/headstash"), "./circuit_keys/headstash/vk_combined.bin");
}

#[test]
fn zk_local_default_fields() {
    let d = ZkDeployData::local_default("terp1admin", &[1, 2, 3], Some(vec![9, 9]));
    assert_eq!(d.owner.as_deref(), Some("terp1admin"));
    assert_eq!(d.headstash_init.genesis_root, vec![1, 2, 3]);
    assert_eq!(
        d.headstash_init.token_strategy,
        TokenStrategy::ExistingFungible(HeadstashTokenObject { proof: vec![], raw: "uterp".to_string() })
    );
    assert!(d.headstash_init.wavs.poos.is_empty());
    assert_eq!(d.headstash_init.wavs.msg.aggregate_key, "");
    assert_eq!(d.headstash_init.wavs.msg.threshold, 0);
    assert_eq!(d.headstash_init.wavs.msg.total_operators, 0);
    assert_eq!(d.headstash_init.wavs.msg.nonce, 0);
    assert_eq!(d.vk_bytes, Some(vec![9, 9]));
    assert_eq!(d.keys_dir, None);
}

#[test]
fn zk_local_deploy_needs_a_readable_key() {
    assert_eq!(zk_local_deploy("terp1", None, VkFile::Absent), None);
    assert_eq!(zk_local_deploy("terp1", None, VkFile::Unreadable("denied".to_string())), None);
    let d = zk_local_deploy("terp1", Some("0x0102".to_string()), VkFile::Read(vec![7])).unwrap();
    assert_eq!(d, ZkDeployData::local_default("terp1", &[1, 2], Some(vec![7])));
    let d = zk_local_deploy("terp1", None, VkFile::Read(vec![7])).unwrap();
    assert_eq!(d.headstash_init.genesis_root, vec![0u8; 32]);
}

#[test]
fn single_svg_data_sets_owner_and_admins() {
    let d = deploy_data_single("terp1admin", collection("terp"), whitelist()).unwrap();
    assert_eq!(d.admin.as_deref(), Some("terp1admin"));
    assert!(d.infuse.is_none() && d.shit.is_none() && d.infuse_coins.is_empty());
    assert_eq!(d.svg.len(), 1);
    let (terp, mt) = &d.svg[0];
    assert_eq!(field(terp, "owner"), Some(&s("terp1admin")));
    assert_eq!(field(terp, "name"), Some(&s("terp")));
    let mt = mt.as_ref().unwrap();
    assert_eq!(field(mt, "admins"), Some(&JsonValue::Array(vec![s("terp1admin")])));
    assert_eq!(field(mt, "root"), Some(&s("abcd")));
}

#[test]
fn full_svg_data_two_collections_without_whitelists() {
    let d = deploy_data_full("terp1admin", collection("terp"), collection("dao")).unwrap();
    assert_eq!(d.svg.len(), 2);
    assert_eq!(field(&d.svg[0].0, "name"), Some(&s("terp")));
    assert_eq!(field(&d.svg[1].0, "name"), Some(&s("dao")));
    for (msg, mt) in &d.svg {
        assert_eq!(field(msg, "owner"), Some(&s("terp1admin")));
        assert!(mt.is_none());
    }
}

#[test]
fn owner_is_added_when_the_message_has_none() {
    let d = deploy_data_full("terp1", JsonValue::Object(vec![]), JsonValue::Object(vec![])).unwrap();
    assert_eq!(d.svg[0].0, JsonValue::Object(vec![("owner".to_string(), s("terp1"))]));
}

#[test]
fn local_default_deploy_data() {
    let d = TerpNetworkDeployData::local_default(
        "terp1admin",
        false,
        collection("terp"),
        whitelist(),
        None,
        VkFile::Read(vec![4, 2]),
    );
    assert_eq!(d.admin, "terp1admin");
    assert_eq!(d.terp_billboards.as_deref(), Some("terp1admin"));
    assert_eq!(d.dao, None);
    assert_eq!(d.shitstraps, shit_deploy_data_single("terp1admin"));
    assert_eq!(d.cw_infuser, deploy_data_single("terp1admin", collection("terp"), whitelist()));
    assert_eq!(d.zk, Some(ZkDeployData::local_default("terp1admin", &[0; 32], Some(vec![4, 2]))));
}

#[test]
fn full_deploy_data_has_no_zk() {
    let d = TerpNetworkDeployData::full(
        "terp1admin",
        false,
        collection("terp"),
        collection("dao"),
    );
    assert_eq!(d.admin, "terp1admin");
    assert_eq!(d.terp_billboards.as_deref(), Some("terp1admin"));
    assert_eq!(d.zk, None);
    assert_eq!(d.dao, None);
    assert_eq!(d.shitstraps, shit_deploy_data_full("terp1admin"));
    assert_eq!(d.cw_infuser, deploy_data_full("terp1admin", collection("terp"), collection("dao")));
}

#[test]
fn dao_suite_follows_the_artifacts() {
    let d = TerpNetworkDeployData::local_default(
        "terp1admin",
        true,
        collection("terp"),
        whitelist(),
        None,
        VkFile::Absent,
    );
    assert_eq!(d.zk, None);
    assert_eq!(d.dao.as_deref(), Some("terp1admin"));
    let d = TerpNetworkDeployData::full("terp1admin", true, collection("terp"), collection("dao"));
    assert_eq!(d.dao.as_deref(), Some("terp1admin"));
    let d = TerpNetworkDeployData::full("terp1admin", false, collection("terp"), collection("dao"));
    assert_eq!(d.dao, None);
    assert_eq!(dao_admin("terp1x", true), Some("terp1x".to_string()));
    assert_eq!(dao_admin("terp1x", false), None);
}

#[test]
fn local_default_zk_from_settings_and_key_file() {
    let d = TerpNetworkDeployData::local_default(
        "terp1admin",
        false,
        collection("terp"),
        whitelist(),
        Some("0xabcd".to_string()),
        VkFile::Read(vec![1]),
    );
    assert_eq!(d.zk, Some(ZkDeployData::local_default("terp1admin", &[0xab, 0xcd], Some(vec![1]))));
    let d = TerpNetworkDeployData::local_default(
        "terp1admin",
        false,
        collection("terp"),
        whitelist(),
        Some("zz".to_string()),
        VkFile::Read(vec![1]),
    );
    assert_eq!(d.zk.unwrap().headstash_init.genesis_root, Vec::<u8>::new());
    let d = TerpNetworkDeployData::local_default(
        "terp1admin",
        false,
        collection("terp"),
        whitelist(),
        None,
        VkFile::Unreadable("Permission denied".to_string()),
    );
    assert_eq!(d.zk, None);
}
