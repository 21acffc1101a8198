use scripts::deploy_data::{TerpNetworkDeployData, ZkDeployData};
use scripts::shitstrap::shit_deploy_data_single;
use scripts::suite::{
    collect_addresses, deploy_plan, step_failure_is_fatal, AccountAddresses, DaoAddresses, DeployedAddresses,
    HeadstashAddresses, InfuserAddresses, SuiteStep, ZkSuiteAction, ZkSuiteDeploy, ZkSuiteEvent,
};

fn zk(vk: Option<Vec<u8>>) -> ZkDeployData {
    ZkDeployData::local_default("terp1owner", &[5; 4], vk)
}

#[test]
fn zk_suite_with_vk_registers_it_last() {
    let (mut m, first) = ZkSuiteDeploy::new(zk(Some(vec![1, 2])));
    assert_eq!(first, ZkSuiteAction::UploadManifold);
    assert_eq!(m.resume(ZkSuiteEvent::Completed), Some(ZkSuiteAction::UploadHeadstash));
    assert_eq!(
        m.resume(ZkSuiteEvent::HeadstashCodeId(17)),
        Some(ZkSuiteAction::InstantiateManifold { owner: Some("terp1owner".to_string()), headstash_code_id: 17 })
    );
    assert_eq!(
        m.resume(ZkSuiteEvent::Completed),
        Some(ZkSuiteAction::InstantiateHeadstash { init: zk(None).headstash_init })
    );
    assert_eq!(m.resume(ZkSuiteEvent::Completed), Some(ZkSuiteAction::LoadVk { vk: vec![1, 2] }));
    assert_eq!(m.resume(ZkSuiteEvent::Completed), Some(ZkSuiteAction::Done));
    assert_eq!(m.resume(ZkSuiteEvent::Completed), None);
}

#[test]
fn zk_suite_without_vk_skips_registration() {
    let (mut m, _) = ZkSuiteDeploy::new(zk(None));
    m.resume(ZkSuiteEvent::Completed).unwrap();
    m.resume(ZkSuiteEvent::HeadstashCodeId(3)).unwrap();
    m.resume(ZkSuiteEvent::Completed).unwrap();
    assert_eq!(m.resume(ZkSuiteEvent::Completed), Some(ZkSuiteAction::Done));
}

#[test]
fn zk_suite_waits_for_the_code_id() {
    let (mut m, _) = ZkSuiteDeploy::new(zk(None));
    assert_eq!(m.resume(ZkSuiteEvent::HeadstashCodeId(3)), None);
    m.resume(ZkSuiteEvent::Completed).unwrap();
    assert_eq!(m.resume(ZkSuiteEvent::Completed), None);
    assert_eq!(m.stage, 3);
}

fn data(svg: bool, shit: bool, billboards: bool, with_zk: bool) -> TerpNetworkDeployData {
    data_with_dao(svg, shit, billboards, false, with_zk)
}

fn data_with_dao(svg: bool, shit: bool, billboards: bool, dao: bool, with_zk: bool) -> TerpNetworkDeployData {
    TerpNetworkDeployData {
        admin: "terp1admin".to_string(),
        cw_infuser: if svg {
            scripts::deploy_data::deploy_data_full(
                "terp1admin",
                scripts::json::JsonValue::Object(vec![]),
                scripts::json::JsonValue::Object(vec![]),
            )
        } else {
            None
        },
        terp_billboards: if billboards { Some("terp1admin".to_string()) } else { None },
        shitstraps: if shit { shit_deploy_data_single("terp1admin") } else { None },
        dao: if dao { Some("terp1admin".to_string()) } else { None },
        zk: if with_zk { Some(zk(None)) } else { None },
    }
}

fn kinds(plan: &[SuiteStep]) -> Vec<&'static str> {
    plan.iter()
        .map(|s| match s {
            SuiteStep::Svg(_) => "svg",
            SuiteStep::Shitstraps(_) => "shit",
            SuiteStep::Accounts(_) => "accounts",
            SuiteStep::Dao(_) => "dao",
            SuiteStep::Zk(_) => "zk",
        })
        .collect()
}

#[test]
fn plan_everything() {
    assert_eq!(kinds(&deploy_plan(data(true, true, true, true))), vec!["svg", "shit", "accounts", "zk"]);
}

#[test]
fn plan_dao_between_accounts_and_zk() {
    assert_eq!(
        kinds(&deploy_plan(data_with_dao(true, true, true, true, true))),
        vec!["svg", "shit", "accounts", "dao", "zk"]
    );
    let plan = deploy_plan(data_with_dao(false, false, false, true, false));
    assert_eq!(plan, vec![SuiteStep::Dao("terp1admin".to_string())]);
    assert!(step_failure_is_fatal(&plan[0]));
}

#[test]
fn plan_shitstraps_need_svg_suite() {
    assert_eq!(kinds(&deploy_plan(data(false, true, true, false))), vec!["accounts"]);
    assert_eq!(kinds(&deploy_plan(data(true, false, false, true))), vec!["svg", "zk"]);
    assert_eq!(kinds(&deploy_plan(data(false, false, false, false))), Vec::<&str>::new());
}

#[test]
fn plan_carries_the_data() {
    let plan = deploy_plan(data(false, false, true, true));
    assert_eq!(plan, vec![SuiteStep::Accounts("terp1admin".to_string()), SuiteStep::Zk(zk(None))]);
}

#[test]
fn only_zk_failure_is_tolerated() {
    assert!(!step_failure_is_fatal(&SuiteStep::Zk(zk(None))));
    assert!(step_failure_is_fatal(&SuiteStep::Accounts("a".to_string())));
    assert!(step_failure_is_fatal(&SuiteStep::Shitstraps(shit_deploy_data_single("a").unwrap())));
}

fn pairs(list: &[(&str, &str)]) -> Vec<(String, String)> {
    list.iter().map(|(k, v)| (k.to_string(), v.to_string())).collect()
}

#[test]
fn collect_all_addresses() {
    let d = DeployedAddresses {
        infuser: Some(InfuserAddresses {
            minter: Some("m".into()),
            cw721_svg: Some("c".into()),
            infuser: Some("i".into()),
            shitstrap_factory: Some("f".into()),
        }),
        billboards: Some(AccountAddresses { manifold: Some("am".into()), nft: Some("an".into()) }),
        dao: Some(DaoAddresses { core: Some("dc".into()), calendar: Some("dk".into()) }),
        headstash: Some(HeadstashAddresses { headstash: Some("h".into()), manifold: Some("hm".into()) }),
    };
    assert_eq!(
        collect_addresses(&d),
        pairs(&[
            ("cw_svg_minter", "m"),
            ("cw721_svg", "c"),
            ("cw_infuser", "i"),
            ("cw_shitstrap_factory", "f"),
            ("terp_account_minter", "am"),
            ("terp721_account", "an"),
            ("dao_core", "dc"),
            ("dao_calendar", "dk"),
            ("cwHeadstash", "h"),
            ("cwHeadstashManifold", "hm"),
        ])
    );
}

#[test]
fn collect_skips_unread_addresses_and_absent_suites() {
    let d = DeployedAddresses {
        infuser: Some(InfuserAddresses { minter: None, cw721_svg: Some("c".into()), infuser: None, shitstrap_factory: None }),
        billboards: None,
        dao: Some(DaoAddresses { core: None, calendar: Some("dk".into()) }),
        headstash: Some(HeadstashAddresses { headstash: None, manifold: Some("hm".into()) }),
    };
    assert_eq!(
        collect_addresses(&d),
        pairs(&[("cw721_svg", "c"), ("dao_calendar", "dk"), ("cwHeadstashManifold", "hm")])
    );
    let none = DeployedAddresses { infuser: None, billboards: None, dao: None, headstash: None };
    assert!(collect_addresses(&none).is_empty());
}

#[test]
fn collected_keys_are_distinct() {
    let d = DeployedAddresses {
        infuser: Some(InfuserAddresses {
            minter: Some("m".into()),
            cw721_svg: Some("c".into()),
            infuser: Some("i".into()),
            shitstrap_factory: Some("f".into()),
        }),
        billboards: Some(AccountAddresses { manifold: Some("am".into()), nft: Some("an".into()) }),
        dao: Some(DaoAddresses { core: Some("dc".into()), calendar: Some("dk".into()) }),
        headstash: Some(HeadstashAddresses { headstash: Some("h".into()), manifold: Some("hm".into()) }),
    };
    let entries = collect_addresses(&d);
    let map: std::collections::HashMap<String, String> = entries.iter().cloned().collect();
    assert_eq!(map.len(), entries.len());
}
