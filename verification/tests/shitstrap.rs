use scripts::price::{calc_rates, Price};
use scripts::shitstrap::{
    build_shit_init, shit_deploy_data_full, shit_deploy_data_single, tf_denom,
    CwShitstrapSuiteDeployData, PossibleShit, ShitInitMsg, UncheckedDenom,
};

#[test]
fn price_from_ratio_scales_by_ten_to_the_eighteen() {
    assert_eq!(Price::from_ratio(181, 100).atomics, 1_810_000_000_000_000_000);
    assert_eq!(Price::from_ratio(66350, 1).atomics, 66_350_000_000_000_000_000_000);
}

#[test]
fn price_from_ratio_rounds_down() {
    assert_eq!(Price::from_ratio(1, 3).atomics, 333_333_333_333_333_333);
    assert_eq!(Price::from_ratio(2, 3).atomics, 666_666_666_666_666_666);
}

#[test]
fn calc_rates_is_atomics_times_hundred() {
    assert_eq!(calc_rates(Price::from_ratio(181, 100)), 181_000_000_000_000_000_000);
    assert_eq!(calc_rates(Price::from_ratio(7, 1000)), 700_000_000_000_000_000);
    assert_eq!(calc_rates(Price { atomics: 0 }), 0);
}

#[test]
fn tf_denom_format() {
    assert_eq!(tf_denom("terp1admin", "atom"), "factory/terp1admin/atom");
    assert_eq!(tf_denom("", ""), "factory//");
}

#[test]
fn build_shit_init_fields() {
    let msg = build_shit_init("terp1admin", "factory/terp1admin/btc", 42, 7, "btc");
    assert_eq!(
        msg,
        ShitInitMsg {
            daos: vec![],
            owner: Some("terp1admin".to_string()),
            accepted: vec![PossibleShit {
                token: UncheckedDenom::Native("factory/terp1admin/btc".to_string()),
                shit_rate: 42,
            }],
            cutoff: 7,
            shitmos: UncheckedDenom::Native("uthiol".to_string()),
            title: "btc".to_string(),
            description: "btc".to_string(),
        }
    );
}

#[test]
fn default_shitstrap_data_is_empty() {
    let d = CwShitstrapSuiteDeployData::default();
    assert_eq!(d.admin, None);
    assert!(d.shit.is_empty());
}

#[test]
fn single_shitstrap_thiol_in_terp_out() {
    let d = shit_deploy_data_single("terp1admin").unwrap();
    assert_eq!(d.admin.as_deref(), Some("terp1admin"));
    assert_eq!(d.shit.len(), 1);
    let m = &d.shit[0];
    assert_eq!(m.owner.as_deref(), Some("terp1admin"));
    assert_eq!(
        m.accepted,
        vec![PossibleShit::native_denom("uthiol", 50_000_000_000_000_000)]
    );
    assert_eq!(m.cutoff, 500_000_000_000);
    assert_eq!(m.shitmos, UncheckedDenom::Native("uterp".to_string()));
    assert_eq!(m.title, "terp");
    assert_eq!(m.description, "terp");
    assert!(m.daos.is_empty());
}

#[test]
fn full_shitstraps_one_per_token() {
    let d = shit_deploy_data_full("terp1admin").unwrap();
    assert_eq!(d.admin.as_deref(), Some("terp1admin"));
    let expected: [(&str, u128); 5] = [
        ("atom", 181_000_000_000_000_000_000),
        ("btc", 6_635_000_000_000_000_000_000_000),
        ("akt", 29_000_000_000_000_000_000),
        ("um", 700_000_000_000_000_000),
        ("eth", 195_612_000_000_000_000_000_000),
    ];
    assert_eq!(d.shit.len(), expected.len());
    for (m, (name, rate)) in d.shit.iter().zip(expected.iter()) {
        assert_eq!(*m, build_shit_init("terp1admin", &tf_denom("terp1admin", name), *rate, 710_000_000_000, name));
    }
}
