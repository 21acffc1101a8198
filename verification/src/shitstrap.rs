use vstd::prelude::*;

use crate::price::{calc_rates, rate_of, ratio_atomics, Price};

verus! {

/// A denomination as given in a shitstrap message, before it is checked.
#[derive(Clone, Debug, PartialEq, Eq)]
pub enum UncheckedDenom {
    Native(String),
    Cw20(String),
}

/// `d` is the native denomination `name`.
pub open spec fn is_native(d: UncheckedDenom, name: Seq<char>) -> bool {
    d matches UncheckedDenom::Native(s) && s@ == name
}

/// A token that a shitstrap accepts, with the rate at which it pays out.
#[derive(Clone, Debug, PartialEq, Eq)]
pub struct PossibleShit {
    pub token: UncheckedDenom,
    pub shit_rate: u128,
}

impl PossibleShit {
    /// Accept the native denomination `denom` at `rate`.
    pub fn native_denom(denom: &str, rate: u128) -> (p: PossibleShit)
        ensures
            is_native(p.token, denom@),
            p.shit_rate == rate,
    {
        PossibleShit { token: UncheckedDenom::Native(String::from_str(denom)), shit_rate: rate }
    }
}

/// Instantiate message of one shitstrap exchange.
#[derive(Clone, Debug, PartialEq, Eq)]
pub struct ShitInitMsg {
    pub daos: Vec<String>,
    pub owner: Option<String>,
    pub accepted: Vec<PossibleShit>,
    pub cutoff: u128,
    pub shitmos: UncheckedDenom,
    pub title: String,
    pub description: String,
}

/// Deploy data of the shitstrap suite.
#[derive(Clone, Debug, PartialEq, Eq)]
pub struct CwShitstrapSuiteDeployData {
    pub admin: Option<String>,
    pub shit: Vec<ShitInitMsg>,
}

impl Default for CwShitstrapSuiteDeployData {
    fn default() -> (d: CwShitstrapSuiteDeployData)
        ensures
            d.admin is None,
            d.shit@.len() == 0,
    {
        CwShitstrapSuiteDeployData { admin: None, shit: Vec::new() }
    }
}

/// `msg` is the exchange owned by `admin` that takes the native `denom` at
/// `rate` up to `cutoff`, pays out in `shitmos`, and is titled and described
/// by `title`.
pub open spec fn is_exchange(
    msg: ShitInitMsg,
    admin: Seq<char>,
    denom: Seq<char>,
    rate: int,
    cutoff: int,
    shitmos: Seq<char>,
    title: Seq<char>,
) -> bool {
    &&& msg.daos@.len() == 0
    &&& msg.owner matches Some(o) && o@ == admin
    &&& msg.accepted@.len() == 1
    &&& is_native(msg.accepted@[0].token, denom)
    &&& msg.accepted@[0].shit_rate == rate
    &&& msg.cutoff == cutoff
    &&& is_native(msg.shitmos, shitmos)
    &&& msg.title@ == title
    &&& msg.description@ == title
}

/// The token-factory denomination `factory/{creator}/{subdenom}`.
pub open spec fn tf_denom_of(creator: Seq<char>, subdenom: Seq<char>) -> Seq<char> {
    "factory/"@ + creator + "/"@ + subdenom
}

/// The token-factory denomination that `creator` minted as `subdenom`.
pub fn tf_denom(creator: &str, subdenom: &str) -> (d: String)
    ensures
        d@ == tf_denom_of(creator@, subdenom@),
{
    String::from_str("factory/").concat(creator).concat("/").concat(subdenom)
}

/// An exchange owned by `admin` taking `native_denom` at `shit_rate`,
/// paying out in `uthiol`.
pub fn build_shit_init(
    admin: &str,
    native_denom: &str,
    shit_rate: u128,
    cutoff: u128,
    title: &str,
) -> (msg: ShitInitMsg)
    ensures
        is_exchange(msg, admin@, native_denom@, shit_rate as int, cutoff as int, "uthiol"@, title@),
{
    let mut accepted: Vec<PossibleShit> = Vec::new();
    accepted.push(PossibleShit::native_denom(native_denom, shit_rate));
    ShitInitMsg {
        daos: Vec::new(),
        owner: Some(String::from_str(admin)),
        accepted,
        cutoff,
        shitmos: UncheckedDenom::Native(String::from_str("uthiol")),
        title: String::from_str(title),
        description: String::from_str(title),
    }
}

/// `d` is the single-exchange suite of `admin`: 20 THIOL in, 1 TERP out.
pub open spec fn is_single_shitstrap(d: CwShitstrapSuiteDeployData, admin: Seq<char>) -> bool {
    &&& d.admin matches Some(a) && a@ == admin
    &&& d.shit@.len() == 1
    &&& is_exchange(
        d.shit@[0],
        admin,
        "uthiol"@,
        50_000_000_000_000_000,
        500_000_000_000,
        "uterp"@,
        "terp"@,
    )
}

/// Single shitstrap: THIOL in, TERP out, owned and administered by `admin`.
pub fn shit_deploy_data_single(admin: &str) -> (dd: Option<CwShitstrapSuiteDeployData>)
    ensures
        dd matches Some(d) && is_single_shitstrap(d, admin@),
{
    let mut dd = CwShitstrapSuiteDeployData::default();
    dd.admin = Some(String::from_str(admin));
    let mut accepted: Vec<PossibleShit> = Vec::new();
    accepted.push(PossibleShit::native_denom("uthiol", 50_000_000_000_000_000u128));
    let mut shit: Vec<ShitInitMsg> = Vec::new();
    shit.push(
        ShitInitMsg {
            daos: Vec::new(),
            owner: Some(String::from_str(admin)),
            accepted,
            cutoff: 500_000_000_000u128,
            shitmos: UncheckedDenom::Native(String::from_str("uterp")),
            title: String::from_str("terp"),
            description: String::from_str("terp"),
        },
    );
    dd.shit = shit;
    Some(dd)
}

/// The tokens of the full deployment, each with its spot price as a ratio.
pub open spec fn full_tokens() -> Seq<(Seq<char>, int, int)> {
    seq![
        ("atom"@, 181, 100),
        ("btc"@, 66350, 1),
        ("akt"@, 29, 100),
        ("um"@, 7, 1000),
        ("eth"@, 195612, 100),
    ]
}

/// The cutoff of every exchange of the full deployment.
pub open spec fn full_cutoff() -> int {
    710_000_000_000
}

/// `msg` is the full deployment's exchange for token `i` of [`full_tokens`].
pub open spec fn is_full_exchange(msg: ShitInitMsg, admin: Seq<char>, i: int) -> bool {
    let (name, num, den) = full_tokens()[i];
    is_exchange(
        msg,
        admin,
        tf_denom_of(admin, name),
        rate_of(ratio_atomics(num, den)),
        full_cutoff(),
        "uthiol"@,
        name,
    )
}

/// One exchange of the full deployment: the token-factory token `name` of
/// `admin`, at the rate of the price `num / den`.
fn full_exchange(admin: &str, name: &str, num: u128, den: u128, cut: u128) -> (msg: ShitInitMsg)
    requires
        den != 0,
        rate_of(ratio_atomics(num as int, den as int)) <= u128::MAX,
    ensures
        is_exchange(
            msg,
            admin@,
            tf_denom_of(admin@, name@),
            rate_of(ratio_atomics(num as int, den as int)),
            cut as int,
            "uthiol"@,
            name@,
        ),
{
    let denom = tf_denom(admin, name);
    let rate = calc_rates(Price::from_ratio(num, den));
    build_shit_init(admin, denom.as_str(), rate, cut, name)
}

/// `d` is the full suite of `admin`: one exchange per token of
/// [`full_tokens`], in that order.
pub open spec fn is_full_shitstrap(d: CwShitstrapSuiteDeployData, admin: Seq<char>) -> bool {
    &&& d.admin matches Some(a) && a@ == admin
    &&& d.shit@.len() == full_tokens().len()
    &&& forall|i: int| 0 <= i < full_tokens().len() ==> is_full_exchange(d.shit@[i], admin, i)
}

/// Multiple shitstraps, one per token of [`full_tokens`], with exchange rates
/// from the spot prices, all administered by `admin`.
pub fn shit_deploy_data_full(admin: &str) -> (dd: Option<CwShitstrapSuiteDeployData>)
    ensures
        dd matches Some(d) && is_full_shitstrap(d, admin@),
{
    let mut dd = CwShitstrapSuiteDeployData::default();
    let cut: u128 = 710_000_000_000u128;
    let mut shit: Vec<ShitInitMsg> = Vec::new();
    // atom @ $1.81
    shit.push(full_exchange(admin, "atom", 181, 100, cut));
    // btc @ $66,350
    shit.push(full_exchange(admin, "btc", 66350, 1, cut));
    // akt @ $0.29
    shit.push(full_exchange(admin, "akt", 29, 100, cut));
    // um @ $0.007
    shit.push(full_exchange(admin, "um", 7, 1000, cut));
    // eth @ $1,956.12
    shit.push(full_exchange(admin, "eth", 195612, 100, cut));
    dd.admin = Some(String::from_str(admin));
    dd.shit = shit;
    assert forall|i: int| 0 <= i < full_tokens().len() implies is_full_exchange(dd.shit@[i], admin@, i) by {
        if i == 0 {
        } else if i == 1 {
        } else if i == 2 {
        } else if i == 3 {
        } else {
        }
    }
    Some(dd)
}

} // verus!
