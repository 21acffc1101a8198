use vstd::prelude::*;

use crate::deploy_data::{CwSvgSuiteDeployData, HeadstashInstantiateMsg, TerpNetworkDeployData, ZkDeployData};
use crate::shitstrap::CwShitstrapSuiteDeployData;

verus! {

/// One piece of chain work of the ZK headstash suite deployment.
#[derive(Debug, PartialEq, Eq)]
pub enum ZkSuiteAction {
    /// Upload the manifold factory's code.
    UploadManifold,
    /// Upload the headstash contract's code, then report its code id with
    /// [`ZkSuiteEvent::HeadstashCodeId`].
    UploadHeadstash,
    /// Instantiate the manifold factory for headstash code `headstash_code_id`.
    InstantiateManifold { owner: Option<String>, headstash_code_id: u64 },
    /// Instantiate the headstash contract directly.
    InstantiateHeadstash { init: HeadstashInstantiateMsg },
    /// Register the circuit verifying key with the headstash contract.
    LoadVk { vk: Vec<u8> },
    /// The suite is deployed.
    Done,
}

/// What the chain work reported back.
#[derive(Debug, PartialEq, Eq)]
pub enum ZkSuiteEvent {
    /// The action finished.
    Completed,
    /// The headstash code was uploaded under this code id.
    HeadstashCodeId(u64),
}

/// The ZK headstash suite deployment: the manifold factory and the
/// headstash contract are uploaded, the factory is instantiated with the
/// headstash code id, the headstash contract is instantiated, and the
/// verifying key is registered when there is one.  `stage` is the next
/// step; the data not yet handed out waits in the other fields.
#[derive(Debug, PartialEq, Eq)]
pub struct ZkSuiteDeploy {
    pub stage: u64,
    pub owner: Option<String>,
    pub init: Option<HeadstashInstantiateMsg>,
    pub vk: Option<Vec<u8>>,
}

impl ZkSuiteDeploy {
    /// Starts deploying the ZK suite of `data`; the first step uploads the
    /// manifold factory.
    pub fn new(data: ZkDeployData) -> (r: (ZkSuiteDeploy, ZkSuiteAction))
        ensures
            r.0.stage == 2,
            r.0.owner == data.owner,
            r.0.init == Some(data.headstash_init),
            r.0.vk == data.vk_bytes,
            r.1 == ZkSuiteAction::UploadManifold,
    {
        (
            ZkSuiteDeploy {
                stage: 2,
                owner: data.owner,
                init: Some(data.headstash_init),
                vk: data.vk_bytes,
            },
            ZkSuiteAction::UploadManifold,
        )
    }

    /// Takes what the last action reported and gives the next action, or
    /// nothing when the current step does not wait for this event (the
    /// deployment is then left as it was).
    pub fn resume(&mut self, event: ZkSuiteEvent) -> (r: Option<ZkSuiteAction>)
        ensures
            old(self).stage == 2 && event == ZkSuiteEvent::Completed ==> {
                &&& r == Some(ZkSuiteAction::UploadHeadstash)
                &&& *final(self) == ZkSuiteDeploy { stage: 3, ..*old(self) }
            },
            old(self).stage == 3 && event is HeadstashCodeId ==> {
                &&& r == Some(
                    ZkSuiteAction::InstantiateManifold {
                        owner: old(self).owner,
                        headstash_code_id: event->HeadstashCodeId_0,
                    },
                )
                &&& *final(self) == ZkSuiteDeploy { stage: 4, ..*old(self) }
            },
            old(self).stage == 4 && event == ZkSuiteEvent::Completed && old(self).init is Some ==> {
                &&& r == Some(ZkSuiteAction::InstantiateHeadstash { init: old(self).init->0 })
                &&& *final(self) == ZkSuiteDeploy { stage: 5, init: None, ..*old(self) }
            },
            old(self).stage == 5 && event == ZkSuiteEvent::Completed ==> match old(self).vk {
                Some(vk) => {
                    &&& r == Some(ZkSuiteAction::LoadVk { vk })
                    &&& *final(self) == ZkSuiteDeploy { stage: 6, vk: None, ..*old(self) }
                },
                None => {
                    &&& r == Some(ZkSuiteAction::Done)
                    &&& *final(self) == ZkSuiteDeploy { stage: 7, ..*old(self) }
                },
            },
            old(self).stage == 6 && event == ZkSuiteEvent::Completed ==> {
                &&& r == Some(ZkSuiteAction::Done)
                &&& *final(self) == ZkSuiteDeploy { stage: 7, ..*old(self) }
            },
            !(old(self).stage == 2 && event == ZkSuiteEvent::Completed) && !(old(self).stage == 3
                && event is HeadstashCodeId) && !(old(self).stage == 4 && event
                == ZkSuiteEvent::Completed && old(self).init is Some) && !(old(self).stage == 5
                && event == ZkSuiteEvent::Completed) && !(old(self).stage == 6 && event
                == ZkSuiteEvent::Completed) ==> {
                &&& r is None
                &&& *final(self) == *old(self)
            },
    {
        match event {
            ZkSuiteEvent::Completed => {
                if self.stage == 2 {
                    self.stage = 3;
                    Some(ZkSuiteAction::UploadHeadstash)
                } else if self.stage == 4 {
                    match self.init.take() {
                        Some(init) => {
                            self.stage = 5;
                            Some(ZkSuiteAction::InstantiateHeadstash { init })
                        },
                        None => None,
                    }
                } else if self.stage == 5 {
                    match self.vk.take() {
                        Some(vk) => {
                            self.stage = 6;
                            Some(ZkSuiteAction::LoadVk { vk })
                        },
                        None => {
                            self.stage = 7;
                            Some(ZkSuiteAction::Done)
                        },
                    }
                } else if self.stage == 6 {
                    self.stage = 7;
                    Some(ZkSuiteAction::Done)
                } else {
                    None
                }
            },
            ZkSuiteEvent::HeadstashCodeId(code_id) => {
                if self.stage == 3 {
                    self.stage = 4;
                    Some(
                        ZkSuiteAction::InstantiateManifold {
                            owner: self.owner.clone(),
                            headstash_code_id: code_id,
                        },
                    )
                } else {
                    None
                }
            },
        }
    }
}


/// One suite deployment of the unified deployment.
#[derive(Debug, PartialEq, Eq)]
pub enum SuiteStep {
    /// The SVG suite (cw-infuser, SVG collections and minters).
    Svg(CwSvgSuiteDeployData),
    /// The shitstrap suite, attached to the SVG suite just deployed.
    Shitstraps(CwShitstrapSuiteDeployData),
    /// The account suite (account NFTs and their manifold minter) of this admin.
    Accounts(String),
    /// The DAO suite (DAO core, proposal, voting and staking modules, the
    /// calendar and the other externals) of this admin.
    Dao(String),
    /// The ZK headstash suite.
    Zk(ZkDeployData),
}

/// The steps for an optional piece of deploy data.
pub open spec fn step_if<T>(data: Option<T>, step: spec_fn(T) -> SuiteStep) -> Seq<SuiteStep> {
    match data {
        Some(d) => seq![step(d)],
        None => seq![],
    }
}

/// The SVG part of a plan: the SVG suite followed by the shitstraps, which
/// are only deployed together with the SVG suite.
pub open spec fn svg_steps_of(data: TerpNetworkDeployData) -> Seq<SuiteStep> {
    match data.cw_infuser {
        Some(svg) => seq![SuiteStep::Svg(svg)] + step_if(
            data.shitstraps,
            |t: CwShitstrapSuiteDeployData| SuiteStep::Shitstraps(t),
        ),
        None => seq![],
    }
}

/// The suites that `data` deploys, in order: the SVG suite followed by the
/// shitstraps (which are only deployed together with the SVG suite), the
/// account suite, the DAO suite and the ZK suite, each where its data is
/// present.
pub open spec fn deploy_plan_of(data: TerpNetworkDeployData) -> Seq<SuiteStep> {
    svg_steps_of(data) + step_if(data.terp_billboards, |a: String| SuiteStep::Accounts(a)) + step_if(
        data.dao,
        |a: String| SuiteStep::Dao(a),
    ) + step_if(data.zk, |z: ZkDeployData| SuiteStep::Zk(z))
}

/// The shitstrap suite is only ever deployed right after the SVG suite it is
/// attached to: never without SVG data.
pub proof fn lemma_shitstraps_follow_svg(data: TerpNetworkDeployData, i: int)
    requires
        0 <= i < deploy_plan_of(data).len(),
        deploy_plan_of(data)[i] is Shitstraps,
    ensures
        data.cw_infuser is Some,
        i >= 1,
        deploy_plan_of(data)[i - 1] is Svg,
{
    let accounts = step_if(data.terp_billboards, |a: String| SuiteStep::Accounts(a));
    let dao = step_if(data.dao, |a: String| SuiteStep::Dao(a));
    let zk = step_if(data.zk, |z: ZkDeployData| SuiteStep::Zk(z));
    let svg = svg_steps_of(data);
    let rest = accounts + dao + zk;
    assert(deploy_plan_of(data) =~= svg + rest);
    if i >= svg.len() {
        let j = i - svg.len();
        assert(deploy_plan_of(data)[i] == rest[j]);
        if j < accounts.len() {
            assert(rest[j] == accounts[j]);
        } else if j < accounts.len() + dao.len() {
            assert(rest[j] == dao[j - accounts.len()]);
        } else {
            assert(rest[j] == zk[j - accounts.len() - dao.len()]);
        }
    } else {
        assert(deploy_plan_of(data)[i] == svg[i]);
        assert(deploy_plan_of(data)[i - 1] == svg[i - 1]);
    }
}

/// Every step of the plan carries exactly the deploy data of its suite, as
/// it stands in `data`: the SVG step deploys `data.cw_infuser`, the
/// shitstrap step `data.shitstraps` (and only with SVG data), the account
/// step `data.terp_billboards`, the DAO step `data.dao` and the ZK step
/// `data.zk`.
pub proof fn lemma_plan_steps_carry_their_data(data: TerpNetworkDeployData, i: int)
    requires
        0 <= i < deploy_plan_of(data).len(),
    ensures
        deploy_plan_of(data)[i] is Svg ==> data.cw_infuser is Some && deploy_plan_of(data)[i]
            == SuiteStep::Svg(data.cw_infuser->0),
        deploy_plan_of(data)[i] is Shitstraps ==> data.cw_infuser is Some && data.shitstraps is Some
            && deploy_plan_of(data)[i] == SuiteStep::Shitstraps(data.shitstraps->0),
        deploy_plan_of(data)[i] is Accounts ==> data.terp_billboards is Some && deploy_plan_of(data)[i]
            == SuiteStep::Accounts(data.terp_billboards->0),
        deploy_plan_of(data)[i] is Dao ==> data.dao is Some && deploy_plan_of(data)[i] == SuiteStep::Dao(
            data.dao->0,
        ),
        deploy_plan_of(data)[i] is Zk ==> data.zk is Some && deploy_plan_of(data)[i] == SuiteStep::Zk(
            data.zk->0,
        ),
{
    let svg = svg_steps_of(data);
    let accounts = step_if(data.terp_billboards, |a: String| SuiteStep::Accounts(a));
    let dao = step_if(data.dao, |a: String| SuiteStep::Dao(a));
    let zk = step_if(data.zk, |z: ZkDeployData| SuiteStep::Zk(z));
    let shit = step_if(data.shitstraps, |t: CwShitstrapSuiteDeployData| SuiteStep::Shitstraps(t));
    let rest = accounts + dao + zk;
    let plan = deploy_plan_of(data);
    assert(plan =~= svg + rest);
    if i < svg.len() {
        assert(plan[i] == svg[i]);
        let svg_data = data.cw_infuser->0;
        assert(svg == seq![SuiteStep::Svg(svg_data)] + shit);
        if i >= 1 {
            assert(svg[i] == shit[i - 1]);
        }
    } else {
        let j = i - svg.len();
        assert(plan[i] == rest[j]);
        if j < accounts.len() {
            assert(rest[j] == accounts[j]);
        } else if j < accounts.len() + dao.len() {
            assert(rest[j] == dao[j - accounts.len()]);
        } else {
            assert(rest[j] == zk[j - accounts.len() - dao.len()]);
        }
    }
}

/// Every suite whose deploy data is present is deployed with that data:
/// the SVG suite when `data.cw_infuser` is present, the shitstraps when
/// both they and the SVG data are, and the account, DAO and ZK suites when
/// their data is present.
pub proof fn lemma_plan_covers_present_suites(data: TerpNetworkDeployData)
    ensures
        data.cw_infuser is Some ==> deploy_plan_of(data).contains(SuiteStep::Svg(data.cw_infuser->0)),
        data.cw_infuser is Some && data.shitstraps is Some ==> deploy_plan_of(data).contains(
            SuiteStep::Shitstraps(data.shitstraps->0),
        ),
        data.terp_billboards is Some ==> deploy_plan_of(data).contains(
            SuiteStep::Accounts(data.terp_billboards->0),
        ),
        data.dao is Some ==> deploy_plan_of(data).contains(SuiteStep::Dao(data.dao->0)),
        data.zk is Some ==> deploy_plan_of(data).contains(SuiteStep::Zk(data.zk->0)),
{
    let svg = svg_steps_of(data);
    let accounts = step_if(data.terp_billboards, |a: String| SuiteStep::Accounts(a));
    let dao = step_if(data.dao, |a: String| SuiteStep::Dao(a));
    let zk = step_if(data.zk, |z: ZkDeployData| SuiteStep::Zk(z));
    let shit = step_if(data.shitstraps, |t: CwShitstrapSuiteDeployData| SuiteStep::Shitstraps(t));
    let plan = deploy_plan_of(data);
    assert(plan =~= svg + accounts + dao + zk);
    if data.cw_infuser is Some {
        assert(svg == seq![SuiteStep::Svg(data.cw_infuser->0)] + shit);
        assert(plan[0] == SuiteStep::Svg(data.cw_infuser->0));
        if data.shitstraps is Some {
            assert(plan[1] == SuiteStep::Shitstraps(data.shitstraps->0));
        }
    }
    if data.terp_billboards is Some {
        assert(plan[svg.len() as int] == SuiteStep::Accounts(data.terp_billboards->0));
    }
    if data.dao is Some {
        assert(plan[(svg.len() + accounts.len()) as int] == SuiteStep::Dao(data.dao->0));
    }
    if data.zk is Some {
        assert(plan[(svg.len() + accounts.len() + dao.len()) as int] == SuiteStep::Zk(data.zk->0));
    }
}

/// Plans the unified deployment: which suites are deployed, in which order,
/// with which data (see [`deploy_plan_of`]).
pub fn deploy_plan(data: TerpNetworkDeployData) -> (plan: Vec<SuiteStep>)
    ensures
        plan@ == deploy_plan_of(data),
{
    let ghost whole = data;
    let TerpNetworkDeployData { admin: _, cw_infuser, terp_billboards, shitstraps, dao, zk } = data;
    let mut plan: Vec<SuiteStep> = Vec::new();
    if let Some(svg) = cw_infuser {
        plan.push(SuiteStep::Svg(svg));
        if let Some(shit) = shitstraps {
            plan.push(SuiteStep::Shitstraps(shit));
        }
    }
    let ghost after_svg = plan@;
    if let Some(admin) = terp_billboards {
        plan.push(SuiteStep::Accounts(admin));
    }
    let ghost after_accounts = plan@;
    if let Some(admin) = dao {
        plan.push(SuiteStep::Dao(admin));
    }
    let ghost after_dao = plan@;
    if let Some(z) = zk {
        plan.push(SuiteStep::Zk(z));
    }
    proof {
        let svg_part = svg_steps_of(whole);
        let accounts = step_if(whole.terp_billboards, |a: String| SuiteStep::Accounts(a));
        let dao_part = step_if(whole.dao, |a: String| SuiteStep::Dao(a));
        assert(after_svg =~= svg_part);
        assert(after_accounts =~= svg_part + accounts);
        assert(after_dao =~= svg_part + accounts + dao_part);
        assert(plan@ =~= deploy_plan_of(whole));
    }
    plan
}

/// Whether a failure of `step` fails the whole deployment: every suite but
/// the ZK suite is required; a failed ZK deploy is skipped.
pub fn step_failure_is_fatal(step: &SuiteStep) -> (fatal: bool)
    ensures
        fatal == !(step is Zk),
{
    match step {
        SuiteStep::Zk(_) => false,
        _ => true,
    }
}

/// The addresses of the SVG suite's contracts that could be read back.
#[derive(Clone, Debug, PartialEq, Eq)]
pub struct InfuserAddresses {
    pub minter: Option<String>,
    pub cw721_svg: Option<String>,
    pub infuser: Option<String>,
    pub shitstrap_factory: Option<String>,
}

/// The addresses of the account suite's contracts that could be read back.
#[derive(Clone, Debug, PartialEq, Eq)]
pub struct AccountAddresses {
    pub manifold: Option<String>,
    pub nft: Option<String>,
}

/// The addresses of the DAO suite's contracts that could be read back.
#[derive(Clone, Debug, PartialEq, Eq)]
pub struct DaoAddresses {
    pub core: Option<String>,
    pub calendar: Option<String>,
}

/// The addresses of the ZK headstash suite's contracts that could be read back.
#[derive(Clone, Debug, PartialEq, Eq)]
pub struct HeadstashAddresses {
    pub headstash: Option<String>,
    pub manifold: Option<String>,
}

/// The addresses of the deployed suites (a suite is absent when it was not
/// deployed).
#[derive(Clone, Debug, PartialEq, Eq)]
pub struct DeployedAddresses {
    pub infuser: Option<InfuserAddresses>,
    pub billboards: Option<AccountAddresses>,
    pub dao: Option<DaoAddresses>,
    pub headstash: Option<HeadstashAddresses>,
}

/// The entry `key = address` when the address could be read.
pub open spec fn entry_of(key: Seq<char>, addr: Option<String>) -> Seq<(Seq<char>, Seq<char>)> {
    match addr {
        Some(a) => seq![(key, a@)],
        None => seq![],
    }
}

/// The config keys under which the deployed addresses are collected, in
/// order: the SVG suite's minter, collection, infuser and shitstrap factory,
/// the account suite's minter and NFT, the DAO core and calendar, and the
/// headstash contract and its manifold.
pub open spec fn address_keys() -> Seq<Seq<char>> {
    seq![
        "cw_svg_minter"@,
        "cw721_svg"@,
        "cw_infuser"@,
        "cw_shitstrap_factory"@,
        "terp_account_minter"@,
        "terp721_account"@,
        "dao_core"@,
        "dao_calendar"@,
        "cwHeadstash"@,
        "cwHeadstashManifold"@,
    ]
}

/// The entries of the SVG suite.
pub open spec fn infuser_entries(d: DeployedAddresses) -> Seq<(Seq<char>, Seq<char>)> {
    let k = address_keys();
    match d.infuser {
        Some(s) => entry_of(k[0], s.minter) + entry_of(k[1], s.cw721_svg) + entry_of(k[2], s.infuser)
            + entry_of(k[3], s.shitstrap_factory),
        None => seq![],
    }
}

/// The entries of the account suite.
pub open spec fn account_entries(d: DeployedAddresses) -> Seq<(Seq<char>, Seq<char>)> {
    let k = address_keys();
    match d.billboards {
        Some(s) => entry_of(k[4], s.manifold) + entry_of(k[5], s.nft),
        None => seq![],
    }
}

/// The entries of the DAO suite.
pub open spec fn dao_entries(d: DeployedAddresses) -> Seq<(Seq<char>, Seq<char>)> {
    let k = address_keys();
    match d.dao {
        Some(s) => entry_of(k[6], s.core) + entry_of(k[7], s.calendar),
        None => seq![],
    }
}

/// The entries of the ZK headstash suite.
pub open spec fn headstash_entries(d: DeployedAddresses) -> Seq<(Seq<char>, Seq<char>)> {
    let k = address_keys();
    match d.headstash {
        Some(s) => entry_of(k[8], s.headstash) + entry_of(k[9], s.manifold),
        None => seq![],
    }
}

/// The config entries of the deployed addresses: each address that could be
/// read, under its key of [`address_keys`], suite by suite in that order.
pub open spec fn address_entries_of(d: DeployedAddresses) -> Seq<(Seq<char>, Seq<char>)> {
    infuser_entries(d) + account_entries(d) + dao_entries(d) + headstash_entries(d)
}

/// Every key of `es` is in `keys`.
pub open spec fn keys_within(es: Seq<(Seq<char>, Seq<char>)>, keys: Set<Seq<char>>) -> bool {
    forall|i: int| 0 <= i < es.len() ==> keys.contains(#[trigger] es[i].0)
}

/// No key occurs twice in `es`.
pub open spec fn distinct_keys(es: Seq<(Seq<char>, Seq<char>)>) -> bool {
    forall|i: int, j: int| 0 <= i < j < es.len() ==> #[trigger] es[i].0 != #[trigger] es[j].0
}

/// Joining entries with distinct keys drawn from disjoint key sets keeps the
/// keys distinct.
proof fn lemma_join_distinct(
    a: Seq<(Seq<char>, Seq<char>)>,
    b: Seq<(Seq<char>, Seq<char>)>,
    ka: Set<Seq<char>>,
    kb: Set<Seq<char>>,
)
    requires
        distinct_keys(a),
        distinct_keys(b),
        keys_within(a, ka),
        keys_within(b, kb),
        ka.disjoint(kb),
    ensures
        distinct_keys(a + b),
        keys_within(a + b, ka + kb),
{
    let c = a + b;
    assert forall|i: int, j: int| 0 <= i < j < c.len() implies c[i].0 != c[j].0 by {
        if j < a.len() {
            assert(c[i] == a[i] && c[j] == a[j]);
        } else if i >= a.len() {
            assert(c[i] == b[i - a.len()] && c[j] == b[j - a.len()]);
        } else {
            assert(c[i] == a[i] && c[j] == b[j - a.len()]);
            assert(ka.contains(a[i].0));
            assert(kb.contains(b[j - a.len()].0));
        }
    }
    assert forall|i: int| 0 <= i < c.len() implies (ka + kb).contains(#[trigger] c[i].0) by {
        if i < a.len() {
            assert(c[i] == a[i]);
        } else {
            assert(c[i] == b[i - a.len()]);
        }
    }
}

/// A single optional entry has distinct keys, all equal to its key.
proof fn lemma_entry_distinct(key: Seq<char>, addr: Option<String>)
    ensures
        distinct_keys(entry_of(key, addr)),
        keys_within(entry_of(key, addr), set![key]),
{
}

/// The entries of one suite with two contracts have distinct keys within
/// those two keys.
proof fn lemma_pair_distinct(k0: Seq<char>, a0: Option<String>, k1: Seq<char>, a1: Option<String>)
    requires
        k0 != k1,
    ensures
        distinct_keys(entry_of(k0, a0) + entry_of(k1, a1)),
        keys_within(entry_of(k0, a0) + entry_of(k1, a1), set![k0] + set![k1]),
{
    lemma_entry_distinct(k0, a0);
    lemma_entry_distinct(k1, a1);
    lemma_join_distinct(entry_of(k0, a0), entry_of(k1, a1), set![k0], set![k1]);
}

/// The collected addresses never name a config key twice, so they form a
/// map from config key to address.
pub proof fn lemma_address_keys_distinct(d: DeployedAddresses)
    ensures
        distinct_keys(address_entries_of(d)),
{
    reveal_strlit("cw_svg_minter");
    reveal_strlit("cw721_svg");
    reveal_strlit("cw_infuser");
    reveal_strlit("cw_shitstrap_factory");
    reveal_strlit("terp_account_minter");
    reveal_strlit("terp721_account");
    reveal_strlit("dao_core");
    reveal_strlit("dao_calendar");
    reveal_strlit("cwHeadstash");
    reveal_strlit("cwHeadstashManifold");
    let k = address_keys();
    assert(k[0].len() == 13 && k[1].len() == 9 && k[2].len() == 10 && k[3].len() == 20);
    assert(k[4].len() == 19 && k[5].len() == 15 && k[6].len() == 8 && k[7].len() == 12);
    assert(k[8].len() == 11 && k[9].len() == 19);
    assert(k[4][0] != k[9][0]);
    assert(forall|i: int, j: int| 0 <= i < j < 10 ==> k[i] != k[j]);
    let s01 = set![k[0]] + set![k[1]];
    let s012 = s01 + set![k[2]];
    let s0123 = s012 + set![k[3]];
    let s45 = set![k[4]] + set![k[5]];
    let s67 = set![k[6]] + set![k[7]];
    let s89 = set![k[8]] + set![k[9]];
    match d.infuser {
        Some(s) => {
            lemma_pair_distinct(k[0], s.minter, k[1], s.cw721_svg);
            lemma_entry_distinct(k[2], s.infuser);
            lemma_entry_distinct(k[3], s.shitstrap_factory);
            let a01 = entry_of(k[0], s.minter) + entry_of(k[1], s.cw721_svg);
            assert(s01.disjoint(set![k[2]]));
            lemma_join_distinct(a01, entry_of(k[2], s.infuser), s01, set![k[2]]);
            let a012 = a01 + entry_of(k[2], s.infuser);
            assert(s012.disjoint(set![k[3]]));
            lemma_join_distinct(a012, entry_of(k[3], s.shitstrap_factory), s012, set![k[3]]);
        },
        None => {},
    }
    let infuser = infuser_entries(d);
    assert(distinct_keys(infuser) && keys_within(infuser, s0123));
    match d.billboards {
        Some(s) => lemma_pair_distinct(k[4], s.manifold, k[5], s.nft),
        None => {},
    }
    let accounts = account_entries(d);
    assert(distinct_keys(accounts) && keys_within(accounts, s45));
    match d.dao {
        Some(s) => lemma_pair_distinct(k[6], s.core, k[7], s.calendar),
        None => {},
    }
    let dao = dao_entries(d);
    assert(distinct_keys(dao) && keys_within(dao, s67));
    match d.headstash {
        Some(s) => lemma_pair_distinct(k[8], s.headstash, k[9], s.manifold),
        None => {},
    }
    let headstash = headstash_entries(d);
    assert(distinct_keys(headstash) && keys_within(headstash, s89));
    assert(s0123.disjoint(s45));
    lemma_join_distinct(infuser, accounts, s0123, s45);
    assert((s0123 + s45).disjoint(s67));
    lemma_join_distinct(infuser + accounts, dao, s0123 + s45, s67);
    assert((s0123 + s45 + s67).disjoint(s89));
    lemma_join_distinct(infuser + accounts + dao, headstash, s0123 + s45 + s67, s89);
}

/// `es` holds the entry `key = value`.
pub open spec fn has_entry(es: Seq<(Seq<char>, Seq<char>)>, key: Seq<char>, value: Seq<char>) -> bool {
    exists|j: int| 0 <= j < es.len() && es[j] == (key, value)
}

/// The address `addr` was read, and is `value`.
pub open spec fn read_as(addr: Option<String>, value: Seq<char>) -> bool {
    match addr {
        Some(a) => a@ == value,
        None => false,
    }
}

/// An entry of joined entries is an entry of one of the parts.
proof fn lemma_has_entry_join(a: Seq<(Seq<char>, Seq<char>)>, b: Seq<(Seq<char>, Seq<char>)>, key: Seq<char>, value: Seq<char>)
    ensures
        has_entry(a + b, key, value) <==> (has_entry(a, key, value) || has_entry(b, key, value)),
{
    let c = a + b;
    if has_entry(c, key, value) {
        let j = choose|j: int| 0 <= j < c.len() && c[j] == (key, value);
        if j < a.len() {
            assert(a[j] == c[j]);
        } else {
            assert(b[j - a.len()] == c[j]);
        }
    }
    if has_entry(a, key, value) {
        let j = choose|j: int| 0 <= j < a.len() && a[j] == (key, value);
        assert(c[j] == a[j]);
    }
    if has_entry(b, key, value) {
        let j = choose|j: int| 0 <= j < b.len() && b[j] == (key, value);
        assert(c[j + a.len()] == b[j]);
    }
}

/// The single optional entry holds `key = value` exactly when its address
/// was read as `value` under that key.
proof fn lemma_has_entry_single(k: Seq<char>, addr: Option<String>, key: Seq<char>, value: Seq<char>)
    ensures
        has_entry(entry_of(k, addr), key, value) <==> (key == k && read_as(addr, value)),
{
    if key == k && read_as(addr, value) {
        assert(entry_of(k, addr)[0] == (key, value));
    }
}

/// The entries of one suite with two contracts.
proof fn lemma_has_entry_pair(
    k0: Seq<char>,
    a0: Option<String>,
    k1: Seq<char>,
    a1: Option<String>,
    key: Seq<char>,
    value: Seq<char>,
)
    ensures
        has_entry(entry_of(k0, a0) + entry_of(k1, a1), key, value) <==> ((key == k0 && read_as(a0, value))
            || (key == k1 && read_as(a1, value))),
{
    lemma_has_entry_join(entry_of(k0, a0), entry_of(k1, a1), key, value);
    lemma_has_entry_single(k0, a0, key, value);
    lemma_has_entry_single(k1, a1, key, value);
}

/// The collected addresses are exactly the addresses that could be read,
/// each under its config key, whichever other suites were deployed: the
/// SVG suite's minter, collection, infuser and shitstrap factory, the
/// account suite's minter and NFT, the DAO core and calendar, and the ZK
/// headstash contract and its manifold.
pub proof fn lemma_collected_addresses(d: DeployedAddresses, key: Seq<char>, value: Seq<char>)
    ensures
        has_entry(address_entries_of(d), key, value) <==> {
            ||| match d.infuser {
                Some(s) => {
                    ||| key == "cw_svg_minter"@ && read_as(s.minter, value)
                    ||| key == "cw721_svg"@ && read_as(s.cw721_svg, value)
                    ||| key == "cw_infuser"@ && read_as(s.infuser, value)
                    ||| key == "cw_shitstrap_factory"@ && read_as(s.shitstrap_factory, value)
                },
                None => false,
            }
            ||| match d.billboards {
                Some(s) => {
                    ||| key == "terp_account_minter"@ && read_as(s.manifold, value)
                    ||| key == "terp721_account"@ && read_as(s.nft, value)
                },
                None => false,
            }
            ||| match d.dao {
                Some(s) => {
                    ||| key == "dao_core"@ && read_as(s.core, value)
                    ||| key == "dao_calendar"@ && read_as(s.calendar, value)
                },
                None => false,
            }
            ||| match d.headstash {
                Some(s) => {
                    ||| key == "cwHeadstash"@ && read_as(s.headstash, value)
                    ||| key == "cwHeadstashManifold"@ && read_as(s.manifold, value)
                },
                None => false,
            }
        },
{
    let k = address_keys();
    let inf = infuser_entries(d);
    let acc = account_entries(d);
    let dao = dao_entries(d);
    let hs = headstash_entries(d);
    lemma_has_entry_join(inf + acc + dao, hs, key, value);
    lemma_has_entry_join(inf + acc, dao, key, value);
    lemma_has_entry_join(inf, acc, key, value);
    match d.infuser {
        Some(s) => {
            let a01 = entry_of(k[0], s.minter) + entry_of(k[1], s.cw721_svg);
            lemma_has_entry_pair(k[0], s.minter, k[1], s.cw721_svg, key, value);
            lemma_has_entry_join(a01, entry_of(k[2], s.infuser), key, value);
            lemma_has_entry_single(k[2], s.infuser, key, value);
            lemma_has_entry_join(a01 + entry_of(k[2], s.infuser), entry_of(k[3], s.shitstrap_factory), key, value);
            lemma_has_entry_single(k[3], s.shitstrap_factory, key, value);
        },
        None => {},
    }
    match d.billboards {
        Some(s) => lemma_has_entry_pair(k[4], s.manifold, k[5], s.nft, key, value),
        None => {},
    }
    match d.dao {
        Some(s) => lemma_has_entry_pair(k[6], s.core, k[7], s.calendar, key, value),
        None => {},
    }
    match d.headstash {
        Some(s) => lemma_has_entry_pair(k[8], s.headstash, k[9], s.manifold, key, value),
        None => {},
    }
}

/// Adds `key = address` when the address could be read.
fn add_entry(entries: &mut Vec<(String, String)>, key: &str, addr: &Option<String>)
    ensures
        final(entries).deep_view() == old(entries).deep_view() + entry_of(key@, *addr),
{
    match addr {
        Some(a) => {
            entries.push((String::from_str(key), a.clone()));
            assert(entries.deep_view() =~= old(entries).deep_view() + entry_of(key@, *addr));
        },
        None => {
            assert(entries.deep_view() =~= old(entries).deep_view() + entry_of(key@, *addr));
        },
    }
}

/// Collects the deployed contract addresses as config entries (key,
/// address), see [`address_entries_of`].
pub fn collect_addresses(deployed: &DeployedAddresses) -> (entries: Vec<(String, String)>)
    ensures
        entries.deep_view() == address_entries_of(*deployed),
{
    let mut entries: Vec<(String, String)> = Vec::new();
    assert(entries.deep_view() =~= Seq::<(Seq<char>, Seq<char>)>::empty());
    if let Some(s) = &deployed.infuser {
        add_entry(&mut entries, "cw_svg_minter", &s.minter);
        add_entry(&mut entries, "cw721_svg", &s.cw721_svg);
        add_entry(&mut entries, "cw_infuser", &s.infuser);
        add_entry(&mut entries, "cw_shitstrap_factory", &s.shitstrap_factory);
    }
    assert(entries.deep_view() =~= infuser_entries(*deployed));
    if let Some(s) = &deployed.billboards {
        add_entry(&mut entries, "terp_account_minter", &s.manifold);
        add_entry(&mut entries, "terp721_account", &s.nft);
    }
    assert(entries.deep_view() =~= infuser_entries(*deployed) + account_entries(*deployed));
    if let Some(s) = &deployed.dao {
        add_entry(&mut entries, "dao_core", &s.core);
        add_entry(&mut entries, "dao_calendar", &s.calendar);
    }
    assert(entries.deep_view() =~= infuser_entries(*deployed) + account_entries(*deployed) + dao_entries(
        *deployed,
    ));
    if let Some(s) = &deployed.headstash {
        add_entry(&mut entries, "cwHeadstash", &s.headstash);
        add_entry(&mut entries, "cwHeadstashManifold", &s.manifold);
    }
    assert(entries.deep_view() =~= address_entries_of(*deployed));
    entries
}

} // verus!
