use vstd::prelude::*;

use crate::json::{as_text, member, object_with, with_field, JsonValue};
use crate::shitstrap::{
    is_full_shitstrap, is_single_shitstrap, shit_deploy_data_full, shit_deploy_data_single,
    CwShitstrapSuiteDeployData,
};

verus! {

/// An amount of a native token.
#[derive(Clone, Debug, PartialEq, Eq)]
pub struct Coin {
    pub denom: String,
    pub amount: u128,
}

/// Deploy data of the SVG suite (cw-infuser, SVG collections and minters).
/// Each collection is its instantiate message, with the merkle-tree
/// whitelist message of its minter where it has one.
#[derive(Debug, PartialEq, Eq)]
pub struct CwSvgSuiteDeployData {
    pub svg: Vec<(JsonValue, Option<JsonValue>)>,
    pub infuse: Option<JsonValue>,
    pub admin: Option<String>,
    pub infuse_coins: Vec<Coin>,
    pub shit: Option<CwShitstrapSuiteDeployData>,
}

/// `msg` is the collection message `loaded` with its owner set to `owner`.
pub open spec fn owned_by(loaded: JsonValue, msg: JsonValue, owner: Seq<char>) -> bool {
    &&& object_with(loaded, msg, "owner"@)
    &&& as_text(member(msg, "owner"@)) == Some(owner)
}

/// `msg` is the whitelist message `loaded` with `admin` as its only admin.
pub open spec fn administered_by(loaded: JsonValue, msg: JsonValue, admin: Seq<char>) -> bool {
    &&& object_with(loaded, msg, "admins"@)
    &&& member(msg, "admins"@) matches JsonValue::Array(items)
    &&& items@.len() == 1
    &&& as_text(items@[0]) == Some(admin)
}

/// `d` deploys nothing but its SVG collections, administered by `sender`.
pub open spec fn svg_suite_of(d: CwSvgSuiteDeployData, sender: Seq<char>) -> bool {
    &&& d.infuse is None
    &&& d.admin matches Some(a) && a@ == sender
    &&& d.infuse_coins@.len() == 0
    &&& d.shit is None
}

/// Sets the owner of a collection message.
fn set_owner(msg: JsonValue, owner: &str) -> (r: JsonValue)
    requires
        msg is Object,
    ensures
        owned_by(msg, r, owner@),
{
    with_field(msg, "owner", JsonValue::Str(String::from_str(owner)))
}

/// Makes `admin` the only admin of a whitelist message.
fn set_admins(msg: JsonValue, admin: &str) -> (r: JsonValue)
    requires
        msg is Object,
    ensures
        administered_by(msg, r, admin@),
{
    let mut admins: Vec<JsonValue> = Vec::new();
    admins.push(JsonValue::Str(String::from_str(admin)));
    with_field(msg, "admins", JsonValue::Array(admins))
}

/// Single SVG collection (terp warrior) owned by `sender`, with its
/// merkle-tree whitelist administered by `sender`.  `terp` is the loaded collection message and `mt` the
/// loaded whitelist message.
pub fn deploy_data_single(sender: &str, terp: JsonValue, mt: JsonValue) -> (d: Option<
    CwSvgSuiteDeployData,
>)
    requires
        terp is Object,
        mt is Object,
    ensures
        d matches Some(d) && {
            &&& svg_suite_of(d, sender@)
            &&& d.svg@.len() == 1
            &&& owned_by(terp, d.svg@[0].0, sender@)
            &&& d.svg@[0].1 matches Some(m) && administered_by(mt, m, sender@)
        },
{
    let terp = set_owner(terp, sender);
    let mt = set_admins(mt, sender);
    let mut svg: Vec<(JsonValue, Option<JsonValue>)> = Vec::new();
    svg.push((terp, Some(mt)));
    Some(
        CwSvgSuiteDeployData {
            svg,
            infuse: None,
            admin: Some(String::from_str(sender)),
            infuse_coins: Vec::new(),
            shit: None,
        },
    )
}

/// Multiple SVG collections (terp + dao), both owned by `sender`, without
/// whitelists.
pub fn deploy_data_full(sender: &str, terp: JsonValue, dao: JsonValue) -> (d: Option<
    CwSvgSuiteDeployData,
>)
    requires
        terp is Object,
        dao is Object,
    ensures
        d matches Some(d) && {
            &&& svg_suite_of(d, sender@)
            &&& d.svg@.len() == 2
            &&& owned_by(terp, d.svg@[0].0, sender@)
            &&& d.svg@[0].1 is None
            &&& owned_by(dao, d.svg@[1].0, sender@)
            &&& d.svg@[1].1 is None
        },
{
    let terp = set_owner(terp, sender);
    let dao = set_owner(dao, sender);
    let mut svg: Vec<(JsonValue, Option<JsonValue>)> = Vec::new();
    svg.push((terp, None));
    svg.push((dao, None));
    Some(
        CwSvgSuiteDeployData {
            svg,
            infuse: None,
            admin: Some(String::from_str(sender)),
            infuse_coins: Vec::new(),
            shit: None,
        },
    )
}


/// The value of a hex digit (either case), as `hex` reads it.
pub open spec fn hex_digit(b: u8) -> Option<int> {
    if 0x30 <= b <= 0x39 {
        Some(b - 0x30)
    } else if 0x41 <= b <= 0x46 {
        Some(b - 0x41 + 10)
    } else if 0x61 <= b <= 0x66 {
        Some(b - 0x61 + 10)
    } else {
        None
    }
}

/// The bytes that a hex text spells: defined when the text has an even
/// length and only hex digits; each pair of digits is one byte, high digit
/// first.
pub open spec fn hex_decoded(text: Seq<u8>) -> Option<Seq<u8>> {
    if text.len() % 2 == 0 && forall|i: int| 0 <= i < text.len() ==> #[trigger] hex_digit(text[i]) is Some {
        Some(
            Seq::new(
                text.len() / 2,
                |i: int| (hex_digit(text[2 * i])->0 * 16 + hex_digit(text[2 * i + 1])->0) as u8,
            ),
        )
    } else {
        None
    }
}

/// Calls `hex::decode` on the bytes of `text`.  The crate's source checks the
/// length for evenness, then reads the bytes two by two, each a hex digit of
/// either case, the first one the high half of the output byte; any other
/// byte is an error.  Which error came back is dropped.
#[verifier::external_body]
fn hex_decode(text: &str) -> (r: Option<Vec<u8>>)
    ensures
        match r {
            Some(bytes) => hex_decoded(utf8_of(text@)) == Some(bytes@),
            None => hex_decoded(utf8_of(text@)) is None,
        },
{
    hex::decode(text).ok()
}

/// `s` with every leading `0x` taken off, as `str::trim_start_matches("0x")`.
pub open spec fn trim_0x_of(s: Seq<char>) -> Seq<char>
    decreases s.len(),
{
    if s.len() >= 2 && s[0] == '0' && s[1] == 'x' {
        trim_0x_of(s.skip(2))
    } else {
        s
    }
}

/// Takes every leading `0x` off `s`.
pub fn trim_0x(s: &str) -> (r: String)
    ensures
        r@ == trim_0x_of(s@),
{
    let n = s.unicode_len();
    let mut i: usize = 0;
    let mut at_prefix = n >= 2 && s.get_char(0) == '0' && s.get_char(1) == 'x';
    assert(s@.skip(0) =~= s@);
    while at_prefix
        invariant
            n == s@.len(),
            0 <= i <= n,
            trim_0x_of(s@.skip(i as int)) == trim_0x_of(s@),
            at_prefix == (n - i >= 2 && s@[i as int] == '0' && s@[i + 1] == 'x'),
        decreases n - i,
    {
        assert(s@.skip(i as int).skip(2) =~= s@.skip(i + 2));
        i = i + 2;
        at_prefix = n - i >= 2 && s.get_char(i) == '0' && s.get_char(i + 1) == 'x';
    }
    let rest = s.substring_char(i, n);
    assert(rest@ =~= s@.skip(i as int));
    String::from_str(rest)
}

/// The length of the genesis root used when none is configured.
pub open spec fn default_root_len() -> nat {
    32
}

/// The genesis root given by the `HEADSTASH_GENESIS_ROOT` setting: the hex
/// bytes of its text without leading `0x` (nothing when they do not decode),
/// or 32 zero bytes when the setting is absent.
pub open spec fn genesis_root_of(setting: Option<Seq<char>>) -> Seq<u8> {
    match setting {
        Some(text) => match hex_decoded(utf8_of(trim_0x_of(text))) {
            Some(bytes) => bytes,
            None => Seq::empty(),
        },
        None => Seq::new(default_root_len(), |i: int| 0u8),
    }
}

/// The UTF-8 bytes of a text.
pub open spec fn utf8_of(text: Seq<char>) -> Seq<u8> {
    vstd::utf8::encode_utf8(text)
}

/// The genesis root for a local deployment from the `HEADSTASH_GENESIS_ROOT`
/// setting (see [`genesis_root_of`]).
pub fn genesis_root_from_setting(setting: Option<String>) -> (root: Vec<u8>)
    ensures
        root@ == genesis_root_of(
            match setting {
                Some(s) => Some(s@),
                None => None,
            },
        ),
{
    match setting {
        Some(text) => {
            let trimmed = trim_0x(text.as_str());
            match hex_decode(trimmed.as_str()) {
                Some(bytes) => bytes,
                None => Vec::new(),
            }
        },
        None => {
            let mut root: Vec<u8> = Vec::new();
            let mut i: usize = 0;
            while i < 32
                invariant
                    0 <= i <= 32,
                    root@ == Seq::new(i as nat, |j: int| 0u8),
                decreases 32 - i,
            {
                root.push(0u8);
                i = i + 1;
                assert(root@ =~= Seq::new(i as nat, |j: int| 0u8));
            }
            root
        },
    }
}


/// The token a headstash hands out, given by its denomination.
#[derive(Clone, Debug, PartialEq, Eq)]
pub struct HeadstashTokenObject {
    pub proof: Vec<u8>,
    pub raw: String,
}

/// How a headstash obtains the token it hands out.
#[derive(Clone, Debug, PartialEq, Eq)]
pub enum TokenStrategy {
    /// A fungible token that already exists on chain.
    ExistingFungible(HeadstashTokenObject),
}

/// The operator set that authorizes WAVS proofs.
#[derive(Clone, Debug, PartialEq, Eq)]
pub struct WavsAuthMetadata {
    pub aggregate_key: String,
    pub threshold: u64,
    pub total_operators: u64,
    pub nonce: u64,
}

/// WAVS proofs of ownership (each an operator authorization message).
#[derive(Debug, PartialEq, Eq)]
pub struct WavsProofOfOwnership {
    pub poos: Vec<JsonValue>,
    pub msg: WavsAuthMetadata,
}

/// Instantiate message of the cw-headstash contract.
#[derive(Debug, PartialEq, Eq)]
pub struct HeadstashInstantiateMsg {
    pub genesis_root: Vec<u8>,
    pub token_strategy: TokenStrategy,
    pub wavs: WavsProofOfOwnership,
}

/// Deploy configuration for the ZK headstash system.
#[derive(Debug, PartialEq, Eq)]
pub struct ZkDeployData {
    /// Owner address for the manifold factory.
    pub owner: Option<String>,
    /// Instantiate message for the cw-headstash contract.
    pub headstash_init: HeadstashInstantiateMsg,
    /// Combined VK bytes (`params || vk || cs || footer`) to register on-chain.
    /// If `None`, VK registration is skipped (must be done separately).
    pub vk_bytes: Option<Vec<u8>>,
    /// Directory containing circuit key files (params.bin, vk_combined.bin, etc.).
    pub keys_dir: Option<String>,
}

/// `d` is the local ZK deployment of `admin` over the merkle root `root`,
/// handing out the existing `uterp` token, with `vk` to register.
pub open spec fn is_local_zk(d: ZkDeployData, admin: Seq<char>, root: Seq<u8>, vk: Option<Seq<u8>>) -> bool {
    &&& d.owner matches Some(o) && o@ == admin
    &&& d.headstash_init.genesis_root@ == root
    &&& d.headstash_init.token_strategy matches TokenStrategy::ExistingFungible(t) && t.proof@.len() == 0 && t.raw@ == "uterp"@
    &&& d.headstash_init.wavs.poos@.len() == 0
    &&& d.headstash_init.wavs.msg.aggregate_key@.len() == 0
    &&& d.headstash_init.wavs.msg.threshold == 0
    &&& d.headstash_init.wavs.msg.total_operators == 0
    &&& d.headstash_init.wavs.msg.nonce == 0
    &&& match (d.vk_bytes, vk) {
        (Some(b), Some(v)) => b@ == v,
        (None, None) => true,
        _ => false,
    }
    &&& d.keys_dir is None
}

impl ZkDeployData {
    /// Deploy data for a local test deployment, with the `ExistingFungible`
    /// token strategy on `uterp`.  `genesis_root` is the raw merkle root, and
    /// `vk_bytes` the contents of `vk_combined.bin` where there is one.
    pub fn local_default(admin: &str, genesis_root: &[u8], vk_bytes: Option<Vec<u8>>) -> (d: ZkDeployData)
        ensures
            is_local_zk(
                d,
                admin@,
                genesis_root@,
                match vk_bytes {
                    Some(v) => Some(v@),
                    None => None,
                },
            ),
    {
        ZkDeployData {
            owner: Some(String::from_str(admin)),
            headstash_init: HeadstashInstantiateMsg {
                genesis_root: vstd::slice::slice_to_vec(genesis_root),
                token_strategy: TokenStrategy::ExistingFungible(
                    HeadstashTokenObject { proof: Vec::new(), raw: String::from_str("uterp") },
                ),
                wavs: WavsProofOfOwnership {
                    poos: Vec::new(),
                    msg: WavsAuthMetadata {
                        aggregate_key: String::new(),
                        threshold: 0,
                        total_operators: 0,
                        nonce: 0,
                    },
                },
            },
            vk_bytes,
            keys_dir: None,
        }
    }
}

/// The directory of the headstash circuit keys, from the `HEADSTASH_KEYS_DIR`
/// setting.
pub open spec fn keys_dir_of(setting: Option<Seq<char>>) -> Seq<char> {
    match setting {
        Some(dir) => dir,
        None => "./circuit_keys/headstash"@,
    }
}

/// The directory of the headstash circuit keys: the `HEADSTASH_KEYS_DIR`
/// setting, or `./circuit_keys/headstash`.
pub fn headstash_keys_dir(setting: Option<String>) -> (dir: String)
    ensures
        dir@ == keys_dir_of(
            match setting {
                Some(s) => Some(s@),
                None => None,
            },
        ),
{
    match setting {
        Some(dir) => dir,
        None => String::from_str("./circuit_keys/headstash"),
    }
}

/// The combined verifying key inside the keys directory.
pub fn vk_combined_path(keys_dir: &str) -> (path: String)
    ensures
        path@ == crate::paths::joined(keys_dir@, "vk_combined.bin"@),
{
    crate::paths::join_path(keys_dir, "vk_combined.bin")
}

/// What became of reading `vk_combined.bin` from the keys directory.
#[derive(Debug, PartialEq, Eq)]
pub enum VkFile {
    /// There is no such file.
    Absent,
    /// The file is there but could not be read, for the reason given.
    Unreadable(String),
    /// The file's contents.
    Read(Vec<u8>),
}

/// `zk` is the ZK deployment of a local deployment by `sender`: none when
/// the verifying key file is absent or unreadable, else the local ZK
/// deployment over the genesis root from `genesis_root_setting` (see
/// [`genesis_root_of`]), registering the key file's contents.
pub open spec fn local_zk_of(
    zk: Option<ZkDeployData>,
    sender: Seq<char>,
    genesis_root_setting: Option<Seq<char>>,
    vk: VkFile,
) -> bool {
    match vk {
        VkFile::Read(bytes) => zk matches Some(d) && is_local_zk(
            d,
            sender,
            genesis_root_of(genesis_root_setting),
            Some(bytes@),
        ),
        _ => zk is None,
    }
}

/// The view of an optional setting.
pub open spec fn setting_view(setting: Option<String>) -> Option<Seq<char>> {
    match setting {
        Some(s) => Some(s@),
        None => None,
    }
}

/// The ZK deployment of a local deployment by `sender` (see
/// [`local_zk_of`]).
pub fn zk_local_deploy(sender: &str, genesis_root_setting: Option<String>, vk: VkFile) -> (zk: Option<
    ZkDeployData,
>)
    ensures
        local_zk_of(zk, sender@, setting_view(genesis_root_setting), vk),
{
    match vk {
        VkFile::Read(bytes) => {
            let root = genesis_root_from_setting(genesis_root_setting);
            Some(ZkDeployData::local_default(sender, root.as_slice(), Some(bytes)))
        },
        _ => None,
    }
}

/// Top-level deploy configuration for all website suites.  Each field is an
/// `Option`: only suites with `Some(data)` get deployed.
#[derive(Debug, PartialEq, Eq)]
pub struct TerpNetworkDeployData {
    pub admin: String,
    pub cw_infuser: Option<CwSvgSuiteDeployData>,
    pub terp_billboards: Option<String>,
    pub shitstraps: Option<CwShitstrapSuiteDeployData>,
    pub dao: Option<String>,
    /// ZK headstash contracts + circuits.  `None` = skip ZK deploy.
    pub zk: Option<ZkDeployData>,
}

/// What every deployment of `sender` has: `sender` administers it, the
/// account suite is deployed with `sender` as its admin, and the DAO suite
/// is deployed by `sender` exactly when its artifacts were found.
pub open spec fn deployed_by(d: TerpNetworkDeployData, sender: Seq<char>, dao_found: bool) -> bool {
    &&& d.admin@ == sender
    &&& d.terp_billboards matches Some(a) && a@ == sender
    &&& match d.dao {
        Some(a) => dao_found && a@ == sender,
        None => !dao_found,
    }
}

/// The admin of the DAO suite: `sender` when the DAO artifacts were found,
/// else no DAO suite.
pub fn dao_admin(sender: &str, dao_found: bool) -> (dao: Option<String>)
    ensures
        match dao {
            Some(a) => dao_found && a@ == sender@,
            None => !dao_found,
        },
{
    if dao_found {
        Some(String::from_str(sender))
    } else {
        None
    }
}

impl TerpNetworkDeployData {
    /// Minimal local deployment: one SVG collection with its whitelist, one
    /// shitstrap exchange, the account suite, the DAO suite when its
    /// artifacts were found (`dao_found`, see
    /// [`crate::paths::dao_artifacts_available`]), and the ZK suite from
    /// the `HEADSTASH_GENESIS_ROOT` setting and what became of reading the
    /// verifying key file (see [`local_zk_of`]).  `terp` and `mt` are the
    /// loaded collection and whitelist messages.
    pub fn local_default(
        sender: &str,
        dao_found: bool,
        terp: JsonValue,
        mt: JsonValue,
        genesis_root_setting: Option<String>,
        vk: VkFile,
    ) -> (d: TerpNetworkDeployData)
        requires
            terp is Object,
            mt is Object,
        ensures
            deployed_by(d, sender@, dao_found),
            d.cw_infuser matches Some(svg) && {
                &&& svg_suite_of(svg, sender@)
                &&& svg.svg@.len() == 1
                &&& owned_by(terp, svg.svg@[0].0, sender@)
                &&& svg.svg@[0].1 matches Some(m) && administered_by(mt, m, sender@)
            },
            d.shitstraps matches Some(s) && is_single_shitstrap(s, sender@),
            local_zk_of(d.zk, sender@, setting_view(genesis_root_setting), vk),
    {
        let zk = zk_local_deploy(sender, genesis_root_setting, vk);
        let svg_data = deploy_data_single(sender, terp, mt);
        let shit_data = shit_deploy_data_single(sender);
        let dao = dao_admin(sender, dao_found);
        TerpNetworkDeployData {
            admin: String::from_str(sender),
            cw_infuser: svg_data,
            terp_billboards: Some(String::from_str(sender)),
            shitstraps: shit_data,
            dao,
            zk,
        }
    }

    /// Full deployment: the terp and dao SVG collections, one shitstrap
    /// exchange per token of the full set, the account suite and the DAO
    /// suite when its artifacts were found (`dao_found`); no ZK deploy.
    pub fn full(sender: &str, dao_found: bool, terp: JsonValue, dao: JsonValue) -> (d: TerpNetworkDeployData)
        requires
            terp is Object,
            dao is Object,
        ensures
            deployed_by(d, sender@, dao_found),
            d.cw_infuser matches Some(svg) && {
                &&& svg_suite_of(svg, sender@)
                &&& svg.svg@.len() == 2
                &&& owned_by(terp, svg.svg@[0].0, sender@)
                &&& svg.svg@[0].1 is None
                &&& owned_by(dao, svg.svg@[1].0, sender@)
                &&& svg.svg@[1].1 is None
            },
            d.shitstraps matches Some(s) && is_full_shitstrap(s, sender@),
            d.zk is None,
    {
        let svg_data = deploy_data_full(sender, terp, dao);
        let shit_data = shit_deploy_data_full(sender);
        let dao_suite_admin = dao_admin(sender, dao_found);
        TerpNetworkDeployData {
            admin: String::from_str(sender),
            cw_infuser: svg_data,
            terp_billboards: Some(String::from_str(sender)),
            shitstraps: shit_data,
            dao: dao_suite_admin,
            zk: None,
        }
    }
}

} // verus!
