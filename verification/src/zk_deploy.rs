use vstd::prelude::*;

use base64::Engine;

use crate::json::{as_text, element, get_field, member, JsonValue};
use crate::paths::{join_path, joined};
use crate::probe::path_exists;

verus! {

/// A character of the standard base64 alphabet, or the padding `=`.
pub open spec fn is_base64_char(c: char) -> bool {
    ||| 'A' <= c <= 'Z'
    ||| 'a' <= c <= 'z'
    ||| '0' <= c <= '9'
    ||| c == '+'
    ||| c == '/'
    ||| c == '='
}

/// The character of the 6-bit value `v` in the standard base64 alphabet of
/// RFC 4648: `A`-`Z`, `a`-`z`, `0`-`9`, `+`, `/`.
pub open spec fn b64_digit(v: int) -> char {
    if v < 26 {
        (65 + v) as char
    } else if v < 52 {
        (97 + v - 26) as char
    } else if v < 62 {
        (48 + v - 52) as char
    } else if v == 62 {
        '+'
    } else {
        '/'
    }
}

/// The 6-bit value of a character of the standard base64 alphabet (and 0
/// for any other character).
pub open spec fn b64_value(c: char) -> int {
    if 'A' <= c <= 'Z' {
        c as int - 65
    } else if 'a' <= c <= 'z' {
        c as int - 97 + 26
    } else if '0' <= c <= '9' {
        c as int - 48 + 52
    } else if c == '+' {
        62
    } else if c == '/' {
        63
    } else {
        0
    }
}

/// The four characters of the 24-bit group `n`, the last `pad` of them
/// replaced by the padding `=`.
pub open spec fn b64_group(n: int, pad: int) -> Seq<char> {
    seq![
        b64_digit(n / 262144),
        b64_digit(n / 4096 % 64),
        if pad >= 2 {
            '='
        } else {
            b64_digit(n / 64 % 64)
        },
        if pad >= 1 {
            '='
        } else {
            b64_digit(n % 64)
        },
    ]
}

/// Standard base64 with padding (RFC 4648): each group of three bytes, read
/// as a 24-bit number with the first byte highest, becomes four characters;
/// a last group of one or two bytes is filled with zero bits and padded
/// with `==` or `=`.
pub open spec fn base64_of(data: Seq<u8>) -> Seq<char>
    decreases data.len(),
{
    if data.len() == 0 {
        seq![]
    } else if data.len() == 1 {
        b64_group(data[0] * 65536, 2)
    } else if data.len() == 2 {
        b64_group(data[0] * 65536 + data[1] * 256, 1)
    } else {
        b64_group(data[0] * 65536 + data[1] * 256 + data[2], 0) + base64_of(data.skip(3))
    }
}

/// The 24-bit number of a group of four base64 characters, padding read as
/// zero bits.
pub open spec fn b64_group_value(t: Seq<char>) -> int {
    b64_value(t[0]) * 262144 + b64_value(t[1]) * 4096 + (if t[2] == '=' {
        0
    } else {
        b64_value(t[2]) * 64
    }) + (if t[3] == '=' {
        0
    } else {
        b64_value(t[3])
    })
}

/// What decoding base64 text (RFC 4648, as `base64 -d` reads it) gives: each
/// group of four characters gives three bytes, or fewer when it ends in
/// padding.
pub open spec fn base64_decoded(text: Seq<char>) -> Seq<u8>
    decreases text.len(),
{
    if text.len() < 4 {
        seq![]
    } else {
        let n = b64_group_value(text);
        let bytes = if text[2] == '=' {
            seq![(n / 65536) as u8]
        } else if text[3] == '=' {
            seq![(n / 65536) as u8, (n / 256 % 256) as u8]
        } else {
            seq![(n / 65536) as u8, (n / 256 % 256) as u8, (n % 256) as u8]
        };
        bytes + base64_decoded(text.skip(4))
    }
}

/// A 6-bit value's character is in the alphabet, is not the padding, and
/// reads back as the value.
proof fn lemma_b64_digit(v: int)
    requires
        0 <= v < 64,
    ensures
        b64_value(b64_digit(v)) == v,
        b64_digit(v) != '=',
        is_base64_char(b64_digit(v)),
{
}

/// The 6-bit digits of a group of three bytes give the group back, and the
/// group gives the bytes back.
proof fn lemma_group_arith(d0: u32, d1: u32, d2: u32)
    requires
        d0 < 256,
        d1 < 256,
        d2 < 256,
    ensures
        (d0 * 65536 + d1 * 256 + d2) / 262144 < 64,
        ((d0 * 65536 + d1 * 256 + d2) / 262144) * 262144 + ((d0 * 65536 + d1 * 256 + d2) / 4096
            % 64) * 4096 + ((d0 * 65536 + d1 * 256 + d2) / 64 % 64) * 64 + (d0 * 65536 + d1 * 256
            + d2) % 64 == d0 * 65536 + d1 * 256 + d2,
        (d0 * 65536 + d1 * 256 + d2) / 65536 == d0,
        (d0 * 65536 + d1 * 256 + d2) / 256 % 256 == d1,
        (d0 * 65536 + d1 * 256 + d2) % 256 == d2,
        (d0 * 65536 + d1 * 256) % 64 == 0,
        (d0 * 65536) / 64 % 64 == 0,
        (d0 * 65536) % 64 == 0,
{
    assert(d0 < 256 && d1 < 256 && d2 < 256 ==> {
        &&& (d0 * 65536 + d1 * 256 + d2) / 262144 < 64
        &&& ((d0 * 65536 + d1 * 256 + d2) / 262144) * 262144 + ((d0 * 65536 + d1 * 256 + d2) / 4096
            % 64) * 4096 + ((d0 * 65536 + d1 * 256 + d2) / 64 % 64) * 64 + (d0 * 65536 + d1 * 256
            + d2) % 64 == d0 * 65536 + d1 * 256 + d2
        &&& (d0 * 65536 + d1 * 256 + d2) / 65536 == d0
        &&& (d0 * 65536 + d1 * 256 + d2) / 256 % 256 == d1
        &&& (d0 * 65536 + d1 * 256 + d2) % 256 == d2
        &&& (d0 * 65536 + d1 * 256) % 64 == 0
        &&& (d0 * 65536) / 64 % 64 == 0
        &&& (d0 * 65536) % 64 == 0
    }) by (bit_vector);
}

/// Every character of standard base64 text is in the alphabet or the padding.
pub proof fn lemma_base64_alphabet(data: Seq<u8>)
    ensures
        forall|i: int| 0 <= i < base64_of(data).len() ==> is_base64_char(#[trigger] base64_of(data)[i]),
    decreases data.len(),
{
    if data.len() == 0 {
        return;
    }
    let d0 = data[0] as u32;
    let d1 = if data.len() >= 2 { data[1] as u32 } else { 0u32 };
    let d2 = if data.len() >= 3 { data[2] as u32 } else { 0u32 };
    lemma_group_arith(d0, d1, d2);
    lemma_group_arith(d0, d1, 0);
    lemma_group_arith(d0, 0, 0);
    let n: int = if data.len() == 1 {
        data[0] * 65536
    } else if data.len() == 2 {
        data[0] * 65536 + data[1] * 256
    } else {
        data[0] * 65536 + data[1] * 256 + data[2]
    };
    assert(0 <= n < 0x1000000);
    lemma_b64_digit(n / 262144);
    lemma_b64_digit(n / 4096 % 64);
    lemma_b64_digit(n / 64 % 64);
    lemma_b64_digit(n % 64);
    if data.len() >= 3 {
        lemma_base64_alphabet(data.skip(3));
        let g = b64_group(n, 0);
        let r = base64_of(data.skip(3));
        assert(base64_of(data) == g + r);
        assert forall|i: int| 0 <= i < base64_of(data).len() implies is_base64_char(
            #[trigger] base64_of(data)[i],
        ) by {
            if i >= 4 {
                assert(base64_of(data)[i] == r[i - 4]);
            }
        }
    }
}

/// Decoding standard base64 text gives back the bytes that were encoded:
/// what `base64 -d` writes in the container is the host file.
pub proof fn lemma_base64_round_trip(data: Seq<u8>)
    ensures
        base64_decoded(base64_of(data)) == data,
    decreases data.len(),
{
    if data.len() == 0 {
        return;
    }
    let d0 = data[0] as u32;
    let d1 = if data.len() >= 2 { data[1] as u32 } else { 0u32 };
    let d2 = if data.len() >= 3 { data[2] as u32 } else { 0u32 };
    lemma_group_arith(d0, d1, d2);
    lemma_group_arith(d0, d1, 0);
    lemma_group_arith(d0, 0, 0);
    let n: int = if data.len() == 1 {
        data[0] * 65536
    } else if data.len() == 2 {
        data[0] * 65536 + data[1] * 256
    } else {
        data[0] * 65536 + data[1] * 256 + data[2]
    };
    lemma_b64_digit(n / 262144);
    lemma_b64_digit(n / 4096 % 64);
    lemma_b64_digit(n / 64 % 64);
    lemma_b64_digit(n % 64);
    let text = base64_of(data);
    if data.len() == 1 {
        let g = b64_group(n, 2);
        assert(text == g);
        assert(b64_group_value(g) == n);
        assert(g.skip(4) =~= Seq::<char>::empty());
        assert(base64_decoded(g.skip(4)) =~= Seq::<u8>::empty());
        assert(base64_decoded(text) =~= data);
    } else if data.len() == 2 {
        let g = b64_group(n, 1);
        assert(text == g);
        assert(b64_group_value(g) == n);
        assert(g.skip(4) =~= Seq::<char>::empty());
        assert(base64_decoded(g.skip(4)) =~= Seq::<u8>::empty());
        assert(base64_decoded(text) =~= data);
    } else {
        let g = b64_group(n, 0);
        let r = base64_of(data.skip(3));
        assert(text == g + r);
        lemma_base64_round_trip(data.skip(3));
        assert(text.skip(4) =~= r);
        assert(text[2] == g[2] && text[3] == g[3]);
        assert(b64_group_value(text) == n);
        assert(base64_decoded(text) =~= seq![data[0], data[1], data[2]] + data.skip(3));
        assert(seq![data[0], data[1], data[2]] + data.skip(3) =~= data);
    }
}

/// Calls `base64::engine::general_purpose::STANDARD.encode(data)`: the
/// engine encodes with the standard alphabet of RFC 4648 (with `+` and `/`)
/// and pads with `=`, as [`base64_of`] states.
#[verifier::external_body]
fn base64_encode(data: &[u8]) -> (text: String)
    ensures
        text@ == base64_of(data@),
{
    base64::engine::general_purpose::STANDARD.encode(data)
}

/// The shell command that writes `data` to `container_path` inside the chain
/// container: the base64 text of `data`, between single quotes, decoded by
/// `base64 -d`.
pub open spec fn write_command_of(data: Seq<u8>, container_path: Seq<char>) -> Seq<char> {
    "printf '%s' '"@ + base64_of(data) + "' | base64 -d > "@ + container_path
}

/// Adds `s` at the end of `v`.
fn push_arg(v: &mut Vec<String>, s: &str)
    ensures
        final(v).deep_view() == old(v).deep_view().push(s@),
{
    v.push(String::from_str(s));
    assert(v.deep_view() =~= old(v).deep_view().push(s@));
}

/// The arguments of `chain.exec` that write the host file contents `data` to
/// `container_path`: `sh -c` with the command of [`write_command_of`].  The
/// payload between the quotes is base64 text, which holds no quote and
/// decodes back to `data`.
pub fn container_write_args(data: &[u8], container_path: &str) -> (args: Vec<String>)
    ensures
        args.deep_view() == seq!["sh"@, "-c"@, write_command_of(data@, container_path@)],
        forall|i: int| 0 <= i < base64_of(data@).len() ==> #[trigger] base64_of(data@)[i] != '\'',
        base64_decoded(base64_of(data@)) == data@,
{
    proof {
        lemma_base64_alphabet(data@);
        lemma_base64_round_trip(data@);
    }
    let encoded = base64_encode(data);
    let cmd = String::from_str("printf '%s' '").concat(encoded.as_str()).concat("' | base64 -d > ").concat(
        container_path,
    );
    let mut args: Vec<String> = Vec::new();
    push_arg(&mut args, "sh");
    push_arg(&mut args, "-c");
    let ghost before = args.deep_view();
    args.push(cmd);
    assert(args.deep_view() =~= before.push(write_command_of(data@, container_path@)));
    assert(args.deep_view() =~= seq!["sh"@, "-c"@, write_command_of(data@, container_path@)]);
    args
}

/// Why the ZK contract could not be deployed.
#[derive(Debug, PartialEq, Eq)]
pub enum ZkDeployError {
    /// `ZK_ROOT` is not set and `~/ZK/terp-core` does not exist.
    ZkRootNotFound,
    /// The contract's WASM is not at this path.
    WasmNotFound(String),
    /// The verifying key is not at this path.
    VkNotFound(String),
    /// The host file at `path` could not be read, for `reason`.
    ReadFailed { path: String, reason: String },
    /// The chain's answer to the contract query is not JSON, for this reason.
    ParseFailed(String),
    /// The chain's answer names no contract.
    NoContractAddress,
    /// The deployment was given an event that its current step does not
    /// wait for.
    UnexpectedEvent,
}

/// The text that reports `e`.
pub open spec fn error_text(e: ZkDeployError) -> Seq<char> {
    match e {
        ZkDeployError::ZkRootNotFound => "Cannot find terp-core. Set ZK_ROOT env var or ensure ~/ZK/terp-core/ exists."@,
        ZkDeployError::WasmNotFound(p) => "WASM not found: "@ + p@ + ". Build terp-core first."@,
        ZkDeployError::VkNotFound(p) => "VK not found: "@ + p@ + ". Build terp-core first."@,
        ZkDeployError::ReadFailed { path, reason } => "Failed to read "@ + path@ + ": "@ + reason@,
        ZkDeployError::ParseFailed(reason) => "Failed to parse contract query: "@ + reason@,
        ZkDeployError::NoContractAddress => "No contract address found in query response"@,
        ZkDeployError::UnexpectedEvent => "Unexpected event for the current deployment step"@,
    }
}

impl ZkDeployError {
    /// The text that reports this error.
    pub fn message(&self) -> (text: String)
        ensures
            text@ == error_text(*self),
    {
        match self {
            ZkDeployError::ZkRootNotFound => String::from_str(
                "Cannot find terp-core. Set ZK_ROOT env var or ensure ~/ZK/terp-core/ exists.",
            ),
            ZkDeployError::WasmNotFound(p) => String::from_str("WASM not found: ").concat(
                p.as_str(),
            ).concat(". Build terp-core first."),
            ZkDeployError::VkNotFound(p) => String::from_str("VK not found: ").concat(p.as_str()).concat(
                ". Build terp-core first.",
            ),
            ZkDeployError::ReadFailed { path, reason } => String::from_str("Failed to read ").concat(
                path.as_str(),
            ).concat(": ").concat(reason.as_str()),
            ZkDeployError::ParseFailed(reason) => String::from_str(
                "Failed to parse contract query: ",
            ).concat(reason.as_str()),
            ZkDeployError::NoContractAddress => String::from_str(
                "No contract address found in query response",
            ),
            ZkDeployError::UnexpectedEvent => String::from_str(
                "Unexpected event for the current deployment step",
            ),
        }
    }
}

/// The home directory as the `HOME` setting gives it, empty when unset.
pub open spec fn home_of(setting: Option<Seq<char>>) -> Seq<char> {
    match setting {
        Some(h) => h,
        None => Seq::empty(),
    }
}

/// Where terp-core is looked for when `ZK_ROOT` is unset: `~/ZK/terp-core`.
pub open spec fn zk_root_candidate_of(home: Seq<char>) -> Seq<char> {
    joined(home, "ZK/terp-core"@)
}

/// The view of an optional text.
pub open spec fn opt_view(s: Option<String>) -> Option<Seq<char>> {
    match s {
        Some(t) => Some(t@),
        None => None,
    }
}

/// The terp-core root: `ZK_ROOT` when it is set, else `~/ZK/terp-core`.
pub open spec fn zk_root_of(zk_root_setting: Option<Seq<char>>, home_setting: Option<Seq<char>>) -> Seq<char> {
    match zk_root_setting {
        Some(r) => r,
        None => zk_root_candidate_of(home_of(home_setting)),
    }
}

/// `~/ZK/terp-core`, given the `HOME` setting.
pub fn zk_root_candidate(home_setting: Option<String>) -> (candidate: String)
    ensures
        candidate@ == zk_root_candidate_of(home_of(opt_view(home_setting))),
{
    let home = match home_setting {
        Some(h) => h,
        None => String::new(),
    };
    join_path(home.as_str(), "ZK/terp-core")
}

/// The terp-core root, from the candidate `~/ZK/terp-core` and whether it
/// was found on disk.
pub fn zk_root_from_probe(candidate: String, found: bool) -> (r: Result<String, ZkDeployError>)
    ensures
        found ==> r == Ok::<String, ZkDeployError>(candidate),
        !found ==> r == Err::<String, ZkDeployError>(ZkDeployError::ZkRootNotFound),
{
    if found {
        Ok(candidate)
    } else {
        Err(ZkDeployError::ZkRootNotFound)
    }
}

/// Resolves the terp-core root directory: the `ZK_ROOT` setting first, then
/// `~/ZK/terp-core` when that exists on disk.
pub fn resolve_zk_root(zk_root_setting: Option<String>, home_setting: Option<String>) -> (r: Result<
    String,
    ZkDeployError,
>)
    ensures
        match r {
            Ok(root) => root@ == zk_root_of(opt_view(zk_root_setting), opt_view(home_setting)),
            Err(e) => zk_root_setting is None && e == ZkDeployError::ZkRootNotFound,
        },
{
    match zk_root_setting {
        Some(root) => Ok(root),
        None => {
            let candidate = zk_root_candidate(home_setting);
            let found = path_exists(candidate.as_str());
            zk_root_from_probe(candidate, found)
        },
    }
}

/// The contract address in the chain's answer to `list-contract-by-code`:
/// `json["contracts"][0]` when it is a string.
pub open spec fn listing_address_of(listing: JsonValue) -> Option<Seq<char>> {
    as_text(element(member(listing, "contracts"@), 0))
}

/// Reads the contract address out of the chain's answer to
/// `list-contract-by-code` (see [`listing_address_of`]).
pub fn listing_contract_address(listing: &JsonValue) -> (addr: Option<String>)
    ensures
        opt_view(addr) == listing_address_of(*listing),
{
    match listing {
        JsonValue::Object(entries) => match get_field(entries, "contracts") {
            Some(contracts) => match contracts {
                JsonValue::Array(items) => {
                    if items.len() > 0 {
                        match &items[0] {
                            JsonValue::Str(s) => Some(s.clone()),
                            _ => None,
                        }
                    } else {
                        None
                    }
                },
                _ => None,
            },
            None => None,
        },
        _ => None,
    }
}


/// The contract's WASM, relative to the terp-core root.
pub open spec fn wasm_rel() -> Seq<char> {
    "tests/interchaintest/contracts/zk_wasmvm_test.wasm"@
}

/// The contract's verifying key, relative to the terp-core root.
pub open spec fn vk_rel() -> Seq<char> {
    "tests/interchaintest/circuits/no_rick.bin"@
}

/// Where the WASM goes inside the chain container.
pub open spec fn container_wasm() -> Seq<char> {
    "/tmp/zk_wasmvm_test.wasm"@
}

/// Where the verifying key goes inside the chain container.
pub open spec fn container_vk() -> Seq<char> {
    "/tmp/no_rick.bin"@
}

/// The gas and output flags of every transaction.
pub open spec fn tx_flags() -> Seq<Seq<char>> {
    seq![
        "--gas-prices"@,
        "0uterp"@,
        "--gas"@,
        "auto"@,
        "--gas-adjustment"@,
        "1.5"@,
        "-y"@,
        "--output"@,
        "json"@,
    ]
}

/// `terpd tx wasm headstash`: uploads the WASM and the verifying key in one
/// transaction.
pub open spec fn upload_args() -> Seq<Seq<char>> {
    seq![
        "tx"@,
        "wasm"@,
        "headstash"@,
        container_wasm(),
        container_vk(),
        "--from"@,
        "validator"@,
    ] + tx_flags()
}

/// `terpd tx wasm instantiate`: instantiates code id 1, the first upload.
pub open spec fn instantiate_args() -> Seq<Seq<char>> {
    seq![
        "tx"@,
        "wasm"@,
        "instantiate"@,
        "1"@,
        "{}"@,
        "--from"@,
        "validator"@,
        "--label"@,
        "zk-wasmvm-test"@,
        "--no-admin"@,
    ] + tx_flags()
}

/// `terpd query wasm list-contract-by-code 1`.
pub open spec fn query_args() -> Seq<Seq<char>> {
    seq!["query"@, "wasm"@, "list-contract-by-code"@, "1"@, "--output"@, "json"@]
}

/// The seconds to wait for a transaction's inclusion.
pub open spec fn inclusion_wait() -> u64 {
    3
}

/// One piece of outside work of the ZK contract deployment.
#[derive(Debug, PartialEq, Eq)]
pub enum ZkDeployAction {
    /// Read the host file at `host_path` and write it into the chain
    /// container at `container_path` (see [`container_write_args`]).
    CopyToContainer { host_path: String, container_path: String },
    /// Run the chain binary with `args`; its output is not read.
    ChainExec { args: Vec<String> },
    /// Wait `secs` seconds.
    Sleep { secs: u64 },
    /// Run the chain binary with `args` and report its output, parsed as
    /// JSON, with [`ZkDeployEvent::Listing`].
    ChainQuery { args: Vec<String> },
    /// The contract is deployed at `address`.
    Done { address: String },
}

/// What the outside work reported back.
#[derive(Debug, PartialEq, Eq)]
pub enum ZkDeployEvent {
    /// The action finished.
    Completed,
    /// The output of the contract query: its JSON, or why it is not JSON.
    Listing(Result<JsonValue, String>),
}

/// `a` is step `stage` of the deployment of the WASM at `wasm` with the
/// verifying key at `vk`: copy both into the container, upload, wait,
/// instantiate, wait, and query the contract.
pub open spec fn step_action(stage: int, wasm: Seq<char>, vk: Seq<char>, a: ZkDeployAction) -> bool {
    match a {
        ZkDeployAction::CopyToContainer { host_path, container_path } => {
            ||| stage == 0 && host_path@ == wasm && container_path@ == container_wasm()
            ||| stage == 1 && host_path@ == vk && container_path@ == container_vk()
        },
        ZkDeployAction::ChainExec { args } => {
            ||| stage == 2 && args.deep_view() == upload_args()
            ||| stage == 4 && args.deep_view() == instantiate_args()
        },
        ZkDeployAction::Sleep { secs } => (stage == 3 || stage == 5) && secs == inclusion_wait(),
        ZkDeployAction::ChainQuery { args } => stage == 6 && args.deep_view() == query_args(),
        ZkDeployAction::Done { .. } => false,
    }
}

/// The step that waits for the contract query's output.
pub open spec fn listing_stage() -> u64 {
    7
}

/// The deployment of the ZK test contract through the chain binary: the
/// WASM and verifying key go into the container, are uploaded together by
/// `tx wasm headstash`, the contract is instantiated, and its address is
/// read back from the contract listing.  `stage` is the next step.
#[derive(Debug, PartialEq, Eq)]
pub struct ZkContractDeploy {
    pub stage: u64,
    pub wasm_path: String,
    pub vk_path: String,
}

/// Appends the gas and output flags of a transaction to `args`.
fn with_tx_flags(args: &mut Vec<String>)
    ensures
        final(args).deep_view() == old(args).deep_view() + tx_flags(),
{
    push_arg(args, "--gas-prices");
    push_arg(args, "0uterp");
    push_arg(args, "--gas");
    push_arg(args, "auto");
    push_arg(args, "--gas-adjustment");
    push_arg(args, "1.5");
    push_arg(args, "-y");
    push_arg(args, "--output");
    push_arg(args, "json");
    assert(args.deep_view() =~= old(args).deep_view() + tx_flags());
}

impl ZkContractDeploy {
    /// Starts the deployment for the terp-core root `zk_root`, given whether
    /// the WASM and the verifying key were found there: fails before any
    /// chain work when either is missing, the WASM checked first; otherwise
    /// the first step copies the WASM.
    pub fn plan(zk_root: &str, wasm_found: bool, vk_found: bool) -> (r: Result<
        (ZkContractDeploy, ZkDeployAction),
        ZkDeployError,
    >)
        ensures
            !wasm_found ==> (r matches Err(ZkDeployError::WasmNotFound(p)) && p@ == joined(
                zk_root@,
                wasm_rel(),
            )),
            wasm_found && !vk_found ==> (r matches Err(ZkDeployError::VkNotFound(p)) && p@ == joined(
                zk_root@,
                vk_rel(),
            )),
            wasm_found && vk_found ==> (r matches Ok((m, a)) && {
                &&& m.stage == 1
                &&& m.wasm_path@ == joined(zk_root@, wasm_rel())
                &&& m.vk_path@ == joined(zk_root@, vk_rel())
                &&& step_action(0, m.wasm_path@, m.vk_path@, a)
            }),
    {
        let wasm_path = join_path(zk_root, "tests/interchaintest/contracts/zk_wasmvm_test.wasm");
        let vk_path = join_path(zk_root, "tests/interchaintest/circuits/no_rick.bin");
        if !wasm_found {
            return Err(ZkDeployError::WasmNotFound(wasm_path));
        }
        if !vk_found {
            return Err(ZkDeployError::VkNotFound(vk_path));
        }
        let action = ZkDeployAction::CopyToContainer {
            host_path: wasm_path.clone(),
            container_path: String::from_str("/tmp/zk_wasmvm_test.wasm"),
        };
        Ok((ZkContractDeploy { stage: 1, wasm_path, vk_path }, action))
    }

    /// Starts the deployment: resolves the terp-core root from the `ZK_ROOT`
    /// and `HOME` settings and checks on disk that the WASM and verifying key
    /// are there (see [`ZkContractDeploy::plan`]).
    pub fn start(zk_root_setting: Option<String>, home_setting: Option<String>) -> (r: Result<
        (ZkContractDeploy, ZkDeployAction),
        ZkDeployError,
    >)
        ensures
            r matches Ok((m, a)) ==> {
                let root = zk_root_of(opt_view(zk_root_setting), opt_view(home_setting));
                &&& m.stage == 1
                &&& m.wasm_path@ == joined(root, wasm_rel())
                &&& m.vk_path@ == joined(root, vk_rel())
                &&& step_action(0, m.wasm_path@, m.vk_path@, a)
            },
            r matches Err(e) ==> {
                let root = zk_root_of(opt_view(zk_root_setting), opt_view(home_setting));
                ||| zk_root_setting is None && e == ZkDeployError::ZkRootNotFound
                ||| (e matches ZkDeployError::WasmNotFound(p) && p@ == joined(root, wasm_rel()))
                ||| (e matches ZkDeployError::VkNotFound(p) && p@ == joined(root, vk_rel()))
            },
    {
        let root = resolve_zk_root(zk_root_setting, home_setting)?;
        let wasm_path = join_path(root.as_str(), "tests/interchaintest/contracts/zk_wasmvm_test.wasm");
        let wasm_found = path_exists(wasm_path.as_str());
        let vk_found = if wasm_found {
            let vk_path = join_path(root.as_str(), "tests/interchaintest/circuits/no_rick.bin");
            path_exists(vk_path.as_str())
        } else {
            false
        };
        ZkContractDeploy::plan(root.as_str(), wasm_found, vk_found)
    }

    /// Takes what the last action reported and gives the next action: the
    /// six steps after the first go in their fixed order, each after the
    /// previous one completed; the contract listing then gives the address.
    /// An event that the current step does not wait for leaves the
    /// deployment as it was and is an error.
    pub fn resume(&mut self, event: ZkDeployEvent) -> (r: Result<ZkDeployAction, ZkDeployError>)
        ensures
            final(self).wasm_path == old(self).wasm_path,
            final(self).vk_path == old(self).vk_path,
            1 <= old(self).stage < listing_stage() && event is Completed ==> {
                &&& final(self).stage == old(self).stage + 1
                &&& (r matches Ok(a) && step_action(old(self).stage as int, old(self).wasm_path@, old(self).vk_path@, a))
            },
            old(self).stage == listing_stage() && event is Listing ==> {
                &&& final(self).stage == listing_stage() + 1
                &&& match event {
                    ZkDeployEvent::Listing(Err(reason)) => r == Err::<ZkDeployAction, ZkDeployError>(
                        ZkDeployError::ParseFailed(reason),
                    ),
                    ZkDeployEvent::Listing(Ok(json)) => match listing_address_of(json) {
                        Some(addr) => (r matches Ok(ZkDeployAction::Done { address }) && address@ == addr),
                        None => r == Err::<ZkDeployAction, ZkDeployError>(ZkDeployError::NoContractAddress),
                    },
                    _ => false,
                }
            },
            !(1 <= old(self).stage < listing_stage() && event is Completed) && !(old(self).stage
                == listing_stage() && event is Listing) ==> {
                &&& final(self).stage == old(self).stage
                &&& r == Err::<ZkDeployAction, ZkDeployError>(ZkDeployError::UnexpectedEvent)
            },
    {
        let stage = self.stage;
        match event {
            ZkDeployEvent::Completed => {
                if stage == 1 {
                    self.stage = 2;
                    Ok(
                        ZkDeployAction::CopyToContainer {
                            host_path: self.vk_path.clone(),
                            container_path: String::from_str("/tmp/no_rick.bin"),
                        },
                    )
                } else if stage == 2 {
                    self.stage = 3;
                    let mut args: Vec<String> = Vec::new();
                    push_arg(&mut args, "tx");
                    push_arg(&mut args, "wasm");
                    push_arg(&mut args, "headstash");
                    push_arg(&mut args, "/tmp/zk_wasmvm_test.wasm");
                    push_arg(&mut args, "/tmp/no_rick.bin");
                    push_arg(&mut args, "--from");
                    push_arg(&mut args, "validator");
                    with_tx_flags(&mut args);
                    assert(args.deep_view() =~= upload_args());
                    Ok(ZkDeployAction::ChainExec { args })
                } else if stage == 3 || stage == 5 {
                    self.stage = stage + 1;
                    Ok(ZkDeployAction::Sleep { secs: 3 })
                } else if stage == 4 {
                    self.stage = 5;
                    let mut args: Vec<String> = Vec::new();
                    push_arg(&mut args, "tx");
                    push_arg(&mut args, "wasm");
                    push_arg(&mut args, "instantiate");
                    push_arg(&mut args, "1");
                    push_arg(&mut args, "{}");
                    push_arg(&mut args, "--from");
                    push_arg(&mut args, "validator");
                    push_arg(&mut args, "--label");
                    push_arg(&mut args, "zk-wasmvm-test");
                    push_arg(&mut args, "--no-admin");
                    with_tx_flags(&mut args);
                    assert(args.deep_view() =~= instantiate_args());
                    Ok(ZkDeployAction::ChainExec { args })
                } else if stage == 6 {
                    self.stage = 7;
                    let mut args: Vec<String> = Vec::new();
                    push_arg(&mut args, "query");
                    push_arg(&mut args, "wasm");
                    push_arg(&mut args, "list-contract-by-code");
                    push_arg(&mut args, "1");
                    push_arg(&mut args, "--output");
                    push_arg(&mut args, "json");
                    assert(args.deep_view() =~= query_args());
                    Ok(ZkDeployAction::ChainQuery { args })
                } else {
                    Err(ZkDeployError::UnexpectedEvent)
                }
            },
            ZkDeployEvent::Listing(listing) => {
                if stage != 7 {
                    return Err(ZkDeployError::UnexpectedEvent);
                }
                self.stage = 8;
                match listing {
                    Err(reason) => Err(ZkDeployError::ParseFailed(reason)),
                    Ok(json) => match listing_contract_address(&json) {
                        Some(address) => Ok(ZkDeployAction::Done { address }),
                        None => Err(ZkDeployError::NoContractAddress),
                    },
                }
            },
        }
    }
}

} // verus!
