//! The three operations on swaps, each as a step from the state before a
//! call to the state after it, and the functions that carry the steps out.

use crate::api::{canonical_of, human_of, AddressResolver, PairView};
use crate::encoding::bytes_equal;
use crate::error::{bytes_result, ContractError};
use crate::hashlock::{parse_hex_32, parsed_hash, preimage_digest, preimage_digest_of};
use crate::msg::{CreateMsg, CreateMsgView, HandleMsg, HandleMsgView, InitMsg};
use crate::state::{AtomicSwap, SwapRegistry, SwapView};
use crate::types::{
    coins_view, log, messages_view, BankMsg, Coin, CoinView, CosmosMsg, Env, EnvView,
    HandleResponse, InitResponse, LogView, ResponseView, TransferView,
};
use vstd::prelude::*;
use vstd::string::{StringExecFns, StringSliceAdditionalSpecFns};
use vstd::utf8::encode_utf8;

verus! {

/// The name under which the contract records itself.
pub const CONTRACT_NAME: &'static str = "crates.io:atomic-swap";

/// The version under which the contract records itself.
pub const CONTRACT_VERSION: &'static str = "v0.1.0";

/// The least number of bytes in a swap's id.
pub const MIN_ID_LENGTH: usize = 3;

/// The greatest number of bytes in a swap's id.
pub const MAX_ID_LENGTH: usize = 20;

/// The name and version of the contract that owns the stored state.
#[derive(Debug, PartialEq)]
pub struct ContractVersion {
    pub contract: String,
    pub version: String,
}

/// A `ContractVersion` as a mathematical value.
pub struct VersionView {
    pub contract: Seq<char>,
    pub version: Seq<char>,
}

impl View for ContractVersion {
    type V = VersionView;

    open spec fn view(&self) -> VersionView {
        VersionView { contract: self.contract@, version: self.version@ }
    }
}

impl Clone for ContractVersion {
    fn clone(&self) -> (copy: Self)
        ensures
            copy@ == self@,
    {
        ContractVersion { contract: self.contract.clone(), version: self.version.clone() }
    }
}

/// What the contract keeps between calls.
pub struct Storage {
    /// Which contract set the state up, once it has been set up.
    pub contract: Option<ContractVersion>,
    /// The live swaps.
    pub swaps: SwapRegistry,
}

/// What a call works on: the stored state and the addresses that resolve.
pub struct Deps {
    pub storage: Storage,
    pub api: AddressResolver,
}

/// A `Deps` as a mathematical value.
pub struct DepsView {
    pub contract: Option<VersionView>,
    pub swaps: Map<Seq<char>, SwapView>,
    pub api: Seq<PairView>,
}

impl View for Deps {
    type V = DepsView;

    open spec fn view(&self) -> DepsView {
        DepsView {
            contract: match self.storage.contract {
                Some(version) => Some(version@),
                None => None,
            },
            swaps: self.storage.swaps@,
            api: self.api@,
        }
    }
}

impl Deps {
    /// A contract that has not been set up, with no swap and no address.
    pub fn new() -> (deps: Deps)
        ensures
            deps@ == (DepsView {
                contract: None,
                swaps: Map::<Seq<char>, SwapView>::empty(),
                api: Seq::<PairView>::empty(),
            }),
    {
        Deps {
            storage: Storage { contract: None, swaps: SwapRegistry::new() },
            api: AddressResolver::new(),
        }
    }
}

/// The outcome of a step: the answer, or the failure.
pub type StepResult = Result<ResponseView, ContractError>;

/// The answer to a set-up call, as a mathematical value.
pub open spec fn init_result(r: Result<InitResponse, ContractError>) -> StepResult {
    match r {
        Ok(response) => Ok(response@),
        Err(e) => Err(e),
    }
}

/// The answer to a call on a swap, as a mathematical value.
pub open spec fn handle_result(r: Result<HandleResponse, ContractError>) -> StepResult {
    match r {
        Ok(response) => Ok(response@),
        Err(e) => Err(e),
    }
}

/// A log entry as a mathematical value.
pub open spec fn entry(key: Seq<char>, value: Seq<char>) -> LogView {
    LogView { key, value }
}

/// An id is valid if it is 3 to 20 bytes long in UTF-8.
pub open spec fn valid_id(id: Seq<char>) -> bool {
    MIN_ID_LENGTH <= encode_utf8(id).len() <= MAX_ID_LENGTH
}

/// The transfers that move `amount`: none if there is nothing to move, else one.
pub open spec fn transfer_messages(
    from: Seq<char>,
    to: Seq<char>,
    amount: Seq<CoinView>,
) -> Seq<TransferView> {
    if amount.len() == 0 {
        Seq::empty()
    } else {
        seq![TransferView { from_address: from, to_address: to, amount }]
    }
}

/// Setting the contract up records its name and version and answers with nothing.
pub open spec fn init_step(deps: DepsView) -> (DepsView, StepResult) {
    (
        DepsView {
            contract: Some(VersionView { contract: CONTRACT_NAME@, version: CONTRACT_VERSION@ }),
            ..deps
        },
        Ok(ResponseView { messages: Seq::empty(), log: Seq::empty(), data: None }),
    )
}

/// The swap that a request creates, or the first check that the request
/// fails: the length of the id, the funds, the form of the hash, the two
/// addresses, the deadline, and last whether the id is free.
pub open spec fn create_check(deps: DepsView, env: EnvView, msg: CreateMsgView) -> Result<
    SwapView,
    ContractError,
> {
    if !valid_id(msg.id) {
        Err(ContractError::InvalidIdLength)
    } else if env.sent_funds.len() == 0 {
        Err(ContractError::NoFundsAttached)
    } else if parsed_hash(msg.hash) is Err {
        Err(parsed_hash(msg.hash)->Err_0)
    } else if canonical_of(deps.api, msg.recipient) is None || canonical_of(
        deps.api,
        env.sender,
    ) is None {
        Err(ContractError::AddressResolutionFailed)
    } else {
        let swap = SwapView {
            hash: msg.hash,
            recipient: canonical_of(deps.api, msg.recipient)->0,
            source: canonical_of(deps.api, env.sender)->0,
            end_height: msg.end_height,
            end_time: msg.end_time,
            balance: env.sent_funds,
        };
        if swap.expired_at(env.height, env.time) {
            Err(ContractError::AlreadyExpiredAtCreation)
        } else if deps.swaps.contains_key(msg.id) {
            Err(ContractError::AlreadyExists)
        } else {
            Ok(swap)
        }
    }
}

/// The answer to a request that created a swap.
pub open spec fn create_response(msg: CreateMsgView) -> ResponseView {
    ResponseView {
        messages: Seq::empty(),
        log: seq![
            entry("action"@, "create"@),
            entry("id"@, msg.id),
            entry("hash"@, msg.hash),
            entry("recipient"@, msg.recipient),
        ],
        data: None,
    }
}

/// Creating a swap: if every check passes, the swap is stored under its id;
/// otherwise nothing changes.
pub open spec fn create_step(deps: DepsView, env: EnvView, msg: CreateMsgView) -> (
    DepsView,
    StepResult,
) {
    match create_check(deps, env, msg) {
        Ok(swap) => (
            DepsView { swaps: deps.swaps.insert(msg.id, swap), ..deps },
            Ok(create_response(msg)),
        ),
        Err(e) => (deps, Err(e)),
    }
}

/// The human address of the recipient that a release pays, or the first
/// check that the release fails: that the swap is live, that it is not
/// expired, that its hash lock is well formed, that the preimage has a
/// digest, that the digest is the lock, and that the recipient resolves.
pub open spec fn release_check(
    deps: DepsView,
    env: EnvView,
    id: Seq<char>,
    digest: Result<Seq<u8>, ContractError>,
) -> Result<Seq<char>, ContractError> {
    if !deps.swaps.contains_key(id) {
        Err(ContractError::NotFound)
    } else if deps.swaps[id].expired_at(env.height, env.time) {
        Err(ContractError::Expired)
    } else if parsed_hash(deps.swaps[id].hash) is Err {
        Err(parsed_hash(deps.swaps[id].hash)->Err_0)
    } else if digest is Err {
        Err(digest->Err_0)
    } else if digest->Ok_0 != parsed_hash(deps.swaps[id].hash)->Ok_0 {
        Err(ContractError::InvalidPreimage)
    } else if human_of(deps.api, deps.swaps[id].recipient) is None {
        Err(ContractError::AddressResolutionFailed)
    } else {
        Ok(human_of(deps.api, deps.swaps[id].recipient)->0)
    }
}

/// The answer to a release: a transfer of the swap's whole balance from the
/// contract to the recipient.
pub open spec fn release_response(
    env: EnvView,
    id: Seq<char>,
    preimage: Seq<char>,
    recipient: Seq<char>,
    balance: Seq<CoinView>,
) -> ResponseView {
    ResponseView {
        messages: transfer_messages(env.contract, recipient, balance),
        log: seq![
            entry("action"@, "release"@),
            entry("id"@, id),
            entry("preimage"@, preimage),
            entry("to"@, recipient),
        ],
        data: None,
    }
}

/// Releasing a swap, given the digest of the preimage: if every check
/// passes, the swap is gone and its balance goes to the recipient;
/// otherwise nothing changes.
pub open spec fn release_step_with(
    deps: DepsView,
    env: EnvView,
    id: Seq<char>,
    preimage: Seq<char>,
    digest: Result<Seq<u8>, ContractError>,
) -> (DepsView, StepResult) {
    match release_check(deps, env, id, digest) {
        Ok(recipient) => (
            DepsView { swaps: deps.swaps.remove(id), ..deps },
            Ok(release_response(env, id, preimage, recipient, deps.swaps[id].balance)),
        ),
        Err(e) => (deps, Err(e)),
    }
}

/// Releasing a swap on a hexadecimal preimage.
pub open spec fn release_step(
    deps: DepsView,
    env: EnvView,
    id: Seq<char>,
    preimage: Seq<char>,
) -> (DepsView, StepResult) {
    release_step_with(deps, env, id, preimage, preimage_digest_of(preimage))
}

/// The human address of the source that a refund pays, or the first check
/// that the refund fails: that the swap is live, that it is expired, and
/// that the source resolves.
pub open spec fn refund_check(deps: DepsView, env: EnvView, id: Seq<char>) -> Result<
    Seq<char>,
    ContractError,
> {
    if !deps.swaps.contains_key(id) {
        Err(ContractError::NotFound)
    } else if !deps.swaps[id].expired_at(env.height, env.time) {
        Err(ContractError::NotYetExpired)
    } else if human_of(deps.api, deps.swaps[id].source) is None {
        Err(ContractError::AddressResolutionFailed)
    } else {
        Ok(human_of(deps.api, deps.swaps[id].source)->0)
    }
}

/// The answer to a refund: a transfer of the funds attached to the call
/// from the contract to the source.
pub open spec fn refund_response(env: EnvView, id: Seq<char>, source: Seq<char>) -> ResponseView {
    ResponseView {
        messages: transfer_messages(env.contract, source, env.sent_funds),
        log: seq![entry("action"@, "refund"@), entry("id"@, id), entry("to"@, source)],
        data: None,
    }
}

/// Refunding a swap: if every check passes, the swap is gone and the funds
/// attached to the call go to the source; otherwise nothing changes.
pub open spec fn refund_step(deps: DepsView, env: EnvView, id: Seq<char>) -> (
    DepsView,
    StepResult,
) {
    match refund_check(deps, env, id) {
        Ok(source) => (
            DepsView { swaps: deps.swaps.remove(id), ..deps },
            Ok(refund_response(env, id, source)),
        ),
        Err(e) => (deps, Err(e)),
    }
}

/// The step that a request asks for.
pub open spec fn handle_step(deps: DepsView, env: EnvView, msg: HandleMsgView) -> (
    DepsView,
    StepResult,
) {
    match msg {
        HandleMsgView::Create(msg) => create_step(deps, env, msg),
        HandleMsgView::Release { id, preimage } => release_step(deps, env, id, preimage),
        HandleMsgView::Refund { id } => refund_step(deps, env, id),
    }
}

/// Sets the contract up.
pub fn init(deps: &mut Deps, _env: Env, _msg: InitMsg) -> (r: Result<InitResponse, ContractError>)
    ensures
        final(deps)@ == init_step(old(deps)@).0,
        init_result(r) == init_step(old(deps)@).1,
{
    let version = ContractVersion {
        contract: String::from_str(CONTRACT_NAME),
        version: String::from_str(CONTRACT_VERSION),
    };
    deps.storage.contract = Some(version);
    let response = InitResponse { messages: Vec::new(), log: Vec::new() };
    assert(response@.messages =~= Seq::empty());
    assert(response@.log =~= Seq::empty());
    Ok(response)
}

/// Carries out the step that a request asks for.
pub fn handle(deps: &mut Deps, env: Env, msg: HandleMsg) -> (r: Result<
    HandleResponse,
    ContractError,
>)
    ensures
        final(deps)@ == handle_step(old(deps)@, env@, msg@).0,
        handle_result(r) == handle_step(old(deps)@, env@, msg@).1,
{
    match msg {
        HandleMsg::Create(msg) => try_create(deps, env, msg),
        HandleMsg::Release { id, preimage } => try_release(deps, env, id, preimage),
        HandleMsg::Refund { id } => try_refund(deps, env, id),
    }
}

/// Creates a swap that holds the funds attached to the call.
pub fn try_create(deps: &mut Deps, env: Env, msg: CreateMsg) -> (r: Result<
    HandleResponse,
    ContractError,
>)
    ensures
        final(deps)@ == create_step(old(deps)@, env@, msg@).0,
        handle_result(r) == create_step(old(deps)@, env@, msg@).1,
{
    let id_length: usize = msg.id.as_str().as_bytes().len();
    if id_length < MIN_ID_LENGTH || id_length > MAX_ID_LENGTH {
        return Err(ContractError::InvalidIdLength);
    }
    assert(env@.sent_funds.len() == env.message.sent_funds@.len());
    if env.message.sent_funds.len() == 0 {
        return Err(ContractError::NoFundsAttached);
    }
    // The hash lock must be 32 bytes in hexadecimal.
    match parse_hex_32(msg.hash.as_str()) {
        Ok(_) => {},
        Err(e) => {
            return Err(e);
        },
    }
    let recipient_raw = match deps.api.canonical_address(&msg.recipient) {
        Ok(raw) => raw,
        Err(e) => {
            return Err(e);
        },
    };
    let source_raw = match deps.api.canonical_address(&env.message.sender) {
        Ok(raw) => raw,
        Err(e) => {
            return Err(e);
        },
    };
    let swap = AtomicSwap {
        hash: msg.hash.clone(),
        recipient: recipient_raw,
        source: source_raw,
        end_height: msg.end_height,
        end_time: msg.end_time,
        balance: env.message.sent_funds.clone(),
    };
    assert(swap@.balance =~= env@.sent_funds);
    if swap.is_expired(&env) {
        return Err(ContractError::AlreadyExpiredAtCreation);
    }
    // A swap that is live is never written over.
    if deps.storage.swaps.may_load(msg.id.as_str()).is_some() {
        return Err(ContractError::AlreadyExists);
    }
    deps.storage.swaps.save(msg.id.clone(), swap);

    let response = HandleResponse {
        messages: Vec::new(),
        log: vec![
            log("action", "create"),
            log("id", msg.id.as_str()),
            log("hash", msg.hash.as_str()),
            log("recipient", msg.recipient.as_str()),
        ],
        data: None,
    };
    assert(response@.messages =~= create_response(msg@).messages);
    assert(response@.log =~= create_response(msg@).log);
    Ok(response)
}

/// Releases a swap to its recipient on the preimage of its hash lock.
/// Anyone may call: to know the preimage is to be entitled.
pub fn try_release(deps: &mut Deps, env: Env, id: String, preimage: String) -> (r: Result<
    HandleResponse,
    ContractError,
>)
    ensures
        final(deps)@ == release_step(old(deps)@, env@, id@, preimage@).0,
        handle_result(r) == release_step(old(deps)@, env@, id@, preimage@).1,
{
    let digest = preimage_digest(preimage.as_str());
    release_with_digest(deps, env, id, preimage, digest)
}

/// Releases a swap, given what digesting the preimage gave.
pub fn release_with_digest(
    deps: &mut Deps,
    env: Env,
    id: String,
    preimage: String,
    digest: Result<Vec<u8>, ContractError>,
) -> (r: Result<HandleResponse, ContractError>)
    ensures
        final(deps)@ == release_step_with(
            old(deps)@,
            env@,
            id@,
            preimage@,
            bytes_result(digest),
        ).0,
        handle_result(r) == release_step_with(
            old(deps)@,
            env@,
            id@,
            preimage@,
            bytes_result(digest),
        ).1,
{
    let swap = match deps.storage.swaps.may_load(id.as_str()) {
        Some(swap) => swap,
        None => {
            return Err(ContractError::NotFound);
        },
    };
    if swap.is_expired(&env) {
        return Err(ContractError::Expired);
    }
    let expected = match parse_hex_32(swap.hash.as_str()) {
        Ok(expected) => expected,
        Err(e) => {
            return Err(e);
        },
    };
    let hash = match digest {
        Ok(hash) => hash,
        Err(e) => {
            return Err(e);
        },
    };
    if !bytes_equal(hash.as_slice(), expected.as_slice()) {
        return Err(ContractError::InvalidPreimage);
    }
    let rcpt = match deps.api.human_address(&swap.recipient) {
        Ok(rcpt) => rcpt,
        Err(e) => {
            return Err(e);
        },
    };
    let balance = swap.balance.clone();
    assert(coins_view(balance@) =~= swap@.balance);

    // The swap is deleted, and all its tokens are sent out.
    deps.storage.swaps.remove(id.as_str());
    let msgs = send_native_tokens(&env.contract.address, &rcpt, balance);
    let response = HandleResponse {
        messages: msgs,
        log: vec![
            log("action", "release"),
            log("id", id.as_str()),
            log("preimage", preimage.as_str()),
            log("to", rcpt.as_str()),
        ],
        data: None,
    };
    assert(response@.log =~= release_response(
        env@,
        id@,
        preimage@,
        rcpt@,
        old(deps)@.swaps[id@].balance,
    ).log);
    Ok(response)
}

/// Sends the funds attached to the call to the source of an expired swap.
/// Anyone may call, once the swap is expired.
pub fn try_refund(deps: &mut Deps, env: Env, id: String) -> (r: Result<
    HandleResponse,
    ContractError,
>)
    ensures
        final(deps)@ == refund_step(old(deps)@, env@, id@).0,
        handle_result(r) == refund_step(old(deps)@, env@, id@).1,
{
    let swap = match deps.storage.swaps.may_load(id.as_str()) {
        Some(swap) => swap,
        None => {
            return Err(ContractError::NotFound);
        },
    };
    if !swap.is_expired(&env) {
        return Err(ContractError::NotYetExpired);
    }
    let rcpt = match deps.api.human_address(&swap.source) {
        Ok(rcpt) => rcpt,
        Err(e) => {
            return Err(e);
        },
    };

    // The swap is deleted.
    deps.storage.swaps.remove(id.as_str());
    let Env { block: _, message, contract } = env;
    let msgs = send_native_tokens(&contract.address, &rcpt, message.sent_funds);
    let response = HandleResponse {
        messages: msgs,
        log: vec![log("action", "refund"), log("id", id.as_str()), log("to", rcpt.as_str())],
        data: None,
    };
    assert(response@.log =~= refund_response(env@, id@, rcpt@).log);
    Ok(response)
}

/// The instruction that moves `amount` from `from` to `to`: none if
/// `amount` is empty.
pub fn send_native_tokens(from: &String, to: &String, amount: Vec<Coin>) -> (messages: Vec<
    CosmosMsg,
>)
    ensures
        messages_view(messages@) == transfer_messages(from@, to@, coins_view(amount@)),
{
    if amount.len() == 0 {
        let messages: Vec<CosmosMsg> = Vec::new();
        assert(messages_view(messages@) =~= transfer_messages(from@, to@, coins_view(amount@)));
        messages
    } else {
        let messages = vec![
            CosmosMsg::Bank(
                BankMsg::Send { from_address: from.clone(), to_address: to.clone(), amount },
            ),
        ];
        assert(messages_view(messages@) =~= transfer_messages(from@, to@, coins_view(amount@)));
        messages
    }
}

} // verus!
