//! What holds of the operations, whatever the state and the request.

use crate::api::{canonical_of, human_of};
use crate::contract::{
    create_check, create_step, handle_step, refund_step, release_step, transfer_messages,
    valid_id, DepsView,
};
use crate::encoding::hex_decoded;
use crate::error::ContractError;
use crate::hashlock::{parsed_hash, preimage_digest_of, sha256_of};
use crate::msg::{CreateMsgView, HandleMsgView};
use crate::state::SwapView;
use crate::types::{EnvView, ResponseView, TransferView};
use vstd::prelude::*;
use vstd::utf8::encode_utf8;

verus! {

/// Every live swap is as a creation leaves it: its id is 3 to 20 bytes long,
/// its hash lock is 32 bytes in hexadecimal, and it holds funds.
pub open spec fn swaps_well_formed(swaps: Map<Seq<char>, SwapView>) -> bool {
    forall|id: Seq<char>| #[trigger]
        swaps.contains_key(id) ==> valid_id(id) && parsed_hash(swaps[id].hash) is Ok
            && swaps[id].balance.len() > 0
}

/// A swap with a height deadline alone is expired exactly from that height
/// on, and a swap with a time deadline alone exactly from that time on. A
/// swap with neither never expires.
pub proof fn expiration_boundary(swap: SwapView, height: u64, time: u64)
    ensures
        swap.end_height != 0 && swap.end_time == 0 ==> (swap.expired_at(height, time)
            <==> height >= swap.end_height),
        swap.end_time != 0 && swap.end_height == 0 ==> (swap.expired_at(height, time) <==> time
            >= swap.end_time),
        swap.end_height == 0 && swap.end_time == 0 ==> !swap.expired_at(height, time),
        swap.expired_at(height, time) <==> (swap.end_height != 0 && height >= swap.end_height)
            || (swap.end_time != 0 && time >= swap.end_time),
{
}

/// A swap that is expired stays expired in every later block.
pub proof fn expiration_is_permanent(
    swap: SwapView,
    height: u64,
    time: u64,
    later_height: u64,
    later_time: u64,
)
    requires
        swap.expired_at(height, time),
        height <= later_height,
        time <= later_time,
    ensures
        swap.expired_at(later_height, later_time),
{
}

/// No creation writes over a live swap: a request under the id of a live
/// swap fails and changes nothing, and where the request would have created
/// a swap had the id been free, the failure is `AlreadyExists`.
pub proof fn create_never_overwrites(deps: DepsView, env: EnvView, msg: CreateMsgView)
    requires
        deps.swaps.contains_key(msg.id),
    ensures
        create_step(deps, env, msg).1 is Err,
        create_step(deps, env, msg).0 == deps,
        create_check(DepsView { swaps: deps.swaps.remove(msg.id), ..deps }, env, msg) is Ok
            ==> create_step(deps, env, msg).1 == Err::<ResponseView, ContractError>(
            ContractError::AlreadyExists,
        ),
{
}

/// A creation succeeds exactly when the id is 3 to 20 bytes long, funds are
/// attached, the hash is 32 bytes in hexadecimal, the recipient and the
/// sender resolve, the deadline has not passed, and the id is free.
pub proof fn create_succeeds_iff(deps: DepsView, env: EnvView, msg: CreateMsgView)
    ensures
        create_step(deps, env, msg).1 is Ok <==> {
            &&& valid_id(msg.id)
            &&& env.sent_funds.len() > 0
            &&& parsed_hash(msg.hash) is Ok
            &&& canonical_of(deps.api, msg.recipient) is Some
            &&& canonical_of(deps.api, env.sender) is Some
            &&& !((msg.end_height != 0 && env.height >= msg.end_height) || (msg.end_time != 0
                && env.time >= msg.end_time))
            &&& !deps.swaps.contains_key(msg.id)
        },
{
}

/// The checks of a creation come in a fixed order, and the first that fails
/// decides: the length of the id, then the funds, then the form of the
/// hash, then the addresses, then the deadline, then the id's being free.
pub proof fn create_checks_in_order(deps: DepsView, env: EnvView, msg: CreateMsgView)
    ensures
        !valid_id(msg.id) ==> create_check(deps, env, msg) == Err::<SwapView, ContractError>(
            ContractError::InvalidIdLength,
        ),
        valid_id(msg.id) && env.sent_funds.len() == 0 ==> create_check(deps, env, msg) == Err::<
            SwapView,
            ContractError,
        >(ContractError::NoFundsAttached),
        valid_id(msg.id) && env.sent_funds.len() > 0 && parsed_hash(msg.hash) is Err
            ==> create_check(deps, env, msg) == Err::<SwapView, ContractError>(
            parsed_hash(msg.hash)->Err_0,
        ),
        valid_id(msg.id) && env.sent_funds.len() > 0 && parsed_hash(msg.hash) is Ok && (
        canonical_of(deps.api, msg.recipient) is None || canonical_of(deps.api, env.sender)
            is None) ==> create_check(deps, env, msg) == Err::<SwapView, ContractError>(
            ContractError::AddressResolutionFailed,
        ),
        valid_id(msg.id) && env.sent_funds.len() > 0 && parsed_hash(msg.hash) is Ok
            && canonical_of(deps.api, msg.recipient) is Some && canonical_of(
            deps.api,
            env.sender,
        ) is Some && ((msg.end_height != 0 && env.height >= msg.end_height) || (msg.end_time
            != 0 && env.time >= msg.end_time)) ==> create_check(deps, env, msg) == Err::<
            SwapView,
            ContractError,
        >(ContractError::AlreadyExpiredAtCreation),
        valid_id(msg.id) && env.sent_funds.len() > 0 && parsed_hash(msg.hash) is Ok
            && canonical_of(deps.api, msg.recipient) is Some && canonical_of(
            deps.api,
            env.sender,
        ) is Some && !((msg.end_height != 0 && env.height >= msg.end_height) || (msg.end_time
            != 0 && env.time >= msg.end_time)) && deps.swaps.contains_key(msg.id)
            ==> create_check(deps, env, msg) == Err::<SwapView, ContractError>(
            ContractError::AlreadyExists,
        ),
{
}

/// A creation that succeeds stores the terms as they were asked for, with
/// the attached funds as the balance, and moves no funds.
pub proof fn create_stores_the_terms(deps: DepsView, env: EnvView, msg: CreateMsgView)
    requires
        create_step(deps, env, msg).1 is Ok,
    ensures
        !deps.swaps.contains_key(msg.id),
        create_step(deps, env, msg).0.swaps.contains_key(msg.id),
        create_step(deps, env, msg).0.swaps[msg.id].hash == msg.hash,
        create_step(deps, env, msg).0.swaps[msg.id].end_height == msg.end_height,
        create_step(deps, env, msg).0.swaps[msg.id].end_time == msg.end_time,
        create_step(deps, env, msg).0.swaps[msg.id].balance == env.sent_funds,
        create_step(deps, env, msg).1->Ok_0.messages.len() == 0,
{
}

/// A release succeeds exactly when a live swap that is not expired is under
/// the id, the preimage is hexadecimal, its digest is the swap's hash lock,
/// and the recipient's address resolves.
pub proof fn release_succeeds_iff(
    deps: DepsView,
    env: EnvView,
    id: Seq<char>,
    preimage: Seq<char>,
)
    ensures
        release_step(deps, env, id, preimage).1 is Ok <==> {
            &&& deps.swaps.contains_key(id)
            &&& !deps.swaps[id].expired_at(env.height, env.time)
            &&& hex_decoded(encode_utf8(preimage)) is Ok
            &&& parsed_hash(deps.swaps[id].hash) == Ok::<Seq<u8>, ContractError>(
                sha256_of(hex_decoded(encode_utf8(preimage))->Ok_0),
            )
            &&& human_of(deps.api, deps.swaps[id].recipient) is Some
        },
{
}

/// A release that succeeds deletes the swap and nothing else, and orders
/// one transfer of the swap's whole balance from the contract to the
/// recipient.
pub proof fn release_pays_the_recipient(
    deps: DepsView,
    env: EnvView,
    id: Seq<char>,
    preimage: Seq<char>,
)
    requires
        release_step(deps, env, id, preimage).1 is Ok,
        deps.swaps[id].balance.len() > 0,
    ensures
        release_step(deps, env, id, preimage).0 == (DepsView {
            swaps: deps.swaps.remove(id),
            ..deps
        }),
        release_step(deps, env, id, preimage).1->Ok_0.messages == seq![
            TransferView {
                from_address: env.contract,
                to_address: human_of(deps.api, deps.swaps[id].recipient)->0,
                amount: deps.swaps[id].balance,
            },
        ],
{
}

/// A refund succeeds exactly when a live swap that is expired is under the
/// id and the source's address resolves.
pub proof fn refund_succeeds_iff(deps: DepsView, env: EnvView, id: Seq<char>)
    ensures
        refund_step(deps, env, id).1 is Ok <==> {
            &&& deps.swaps.contains_key(id)
            &&& deps.swaps[id].expired_at(env.height, env.time)
            &&& human_of(deps.api, deps.swaps[id].source) is Some
        },
{
}

/// A refund that succeeds deletes the swap and nothing else, and orders the
/// funds attached to the call to be sent from the contract to the source:
/// in one transfer, where funds are attached.
pub proof fn refund_pays_the_source(deps: DepsView, env: EnvView, id: Seq<char>)
    requires
        refund_step(deps, env, id).1 is Ok,
    ensures
        refund_step(deps, env, id).0 == (DepsView { swaps: deps.swaps.remove(id), ..deps }),
        refund_step(deps, env, id).1->Ok_0.messages == transfer_messages(
            env.contract,
            human_of(deps.api, deps.swaps[id].source)->0,
            env.sent_funds,
        ),
        env.sent_funds.len() > 0 ==> refund_step(deps, env, id).1->Ok_0.messages == seq![
            TransferView {
                from_address: env.contract,
                to_address: human_of(deps.api, deps.swaps[id].source)->0,
                amount: env.sent_funds,
            },
        ],
{
}

/// What is escrowed is what is released: after a creation, the preimage of
/// the hash lock releases, before the deadline, exactly the funds that were
/// attached to the creation, to the recipient that was named.
pub proof fn release_after_create(
    deps: DepsView,
    env: EnvView,
    msg: CreateMsgView,
    later_env: EnvView,
    preimage: Seq<char>,
)
    requires
        create_step(deps, env, msg).1 is Ok,
        hex_decoded(encode_utf8(preimage)) is Ok,
        parsed_hash(msg.hash) == Ok::<Seq<u8>, ContractError>(
            sha256_of(hex_decoded(encode_utf8(preimage))->Ok_0),
        ),
        !((msg.end_height != 0 && later_env.height >= msg.end_height) || (msg.end_time != 0
            && later_env.time >= msg.end_time)),
        human_of(deps.api, canonical_of(deps.api, msg.recipient)->0) is Some,
    ensures
        ({
            let created = create_step(deps, env, msg).0;
            let released = release_step(created, later_env, msg.id, preimage);
            &&& released.1 is Ok
            &&& released.1->Ok_0.messages == seq![
                TransferView {
                    from_address: later_env.contract,
                    to_address: human_of(deps.api, canonical_of(deps.api, msg.recipient)->0)->0,
                    amount: env.sent_funds,
                },
            ]
            &&& released.0 == deps
        }),
{
    let created = create_step(deps, env, msg).0;
    assert(created.swaps.remove(msg.id) =~= deps.swaps);
}

/// After a creation, from the deadline on, anyone can have the swap
/// refunded, and the preimage releases it no more.
pub proof fn refund_after_create(
    deps: DepsView,
    env: EnvView,
    msg: CreateMsgView,
    later_env: EnvView,
    preimage: Seq<char>,
)
    requires
        create_step(deps, env, msg).1 is Ok,
        (msg.end_height != 0 && later_env.height >= msg.end_height) || (msg.end_time != 0
            && later_env.time >= msg.end_time),
        human_of(deps.api, canonical_of(deps.api, env.sender)->0) is Some,
    ensures
        ({
            let created = create_step(deps, env, msg).0;
            let refunded = refund_step(created, later_env, msg.id);
            &&& refunded.1 is Ok
            &&& refunded.1->Ok_0.messages == transfer_messages(
                later_env.contract,
                human_of(deps.api, canonical_of(deps.api, env.sender)->0)->0,
                later_env.sent_funds,
            )
            &&& refunded.0 == deps
            &&& release_step(created, later_env, msg.id, preimage) == (
                created,
                Err::<ResponseView, ContractError>(ContractError::Expired),
            )
        }),
{
    let created = create_step(deps, env, msg).0;
    assert(created.swaps.remove(msg.id) =~= deps.swaps);
}

/// In one block a swap can be released or refunded, never both.
pub proof fn release_and_refund_exclude_each_other(
    deps: DepsView,
    env: EnvView,
    id: Seq<char>,
    preimage: Seq<char>,
)
    ensures
        !(release_step(deps, env, id, preimage).1 is Ok && refund_step(deps, env, id).1 is Ok),
{
}

/// Once a swap is released or refunded it is gone: every later release or
/// refund under its id fails with `NotFound`, whatever the block, the
/// caller and the preimage.
pub proof fn resolution_is_final(
    deps: DepsView,
    env: EnvView,
    msg: HandleMsgView,
    later_env: EnvView,
    later_preimage: Seq<char>,
)
    requires
        msg is Release || msg is Refund,
        handle_step(deps, env, msg).1 is Ok,
    ensures
        ({
            let id = match msg {
                HandleMsgView::Release { id, preimage } => id,
                HandleMsgView::Refund { id } => id,
                HandleMsgView::Create(msg) => msg.id,
            };
            let after = handle_step(deps, env, msg).0;
            &&& !after.swaps.contains_key(id)
            &&& release_step(after, later_env, id, later_preimage) == (
                after,
                Err::<ResponseView, ContractError>(ContractError::NotFound),
            )
            &&& refund_step(after, later_env, id) == (
                after,
                Err::<ResponseView, ContractError>(ContractError::NotFound),
            )
        }),
{
}

/// A step that fails changes nothing.
pub proof fn failure_changes_nothing(deps: DepsView, env: EnvView, msg: HandleMsgView)
    requires
        handle_step(deps, env, msg).1 is Err,
    ensures
        handle_step(deps, env, msg).0 == deps,
{
}

/// The terms of a swap are frozen: a swap that is live before and after a
/// step is the same after it as before. A step adds or deletes at most the
/// swap under the id that it names, and touches neither the addresses nor
/// the recorded version.
pub proof fn terms_are_frozen(deps: DepsView, env: EnvView, msg: HandleMsgView, id: Seq<char>)
    ensures
        ({
            let after = handle_step(deps, env, msg).0;
            let named = match msg {
                HandleMsgView::Release { id, preimage } => id,
                HandleMsgView::Refund { id } => id,
                HandleMsgView::Create(msg) => msg.id,
            };
            &&& after.api == deps.api
            &&& after.contract == deps.contract
            &&& deps.swaps.contains_key(id) && after.swaps.contains_key(id) ==> after.swaps[id]
                == deps.swaps[id]
            &&& id != named ==> (after.swaps.contains_key(id) <==> deps.swaps.contains_key(id))
        }),
{
}

/// Steps keep the live swaps well formed.
pub proof fn steps_keep_swaps_well_formed(deps: DepsView, env: EnvView, msg: HandleMsgView)
    requires
        swaps_well_formed(deps.swaps),
    ensures
        swaps_well_formed(handle_step(deps, env, msg).0.swaps),
{
}

/// Among well-formed swaps whose addresses resolve, a release succeeds
/// exactly when the swap is live and not expired and the digest of the
/// preimage is its hash lock.
pub proof fn release_of_well_formed_swap(
    deps: DepsView,
    env: EnvView,
    id: Seq<char>,
    preimage: Seq<char>,
)
    requires
        swaps_well_formed(deps.swaps),
        deps.swaps.contains_key(id) ==> human_of(deps.api, deps.swaps[id].recipient) is Some,
    ensures
        release_step(deps, env, id, preimage).1 is Ok <==> {
            &&& deps.swaps.contains_key(id)
            &&& !deps.swaps[id].expired_at(env.height, env.time)
            &&& preimage_digest_of(preimage) == parsed_hash(deps.swaps[id].hash)
        },
        release_step(deps, env, id, preimage).1 is Ok ==> release_step(
            deps,
            env,
            id,
            preimage,
        ).1->Ok_0.messages.len() == 1,
{
}

} // verus!
