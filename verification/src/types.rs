//! The values that pass between the host and the contract: funds, the
//! context of a call, and what a call answers.

use crate::encoding::copy_bytes;
use vstd::prelude::*;

verus! {

/// An amount of one denomination.
#[derive(Debug, PartialEq)]
pub struct Coin {
    pub denom: String,
    pub amount: u128,
}

/// A `Coin` as a mathematical value.
pub struct CoinView {
    pub denom: Seq<char>,
    pub amount: u128,
}

impl View for Coin {
    type V = CoinView;

    open spec fn view(&self) -> CoinView {
        CoinView { denom: self.denom@, amount: self.amount }
    }
}

impl Clone for Coin {
    fn clone(&self) -> (copy: Self)
        ensures
            copy@ == self@,
    {
        Coin { denom: self.denom.clone(), amount: self.amount }
    }
}

/// A list of coins as a sequence of mathematical values.
pub open spec fn coins_view(coins: Seq<Coin>) -> Seq<CoinView> {
    coins.map_values(|c: Coin| c@)
}

/// A list with the same coins, in the same order.
pub fn copy_coins(coins: &Vec<Coin>) -> (copy: Vec<Coin>)
    ensures
        coins_view(copy@) == coins_view(coins@),
{
    let copy = coins.clone();
    assert(coins_view(copy@) =~= coins_view(coins@));
    copy
}

/// The block in which a call runs.
#[derive(Clone, Copy, Debug, PartialEq)]
pub struct BlockInfo {
    pub height: u64,
    pub time: u64,
}

/// Who calls, and with what funds.
#[derive(Debug, PartialEq)]
pub struct MessageInfo {
    pub sender: String,
    pub sent_funds: Vec<Coin>,
}

impl Clone for MessageInfo {
    fn clone(&self) -> (copy: Self)
        ensures
            copy.sender@ == self.sender@,
            coins_view(copy.sent_funds@) == coins_view(self.sent_funds@),
    {
        MessageInfo { sender: self.sender.clone(), sent_funds: copy_coins(&self.sent_funds) }
    }
}

/// The contract that is called.
#[derive(Debug, PartialEq)]
pub struct ContractInfo {
    pub address: String,
}

impl Clone for ContractInfo {
    fn clone(&self) -> (copy: Self)
        ensures
            copy.address@ == self.address@,
    {
        ContractInfo { address: self.address.clone() }
    }
}

/// What the host tells the contract about one call.
#[derive(Debug, PartialEq)]
pub struct Env {
    pub block: BlockInfo,
    pub message: MessageInfo,
    pub contract: ContractInfo,
}

/// An `Env` as a mathematical value.
pub struct EnvView {
    pub height: u64,
    pub time: u64,
    pub sender: Seq<char>,
    pub sent_funds: Seq<CoinView>,
    pub contract: Seq<char>,
}

impl View for Env {
    type V = EnvView;

    open spec fn view(&self) -> EnvView {
        EnvView {
            height: self.block.height,
            time: self.block.time,
            sender: self.message.sender@,
            sent_funds: coins_view(self.message.sent_funds@),
            contract: self.contract.address@,
        }
    }
}

impl Clone for Env {
    fn clone(&self) -> (copy: Self)
        ensures
            copy@ == self@,
    {
        Env {
            block: BlockInfo { height: self.block.height, time: self.block.time },
            message: self.message.clone(),
            contract: self.contract.clone(),
        }
    }
}

/// One entry of a call's log.
#[derive(Debug, PartialEq)]
pub struct LogAttribute {
    pub key: String,
    pub value: String,
}

/// A `LogAttribute` as a mathematical value.
pub struct LogView {
    pub key: Seq<char>,
    pub value: Seq<char>,
}

impl View for LogAttribute {
    type V = LogView;

    open spec fn view(&self) -> LogView {
        LogView { key: self.key@, value: self.value@ }
    }
}

impl Clone for LogAttribute {
    fn clone(&self) -> (copy: Self)
        ensures
            copy@ == self@,
    {
        LogAttribute { key: self.key.clone(), value: self.value.clone() }
    }
}

/// A log as a sequence of mathematical values.
pub open spec fn log_view(log: Seq<LogAttribute>) -> Seq<LogView> {
    log.map_values(|entry: LogAttribute| entry@)
}

/// The log entry with this key and this value.
pub fn log(key: &str, value: &str) -> (entry: LogAttribute)
    ensures
        entry@ == (LogView { key: key@, value: value@ }),
{
    LogAttribute { key: key.to_owned(), value: value.to_owned() }
}

/// An instruction to the bank.
#[derive(Debug, PartialEq)]
pub enum BankMsg {
    /// Move `amount` from one address to another.
    Send { from_address: String, to_address: String, amount: Vec<Coin> },
}

/// An instruction that the host carries out together with the state change.
#[derive(Debug, PartialEq)]
pub enum CosmosMsg {
    Bank(BankMsg),
}

/// A transfer of funds as a mathematical value.
pub struct TransferView {
    pub from_address: Seq<char>,
    pub to_address: Seq<char>,
    pub amount: Seq<CoinView>,
}

impl View for BankMsg {
    type V = TransferView;

    open spec fn view(&self) -> TransferView {
        match *self {
            BankMsg::Send { from_address, to_address, amount } => TransferView {
                from_address: from_address@,
                to_address: to_address@,
                amount: coins_view(amount@),
            },
        }
    }
}

impl View for CosmosMsg {
    type V = TransferView;

    open spec fn view(&self) -> TransferView {
        match *self {
            CosmosMsg::Bank(msg) => msg@,
        }
    }
}

impl Clone for BankMsg {
    fn clone(&self) -> (copy: Self)
        ensures
            copy@ == self@,
    {
        match self {
            BankMsg::Send { from_address, to_address, amount } => BankMsg::Send {
                from_address: from_address.clone(),
                to_address: to_address.clone(),
                amount: copy_coins(amount),
            },
        }
    }
}

impl Clone for CosmosMsg {
    fn clone(&self) -> (copy: Self)
        ensures
            copy@ == self@,
    {
        match self {
            CosmosMsg::Bank(msg) => CosmosMsg::Bank(msg.clone()),
        }
    }
}

/// A list of instructions as a sequence of mathematical values.
pub open spec fn messages_view(messages: Seq<CosmosMsg>) -> Seq<TransferView> {
    messages.map_values(|m: CosmosMsg| m@)
}

/// The answer to a call that sets the contract up.
#[derive(Debug, PartialEq)]
pub struct InitResponse {
    pub messages: Vec<CosmosMsg>,
    pub log: Vec<LogAttribute>,
}

/// The answer to a call that creates, releases or refunds a swap.
#[derive(Debug, PartialEq)]
pub struct HandleResponse {
    pub messages: Vec<CosmosMsg>,
    pub log: Vec<LogAttribute>,
    pub data: Option<Vec<u8>>,
}

/// An answer as a mathematical value: the transfers to carry out, the log,
/// and the data handed back to the caller.
pub struct ResponseView {
    pub messages: Seq<TransferView>,
    pub log: Seq<LogView>,
    pub data: Option<Seq<u8>>,
}

impl View for InitResponse {
    type V = ResponseView;

    open spec fn view(&self) -> ResponseView {
        ResponseView {
            messages: messages_view(self.messages@),
            log: log_view(self.log@),
            data: None,
        }
    }
}

impl View for HandleResponse {
    type V = ResponseView;

    open spec fn view(&self) -> ResponseView {
        ResponseView {
            messages: messages_view(self.messages@),
            log: log_view(self.log@),
            data: match self.data {
                Some(data) => Some(data@),
                None => None,
            },
        }
    }
}

impl Clone for InitResponse {
    fn clone(&self) -> (copy: Self)
        ensures
            copy@ == self@,
    {
        let copy = InitResponse { messages: self.messages.clone(), log: self.log.clone() };
        assert(copy@.messages =~= self@.messages);
        assert(copy@.log =~= self@.log);
        copy
    }
}

impl Clone for HandleResponse {
    fn clone(&self) -> (copy: Self)
        ensures
            copy@ == self@,
    {
        let copy = HandleResponse {
            messages: self.messages.clone(),
            log: self.log.clone(),
            data: match &self.data {
                Some(data) => Some(copy_bytes(data)),
                None => None,
            },
        };
        assert(copy@.messages =~= self@.messages);
        assert(copy@.log =~= self@.log);
        copy
    }
}

} // verus!
