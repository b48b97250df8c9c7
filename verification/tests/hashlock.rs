use atomic_swap::contract::{release_with_digest, send_native_tokens, try_create, Deps};
use atomic_swap::encoding::{bytes_equal, HexError};
use atomic_swap::error::{ContractError, HashFault};
use atomic_swap::hashlock::{check_preimage, parse_hex_32, preimage_digest};
use atomic_swap::msg::CreateMsg;
use atomic_swap::types::{
    copy_coins, BankMsg, BlockInfo, Coin, ContractInfo, CosmosMsg, Env, MessageInfo,
};

const ABC_DIGEST: [u8; 32] = [
    0xba, 0x78, 0x16, 0xbf, 0x8f, 0x01, 0xcf, 0xea, 0x41, 0x41, 0x40, 0xde, 0x5d, 0xae, 0x22, 0x23,
    0xb0, 0x03, 0x61, 0xa3, 0x96, 0x17, 0x7a, 0x9c, 0xb4, 0x10, 0xff, 0x61, 0xf2, 0x00, 0x15, 0xad,
];

const ABC_DIGEST_HEX: &str = "ba7816bf8f01cfea414140de5dae2223b00361a396177a9cb410ff61f20015ad";

const EMPTY_DIGEST_HEX: &str = "e3b0c44298fc1c149afbf4c8996fb92427ae41e4649b934ca495991b7852b855";

#[test]
fn parse_hex_32_reads_32_bytes() {
    assert_eq!(parse_hex_32(ABC_DIGEST_HEX), Ok(ABC_DIGEST.to_vec()));
    let upper = ABC_DIGEST_HEX.to_uppercase();
    assert_eq!(parse_hex_32(&upper), Ok(ABC_DIGEST.to_vec()));
    let mixed = "Ba7816bF8f01cfea414140de5dae2223b00361a396177a9cb410ff61f20015aD";
    assert_eq!(parse_hex_32(mixed), Ok(ABC_DIGEST.to_vec()));
    let zeros = "0".repeat(64);
    assert_eq!(parse_hex_32(&zeros), Ok(vec![0u8; 32]));
    let ones = "f".repeat(64);
    assert_eq!(parse_hex_32(&ones), Ok(vec![0xffu8; 32]));
}

#[test]
fn parse_hex_32_rejects_other_lengths() {
    let wrong = Err(ContractError::MalformedHash(HashFault::WrongLength));
    assert_eq!(parse_hex_32(""), wrong);
    assert_eq!(parse_hex_32("00"), wrong);
    assert_eq!(parse_hex_32(&ABC_DIGEST_HEX[..62]), wrong);
    assert_eq!(parse_hex_32(&format!("{}00", ABC_DIGEST_HEX)), wrong);
}

#[test]
fn parse_hex_32_reports_the_first_fault() {
    let odd = Err(ContractError::MalformedHash(HashFault::NotHex(HexError::OddLength)));
    assert_eq!(parse_hex_32("0"), odd);
    assert_eq!(parse_hex_32(&ABC_DIGEST_HEX[..63]), odd);
    // An odd length is reported before a character that is no digit.
    assert_eq!(parse_hex_32("xyz"), odd);

    let bad = |c: char, index: usize| {
        Err(ContractError::MalformedHash(HashFault::NotHex(HexError::InvalidHexCharacter {
            c,
            index,
        })))
    };
    assert_eq!(parse_hex_32("bu115h17"), bad('u', 1));
    assert_eq!(parse_hex_32("0g"), bad('g', 1));
    assert_eq!(parse_hex_32("g0"), bad('g', 0));
    assert_eq!(parse_hex_32("00 0"), bad(' ', 2));
    assert_eq!(parse_hex_32("0/"), bad('/', 1));
    assert_eq!(parse_hex_32("0:"), bad(':', 1));
    assert_eq!(parse_hex_32("0@"), bad('@', 1));
    assert_eq!(parse_hex_32("0G"), bad('G', 1));
    assert_eq!(parse_hex_32("0`"), bad('`', 1));
    // A character of two bytes: the first byte is reported, as a character of its own.
    assert_eq!(parse_hex_32("\u{e9}"), bad('\u{c3}', 0));
}

#[test]
fn messages_of_a_malformed_hash() {
    let e = parse_hex_32("bu115h17").unwrap_err();
    assert_eq!(e.message(), "Error parsing hash: Invalid character 'u' at position 1");
    let long = format!("{}zz", "0".repeat(1234));
    let e = parse_hex_32(&long).unwrap_err();
    assert_eq!(e.message(), "Error parsing hash: Invalid character 'z' at position 1234");
    let e = parse_hex_32("g0").unwrap_err();
    assert_eq!(e.message(), "Error parsing hash: Invalid character 'g' at position 0");
    let e = parse_hex_32("abc").unwrap_err();
    assert_eq!(e.message(), "Error parsing hash: Odd number of digits");
    let e = parse_hex_32("abcd").unwrap_err();
    assert_eq!(e.message(), "Hash must be 64 characters");
    let e = ContractError::MalformedHash(HashFault::NotHex(HexError::InvalidStringLength));
    assert_eq!(e.message(), "Error parsing hash: Invalid string length");
}

#[test]
fn every_failure_has_its_message() {
    assert_eq!(ContractError::InvalidIdLength.message(), "Invalid atomic swap id length");
    assert_eq!(
        ContractError::NoFundsAttached.message(),
        "Send some coins to create an atomic swap"
    );
    assert_eq!(ContractError::AlreadyExpiredAtCreation.message(), "Expired atomic swap");
    assert_eq!(ContractError::AlreadyExists.message(), "Atomic swap already exists");
    assert_eq!(ContractError::NotFound.message(), "Atomic swap not found");
    assert_eq!(ContractError::Expired.message(), "Atomic swap expired");
    assert_eq!(ContractError::NotYetExpired.message(), "Atomic swap not yet expired");
    assert_eq!(ContractError::InvalidPreimage.message(), "Invalid preimage");
    assert_eq!(ContractError::AddressResolutionFailed.message(), "Address resolution failed");
}

#[test]
fn preimage_digest_is_sha256_of_the_decoded_bytes() {
    // "abc" in hexadecimal.
    assert_eq!(preimage_digest("616263"), Ok(ABC_DIGEST.to_vec()));
    assert_eq!(preimage_digest(""), Ok(hex::decode(EMPTY_DIGEST_HEX).unwrap()));
    assert_eq!(
        preimage_digest("61626"),
        Err(ContractError::MalformedHash(HashFault::NotHex(HexError::OddLength)))
    );
    assert_eq!(
        preimage_digest("6162zz"),
        Err(ContractError::MalformedHash(HashFault::NotHex(HexError::InvalidHexCharacter {
            c: 'z',
            index: 4
        })))
    );
}

#[test]
fn check_preimage_compares_the_digest_with_the_lock() {
    assert_eq!(check_preimage(&ABC_DIGEST, "616263"), Ok(true));
    assert_eq!(check_preimage(&ABC_DIGEST, "616264"), Ok(false));
    assert_eq!(check_preimage(&ABC_DIGEST, ""), Ok(false));
    assert_eq!(check_preimage(&hex::decode(EMPTY_DIGEST_HEX).unwrap(), ""), Ok(true));
    // The preimage itself is not the lock.
    assert_eq!(check_preimage(&[0x61, 0x62, 0x63], "616263"), Ok(false));
    assert_eq!(
        check_preimage(&ABC_DIGEST, "abc"),
        Err(ContractError::MalformedHash(HashFault::NotHex(HexError::OddLength)))
    );
}

#[test]
fn bytes_equal_byte_for_byte() {
    assert!(bytes_equal(&[], &[]));
    assert!(bytes_equal(&ABC_DIGEST, &ABC_DIGEST.to_vec()));
    assert!(!bytes_equal(&ABC_DIGEST, &ABC_DIGEST[..31]));
    assert!(!bytes_equal(&ABC_DIGEST[..31], &ABC_DIGEST));
    let mut other = ABC_DIGEST;
    other[31] ^= 1;
    assert!(!bytes_equal(&ABC_DIGEST, &other));
    let mut other = ABC_DIGEST;
    other[0] ^= 0x80;
    assert!(!bytes_equal(&ABC_DIGEST, &other));
}

fn env(sender: &str, sent: Vec<Coin>, height: u64, time: u64) -> Env {
    Env {
        block: BlockInfo { height, time },
        message: MessageInfo { sender: sender.to_string(), sent_funds: sent },
        contract: ContractInfo { address: "contract".to_string() },
    }
}

fn deps_with_swap(balance: Vec<Coin>) -> Deps {
    let mut deps = Deps::new();
    deps.api.register("alice".to_string(), vec![1, 1]);
    deps.api.register("bob".to_string(), vec![2, 2]);
    let msg = CreateMsg {
        id: "swap".to_string(),
        hash: ABC_DIGEST_HEX.to_string(),
        recipient: "bob".to_string(),
        end_height: 10,
        end_time: 0,
    };
    try_create(&mut deps, env("alice", balance, 1, 1), msg).unwrap();
    deps
}

#[test]
fn release_with_digest_decides_on_the_digest_it_is_given() {
    let balance = vec![Coin { denom: "tokens".to_string(), amount: 100 }];
    let id = || "swap".to_string();
    let preimage = || "616263".to_string();

    // The digest that is the lock releases.
    let mut deps = deps_with_swap(balance.clone());
    let res = release_with_digest(
        &mut deps,
        env("carol", vec![], 9, 1),
        id(),
        preimage(),
        Ok(ABC_DIGEST.to_vec()),
    )
    .unwrap();
    assert_eq!(
        res.messages,
        vec![CosmosMsg::Bank(BankMsg::Send {
            from_address: "contract".to_string(),
            to_address: "bob".to_string(),
            amount: balance.clone(),
        })]
    );
    assert!(deps.storage.swaps.may_load("swap").is_none());

    // Another digest does not.
    let mut deps = deps_with_swap(balance.clone());
    let mut other = ABC_DIGEST.to_vec();
    other[7] ^= 1;
    let res =
        release_with_digest(&mut deps, env("carol", vec![], 9, 1), id(), preimage(), Ok(other));
    assert_eq!(res.unwrap_err(), ContractError::InvalidPreimage);
    assert!(deps.storage.swaps.may_load("swap").is_some());

    // A preimage that has no digest fails as its decoding failed.
    let fault = ContractError::MalformedHash(HashFault::NotHex(HexError::OddLength));
    let res =
        release_with_digest(&mut deps, env("carol", vec![], 9, 1), id(), preimage(), Err(fault));
    assert_eq!(res.unwrap_err(), fault);

    // The deadline comes before the digest, and the lookup before the deadline.
    let res = release_with_digest(
        &mut deps,
        env("carol", vec![], 10, 1),
        id(),
        preimage(),
        Err(fault),
    );
    assert_eq!(res.unwrap_err(), ContractError::Expired);
    let res = release_with_digest(
        &mut deps,
        env("carol", vec![], 10, 1),
        "other".to_string(),
        preimage(),
        Err(fault),
    );
    assert_eq!(res.unwrap_err(), ContractError::NotFound);
}

#[test]
fn release_of_a_swap_with_a_malformed_lock() {
    let mut deps = deps_with_swap(vec![Coin { denom: "tokens".to_string(), amount: 1 }]);
    let mut swap = deps.storage.swaps.may_load("swap").unwrap().clone();
    swap.hash = "beef".to_string();
    deps.storage.swaps.save("swap".to_string(), swap);
    let res = release_with_digest(
        &mut deps,
        env("carol", vec![], 9, 1),
        "swap".to_string(),
        "616263".to_string(),
        Ok(ABC_DIGEST.to_vec()),
    );
    assert_eq!(res.unwrap_err(), ContractError::MalformedHash(HashFault::WrongLength));
}

#[test]
fn release_of_an_empty_balance_sends_nothing() {
    let mut deps = deps_with_swap(vec![Coin { denom: "tokens".to_string(), amount: 1 }]);
    let mut swap = deps.storage.swaps.may_load("swap").unwrap().clone();
    swap.balance = vec![];
    deps.storage.swaps.save("swap".to_string(), swap);
    let res = release_with_digest(
        &mut deps,
        env("carol", vec![], 9, 1),
        "swap".to_string(),
        "616263".to_string(),
        Ok(ABC_DIGEST.to_vec()),
    )
    .unwrap();
    assert!(res.messages.is_empty());
    assert!(deps.storage.swaps.may_load("swap").is_none());
}

#[test]
fn send_native_tokens_builds_one_transfer_or_none() {
    let from = "contract".to_string();
    let to = "bob".to_string();
    assert_eq!(send_native_tokens(&from, &to, vec![]), vec![]);
    let amount = vec![
        Coin { denom: "tokens".to_string(), amount: 100 },
        Coin { denom: "stake".to_string(), amount: u128::MAX },
    ];
    assert_eq!(
        send_native_tokens(&from, &to, amount.clone()),
        vec![CosmosMsg::Bank(BankMsg::Send {
            from_address: "contract".to_string(),
            to_address: "bob".to_string(),
            amount: amount.clone(),
        })]
    );
    assert_eq!(copy_coins(&amount), amount);
    assert_eq!(copy_coins(&vec![]), vec![]);
}
