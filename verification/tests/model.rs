use atomic_swap::api::AddressResolver;
use atomic_swap::error::ContractError;
use atomic_swap::state::{AtomicSwap, SwapRegistry};
use atomic_swap::subkeys::{CanSendResponse, Permissions};
use atomic_swap::types::{BlockInfo, Coin, ContractInfo, Env, MessageInfo};

fn swap(end_height: u64, end_time: u64) -> AtomicSwap {
    AtomicSwap {
        hash: "00".repeat(32),
        recipient: vec![1],
        source: vec![2],
        end_height,
        end_time,
        balance: vec![Coin { denom: "tokens".to_string(), amount: 1 }],
    }
}

fn at(height: u64, time: u64) -> Env {
    Env {
        block: BlockInfo { height, time },
        message: MessageInfo { sender: "anyone".to_string(), sent_funds: vec![] },
        contract: ContractInfo { address: "contract".to_string() },
    }
}

#[test]
fn expiry_by_height_is_inclusive() {
    let s = swap(100, 0);
    assert!(!s.is_expired(&at(0, 0)));
    assert!(!s.is_expired(&at(99, u64::MAX)));
    assert!(s.is_expired(&at(100, 0)));
    assert!(s.is_expired(&at(101, 0)));
    assert!(s.is_expired(&at(u64::MAX, 0)));
}

#[test]
fn expiry_by_time_is_inclusive() {
    let s = swap(0, 1_600_000_000);
    assert!(!s.is_expired(&at(0, 0)));
    assert!(!s.is_expired(&at(u64::MAX, 1_599_999_999)));
    assert!(s.is_expired(&at(0, 1_600_000_000)));
    assert!(s.is_expired(&at(0, 1_600_000_001)));
}

#[test]
fn expiry_with_both_deadlines_and_with_none() {
    let s = swap(100, 1_000);
    assert!(!s.is_expired(&at(99, 999)));
    assert!(s.is_expired(&at(100, 999)));
    assert!(s.is_expired(&at(99, 1_000)));
    assert!(s.is_expired(&at(100, 1_000)));

    let never = swap(0, 0);
    assert!(!never.is_expired(&at(0, 0)));
    assert!(!never.is_expired(&at(u64::MAX, u64::MAX)));
}

#[test]
fn registry_saves_loads_and_removes() {
    let mut registry = SwapRegistry::new();
    assert!(registry.may_load("swap0001").is_none());

    registry.save("swap0001".to_string(), swap(1, 0));
    registry.save("swap0002".to_string(), swap(2, 0));
    assert_eq!(registry.may_load("swap0001"), Some(&swap(1, 0)));
    assert_eq!(registry.may_load("swap0002"), Some(&swap(2, 0)));
    assert!(registry.may_load("swap0003").is_none());

    registry.save("swap0001".to_string(), swap(3, 0));
    assert_eq!(registry.may_load("swap0001"), Some(&swap(3, 0)));

    registry.remove("swap0001");
    assert!(registry.may_load("swap0001").is_none());
    assert_eq!(registry.may_load("swap0002"), Some(&swap(2, 0)));

    registry.remove("swap0001");
    registry.remove("never there");
    assert_eq!(registry.may_load("swap0002"), Some(&swap(2, 0)));
}

#[test]
fn resolver_finds_the_first_pair() {
    let mut resolver = AddressResolver::new();
    let failed = Err(ContractError::AddressResolutionFailed);
    assert_eq!(resolver.canonical_address(&"alice".to_string()), failed);
    assert_eq!(resolver.human_address(&vec![1]), Err(ContractError::AddressResolutionFailed));

    resolver.register("alice".to_string(), vec![1]);
    resolver.register("bob".to_string(), vec![2, 0]);
    resolver.register("alice".to_string(), vec![3]);
    resolver.register("carol".to_string(), vec![1]);

    assert_eq!(resolver.canonical_address(&"alice".to_string()), Ok(vec![1]));
    assert_eq!(resolver.canonical_address(&"bob".to_string()), Ok(vec![2, 0]));
    assert_eq!(resolver.canonical_address(&"carol".to_string()), Ok(vec![1]));
    assert_eq!(resolver.canonical_address(&"dave".to_string()), failed);
    assert_eq!(resolver.canonical_address(&"Alice".to_string()), failed);

    assert_eq!(resolver.human_address(&vec![1]), Ok("alice".to_string()));
    assert_eq!(resolver.human_address(&vec![2, 0]), Ok("bob".to_string()));
    assert_eq!(resolver.human_address(&vec![3]), Ok("alice".to_string()));
    assert_eq!(resolver.human_address(&vec![2]), Err(ContractError::AddressResolutionFailed));
    assert_eq!(resolver.human_address(&vec![]), Err(ContractError::AddressResolutionFailed));
}

#[test]
fn permissions_default_to_nothing() {
    let p = Permissions::default();
    assert_eq!(
        p,
        Permissions { delegate: false, redelegate: false, undelegate: false, withdraw: false }
    );
    assert!(!p.delegate && !p.redelegate && !p.undelegate && !p.withdraw);
}

#[test]
fn can_send_response_holds_the_answer() {
    assert!(CanSendResponse { can_send: true }.can_send);
    assert_ne!(CanSendResponse { can_send: true }, CanSendResponse { can_send: false });
}
