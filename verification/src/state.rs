//! The swaps that are live, and what is kept of each.

use crate::encoding::copy_bytes;
use crate::types::{coins_view, copy_coins, Coin, CoinView, Env};
use vstd::hash_map::StringHashMap;
use vstd::prelude::*;

verus! {

/// The terms of one swap, fixed when it is created.
#[derive(Debug, PartialEq)]
pub struct AtomicSwap {
    /// The hash lock, in hexadecimal as it was given.
    pub hash: String,
    /// Who gets the funds on release, in canonical form.
    pub recipient: Vec<u8>,
    /// Who escrowed the funds, in canonical form.
    pub source: Vec<u8>,
    /// The block height at which the swap expires; 0 for none.
    pub end_height: u64,
    /// The block time at which the swap expires; 0 for none.
    pub end_time: u64,
    /// The escrowed funds.
    pub balance: Vec<Coin>,
}

/// An `AtomicSwap` as a mathematical value.
pub struct SwapView {
    pub hash: Seq<char>,
    pub recipient: Seq<u8>,
    pub source: Seq<u8>,
    pub end_height: u64,
    pub end_time: u64,
    pub balance: Seq<CoinView>,
}

impl SwapView {
    /// A swap is expired once the block has reached a deadline that is set:
    /// the height, or the time, or both.
    pub open spec fn expired_at(self, height: u64, time: u64) -> bool {
        (self.end_height != 0 && height >= self.end_height) || (self.end_time != 0 && time
            >= self.end_time)
    }
}

impl View for AtomicSwap {
    type V = SwapView;

    open spec fn view(&self) -> SwapView {
        SwapView {
            hash: self.hash@,
            recipient: self.recipient@,
            source: self.source@,
            end_height: self.end_height,
            end_time: self.end_time,
            balance: coins_view(self.balance@),
        }
    }
}

impl Clone for AtomicSwap {
    fn clone(&self) -> (copy: Self)
        ensures
            copy@ == self@,
    {
        AtomicSwap {
            hash: self.hash.clone(),
            recipient: copy_bytes(&self.recipient),
            source: copy_bytes(&self.source),
            end_height: self.end_height,
            end_time: self.end_time,
            balance: copy_coins(&self.balance),
        }
    }
}

impl AtomicSwap {
    /// Whether the swap is expired in the block of this call.
    pub fn is_expired(&self, env: &Env) -> (expired: bool)
        ensures
            expired == self@.expired_at(env@.height, env@.time),
    {
        if self.end_height != 0 && env.block.height >= self.end_height {
            return true;
        }
        if self.end_time != 0 && env.block.time >= self.end_time {
            return true;
        }
        false
    }
}

/// The live swaps, each under its id.
pub struct SwapRegistry {
    swaps: StringHashMap<AtomicSwap>,
}

impl View for SwapRegistry {
    type V = Map<Seq<char>, SwapView>;

    closed spec fn view(&self) -> Map<Seq<char>, SwapView> {
        self.swaps@.map_values(|swap: AtomicSwap| swap@)
    }
}

impl SwapRegistry {
    /// A registry without swaps.
    pub fn new() -> (registry: SwapRegistry)
        ensures
            registry@ == Map::<Seq<char>, SwapView>::empty(),
    {
        let registry = SwapRegistry { swaps: StringHashMap::new() };
        assert(registry@ =~= Map::<Seq<char>, SwapView>::empty());
        registry
    }

    /// The swap under `id`, if one is live.
    pub fn may_load(&self, id: &str) -> (found: Option<&AtomicSwap>)
        ensures
            match found {
                Some(swap) => self@.contains_key(id@) && swap@ == self@[id@],
                None => !self@.contains_key(id@),
            },
    {
        self.swaps.get(id)
    }

    /// Puts `swap` under `id`, in place of what was there.
    pub fn save(&mut self, id: String, swap: AtomicSwap)
        ensures
            final(self)@ == old(self)@.insert(id@, swap@),
    {
        self.swaps.insert(id, swap);
        assert(self@ =~= old(self)@.insert(id@, swap@));
    }

    /// Takes away the swap under `id`, if there is one.
    pub fn remove(&mut self, id: &str)
        ensures
            final(self)@ == old(self)@.remove(id@),
    {
        self.swaps.remove(id);
        assert(self@ =~= old(self)@.remove(id@));
    }
}

} // verus!
