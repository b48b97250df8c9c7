//! Addresses in their two forms: the one that people write and the
//! canonical one that is stored.

use crate::encoding::{bytes_equal, copy_bytes};
use crate::error::{bytes_result, text_result, ContractError};
use vstd::prelude::*;

verus! {

/// One address in both forms.
#[derive(Debug, PartialEq)]
pub struct AddressPair {
    pub human: String,
    pub canonical: Vec<u8>,
}

/// An `AddressPair` as a mathematical value.
pub struct PairView {
    pub human: Seq<char>,
    pub canonical: Seq<u8>,
}

impl View for AddressPair {
    type V = PairView;

    open spec fn view(&self) -> PairView {
        PairView { human: self.human@, canonical: self.canonical@ }
    }
}

impl Clone for AddressPair {
    fn clone(&self) -> (copy: Self)
        ensures
            copy@ == self@,
    {
        AddressPair { human: self.human.clone(), canonical: copy_bytes(&self.canonical) }
    }
}

/// The canonical form of the first pair at or after `start` whose human form is `human`.
pub open spec fn canonical_from(pairs: Seq<PairView>, human: Seq<char>, start: int) -> Option<
    Seq<u8>,
>
    decreases pairs.len() - start,
{
    if start < 0 || start >= pairs.len() {
        None
    } else if pairs[start].human == human {
        Some(pairs[start].canonical)
    } else {
        canonical_from(pairs, human, start + 1)
    }
}

/// The human form of the first pair at or after `start` whose canonical form is `canonical`.
pub open spec fn human_from(pairs: Seq<PairView>, canonical: Seq<u8>, start: int) -> Option<
    Seq<char>,
>
    decreases pairs.len() - start,
{
    if start < 0 || start >= pairs.len() {
        None
    } else if pairs[start].canonical == canonical {
        Some(pairs[start].human)
    } else {
        human_from(pairs, canonical, start + 1)
    }
}

/// The canonical form that the pairs give to a human address: that of the
/// first pair that has it.
pub open spec fn canonical_of(pairs: Seq<PairView>, human: Seq<char>) -> Option<Seq<u8>> {
    canonical_from(pairs, human, 0)
}

/// The human form that the pairs give to a canonical address: that of the
/// first pair that has it.
pub open spec fn human_of(pairs: Seq<PairView>, canonical: Seq<u8>) -> Option<Seq<char>> {
    human_from(pairs, canonical, 0)
}

/// The addresses that the host resolved for a call, as pairs. An address
/// that is in no pair does not resolve.
pub struct AddressResolver {
    pairs: Vec<AddressPair>,
}

impl View for AddressResolver {
    type V = Seq<PairView>;

    closed spec fn view(&self) -> Seq<PairView> {
        self.pairs@.map_values(|pair: AddressPair| pair@)
    }
}

impl AddressResolver {
    /// A resolver that knows no address.
    pub fn new() -> (resolver: AddressResolver)
        ensures
            resolver@ == Seq::<PairView>::empty(),
    {
        let resolver = AddressResolver { pairs: Vec::new() };
        assert(resolver@ =~= Seq::<PairView>::empty());
        resolver
    }

    /// Adds a pair behind those that are known. Earlier pairs keep their say.
    pub fn register(&mut self, human: String, canonical: Vec<u8>)
        ensures
            final(self)@ == old(self)@.push(PairView { human: human@, canonical: canonical@ }),
    {
        self.pairs.push(AddressPair { human, canonical });
        assert(self@ =~= old(self)@.push(PairView { human: human@, canonical: canonical@ }));
    }

    /// The canonical form of a human address.
    pub fn canonical_address(&self, human: &String) -> (r: Result<Vec<u8>, ContractError>)
        ensures
            bytes_result(r) == match canonical_of(self@, human@) {
                Some(canonical) => Ok::<Seq<u8>, ContractError>(canonical),
                None => Err(ContractError::AddressResolutionFailed),
            },
    {
        let mut i: usize = 0;
        while i < self.pairs.len()
            invariant
                i <= self.pairs.len(),
                canonical_of(self@, human@) == canonical_from(self@, human@, i as int),
            decreases self.pairs.len() - i,
        {
            if self.pairs[i].human == *human {
                return Ok(copy_bytes(&self.pairs[i].canonical));
            }
            i += 1;
        }
        Err(ContractError::AddressResolutionFailed)
    }

    /// The human form of a canonical address.
    pub fn human_address(&self, canonical: &Vec<u8>) -> (r: Result<String, ContractError>)
        ensures
            text_result(r) == match human_of(self@, canonical@) {
                Some(human) => Ok::<Seq<char>, ContractError>(human),
                None => Err(ContractError::AddressResolutionFailed),
            },
    {
        let mut i: usize = 0;
        while i < self.pairs.len()
            invariant
                i <= self.pairs.len(),
                human_of(self@, canonical@) == human_from(self@, canonical@, i as int),
            decreases self.pairs.len() - i,
        {
            if bytes_equal(self.pairs[i].canonical.as_slice(), canonical.as_slice()) {
                return Ok(self.pairs[i].human.clone());
            }
            i += 1;
        }
        Err(ContractError::AddressResolutionFailed)
    }
}

} // verus!
