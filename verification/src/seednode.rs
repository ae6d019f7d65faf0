//! Picking an address of a seednode.
use crate::message::SocketAddr;
use abstract_ns::Address;
use vstd::prelude::*;

verus! {

/// `abstract_ns::Address`: what a resolver has found for a name.
#[verifier::external_type_specification]
#[verifier::external_body]
pub struct ExAddress(abstract_ns::Address);

/// The addresses of highest priority that an `abstract_ns::Address` holds, as its `at(0)` gives
/// them, each with its weight. A socket address of the standard library is taken here as the
/// value with the same ip, port and, for the sixth version, flow information and scope id.
pub uninterp spec fn best_addresses(address: Address) -> Seq<(u64, SocketAddr)>;

/// Sum of the weights of some addresses.
pub open spec fn total_weight(addresses: Seq<(u64, SocketAddr)>) -> int
    decreases addresses.len(),
{
    if addresses.len() == 0 {
        0
    } else {
        total_weight(addresses.drop_last()) + addresses.last().0
    }
}

/// Whether each of some addresses has the same given weight.
pub open spec fn all_weigh(addresses: Seq<(u64, SocketAddr)>, weight: u64) -> bool {
    forall|i: int| 0 <= i < addresses.len() ==> (#[trigger] addresses[i]).0 == weight
}

/// Some addresses, each with a given weight in place of its own.
pub open spec fn reweighted(addresses: Seq<(u64, SocketAddr)>, weight: u64) -> Seq<
    (u64, SocketAddr),
> {
    addresses.map_values(|address: (u64, SocketAddr)| (weight, address.1))
}

/// Whether each of some addresses, with its weight, is among others.
pub open spec fn within(
    addresses: Seq<(u64, SocketAddr)>,
    others: Seq<(u64, SocketAddr)>,
) -> bool {
    forall|i: int| 0 <= i < addresses.len() ==> others.contains(#[trigger] addresses[i])
}

/// Whether some addresses are all weighted with 1, or not weighted at all.
pub open spec fn evenly_weighted(addresses: Seq<(u64, SocketAddr)>) -> bool {
    all_weigh(addresses, 1) || all_weigh(addresses, 0)
}

/// Whether the address at a place may be picked: it has a weight; or none has one, and it is the
/// first.
pub open spec fn may_be_picked(addresses: Seq<(u64, SocketAddr)>, i: int) -> bool {
    &&& 0 <= i < addresses.len()
    &&& addresses[i].0 > 0 || (total_weight(addresses) == 0 && i == 0)
}

/// Whether an address is a single one that may have been picked from some addresses.
pub open spec fn picked_from(addresses: Seq<(u64, SocketAddr)>, picked: Address) -> bool {
    exists|i: int| #[trigger]
        may_be_picked(addresses, i) && best_addresses(picked) == seq![(0u64, addresses[i].1)]
}

/// Calls `abstract_ns::Address::pick_one`, which draws one of the addresses of highest priority
/// at random, each as often as its weight says: `None` if there are no addresses; the first
/// address if all weights are zero; else one whose weight is not zero. Which one of these is left
/// unsaid. The weights are added up as `u64` first, so their sum has to fit. The address comes
/// back alone, with weight 0, in an `Address` of its own.
#[verifier::external_body]
fn pick_one(address: &Address) -> (picked: Option<Address>)
    requires
        total_weight(best_addresses(*address)) <= u64::MAX,
    ensures
        match picked {
            None => best_addresses(*address).len() == 0,
            Some(picked) => picked_from(best_addresses(*address), picked),
        },
{
    address.pick_one().map(Address::from)
}

/// Collects the addresses of highest priority (`abstract_ns::Address::at` and
/// `WeightedSet::addresses`) into a new `abstract_ns::Address`, which gives each the weight 1.
/// They are as many as a `Vec` holds.
#[verifier::external_body]
fn collected(address: &Address) -> (anew: Address)
    ensures
        best_addresses(anew) == reweighted(best_addresses(*address), 1),
        best_addresses(anew).len() <= usize::MAX,
{
    address.at(0).addresses().collect()
}

/// Turns a slice of the addresses of highest priority (`abstract_ns::Address::at` and
/// `WeightedSet::addresses`) into a new `abstract_ns::Address` by its `from`, which gives each
/// the weight 0.
#[verifier::external_body]
fn unweighted(address: &Address) -> (anew: Address)
    ensures
        best_addresses(anew) == reweighted(best_addresses(*address), 0),
{
    let sockets: Vec<_> = address.at(0).addresses().collect();
    Address::from(&sockets[..])
}

/// Compares the addresses of highest priority by `==` of `abstract_ns::WeightedSet`: it holds of
/// two sets of the same size if each address of one, with its weight, is in the other.
#[verifier::external_body]
fn same_best(a: &Address, b: &Address) -> (same: bool)
    ensures
        same == (best_addresses(*a).len() == best_addresses(*b).len() && within(
            best_addresses(*a),
            best_addresses(*b),
        ) && within(best_addresses(*b), best_addresses(*a))),
{
    a.at(0) == b.at(0)
}

/// Addresses have the same elements as those addresses with another weight just if they have
/// that weight.
proof fn lemma_reweighted(addresses: Seq<(u64, SocketAddr)>, weight: u64)
    ensures
        all_weigh(addresses, weight) <==> within(addresses, reweighted(addresses, weight))
            && within(reweighted(addresses, weight), addresses),
{
    let anew = reweighted(addresses, weight);
    if all_weigh(addresses, weight) {
        assert(anew =~= addresses);
        assert forall|i: int| 0 <= i < addresses.len() implies addresses.contains(
            #[trigger] addresses[i],
        ) by {}
    }
    if within(addresses, anew) {
        assert forall|i: int| 0 <= i < addresses.len() implies (#[trigger] addresses[i]).0
            == weight by {
            assert(anew.contains(addresses[i]));
            let j = choose|j: int| 0 <= j < anew.len() && anew[j] == addresses[i];
            assert(anew[j].0 == weight);
        }
    }
}

/// Addresses with weight 1 weigh together as much as there are of them.
proof fn lemma_weighted_with_one(addresses: Seq<(u64, SocketAddr)>)
    requires
        all_weigh(addresses, 1),
    ensures
        total_weight(addresses) == addresses.len(),
    decreases addresses.len(),
{
    if addresses.len() > 0 {
        assert(addresses.last() == addresses[addresses.len() - 1]);
        assert forall|i: int| 0 <= i < addresses.drop_last().len() implies (
        #[trigger] addresses.drop_last()[i]).0 == 1 by {
            assert(addresses[i].0 == 1);
        }
        lemma_weighted_with_one(addresses.drop_last());
    }
}

/// Tells whether each address of highest priority has weight 1, by comparing them with the same
/// addresses so weighted.
fn is_weighted_with_one(address: &Address) -> (even: bool)
    ensures
        even == all_weigh(best_addresses(*address), 1),
        even ==> total_weight(best_addresses(*address)) <= u64::MAX,
{
    let anew = collected(address);
    let even = same_best(address, &anew);
    proof {
        let best = best_addresses(*address);
        lemma_reweighted(best, 1);
        if even {
            lemma_weighted_with_one(best);
        }
    }
    even
}

/// Tells whether each address of highest priority has weight 0, by comparing them with the same
/// addresses so weighted.
fn is_unweighted(address: &Address) -> (even: bool)
    ensures
        even == all_weigh(best_addresses(*address), 0),
        even ==> total_weight(best_addresses(*address)) <= u64::MAX,
{
    let anew = unweighted(address);
    let even = same_best(address, &anew);
    proof {
        let best = best_addresses(*address);
        lemma_reweighted(best, 0);
        if even {
            lemma_unweighted(best);
        }
    }
    even
}

/// Addresses without weight weigh nothing together.
proof fn lemma_unweighted(addresses: Seq<(u64, SocketAddr)>)
    requires
        all_weigh(addresses, 0),
    ensures
        total_weight(addresses) == 0,
    decreases addresses.len(),
{
    if addresses.len() > 0 {
        assert(addresses.last() == addresses[addresses.len() - 1]);
        assert(all_weigh(addresses.drop_last(), 0)) by {
            assert forall|i: int| 0 <= i < addresses.drop_last().len() implies (
            #[trigger] addresses.drop_last()[i]).0 == 0 by {
                assert(addresses[i].0 == 0);
            }
        }
        lemma_unweighted(addresses.drop_last());
    }
}

/// What has come of resolving the name of a seednode.
#[derive(PartialEq, Debug)]
pub enum SeednodeAnswer {
    /// This is one of its addresses, and no other is in it.
    Picked { address: Address },
    /// It has no address.
    NoAddress,
    /// It could not be resolved.
    Failed,
}

/// Whether an answer is right for what a resolver has said.
pub open spec fn answers<E>(resolved: Result<Address, E>, answer: SeednodeAnswer) -> bool {
    match resolved {
        Ok(found) => if best_addresses(found).len() == 0 {
            answer is NoAddress
        } else {
            answer matches SeednodeAnswer::Picked { address } && picked_from(
                best_addresses(found),
                address,
            )
        },
        Err(_) => answer is Failed,
    }
}

/// Picks one of the addresses of a seednode.
pub fn pick_address<E>(resolved: &Result<Address, E>) -> (answer: SeednodeAnswer)
    requires
        resolved matches Ok(found) ==> total_weight(best_addresses(*found)) <= u64::MAX,
    ensures
        answers(*resolved, answer),
{
    match resolved {
        Ok(found) => match pick_one(found) {
            Some(address) => SeednodeAnswer::Picked { address },
            None => SeednodeAnswer::NoAddress,
        },
        Err(_) => SeednodeAnswer::Failed,
    }
}

/// Picks one of the addresses of a seednode if they are evenly weighted, as those from a domain
/// name server are; else picks none.
pub fn pick_even_address<E>(resolved: &Result<Address, E>) -> (answer: Option<SeednodeAnswer>)
    ensures
        match answer {
            Some(answer) => {
                &&& resolved matches Ok(found) ==> evenly_weighted(best_addresses(*found))
                &&& answers(*resolved, answer)
            },
            None => resolved matches Ok(found) && !evenly_weighted(best_addresses(*found)),
        },
{
    if let Ok(found) = resolved {
        if !is_weighted_with_one(found) {
            if !is_unweighted(found) {
                return None;
            }
        }
    }
    Some(pick_address(resolved))
}

} // verus!
