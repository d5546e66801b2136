//! Interests of the resources in the events of the poll.

use std::collections::HashMap;
use vstd::prelude::*;

use crate::poller::{IoType, Poll};
use crate::resource::{Resource, ResourceId};

verus! {

/// Collects the interests of the resources, in no particular order.
pub fn resource_interests<R: Resource>(resources: &HashMap<u64, R>) -> (res: Vec<
    (ResourceId, IoType),
>)
    ensures
        forall|i: int|
            0 <= i < res@.len() ==> {
                let (id, interest) = #[trigger] res@[i];
                &&& resources@.contains_key(id.0)
                &&& call_ensures(R::interests, (&resources@[id.0],), interest)
            },
        forall|i: int, j: int|
            0 <= i < j < res@.len() ==> (#[trigger] res@[i]).0 != (#[trigger] res@[j]).0,
        forall|key: u64| #[trigger]
            resources@.contains_key(key) ==> exists|i: int|
                0 <= i < res@.len() && (#[trigger] res@[i]).0.0 == key,
{
    let mut res: Vec<(ResourceId, IoType)> = Vec::new();
    for id in it: resources.keys()
        invariant
            res@.len() == it.index(),
            it.seq().no_duplicates(),
            it.seq().unref().to_set() == resources@.dom(),
            forall|i: int|
                0 <= i < res@.len() ==> {
                    let (id, interest) = #[trigger] res@[i];
                    &&& id.0 == *it.seq()[i]
                    &&& resources@.contains_key(id.0)
                    &&& call_ensures(R::interests, (&resources@[id.0],), interest)
                },
            forall|id: u64| #[trigger]
                resources@.contains_key(id) ==> (exists|i: int|
                    0 <= i < res@.len() && (#[trigger] res@[i]).0.0 == id) || (exists|i: int|
                    it.index() <= i < it.seq().len() && *(#[trigger] it.seq()[i]) == id),
    {
        let ghost before = res@;
        assert(it.seq().unref().contains(*id));
        if let Some(resource) = resources.get(id) {
            res.push((ResourceId(*id), resource.interests()));
        }
        proof {
            assert forall|k: u64| #[trigger] resources@.contains_key(k) implies (exists|i: int|
                0 <= i < res@.len() && (#[trigger] res@[i]).0.0 == k) || (exists|i: int|
                it.index() < i < it.seq().len() && *(#[trigger] it.seq()[i]) == k) by {
                if exists|i: int| 0 <= i < before.len() && (#[trigger] before[i]).0.0 == k {
                    let i = choose|i: int| 0 <= i < before.len() && (#[trigger] before[i]).0.0 == k;
                    assert(res@[i].0.0 == k);
                } else if k == *id {
                    assert(res@[before.len() as int].0.0 == k);
                }
            }
        }
    }
    res
}

/// Whether the registrations differ at most in that the interests of the resources are those which
/// the resources themselves have stated.
pub open spec fn interests_updated<R: Resource>(
    resources: Map<u64, R>,
    before: Map<u64, (i32, IoType)>,
    after: Map<u64, (i32, IoType)>,
) -> bool {
    &&& after.dom() == before.dom()
    &&& forall|id: u64|
        before.contains_key(id) ==> {
            &&& (#[trigger] after[id]).0 == before[id].0
            &&& !resources.contains_key(id) ==> after[id] == before[id]
            &&& resources.contains_key(id) ==> call_ensures(
                R::interests,
                (&resources[id],),
                after[id].1,
            )
        }
}

/// Tells the poll engine about the interests of the resources.
pub fn set_interests<R: Resource, P: Poll>(resources: &HashMap<u64, R>, poller: &mut P)
    requires
        old(poller).inv(),
    ensures
        final(poller).inv(),
        interests_updated(resources@, old(poller).registered(), final(poller).registered()),
        final(poller).given() == old(poller).given(),
        final(poller).has_room() == old(poller).has_room(),
        final(poller).pending() == old(poller).pending(),
{
    let interests = resource_interests(resources);
    let mut ix: usize = 0;
    while ix < interests.len()
        invariant
            ix <= interests.len(),
            forall|i: int|
                0 <= i < interests@.len() ==> {
                    let (id, interest) = #[trigger] interests@[i];
                    &&& resources@.contains_key(id.0)
                    &&& call_ensures(R::interests, (&resources@[id.0],), interest)
                },
            forall|i: int, j: int|
                0 <= i < j < interests@.len() ==> (#[trigger] interests@[i]).0 != (
                #[trigger] interests@[j]).0,
            poller.inv(),
            poller.given() == old(poller).given(),
            poller.has_room() == old(poller).has_room(),
            poller.pending() == old(poller).pending(),
            poller.registered().dom() == old(poller).registered().dom(),
            forall|id: u64|
                old(poller).registered().contains_key(id) ==> (#[trigger] poller.registered()[id]).0
                    == old(poller).registered()[id].0,
            forall|id: u64|
                old(poller).registered().contains_key(id) && !resources@.contains_key(id)
                    ==> #[trigger] poller.registered()[id] == old(poller).registered()[id],
            forall|i: int|
                0 <= i < ix && old(poller).registered().contains_key((#[trigger] interests@[i]).0.0)
                    ==> poller.registered()[interests@[i].0.0].1 == interests@[i].1,
        decreases interests.len() - ix,
    {
        let ghost before = poller.registered();
        let (id, interest) = interests[ix];
        poller.set_interest(id, interest);
        assert(poller.registered().dom() =~= before.dom());
        ix = ix + 1;
    }
    proof {
        assert forall|id: u64|
            old(poller).registered().contains_key(id) && resources@.contains_key(
                id,
            ) implies call_ensures(
            R::interests,
            (&resources@[id],),
            (#[trigger] poller.registered()[id]).1,
        ) by {
            let i = choose|i: int|
                0 <= i < interests@.len() && (#[trigger] interests@[i]).0.0 == id;
            assert(interests@[i].0.0 == id);
        }
    }
}

} // verus!
