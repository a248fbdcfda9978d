//! The pool of nameservers, handed out in rotation.
//!
//! The rotation itself is kept by `weighted_rs::RoundrobinWeight`, which holds
//! the positions of the endpoints, each with weight 1. What this module
//! proves rests on the contracts that it gives to that type's methods.

use vstd::prelude::*;
use vstd::arithmetic::div_mod::{lemma_add_mod_noop, lemma_mod_bound, lemma_small_mod};
use weighted_rs::{RoundrobinWeight, Weight};
use crate::address::Endpoint;
use crate::error::ConfigError;

verus! {

/// `weighted_rs::RoundrobinWeight`, of which nothing is known here but what
/// the functions below say.
#[verifier::external_type_specification]
#[verifier::external_body]
#[verifier::reject_recursive_types(T)]
pub struct ExRoundrobinWeight<T>(RoundrobinWeight<T>);

/// The entries of a rotation in the order in which they were added, each an
/// item with its weight.
pub uninterp spec fn rotation_entries(rotation: RoundrobinWeight<usize>) -> Seq<(usize, isize)>;

/// The cursor of a rotation: the place in `rotation_entries` at which it
/// stands. It is -1 from when the first entry comes in until `next` first
/// moves it.
pub uninterp spec fn rotation_cursor(rotation: RoundrobinWeight<usize>) -> int;

/// Every entry weighs 1.
pub open spec fn unit_weights(entries: Seq<(usize, isize)>) -> bool {
    forall|i: int| 0 <= i < entries.len() ==> (#[trigger] entries[i]).1 == 1
}

/// `RoundrobinWeight::new`: a rotation without entries.
#[verifier::external_body]
fn rotation_new() -> (rotation: RoundrobinWeight<usize>)
    ensures
        rotation_entries(rotation).len() == 0,
{
    RoundrobinWeight::new()
}

/// `Weight::add` of `RoundrobinWeight`, for an entry of weight 1 in a rotation
/// whose entries all weigh 1: the entry is put behind the others. The first
/// entry sets the cursor to -1; a later one leaves it where it is.
#[verifier::external_body]
fn rotation_add(rotation: &mut RoundrobinWeight<usize>, item: usize, weight: isize)
    requires
        weight == 1,
        unit_weights(rotation_entries(*old(rotation))),
    ensures
        rotation_entries(*final(rotation)) == rotation_entries(*old(rotation)).push((item, weight)),
        rotation_cursor(*final(rotation)) == if rotation_entries(*old(rotation)).len() == 0 {
            -1
        } else {
            rotation_cursor(*old(rotation))
        },
{
    rotation.add(item, weight)
}

/// `Weight::next` of `RoundrobinWeight`, for a rotation whose entries all
/// weigh 1. The entries stay as they are. Without entries it gives nothing,
/// and with one entry it gives that entry's item; the cursor stays where it
/// is in both. With more entries it moves the cursor one entry on, to the
/// first after the last, and gives the item at which the cursor then
/// stands.
#[verifier::external_body]
fn rotation_next(rotation: &mut RoundrobinWeight<usize>) -> (item: Option<usize>)
    requires
        unit_weights(rotation_entries(*old(rotation))),
        rotation_entries(*old(rotation)).len() >= 2 ==> -1 <= rotation_cursor(*old(rotation))
            < rotation_entries(*old(rotation)).len(),
    ensures
        rotation_entries(*final(rotation)) == rotation_entries(*old(rotation)),
        rotation_cursor(*final(rotation)) == if rotation_entries(*old(rotation)).len() < 2 {
            rotation_cursor(*old(rotation))
        } else {
            (rotation_cursor(*old(rotation)) + 1) % (rotation_entries(*old(rotation)).len() as int)
        },
        rotation_entries(*old(rotation)).len() == 0 ==> item is None,
        rotation_entries(*old(rotation)).len() == 1 ==> item == Some(
            rotation_entries(*old(rotation))[0].0,
        ),
        rotation_entries(*old(rotation)).len() >= 2 ==> item == Some(
            rotation_entries(*old(rotation))[rotation_cursor(*final(rotation))].0,
        ),
{
    rotation.next()
}

/// The entries of a rotation over `count` positions: each position once, in
/// order, with weight 1.
pub open spec fn positions(count: nat) -> Seq<(usize, isize)> {
    Seq::new(count, |i: int| (i as usize, 1isize))
}

/// What a pool is to its callers: the endpoints in the order in which they
/// were given, and the place of the endpoint that is handed out next.
pub struct PoolView {
    pub endpoints: Seq<Endpoint>,
    pub upcoming: nat,
}

/// An ordered, non-empty list of nameserver endpoints with a rotation over
/// it.
pub struct NameserverPool {
    endpoints: Vec<Endpoint>,
    rotation: RoundrobinWeight<usize>,
}

impl View for NameserverPool {
    type V = PoolView;

    closed spec fn view(&self) -> PoolView {
        PoolView {
            endpoints: self.endpoints@,
            upcoming: ((rotation_cursor(self.rotation) + 1) % (self.endpoints@.len() as int)) as nat,
        }
    }
}

impl NameserverPool {
    /// The pool is not empty, its rotation holds the positions of its
    /// endpoints, and the cursor of the rotation is on one of them or before
    /// the first. `new` makes such a pool and `next` keeps it so.
    pub closed spec fn wf(&self) -> bool {
        &&& self.endpoints@.len() >= 1
        &&& rotation_entries(self.rotation) == positions(self.endpoints@.len())
        &&& -1 <= rotation_cursor(self.rotation) < self.endpoints@.len()
    }

    /// A pool over `endpoints`, which starts with the first of them. An empty
    /// list is refused.
    pub fn new(endpoints: Vec<Endpoint>) -> (made: Result<NameserverPool, ConfigError>)
        ensures
            endpoints@.len() == 0 <==> made is Err,
            made matches Err(e) ==> e == ConfigError::NoEndpoints,
            made matches Ok(pool) ==> pool.wf() && pool@.endpoints == endpoints@ && pool@.upcoming
                == 0,
    {
        if endpoints.len() == 0 {
            return Err(ConfigError::NoEndpoints);
        }
        let mut rotation = rotation_new();
        let mut filled: usize = 0;
        while filled < endpoints.len()
            invariant
                filled <= endpoints.len(),
                rotation_entries(rotation) == positions(filled as nat),
                filled > 0 ==> rotation_cursor(rotation) == -1,
            decreases endpoints.len() - filled,
        {
            rotation_add(&mut rotation, filled, 1);
            filled = filled + 1;
        }
        let pool = NameserverPool { endpoints, rotation };
        assert(pool@.upcoming == 0) by {
            lemma_small_mod(0, pool.endpoints@.len());
        }
        Ok(pool)
    }

    /// The number of endpoints in the pool, which is never zero. The upcoming
    /// endpoint is one of them.
    pub fn len(&self) -> (count: usize)
        requires
            self.wf(),
        ensures
            count == self@.endpoints.len(),
            count >= 1,
            self@.upcoming < count,
    {
        proof {
            lemma_mod_bound(rotation_cursor(self.rotation) + 1, self.endpoints@.len() as int);
        }
        self.endpoints.len()
    }

    /// Hands out the upcoming endpoint and moves on to the one behind it, or
    /// to the first after the last.
    pub fn next(&mut self) -> (endpoint: Endpoint)
        requires
            old(self).wf(),
        ensures
            final(self).wf(),
            old(self)@.upcoming < old(self)@.endpoints.len(),
            endpoint == old(self)@.endpoints[old(self)@.upcoming as int],
            final(self)@.endpoints == old(self)@.endpoints,
            final(self)@.upcoming == (old(self)@.upcoming + 1) % old(self)@.endpoints.len(),
    {
        let count: usize = self.endpoints.len();
        let ghost upcoming = self@.upcoming;
        let ghost entries = rotation_entries(self.rotation);
        let picked = rotation_next(&mut self.rotation);
        proof {
            lemma_mod_bound(rotation_cursor(old(self).rotation) + 1, count as int);
            assert(entries[upcoming as int] == (upcoming as usize, 1isize));
            assert(picked == Some(upcoming as usize));
        }
        self.endpoints[picked.unwrap()]
    }
}

/// The place that a pool of `count` endpoints has come to after `calls` calls
/// of `next`, when it started with the first endpoint.
pub open spec fn place_after(count: nat, calls: nat) -> nat
    decreases calls,
{
    if calls == 0 {
        0
    } else {
        (place_after(count, (calls - 1) as nat) + 1) % count
    }
}

/// Round robin: a pool of `count` endpoints that started with the first has
/// come to place `calls % count` after `calls` calls of `next`, whoever made
/// them. So call number `n` hands out the endpoint at place `(n - 1) % count`,
/// and the endpoints come in their order, over and over.
pub proof fn lemma_round_robin(count: nat, calls: nat)
    requires
        count >= 1,
    ensures
        place_after(count, calls) == calls % count,
    decreases calls,
{
    if calls == 0 {
        lemma_small_mod(0, count);
    } else {
        lemma_round_robin(count, (calls - 1) as nat);
        lemma_add_mod_noop(calls - 1, 1, count as int);
        if count == 1 {
            lemma_mod_bound(calls as int, 1);
            lemma_mod_bound((place_after(count, (calls - 1) as nat) + 1) as int, 1);
        } else {
            lemma_small_mod(1, count);
        }
    }
}

} // verus!
