//! The plan of a batch: every address paired with a nameserver of the pool,
//! in rotation, and one outcome for every pair.

use vstd::prelude::*;
use vstd::arithmetic::div_mod::{lemma_add_mod_noop, lemma_mod_bound, lemma_small_mod};
use crate::address::{Endpoint, IpAddress, IpToResolve};
use crate::error::{ConfigError, ResolvingError};
use crate::pool::NameserverPool;
use crate::reply::{QueryReply, QueryReplyView};
use crate::resolver::{
    first_chase, get_ptr, lemma_resolves_with_more, outcome_view, replies_of, resolves, Replies,
    ResolvedResult,
};
use crate::reverse_name::reverse_name;

verus! {

/// What came of one unit of work.
#[derive(Debug, PartialEq, Eq)]
pub struct ResolutionOutcome {
    pub item: IpToResolve,
    pub outcome: Result<ResolvedResult, ResolvingError>,
}

/// The work of a batch: address number `i` goes to the endpoint whose place
/// in the list is `start + i`, counted round the list.
pub open spec fn planned_from(
    addresses: Seq<IpAddress>,
    endpoints: Seq<Endpoint>,
    start: nat,
) -> Seq<IpToResolve> {
    Seq::new(
        addresses.len(),
        |i: int|
            IpToResolve {
                address: addresses[i],
                server: endpoints[(start + i) % (endpoints.len() as int)],
            },
    )
}

/// The work of a batch that starts with the first endpoint.
pub open spec fn planned(addresses: Seq<IpAddress>, endpoints: Seq<Endpoint>) -> Seq<IpToResolve> {
    planned_from(addresses, endpoints, 0)
}

/// On a ring of `count` places, one place on from where `steps` steps have
/// led is where `steps + 1` steps lead.
proof fn lemma_next_place(steps: int, count: int)
    requires
        steps >= 0,
        count >= 1,
    ensures
        ((steps % count) + 1) % count == (steps + 1) % count,
{
    lemma_add_mod_noop(steps, 1, count);
    if count == 1 {
        lemma_mod_bound(steps + 1, count);
        lemma_mod_bound((steps % count) + 1, count);
    } else {
        lemma_small_mod(1, count as nat);
    }
}

/// Pairs every address with the next endpoint of the pool, in the order of
/// the addresses.
pub fn assign_servers(addresses: &Vec<IpAddress>, pool: &mut NameserverPool) -> (items: Vec<
    IpToResolve,
>)
    requires
        old(pool).wf(),
    ensures
        final(pool).wf(),
        final(pool)@.endpoints == old(pool)@.endpoints,
        final(pool)@.upcoming == (old(pool)@.upcoming + addresses@.len()) % old(
            pool,
        )@.endpoints.len(),
        items@ == planned_from(addresses@, old(pool)@.endpoints, old(pool)@.upcoming),
{
    let ghost endpoints = pool@.endpoints;
    let ghost start = pool@.upcoming;
    let count: usize = pool.len();
    let mut items: Vec<IpToResolve> = Vec::new();
    let mut done: usize = 0;
    proof {
        lemma_small_mod(start, count as nat);
    }
    while done < addresses.len()
        invariant
            done <= addresses.len(),
            pool.wf(),
            pool@.endpoints == endpoints,
            endpoints.len() == count,
            count >= 1,
            pool@.upcoming == (start + done) % (count as int),
            items@ == planned_from(addresses@.take(done as int), endpoints, start),
        decreases addresses.len() - done,
    {
        let server = pool.next();
        items.push(IpToResolve { address: addresses[done], server });
        proof {
            lemma_next_place(start + done, count as int);
            assert(items@ =~= planned_from(addresses@.take(done + 1), endpoints, start));
        }
        done = done + 1;
    }
    assert(addresses@.take(done as int) =~= addresses@);
    items
}

/// The plan of a batch: a pool over `endpoints`, and every address paired
/// with an endpoint of it in rotation, the first address with the first
/// endpoint. Without endpoints there is no plan.
pub fn plan(addresses: &Vec<IpAddress>, endpoints: Vec<Endpoint>) -> (made: Result<
    Vec<IpToResolve>,
    ConfigError,
>)
    ensures
        endpoints@.len() == 0 <==> made is Err,
        made matches Err(e) ==> e == ConfigError::NoEndpoints,
        made matches Ok(items) ==> items@ == planned(addresses@, endpoints@),
{
    match NameserverPool::new(endpoints) {
        Err(e) => Err(e),
        Ok(mut pool) => Ok(assign_servers(addresses, &mut pool)),
    }
}

/// What the client `client` may answer when it asks the nameserver at
/// `server`.
pub open spec fn replies_from<G: Fn(&Endpoint, &str) -> QueryReply>(
    client: &G,
    server: Endpoint,
) -> Replies {
    |name: Seq<char>, reply: QueryReplyView|
        exists|at: &Endpoint, asked: &str, given: QueryReply|
            *at == server && asked@ == name && given@ == reply && #[trigger] (*client).ensures(
                (at, asked),
                given,
            )
}

/// `done` is an outcome that the unit of work `item` can have with this
/// client: it names the item, and it is an end of the resolution of the
/// reverse name of the item's address at the item's nameserver.
pub open spec fn outcome_of<G: Fn(&Endpoint, &str) -> QueryReply>(
    client: &G,
    item: IpToResolve,
    done: ResolutionOutcome,
) -> bool {
    &&& done.item == item
    &&& resolves(
        replies_from(client, item.server),
        first_chase(reverse_name(item.address)),
        outcome_view(done.outcome),
    )
}

/// Does one unit of work: resolves the address of `item`, with every query
/// sent to the nameserver of `item`.
pub fn resolve_item<G: Fn(&Endpoint, &str) -> QueryReply>(item: IpToResolve, client: &G) -> (done:
    ResolutionOutcome)
    requires
        forall|at: &Endpoint, asked: &str| (*client).requires((at, asked)),
    ensures
        outcome_of(client, item, done),
{
    let server = item.server;
    let ask = |asked: &str| -> (reply: QueryReply)
        ensures
            (*client).ensures((&server, asked), reply),
        { client(&server, asked) };
    let outcome = get_ptr(item.address, &ask);
    proof {
        let start = first_chase(reverse_name(item.address));
        assert forall|name: Seq<char>, reply: QueryReplyView| #[trigger]
            replies_of(&&ask)(name, reply) implies replies_from(client, server)(name, reply) by {
            let (asked, given) = choose|asked: &str, given: QueryReply|
                asked@ == name && given@ == reply && #[trigger] (&ask).ensures((asked,), given);
            assert((*client).ensures((&server, asked), given));
        }
        lemma_resolves_with_more(
            replies_of(&&ask),
            replies_from(client, server),
            start,
            outcome_view(outcome),
        );
    }
    ResolutionOutcome { item, outcome }
}

/// Resolves a batch: plans it, and does every unit of work of the plan, one
/// after the other. There is one outcome for every address, in the order of
/// the addresses, whatever came of the others. Without endpoints nothing is
/// asked and the batch fails.
pub fn resolve_all<G: Fn(&Endpoint, &str) -> QueryReply>(
    addresses: &Vec<IpAddress>,
    endpoints: Vec<Endpoint>,
    client: &G,
) -> (batch: Result<Vec<ResolutionOutcome>, ConfigError>)
    requires
        forall|at: &Endpoint, asked: &str| (*client).requires((at, asked)),
    ensures
        endpoints@.len() == 0 <==> batch is Err,
        batch matches Err(e) ==> e == ConfigError::NoEndpoints,
        batch matches Ok(outcomes) ==> outcomes@.len() == addresses@.len() && forall|i: int|
            0 <= i < outcomes@.len() ==> outcome_of(
                client,
                planned(addresses@, endpoints@)[i],
                #[trigger] outcomes@[i],
            ),
{
    let ghost servers = endpoints@;
    let items = match plan(addresses, endpoints) {
        Err(e) => {
            return Err(e);
        },
        Ok(items) => items,
    };
    let mut outcomes: Vec<ResolutionOutcome> = Vec::new();
    let mut done: usize = 0;
    while done < items.len()
        invariant
            done <= items.len(),
            items@ == planned(addresses@, servers),
            outcomes@.len() == done,
            forall|at: &Endpoint, asked: &str| (*client).requires((at, asked)),
            forall|i: int|
                0 <= i < done ==> outcome_of(client, items@[i], #[trigger] outcomes@[i]),
        decreases items.len() - done,
    {
        let outcome = resolve_item(items[done], client);
        outcomes.push(outcome);
        done = done + 1;
    }
    Ok(outcomes)
}

} // verus!
