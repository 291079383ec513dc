//! What is asked for while an object store is being opened, and how a store that is made of others
//! is opened through them, whatever the options are.

use crate::analytic_engine::config::{
    AliyunOptions, CacheOptions, LocalOptions, ObjectStoreOptions, Parts, StorageOptions,
};
use crate::analytic_engine::error::Error;
use crate::analytic_engine::storage::{
    leads_to_one_store, lemma_plan_adds_one_store, mem_cache_plan, op_needs, op_stores,
    open_storage, storage_plan, storage_state, StorageOpening, StorageState, StoreAction,
    StoreEvent, StoreOp,
};
use crate::analytic_engine::storage_laws::law_storage_outcome_is_final;
use vstd::prelude::*;

verus! {

/// A call of `action` gives what its state asks for, and a call of `advance` takes the state on.
pub proof fn law_opening_is_its_state<'a, P: Parts>(
    opening: StorageOpening<'a, P>,
    action: Option<StoreAction<'a, P>>,
    event: StoreEvent<P>,
    next: StorageOpening<'a, P>,
)
    requires
        call_ensures(StorageOpening::<'a, P>::action, (&opening,), action),
        call_ensures(StorageOpening::<'a, P>::advance, (opening, event), next),
    ensures
        action == opening@.action(),
        next@ == opening@.run(seq![event]),
        opening@ matches StorageState::Opened { store } ==> (opening matches StorageOpening::Opened {
            store: s,
        } && s == store),
        opening@ matches StorageState::Failed { error } ==> (opening matches StorageOpening::Failed {
            error: e,
        } && e == error),
{
    reveal_with_fuel(StorageState::run, 2);
}

/// A local store is kept in the directory `store` under its data path: the directory is created,
/// then the store is opened in it. Without a memory cache that store is the outcome. With one, the
/// cache of the given partitions and capacity is put in front of it and is the outcome.
pub proof fn law_local_store_is_in_its_directory<'a, P: Parts>(
    options: &'a StorageOptions<P>,
    local: LocalOptions,
    store: P::Store,
    cached: P::Store,
    states: Seq<StorageOpening<'a, P>>,
    actions: Seq<Option<StoreAction<'a, P>>>,
)
    requires
        options.object_store == ObjectStoreOptions::<P>::Local(local),
        call_ensures(open_storage::<P>, (options,), states[0]),
        call_ensures(
            StorageOpening::<'a, P>::advance,
            (states[0], StoreEvent::DirCreated),
            states[1],
        ),
        call_ensures(
            StorageOpening::<'a, P>::advance,
            (states[1], StoreEvent::StoreOpened { store }),
            states[2],
        ),
        call_ensures(
            StorageOpening::<'a, P>::advance,
            (states[2], StoreEvent::StoreOpened { store: cached }),
            states[3],
        ),
        forall|i: int|
            0 <= i < 4 ==> call_ensures(
                StorageOpening::<'a, P>::action,
                (&#[trigger] states[i],),
                actions[i],
            ),
    ensures
        actions[0] matches Some(StoreAction::CreateDir { base, name }) && base@ == local.data_path@
            && name@ == "store"@,
        actions[1] matches Some(StoreAction::OpenLocal { base, name }) && base@ == local.data_path@
            && name@ == "store"@,
        options.mem_cache_capacity == 0 ==> actions[2] is None && (
        states[2] matches StorageOpening::Opened { store: s } && s == store),
        options.mem_cache_capacity != 0 ==> {
            &&& actions[2] matches Some(
                StoreAction::WrapMemCache { partition_bits, capacity, store: s },
            ) && partition_bits == options.mem_cache_partition_bits && capacity
                == options.mem_cache_capacity as usize && *s == store
            &&& actions[3] is None
            &&& states[3] matches StorageOpening::Opened { store: s } && s == cached
        },
{
    let plan = storage_plan(options);
    let none = Seq::<P::Store>::empty();
    assert(plan.drop_first().drop_first() =~= mem_cache_plan(options));
    assert(none.take(0).push(store) =~= seq![store]);
    assert(seq![store].take(0).push(cached) =~= seq![cached]);
    assert(mem_cache_plan(options).len() == 1 ==> mem_cache_plan(options).drop_first().len() == 0);
}

/// A bucket is opened with its options, all of them. Without a memory cache it is the outcome. With
/// one, the cache of the given partitions and capacity is put in front of it and is the outcome.
pub proof fn law_bucket_is_opened_with_its_options<'a, P: Parts>(
    options: &'a StorageOptions<P>,
    aliyun: AliyunOptions,
    store: P::Store,
    cached: P::Store,
    states: Seq<StorageOpening<'a, P>>,
    actions: Seq<Option<StoreAction<'a, P>>>,
)
    requires
        options.object_store == ObjectStoreOptions::<P>::Aliyun(aliyun),
        call_ensures(open_storage::<P>, (options,), states[0]),
        call_ensures(
            StorageOpening::<'a, P>::advance,
            (states[0], StoreEvent::StoreOpened { store }),
            states[1],
        ),
        call_ensures(
            StorageOpening::<'a, P>::advance,
            (states[1], StoreEvent::StoreOpened { store: cached }),
            states[2],
        ),
        forall|i: int|
            0 <= i < 3 ==> call_ensures(
                StorageOpening::<'a, P>::action,
                (&#[trigger] states[i],),
                actions[i],
            ),
    ensures
        actions[0] matches Some(StoreAction::OpenAliyun { options: o }) && {
            &&& o.key_id@ == aliyun.key_id@
            &&& o.key_secret@ == aliyun.key_secret@
            &&& o.endpoint@ == aliyun.endpoint@
            &&& o.bucket@ == aliyun.bucket@
        },
        options.mem_cache_capacity == 0 ==> actions[1] is None && (
        states[1] matches StorageOpening::Opened { store: s } && s == store),
        options.mem_cache_capacity != 0 ==> {
            &&& actions[1] matches Some(
                StoreAction::WrapMemCache { partition_bits, capacity, store: s },
            ) && partition_bits == options.mem_cache_partition_bits && capacity
                == options.mem_cache_capacity as usize && *s == store
            &&& actions[2] is None
            &&& states[2] matches StorageOpening::Opened { store: s } && s == cached
        },
{
    let plan = storage_plan(options);
    let none = Seq::<P::Store>::empty();
    assert(plan.drop_first() =~= mem_cache_plan(options));
    assert(none.take(0).push(store) =~= seq![store]);
    assert(seq![store].take(0).push(cached) =~= seq![cached]);
    assert(mem_cache_plan(options).len() == 1 ==> mem_cache_plan(options).drop_first().len() == 0);
}

/// A failure ends the opening with an error that names what was being done and why it failed. What
/// cannot fail does not, and what does not answer the question in hand changes nothing.
pub proof fn law_store_failure_names_what_failed<'a, P: Parts>(
    opening: StorageOpening<'a, P>,
    action: StoreAction<'a, P>,
    event: StoreEvent<P>,
    next: StorageOpening<'a, P>,
)
    requires
        call_ensures(StorageOpening::<'a, P>::action, (&opening,), Some(action)),
        call_ensures(StorageOpening::<'a, P>::advance, (opening, event), next),
    ensures
        match (action, event) {
            (StoreAction::CreateDir { base, name }, StoreEvent::DirFailed { source }) => {
                next matches StorageOpening::Failed { error: Error::CreateDir { path, source: s } }
                    && path.base@ == base@ && path.name@ == name@ && s == source
            },
            (StoreAction::CreateDir { .. }, StoreEvent::DirCreated) => !(next is Failed),
            (StoreAction::CreateDir { .. }, _) => next@ == opening@,
            (StoreAction::OpenLocal { .. }, StoreEvent::StoreFailed { source }) => {
                next matches StorageOpening::Failed { error: Error::OpenObjectStore { source: s } }
                    && s == source
            },
            (StoreAction::InitCache { .. }, StoreEvent::StoreFailed { source }) => {
                next matches StorageOpening::Failed { error: Error::OpenObjectStore { source: s } }
                    && s == source
            },
            (_, StoreEvent::StoreOpened { .. }) => !(next is Failed),
            _ => next@ == opening@,
        },
{
}

/// The opening of a part as it looks when `base` stores are open beneath it and `rest` is left to
/// do after it.
spec fn within<'a, P: Parts>(
    part: StorageState<'a, P>,
    base: Seq<P::Store>,
    rest: Seq<StoreOp<'a, P>>,
) -> StorageState<'a, P> {
    match part {
        StorageState::Opening { todo, stores } => StorageState::Opening {
            todo: todo + rest,
            stores: base + stores,
        },
        StorageState::Opened { store } => storage_state(rest, base.push(store)),
        StorageState::Failed { error } => StorageState::Failed { error },
    }
}

/// The opening has something left to do and leads to one store.
spec fn leads_on<'a, P: Parts>(state: StorageState<'a, P>) -> bool {
    state matches StorageState::Opening { todo, stores } && todo.len() > 0 && leads_to_one_store(
        todo,
        stores.len() as int,
    )
}

/// One answer takes a part on in the same way within the whole.
proof fn lemma_part_step<'a, P: Parts>(
    part: StorageState<'a, P>,
    base: Seq<P::Store>,
    rest: Seq<StoreOp<'a, P>>,
    event: StoreEvent<P>,
)
    requires
        leads_on(part),
    ensures
        within(part, base, rest).action() == part.action(),
        within(part, base, rest).advance(event) == within(part.advance(event), base, rest),
        part.advance(event) is Opening ==> leads_on(part.advance(event)),
{
    reveal_with_fuel(leads_to_one_store, 2);
    if let StorageState::Opening { todo, stores } = part {
        let op = todo[0];
        assert((todo + rest)[0] == op);
        assert((todo + rest).drop_first() =~= todo.drop_first() + rest);
        let needs = op_needs(op);
        assert((base + stores).take((base + stores).len() - needs) =~= base + stores.take(
            stores.len() - needs,
        ));
        let after = op_stores(op, event, stores);
        assert(op_stores(op, event, base + stores) =~= base + after);
        if todo.drop_first().len() == 0 {
            assert(todo.drop_first() + rest =~= rest);
            if after.len() == 1 {
                assert(base + after =~= base.push(after[0]));
            }
        }
    }
}

/// Answers take a part on in the same way within the whole, up to the one that opens it.
proof fn lemma_part_runs<'a, P: Parts>(
    part: StorageState<'a, P>,
    base: Seq<P::Store>,
    rest: Seq<StoreOp<'a, P>>,
    events: Seq<StoreEvent<P>>,
)
    requires
        leads_on(part),
        events.len() > 0 ==> part.run(events.drop_last()) is Opening,
    ensures
        within(part, base, rest).run(events) == within(part.run(events), base, rest),
        part.run(events) is Opening ==> leads_on(part.run(events)) && within(
            part,
            base,
            rest,
        ).run(events).action() == part.run(events).action(),
    decreases events.len(),
{
    reveal_with_fuel(StorageState::run, 2);
    if events.len() == 0 {
        lemma_part_step(part, base, rest, StoreEvent::DirCreated);
    } else {
        lemma_part_step(part, base, rest, events[0]);
        let next = part.advance(events[0]);
        let left = events.drop_first();
        if left.len() == 0 {
            if next is Opening {
                lemma_part_step(next, base, rest, StoreEvent::DirCreated);
            }
        } else {
            assert(events.drop_last().drop_first() =~= left.drop_last());
            if !(next is Opening) {
                law_storage_outcome_is_final(next, left.drop_last());
            }
            lemma_part_runs(next, base, rest, left);
        }
    }
}

/// A part that fails makes the whole fail.
proof fn lemma_part_fails<'a, P: Parts>(
    part: StorageState<'a, P>,
    base: Seq<P::Store>,
    rest: Seq<StoreOp<'a, P>>,
    events: Seq<StoreEvent<P>>,
)
    requires
        leads_on(part),
        part.run(events) is Failed,
    ensures
        within(part, base, rest).run(events) == part.run(events),
    decreases events.len(),
{
    if events.len() > 0 {
        lemma_part_step(part, base, rest, events[0]);
        let next = part.advance(events[0]);
        if next is Opening {
            lemma_part_fails(next, base, rest, events.drop_first());
        } else {
            law_storage_outcome_is_final(next, events.drop_first());
            if next is Failed {
                law_storage_outcome_is_final(within(next, base, rest), events.drop_first());
            }
        }
    }
}

/// Answers can be handed over in two portions.
proof fn lemma_portions<'a, P: Parts>(
    state: StorageState<'a, P>,
    first: Seq<StoreEvent<P>>,
    second: Seq<StoreEvent<P>>,
)
    ensures
        state.run(first + second) == state.run(first).run(second),
    decreases first.len(),
{
    if first.len() == 0 {
        assert(first + second =~= second);
    } else {
        assert((first + second).drop_first() =~= first.drop_first() + second);
        lemma_portions(state.advance(first[0]), first.drop_first(), second);
    }
}

/// What opens a store leads to it.
proof fn lemma_fresh_leads_on<'a, P: Parts>(options: &'a StorageOptions<P>)
    ensures
        leads_on(
            StorageState::Opening {
                todo: storage_plan(options),
                stores: Seq::<P::Store>::empty(),
            },
        ),
{
    lemma_plan_adds_one_store(options, Seq::empty(), 0);
    assert(storage_plan(options) + Seq::empty() =~= storage_plan(options));
}

/// A store that stays open to the answers so far was open to all of the earlier ones.
proof fn lemma_stays_open<'a, P: Parts>(
    state: StorageState<'a, P>,
    events: Seq<StoreEvent<P>>,
    n: int,
)
    requires
        0 <= n <= events.len(),
        state.run(events) is Opening,
    ensures
        state.run(events.take(n)) is Opening,
{
    assert(events.take(n) + events.skip(n) =~= events);
    lemma_portions(state, events.take(n), events.skip(n));
    if !(state.run(events.take(n)) is Opening) {
        law_storage_outcome_is_final(state.run(events.take(n)), events.skip(n));
    }
}

/// While a part is being opened, the whole asks for what the part asks for.
proof fn lemma_whole_asks_as_part<'a, P: Parts>(
    part: StorageState<'a, P>,
    base: Seq<P::Store>,
    rest: Seq<StoreOp<'a, P>>,
    events: Seq<StoreEvent<P>>,
    n: int,
)
    requires
        leads_on(part),
        0 <= n < events.len(),
        part.run(events.drop_last()) is Opening,
    ensures
        within(part, base, rest).run(events.take(n)).action() == part.run(events.take(n)).action(),
{
    let init = events.drop_last();
    assert(init.take(n) =~= events.take(n));
    lemma_stays_open(part, init, n);
    if n > 0 {
        assert(init.take(n - 1) =~= events.take(n).drop_last());
        lemma_stays_open(part, init, n - 1);
    }
    lemma_part_runs(part, base, rest, events.take(n));
}

/// How the opening of a cached store goes through those of its parts.
proof fn lemma_whole_through_parts<'a, P: Parts>(
    options: &'a StorageOptions<P>,
    cache: CacheOptions<P>,
    local_store: P::Store,
) -> (rests: (Seq<StoreOp<'a, P>>, Seq<StoreOp<'a, P>>))
    requires
        options.object_store == ObjectStoreOptions::<P>::Cache(cache),
    ensures
        ({
            let none = Seq::<P::Store>::empty();
            let whole = StorageState::Opening { todo: storage_plan(options), stores: none };
            let local = StorageState::Opening {
                todo: storage_plan(&*cache.local_store),
                stores: none,
            };
            let remote = StorageState::Opening {
                todo: storage_plan(&*cache.remote_store),
                stores: none,
            };
            let init: StoreOp<'a, P> = StoreOp::InitCache { options: &cache.cache_opts };
            &&& leads_on(local)
            &&& leads_on(remote)
            &&& rests.1 == seq![init] + mem_cache_plan(options)
            &&& whole == within(local, none, rests.0)
            &&& storage_state(rests.0, none.push(local_store)) == within(
                remote,
                seq![local_store],
                rests.1,
            )
        }),
{
    let none = Seq::<P::Store>::empty();
    let init: StoreOp<'a, P> = StoreOp::InitCache { options: &cache.cache_opts };
    let after_remote = seq![init] + mem_cache_plan(options);
    let remote_plan = storage_plan(&*cache.remote_store);
    let after_local = remote_plan + after_remote;
    lemma_fresh_leads_on(&*cache.local_store);
    lemma_fresh_leads_on(&*cache.remote_store);
    assert(storage_plan(options) =~= storage_plan(&*cache.local_store) + after_local);
    assert(none + none =~= none);
    assert(none.push(local_store) =~= seq![local_store] + none);
    (after_local, after_remote)
}

/// A cached store is opened through its parts: first its local store, as that store is opened by
/// itself, then its remote store likewise, and then the first is made the cache of the second with
/// the options of the cache. Without a memory cache that is the outcome. With one, the cache of the
/// given partitions and capacity is put in front of it and is the outcome.
pub proof fn law_cached_store_is_opened_through_its_parts<'a, P: Parts>(
    options: &'a StorageOptions<P>,
    cache: CacheOptions<P>,
    whole: StorageOpening<'a, P>,
    local: StorageOpening<'a, P>,
    local_events: Seq<StoreEvent<P>>,
    local_store: P::Store,
    remote: StorageOpening<'a, P>,
    remote_events: Seq<StoreEvent<P>>,
    remote_store: P::Store,
    store: P::Store,
    cached: P::Store,
)
    requires
        options.object_store == ObjectStoreOptions::<P>::Cache(cache),
        call_ensures(open_storage::<P>, (options,), whole),
        call_ensures(open_storage::<P>, (&*cache.local_store,), local),
        call_ensures(open_storage::<P>, (&*cache.remote_store,), remote),
        local_events.len() > 0,
        local@.run(local_events.drop_last()) is Opening,
        local@.run(local_events) matches StorageState::Opened { store: l } && l == local_store,
        remote_events.len() > 0,
        remote@.run(remote_events.drop_last()) is Opening,
        remote@.run(remote_events) matches StorageState::Opened { store: r } && r == remote_store,
    ensures
        forall|n: int|
            0 <= n < local_events.len() ==> whole@.run(#[trigger] local_events.take(n)).action()
                == local@.run(local_events.take(n)).action(),
        forall|n: int|
            0 <= n < remote_events.len() ==> whole@.run(
                local_events + #[trigger] remote_events.take(n),
            ).action() == remote@.run(remote_events.take(n)).action(),
        ({
            let parts_open = whole@.run(local_events + remote_events);
            let opened = parts_open.run(seq![StoreEvent::StoreOpened { store }]);
            let behind_cache = opened.run(seq![StoreEvent::StoreOpened { store: cached }]);
            &&& parts_open.action() matches Some(
                StoreAction::InitCache { local: l, remote: r, options: o },
            ) && *l == local_store && *r == remote_store && *o == cache.cache_opts
            &&& options.mem_cache_capacity == 0 ==> (opened matches StorageState::Opened {
                store: s,
            } && s == store)
            &&& options.mem_cache_capacity != 0 ==> {
                &&& opened.action() matches Some(
                    StoreAction::WrapMemCache { partition_bits, capacity, store: s },
                ) && partition_bits == options.mem_cache_partition_bits && capacity
                    == options.mem_cache_capacity as usize && *s == store
                &&& behind_cache matches StorageState::Opened { store: s } && s == cached
            }
        }),
{
    let none = Seq::<P::Store>::empty();
    let (after_local, after_remote) = lemma_whole_through_parts(options, cache, local_store);
    assert forall|n: int| 0 <= n < local_events.len() implies whole@.run(
        #[trigger] local_events.take(n),
    ).action() == local@.run(local_events.take(n)).action() by {
        lemma_whole_asks_as_part(local@, none, after_local, local_events, n);
    }
    lemma_part_runs(local@, none, after_local, local_events);
    let base = seq![local_store];
    assert(whole@.run(local_events) == within(remote@, base, after_remote));
    assert forall|n: int| 0 <= n < remote_events.len() implies whole@.run(
        local_events + #[trigger] remote_events.take(n),
    ).action() == remote@.run(remote_events.take(n)).action() by {
        lemma_portions(whole@, local_events, remote_events.take(n));
        lemma_whole_asks_as_part(remote@, base, after_remote, remote_events, n);
    }
    lemma_portions(whole@, local_events, remote_events);
    lemma_part_runs(remote@, base, after_remote, remote_events);
    let two = base.push(remote_store);
    let parts_open = whole@.run(local_events + remote_events);
    assert(parts_open == storage_state(after_remote, two));
    reveal_with_fuel(StorageState::run, 2);
    assert(after_remote.drop_first() =~= mem_cache_plan(options));
    assert(two.take(0).push(store) =~= seq![store]);
    assert(seq![store].take(0).push(cached) =~= seq![cached]);
    assert(mem_cache_plan(options).len() == 1 ==> mem_cache_plan(options).drop_first().len() == 0);
}

/// A cached store cannot be opened when one of its parts cannot: it fails with the error of the
/// local store, or else with that of the remote one.
pub proof fn law_cached_store_fails_with_its_parts<'a, P: Parts>(
    options: &'a StorageOptions<P>,
    cache: CacheOptions<P>,
    whole: StorageOpening<'a, P>,
    local: StorageOpening<'a, P>,
    local_events: Seq<StoreEvent<P>>,
    remote: StorageOpening<'a, P>,
    remote_events: Seq<StoreEvent<P>>,
)
    requires
        options.object_store == ObjectStoreOptions::<P>::Cache(cache),
        call_ensures(open_storage::<P>, (options,), whole),
        call_ensures(open_storage::<P>, (&*cache.local_store,), local),
        call_ensures(open_storage::<P>, (&*cache.remote_store,), remote),
    ensures
        local@.run(local_events) matches StorageState::Failed { error } ==> (whole@.run(
            local_events,
        ) matches StorageState::Failed { error: e } && e == error),
        local_events.len() > 0 && local@.run(local_events.drop_last()) is Opening && local@.run(
            local_events,
        ) is Opened ==> (remote@.run(remote_events) matches StorageState::Failed { error } ==> (
        whole@.run(local_events + remote_events) matches StorageState::Failed { error: e } && e
            == error)),
{
    let none = Seq::<P::Store>::empty();
    let outcome = local@.run(local_events);
    if outcome is Failed {
        let (after_local, _) = lemma_whole_through_parts(options, cache, arbitrary());
        lemma_part_fails(local@, none, after_local, local_events);
    }
    if let StorageState::Opened { store } = outcome {
        if local_events.len() > 0 && local@.run(local_events.drop_last()) is Opening
            && remote@.run(remote_events) is Failed {
            let (after_local, after_remote) = lemma_whole_through_parts(options, cache, store);
            lemma_part_runs(local@, none, after_local, local_events);
            lemma_portions(whole@, local_events, remote_events);
            lemma_part_fails(remote@, seq![store], after_remote, remote_events);
        }
    }
}

} // verus!
