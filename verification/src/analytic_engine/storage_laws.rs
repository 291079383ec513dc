//! What holds of every opening of an object store.

use crate::analytic_engine::config::{
    AliyunOptions, ObjectStoreOptions, Parts, StorageOptions,
};
use crate::analytic_engine::error::Error;
use crate::analytic_engine::storage::{
    mem_cache_plan, object_store_plan, op_done, op_error, op_stores, storage_plan, storage_state,
    StorageState, StoreAction, StoreEvent, StoreOp, STORE_DIR_NAME,
};
use vstd::prelude::*;

verus! {

/// How a store is put together.
pub enum StoreShape<'a, P: Parts> {
    /// The directory `name` under `base`.
    Local { base: &'a String, name: &'static str },

    /// A bucket.
    Aliyun { aliyun: &'a AliyunOptions },

    /// `local` as the cache of `remote`.
    Cached {
        local: Box<StoreShape<'a, P>>,
        remote: Box<StoreShape<'a, P>>,
        cache_opts: &'a P::DiskCacheOptions,
    },

    /// `store` behind a memory cache.
    MemCached { partition_bits: usize, capacity: usize, store: Box<StoreShape<'a, P>> },
}

/// The shape of the store that `options` describes, without its memory cache.
pub open spec fn object_store_shape<'a, P: Parts>(
    options: &'a ObjectStoreOptions<P>,
) -> StoreShape<'a, P>
    decreases options,
{
    match options {
        ObjectStoreOptions::Local(local) => StoreShape::Local {
            base: &local.data_path,
            name: STORE_DIR_NAME,
        },
        ObjectStoreOptions::Aliyun(aliyun) => StoreShape::Aliyun { aliyun },
        ObjectStoreOptions::Cache(cache) => StoreShape::Cached {
            local: Box::new(storage_shape(&*cache.local_store)),
            remote: Box::new(storage_shape(&*cache.remote_store)),
            cache_opts: &cache.cache_opts,
        },
    }
}

/// The shape of the store that `options` describes.
pub open spec fn storage_shape<'a, P: Parts>(options: &'a StorageOptions<P>) -> StoreShape<'a, P>
    decreases options,
{
    if options.mem_cache_capacity == 0 {
        object_store_shape(&options.object_store)
    } else {
        StoreShape::MemCached {
            partition_bits: options.mem_cache_partition_bits,
            capacity: options.mem_cache_capacity as usize,
            store: Box::new(object_store_shape(&options.object_store)),
        }
    }
}

/// The shape of the store that `action` makes, where `shape_of` gives those of the
/// stores that it works on.
pub open spec fn made_shape<'a, P: Parts>(
    action: StoreAction<'a, P>,
    shape_of: spec_fn(P::Store) -> StoreShape<'a, P>,
) -> StoreShape<'a, P> {
    match action {
        StoreAction::CreateDir { base, name } => StoreShape::Local { base, name },
        StoreAction::OpenLocal { base, name } => StoreShape::Local { base, name },
        StoreAction::OpenAliyun { options } => StoreShape::Aliyun { aliyun: options },
        StoreAction::InitCache { local, remote, options } => StoreShape::Cached {
            local: Box::new(shape_of(*local)),
            remote: Box::new(shape_of(*remote)),
            cache_opts: options,
        },
        StoreAction::WrapMemCache { partition_bits, capacity, store } => StoreShape::MemCached {
            partition_bits,
            capacity,
            store: Box::new(shape_of(*store)),
        },
    }
}

/// `event` says that what `state` asks for has been done, and any store that it brings
/// is the one asked for.
pub open spec fn does_what_is_asked<'a, P: Parts>(
    state: StorageState<'a, P>,
    event: StoreEvent<P>,
    shape_of: spec_fn(P::Store) -> StoreShape<'a, P>,
) -> bool {
    match (state.action(), event) {
        (Some(StoreAction::CreateDir { .. }), StoreEvent::DirCreated) => true,
        (Some(StoreAction::CreateDir { .. }), _) => false,
        (Some(action), StoreEvent::StoreOpened { store }) => shape_of(store) == made_shape(
            action,
            shape_of,
        ),
        _ => false,
    }
}

/// Each of `events` in turn does what is asked.
pub open spec fn all_do_what_is_asked<'a, P: Parts>(
    state: StorageState<'a, P>,
    events: Seq<StoreEvent<P>>,
    shape_of: spec_fn(P::Store) -> StoreShape<'a, P>,
) -> bool
    decreases events.len(),
{
    events.len() > 0 ==> {
        &&& does_what_is_asked(state, events[0], shape_of)
        &&& all_do_what_is_asked(state.advance(events[0]), events.drop_first(), shape_of)
    }
}

/// An answer that does what is asked moves on to the next operation.
proof fn lemma_done_op<'a, P: Parts>(
    op: StoreOp<'a, P>,
    rest: Seq<StoreOp<'a, P>>,
    stores: Seq<P::Store>,
    events: Seq<StoreEvent<P>>,
    shape_of: spec_fn(P::Store) -> StoreShape<'a, P>,
)
    requires
        events.len() > 0,
        all_do_what_is_asked(storage_state(seq![op] + rest, stores), events, shape_of),
    ensures
        op_done(op, events[0]),
        op_error(op, events[0]) is None,
        does_what_is_asked(storage_state(seq![op] + rest, stores), events[0], shape_of),
        storage_state(seq![op] + rest, stores).run(events) == storage_state(
            rest,
            op_stores(op, events[0], stores),
        ).run(events.skip(1)),
        all_do_what_is_asked(
            storage_state(rest, op_stores(op, events[0], stores)),
            events.skip(1),
            shape_of,
        ),
{
    assert(events.drop_first() =~= events.skip(1));
    assert((seq![op] + rest).drop_first() =~= rest);
}

/// Carrying out a plan for the store without its memory cache leaves it open on top
/// of the stores that were open before.
proof fn lemma_object_store_plan<'a, P: Parts>(
    options: &'a ObjectStoreOptions<P>,
    rest: Seq<StoreOp<'a, P>>,
    stores: Seq<P::Store>,
    events: Seq<StoreEvent<P>>,
    shape_of: spec_fn(P::Store) -> StoreShape<'a, P>,
) -> (store: P::Store)
    requires
        events.len() >= object_store_plan(options).len(),
        all_do_what_is_asked(
            storage_state(object_store_plan(options) + rest, stores),
            events,
            shape_of,
        ),
    ensures
        shape_of(store) == object_store_shape(options),
        storage_state(object_store_plan(options) + rest, stores).run(events) == storage_state(
            rest,
            stores.push(store),
        ).run(events.skip(object_store_plan(options).len() as int)),
        all_do_what_is_asked(
            storage_state(rest, stores.push(store)),
            events.skip(object_store_plan(options).len() as int),
            shape_of,
        ),
    decreases options,
{
    let plan = object_store_plan(options);
    match options {
        ObjectStoreOptions::Local(local) => {
            let create = StoreOp::CreateDir { base: &local.data_path };
            let open = StoreOp::OpenLocal { base: &local.data_path };
            assert(plan + rest =~= seq![create] + (seq![open] + rest));
            lemma_done_op(create, seq![open] + rest, stores, events, shape_of);
            lemma_done_op(open, rest, stores, events.skip(1), shape_of);
            assert(events.skip(1).skip(1) =~= events.skip(2));
            assert(stores.take(stores.len() as int) =~= stores);
            events[1]->store
        },
        ObjectStoreOptions::Aliyun(aliyun) => {
            let open = StoreOp::OpenAliyun { options: aliyun };
            assert(plan + rest =~= seq![open] + rest);
            lemma_done_op(open, rest, stores, events, shape_of);
            assert(stores.take(stores.len() as int) =~= stores);
            events[0]->store
        },
        ObjectStoreOptions::Cache(cache) => {
            let init = StoreOp::InitCache { options: &cache.cache_opts };
            let local_plan = storage_plan(&*cache.local_store);
            let remote_plan = storage_plan(&*cache.remote_store);
            let after_remote = seq![init] + rest;
            let after_local = remote_plan + after_remote;
            assert(plan + rest =~= local_plan + after_local);
            let local = lemma_storage_plan(
                &*cache.local_store,
                after_local,
                stores,
                events,
                shape_of,
            );
            let stores1 = stores.push(local);
            let events1 = events.skip(local_plan.len() as int);
            let remote = lemma_storage_plan(
                &*cache.remote_store,
                after_remote,
                stores1,
                events1,
                shape_of,
            );
            let stores2 = stores1.push(remote);
            let events2 = events1.skip(remote_plan.len() as int);
            lemma_done_op(init, rest, stores2, events2, shape_of);
            assert(stores2.take(stores2.len() - 2) =~= stores);
            assert(events2.skip(1) =~= events.skip(plan.len() as int));
            events2[0]->store
        },
    }
}

/// Carrying out a plan leaves the store open on top of the stores that were open before.
proof fn lemma_storage_plan<'a, P: Parts>(
    options: &'a StorageOptions<P>,
    rest: Seq<StoreOp<'a, P>>,
    stores: Seq<P::Store>,
    events: Seq<StoreEvent<P>>,
    shape_of: spec_fn(P::Store) -> StoreShape<'a, P>,
) -> (store: P::Store)
    requires
        events.len() >= storage_plan(options).len(),
        all_do_what_is_asked(storage_state(storage_plan(options) + rest, stores), events, shape_of),
    ensures
        shape_of(store) == storage_shape(options),
        storage_state(storage_plan(options) + rest, stores).run(events) == storage_state(
            rest,
            stores.push(store),
        ).run(events.skip(storage_plan(options).len() as int)),
        all_do_what_is_asked(
            storage_state(rest, stores.push(store)),
            events.skip(storage_plan(options).len() as int),
            shape_of,
        ),
    decreases options,
{
    let plan = storage_plan(options);
    let mem = mem_cache_plan(options);
    let inner_plan = object_store_plan(&options.object_store);
    assert(plan + rest =~= inner_plan + (mem + rest));
    let inner = lemma_object_store_plan(
        &options.object_store,
        mem + rest,
        stores,
        events,
        shape_of,
    );
    let events1 = events.skip(inner_plan.len() as int);
    if options.mem_cache_capacity == 0 {
        assert(mem + rest =~= rest);
        inner
    } else {
        let stores1 = stores.push(inner);
        lemma_done_op(mem[0], rest, stores1, events1, shape_of);
        assert(mem + rest =~= seq![mem[0]] + rest);
        assert(stores1.take(stores1.len() - 1) =~= stores);
        assert(events1.skip(1) =~= events.skip(plan.len() as int));
        events1[0]->store
    }
}

/// The store that is opened has the shape that the options describe: when each step has
/// been answered with what it asked for, the opening ends, after exactly as many steps as
/// are planned, with a store of that shape.
pub proof fn law_opened_store_has_configured_shape<'a, P: Parts>(
    options: &'a StorageOptions<P>,
    events: Seq<StoreEvent<P>>,
    shape_of: spec_fn(P::Store) -> StoreShape<'a, P>,
)
    requires
        events.len() == storage_plan(options).len(),
        all_do_what_is_asked(
            StorageState::Opening { todo: storage_plan(options), stores: Seq::empty() },
            events,
            shape_of,
        ),
    ensures
        (StorageState::Opening { todo: storage_plan(options), stores: Seq::empty() }).run(
            events,
        ) matches StorageState::Opened { store } && shape_of(store) == storage_shape(options),
{
    let none = Seq::<P::Store>::empty();
    assert(storage_plan(options) + Seq::empty() =~= storage_plan(options));
    let store = lemma_storage_plan(options, Seq::empty(), none, events, shape_of);
    assert(events.skip(events.len() as int) =~= Seq::empty());
    assert(none.push(store)[0] == store);
}

/// An open store and a failure are final: nothing more is asked for and no answer
/// changes the outcome.
pub proof fn law_storage_outcome_is_final<'a, P: Parts>(
    state: StorageState<'a, P>,
    events: Seq<StoreEvent<P>>,
)
    requires
        !(state is Opening),
    ensures
        state.action() is None,
        state.run(events) == state,
    decreases events.len(),
{
    if events.len() > 0 {
        law_storage_outcome_is_final(state, events.drop_first());
    }
}

/// Answers can be handed over in two portions.
proof fn lemma_run_in_portions<'a, P: Parts>(
    state: StorageState<'a, P>,
    first: Seq<StoreEvent<P>>,
    second: Seq<StoreEvent<P>>,
)
    ensures
        state.run(first + second) == state.run(first).run(second),
    decreases first.len(),
{
    if first.len() == 0 {
        assert(first + second =~= second);
    } else {
        assert((first + second).drop_first() =~= first.drop_first() + second);
        lemma_run_in_portions(state.advance(first[0]), first.drop_first(), second);
    }
}

/// The first failure decides: the opening ends with its error, whatever is answered
/// after it.
pub proof fn law_first_storage_failure_decides<'a, P: Parts>(
    state: StorageState<'a, P>,
    before: Seq<StoreEvent<P>>,
    failure: StoreEvent<P>,
    after: Seq<StoreEvent<P>>,
    error: Error<P>,
)
    requires
        state.run(before) matches StorageState::Opening { todo, stores } && op_error(
            todo[0],
            failure,
        ) == Some(error),
    ensures
        state.run(before + seq![failure] + after) == (StorageState::Failed { error }),
{
    lemma_run_in_portions(state, before + seq![failure], after);
    lemma_run_in_portions(state, before, seq![failure]);
    let stopped = state.run(before).advance(failure);
    assert(seq![failure].drop_first() =~= Seq::empty());
    reveal_with_fuel(StorageState::run, 2);
    law_storage_outcome_is_final(stopped, after);
}

/// Nothing is done twice, skipped or done out of order: what is left to do after any
/// answers is what was left before without its first operations.
pub proof fn law_storage_work_follows_the_plan<'a, P: Parts>(
    state: StorageState<'a, P>,
    events: Seq<StoreEvent<P>>,
) -> (done: int)
    requires
        state matches StorageState::Opening { todo, stores: _ } ==> todo.len() > 0,
    ensures
        0 <= done <= events.len(),
        state.run(events) matches StorageState::Opening { todo: left, stores: _ } ==> {
            &&& state matches StorageState::Opening { todo, stores: _ }
            &&& done < todo.len()
            &&& left == todo.skip(done)
        },
    decreases events.len(),
{
    if events.len() == 0 {
        if let StorageState::Opening { todo, stores: _ } = state {
            assert(todo.skip(0) =~= todo);
        }
        0
    } else {
        let next = state.advance(events[0]);
        let done = law_storage_work_follows_the_plan(next, events.drop_first());
        match (state, next) {
            (
                StorageState::Opening { todo, stores: _ },
                StorageState::Opening { todo: todo1, stores: _ },
            ) => {
                if op_done(todo[0], events[0]) && op_error(todo[0], events[0]) is None {
                    if next.run(events.drop_first()) is Opening {
                        assert(todo.drop_first().skip(done) =~= todo.skip(done + 1));
                    }
                    done + 1
                } else {
                    done
                }
            },
            _ => {
                law_storage_outcome_is_final(next, events.drop_first());
                0
            },
        }
    }
}

} // verus!
