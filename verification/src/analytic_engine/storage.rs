//! Opening the object store of an engine.

use crate::analytic_engine::config::{
    AliyunOptions, ObjectStoreOptions, Parts, StorageOptions,
};
use crate::analytic_engine::error::{Error, SubDir};
use vstd::prelude::*;

verus! {

/// The directory under the data path in which a local store keeps its objects.
pub const STORE_DIR_NAME: &'static str = "store";

/// One thing to do while a store is being opened.
#[allow(inconsistent_fields)]
pub enum StoreOp<'a, P: Parts> {
    /// Create the directory of a local store, with its parents.
    CreateDir { base: &'a String },

    /// Open a local store in its directory.
    OpenLocal { base: &'a String },

    /// Open a bucket.
    OpenAliyun { options: &'a AliyunOptions },

    /// Put the store opened before the last one in front of the last one as its cache.
    InitCache { options: &'a P::DiskCacheOptions },

    /// Put a memory cache in front of the last store.
    WrapMemCache { partition_bits: usize, capacity: usize },
}

/// What opens the store without its memory cache.
pub open spec fn object_store_plan<'a, P: Parts>(options: &'a ObjectStoreOptions<P>) -> Seq<
    StoreOp<'a, P>,
>
    decreases options,
{
    match options {
        ObjectStoreOptions::Local(local) => seq![
            StoreOp::CreateDir { base: &local.data_path },
            StoreOp::OpenLocal { base: &local.data_path },
        ],
        ObjectStoreOptions::Aliyun(aliyun) => seq![StoreOp::OpenAliyun { options: aliyun }],
        ObjectStoreOptions::Cache(cache) => storage_plan(&*cache.local_store) + storage_plan(
            &*cache.remote_store,
        ) + seq![StoreOp::InitCache { options: &cache.cache_opts }],
    }
}

/// What puts the memory cache in front of the store: nothing for a capacity of zero.
pub open spec fn mem_cache_plan<'a, P: Parts>(options: &'a StorageOptions<P>) -> Seq<
    StoreOp<'a, P>,
> {
    if options.mem_cache_capacity == 0 {
        Seq::empty()
    } else {
        seq![
            StoreOp::WrapMemCache {
                partition_bits: options.mem_cache_partition_bits,
                capacity: options.mem_cache_capacity as usize,
            },
        ]
    }
}

/// What opens the store that `options` describes, in order.
pub open spec fn storage_plan<'a, P: Parts>(options: &'a StorageOptions<P>) -> Seq<StoreOp<'a, P>>
    decreases options,
{
    object_store_plan(&options.object_store) + mem_cache_plan(options)
}

/// Appends to `ops` what opens the store that `options` describes.
fn push_storage_plan<'a, P: Parts>(
    options: &'a StorageOptions<P>,
    ops: &mut Vec<StoreOp<'a, P>>,
)
    ensures
        final(ops)@ == old(ops)@ + storage_plan(options),
    decreases options,
{
    match &options.object_store {
        ObjectStoreOptions::Local(local) => {
            ops.push(StoreOp::CreateDir { base: &local.data_path });
            ops.push(StoreOp::OpenLocal { base: &local.data_path });
        },
        ObjectStoreOptions::Aliyun(aliyun) => {
            ops.push(StoreOp::OpenAliyun { options: aliyun });
        },
        ObjectStoreOptions::Cache(cache) => {
            push_storage_plan(&*cache.local_store, ops);
            push_storage_plan(&*cache.remote_store, ops);
            ops.push(StoreOp::InitCache { options: &cache.cache_opts });
        },
    }
    assert(ops@ =~= old(ops)@ + object_store_plan(&options.object_store));
    if options.mem_cache_capacity != 0 {
        ops.push(
            StoreOp::WrapMemCache {
                partition_bits: options.mem_cache_partition_bits,
                capacity: options.mem_cache_capacity as usize,
            },
        );
    }
}

/// The number of open stores that `op` works on.
pub open spec fn op_needs<P: Parts>(op: StoreOp<P>) -> int {
    match op {
        StoreOp::InitCache { .. } => 2,
        StoreOp::WrapMemCache { .. } => 1,
        _ => 0,
    }
}

/// By how many `op` changes the number of open stores.
pub open spec fn op_gains<P: Parts>(op: StoreOp<P>) -> int {
    match op {
        StoreOp::CreateDir { .. } => 0,
        StoreOp::OpenLocal { .. } => 1,
        StoreOp::OpenAliyun { .. } => 1,
        StoreOp::InitCache { .. } => -1,
        StoreOp::WrapMemCache { .. } => 0,
    }
}

/// With `open` stores at hand, each of `todo` finds the stores that it works on
/// and one store is left at the end.
pub open spec fn leads_to_one_store<P: Parts>(todo: Seq<StoreOp<P>>, open: int) -> bool
    decreases todo.len(),
{
    if todo.len() == 0 {
        open == 1
    } else {
        &&& op_needs(todo[0]) <= open
        &&& leads_to_one_store(todo.drop_first(), open + op_gains(todo[0]))
    }
}

/// The work on a store that is not open yet: what is left to do, and the stores
/// opened so far that nothing has been put in front of.
pub struct StorageWork<'a, P: Parts> {
    ops: Vec<StoreOp<'a, P>>,
    next: usize,
    stores: Vec<P::Store>,
}

impl<'a, P: Parts> StorageWork<'a, P> {
    /// What is left to do, in order.
    pub closed spec fn todo(self) -> Seq<StoreOp<'a, P>> {
        self.ops@.skip(self.next as int)
    }

    /// The stores that the work left to do starts from, the last one opened last.
    pub closed spec fn stores(self) -> Seq<P::Store> {
        self.stores@
    }

    #[verifier::type_invariant]
    spec fn wf(self) -> bool {
        &&& self.next < self.ops@.len()
        &&& leads_to_one_store(self.ops@.skip(self.next as int), self.stores@.len() as int)
    }
}

/// How far the opening of a store has come.
pub enum StorageOpening<'a, P: Parts> {
    /// Something is left to do.
    Opening(StorageWork<'a, P>),

    /// The store is open.
    Opened { store: P::Store },

    /// Something could not be done.
    Failed { error: Error<P> },
}

/// A [`StorageOpening`] with its work as plain sequences.
pub enum StorageState<'a, P: Parts> {
    Opening { todo: Seq<StoreOp<'a, P>>, stores: Seq<P::Store> },
    Opened { store: P::Store },
    Failed { error: Error<P> },
}

impl<'a, P: Parts> View for StorageOpening<'a, P> {
    type V = StorageState<'a, P>;

    open spec fn view(&self) -> StorageState<'a, P> {
        match *self {
            StorageOpening::Opening(work) => StorageState::Opening {
                todo: work.todo(),
                stores: work.stores(),
            },
            StorageOpening::Opened { store } => StorageState::Opened { store },
            StorageOpening::Failed { error } => StorageState::Failed { error },
        }
    }
}

/// What the surroundings are asked to do for a store.
#[allow(inconsistent_fields)]
pub enum StoreAction<'b, P: Parts> {
    /// Create the directory `name` under `base`, with its parents.
    CreateDir { base: &'b String, name: &'static str },

    /// Open the local store in the directory `name` under `base`.
    OpenLocal { base: &'b String, name: &'static str },

    /// Open a bucket.
    OpenAliyun { options: &'b AliyunOptions },

    /// Make `local` the cache of `remote`.
    InitCache { local: &'b P::Store, remote: &'b P::Store, options: &'b P::DiskCacheOptions },

    /// Put a memory cache in front of `store`.
    WrapMemCache { partition_bits: usize, capacity: usize, store: &'b P::Store },
}

/// What the surroundings answer.
#[allow(inconsistent_fields)]
pub enum StoreEvent<P: Parts> {
    DirCreated,
    DirFailed { source: P::IoError },
    StoreOpened { store: P::Store },
    StoreFailed { source: P::StoreError },
}

/// What `op` asks for when `stores` are open.
pub open spec fn op_action<'a, P: Parts>(
    op: StoreOp<'a, P>,
    stores: Seq<P::Store>,
) -> StoreAction<'a, P> {
    match op {
        StoreOp::CreateDir { base } => StoreAction::CreateDir { base, name: STORE_DIR_NAME },
        StoreOp::OpenLocal { base } => StoreAction::OpenLocal { base, name: STORE_DIR_NAME },
        StoreOp::OpenAliyun { options } => StoreAction::OpenAliyun { options },
        StoreOp::InitCache { options } => StoreAction::InitCache {
            local: &stores[stores.len() - 2],
            remote: &stores[stores.len() - 1],
            options,
        },
        StoreOp::WrapMemCache { partition_bits, capacity } => StoreAction::WrapMemCache {
            partition_bits,
            capacity,
            store: &stores[stores.len() - 1],
        },
    }
}

/// The error that `event` brings to an opening that is at `op`, if it brings one.
///
/// A bucket and a memory cache are there as soon as they are asked for: neither can fail.
pub open spec fn op_error<P: Parts>(op: StoreOp<P>, event: StoreEvent<P>) -> Option<Error<P>> {
    match (op, event) {
        (StoreOp::CreateDir { base }, StoreEvent::DirFailed { source }) => Some(
            Error::CreateDir { path: SubDir { base: *base, name: STORE_DIR_NAME }, source },
        ),
        (StoreOp::OpenLocal { .. }, StoreEvent::StoreFailed { source }) => Some(
            Error::OpenObjectStore { source },
        ),
        (StoreOp::InitCache { .. }, StoreEvent::StoreFailed { source }) => Some(
            Error::OpenObjectStore { source },
        ),
        _ => None,
    }
}

/// Whether `event` says that `op` has been done.
pub open spec fn op_done<P: Parts>(op: StoreOp<P>, event: StoreEvent<P>) -> bool {
    match op {
        StoreOp::CreateDir { .. } => event is DirCreated,
        _ => event is StoreOpened,
    }
}

/// The open stores after `op` has been done with `event` as the answer.
pub open spec fn op_stores<P: Parts>(
    op: StoreOp<P>,
    event: StoreEvent<P>,
    stores: Seq<P::Store>,
) -> Seq<P::Store> {
    match event {
        StoreEvent::StoreOpened { store } => stores.take(stores.len() - op_needs(op)).push(store),
        _ => stores,
    }
}

/// The state with `todo` left to do: the store is open when nothing is left.
pub open spec fn storage_state<'a, P: Parts>(
    todo: Seq<StoreOp<'a, P>>,
    stores: Seq<P::Store>,
) -> StorageState<'a, P> {
    if todo.len() == 0 {
        StorageState::Opened { store: stores[0] }
    } else {
        StorageState::Opening { todo, stores }
    }
}

impl<'a, P: Parts> StorageState<'a, P> {
    /// What the surroundings are asked to do next, if anything is left.
    pub open spec fn action(self) -> Option<StoreAction<'a, P>> {
        match self {
            StorageState::Opening { todo, stores } => Some(op_action(todo[0], stores)),
            _ => None,
        }
    }

    /// The state after `event`. What does not answer the action in hand changes nothing.
    pub open spec fn advance(self, event: StoreEvent<P>) -> StorageState<'a, P> {
        match self {
            StorageState::Opening { todo, stores } => {
                let op = todo[0];
                if let Some(error) = op_error(op, event) {
                    StorageState::Failed { error }
                } else if !op_done(op, event) {
                    self
                } else {
                    storage_state(todo.drop_first(), op_stores(op, event, stores))
                }
            },
            _ => self,
        }
    }

    /// The state after all of `events`.
    pub open spec fn run(self, events: Seq<StoreEvent<P>>) -> StorageState<'a, P>
        decreases events.len(),
    {
        if events.len() == 0 {
            self
        } else {
            self.advance(events[0]).run(events.drop_first())
        }
    }
}

/// After a plan the work goes on with one more store open.
pub proof fn lemma_plan_adds_one_store<P: Parts>(
    options: &StorageOptions<P>,
    rest: Seq<StoreOp<P>>,
    open: int,
)
    requires
        open >= 0,
    ensures
        leads_to_one_store(storage_plan(options) + rest, open) == leads_to_one_store(
            rest,
            open + 1,
        ),
    decreases options,
{
    reveal_with_fuel(leads_to_one_store, 3);
    let mem = mem_cache_plan(options);
    assert(leads_to_one_store(mem + rest, open + 1) == leads_to_one_store(rest, open + 1)) by {
        if options.mem_cache_capacity == 0 {
            assert(mem + rest =~= rest);
        } else {
            assert((mem + rest).drop_first() =~= rest);
        }
    }
    let plan = storage_plan(options);
    match &options.object_store {
        ObjectStoreOptions::Local(local) => {
            assert((plan + rest).drop_first().drop_first() =~= mem + rest);
        },
        ObjectStoreOptions::Aliyun(aliyun) => {
            assert((plan + rest).drop_first() =~= mem + rest);
        },
        ObjectStoreOptions::Cache(cache) => {
            let init: Seq<StoreOp<P>> = seq![StoreOp::InitCache { options: &cache.cache_opts }];
            let remote = storage_plan(&*cache.remote_store);
            let local = storage_plan(&*cache.local_store);
            assert(plan + rest =~= local + (remote + (init + (mem + rest))));
            lemma_plan_adds_one_store(&*cache.local_store, remote + (init + (mem + rest)), open);
            lemma_plan_adds_one_store(&*cache.remote_store, init + (mem + rest), open + 1);
            assert((init + (mem + rest)).drop_first() =~= mem + rest);
        },
    }
}

/// Starts to open the store that `opts` describes.
pub fn open_storage<'a, P: Parts>(opts: &'a StorageOptions<P>) -> (opening: StorageOpening<'a, P>)
    ensures
        opening@ == (StorageState::Opening {
            todo: storage_plan(opts),
            stores: Seq::<P::Store>::empty(),
        }),
{
    let mut ops: Vec<StoreOp<'a, P>> = Vec::new();
    push_storage_plan(opts, &mut ops);
    let stores: Vec<P::Store> = Vec::new();
    proof {
        lemma_plan_adds_one_store(opts, Seq::empty(), 0);
        assert(storage_plan(opts) + Seq::empty() =~= storage_plan(opts));
        assert(ops@ =~= storage_plan(opts));
        assert(ops@.skip(0) =~= ops@);
    }
    StorageOpening::Opening(StorageWork { ops, next: 0, stores })
}

impl<'a, P: Parts> StorageOpening<'a, P> {
    /// What the surroundings are asked to do next, if anything is left.
    pub fn action(&self) -> (action: Option<StoreAction<'_, P>>)
        ensures
            action == self@.action(),
    {
        match self {
            StorageOpening::Opening(work) => {
                proof {
                    use_type_invariant(work);
                }
                let open: usize = work.stores.len();
                Some(
                    match &work.ops[work.next] {
                        StoreOp::CreateDir { base } => StoreAction::CreateDir {
                            base,
                            name: STORE_DIR_NAME,
                        },
                        StoreOp::OpenLocal { base } => StoreAction::OpenLocal {
                            base,
                            name: STORE_DIR_NAME,
                        },
                        StoreOp::OpenAliyun { options } => StoreAction::OpenAliyun { options },
                        StoreOp::InitCache { options } => StoreAction::InitCache {
                            local: &work.stores[open - 2],
                            remote: &work.stores[open - 1],
                            options,
                        },
                        StoreOp::WrapMemCache { partition_bits, capacity } => {
                            StoreAction::WrapMemCache {
                                partition_bits: *partition_bits,
                                capacity: *capacity,
                                store: &work.stores[open - 1],
                            }
                        },
                    },
                )
            },
            _ => None,
        }
    }

    /// Goes on with what the surroundings answered.
    pub fn advance(self, event: StoreEvent<P>) -> (opening: Self)
        ensures
            opening@ == self@.advance(event),
    {
        match self {
            StorageOpening::Opening(work) => work.advance(event),
            done => done,
        }
    }
}

impl<'a, P: Parts> StorageWork<'a, P> {
    /// Goes on after the operation in hand, which leaves `stores` open.
    fn next_op(ops: Vec<StoreOp<'a, P>>, next: usize, stores: Vec<P::Store>) -> (opening:
        StorageOpening<'a, P>)
        requires
            next < ops@.len(),
            leads_to_one_store(ops@.skip(next + 1), stores@.len() as int),
        ensures
            opening@ == storage_state(ops@.skip(next + 1), stores@),
    {
        let mut stores = stores;
        if ops.len() - next > 1 {
            StorageOpening::Opening(StorageWork { ops, next: next + 1, stores })
        } else {
            StorageOpening::Opened { store: stores.swap_remove(0) }
        }
    }

    /// Goes on with `store` in place of the last `used` stores.
    fn replace(self, used: usize, store: P::Store) -> (opening: StorageOpening<'a, P>)
        requires
            used == op_needs(self.todo()[0]),
            !(self.todo()[0] is CreateDir),
        ensures
            opening@ == StorageOpening::Opening(self)@.advance(StoreEvent::StoreOpened { store }),
    {
        proof {
            use_type_invariant(&self);
        }
        let StorageWork { ops, next, stores } = self;
        let mut stores = stores;
        let kept: usize = stores.len() - used;
        stores.truncate(kept);
        stores.push(store);
        assert(ops@.skip(next as int).drop_first() =~= ops@.skip(next + 1));
        Self::next_op(ops, next, stores)
    }

    /// Goes on with what the surroundings answered.
    fn advance(self, event: StoreEvent<P>) -> (opening: StorageOpening<'a, P>)
        ensures
            opening@ == StorageOpening::Opening(self)@.advance(event),
    {
        proof {
            use_type_invariant(&self);
        }
        assert(self.todo()[0] == self.ops@[self.next as int]);
        match (&self.ops[self.next], event) {
            (StoreOp::CreateDir { .. }, StoreEvent::DirCreated) => {
                assert(self.ops@.skip(self.next as int).drop_first() =~= self.ops@.skip(
                    self.next + 1,
                ));
                Self::next_op(self.ops, self.next, self.stores)
            },
            (StoreOp::CreateDir { base }, StoreEvent::DirFailed { source }) => {
                StorageOpening::Failed {
                    error: Error::CreateDir {
                        path: SubDir { base: (*base).clone(), name: STORE_DIR_NAME },
                        source,
                    },
                }
            },
            (StoreOp::OpenLocal { .. }, StoreEvent::StoreFailed { source }) => {
                StorageOpening::Failed { error: Error::OpenObjectStore { source } }
            },
            (StoreOp::InitCache { .. }, StoreEvent::StoreFailed { source }) => {
                StorageOpening::Failed { error: Error::OpenObjectStore { source } }
            },
            (StoreOp::OpenLocal { .. }, StoreEvent::StoreOpened { store }) => {
                self.replace(0, store)
            },
            (StoreOp::OpenAliyun { .. }, StoreEvent::StoreOpened { store }) => {
                self.replace(0, store)
            },
            (StoreOp::InitCache { .. }, StoreEvent::StoreOpened { store }) => {
                self.replace(2, store)
            },
            (StoreOp::WrapMemCache { .. }, StoreEvent::StoreOpened { store }) => {
                self.replace(1, store)
            },
            _ => StorageOpening::Opening(self),
        }
    }
}

} // verus!
