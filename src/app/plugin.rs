use std::any::TypeId;
use vstd::prelude::*;

use crate::app::context::Context;

verus! {

#[verifier::external_type_specification]
#[verifier::external_body]
pub struct ExTypeId(TypeId);

/// Relies on std's `TypeId::of`: the identity of the concrete type `T`, used as the registry key.
pub assume_specification<T: ?Sized + 'static>[ TypeId::of::<T> ]() -> TypeId;

/// Relies on std's `PartialEq` for `TypeId`: two identities compare equal exactly when they are
/// the same value.
#[verifier::external_body]
fn same_type(a: &TypeId, b: &TypeId) -> (r: bool)
    ensures
        r == (*a == *b),
{
    *a == *b
}

/// An extension of the application: a unit of behaviour with lifecycle hooks, owned by the
/// context's registry once it is registered.
///
/// Plugins are looked up by their concrete type, so they must be `'static`.
pub trait Plugin {
    /// Runs once, in registration order, before the context starts running. A plugin may
    /// change the context from here, for instance install the run strategy.
    fn init(&mut self, ctx: &mut Context);

    /// Runs once per frame boundary, in registration order.
    fn update(&mut self, ctx: &mut Context) {
    }
}

/// A plugin with its concrete type erased, together with the two hooks of that type.
///
/// Kept opaque: Verus cannot represent `dyn Any` nor function pointers, and a plugin trait with
/// `Any` (or downcast-rs's `Downcast`) as a supertrait cannot be used as a trait object in
/// verified code.
#[verifier::external_body]
struct ErasedPlugin {
    plugin: Box<dyn std::any::Any>,
    init: fn(&mut ErasedPlugin, &mut Context),
    update: fn(&mut ErasedPlugin, &mut Context),
}

/// One registered plugin, its position in the registry, and the hooks called on it so far.
/// The hooks reach only the erased plugin, never the slot around it.
struct PluginSlot {
    erased: ErasedPlugin,
    position: Ghost<nat>,
    runs: Ghost<Seq<Hook>>,
}

/// A plugin hook.
pub enum Hook {
    Init,
    Update,
}

/// One call of a plugin hook: which hook, and the position of the plugin in the registry.
pub enum HookCall {
    Init(nat),
    Update(nat),
}

impl HookCall {
    /// The hook called.
    pub open spec fn hook(self) -> Hook {
        match self {
            HookCall::Init(_) => Hook::Init,
            HookCall::Update(_) => Hook::Update,
        }
    }

    /// The position of the plugin it was called on.
    pub open spec fn position(self) -> nat {
        match self {
            HookCall::Init(i) => i,
            HookCall::Update(i) => i,
        }
    }
}

/// The hooks that `calls` made on the plugin at position `i`, in order.
pub open spec fn calls_at(calls: Seq<HookCall>, i: nat) -> Seq<Hook>
    decreases calls.len(),
{
    if calls.len() == 0 {
        Seq::empty()
    } else if calls.last().position() == i {
        calls_at(calls.drop_last(), i).push(calls.last().hook())
    } else {
        calls_at(calls.drop_last(), i)
    }
}

proof fn lemma_calls_at_push(calls: Seq<HookCall>, c: HookCall, i: nat)
    ensures
        calls_at(calls.push(c), i) == if c.position() == i {
            calls_at(calls, i).push(c.hook())
        } else {
            calls_at(calls, i)
        },
{
    assert(calls.push(c).drop_last() =~= calls);
}

proof fn lemma_calls_at_beyond(calls: Seq<HookCall>, i: nat)
    requires
        forall|j: int| 0 <= j < calls.len() ==> #[trigger] calls[j].position() < i,
    ensures
        calls_at(calls, i) == Seq::<Hook>::empty(),
    decreases calls.len(),
{
    if calls.len() > 0 {
        assert(calls.last().position() < i);
        lemma_calls_at_beyond(calls.drop_last(), i);
    }
}

/// The hook calls of an `init` pass over `n` plugins: each plugin once, in registration order.
pub open spec fn init_pass(n: nat) -> Seq<HookCall> {
    Seq::new(n, |i: int| HookCall::Init(i as nat))
}

/// The hook calls of an `update` pass over `n` plugins: each plugin once, in registration order.
pub open spec fn update_pass(n: nat) -> Seq<HookCall> {
    Seq::new(n, |i: int| HookCall::Update(i as nat))
}

/// Relies on downcast-rs's `Downcast::into_any`, implemented for every `'static` type, which
/// returns the boxed plugin as a `Box<dyn Any>`; the hooks of its concrete type are kept beside
/// it.
#[verifier::external_body]
fn erase<P: Plugin + 'static>(plugin: P) -> ErasedPlugin {
    ErasedPlugin {
        plugin: downcast_rs::Downcast::into_any(Box::new(plugin)),
        init: init_as::<P>,
        update: update_as::<P>,
    }
}

/// Relies on std's `Any::downcast_mut` to reach the erased plugin as `P` and run its `init`.
#[verifier::external_body]
fn init_as<P: Plugin + 'static>(erased: &mut ErasedPlugin, ctx: &mut Context) {
    if let Some(p) = erased.plugin.downcast_mut::<P>() {
        p.init(ctx)
    }
}

/// Relies on std's `Any::downcast_mut` to reach the erased plugin as `P` and run its `update`.
#[verifier::external_body]
fn update_as<P: Plugin + 'static>(erased: &mut ErasedPlugin, ctx: &mut Context) {
    if let Some(p) = erased.plugin.downcast_mut::<P>() {
        p.update(ctx)
    }
}

/// Calls the `init` hook stored in the slot through its function pointer, once: the slot's
/// record of hooks (ghost, written by no other code) gains it. The hook receives the erased
/// plugin and the context, never the slot.
#[verifier::external_body]
fn slot_init(slot: &mut PluginSlot, ctx: &mut Context)
    ensures
        final(slot).position == old(slot).position,
        final(slot).runs@ == old(slot).runs@.push(Hook::Init),
{
    (slot.erased.init)(&mut slot.erased, ctx)
}

/// Calls the `update` hook stored in the slot through its function pointer, once: the slot's
/// record of hooks (ghost, written by no other code) gains it. The hook receives the erased
/// plugin and the context, never the slot.
#[verifier::external_body]
fn slot_update(slot: &mut PluginSlot, ctx: &mut Context)
    ensures
        final(slot).position == old(slot).position,
        final(slot).runs@ == old(slot).runs@.push(Hook::Update),
{
    (slot.erased.update)(&mut slot.erased, ctx)
}

/// Relies on std's `Any::downcast_ref`: the plugin as `P` when `P` is its concrete type, else
/// nothing.
#[verifier::external_body]
fn slot_get<P: Plugin + 'static>(slot: &PluginSlot) -> Option<&P> {
    slot.erased.plugin.downcast_ref::<P>()
}

/// An index that has an entry for every key of `keys` still has one for every key of
/// `keys.push(k)` once its entry at `at` is (or becomes) the entry for `k` and every other entry
/// is kept.
proof fn lemma_index_covers_push(
    keys: Seq<TypeId>,
    k: TypeId,
    old_index: Seq<(TypeId, usize)>,
    index: Seq<(TypeId, usize)>,
    at: int,
)
    requires
        forall|c: TypeId|
            #[trigger] keys.contains(c) ==> exists|i: int|
                0 <= i < old_index.len() && #[trigger] old_index[i].0 == c,
        old_index.len() <= index.len(),
        0 <= at < index.len(),
        index[at].0 == k,
        at < old_index.len() ==> old_index[at].0 == k,
        forall|i: int| 0 <= i < old_index.len() && i != at ==> index[i].0 == old_index[i].0,
    ensures
        forall|c: TypeId|
            #[trigger] keys.push(k).contains(c) ==> exists|i: int|
                0 <= i < index.len() && #[trigger] index[i].0 == c,
{
    assert forall|c: TypeId| #[trigger] keys.push(k).contains(c) implies exists|i: int|
        0 <= i < index.len() && #[trigger] index[i].0 == c by {
        if c != k {
            assert(keys.contains(c)) by {
                let j = choose|j: int| 0 <= j < keys.push(k).len() && keys.push(k)[j] == c;
                assert(keys[j] == c);
            }
            let i = choose|i: int| 0 <= i < old_index.len() && old_index[i].0 == c;
            assert(i != at);
            assert(index[i].0 == c);
        } else {
            assert(index[at].0 == c);
        }
    }
}

/// Position of the last registration under the type identity `k` in `keys`, the identities of
/// the registered plugins in registration order: a later registration of a type shadows an
/// earlier one.
pub open spec fn last_slot(keys: Seq<TypeId>, k: TypeId) -> Option<int>
    decreases keys.len(),
{
    if keys.len() == 0 {
        None
    } else if keys.last() == k {
        Some(keys.len() - 1)
    } else {
        last_slot(keys.drop_last(), k)
    }
}

/// The slot that lookup finds for `k` holds a plugin registered under `k`, and lookup finds a
/// slot exactly for the types that were registered.
pub proof fn lemma_last_slot(keys: Seq<TypeId>, k: TypeId)
    ensures
        last_slot(keys, k) is Some <==> keys.contains(k),
        last_slot(keys, k) matches Some(i) ==> 0 <= i < keys.len() && keys[i] == k,
    decreases keys.len(),
{
    if keys.len() > 0 {
        lemma_last_slot(keys.drop_last(), k);
        if keys.last() != k {
            assert(keys.contains(k) ==> keys.drop_last().contains(k)) by {
                if keys.contains(k) {
                    let i = choose|i: int| 0 <= i < keys.len() && keys[i] == k;
                    assert(keys.drop_last()[i] == k);
                }
            }
            assert(keys.drop_last().contains(k) ==> keys.contains(k)) by {
                if keys.drop_last().contains(k) {
                    let i = choose|i: int| 0 <= i < keys.drop_last().len() && keys.drop_last()[i] == k;
                    assert(keys[i] == k);
                }
            }
        } else {
            assert(keys[keys.len() - 1] == k);
        }
    }
}

/// Registering a plugin under `k` makes it the one that lookup finds for `k`, and leaves the
/// lookup of every other type as it was.
pub proof fn lemma_last_slot_push(keys: Seq<TypeId>, k: TypeId, other: TypeId)
    ensures
        last_slot(keys.push(k), k) == Some(keys.len() as int),
        other != k ==> last_slot(keys.push(k), other) == last_slot(keys, other),
{
    assert(keys.push(k).drop_last() =~= keys);
}

/// Of two registrations of the same type, the later one is what lookup finds, and the earlier
/// one keeps its place in the sequence.
pub proof fn lemma_later_registration_shadows(keys: Seq<TypeId>, k: TypeId)
    ensures
        last_slot(keys.push(k).push(k), k) == Some(keys.len() + 1 as int),
        keys.push(k).push(k)[keys.len() as int] == k,
        keys.push(k).push(k).len() == keys.len() + 2,
{
    lemma_last_slot_push(keys.push(k), k, k);
}

/// The plugins of an application, in registration order, with an index from concrete type to
/// position for typed lookup.
///
/// The index is a vector of `(type, position)` entries, one per registered type, searched by
/// type. The registry also records every hook call its passes made, in order.
pub struct PluginRegistry {
    slots: Vec<PluginSlot>,
    index: Vec<(TypeId, usize)>,
    keys: Ghost<Seq<TypeId>>,
    calls: Ghost<Seq<HookCall>>,
}

impl View for PluginRegistry {
    type V = Seq<TypeId>;

    /// The type identity of each registered plugin, in registration order.
    closed spec fn view(&self) -> Seq<TypeId> {
        self.keys@
    }
}

impl PluginRegistry {
    /// Every hook call that the passes made, in order.
    pub closed spec fn calls(&self) -> Seq<HookCall> {
        self.calls@
    }

    /// The hooks called on the plugin at position `i`, as its slot recorded them.
    pub closed spec fn runs_of(&self, i: int) -> Seq<Hook> {
        self.slots@[i].runs@
    }

    /// One slot per registration, which knows its position and whose hooks are those of the
    /// recorded calls at that position; each index entry is unique and points at the last
    /// registration of its type; every registered type has an entry.
    #[verifier::type_invariant]
    closed spec fn inv(self) -> bool {
        &&& self.slots@.len() == self.keys@.len()
        &&& forall|i: int| 0 <= i < self.slots@.len() ==> #[trigger] self.slots@[i].position@ == i
        &&& forall|i: int|
            0 <= i < self.slots@.len() ==> #[trigger] self.slots@[i].runs@ == calls_at(
                self.calls@,
                i as nat,
            )
        &&& forall|j: int|
            0 <= j < self.calls@.len() ==> #[trigger] self.calls@[j].position() < self.slots@.len()
        &&& forall|i: int|
            0 <= i < self.index@.len() ==> last_slot(self.keys@, #[trigger] self.index@[i].0)
                == Some(self.index@[i].1 as int)
        &&& forall|i: int, j: int|
            0 <= i < j < self.index@.len() ==> #[trigger] self.index@[i].0
                != #[trigger] self.index@[j].0
        &&& forall|k: TypeId|
            #[trigger] self.keys@.contains(k) ==> exists|i: int|
                0 <= i < self.index@.len() && #[trigger] self.index@[i].0 == k
    }

    /// An empty registry.
    pub fn new() -> (r: PluginRegistry)
        ensures
            r@ == Seq::<TypeId>::empty(),
    {
        PluginRegistry {
            slots: Vec::new(),
            index: Vec::new(),
            keys: Ghost(Seq::empty()),
            calls: Ghost(Seq::empty()),
        }
    }

    /// Number of registered plugins.
    pub fn len(&self) -> (r: usize)
        ensures
            r == self@.len(),
    {
        proof {
            use_type_invariant(self);
        }
        self.slots.len()
    }

    /// Position in the index of the entry for `k`, if there is one.
    fn find(&self, k: &TypeId) -> (r: Option<usize>)
        ensures
            r matches Some(p) ==> p < self.index@.len() && self.index@[p as int].0 == *k,
            r is None ==> forall|p: int| 0 <= p < self.index@.len() ==> self.index@[p].0 != *k,
    {
        let mut p: usize = 0;
        while p < self.index.len()
            invariant
                p <= self.index@.len(),
                forall|q: int| 0 <= q < p ==> self.index@[q].0 != *k,
            decreases self.index@.len() - p,
        {
            if same_type(&self.index[p].0, k) {
                return Some(p);
            }
            p += 1;
        }
        None
    }

    /// Position of the plugin that typed lookup finds for the type identity `k`: the last one
    /// registered under `k`, or none when no plugin of that type was registered.
    pub fn slot_of(&self, k: &TypeId) -> (r: Option<usize>)
        ensures
            r is None <==> last_slot(self@, *k) is None,
            r matches Some(i) ==> last_slot(self@, *k) == Some(i as int) && i < self@.len(),
    {
        proof {
            use_type_invariant(self);
            lemma_last_slot(self@, *k);
        }
        match self.find(k) {
            Some(p) => Some(self.index[p].1),
            None => {
                assert(!self@.contains(*k));
                None
            },
        }
    }

    /// Appends an erased plugin registered under the type identity `k`.
    fn push_slot(&mut self, k: TypeId, erased: ErasedPlugin)
        requires
            old(self)@.len() < usize::MAX,
        ensures
            final(self)@ == old(self)@.push(k),
            final(self).calls() == old(self).calls(),
    {
        proof {
            use_type_invariant(&*self);
        }
        let found = self.find(&k);
        let mut taken = PluginRegistry::new();
        std::mem::swap(self, &mut taken);
        let PluginRegistry { mut slots, mut index, keys, calls } = taken;
        let n = slots.len();
        let ghost old_index = index@;
        let ghost new_keys = keys@.push(k);
        proof {
            assert forall|other: TypeId| other != k implies last_slot(new_keys, other) == last_slot(
                keys@,
                other,
            ) by {
                lemma_last_slot_push(keys@, k, other);
            }
            lemma_last_slot_push(keys@, k, k);
        }
        proof {
            lemma_calls_at_beyond(calls@, n as nat);
        }
        slots.push(PluginSlot { erased, position: Ghost(n as nat), runs: Ghost(Seq::empty()) });
        match found {
            Some(p) => {
                index.set(p, (k, n));
                proof {
                    lemma_index_covers_push(keys@, k, old_index, index@, p as int);
                }
            },
            None => {
                index.push((k, n));
                proof {
                    lemma_index_covers_push(keys@, k, old_index, index@, old_index.len() as int);
                }
            },
        }
        *self = PluginRegistry { slots, index, keys: Ghost(new_keys), calls };
    }

    /// Takes ownership of `plugin` and appends it, recording its concrete type for lookup; a
    /// plugin of the same type registered before stays in the sequence but is shadowed in
    /// lookup. Returns the type identity that the plugin is registered under, that of `P`.
    pub fn register<P: Plugin + 'static>(&mut self, plugin: P) -> (k: TypeId)
        requires
            old(self)@.len() < usize::MAX,
        ensures
            final(self)@ == old(self)@.push(k),
            final(self).calls() == old(self).calls(),
    {
        let k = TypeId::of::<P>();
        self.push_slot(k, erase(plugin));
        k
    }

    /// Runs the `init` hook of every plugin once, in registration order: the context's record
    /// of hook calls gains exactly that pass. The plugins stay registered as they were.
    pub fn for_each_init(&mut self, ctx: &mut Context)
        ensures
            final(self)@ == old(self)@,
            final(self).calls() == old(self).calls() + init_pass(old(self)@.len()),
            forall|i: int|
                0 <= i < old(self)@.len() ==> #[trigger] final(self).runs_of(i) == old(
                    self,
                ).runs_of(i).push(Hook::Init),
            old(self)@.len() == 0 ==> *final(ctx) == *old(ctx),
            old(self)@.len() == 0 ==> *final(self) == *old(self),
    {
        let mut taken = PluginRegistry::new();
        std::mem::swap(self, &mut taken);
        proof {
            use_type_invariant(&taken);
        }
        let PluginRegistry { mut slots, index, keys, calls } = taken;
        let ghost mut record = calls@;
        let ghost unvisited = slots;
        let n = slots.len();
        let mut i: usize = 0;
        while i < n
            invariant
                slots@.len() == n,
                n == keys@.len(),
                n == 0 ==> slots == unvisited,
                i <= n,
                forall|j: int| 0 <= j < n ==> #[trigger] slots@[j].position@ == j,
                forall|j: int|
                    0 <= j < n ==> #[trigger] slots@[j].runs@ == calls_at(record, j as nat),
                forall|j: int| 0 <= j < record.len() ==> #[trigger] record[j].position() < n,
                forall|j: int|
                    0 <= j < i ==> #[trigger] slots@[j].runs@ == unvisited@[j].runs@.push(
                        Hook::Init,
                    ),
                forall|j: int| i <= j < n ==> #[trigger] slots@[j].runs@ == unvisited@[j].runs@,
                record == calls@ + init_pass(i as nat),
                n == 0 ==> *ctx == *old(ctx),
            decreases n - i,
        {
            slot_init(&mut slots[i], ctx);
            proof {
                let c = HookCall::Init(i as nat);
                assert forall|j: int| 0 <= j < n implies #[trigger] slots@[j].runs@ == calls_at(
                    record.push(c),
                    j as nat,
                ) by {
                    lemma_calls_at_push(record, c, j as nat);
                }
                assert(init_pass((i + 1) as nat) =~= init_pass(i as nat).push(c));
                assert(calls@ + init_pass((i + 1) as nat) =~= (calls@ + init_pass(i as nat)).push(c));
                record = record.push(c);
            }
            i += 1;
        }
        *self = PluginRegistry { slots, index, keys, calls: Ghost(record) };
        proof {
            assert(n == 0 ==> record =~= calls@);
        }
    }

    /// Runs the `update` hook of every plugin once, in registration order: the context's record
    /// of hook calls gains exactly that pass. The plugins stay registered as they were.
    pub fn for_each_update(&mut self, ctx: &mut Context)
        ensures
            final(self)@ == old(self)@,
            final(self).calls() == old(self).calls() + update_pass(old(self)@.len()),
            forall|i: int|
                0 <= i < old(self)@.len() ==> #[trigger] final(self).runs_of(i) == old(
                    self,
                ).runs_of(i).push(Hook::Update),
            old(self)@.len() == 0 ==> *final(ctx) == *old(ctx),
            old(self)@.len() == 0 ==> *final(self) == *old(self),
    {
        let mut taken = PluginRegistry::new();
        std::mem::swap(self, &mut taken);
        proof {
            use_type_invariant(&taken);
        }
        let PluginRegistry { mut slots, index, keys, calls } = taken;
        let ghost mut record = calls@;
        let ghost unvisited = slots;
        let n = slots.len();
        let mut i: usize = 0;
        while i < n
            invariant
                slots@.len() == n,
                n == keys@.len(),
                n == 0 ==> slots == unvisited,
                i <= n,
                forall|j: int| 0 <= j < n ==> #[trigger] slots@[j].position@ == j,
                forall|j: int|
                    0 <= j < n ==> #[trigger] slots@[j].runs@ == calls_at(record, j as nat),
                forall|j: int| 0 <= j < record.len() ==> #[trigger] record[j].position() < n,
                forall|j: int|
                    0 <= j < i ==> #[trigger] slots@[j].runs@ == unvisited@[j].runs@.push(
                        Hook::Update,
                    ),
                forall|j: int| i <= j < n ==> #[trigger] slots@[j].runs@ == unvisited@[j].runs@,
                record == calls@ + update_pass(i as nat),
                n == 0 ==> *ctx == *old(ctx),
            decreases n - i,
        {
            slot_update(&mut slots[i], ctx);
            proof {
                let c = HookCall::Update(i as nat);
                assert forall|j: int| 0 <= j < n implies #[trigger] slots@[j].runs@ == calls_at(
                    record.push(c),
                    j as nat,
                ) by {
                    lemma_calls_at_push(record, c, j as nat);
                }
                assert(update_pass((i + 1) as nat) =~= update_pass(i as nat).push(c));
                assert(calls@ + update_pass((i + 1) as nat) =~= (calls@ + update_pass(i as nat)).push(c));
                record = record.push(c);
            }
            i += 1;
        }
        *self = PluginRegistry { slots, index, keys, calls: Ghost(record) };
        proof {
            assert(n == 0 ==> record =~= calls@);
        }
    }

    /// The plugin that typed lookup finds for `P`: the last one registered with concrete type
    /// `P`, or none when no plugin of that type was registered.
    pub fn get<P: Plugin + 'static>(&self) -> (r: Option<&P>)
        ensures
            r is Some ==> self@.len() > 0,
    {
        proof {
            use_type_invariant(self);
        }
        let k = TypeId::of::<P>();
        match self.slot_of(&k) {
            Some(i) => slot_get::<P>(&self.slots[i]),
            None => None,
        }
    }
}

} // verus!
