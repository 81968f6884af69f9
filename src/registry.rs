//! The registry: which plugin owns each event type, and the wire-name under
//! which a dispatch on that type goes.
use vstd::prelude::*;
use vstd::string::StringExecFns;

use crate::collection::{EventCollection, EventError};
use crate::names::{wire_name, PluginName};

verus! {

broadcast use vstd::laws_cmp::group_laws_cmp;

/// What the registry holds for one event type: the plugin that owns it.
#[derive(Clone, Copy)]
pub struct EventRegistryMeta {
    pub plugin_name: PluginName,
}

impl EventRegistryMeta {
    /// The wire-name of the event called `input` owned by this plugin.
    pub fn wrap_with_plugin(&self, input: &str) -> (r: String)
        ensures
            r@ == wire_name(self.plugin_name@, input@),
    {
        self.plugin_name.apply_as_prefix(input)
    }
}

/// The registry after the event types `ids` were given to `owner`.
pub open spec fn merged(
    reg: Map<u64, Option<Seq<char>>>,
    ids: Seq<u64>,
    owner: Option<Seq<char>>,
) -> Map<u64, Option<Seq<char>>> {
    Map::new(
        |k: u64| reg.contains_key(k) || ids.contains(k),
        |k: u64|
            if ids.contains(k) {
                owner
            } else {
                reg[k]
            },
    )
}

/// Whether the event types `ids` may be merged: none of them has an owner yet.
pub open spec fn can_merge(reg: Map<u64, Option<Seq<char>>>, ids: Seq<u64>) -> bool {
    forall|i: int| 0 <= i < ids.len() ==> !reg.contains_key(#[trigger] ids[i])
}

/// Maps each event type that was merged to the plugin that owns it.
pub struct EventRegistry {
    entries: std::collections::BTreeMap<u64, EventRegistryMeta>,
}

impl View for EventRegistry {
    type V = Map<u64, Option<Seq<char>>>;

    closed spec fn view(&self) -> Map<u64, Option<Seq<char>>> {
        self.entries@.map_values(|m: EventRegistryMeta| m.plugin_name@)
    }
}

impl EventRegistry {
    /// A registry in which no event type has an owner.
    pub fn new() -> (r: EventRegistry)
        ensures
            r@ == Map::<u64, Option<Seq<char>>>::empty(),
    {
        let r = EventRegistry { entries: std::collections::BTreeMap::new() };
        assert(r@ =~= Map::<u64, Option<Seq<char>>>::empty());
        r
    }

    /// Whether the event type `sid` has an owner.
    pub fn contains(&self, sid: u64) -> (r: bool)
        ensures
            r == self@.contains_key(sid),
    {
        self.entries.contains_key(&sid)
    }

    /// Gives every event type of `collection` to `plugin_name`. Fails, naming
    /// the first event of the collection that already has an owner, and leaves the
    /// registry as it was, unless none of them has one.
    pub fn register_collection(&mut self, collection: EventCollection, plugin_name: PluginName) -> (r:
        Result<(), EventError>)
        requires
            collection.wf(),
        ensures
            r is Ok <==> can_merge(old(self)@, collection.ids()),
            r is Ok ==> final(self)@ == merged(old(self)@, collection.ids(), plugin_name@),
            r matches Err(e) ==> final(self)@ == old(self)@ && (e matches EventError::AlreadyMerged(
                n,
            ) && exists|i: int|
                0 <= i < collection.ids().len() && i < collection.names().len() && can_merge(
                    old(self)@,
                    collection.ids().take(i),
                ) && old(self)@.contains_key(collection.ids()[i])
                    && collection.names()[i] == n@),
    {
        let n = collection.len();
        let mut i: usize = 0;
        while i < n
            invariant
                collection.wf(),
                n == collection.ids().len(),
                i <= n,
                forall|j: int| 0 <= j < i ==> !self@.contains_key(#[trigger] collection.ids()[j]),
            decreases n - i,
        {
            let sid = collection.id_at(i);
            if self.entries.contains_key(&sid) {
                proof {
                    crate::collection::lemma_collection_unique(&collection);
                }
                let name = collection.name_at(i);
                assert(self@.contains_key(sid));
                assert(can_merge(self@, collection.ids().take(i as int)));
                return Err(EventError::AlreadyMerged(name));
            }
            i = i + 1;
        }
        let ghost old_view = self@;
        let meta = EventRegistryMeta { plugin_name };
        let mut i: usize = 0;
        while i < n
            invariant
                collection.wf(),
                n == collection.ids().len(),
                i <= n,
                meta.plugin_name@ == plugin_name@,
                self@ == merged(old_view, collection.ids().take(i as int), plugin_name@),
            decreases n - i,
        {
            let sid = collection.id_at(i);
            let ghost before = self.entries@;
            self.entries.insert(sid, meta);
            proof {
                let ids = collection.ids();
                assert(ids.take(i + 1) =~= ids.take(i as int).push(sid));
                let pre = ids.take(i as int);
                let post = ids.take(i + 1);
                assert forall|k: u64| post.contains(k) <==> pre.contains(k) || k == sid by {
                    if post.contains(k) && k != sid {
                        let m = choose|m: int| 0 <= m < post.len() && #[trigger] post[m] == k;
                        assert(pre[m] == k);
                    }
                    if k == sid {
                        assert(post[i as int] == k);
                    }
                    if pre.contains(k) {
                        let m = choose|m: int| 0 <= m < pre.len() && #[trigger] pre[m] == k;
                        assert(post[m] == k);
                    }
                }
                let target = merged(old_view, post, plugin_name@);
                assert(self.entries@ == before.insert(sid, meta));
                assert forall|k: u64| #[trigger] self@.contains_key(k) <==> target.contains_key(k) by {
                    assert(self@.contains_key(k) <==> self.entries@.contains_key(k));
                    assert(before.contains_key(k) <==> merged(old_view, pre, plugin_name@).contains_key(k));
                }
                assert forall|k: u64| #[trigger] target.contains_key(k) implies self@[k] == target[k] by {
                    if k == sid {
                        assert(self.entries@[k] == meta);
                    } else {
                        assert(post.contains(k) <==> pre.contains(k));
                        assert(merged(old_view, pre, plugin_name@).contains_key(k));
                        assert(before.map_values(|m: EventRegistryMeta| m.plugin_name@).contains_key(k));
                        assert(before.contains_key(k));
                        assert(self.entries@[k] == before[k]);
                        assert(merged(old_view, pre, plugin_name@)[k] == before[k].plugin_name@);
                    }
                }
                assert(self@ =~= target);
            }
            i = i + 1;
        }
        assert(collection.ids().take(n as int) =~= collection.ids());
        Ok(())
    }

    /// What the registry holds for the event type `sid`, called `name`; fails,
    /// naming the event, when it has no owner.
    pub fn get_meta(&self, sid: u64, name: &str) -> (r: Result<EventRegistryMeta, EventError>)
        ensures
            r is Ok <==> self@.contains_key(sid),
            r matches Ok(m) ==> m.plugin_name@ == self@[sid],
            r matches Err(e) ==> (e matches EventError::NotRegistered(n) && n@ == name@),
    {
        match self.entries.get(&sid) {
            Some(m) => Ok(*m),
            None => Err(EventError::NotRegistered(String::from_str(name))),
        }
    }

    /// The wire-name under which the event type `sid`, called `name`, is sent
    /// and received; fails, naming the event, when it has no owner.
    pub fn event_wire_name(&self, sid: u64, name: &str) -> (r: Result<String, EventError>)
        ensures
            r is Ok <==> self@.contains_key(sid),
            r matches Ok(w) ==> w@ == wire_name(self@[sid], name@),
            r matches Err(e) ==> (e matches EventError::NotRegistered(n) && n@ == name@),
    {
        match self.get_meta(sid, name) {
            Ok(meta) => Ok(meta.wrap_with_plugin(name)),
            Err(e) => Err(e),
        }
    }
}

impl Default for EventRegistry {
    fn default() -> (r: EventRegistry)
        ensures
            r@ == Map::<u64, Option<Seq<char>>>::empty(),
    {
        EventRegistry::new()
    }
}

/// Once a collection holding an event type has been merged, no other collection
/// holding that type can be merged, and the type keeps its first owner.
pub proof fn lemma_second_merge_rejected(
    reg: Map<u64, Option<Seq<char>>>,
    first: Seq<u64>,
    second: Seq<u64>,
    owner: Option<Seq<char>>,
    sid: u64,
)
    requires
        can_merge(reg, first),
        first.contains(sid),
        second.contains(sid),
    ensures
        !can_merge(merged(reg, first, owner), second),
        merged(reg, first, owner).contains_key(sid),
        merged(reg, first, owner)[sid] == owner,
{
    let i = choose|i: int| 0 <= i < second.len() && second[i] == sid;
    assert(merged(reg, first, owner).contains_key(second[i]));
}

} // verus!
