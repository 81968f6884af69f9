//! Event collections: the batch of event types that one plugin declares, built
//! once at setup time before any plugin name is known.
use vstd::prelude::*;
use vstd::string::StringExecFns;

verus! {

/// What identifies an event type: its structural type id and its logical name.
#[derive(Clone, Copy)]
pub struct EventDescriptor {
    pub sid: u64,
    pub name: &'static str,
}

#[verifier::external_type_specification]
#[verifier::external_body]
pub struct ExDataType(specta::datatype::DataType);

/// An event's logical name with the type schema exported for it, for the
/// generation of matching declarations on the UI side.
pub struct EventDataType {
    pub name: &'static str,
    pub typ: specta::datatype::DataType,
}

/// A setup-time mistake in the declaration or registration of events.
#[derive(Debug, Clone, PartialEq, Eq)]
pub enum EventError {
    /// The event type, named here, was added to one collection twice.
    RegisteredTwice(String),
    /// Another event type with this logical name is already in the collection.
    NameTaken(String),
    /// The event type, named here, already belongs to a plugin of the registry.
    AlreadyMerged(String),
    /// The event type, named here, was never merged into the registry.
    NotRegistered(String),
}

/// The structural type ids of a list of descriptors, in order.
pub open spec fn descriptor_ids(events: Seq<EventDescriptor>) -> Seq<u64> {
    events.map_values(|d: EventDescriptor| d.sid)
}

/// The logical names of a list of descriptors, in order.
pub open spec fn descriptor_names(events: Seq<EventDescriptor>) -> Seq<Seq<char>> {
    events.map_values(|d: EventDescriptor| d.name@)
}

/// Whether `e` is the error for the first event of `events` that repeats the
/// id or the name of an event before it: a repeated id is reported before a
/// repeated name.
pub open spec fn first_conflict(events: Seq<EventDescriptor>, e: EventError) -> bool {
    exists|i: int|
        0 <= i < events.len() && descriptor_ids(events).take(i).no_duplicates()
            && descriptor_names(events).take(i).no_duplicates() && if descriptor_ids(events).take(
            i,
        ).contains(events[i].sid) {
            e matches EventError::RegisteredTwice(n) && n@ == events[i].name@
        } else {
            descriptor_names(events).take(i).contains(events[i].name@) && (
            e matches EventError::NameTaken(n) && n@ == events[i].name@)
        }
}

/// The event types of one plugin, each with its logical name, in the order in
/// which they were added.
pub struct EventCollection {
    ids: Vec<u64>,
    names: Vec<String>,
}

impl EventCollection {
    /// The structural type ids, in the order in which they were added.
    pub closed spec fn ids(&self) -> Seq<u64> {
        self.ids@
    }

    /// The logical names; the one at an index belongs to the id at that index.
    pub closed spec fn names(&self) -> Seq<Seq<char>> {
        self.names@.map_values(|s: String| s@)
    }

    /// One name per id, and neither an id nor a name twice.
    pub closed spec fn wf(&self) -> bool {
        &&& self.ids@.len() == self.names@.len()
        &&& self.ids().no_duplicates()
        &&& self.names().no_duplicates()
    }

    /// An empty collection.
    pub fn new() -> (r: EventCollection)
        ensures
            r.wf(),
            r.ids() == Seq::<u64>::empty(),
            r.names() == Seq::<Seq<char>>::empty(),
    {
        let r = EventCollection { ids: Vec::new(), names: Vec::new() };
        assert(r.names() =~= Seq::<Seq<char>>::empty());
        r
    }

    /// The number of event types in the collection.
    pub fn len(&self) -> (r: usize)
        requires
            self.wf(),
        ensures
            r == self.ids().len(),
            r == self.names().len(),
    {
        self.ids.len()
    }

    /// The structural type id at index `i`.
    pub fn id_at(&self, i: usize) -> (r: u64)
        requires
            i < self.ids().len(),
        ensures
            r == self.ids()[i as int],
    {
        self.ids[i]
    }

    /// A copy of the logical name at index `i`.
    pub fn name_at(&self, i: usize) -> (r: String)
        requires
            self.wf(),
            i < self.names().len(),
        ensures
            r@ == self.names()[i as int],
    {
        self.names[i].clone()
    }

    /// Whether the event type `sid` is in the collection.
    pub fn contains_id(&self, sid: u64) -> (r: bool)
        ensures
            r == self.ids().contains(sid),
    {
        let mut i: usize = 0;
        while i < self.ids.len()
            invariant
                i <= self.ids@.len(),
                forall|j: int| 0 <= j < i ==> self.ids@[j] != sid,
            decreases self.ids@.len() - i,
        {
            if self.ids[i] == sid {
                return true;
            }
            i = i + 1;
        }
        false
    }

    /// Whether an event type with logical name `name` is in the collection.
    pub fn contains_name(&self, name: &str) -> (r: bool)
        ensures
            r == self.names().contains(name@),
    {
        let wanted = String::from_str(name);
        let mut i: usize = 0;
        while i < self.names.len()
            invariant
                i <= self.names@.len(),
                wanted@ == name@,
                forall|j: int| 0 <= j < i ==> self.names@[j]@ != name@,
            decreases self.names@.len() - i,
        {
            if self.names[i] == wanted {
                assert(self.names()[i as int] == name@);
                return true;
            }
            i = i + 1;
        }
        proof {
            if self.names().contains(name@) {
                let k = choose|k: int| 0 <= k < self.names().len() && self.names()[k] == name@;
                assert(self.names@[k]@ == name@);
            }
        }
        false
    }

    /// Adds the event type `sid`, called `name`. The collection is left as it
    /// was, and the event named in the error, when the type is already in it,
    /// or else when another type already has that name.
    pub fn register(&mut self, sid: u64, name: &str) -> (r: Result<(), EventError>)
        requires
            old(self).wf(),
        ensures
            final(self).wf(),
            old(self).ids().contains(sid) ==> (r matches Err(EventError::RegisteredTwice(n))
                && n@ == name@),
            !old(self).ids().contains(sid) && old(self).names().contains(name@) ==> (r matches Err(
                EventError::NameTaken(n),
            ) && n@ == name@),
            r is Err ==> final(self).ids() == old(self).ids() && final(self).names() == old(
                self,
            ).names(),
            r is Ok <==> !old(self).ids().contains(sid) && !old(self).names().contains(name@),
            r is Ok ==> final(self).ids() == old(self).ids().push(sid) && final(self).names()
                == old(self).names().push(name@),
    {
        if self.contains_id(sid) {
            return Err(EventError::RegisteredTwice(String::from_str(name)));
        }
        if self.contains_name(name) {
            return Err(EventError::NameTaken(String::from_str(name)));
        }
        self.ids.push(sid);
        self.names.push(String::from_str(name));
        assert(self.names() =~= old(self).names().push(name@));
        Ok(())
    }

    /// Builds the collection of `events`, adding them in order. Fails, naming
    /// the first event that repeats an id or a name before it, unless all ids
    /// and all names are distinct.
    pub fn from_events(events: &Vec<EventDescriptor>) -> (r: Result<EventCollection, EventError>)
        ensures
            r is Ok <==> descriptor_ids(events@).no_duplicates() && descriptor_names(
                events@,
            ).no_duplicates(),
            r matches Ok(c) ==> c.wf() && c.ids() == descriptor_ids(events@) && c.names()
                == descriptor_names(events@),
            r matches Err(e) ==> first_conflict(events@, e),
    {
        let ghost ids = descriptor_ids(events@);
        let ghost names = descriptor_names(events@);
        let mut c = EventCollection::new();
        let mut i: usize = 0;
        while i < events.len()
            invariant
                i <= events@.len(),
                ids == descriptor_ids(events@),
                names == descriptor_names(events@),
                c.wf(),
                c.ids() == ids.take(i as int),
                c.names() == names.take(i as int),
            decreases events@.len() - i,
        {
            let d = events[i];
            let res = c.register(d.sid, d.name);
            match res {
                Err(e) => {
                    proof {
                        assert(ids[i as int] == d.sid);
                        assert(names[i as int] == d.name@);
                        assert(first_conflict(events@, e));
                        if c.ids().contains(d.sid) {
                            let k = choose|k: int| 0 <= k < i && c.ids()[k] == d.sid;
                            assert(ids[k] == ids[i as int]);
                        } else {
                            let k = choose|k: int| 0 <= k < i && c.names()[k] == d.name@;
                            assert(names[k] == names[i as int]);
                        }
                    }
                    return Err(e);
                },
                Ok(()) => {},
            }
            assert(ids.take(i + 1) =~= ids.take(i as int).push(d.sid));
            assert(names.take(i + 1) =~= names.take(i as int).push(d.name@));
            i = i + 1;
        }
        assert(ids.take(i as int) =~= ids);
        assert(names.take(i as int) =~= names);
        Ok(c)
    }
}

impl Default for EventCollection {
    fn default() -> (r: EventCollection)
        ensures
            r.wf(),
            r.ids() == Seq::<u64>::empty(),
            r.names() == Seq::<Seq<char>>::empty(),
    {
        EventCollection::new()
    }
}

/// Builds the collection of `events` and pairs each event's logical name with
/// its schema, the one at the same index of `schemas`. Fails as
/// `EventCollection::from_events` does.
pub fn collect_events(events: &Vec<EventDescriptor>, schemas: Vec<specta::datatype::DataType>) -> (r:
    Result<(EventCollection, Vec<EventDataType>), EventError>)
    requires
        schemas@.len() == events@.len(),
    ensures
        r is Ok <==> descriptor_ids(events@).no_duplicates() && descriptor_names(
            events@,
        ).no_duplicates(),
        r matches Ok((c, types)) ==> {
            &&& c.wf()
            &&& c.ids() == descriptor_ids(events@)
            &&& c.names() == descriptor_names(events@)
            &&& types@.len() == events@.len()
            &&& forall|i: int|
                0 <= i < events@.len() ==> (#[trigger] types@[i]).name == events@[i].name
                    && types@[i].typ == schemas@[i]
        },
        r matches Err(e) ==> first_conflict(events@, e),
{
    let collection = match EventCollection::from_events(events) {
        Ok(c) => c,
        Err(e) => {
            return Err(e);
        },
    };
    let mut types: Vec<EventDataType> = Vec::new();
    let mut rest = schemas;
    let ghost all = schemas@;
    let mut i: usize = 0;
    while i < events.len()
        invariant
            i <= events@.len(),
            all.len() == events@.len(),
            rest@ == all.subrange(i as int, all.len() as int),
            types@.len() == i,
            forall|j: int|
                0 <= j < i ==> (#[trigger] types@[j]).name == events@[j].name && types@[j].typ
                    == all[j],
        decreases events@.len() - i,
    {
        let typ = rest.remove(0);
        types.push(EventDataType { name: events[i].name, typ });
        assert(rest@ =~= all.subrange(i + 1, all.len() as int));
        i = i + 1;
    }
    Ok((collection, types))
}

/// Within one well-formed collection no two event types share a structural
/// type id or a logical name.
pub proof fn lemma_collection_unique(c: &EventCollection)
    requires
        c.wf(),
    ensures
        c.ids().no_duplicates(),
        c.names().no_duplicates(),
        c.ids().len() == c.names().len(),
{
}

} // verus!
