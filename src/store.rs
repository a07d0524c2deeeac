//! The instance store: task instances keyed by identifier, with lookup by
//! identifier and by most recent creation under a definition name.
use vstd::prelude::*;
use vstd::string::StringExecFns;
use crate::error::SigilError;
use crate::ids::{id_text, parse_id, uuid_parsed, uuid_text};
use crate::kv::{
    has_key, keys_distinct, lemma_pairs_map_at, lemma_pairs_map_dom, lemma_pairs_map_push,
    lemma_pairs_map_update, pairs_map,
};
use crate::task::TaskInstance;
use crate::text::{join2, same_text};

verus! {

/// Every saved instance, at most one per identifier.
#[derive(Debug)]
pub struct InstanceStore {
    pub records: Vec<TaskInstance>,
}

/// The records paired with their identifiers.
pub open spec fn id_pairs(rs: Seq<TaskInstance>) -> Seq<(u128, TaskInstance)> {
    rs.map_values(|r: TaskInstance| (r.id, r))
}

/// Whether record `r` belongs to the definition named `name`.
pub open spec fn named(r: TaskInstance, name: Seq<char>) -> bool {
    r.definition_name@ == name
}

impl View for InstanceStore {
    type V = Map<u128, TaskInstance>;

    open spec fn view(&self) -> Map<u128, TaskInstance> {
        pairs_map(id_pairs(self.records@))
    }
}

/// The file name under which an instance is stored: its identifier's text
/// and `.json`.
pub fn instance_file_name(id: u128) -> (r: String)
    ensures
        r@ == uuid_text(id) + ".json"@,
{
    let t = id_text(id);
    join2(t.as_str(), ".json")
}

/// The file name under which a definition is stored: its name and `.toml`.
pub fn definition_file_name(name: &str) -> (r: String)
    ensures
        r@ == name@ + ".toml"@,
{
    join2(name, ".toml")
}

impl InstanceStore {
    /// No identifier occurs twice.
    pub open spec fn wf(&self) -> bool {
        keys_distinct(id_pairs(self.records@))
    }

    /// The empty store.
    pub fn new() -> (r: InstanceStore)
        ensures
            r.wf(),
            r@ == Map::<u128, TaskInstance>::empty(),
    {
        let r = InstanceStore { records: Vec::new() };
        assert(id_pairs(r.records@) =~= Seq::<(u128, TaskInstance)>::empty());
        r
    }

    /// Position of the record with identifier `id`, if any.
    fn position(&self, id: u128) -> (r: Option<usize>)
        ensures
            match r {
                Some(i) => i < self.records@.len() && self.records@[i as int].id == id,
                None => !has_key(id_pairs(self.records@), id),
            },
    {
        let mut i: usize = 0;
        while i < self.records.len()
            invariant
                i <= self.records@.len(),
                forall|j: int| 0 <= j < i ==> self.records@[j].id != id,
            decreases self.records@.len() - i,
        {
            if self.records[i].id == id {
                return Some(i);
            }
            i = i + 1;
        }
        proof {
            if has_key(id_pairs(self.records@), id) {
                let k = choose|k: int|
                    0 <= k < id_pairs(self.records@).len() && id_pairs(self.records@)[k].0 == id;
                assert(self.records@[k].id == id);
            }
        }
        None
    }

    /// Saves an instance, replacing any earlier record with its identifier.
    pub fn save(&mut self, instance: TaskInstance)
        requires
            old(self).wf(),
        ensures
            final(self).wf(),
            final(self)@ == old(self)@.insert(instance.id, instance),
    {
        let ghost ps = id_pairs(self.records@);
        let ghost inst = instance;
        match self.position(instance.id) {
            Some(i) => {
                self.records.set(i, instance);
                proof {
                    assert(id_pairs(self.records@) =~= ps.update(i as int, (ps[i as int].0, inst)));
                    lemma_pairs_map_update(ps, i as int, inst);
                }
            },
            None => {
                self.records.push(instance);
                proof {
                    assert(id_pairs(self.records@) =~= ps.push((inst.id, inst)));
                    lemma_pairs_map_push(ps, inst.id, inst);
                }
            },
        }
    }

    /// The record with identifier `id`; `NotFound` if there is none.
    pub fn load_by_id(&self, id: u128) -> (r: Result<&TaskInstance, SigilError>)
        requires
            self.wf(),
        ensures
            r is Ok <==> self@.contains_key(id),
            r matches Ok(inst) ==> *inst == self@[id],
            r matches Err(e) ==> e matches SigilError::NotFound(t) && t@ == "Task instance: "@
                + uuid_text(id),
    {
        proof {
            lemma_pairs_map_dom(id_pairs(self.records@), id);
        }
        match self.position(id) {
            Some(i) => {
                proof {
                    lemma_pairs_map_at(id_pairs(self.records@), i as int);
                }
                Ok(&self.records[i])
            },
            None => {
                let t = id_text(id);
                Err(SigilError::NotFound(join2("Task instance: ", t.as_str())))
            },
        }
    }

    /// The record of definition `name` with the greatest creation time (the
    /// first such record where several share it); `NotFound` if none.
    pub fn find_latest_by_name(&self, name: &str) -> (r: Result<&TaskInstance, SigilError>)
        ensures
            r is Ok <==> exists|i: int|
                0 <= i < self.records@.len() && named(#[trigger] self.records@[i], name@),
            r matches Ok(inst) ==> {
                &&& named(*inst, name@)
                &&& exists|i: int| 0 <= i < self.records@.len() && self.records@[i] == *inst
                &&& forall|j: int|
                    0 <= j < self.records@.len() && named(#[trigger] self.records@[j], name@)
                        ==> self.records@[j].created_at <= inst.created_at
            },
            r matches Err(e) ==> e matches SigilError::NotFound(t) && t@
                == "No task instances found for: "@ + name@,
    {
        let mut best: Option<usize> = None;
        let mut i: usize = 0;
        while i < self.records.len()
            invariant
                i <= self.records@.len(),
                match best {
                    Some(b) => {
                        &&& b < i
                        &&& named(self.records@[b as int], name@)
                        &&& forall|j: int|
                            0 <= j < i && named(#[trigger] self.records@[j], name@)
                                ==> self.records@[j].created_at <= self.records@[b as int].created_at
                    },
                    None => forall|j: int| 0 <= j < i ==> !named(#[trigger] self.records@[j], name@),
                },
            decreases self.records@.len() - i,
        {
            if same_text(self.records[i].definition_name.as_str(), name) {
                match best {
                    Some(b) => {
                        if self.records[i].created_at > self.records[b].created_at {
                            best = Some(i);
                        }
                    },
                    None => {
                        best = Some(i);
                    },
                }
            }
            i = i + 1;
        }
        match best {
            Some(b) => Ok(&self.records[b]),
            None => Err(SigilError::NotFound(join2("No task instances found for: ", name))),
        }
    }

    /// Looks an instance up by a text that either spells an identifier,
    /// already parsed into `parsed`, or else names a definition.
    pub fn lookup_parsed(&self, parsed: Option<u128>, key: &str) -> (r: Result<
        &TaskInstance,
        SigilError,
    >)
        requires
            self.wf(),
        ensures
            match parsed {
                Some(id) => {
                    &&& r is Ok <==> self@.contains_key(id)
                    &&& r matches Ok(inst) ==> *inst == self@[id]
                    &&& r matches Err(e) ==> e matches SigilError::NotFound(t) && t@
                        == "Task instance: "@ + uuid_text(id)
                },
                None => {
                    &&& r is Ok <==> exists|i: int|
                        0 <= i < self.records@.len() && named(#[trigger] self.records@[i], key@)
                    &&& r matches Ok(inst) ==> {
                        &&& named(*inst, key@)
                        &&& exists|i: int|
                            0 <= i < self.records@.len() && self.records@[i] == *inst
                        &&& forall|j: int|
                            0 <= j < self.records@.len() && named(#[trigger] self.records@[j], key@)
                                ==> self.records@[j].created_at <= inst.created_at
                    }
                    &&& r matches Err(e) ==> e matches SigilError::NotFound(t) && t@
                        == "No task instances found for: "@ + key@
                },
            },
    {
        match parsed {
            Some(id) => self.load_by_id(id),
            None => self.find_latest_by_name(key),
        }
    }

    /// Looks an instance up by identifier when `key` spells one, else as
    /// the latest instance of the definition named `key`.
    pub fn lookup(&self, key: &str) -> (r: Result<&TaskInstance, SigilError>)
        requires
            self.wf(),
        ensures
            match uuid_parsed(key@) {
                Some(id) => {
                    &&& r is Ok <==> self@.contains_key(id)
                    &&& r matches Ok(inst) ==> *inst == self@[id]
                    &&& r matches Err(e) ==> e matches SigilError::NotFound(t) && t@
                        == "Task instance: "@ + uuid_text(id)
                },
                None => {
                    &&& r is Ok <==> exists|i: int|
                        0 <= i < self.records@.len() && named(#[trigger] self.records@[i], key@)
                    &&& r matches Ok(inst) ==> {
                        &&& named(*inst, key@)
                        &&& exists|i: int|
                            0 <= i < self.records@.len() && self.records@[i] == *inst
                        &&& forall|j: int|
                            0 <= j < self.records@.len() && named(#[trigger] self.records@[j], key@)
                                ==> self.records@[j].created_at <= inst.created_at
                    }
                    &&& r matches Err(e) ==> e matches SigilError::NotFound(t) && t@
                        == "No task instances found for: "@ + key@
                },
            },
    {
        let parsed = parse_id(key);
        self.lookup_parsed(parsed, key)
    }
}

/// A saved instance is found again, unchanged, under its identifier, and
/// saving an instance with another identifier later leaves it so.
/// (`save` makes the view `store@.insert(inst.id, inst)`; `load_by_id`
/// returns `view[id]` exactly when the view holds `id`.)
pub proof fn lemma_saved_instance_retrievable(
    store: InstanceStore,
    inst: TaskInstance,
    later: TaskInstance,
)
    requires
        store.wf(),
        later.id != inst.id,
    ensures
        store@.insert(inst.id, inst).contains_key(inst.id),
        store@.insert(inst.id, inst)[inst.id] == inst,
        store@.insert(inst.id, inst).insert(later.id, later).contains_key(inst.id),
        store@.insert(inst.id, inst).insert(later.id, later)[inst.id] == inst,
{
}

} // verus!
