//! The host's image of the foreign heap: objects with named properties, each
//! live until the foreign runtime discards it.
use vstd::prelude::*;
use crate::error::ReferenceError;
use crate::value::{ForeignReference, Value, ValueView};

verus! {

/// The mathematical content of one foreign object.
pub ghost struct ObjectView {
    pub live: bool,
    pub properties: Map<Seq<char>, ValueView>,
}

/// The mathematical content of the foreign heap: its objects, by id.
pub ghost struct GraphView {
    pub objects: Seq<ObjectView>,
}

impl GraphView {
    /// Whether the foreign runtime still backs the reference.
    pub open spec fn is_live(self, reference: ForeignReference) -> bool {
        reference.id < self.objects.len() && self.objects[reference.id as int].live
    }

    /// Whether the object carries the property as a key of its own.
    pub open spec fn has_key(self, reference: ForeignReference, name: Seq<char>) -> bool {
        self.is_live(reference) && self.objects[reference.id as int].properties.dom().contains(
            name,
        )
    }

    /// What a property read yields: the stored value, or `undefined` where
    /// the object lacks the key.
    pub open spec fn read(self, reference: ForeignReference, name: Seq<char>) -> ValueView {
        if self.has_key(reference, name) {
            self.objects[reference.id as int].properties[name]
        } else {
            ValueView::Undefined
        }
    }

    /// The heap after a property write through a live reference; a write
    /// through any other reference leaves the heap as it was.
    pub open spec fn write(
        self,
        reference: ForeignReference,
        name: Seq<char>,
        value: ValueView,
    ) -> GraphView {
        if self.is_live(reference) {
            GraphView {
                objects: self.objects.update(
                    reference.id as int,
                    ObjectView {
                        live: true,
                        properties: self.objects[reference.id as int].properties.insert(
                            name,
                            value,
                        ),
                    },
                ),
            }
        } else {
            self
        }
    }

    /// The heap after the foreign runtime has discarded an object.
    pub open spec fn discard(self, reference: ForeignReference) -> GraphView {
        if reference.id < self.objects.len() {
            GraphView {
                objects: self.objects.update(
                    reference.id as int,
                    ObjectView {
                        live: false,
                        properties: self.objects[reference.id as int].properties,
                    },
                ),
            }
        } else {
            self
        }
    }

    /// The heap after a fresh object without properties has been created.
    pub open spec fn allocate(self) -> GraphView {
        GraphView {
            objects: self.objects.push(ObjectView { live: true, properties: Map::empty() }),
        }
    }
}

struct Property {
    name: String,
    value: Value,
}

struct Slot {
    live: bool,
    properties: Vec<Property>,
}

/// The host's image of the foreign heap.
pub struct ObjectGraph {
    slots: Vec<Slot>,
}

/// The map that a list of properties stands for: where a name occurs more
/// than once, its first entry counts.
spec fn property_map(properties: Seq<Property>) -> Map<Seq<char>, ValueView>
    decreases properties.len(),
{
    if properties.len() == 0 {
        Map::empty()
    } else {
        let earlier = property_map(properties.drop_last());
        let last = properties.last();
        if earlier.dom().contains(last.name@) {
            earlier
        } else {
            earlier.insert(last.name@, last.value@)
        }
    }
}

spec fn slot_view(slot: Slot) -> ObjectView {
    ObjectView { live: slot.live, properties: property_map(slot.properties@) }
}

/// Whether no entry before `index` carries `name`.
spec fn absent_before(properties: Seq<Property>, name: Seq<char>, index: int) -> bool {
    forall|j: int| 0 <= j < index && j < properties.len() ==> (#[trigger] properties[j]).name@ != name
}

proof fn lemma_property_map_absent(properties: Seq<Property>, name: Seq<char>)
    requires
        absent_before(properties, name, properties.len() as int),
    ensures
        !property_map(properties).dom().contains(name),
    decreases properties.len(),
{
    if properties.len() > 0 {
        lemma_property_map_absent(properties.drop_last(), name);
    }
}

proof fn lemma_property_map_first(properties: Seq<Property>, name: Seq<char>, index: int)
    requires
        0 <= index < properties.len(),
        properties[index].name@ == name,
        absent_before(properties, name, index),
    ensures
        property_map(properties).dom().contains(name),
        property_map(properties)[name] == properties[index].value@,
    decreases properties.len(),
{
    let shorter = properties.drop_last();
    if index == properties.len() - 1 {
        lemma_property_map_absent(shorter, name);
    } else {
        lemma_property_map_first(shorter, name, index);
    }
}

proof fn lemma_property_map_push(properties: Seq<Property>, entry: Property)
    requires
        absent_before(properties, entry.name@, properties.len() as int),
    ensures
        property_map(properties.push(entry)) == property_map(properties).insert(
            entry.name@,
            entry.value@,
        ),
{
    lemma_property_map_absent(properties, entry.name@);
    assert(properties.push(entry).drop_last() == properties);
}

proof fn lemma_property_map_update(properties: Seq<Property>, index: int, entry: Property)
    requires
        0 <= index < properties.len(),
        properties[index].name@ == entry.name@,
        absent_before(properties, entry.name@, index),
    ensures
        property_map(properties.update(index, entry)) == property_map(properties).insert(
            entry.name@,
            entry.value@,
        ),
    decreases properties.len(),
{
    let name = entry.name@;
    let shorter = properties.drop_last();
    let updated = properties.update(index, entry);
    if index == properties.len() - 1 {
        assert(updated.drop_last() == shorter);
        lemma_property_map_absent(shorter, name);
    } else {
        assert(updated.drop_last() == shorter.update(index, entry));
        lemma_property_map_update(shorter, index, entry);
        lemma_property_map_first(shorter, name, index);
    }
}

impl View for ObjectGraph {
    type V = GraphView;

    closed spec fn view(&self) -> GraphView {
        GraphView { objects: self.slots@.map_values(|slot: Slot| slot_view(slot)) }
    }
}

/// The index of the first entry that carries `name`, if there is one.
fn find_property(properties: &Vec<Property>, name: &String) -> (found: Option<usize>)
    ensures
        match found {
            Some(index) => index < properties.len() && properties[index as int].name@ == name@
                && absent_before(properties@, name@, index as int),
            None => absent_before(properties@, name@, properties.len() as int),
        },
{
    let mut index: usize = 0;
    while index < properties.len()
        invariant
            index <= properties.len(),
            absent_before(properties@, name@, index as int),
        decreases properties.len() - index,
    {
        if properties[index].name == *name {
            return Some(index);
        }
        index += 1;
    }
    None
}

impl ObjectGraph {
    /// A heap without objects.
    pub fn new() -> (graph: ObjectGraph)
        ensures
            graph@.objects.len() == 0,
    {
        ObjectGraph { slots: Vec::new() }
    }

    /// The number of objects ever created, discarded ones included.
    pub fn len(&self) -> (count: usize)
        ensures
            count == self@.objects.len(),
    {
        self.slots.len()
    }

    /// Creates a fresh live object without properties and hands out the
    /// reference to it.
    pub fn allocate(&mut self) -> (reference: ForeignReference)
        ensures
            final(self)@ == old(self)@.allocate(),
            reference.id == old(self)@.objects.len(),
    {
        let id = self.slots.len();
        self.slots.push(Slot { live: true, properties: Vec::new() });
        assert(self@.objects =~= old(self)@.allocate().objects);
        ForeignReference { id }
    }

    /// Marks an object as discarded by the foreign runtime: every later
    /// access through a reference to it fails.
    pub fn discard(&mut self, reference: ForeignReference)
        ensures
            final(self)@ == old(self)@.discard(reference),
    {
        if reference.id < self.slots.len() {
            self.slots[reference.id].live = false;
            assert(self@.objects =~= old(self)@.discard(reference).objects);
        }
    }

    pub fn is_live(&self, reference: ForeignReference) -> (live: bool)
        ensures
            live == self@.is_live(reference),
    {
        reference.id < self.slots.len() && self.slots[reference.id].live
    }

    /// Whether the object carries the property as a key of its own. An
    /// object that is not live carries none.
    pub fn has_key(&self, reference: ForeignReference, name: &str) -> (present: bool)
        ensures
            present == self@.has_key(reference, name@),
    {
        if !self.is_live(reference) {
            return false;
        }
        let key = name.to_owned();
        let slot = &self.slots[reference.id];
        let found = find_property(&slot.properties, &key);
        proof {
            match found {
                Some(index) => lemma_property_map_first(slot.properties@, name@, index as int),
                None => lemma_property_map_absent(slot.properties@, name@),
            }
        }
        found.is_some()
    }

    /// Reads a property. A property that the object lacks reads as
    /// `undefined`; a reference that is not live is an error.
    pub fn read(&self, reference: ForeignReference, name: &str) -> (outcome: Result<
        Value,
        ReferenceError,
    >)
        ensures
            self@.is_live(reference) ==> outcome is Ok && outcome->Ok_0@ == self@.read(
                reference,
                name@,
            ),
            !self@.is_live(reference) ==> outcome == Err::<Value, ReferenceError>(
                ReferenceError { reference },
            ),
    {
        if !self.is_live(reference) {
            return Err(ReferenceError { reference });
        }
        let key = name.to_owned();
        let slot = &self.slots[reference.id];
        match find_property(&slot.properties, &key) {
            Some(index) => {
                proof {
                    lemma_property_map_first(slot.properties@, name@, index as int);
                }
                Ok(slot.properties[index].value.clone())
            },
            None => {
                proof {
                    lemma_property_map_absent(slot.properties@, name@);
                }
                Ok(Value::Undefined)
            },
        }
    }

    /// Writes a property, creating the key where the object lacks it. A
    /// reference that is not live is an error, and the heap stays as it was.
    pub fn write(&mut self, reference: ForeignReference, name: &str, value: Value) -> (outcome:
        Result<(), ReferenceError>)
        ensures
            old(self)@.is_live(reference) ==> outcome is Ok,
            !old(self)@.is_live(reference) ==> outcome == Err::<(), ReferenceError>(
                ReferenceError { reference },
            ),
            final(self)@ == old(self)@.write(reference, name@, value@),
    {
        if !self.is_live(reference) {
            return Err(ReferenceError { reference });
        }
        let key = name.to_owned();
        let found = find_property(&self.slots[reference.id].properties, &key);
        let entry = Property { name: key, value };
        let ghost before = self.slots[reference.id as int].properties@;
        match found {
            Some(index) => {
                proof {
                    lemma_property_map_update(before, index as int, entry);
                }
                self.slots[reference.id].properties[index] = entry;
            },
            None => {
                proof {
                    lemma_property_map_push(before, entry);
                }
                self.slots[reference.id].properties.push(entry);
            },
        }
        assert(self@.objects =~= old(self)@.write(reference, name@, value@).objects);
        Ok(())
    }
}

} // verus!
