//! A model of the runtime surface the emitted code targets.
//!
//! The generator wires the designated field as backing storage for dynamic
//! `name -> value` bindings and bakes the resolved kind into `get_type`.
//! This module states what that emitted implementation does at run time, in
//! terms the contracts can speak of: a property store with unique keys kept
//! in insertion order, the kind report, and the textual dump. An instance of
//! [`ObjectInstance`] stands for a freshly constructed annotated record seen
//! through its emitted implementation block.

use vstd::prelude::*;
use crate::object_derive::{ObjectImpl, ObjectType};

verus! {

/// A runtime value, carried by the text it displays as; the dump prints
/// exactly this text.
#[derive(Debug)]
pub struct Value {
    pub text: String,
}

impl View for Value {
    type V = Seq<char>;

    open spec fn view(&self) -> Seq<char> {
        self.text@
    }
}

impl Clone for Value {
    fn clone(&self) -> (r: Value)
        ensures
            r == *self,
    {
        Value { text: self.text.clone() }
    }
}

/// One `name -> value` binding of a property store.
#[derive(Debug)]
pub struct Property {
    pub name: String,
    pub value: Value,
}

/// Mathematical image of [`Property`].
pub ghost struct PropertyView {
    pub name: Seq<char>,
    pub value: Seq<char>,
}

impl View for Property {
    type V = PropertyView;

    open spec fn view(&self) -> PropertyView {
        PropertyView { name: self.name@, value: self.value@ }
    }
}

impl DeepView for Property {
    type V = PropertyView;

    open spec fn deep_view(&self) -> PropertyView {
        self.view()
    }
}

/// Whether some binding of the given name stands in the store.
pub open spec fn spec_contains(entries: Seq<PropertyView>, name: Seq<char>) -> bool {
    exists|k: int| 0 <= k < entries.len() && entries[k].name == name
}

/// The position of the binding of the given name.
pub open spec fn spec_index_of(entries: Seq<PropertyView>, name: Seq<char>) -> int {
    choose|k: int| 0 <= k < entries.len() && entries[k].name == name
}

/// The value bound to the given name.
pub open spec fn spec_value_of(entries: Seq<PropertyView>, name: Seq<char>) -> Seq<char> {
    entries[spec_index_of(entries, name)].value
}

/// Keys are unique; insertion order carries no further meaning.
pub open spec fn spec_wf(entries: Seq<PropertyView>) -> bool {
    forall|p: int, q: int|
        0 <= p < q < entries.len() ==> entries[p].name != entries[q].name
}

/// What `put` does: overwrite the binding in place if the name is bound,
/// append a new binding otherwise.
pub open spec fn spec_put(
    entries: Seq<PropertyView>,
    name: Seq<char>,
    value: Seq<char>,
) -> Seq<PropertyView> {
    if spec_contains(entries, name) {
        entries.update(spec_index_of(entries, name), PropertyView { name, value })
    } else {
        entries.push(PropertyView { name, value })
    }
}

/// The property store backing an object: bindings in insertion order, keys
/// unique.
#[derive(Debug)]
pub struct PropertyMap {
    entries: Vec<Property>,
}

impl View for PropertyMap {
    type V = Seq<PropertyView>;

    closed spec fn view(&self) -> Seq<PropertyView> {
        self.entries.deep_view()
    }
}

impl PropertyMap {
    /// Keys are unique.
    pub open spec fn wf(&self) -> bool {
        spec_wf(self@)
    }

    /// An empty store.
    pub fn new() -> (r: PropertyMap)
        ensures
            r@ == Seq::<PropertyView>::empty(),
            r.wf(),
    {
        PropertyMap { entries: Vec::new() }
    }

    /// How many bindings the store holds.
    pub fn len(&self) -> (r: usize)
        ensures
            r == self@.len(),
    {
        self.entries.len()
    }

    /// Inserts or overwrites the binding `name -> value`.
    pub fn put(&mut self, name: String, value: Value)
        requires
            old(self).wf(),
        ensures
            final(self)@ == spec_put(old(self)@, name@, value@),
            final(self).wf(),
    {
        let ghost sentries = self@;
        let mut i: usize = 0;
        while i < self.entries.len()
            invariant
                i <= self.entries.len(),
                sentries == self@,
                sentries == old(self)@,
                spec_wf(sentries),
                forall|k: int| 0 <= k < i ==> sentries[k].name != name@,
            decreases self.entries.len() - i,
        {
            proof {
                assert(sentries[i as int] == self.entries@[i as int]@);
            }
            if self.entries[i].name == name {
                proof {
                    assert(spec_contains(sentries, name@));
                    let j = spec_index_of(sentries, name@);
                    if j != i as int {
                        assert(sentries[j].name == sentries[i as int].name);
                        assert(false);
                    }
                }
                self.entries.set(i, Property { name, value });
                proof {
                    assert(self@ =~= spec_put(sentries, name@, value@));
                    assert forall|p: int, q: int|
                        0 <= p < q < self@.len() implies self@[p].name != self@[q].name by {
                        assert(self@[p].name == sentries[p].name);
                        assert(self@[q].name == sentries[q].name);
                    }
                }
                return ;
            }
            i += 1;
        }
        proof {
            assert(!spec_contains(sentries, name@));
        }
        self.entries.push(Property { name, value });
        proof {
            assert(self@ =~= spec_put(sentries, name@, value@));
            assert forall|p: int, q: int|
                0 <= p < q < self@.len() implies self@[p].name != self@[q].name by {
                if q < self@.len() - 1 {
                    assert(self@[p].name == sentries[p].name);
                    assert(self@[q].name == sentries[q].name);
                } else {
                    assert(self@[p].name == sentries[p].name);
                    assert(self@[q].name == name@);
                }
            }
        }
    }

    /// A fresh copy of the value bound to the name, or nothing.
    pub fn get(&self, name: &String) -> (r: Option<Value>)
        requires
            self.wf(),
        ensures
            match r {
                Some(v) => spec_contains(self@, name@) && v@ == spec_value_of(self@, name@),
                None => !spec_contains(self@, name@),
            },
    {
        let ghost sentries = self@;
        let mut i: usize = 0;
        while i < self.entries.len()
            invariant
                i <= self.entries.len(),
                sentries == self@,
                spec_wf(sentries),
                forall|k: int| 0 <= k < i ==> sentries[k].name != name@,
            decreases self.entries.len() - i,
        {
            proof {
                assert(sentries[i as int] == self.entries@[i as int]@);
            }
            if self.entries[i].name == *name {
                proof {
                    assert(spec_contains(sentries, name@));
                    let j = spec_index_of(sentries, name@);
                    if j != i as int {
                        assert(sentries[j].name == sentries[i as int].name);
                        assert(false);
                    }
                }
                return Some(self.entries[i].value.clone());
            }
            i += 1;
        }
        None
    }

    /// One line of the dump: four spaces, the name, a colon and a space, the
    /// value, a newline.
    pub open spec fn spec_entry_line(p: PropertyView) -> Seq<char> {
        "    "@ + p.name + ": "@ + p.value + "\n"@
    }

    /// The dump's body: one line per binding, in store order.
    pub open spec fn spec_lines(entries: Seq<PropertyView>) -> Seq<char>
        decreases entries.len(),
    {
        if entries.len() == 0 {
            Seq::empty()
        } else {
            Self::spec_lines(entries.drop_last()) + Self::spec_entry_line(entries.last())
        }
    }

    /// The whole dump: an opening brace line, the body, a closing brace.
    pub open spec fn spec_format_properties(entries: Seq<PropertyView>) -> Seq<char> {
        "{\n"@ + Self::spec_lines(entries) + "}"@
    }

    /// The diagnostic dump of the store, one line per binding in store
    /// order.
    pub fn format_properties(&self) -> (r: String)
        ensures
            r@ == Self::spec_format_properties(self@),
    {
        let ghost sentries = self@;
        let mut buf = String::from_str("{\n");
        let mut i: usize = 0;
        while i < self.entries.len()
            invariant
                i <= self.entries.len(),
                sentries == self@,
                buf@ == "{\n"@ + Self::spec_lines(sentries.take(i as int)),
            decreases self.entries.len() - i,
        {
            proof {
                assert(sentries[i as int] == self.entries@[i as int]@);
            }
            buf.append("    ");
            buf.append(self.entries[i].name.as_str());
            buf.append(": ");
            buf.append(self.entries[i].value.text.as_str());
            buf.append("\n");
            proof {
                assert(sentries.take(i + 1 as int).drop_last() =~= sentries.take(i as int));
                assert(buf@ =~= "{\n"@ + Self::spec_lines(sentries.take(i + 1 as int)));
            }
            i += 1;
        }
        proof {
            assert(sentries.take(sentries.len() as int) =~= sentries);
        }
        buf.append("}");
        buf
    }
}

/// A freshly constructed annotated record, seen through its emitted
/// implementation block: the baked-in kind and the wired property store.
#[derive(Debug)]
pub struct ObjectInstance {
    pub kind: ObjectType,
    pub properties: PropertyMap,
}

impl ObjectInstance {
    /// Keys of the store are unique.
    pub open spec fn wf(&self) -> bool {
        self.properties.wf()
    }

    /// A fresh instance under the given emitted implementation: its kind,
    /// an empty store.
    pub fn new(emitted: &ObjectImpl) -> (r: ObjectInstance)
        ensures
            r.kind == emitted.kind,
            r.properties@ == Seq::<PropertyView>::empty(),
            r.wf(),
    {
        ObjectInstance { kind: emitted.kind, properties: PropertyMap::new() }
    }

    /// Inserts or overwrites the binding `name -> value`; the kind is
    /// untouched.
    pub fn put(&mut self, name: String, value: Value)
        requires
            old(self).wf(),
        ensures
            final(self).kind == old(self).kind,
            final(self).properties@ == spec_put(old(self).properties@, name@, value@),
            final(self).wf(),
    {
        self.properties.put(name, value);
    }

    /// A fresh copy of the value bound to the name, or nothing.
    pub fn get(&self, name: &String) -> (r: Option<Value>)
        requires
            self.wf(),
        ensures
            match r {
                Some(v) => spec_contains(self.properties@, name@) && v@ == spec_value_of(
                    self.properties@,
                    name@,
                ),
                None => !spec_contains(self.properties@, name@),
            },
    {
        self.properties.get(name)
    }

    /// The kind resolved at generation time, baked in as a constant report.
    pub fn get_type(&self) -> (r: ObjectType)
        ensures
            r == self.kind,
    {
        self.kind
    }

    /// The diagnostic dump of the store.
    pub fn format_properties(&self) -> (r: String)
        ensures
            r@ == PropertyMap::spec_format_properties(self.properties@),
    {
        self.properties.format_properties()
    }
}

/// Store fidelity law: against any well-formed store, `put(k, v)` binds `k`
/// to exactly `v`, leaves every other name bound as before, and keeps the
/// store well-formed; in particular, on a fresh instance `put(k, v)`
/// followed by `get(k)` returns `v`, and `get` of any other name returns
/// nothing.
pub proof fn lemma_store_fidelity(
    entries: Seq<PropertyView>,
    name: Seq<char>,
    value: Seq<char>,
    other: Seq<char>,
)
    requires
        spec_wf(entries),
        other != name,
    ensures
        spec_contains(spec_put(entries, name, value), name),
        spec_value_of(spec_put(entries, name, value), name) == value,
        spec_wf(spec_put(entries, name, value)),
        spec_contains(spec_put(entries, name, value), other) == spec_contains(entries, other),
        spec_contains(entries, other) ==> spec_value_of(spec_put(entries, name, value), other)
            == spec_value_of(entries, other),
{
    let s = spec_put(entries, name, value);
    if spec_contains(entries, name) {
        let j = spec_index_of(entries, name);
        assert(0 <= j < entries.len() && entries[j].name == name);
        assert(s[j].name == name);
        assert(spec_contains(s, name));
        assert forall|p: int, q: int|
            0 <= p < q < s.len() implies s[p].name != s[q].name by {
            assert(s[p].name == entries[p].name);
            assert(s[q].name == entries[q].name);
        }
        let j2 = spec_index_of(s, name);
        if j2 != j {
            assert(s[j2].name == s[j].name);
            assert(false);
        }
        if spec_contains(entries, other) {
            let k = spec_index_of(entries, other);
            assert(s[k].name == other);
            assert(spec_contains(s, other));
            let k2 = spec_index_of(s, other);
            if k2 != k {
                assert(s[k2].name == s[k].name);
                assert(false);
            }
        }
        if spec_contains(s, other) {
            let k2 = spec_index_of(s, other);
            assert(entries[k2].name == other || k2 == j);
            assert(spec_contains(entries, other));
        }
    } else {
        let j = entries.len() as int;
        assert(s[j].name == name);
        assert(spec_contains(s, name));
        assert forall|p: int, q: int|
            0 <= p < q < s.len() implies s[p].name != s[q].name by {
            if q < j {
                assert(s[p].name == entries[p].name);
                assert(s[q].name == entries[q].name);
            } else {
                assert(s[p].name == entries[p].name);
                assert(s[q].name == name);
            }
        }
        let j2 = spec_index_of(s, name);
        if j2 != j {
            assert(s[j2].name == s[j].name);
            assert(false);
        }
        if spec_contains(entries, other) {
            let k = spec_index_of(entries, other);
            assert(s[k].name == other);
            assert(spec_contains(s, other));
            let k2 = spec_index_of(s, other);
            if k2 != k {
                assert(s[k2].name == s[k].name);
                assert(false);
            }
        }
        if spec_contains(s, other) {
            let k2 = spec_index_of(s, other);
            assert(k2 != j);
            assert(entries[k2].name == other);
            assert(spec_contains(entries, other));
        }
    }
}

/// An entry whose name and displayed value are non-empty and free of
/// newlines; only such entries keep each dump line to the regular line
/// shape.
pub open spec fn spec_shaped_entry(p: PropertyView) -> bool {
    p.name.len() > 0 && p.value.len() > 0 && !p.name.contains('\n') && !p.value.contains('\n')
}

/// The dump grammar: an opening brace and newline, zero or more lines of
/// the form `    <name>: <value>` each ending in a newline with name and
/// value shaped, and a closing brace.
pub open spec fn is_dump_shape(s: Seq<char>) -> bool {
    exists|entries: Seq<PropertyView>|
        s == PropertyMap::spec_format_properties(entries) && (forall|k: int|
            0 <= k < entries.len() ==> spec_shaped_entry(entries[k]))
}

/// Dump shape law: whenever every binding's name and value text are
/// non-empty and free of newlines, the dump matches the dump grammar; it
/// opens with a brace and a newline and closes with a brace.
pub proof fn lemma_dump_shape(entries: Seq<PropertyView>)
    requires
        forall|k: int| 0 <= k < entries.len() ==> spec_shaped_entry(entries[k]),
    ensures
        is_dump_shape(PropertyMap::spec_format_properties(entries)),
        PropertyMap::spec_format_properties(entries).len() >= 3,
        PropertyMap::spec_format_properties(entries)[0] == '{',
        PropertyMap::spec_format_properties(entries)[1] == '\n',
        PropertyMap::spec_format_properties(entries).last() == '}',
{
    reveal_strlit("{\n");
    reveal_strlit("}");
    let s = PropertyMap::spec_format_properties(entries);
    assert(s == PropertyMap::spec_format_properties(entries) && (forall|k: int|
        0 <= k < entries.len() ==> spec_shaped_entry(entries[k])));
    assert(is_dump_shape(s));
}

} // verus!
