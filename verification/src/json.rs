//! JSON values as the automations exchange them.

use crate::model::FaithfulClone;
use crate::ordered_map::{
    in_key_order, lookup, slot, slot_exists, splits, text_before, with_entry,
    with_entry_is_read_back, KeyPosition, OrderedKey,
};
use vstd::prelude::*;

verus! {

/// A JSON value. A number is kept as its literal.
#[derive(Debug, PartialEq)]
pub enum JsonValue {
    Null,
    Bool(bool),
    Number(String),
    Text(String),
    Array(Vec<JsonValue>),
    Object(JsonObject),
}

/// The members of a JSON object, each name once, in the order of the names.
#[derive(Debug, PartialEq)]
pub struct JsonObject {
    members: Vec<(String, JsonValue)>,
}

/// What a [`JsonValue`] holds.
#[verifier::ext_equal]
pub enum JsonModel {
    Null,
    Bool(bool),
    Number(Seq<char>),
    Text(Seq<char>),
    Array(Seq<JsonModel>),
    Object(Seq<(Seq<char>, JsonModel)>),
}

impl JsonValue {
    /// What the value holds, members and items in their order.
    pub open spec fn model(&self) -> JsonModel
        decreases *self,
    {
        match self {
            JsonValue::Null => JsonModel::Null,
            JsonValue::Bool(b) => JsonModel::Bool(*b),
            JsonValue::Number(literal) => JsonModel::Number(literal@),
            JsonValue::Text(text) => JsonModel::Text(text@),
            JsonValue::Array(items) => JsonModel::Array(
                Seq::new(
                    items@.len(),
                    |i: int|
                        if 0 <= i < items@.len() {
                            items@[i].model()
                        } else {
                            JsonModel::Null
                        },
                ),
            ),
            JsonValue::Object(object) => JsonModel::Object(object.model()),
        }
    }
}

impl JsonObject {
    /// The members in the order of their names.
    pub closed spec fn model(&self) -> Seq<(Seq<char>, JsonModel)>
        decreases *self,
    {
        Seq::new(
            self.members@.len(),
            |i: int|
                if 0 <= i < self.members@.len() {
                    (self.members@[i].0@, self.members@[i].1.model())
                } else {
                    (Seq::empty(), JsonModel::Null)
                },
        )
    }

    #[verifier::type_invariant]
    spec fn ordered(self) -> bool {
        forall|i: int, j: int|
            0 <= i < j < self.members@.len() ==> text_before(
                (#[trigger] self.members@[i]).0@,
                (#[trigger] self.members@[j]).0@,
            )
    }
}

impl DeepView for JsonObject {
    type V = Seq<(Seq<char>, JsonModel)>;

    open spec fn deep_view(&self) -> Seq<(Seq<char>, JsonModel)> {
        self.model()
    }
}

impl DeepView for JsonValue {
    type V = JsonModel;

    open spec fn deep_view(&self) -> JsonModel {
        self.model()
    }
}

impl Clone for JsonValue {
    fn clone(&self) -> (copy: Self)
        ensures
            copy.deep_view() == self.deep_view(),
        decreases *self,
    {
        match self {
            JsonValue::Null => JsonValue::Null,
            JsonValue::Bool(b) => JsonValue::Bool(*b),
            JsonValue::Number(literal) => JsonValue::Number(literal.clone()),
            JsonValue::Text(text) => JsonValue::Text(text.clone()),
            JsonValue::Array(items) => {
                let mut copies: Vec<JsonValue> = Vec::new();
                let mut i: usize = 0;
                while i < items.len()
                    invariant
                        0 <= i <= items@.len(),
                        *self == JsonValue::Array(*items),
                        copies@.len() == i,
                        forall|k: int|
                            0 <= k < i ==> (#[trigger] copies@[k]).model() == items@[k].model(),
                    decreases items@.len() - i,
                {
                    assert(decreases_to!(*self => self->Array_0));
                    assert(decreases_to!(*self => items@[i as int]));
                    copies.push(items[i].clone());
                    i += 1;
                }
                let copy = JsonValue::Array(copies);
                assert(copy.model()->Array_0 =~= self.model()->Array_0);
                copy
            },
            JsonValue::Object(object) => {
                assert(decreases_to!(*self => self->Object_0));
                JsonValue::Object(object.clone())
            },
        }
    }
}

impl Clone for JsonObject {
    fn clone(&self) -> (copy: Self)
        ensures
            copy.deep_view() == self.deep_view(),
        decreases *self,
    {
        proof {
            use_type_invariant(self);
        }
        let mut members: Vec<(String, JsonValue)> = Vec::new();
        let mut i: usize = 0;
        while i < self.members.len()
            invariant
                i <= self.members@.len(),
                members@.len() == i,
                forall|k: int|
                    0 <= k < i ==> (#[trigger] members@[k]).0@ == self.members@[k].0@
                        && members@[k].1.model() == self.members@[k].1.model(),
            decreases self.members@.len() - i,
        {
            assert(decreases_to!(*self => self.members));
            assert(decreases_to!(*self => self.members@[i as int]));
            assert(decreases_to!(*self => self.members@[i as int].1));
            let value = self.members[i].1.clone();
            members.push((self.members[i].0.clone(), value));
            i += 1;
        }
        proof {
            assert forall|a: int, b: int| 0 <= a < b < members@.len() implies text_before(
                (#[trigger] members@[a]).0@,
                (#[trigger] members@[b]).0@,
            ) by {
                assert(text_before(self.members@[a].0@, self.members@[b].0@));
            }
        }
        let copy = JsonObject { members };
        assert(copy.model() =~= self.model());
        copy
    }
}

impl FaithfulClone for JsonValue {
    proof fn clone_keeps_model(original: Self, copy: Self) {
    }
}

impl FaithfulClone for JsonObject {
    proof fn clone_keeps_model(original: Self, copy: Self) {
    }
}

impl JsonObject {
    /// An object without members.
    pub fn new() -> (object: Self)
        ensures
            object.deep_view() == Seq::<(Seq<char>, JsonModel)>::empty(),
    {
        let object = JsonObject { members: Vec::new() };
        assert(object.model() =~= Seq::empty());
        object
    }

    /// The members of an object are in the order of their names.
    pub fn keeps_order(&self)
        ensures
            in_key_order::<String, JsonModel>(self.deep_view()),
    {
        proof {
            use_type_invariant(self);
        }
    }

    /// The number of members.
    pub fn len(&self) -> (len: usize)
        ensures
            len == self.deep_view().len(),
    {
        self.members.len()
    }

    /// The name of the member at `index`.
    pub fn name_at(&self, index: usize) -> (name: &String)
        requires
            index < self.deep_view().len(),
        ensures
            name@ == self.deep_view()[index as int].0,
    {
        &self.members[index].0
    }

    /// The value of the member at `index`.
    pub fn value_at(&self, index: usize) -> (value: &JsonValue)
        requires
            index < self.deep_view().len(),
        ensures
            value.deep_view() == self.deep_view()[index as int].1,
    {
        &self.members[index].1
    }

    fn find(&self, name: &String) -> (p: usize)
        ensures
            p == slot::<String, JsonModel>(self.model(), name@),
            p <= self.members@.len(),
            splits::<String, JsonModel>(self.model(), name@, p as int),
    {
        self.keeps_order();
        proof {
            slot_exists::<String, JsonModel>(self.model(), name@);
        }
        let mut p: usize = 0;
        while p < self.members.len()
            invariant
                p <= self.members@.len(),
                p <= slot::<String, JsonModel>(self.model(), name@),
                splits::<String, JsonModel>(
                    self.model(),
                    name@,
                    slot::<String, JsonModel>(self.model(), name@),
                ),
            decreases self.members@.len() - p,
        {
            assert(self.model()[p as int].0 == self.members@[p as int].0@);
            match self.members[p].0.position(name) {
                KeyPosition::Before => {
                    p += 1;
                },
                _ => {
                    return p;
                },
            }
        }
        p
    }

    /// The value of the member `name`.
    pub fn get(&self, name: &String) -> (value: Option<&JsonValue>)
        ensures
            value is Some <==> lookup::<String, JsonModel>(self.deep_view(), name@) is Some,
            value is Some ==> lookup::<String, JsonModel>(self.deep_view(), name@) == Some(
                value->0.deep_view(),
            ),
    {
        let p: usize = self.find(name);
        if p < self.members.len() {
            assert(self.model()[p as int].0 == self.members@[p as int].0@);
            match self.members[p].0.position(name) {
                KeyPosition::Same => Some(&self.members[p].1),
                _ => None,
            }
        } else {
            None
        }
    }

    /// Set the member `name` to `value`, in place of the value that it had.
    pub fn insert(&mut self, name: String, value: JsonValue)
        ensures
            final(self).deep_view() == with_entry::<String, JsonModel>(
                old(self).deep_view(),
                name@,
                value.deep_view(),
            ),
    {
        self.keeps_order();
        let ghost before = self.model();
        let ghost after = with_entry::<String, JsonModel>(before, name@, value.model());
        proof {
            with_entry_is_read_back::<String, JsonModel>(before, name@, value.model());
        }
        let p: usize = self.find(&name);
        let mut members: Vec<(String, JsonValue)> = Vec::new();
        std::mem::swap(&mut members, &mut self.members);
        let mut replace = false;
        if p < members.len() {
            assert(before[p as int].0 == members@[p as int].0@);
            match members[p].0.position(&name) {
                KeyPosition::Same => {
                    replace = true;
                },
                _ => {},
            }
        }
        if replace {
            members.remove(p);
        }
        members.insert(p, (name, value));
        assert(Seq::new(members@.len(), |i: int| (members@[i].0@, members@[i].1.model()))
            =~= after);
        proof {
            assert forall|i: int, j: int| 0 <= i < j < members@.len() implies text_before(
                (#[trigger] members@[i]).0@,
                (#[trigger] members@[j]).0@,
            ) by {
                assert(after[i].0 == members@[i].0@);
                assert(after[j].0 == members@[j].0@);
            }
        }
        self.members = members;
        assert(self.model() =~= after);
    }
}

/// The model of a value holds what the value holds, the items of a list in their order.
pub proof fn value_is_told_by_its_model(value: &JsonValue)
    ensures
        match value {
            JsonValue::Null => value.deep_view() is Null,
            JsonValue::Bool(set) => value.deep_view() == JsonModel::Bool(*set),
            JsonValue::Number(literal) => value.deep_view() == JsonModel::Number(literal@),
            JsonValue::Text(text) => value.deep_view() == JsonModel::Text(text@),
            JsonValue::Array(items) => {
                &&& value.deep_view() is Array
                &&& value.deep_view()->Array_0.len() == items@.len()
                &&& forall|i: int|
                    0 <= i < items@.len() ==> #[trigger] value.deep_view()->Array_0[i]
                        == items@[i].deep_view()
            },
            JsonValue::Object(object) => value.deep_view() == JsonModel::Object(object.deep_view()),
        },
{
}

/// The model of an object holds its members in their order, each with its name.
proof fn object_is_told_by_its_model(object: &JsonObject, i: int)
    requires
        0 <= i < object.members@.len(),
    ensures
        object.deep_view().len() == object.members@.len(),
        object.deep_view()[i].0 == object.members@[i].0@,
        object.deep_view()[i].1 == object.members@[i].1.deep_view(),
{
}

}
