//! Equality of structured values.
//!
//! Two values are the same when they are of one kind and hold the same:
//! arrays item by item, objects key by key whatever the order of their
//! keys. Under a key that an object holds more than once, the first member
//! counts, as it does when a member is looked up.

use vstd::prelude::*;
use vstd::std_specs::cmp::PartialEqSpecImpl;
use crate::value::{
    find_member, first_position, has_key, items_view, lemma_array_view, lemma_object_view,
    lemma_position_of, members_view, position_of, Json, JsonValue, Member, Value,
};

verus! {

impl Json {
    /// Whether two values are the same: of one kind, and holding the same.
    pub open spec fn same(self, other: Json) -> bool
        decreases self, 0nat,
    {
        match self {
            Json::Null => other is Null,
            Json::Bool(x) => other matches Json::Bool(y) && x == y,
            Json::Number(x) => other matches Json::Number(y) && x == y,
            Json::String(x) => other matches Json::String(y) && x == y,
            Json::Array(a) => other matches Json::Array(b) && same_items(a, b),
            Json::Object(a) => other matches Json::Object(b) && same_members(a, b),
        }
    }
}

/// Whether two arrays hold the same: as many items, and the same item at
/// each place.
pub open spec fn same_items(a: Seq<Json>, b: Seq<Json>) -> bool
    decreases a, 1nat,
{
    &&& a.len() == b.len()
    &&& forall|i: int| 0 <= i < a.len() ==> (#[trigger] a[i]).same(b[i])
}

/// Whether two objects hold the same: each key of the one occurs in the
/// other, and the values under it, each at the key's first place, are the
/// same.
pub open spec fn same_members(a: Seq<(Seq<char>, Json)>, b: Seq<(Seq<char>, Json)>) -> bool
    decreases a, 1nat,
{
    &&& forall|i: int|
        0 <= i < a.len() ==> {
            &&& has_key(b, (#[trigger] a[i]).0)
            &&& first_position(a, a[i].0, i) ==> a[i].1.same(b[position_of(b, a[i].0)].1)
        }
    &&& forall|j: int| 0 <= j < b.len() ==> has_key(a, (#[trigger] b[j]).0)
}

/// Every value is the same as itself.
pub proof fn lemma_same_reflexive(j: Json)
    ensures
        j.same(j),
    decreases j,
{
    match j {
        Json::Array(a) => {
            assert forall|i: int| 0 <= i < a.len() implies (#[trigger] a[i]).same(a[i]) by {
                lemma_same_reflexive(a[i]);
            }
        },
        Json::Object(a) => {
            assert forall|i: int| 0 <= i < a.len() implies {
                &&& has_key(a, (#[trigger] a[i]).0)
                &&& first_position(a, a[i].0, i) ==> a[i].1.same(a[position_of(a, a[i].0)].1)
            } by {
                assert(has_key(a, a[i].0));
                lemma_position_of(a, a[i].0);
                lemma_same_reflexive(a[i].1);
            }
        },
        _ => {},
    }
}

/// Whichever of two values is compared with the other, the answer is one.
pub proof fn lemma_same_symmetric(x: Json, y: Json)
    requires
        x.same(y),
    ensures
        y.same(x),
    decreases x,
{
    match (x, y) {
        (Json::Array(a), Json::Array(b)) => {
            assert forall|i: int| 0 <= i < b.len() implies (#[trigger] b[i]).same(a[i]) by {
                assert(a[i].same(b[i]));
                lemma_same_symmetric(a[i], b[i]);
            }
        },
        (Json::Object(a), Json::Object(b)) => {
            assert forall|j: int| 0 <= j < b.len() implies {
                &&& has_key(a, (#[trigger] b[j]).0)
                &&& first_position(b, b[j].0, j) ==> b[j].1.same(a[position_of(a, b[j].0)].1)
            } by {
                let key = b[j].0;
                assert(has_key(a, key));
                if first_position(b, key, j) {
                    lemma_position_of(a, key);
                    let i = position_of(a, key);
                    assert(has_key(b, a[i].0));
                    lemma_position_of(b, key);
                    assert(a[i].1.same(b[j].1));
                    lemma_same_symmetric(a[i].1, b[j].1);
                }
            }
            assert forall|i: int| 0 <= i < a.len() implies has_key(b, (#[trigger] a[i]).0) by {}
        },
        _ => {},
    }
}

impl PartialEq for Value {
    fn eq(&self, other: &Self) -> (r: bool)
        decreases self,
    {
        match (self, other) {
            (Value::Null, Value::Null) => true,
            (Value::Bool(a), Value::Bool(b)) => *a == *b,
            (Value::Number(a), Value::Number(b)) => *a == *b,
            (Value::String(a), Value::String(b)) => *a == *b,
            (Value::Array(a), Value::Array(b)) => {
                proof {
                    lemma_array_view(*a);
                    lemma_array_view(*b);
                }
                if a.len() != b.len() {
                    return false;
                }
                let mut i: usize = 0;
                while i < a.len()
                    invariant
                        self matches Value::Array(v) && v == a,
                        self@ == Json::Array(items_view(a@)),
                        other@ == Json::Array(items_view(b@)),
                        a.len() == b.len(),
                        i <= a.len(),
                        forall|j: int|
                            0 <= j < i ==> (#[trigger] items_view(a@)[j]).same(items_view(b@)[j]),
                    decreases a.len() - i,
                {
                    if !(a[i] == b[i]) {
                        assert(!items_view(a@)[i as int].same(items_view(b@)[i as int]));
                        return false;
                    }
                    i += 1;
                }
                true
            },
            (Value::Object(a), Value::Object(b)) => {
                proof {
                    lemma_object_view(*a);
                    lemma_object_view(*b);
                }
                let ghost ours = members_view(a@);
                let ghost theirs = members_view(b@);
                let mut i: usize = 0;
                while i < a.len()
                    invariant
                        self matches Value::Object(v) && v == a,
                        self@ == Json::Object(ours),
                        other@ == Json::Object(theirs),
                        ours == members_view(a@),
                        theirs == members_view(b@),
                        i <= a.len(),
                        forall|j: int|
                            0 <= j < i ==> {
                                &&& has_key(theirs, (#[trigger] ours[j]).0)
                                &&& first_position(ours, ours[j].0, j) ==> ours[j].1.same(
                                    theirs[position_of(theirs, ours[j].0)].1,
                                )
                            },
                    decreases a.len() - i,
                {
                    let ghost key = ours[i as int].0;
                    let theirs_at = match find_member(b, &a[i].key) {
                        Some(p) => p,
                        None => {
                            assert(!has_key(theirs, ours[i as int].0));
                            return false;
                        },
                    };
                    let first = match find_member(a, &a[i].key) {
                        Some(p) => p == i,
                        None => {
                            assert(ours[i as int].0 == key);
                            false
                        },
                    };
                    proof {
                        lemma_position_of(theirs, key);
                        assert(has_key(ours, key)) by {
                            assert(ours[i as int].0 == key);
                        }
                        lemma_position_of(ours, key);
                        assert(first == first_position(ours, key, i as int));
                    }
                    if first && !(a[i].value == b[theirs_at].value) {
                        assert(!ours[i as int].1.same(theirs[position_of(theirs, key)].1));
                        return false;
                    }
                    i += 1;
                }
                let mut j: usize = 0;
                while j < b.len()
                    invariant
                        other@ == Json::Object(theirs),
                        self@ == Json::Object(ours),
                        ours == members_view(a@),
                        theirs == members_view(b@),
                        j <= b.len(),
                        forall|i: int|
                            0 <= i < ours.len() ==> {
                                &&& has_key(theirs, (#[trigger] ours[i]).0)
                                &&& first_position(ours, ours[i].0, i) ==> ours[i].1.same(
                                    theirs[position_of(theirs, ours[i].0)].1,
                                )
                            },
                        forall|k: int| 0 <= k < j ==> has_key(ours, (#[trigger] theirs[k]).0),
                    decreases b.len() - j,
                {
                    if find_member(a, &b[j].key).is_none() {
                        assert(!has_key(ours, theirs[j as int].0));
                        return false;
                    }
                    j += 1;
                }
                true
            },
            _ => false,
        }
    }
}

impl PartialEqSpecImpl for Value {
    open spec fn obeys_eq_spec() -> bool {
        true
    }

    open spec fn eq_spec(&self, other: &Self) -> bool {
        self@.same(other@)
    }
}

impl Eq for Value {

}

impl PartialEq for Member {
    fn eq(&self, other: &Self) -> (r: bool) {
        self.key == other.key && self.value == other.value
    }
}

impl PartialEqSpecImpl for Member {
    open spec fn obeys_eq_spec() -> bool {
        true
    }

    open spec fn eq_spec(&self, other: &Self) -> bool {
        self.key@ == other.key@ && self.value@.same(other.value@)
    }
}

impl Eq for Member {

}

impl PartialEq for JsonValue {
    fn eq(&self, other: &Self) -> (r: bool) {
        self.0 == other.0
    }
}

impl PartialEqSpecImpl for JsonValue {
    open spec fn obeys_eq_spec() -> bool {
        true
    }

    open spec fn eq_spec(&self, other: &Self) -> bool {
        self@.same(other@)
    }
}

impl Eq for JsonValue {

}

} // verus!
