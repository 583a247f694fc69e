//! Conversion between native values and host values, both ways.

use vstd::prelude::*;
use crate::binary64::{
    float_bits_of_i64, float_bits_of_u64, i32_of_bits, int_float_bits, lemma_i32_is_read_back,
    whole_i32_of_bits,
};
use crate::error::Error;
use crate::native::{
    lemma_native_array_view, lemma_native_object_view, native_items_view, properties_view, Native,
    NativeText, NativeValue, Property,
};
use crate::value::{
    finite_bits, has_key, is_finite_bits, items_view, lemma_array_view, lemma_object_view,
    lemma_with_member_wf, members_view, set_member, unique_keys, with_member, Json, JsonValue, Member,
    Number, Value,
};

verus! {

/// Whether a native value holds only well-formed text wherever conversion
/// reads text: in strings and property keys, through arrays and objects.
pub open spec fn encodable(n: Native) -> bool
    decreases n,
{
    match n {
        Native::String(t) => t.is_some(),
        Native::Array(items) => forall|i: int|
            0 <= i < items.len() ==> encodable(#[trigger] items[i]),
        Native::Object(props) => forall|i: int|
            0 <= i < props.len() ==> (#[trigger] props[i]).0.is_some() && encodable(props[i].1),
        _ => true,
    }
}

/// The text, or the empty text where there is none.
pub open spec fn text_or_empty(t: Option<Seq<char>>) -> Seq<char> {
    match t {
        Some(s) => s,
        None => Seq::empty(),
    }
}

/// The host value of a native value.
///
/// Absence, functions and the kinds that carry no data become null; a float
/// that is an infinity or a NaN becomes null; an integer stays an integer
/// and a finite float a float; arrays convert item by item; an object's
/// properties are set one after another on an empty object.
pub open spec fn host_of(n: Native) -> Json
    decreases n, 0nat,
{
    match n {
        Native::Undefined => Json::Null,
        Native::Null => Json::Null,
        Native::Bool(b) => Json::Bool(b),
        Native::Int(i) => Json::Number(Number::of_int(i as int)),
        Native::Float(bits) => if finite_bits(bits) {
            Json::Number(Number::Float(bits))
        } else {
            Json::Null
        },
        Native::String(t) => match t {
            Some(s) => Json::String(s),
            None => Json::Null,
        },
        Native::Array(items) => Json::Array(host_items_to(items, items.len())),
        Native::Function => Json::Null,
        Native::Object(props) => Json::Object(host_members_to(props, props.len())),
        Native::Opaque => Json::Null,
    }
}

/// The host values of the first `n` items, in order.
pub open spec fn host_items_to(items: Seq<Native>, n: nat) -> Seq<Json>
    decreases items, n,
{
    if n == 0 || n > items.len() {
        Seq::empty()
    } else {
        host_items_to(items, (n - 1) as nat).push(host_of(items[n - 1]))
    }
}

/// The members that result from setting the first `n` properties, in order.
pub open spec fn host_members_to(props: Seq<(Option<Seq<char>>, Native)>, n: nat) -> Seq<
    (Seq<char>, Json),
>
    decreases props, n,
{
    if n == 0 || n > props.len() {
        Seq::empty()
    } else {
        with_member(
            host_members_to(props, (n - 1) as nat),
            text_or_empty(props[n - 1].0),
            host_of(props[n - 1].1),
        )
    }
}

/// The native number that stands for a host number: a whole number within
/// the 32-bit range is held as an integer, whether it comes as an integer
/// or as a float; any other float stays as it is, and any other integer
/// becomes the float nearest to it.
pub open spec fn native_number(n: Number) -> Native {
    match n {
        Number::Float(bits) => match i32_of_bits(bits) {
            Some(i) => Native::Int(i),
            None => Native::Float(bits),
        },
        Number::PosInt(u) => if u <= i32::MAX {
            Native::Int(u as i32)
        } else {
            Native::Float(int_float_bits(u as int) as u64)
        },
        Number::NegInt(i) => if i32::MIN <= i <= i32::MAX {
            Native::Int(i as i32)
        } else {
            Native::Float(int_float_bits(i as int) as u64)
        },
    }
}

/// The native value of a host value.
pub open spec fn native_of(j: Json) -> Native
    decreases j, 0nat,
{
    match j {
        Json::Null => Native::Null,
        Json::Bool(b) => Native::Bool(b),
        Json::Number(n) => native_number(n),
        Json::String(s) => Native::String(Some(s)),
        Json::Array(items) => Native::Array(native_items_to(items, items.len())),
        Json::Object(members) => Native::Object(native_properties_to(members, members.len())),
    }
}

/// The native values of the first `n` items, in order.
pub open spec fn native_items_to(items: Seq<Json>, n: nat) -> Seq<Native>
    decreases items, n,
{
    if n == 0 || n > items.len() {
        Seq::empty()
    } else {
        native_items_to(items, (n - 1) as nat).push(native_of(items[n - 1]))
    }
}

/// The properties that stand for the first `n` members, in order.
pub open spec fn native_properties_to(members: Seq<(Seq<char>, Json)>, n: nat) -> Seq<
    (Option<Seq<char>>, Native),
>
    decreases members, n,
{
    if n == 0 || n > members.len() {
        Seq::empty()
    } else {
        native_properties_to(members, (n - 1) as nat).push(
            (Some(members[n - 1].0), native_of(members[n - 1].1)),
        )
    }
}

/// The first `n` host items are the host values of the first `n` items.
pub proof fn lemma_host_items_to(items: Seq<Native>, n: nat)
    requires
        n <= items.len(),
    ensures
        host_items_to(items, n).len() == n,
        forall|i: int| 0 <= i < n ==> (#[trigger] host_items_to(items, n)[i]) == host_of(items[i]),
    decreases n,
{
    if n > 0 {
        lemma_host_items_to(items, (n - 1) as nat);
    }
}

/// The first `n` native items are the native values of the first `n` items.
pub proof fn lemma_native_items_to(items: Seq<Json>, n: nat)
    requires
        n <= items.len(),
    ensures
        native_items_to(items, n).len() == n,
        forall|i: int|
            0 <= i < n ==> (#[trigger] native_items_to(items, n)[i]) == native_of(items[i]),
    decreases n,
{
    if n > 0 {
        lemma_native_items_to(items, (n - 1) as nat);
    }
}

/// The first `n` native properties stand for the first `n` members.
pub proof fn lemma_native_properties_to(members: Seq<(Seq<char>, Json)>, n: nat)
    requires
        n <= members.len(),
    ensures
        native_properties_to(members, n).len() == n,
        forall|i: int|
            0 <= i < n ==> (#[trigger] native_properties_to(members, n)[i]) == (
                Some(members[i].0),
                native_of(members[i].1),
            ),
    decreases n,
{
    if n > 0 {
        lemma_native_properties_to(members, (n - 1) as nat);
    }
}

/// Converts a native value to a host value.
///
/// Fails with [`Error::EncodingError`] exactly when the value is not
/// [`encodable`]; otherwise the result is the value's [`host_of`].
pub fn to_host(native: &NativeValue) -> (r: Result<Value, Error>)
    ensures
        encodable(native@) ==> (r matches Ok(v) && v@ == host_of(native@)),
        !encodable(native@) ==> (r matches Err(e) && e is EncodingError),
    decreases native,
{
    match native {
        NativeValue::Undefined => Ok(Value::Null),
        NativeValue::Null => Ok(Value::Null),
        NativeValue::Bool(b) => Ok(Value::Bool(*b)),
        NativeValue::String(t) => match t {
            NativeText::Valid(s) => Ok(Value::String(s.clone())),
            NativeText::Malformed => Err(Error::EncodingError),
        },
        NativeValue::Int(i) => Ok(Value::Number(Number::from_i64(*i as i64))),
        NativeValue::Float(bits) => if is_finite_bits(*bits) {
            Ok(Value::Number(Number::Float(*bits)))
        } else {
            Ok(Value::Null)
        },
        NativeValue::Array(items) => {
            proof {
                lemma_native_array_view(*items);
            }
            let mut out: Vec<Value> = Vec::new();
            let mut i: usize = 0;
            while i < items.len()
                invariant
                    native matches NativeValue::Array(v) && v == items,
                    native@ == Native::Array(native_items_view(items@)),
                    i <= items.len(),
                    out.len() == i,
                    forall|j: int|
                        0 <= j < i ==> encodable(#[trigger] native_items_view(items@)[j]),
                    forall|j: int| 0 <= j < i ==> (#[trigger] out[j])@ == host_of(items[j]@),
                decreases items.len() - i,
            {
                match to_host(&items[i]) {
                    Ok(v) => {
                        out.push(v);
                    },
                    Err(e) => {
                        assert(!encodable(native_items_view(items@)[i as int]));
                        return Err(e);
                    },
                }
                i += 1;
            }
            proof {
                let natives = native_items_view(items@);
                lemma_array_view(out);
                lemma_host_items_to(natives, natives.len());
                assert(items_view(out@) =~= host_items_to(natives, natives.len()));
            }
            Ok(Value::Array(out))
        },
        NativeValue::Function => Ok(Value::Null),
        NativeValue::Object(props) => {
            proof {
                lemma_native_object_view(*props);
            }
            let mut members: Vec<Member> = Vec::new();
            let mut i: usize = 0;
            assert(members_view(members@) =~= host_members_to(properties_view(props@), 0));
            while i < props.len()
                invariant
                    native matches NativeValue::Object(v) && v == props,
                    native@ == Native::Object(properties_view(props@)),
                    i <= props.len(),
                    forall|j: int|
                        0 <= j < i ==> (#[trigger] properties_view(props@)[j]).0.is_some()
                            && encodable(properties_view(props@)[j].1),
                    members_view(members@) == host_members_to(properties_view(props@), i as nat),
                decreases props.len() - i,
            {
                let key = match &props[i].key {
                    NativeText::Valid(s) => s.clone(),
                    NativeText::Malformed => {
                        assert(properties_view(props@)[i as int].0.is_none());
                        return Err(Error::EncodingError);
                    },
                };
                let value = match to_host(&props[i].value) {
                    Ok(v) => v,
                    Err(e) => {
                        assert(!encodable(properties_view(props@)[i as int].1));
                        return Err(e);
                    },
                };
                set_member(&mut members, key, value);
                i += 1;
            }
            proof {
                lemma_object_view(members);
            }
            Ok(Value::Object(members))
        },
        NativeValue::Opaque => Ok(Value::Null),
    }
}

/// Converts a host value to a native value: the result is the value's [`native_of`].
pub fn to_native(value: &Value) -> (r: NativeValue)
    ensures
        r@ == native_of(value@),
    decreases value,
{
    match value {
        Value::Null => NativeValue::Null,
        Value::Bool(b) => NativeValue::Bool(*b),
        Value::Number(n) => match n {
            Number::Float(bits) => match whole_i32_of_bits(*bits) {
                Some(i) => NativeValue::Int(i),
                None => NativeValue::Float(*bits),
            },
            Number::PosInt(u) => if *u <= 0x7fff_ffff {
                NativeValue::Int(*u as i32)
            } else {
                NativeValue::Float(float_bits_of_u64(*u))
            },
            Number::NegInt(i) => if -0x8000_0000 <= *i && *i <= 0x7fff_ffff {
                NativeValue::Int(*i as i32)
            } else {
                NativeValue::Float(float_bits_of_i64(*i))
            },
        },
        Value::String(s) => NativeValue::String(NativeText::Valid(s.clone())),
        Value::Array(items) => {
            proof {
                lemma_array_view(*items);
            }
            let mut out: Vec<NativeValue> = Vec::new();
            let mut i: usize = 0;
            while i < items.len()
                invariant
                    value matches Value::Array(v) && v == items,
                    i <= items.len(),
                    out.len() == i,
                    forall|j: int| 0 <= j < i ==> (#[trigger] out[j])@ == native_of(items[j]@),
                decreases items.len() - i,
            {
                out.push(to_native(&items[i]));
                i += 1;
            }
            proof {
                let hosts = items_view(items@);
                lemma_native_array_view(out);
                lemma_native_items_to(hosts, hosts.len());
                assert(native_items_view(out@) =~= native_items_to(hosts, hosts.len()));
            }
            NativeValue::Array(out)
        },
        Value::Object(members) => {
            proof {
                lemma_object_view(*members);
            }
            let mut out: Vec<Property> = Vec::new();
            let mut i: usize = 0;
            while i < members.len()
                invariant
                    value matches Value::Object(v) && v == members,
                    i <= members.len(),
                    out.len() == i,
                    forall|j: int|
                        0 <= j < i ==> (#[trigger] out[j])@ == (
                            Some(members[j].key@),
                            native_of(members[j].value@),
                        ),
                decreases members.len() - i,
            {
                let key = NativeText::Valid(members[i].key.clone());
                let value = to_native(&members[i].value);
                out.push(Property { key, value });
                i += 1;
            }
            proof {
                let hosts = members_view(members@);
                lemma_native_object_view(out);
                lemma_native_properties_to(hosts, hosts.len());
                assert(properties_view(out@) =~= native_properties_to(hosts, hosts.len()));
            }
            NativeValue::Object(out)
        },
    }
}

impl JsonValue {
    /// Takes a native value over to the host side.
    ///
    /// Fails with [`Error::EncodingError`] exactly when the value is not
    /// [`encodable`]; otherwise the result is well formed and is the value's
    /// [`host_of`]. In particular a function becomes null, as a whole value
    /// and under a key.
    pub fn from_js(val: NativeValue) -> (r: Result<JsonValue, Error>)
        ensures
            encodable(val@) ==> (r matches Ok(v) && v@ == host_of(val@) && v@.wf()),
            !encodable(val@) ==> (r matches Err(e) && e is EncodingError),
    {
        proof {
            lemma_host_wf(val@);
        }
        match to_host(&val) {
            Ok(v) => Ok(JsonValue(v)),
            Err(e) => Err(e),
        }
    }

    /// Hands the value to the interpreter's side: the result is the value's
    /// [`native_of`], and converts back without failure.
    pub fn into_js(self) -> (r: NativeValue)
        ensures
            r@ == native_of(self@),
            encodable(r@),
    {
        proof {
            lemma_native_encodable(self@);
        }
        to_native(&self.0)
    }
}

/// Whether every number in a host value keeps its kind on the native side:
/// every integer fits the interpreter's 32-bit integers, and no float is a
/// whole number that fits them.
pub open spec fn representable(j: Json) -> bool
    decreases j,
{
    match j {
        Json::Number(n) => match n {
            Number::PosInt(u) => u <= i32::MAX,
            Number::NegInt(i) => i32::MIN <= i,
            Number::Float(bits) => i32_of_bits(bits).is_none(),
        },
        Json::Array(items) => forall|i: int|
            0 <= i < items.len() ==> representable(#[trigger] items[i]),
        Json::Object(members) => forall|i: int|
            0 <= i < members.len() ==> representable((#[trigger] members[i]).1),
        _ => true,
    }
}

/// A whole number within the 32-bit range has one native value, a native
/// integer, whether the host holds it as an integer or as a float.
pub proof fn lemma_whole_number_is_native_integer(v: int)
    requires
        i32::MIN <= v <= i32::MAX,
    ensures
        native_number(Number::of_int(v)) == Native::Int(v as i32),
        native_number(Number::Float(int_float_bits(v) as u64)) == Native::Int(v as i32),
{
    lemma_i32_is_read_back(v);
}

/// The host value of any native value is well formed: its numbers are well
/// formed and no object in it holds a key twice.
pub proof fn lemma_host_wf(n: Native)
    ensures
        host_of(n).wf(),
    decreases n,
{
    match n {
        Native::Array(items) => {
            let hosts = host_items_to(items, items.len());
            lemma_host_items_to(items, items.len());
            assert forall|i: int| 0 <= i < hosts.len() implies (#[trigger] hosts[i]).wf() by {
                lemma_host_wf(items[i]);
            }
        },
        Native::Object(props) => {
            assert forall|i: int| 0 <= i < props.len() implies host_of(
                (#[trigger] props[i]).1,
            ).wf() by {
                lemma_host_wf(props[i].1);
            }
            lemma_host_members_wf(props, props.len());
        },
        _ => {},
    }
}

proof fn lemma_host_members_wf(props: Seq<(Option<Seq<char>>, Native)>, n: nat)
    requires
        n <= props.len(),
        forall|i: int| 0 <= i < props.len() ==> host_of((#[trigger] props[i]).1).wf(),
    ensures
        unique_keys(host_members_to(props, n)),
        forall|i: int|
            0 <= i < host_members_to(props, n).len() ==> (#[trigger] host_members_to(
                props,
                n,
            )[i]).1.wf(),
    decreases n,
{
    if n > 0 {
        lemma_host_members_wf(props, (n - 1) as nat);
        let before = host_members_to(props, (n - 1) as nat);
        let key = text_or_empty(props[n - 1].0);
        let value = host_of(props[n - 1].1);
        assert(Json::Object(before).wf());
        lemma_with_member_wf(before, key, value);
        assert(Json::Object(with_member(before, key, value)).wf());
    }
}

/// The native value of any host value converts back without failure.
pub proof fn lemma_native_encodable(j: Json)
    ensures
        encodable(native_of(j)),
    decreases j,
{
    match j {
        Json::Array(items) => {
            let natives = native_items_to(items, items.len());
            lemma_native_items_to(items, items.len());
            assert forall|i: int| 0 <= i < natives.len() implies encodable(
                #[trigger] natives[i],
            ) by {
                lemma_native_encodable(items[i]);
            }
        },
        Json::Object(members) => {
            let props = native_properties_to(members, members.len());
            lemma_native_properties_to(members, members.len());
            assert forall|i: int| 0 <= i < props.len() implies (#[trigger] props[i]).0.is_some()
                && encodable(props[i].1) by {
                lemma_native_encodable(members[i].1);
            }
        },
        _ => {},
    }
}

/// What comes back when each member's value goes to the native side and
/// back, with the keys as they are.
pub open spec fn members_there_and_back(members: Seq<(Seq<char>, Json)>) -> Seq<(Seq<char>, Json)> {
    Seq::new(members.len(), |i: int| (members[i].0, host_of(native_of(members[i].1))))
}

/// An object without a repeated key comes back with its members in their
/// places, each value having gone to the native side and back.
proof fn lemma_members_there_and_back(members: Seq<(Seq<char>, Json)>, n: nat)
    requires
        n <= members.len(),
        unique_keys(members),
    ensures
        host_members_to(native_properties_to(members, members.len()), n)
            == members_there_and_back(members).take(n as int),
    decreases n,
{
    let props = native_properties_to(members, members.len());
    let back = members_there_and_back(members);
    lemma_native_properties_to(members, members.len());
    if n > 0 {
        lemma_members_there_and_back(members, (n - 1) as nat);
        let before = back.take(n - 1);
        let key = members[n - 1].0;
        assert(!has_key(before, key)) by {
            if has_key(before, key) {
                let i = choose|i: int| 0 <= i < before.len() && (#[trigger] before[i]).0 == key;
                assert(members[i].0 == members[n - 1].0);
            }
        }
        assert(props[n - 1] == (Some(key), native_of(members[n - 1].1)));
        assert(before.push(back[n - 1]) =~= back.take(n as int));
    } else {
        assert(host_members_to(props, n) =~= back.take(n as int));
    }
}

/// Round trip: a host value comes back unchanged from the native side
/// exactly when it is well formed and its numbers all keep their kind
/// there.
pub proof fn lemma_round_trip(j: Json)
    ensures
        encodable(native_of(j)),
        host_of(native_of(j)) == j <==> j.wf() && representable(j),
    decreases j,
{
    lemma_native_encodable(j);
    lemma_host_wf(native_of(j));
    if j.wf() {
        match j {
            Json::Array(items) => {
                let natives = native_items_to(items, items.len());
                lemma_native_items_to(items, items.len());
                lemma_host_items_to(natives, natives.len());
                let back = host_items_to(natives, natives.len());
                assert forall|i: int| 0 <= i < items.len() implies (back[i] == items[i]
                    <==> representable(#[trigger] items[i])) by {
                    lemma_round_trip(items[i]);
                }
                assert(host_of(native_of(j)) == Json::Array(back));
                if representable(j) {
                    assert(back =~= items);
                } else {
                    let i = choose|i: int| 0 <= i < items.len() && !representable(#[trigger] items[i]);
                    assert(back[i] != items[i]);
                }
            },
            Json::Object(members) => {
                lemma_native_properties_to(members, members.len());
                lemma_members_there_and_back(members, members.len());
                let back = members_there_and_back(members);
                assert(back.take(members.len() as int) =~= back);
                assert forall|i: int| 0 <= i < members.len() implies (back[i] == members[i]
                    <==> representable((#[trigger] members[i]).1)) by {
                    lemma_round_trip(members[i].1);
                }
                assert(host_of(native_of(j)) == Json::Object(back));
                if representable(j) {
                    assert(back =~= members);
                } else {
                    let i = choose|i: int|
                        0 <= i < members.len() && !representable((#[trigger] members[i]).1);
                    assert(back[i] != members[i]);
                }
            },
            _ => {},
        }
    }
}

} // verus!
