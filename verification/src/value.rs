//! The host-neutral structured value that crosses the sandbox boundary.
//!
//! A value is held as an executable tree ([`Value`]) and spoken of in
//! contracts through its mathematical view ([`Json`]): text as `Seq<char>`,
//! arrays and objects as `Seq`.

use vstd::prelude::*;
use crate::util::reverse;

verus! {

/// A number, with the integer or floating-point representation it arrived in.
///
/// A floating-point number is held by its IEEE 754 binary64 bit pattern.
#[derive(Clone, Copy, Debug, PartialEq, Eq, Structural)]
pub enum Number {
    /// A non-negative integer.
    PosInt(u64),
    /// A negative integer.
    NegInt(i64),
    /// A finite floating-point number, by its binary64 bit pattern.
    Float(u64),
}

/// Whether a binary64 bit pattern encodes a finite number: its exponent
/// field is not all ones.
pub open spec fn finite_bits(bits: u64) -> bool {
    (bits >> 52) & 0x7ff != 0x7ff
}

/// Tests whether a binary64 bit pattern encodes a finite number.
pub fn is_finite_bits(bits: u64) -> (r: bool)
    ensures
        r == finite_bits(bits),
{
    (bits >> 52) & 0x7ff != 0x7ff
}

impl Number {
    /// A number is well formed when a `NegInt` is negative and a `Float` is finite.
    pub open spec fn wf(self) -> bool {
        match self {
            Number::PosInt(_) => true,
            Number::NegInt(i) => i < 0,
            Number::Float(bits) => finite_bits(bits),
        }
    }

    /// The integer a number stands for, if it is held as an integer.
    pub open spec fn as_int(self) -> Option<int> {
        match self {
            Number::PosInt(u) => Some(u as int),
            Number::NegInt(i) => Some(i as int),
            Number::Float(_) => None,
        }
    }

    /// The number that holds a signed integer: `PosInt` from zero up, `NegInt` below.
    pub open spec fn of_int(i: int) -> Number
        recommends
            i64::MIN <= i <= u64::MAX,
    {
        if i >= 0 {
            Number::PosInt(i as u64)
        } else {
            Number::NegInt(i as i64)
        }
    }

    /// Holds a signed 64-bit integer.
    pub fn from_i64(i: i64) -> (n: Number)
        ensures
            n == Number::of_int(i as int),
            n.wf(),
            n.as_int() == Some(i as int),
    {
        if i >= 0 {
            Number::PosInt(i as u64)
        } else {
            Number::NegInt(i)
        }
    }

    /// Holds an unsigned 64-bit integer.
    pub fn from_u64(u: u64) -> (n: Number)
        ensures
            n == Number::PosInt(u),
            n.wf(),
    {
        Number::PosInt(u)
    }

    /// Holds a floating-point number given by its bit pattern; `None` when
    /// the pattern is an infinity or a NaN, which no number holds.
    pub fn from_float_bits(bits: u64) -> (n: Option<Number>)
        ensures
            finite_bits(bits) ==> n == Some(Number::Float(bits)),
            !finite_bits(bits) ==> n.is_none(),
            n matches Some(x) ==> x.wf(),
    {
        if is_finite_bits(bits) {
            Some(Number::Float(bits))
        } else {
            None
        }
    }

    /// Whether the number is held as a floating-point number.
    pub fn is_float(&self) -> (r: bool)
        ensures
            r == (*self is Float),
    {
        match self {
            Number::Float(_) => true,
            _ => false,
        }
    }
}

/// The mathematical view of a [`Value`].
pub enum Json {
    Null,
    Bool(bool),
    Number(Number),
    String(Seq<char>),
    Array(Seq<Json>),
    Object(Seq<(Seq<char>, Json)>),
}

/// One member of an object: a key and the value under it.
#[derive(Debug)]
pub struct Member {
    pub key: String,
    pub value: Value,
}

/// A structured value: null, a boolean, a number, text, an ordered array, or
/// an object whose members keep the order in which their keys were first set.
#[derive(Debug)]
pub enum Value {
    Null,
    Bool(bool),
    Number(Number),
    String(String),
    Array(Vec<Value>),
    Object(Vec<Member>),
}

impl View for Member {
    type V = (Seq<char>, Json);

    open spec fn view(&self) -> (Seq<char>, Json) {
        (self.key@, self.value@)
    }
}

impl View for Value {
    type V = Json;

    open spec fn view(&self) -> Json
        decreases self, 0nat,
    {
        match self {
            Value::Null => Json::Null,
            Value::Bool(b) => Json::Bool(*b),
            Value::Number(n) => Json::Number(*n),
            Value::String(s) => Json::String(s@),
            Value::Array(items) => Json::Array(items_view_to(*items, items.len() as nat)),
            Value::Object(members) => Json::Object(members_view_to(*members, members.len() as nat)),
        }
    }
}

/// The views of the first `n` items, in order.
pub open spec fn items_view_to(items: Vec<Value>, n: nat) -> Seq<Json>
    decreases items, n,
{
    if n == 0 || n > items.len() {
        Seq::empty()
    } else {
        items_view_to(items, (n - 1) as nat).push(items[n - 1]@)
    }
}

/// The views of the first `n` members, in order.
pub open spec fn members_view_to(members: Vec<Member>, n: nat) -> Seq<(Seq<char>, Json)>
    decreases members, n,
{
    if n == 0 || n > members.len() {
        Seq::empty()
    } else {
        members_view_to(members, (n - 1) as nat).push(
            (members[n - 1].key@, members[n - 1].value@),
        )
    }
}

/// The views of a sequence of values, in order.
pub open spec fn items_view(items: Seq<Value>) -> Seq<Json> {
    Seq::new(items.len(), |i: int| items[i]@)
}

/// The views of a sequence of members, in order.
pub open spec fn members_view(members: Seq<Member>) -> Seq<(Seq<char>, Json)> {
    Seq::new(members.len(), |i: int| members[i]@)
}

proof fn lemma_items_view_to(items: Vec<Value>, n: nat)
    requires
        n <= items.len(),
    ensures
        items_view_to(items, n) == items_view(items@.take(n as int)),
    decreases n,
{
    if n > 0 {
        lemma_items_view_to(items, (n - 1) as nat);
        let prev = items_view(items@.take(n - 1));
        let cur = items_view(items@.take(n as int));
        assert forall|i: int| 0 <= i < n implies cur[i] == prev.push(items[n - 1]@)[i] by {
            if i < n - 1 {
                assert(items@.take(n - 1)[i] == items@.take(n as int)[i]);
            }
        }
        assert(cur =~= prev.push(items[n - 1]@));
    } else {
        assert(items_view_to(items, n) =~= items_view(items@.take(n as int)));
    }
}

proof fn lemma_members_view_to(members: Vec<Member>, n: nat)
    requires
        n <= members.len(),
    ensures
        members_view_to(members, n) == members_view(members@.take(n as int)),
    decreases n,
{
    if n > 0 {
        lemma_members_view_to(members, (n - 1) as nat);
        let prev = members_view(members@.take(n - 1));
        let cur = members_view(members@.take(n as int));
        assert forall|i: int| 0 <= i < n implies cur[i] == prev.push(members[n - 1]@)[i] by {
            if i < n - 1 {
                assert(members@.take(n - 1)[i] == members@.take(n as int)[i]);
            }
        }
        assert(cur =~= prev.push(members[n - 1]@));
    } else {
        assert(members_view_to(members, n) =~= members_view(members@.take(n as int)));
    }
}

/// The view of an array is the sequence of its items' views.
pub proof fn lemma_array_view(items: Vec<Value>)
    ensures
        Value::Array(items)@ == Json::Array(items_view(items@)),
{
    lemma_items_view_to(items, items.len() as nat);
    assert(items@.take(items.len() as int) =~= items@);
}

/// The view of an object is the sequence of its members' views.
pub proof fn lemma_object_view(members: Vec<Member>)
    ensures
        Value::Object(members)@ == Json::Object(members_view(members@)),
{
    lemma_members_view_to(members, members.len() as nat);
    assert(members@.take(members.len() as int) =~= members@);
}

/// Whether a key occurs among the members.
pub open spec fn has_key(members: Seq<(Seq<char>, Json)>, key: Seq<char>) -> bool {
    exists|i: int| 0 <= i < members.len() && (#[trigger] members[i]).0 == key
}

/// Whether `p` is the first position at which `key` occurs among the members.
pub open spec fn first_position(members: Seq<(Seq<char>, Json)>, key: Seq<char>, p: int) -> bool {
    &&& 0 <= p < members.len()
    &&& members[p].0 == key
    &&& forall|i: int| 0 <= i < p ==> (#[trigger] members[i]).0 != key
}

/// The first position at which `key` occurs among the members.
pub open spec fn position_of(members: Seq<(Seq<char>, Json)>, key: Seq<char>) -> int {
    choose|p: int| first_position(members, key, p)
}

/// No key occurs twice among the members.
pub open spec fn unique_keys(members: Seq<(Seq<char>, Json)>) -> bool {
    forall|i: int, j: int|
        0 <= i < j < members.len() ==> (#[trigger] members[i]).0 != (#[trigger] members[j]).0
}

/// The members after `key` is set to `value`: the value under an existing
/// key is replaced where it stands, a new key is added at the end.
pub open spec fn with_member(
    members: Seq<(Seq<char>, Json)>,
    key: Seq<char>,
    value: Json,
) -> Seq<(Seq<char>, Json)> {
    if has_key(members, key) {
        members.update(position_of(members, key), (key, value))
    } else {
        members.push((key, value))
    }
}

/// The value under `key`, if the key occurs.
pub open spec fn member_value(members: Seq<(Seq<char>, Json)>, key: Seq<char>) -> Option<Json> {
    if has_key(members, key) {
        Some(members[position_of(members, key)].1)
    } else {
        None
    }
}

impl Json {
    /// A value is well formed when every number in it is well formed and no
    /// object in it holds a key twice.
    pub open spec fn wf(self) -> bool
        decreases self,
    {
        match self {
            Json::Number(n) => n.wf(),
            Json::Array(items) => forall|i: int| 0 <= i < items.len() ==> (#[trigger] items[i]).wf(),
            Json::Object(members) => {
                &&& unique_keys(members)
                &&& forall|i: int| 0 <= i < members.len() ==> (#[trigger] members[i]).1.wf()
            },
            _ => true,
        }
    }
}

/// A key that occurs has exactly one first position.
pub proof fn lemma_position_of(members: Seq<(Seq<char>, Json)>, key: Seq<char>)
    requires
        has_key(members, key),
    ensures
        first_position(members, key, position_of(members, key)),
        forall|p: int| first_position(members, key, p) ==> p == position_of(members, key),
    decreases members.len(),
{
    let w = choose|i: int| 0 <= i < members.len() && (#[trigger] members[i]).0 == key;
    lemma_first_below(members, key, w);
    let q = position_of(members, key);
    assert forall|p: int| first_position(members, key, p) implies p == q by {
        if p < q {
            assert(members[p].0 == key);
        } else if q < p {
            assert(members[q].0 == key);
        }
    }
}

/// Below any occurrence of a key there is a first one.
proof fn lemma_first_below(members: Seq<(Seq<char>, Json)>, key: Seq<char>, w: int)
    requires
        0 <= w < members.len(),
        members[w].0 == key,
    ensures
        exists|p: int| first_position(members, key, p),
    decreases w,
{
    if exists|i: int| 0 <= i < w && (#[trigger] members[i]).0 == key {
        let i = choose|i: int| 0 <= i < w && (#[trigger] members[i]).0 == key;
        lemma_first_below(members, key, i);
    } else {
        assert(first_position(members, key, w));
    }
}

/// Setting a member keeps the keys unique, and the value is then found under the key.
pub proof fn lemma_with_member(members: Seq<(Seq<char>, Json)>, key: Seq<char>, value: Json)
    requires
        unique_keys(members),
    ensures
        unique_keys(with_member(members, key, value)),
        has_key(with_member(members, key, value), key),
        member_value(with_member(members, key, value), key) == Some(value),
        has_key(members, key) ==> with_member(members, key, value).len() == members.len(),
        !has_key(members, key) ==> with_member(members, key, value).len() == members.len() + 1,
{
    let after = with_member(members, key, value);
    if has_key(members, key) {
        lemma_position_of(members, key);
        let p = position_of(members, key);
        assert(after[p].0 == key);
        assert forall|i: int, j: int| 0 <= i < j < after.len() implies (#[trigger] after[i]).0 != (
        #[trigger] after[j]).0 by {
            assert(members[i].0 != members[j].0);
        }
        assert(first_position(after, key, p)) by {
            assert forall|i: int| 0 <= i < p implies (#[trigger] after[i]).0 != key by {
                assert(members[i].0 != key);
            }
        }
        lemma_position_of(after, key);
    } else {
        let p = members.len() as int;
        assert(after[p].0 == key);
        assert forall|i: int, j: int| 0 <= i < j < after.len() implies (#[trigger] after[i]).0 != (
        #[trigger] after[j]).0 by {
            if j < p {
                assert(members[i].0 != members[j].0);
            } else {
                assert(members[i].0 != key);
            }
        }
        assert(first_position(after, key, p)) by {
            assert forall|i: int| 0 <= i < p implies (#[trigger] after[i]).0 != key by {
                assert(members[i].0 != key);
            }
        }
        lemma_position_of(after, key);
    }
}

/// Setting a member to a well-formed value keeps an object well formed.
pub proof fn lemma_with_member_wf(members: Seq<(Seq<char>, Json)>, key: Seq<char>, value: Json)
    requires
        Json::Object(members).wf(),
        value.wf(),
    ensures
        Json::Object(with_member(members, key, value)).wf(),
{
    lemma_with_member(members, key, value);
    if has_key(members, key) {
        lemma_position_of(members, key);
    }
    let after = with_member(members, key, value);
    assert forall|i: int| 0 <= i < after.len() implies (#[trigger] after[i]).1.wf() by {
        if after[i] != (key, value) {
            assert(after[i] == members[i]);
        }
    }
}

/// The members given by pairs with well-formed values form a well-formed object.
pub proof fn lemma_members_of_pairs_wf(pairs: Seq<(Seq<char>, Json)>)
    requires
        forall|i: int| 0 <= i < pairs.len() ==> (#[trigger] pairs[i]).1.wf(),
    ensures
        Json::Object(members_of_pairs(pairs)).wf(),
    decreases pairs.len(),
{
    if pairs.len() > 0 {
        let front = pairs.drop_last();
        assert forall|i: int| 0 <= i < front.len() implies (#[trigger] front[i]).1.wf() by {
            assert(front[i] == pairs[i]);
        }
        lemma_members_of_pairs_wf(front);
        lemma_with_member_wf(members_of_pairs(front), pairs.last().0, pairs.last().1);
    }
}

impl Clone for Value {
    /// Copies the value: the copy has the same view.
    fn clone(&self) -> (r: Self)
        ensures
            r@ == self@,
        decreases self,
    {
        match self {
            Value::Null => Value::Null,
            Value::Bool(b) => Value::Bool(*b),
            Value::Number(n) => Value::Number(*n),
            Value::String(s) => Value::String(s.clone()),
            Value::Array(items) => {
                let mut out: Vec<Value> = Vec::new();
                let mut i: usize = 0;
                while i < items.len()
                    invariant
                        self matches Value::Array(v) && v == items,
                        i <= items.len(),
                        out.len() == i,
                        forall|j: int| 0 <= j < i ==> (#[trigger] out[j])@ == items[j]@,
                    decreases items.len() - i,
                {
                    out.push(items[i].clone());
                    i += 1;
                }
                proof {
                    lemma_array_view(*items);
                    lemma_array_view(out);
                    assert(items_view(out@) =~= items_view(items@));
                }
                Value::Array(out)
            },
            Value::Object(members) => {
                let mut out: Vec<Member> = Vec::new();
                let mut i: usize = 0;
                while i < members.len()
                    invariant
                        self matches Value::Object(v) && v == members,
                        i <= members.len(),
                        out.len() == i,
                        forall|j: int| 0 <= j < i ==> (#[trigger] out[j])@ == members[j]@,
                    decreases members.len() - i,
                {
                    let key = members[i].key.clone();
                    let value = members[i].value.clone();
                    out.push(Member { key, value });
                    i += 1;
                }
                proof {
                    lemma_object_view(*members);
                    lemma_object_view(out);
                    assert(members_view(out@) =~= members_view(members@));
                }
                Value::Object(out)
            },
        }
    }
}

impl Clone for Member {
    /// Copies the member: the copy has the same view.
    fn clone(&self) -> (r: Self)
        ensures
            r@ == self@,
    {
        Member { key: self.key.clone(), value: self.value.clone() }
    }
}

impl Clone for JsonValue {
    /// Copies the value: the copy has the same view.
    fn clone(&self) -> (r: Self)
        ensures
            r@ == self@,
    {
        JsonValue(self.0.clone())
    }
}

/// Finds the position of the member under `key`, if the key occurs.
pub fn find_member(members: &Vec<Member>, key: &String) -> (r: Option<usize>)
    ensures
        r.is_some() == has_key(members_view(members@), key@),
        r matches Some(p) ==> first_position(members_view(members@), key@, p as int),
{
    let mut i: usize = 0;
    while i < members.len()
        invariant
            i <= members.len(),
            forall|j: int| 0 <= j < i ==> (#[trigger] members_view(members@)[j]).0 != key@,
        decreases members.len() - i,
    {
        if members[i].key == *key {
            assert(members_view(members@)[i as int].0 == key@);
            return Some(i);
        }
        i += 1;
    }
    None
}

/// Sets the member under `key` to `value`: an existing key keeps its place
/// and gets the new value, a new key goes to the end.
pub fn set_member(members: &mut Vec<Member>, key: String, value: Value)
    ensures
        members_view(final(members)@) == with_member(members_view(old(members)@), key@, value@),
        Json::Object(members_view(old(members)@)).wf() && value@.wf() ==> Json::Object(
            members_view(final(members)@),
        ).wf(),
{
    let ghost before = members_view(members@);
    proof {
        if Json::Object(before).wf() && value@.wf() {
            lemma_with_member_wf(before, key@, value@);
        }
    }
    match find_member(members, &key) {
        Some(p) => {
            proof {
                lemma_position_of(before, key@);
            }
            members.set(p, Member { key, value });
            assert(members_view(members@) =~= before.update(p as int, (key@, value@)));
        },
        None => {
            members.push(Member { key, value });
            assert(members_view(members@) =~= before.push((key@, value@)));
        },
    }
}

/// A structured value as handlers and scripts exchange it.
#[derive(Debug)]
pub struct JsonValue(pub Value);

impl View for JsonValue {
    type V = Json;

    open spec fn view(&self) -> Json {
        self.0@
    }
}

/// The views of a sequence of exchanged values, in order.
pub open spec fn json_values_view(items: Seq<JsonValue>) -> Seq<Json> {
    Seq::new(items.len(), |i: int| items[i]@)
}

/// The members given by a sequence of key and value pairs, set one after
/// another from the first pair to the last.
pub open spec fn members_of_pairs(pairs: Seq<(Seq<char>, Json)>) -> Seq<(Seq<char>, Json)>
    decreases pairs.len(),
{
    if pairs.len() == 0 {
        Seq::empty()
    } else {
        with_member(members_of_pairs(pairs.drop_last()), pairs.last().0, pairs.last().1)
    }
}

/// The views of a sequence of key and value pairs, in order.
pub open spec fn pairs_view(pairs: Seq<(String, JsonValue)>) -> Seq<(Seq<char>, Json)> {
    Seq::new(pairs.len(), |i: int| (pairs[i].0@, pairs[i].1@))
}

impl JsonValue {
    /// The null value.
    pub fn null() -> (v: Self)
        ensures
            v@ == Json::Null,
            v@.wf(),
    {
        JsonValue(Value::Null)
    }

    /// The array of the given values, in their order.
    pub fn array(arr: Vec<JsonValue>) -> (v: Self)
        ensures
            v@ == Json::Array(json_values_view(arr@)),
            (forall|i: int| 0 <= i < arr.len() ==> (#[trigger] arr[i])@.wf()) ==> v@.wf(),
    {
        let ghost given = arr@;
        let mut arr = arr;
        let mut items: Vec<Value> = Vec::new();
        while arr.len() > 0
            invariant
                arr.len() <= given.len(),
                arr@ == given.take(arr.len() as int),
                items.len() == given.len() - arr.len(),
                forall|j: int|
                    0 <= j < items.len() ==> (#[trigger] items[j])@ == given[given.len() - 1 - j]@,
            decreases arr.len(),
        {
            let ghost n = arr.len() as int;
            let last = arr.pop().unwrap();
            assert(last == given[n - 1]);
            assert(arr@ =~= given.take(n - 1));
            items.push(last.0);
        }
        reverse(&mut items);
        proof {
            lemma_array_view(items);
            assert(items_view(items@) =~= json_values_view(given));
        }
        JsonValue(Value::Array(items))
    }

    /// The object that results from setting the given pairs one after
    /// another on an empty object: a key given twice keeps its first place
    /// and its last value.
    pub fn object(obj: Vec<(String, JsonValue)>) -> (v: Self)
        ensures
            v@ == Json::Object(members_of_pairs(pairs_view(obj@))),
            (forall|i: int| 0 <= i < obj.len() ==> (#[trigger] obj[i]).1@.wf()) ==> v@.wf(),
    {
        proof {
            if forall|i: int| 0 <= i < obj.len() ==> (#[trigger] obj[i]).1@.wf() {
                let pairs = pairs_view(obj@);
                assert forall|i: int| 0 <= i < pairs.len() implies (#[trigger] pairs[i]).1.wf() by {
                    assert(obj[i].1@.wf());
                }
                lemma_members_of_pairs_wf(pairs);
            }
        }
        let ghost given = obj@;
        let mut rest = obj;
        reverse(&mut rest);
        let ghost reversed = rest@;
        let mut members: Vec<Member> = Vec::new();
        assert(members_view(members@) =~= members_of_pairs(pairs_view(given.take(0))));
        while rest.len() > 0
            invariant
                reversed.len() == given.len(),
                forall|j: int| 0 <= j < given.len() ==> reversed[j] == given[given.len() - 1 - j],
                rest.len() <= given.len(),
                rest@ == reversed.take(rest.len() as int),
                members_view(members@) == members_of_pairs(
                    pairs_view(given.take(given.len() - rest.len())),
                ),
            decreases rest.len(),
        {
            let ghost n = rest.len() as int;
            let ghost done = given.len() - n;
            let (key, value) = rest.pop().unwrap();
            assert(rest@ =~= reversed.take(n - 1));
            assert((key, value) == given[done]);
            proof {
                let upto = pairs_view(given.take(done + 1));
                assert(upto.drop_last() =~= pairs_view(given.take(done)));
                assert(upto.last() == (key@, value@));
            }
            set_member(&mut members, key, value.0);
        }
        proof {
            lemma_object_view(members);
            assert(given.take(given.len() as int) =~= given);
        }
        JsonValue(Value::Object(members))
    }

    /// The empty object, which stands where no value is given.
    pub fn empty_object() -> (v: Self)
        ensures
            v@ == Json::Object(Seq::empty()),
            v@.wf(),
    {
        let members: Vec<Member> = Vec::new();
        proof {
            lemma_object_view(members);
            assert(members_view(members@) =~= Seq::empty());
        }
        JsonValue(Value::Object(members))
    }
}

impl From<Value> for JsonValue {
    fn from(v: Value) -> (r: Self) {
        JsonValue(v)
    }
}

impl vstd::std_specs::convert::FromSpecImpl<Value> for JsonValue {
    open spec fn obeys_from_spec() -> bool {
        true
    }

    open spec fn from_spec(v: Value) -> Self {
        JsonValue(v)
    }
}

impl From<JsonValue> for Value {
    fn from(v: JsonValue) -> (r: Self) {
        v.0
    }
}

impl vstd::std_specs::convert::FromSpecImpl<JsonValue> for Value {
    open spec fn obeys_from_spec() -> bool {
        true
    }

    open spec fn from_spec(v: JsonValue) -> Self {
        v.0
    }
}

impl Default for JsonValue {
    fn default() -> (v: Self)
        ensures
            v@ == Json::Object(Seq::empty()),
            v@.wf(),
    {
        JsonValue::empty_object()
    }
}

} // verus!
