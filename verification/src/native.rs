//! The interpreter's values, as far as the bridge reads them.
//!
//! A [`NativeValue`] holds what a value of the script interpreter shows to
//! host code: its kind and, for the kinds that carry data across the
//! boundary, the data. Contracts speak of it through its view ([`Native`]).

use vstd::prelude::*;

verus! {

/// Text as the interpreter hands it out: either well-formed text, or data
/// that is no valid text and cannot be taken over.
#[derive(Debug)]
pub enum NativeText {
    Valid(String),
    Malformed,
}

impl View for NativeText {
    type V = Option<Seq<char>>;

    open spec fn view(&self) -> Option<Seq<char>> {
        match self {
            NativeText::Valid(s) => Some(s@),
            NativeText::Malformed => None,
        }
    }
}

impl Clone for NativeText {
    /// Copies the text: the copy has the same view.
    fn clone(&self) -> (r: Self)
        ensures
            r@ == self@,
    {
        match self {
            NativeText::Valid(s) => NativeText::Valid(s.clone()),
            NativeText::Malformed => NativeText::Malformed,
        }
    }
}

/// One property of a native object.
#[derive(Debug)]
pub struct Property {
    pub key: NativeText,
    pub value: NativeValue,
}

/// A value of the script interpreter.
#[derive(Debug)]
pub enum NativeValue {
    /// The absence of a value.
    Undefined,
    Null,
    Bool(bool),
    /// A number held as a 32-bit integer.
    Int(i32),
    /// A number held as a float, by its binary64 bit pattern.
    Float(u64),
    String(NativeText),
    Array(Vec<NativeValue>),
    /// A callable value. Functions do not cross the boundary.
    Function,
    /// An object that is neither an array nor a function, by its properties
    /// in the order in which the interpreter enumerates them.
    Object(Vec<Property>),
    /// Any other kind of value, such as a symbol or a module.
    Opaque,
}

/// The mathematical view of a [`NativeValue`].
pub enum Native {
    Undefined,
    Null,
    Bool(bool),
    Int(i32),
    Float(u64),
    String(Option<Seq<char>>),
    Array(Seq<Native>),
    Function,
    Object(Seq<(Option<Seq<char>>, Native)>),
    Opaque,
}

impl View for Property {
    type V = (Option<Seq<char>>, Native);

    open spec fn view(&self) -> (Option<Seq<char>>, Native) {
        (self.key@, self.value@)
    }
}

impl View for NativeValue {
    type V = Native;

    open spec fn view(&self) -> Native
        decreases self, 0nat,
    {
        match self {
            NativeValue::Undefined => Native::Undefined,
            NativeValue::Null => Native::Null,
            NativeValue::Bool(b) => Native::Bool(*b),
            NativeValue::Int(i) => Native::Int(*i),
            NativeValue::Float(bits) => Native::Float(*bits),
            NativeValue::String(t) => Native::String(t@),
            NativeValue::Array(items) => Native::Array(
                native_items_view_to(*items, items.len() as nat),
            ),
            NativeValue::Function => Native::Function,
            NativeValue::Object(props) => Native::Object(
                properties_view_to(*props, props.len() as nat),
            ),
            NativeValue::Opaque => Native::Opaque,
        }
    }
}

/// The views of the first `n` items, in order.
pub open spec fn native_items_view_to(items: Vec<NativeValue>, n: nat) -> Seq<Native>
    decreases items, n,
{
    if n == 0 || n > items.len() {
        Seq::empty()
    } else {
        native_items_view_to(items, (n - 1) as nat).push(items[n - 1]@)
    }
}

/// The views of the first `n` properties, in order.
pub open spec fn properties_view_to(props: Vec<Property>, n: nat) -> Seq<
    (Option<Seq<char>>, Native),
>
    decreases props, n,
{
    if n == 0 || n > props.len() {
        Seq::empty()
    } else {
        properties_view_to(props, (n - 1) as nat).push((props[n - 1].key@, props[n - 1].value@))
    }
}

/// The views of a sequence of native values, in order.
pub open spec fn native_items_view(items: Seq<NativeValue>) -> Seq<Native> {
    Seq::new(items.len(), |i: int| items[i]@)
}

/// The views of a sequence of properties, in order.
pub open spec fn properties_view(props: Seq<Property>) -> Seq<(Option<Seq<char>>, Native)> {
    Seq::new(props.len(), |i: int| props[i]@)
}

proof fn lemma_native_items_view_to(items: Vec<NativeValue>, n: nat)
    requires
        n <= items.len(),
    ensures
        native_items_view_to(items, n) == native_items_view(items@.take(n as int)),
    decreases n,
{
    if n > 0 {
        lemma_native_items_view_to(items, (n - 1) as nat);
        let prev = native_items_view(items@.take(n - 1));
        let cur = native_items_view(items@.take(n as int));
        assert forall|i: int| 0 <= i < n implies cur[i] == prev.push(items[n - 1]@)[i] by {
            if i < n - 1 {
                assert(items@.take(n - 1)[i] == items@.take(n as int)[i]);
            }
        }
        assert(cur =~= prev.push(items[n - 1]@));
    } else {
        assert(native_items_view_to(items, n) =~= native_items_view(items@.take(n as int)));
    }
}

proof fn lemma_properties_view_to(props: Vec<Property>, n: nat)
    requires
        n <= props.len(),
    ensures
        properties_view_to(props, n) == properties_view(props@.take(n as int)),
    decreases n,
{
    if n > 0 {
        lemma_properties_view_to(props, (n - 1) as nat);
        let prev = properties_view(props@.take(n - 1));
        let cur = properties_view(props@.take(n as int));
        assert forall|i: int| 0 <= i < n implies cur[i] == prev.push(props[n - 1]@)[i] by {
            if i < n - 1 {
                assert(props@.take(n - 1)[i] == props@.take(n as int)[i]);
            }
        }
        assert(cur =~= prev.push(props[n - 1]@));
    } else {
        assert(properties_view_to(props, n) =~= properties_view(props@.take(n as int)));
    }
}

/// The view of a native array is the sequence of its items' views.
pub proof fn lemma_native_array_view(items: Vec<NativeValue>)
    ensures
        NativeValue::Array(items)@ == Native::Array(native_items_view(items@)),
{
    lemma_native_items_view_to(items, items.len() as nat);
    assert(items@.take(items.len() as int) =~= items@);
}

/// The view of a native object is the sequence of its properties' views.
pub proof fn lemma_native_object_view(props: Vec<Property>)
    ensures
        NativeValue::Object(props)@ == Native::Object(properties_view(props@)),
{
    lemma_properties_view_to(props, props.len() as nat);
    assert(props@.take(props.len() as int) =~= props@);
}

} // verus!
