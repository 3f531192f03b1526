//! The reflection metadata model: the value types that describe a package,
//! its types and their members, together with the mathematical view of each.
//!
//! Every exec type `T` here has a ghost twin `TView` in which strings are
//! `Seq<char>` and vectors are `Seq`; `t@` is that twin. Contracts across the
//! crate are written over these views.
use vstd::prelude::*;

use crate::naming::{NamingConventions, NamingConventionsView};

verus! {

/// Who may see a type or a member.
#[derive(PartialEq, Eq, Structural, PartialOrd, Ord, Hash, Debug, Clone, Copy)]
pub enum Visibility {
    Private,
    Protected,
    Internal,
    Public,
}

impl DeepView for Visibility {
    type V = Visibility;

    open spec fn deep_view(&self) -> Visibility {
        *self
    }
}

/// How a method is dispatched.
#[derive(PartialEq, Eq, Structural, Hash, Debug, Clone, Copy)]
pub enum MethodKind {
    /// With a body and a receiver.
    Default,
    /// Without a body.
    Abstract,
    /// With a body that may be overridden.
    Virtual,
    /// With a body but no receiver.
    Static,
}

impl DeepView for MethodKind {
    type V = MethodKind;

    open spec fn deep_view(&self) -> MethodKind {
        *self
    }
}

/// A reference to a type, by name, by id, or by shape.
#[derive(Debug)]
pub enum TypeRef {
    Name(String),
    Id(u64),
    Generic(Box<TypeRef>, Vec<TypeRef>),
    Tuple(Vec<TypeRef>),
    Fn(Option<Box<TypeRef>>, Vec<TypeRef>),
}

pub ghost enum TypeRefView {
    Name(Seq<char>),
    Id(u64),
    Generic(Box<TypeRefView>, Seq<TypeRefView>),
    Tuple(Seq<TypeRefView>),
    Fn(Option<Box<TypeRefView>>, Seq<TypeRefView>),
}

impl TypeRef {
    /// The view, by recursion over the reference's shape.
    pub open spec fn shape(&self) -> TypeRefView
        decreases self,
    {
        match self {
            TypeRef::Name(name) => TypeRefView::Name(name@),
            TypeRef::Id(id) => TypeRefView::Id(*id),
            TypeRef::Generic(base, args) => TypeRefView::Generic(
                Box::new(base.shape()),
                Seq::new(
                    args@.len(),
                    |i: int|
                        if 0 <= i < args@.len() {
                            args@[i].shape()
                        } else {
                            TypeRefView::Id(0)
                        },
                ),
            ),
            TypeRef::Tuple(items) => TypeRefView::Tuple(
                Seq::new(
                    items@.len(),
                    |i: int|
                        if 0 <= i < items@.len() {
                            items@[i].shape()
                        } else {
                            TypeRefView::Id(0)
                        },
                ),
            ),
            TypeRef::Fn(ret, args) => TypeRefView::Fn(
                match ret {
                    Some(r) => Some(Box::new(r.shape())),
                    None => None,
                },
                Seq::new(
                    args@.len(),
                    |i: int|
                        if 0 <= i < args@.len() {
                            args@[i].shape()
                        } else {
                            TypeRefView::Id(0)
                        },
                ),
            ),
        }
    }

    /// A reference by name.
    pub fn from_name(name: &str) -> (r: TypeRef)
        ensures
            r@ == TypeRefView::Name(name@),
    {
        TypeRef::Name(String::from_str(name))
    }

    /// A reference by id.
    pub fn from_id(id: u64) -> (r: TypeRef)
        ensures
            r@ == TypeRefView::Id(id),
    {
        TypeRef::Id(id)
    }

    /// A reference to a finished type, by its id.
    pub fn from_type(t: &Type) -> (r: TypeRef)
        ensures
            r@ == TypeRefView::Id(t.id),
    {
        TypeRef::Id(t.id)
    }
}

impl DeepView for TypeRef {
    type V = TypeRefView;

    open spec fn deep_view(&self) -> TypeRefView {
        self.shape()
    }
}

impl View for TypeRef {
    type V = TypeRefView;

    open spec fn view(&self) -> TypeRefView {
        self.shape()
    }
}

/// Unfolds the view of a type reference one level, with the children's
/// views written as `deep_view` of the child vectors.
pub proof fn lemma_typeref_view(t: TypeRef)
    ensures
        t@ == (match t {
            TypeRef::Name(name) => TypeRefView::Name(name@),
            TypeRef::Id(id) => TypeRefView::Id(id),
            TypeRef::Generic(base, args) => TypeRefView::Generic(
                Box::new(base@),
                args.deep_view(),
            ),
            TypeRef::Tuple(items) => TypeRefView::Tuple(items.deep_view()),
            TypeRef::Fn(ret, args) => TypeRefView::Fn(
                match ret {
                    Some(r) => Some(Box::new(r@)),
                    None => None,
                },
                args.deep_view(),
            ),
        }),
{
    match t {
        TypeRef::Name(_) => {},
        TypeRef::Id(_) => {},
        TypeRef::Generic(_, args) => {
            assert(t.shape()->Generic_1 =~= args.deep_view());
        },
        TypeRef::Tuple(items) => {
            assert(t.shape()->Tuple_0 =~= items.deep_view());
        },
        TypeRef::Fn(_, args) => {
            assert(t.shape()->Fn_1 =~= args.deep_view());
        },
    }
}

fn clone_typerefs(v: &Vec<TypeRef>) -> (r: Vec<TypeRef>)
    ensures
        r.deep_view() == v.deep_view(),
    decreases v,
{
    let mut out: Vec<TypeRef> = Vec::new();
    let mut i: usize = 0;
    while i < v.len()
        invariant
            i <= v.len(),
            out@.len() == i,
            forall|j: int| 0 <= j < i ==> out@[j]@ == v@[j]@,
        decreases v.len() - i,
    {
        let item = clone_typeref(&v[i]);
        out.push(item);
        i += 1;
    }
    assert(out.deep_view() =~= v.deep_view());
    out
}

fn clone_typeref(t: &TypeRef) -> (r: TypeRef)
    ensures
        r@ == t@,
    decreases t,
{
    proof {
        lemma_typeref_view(*t);
    }
    let r = match t {
        TypeRef::Name(name) => TypeRef::Name(name.clone()),
        TypeRef::Id(id) => TypeRef::Id(*id),
        TypeRef::Generic(base, args) => TypeRef::Generic(
            Box::new(clone_typeref(base)),
            clone_typerefs(args),
        ),
        TypeRef::Tuple(items) => TypeRef::Tuple(clone_typerefs(items)),
        TypeRef::Fn(ret, args) => TypeRef::Fn(
            match ret {
                Some(r) => Some(Box::new(clone_typeref(r))),
                None => None,
            },
            clone_typerefs(args),
        ),
    };
    proof {
        lemma_typeref_view(r);
    }
    r
}

impl Clone for TypeRef {
    fn clone(&self) -> (r: Self)
        ensures
            r@ == self@,
    {
        clone_typeref(self)
    }
}

impl From<String> for TypeRef {
    fn from(value: String) -> (r: TypeRef)
    {
        TypeRef::Name(value)
    }
}

impl vstd::std_specs::convert::FromSpecImpl<String> for TypeRef {
    open spec fn obeys_from_spec() -> bool {
        true
    }

    open spec fn from_spec(value: String) -> TypeRef {
        TypeRef::Name(value)
    }
}

impl From<&str> for TypeRef {
    fn from(value: &str) -> (r: TypeRef)
        ensures
            r@ == TypeRefView::Name(value@),
    {
        TypeRef::Name(String::from_str(value))
    }
}

impl vstd::std_specs::convert::FromSpecImpl<&str> for TypeRef {
    open spec fn obeys_from_spec() -> bool {
        false
    }

    open spec fn from_spec(value: &str) -> TypeRef {
        arbitrary()
    }
}

impl From<u64> for TypeRef {
    fn from(value: u64) -> (r: TypeRef)
    {
        TypeRef::Id(value)
    }
}

impl vstd::std_specs::convert::FromSpecImpl<u64> for TypeRef {
    open spec fn obeys_from_spec() -> bool {
        true
    }

    open spec fn from_spec(value: u64) -> TypeRef {
        TypeRef::Id(value)
    }
}

impl From<&Type> for TypeRef {
    fn from(value: &Type) -> (r: TypeRef)
    {
        TypeRef::Id(value.id)
    }
}

impl vstd::std_specs::convert::FromSpecImpl<&Type> for TypeRef {
    open spec fn obeys_from_spec() -> bool {
        true
    }

    open spec fn from_spec(value: &Type) -> TypeRef {
        TypeRef::Id(value.id)
    }
}

/// A constant: an attribute argument, an enum discriminant or a field default.
///
/// `Float` and `Double` hold the IEEE 754 bit pattern of the number and,
/// beside it, the number in decimal as its text: nothing here computes with
/// the number, and whoever makes the value gives both. `Object`
/// holds its entries in insertion order, no key twice: `Value::object` makes
/// such an object of any entries, and `ValueView::well_formed` says so of a
/// value and of all that it holds.
#[derive(Debug)]
pub enum Value {
    Null,
    Bool(bool),
    Byte(u8),
    Short(i16),
    Int(i32),
    Long(i64),
    SByte(i8),
    UShort(u16),
    UInt(u32),
    ULong(u64),
    Float(u32, String),
    Double(u64, String),
    String(String),
    Array(Vec<Value>),
    Tuple(Vec<Value>),
    Object(Vec<(String, Value)>),
}

pub ghost enum ValueView {
    Null,
    Bool(bool),
    Byte(u8),
    Short(i16),
    Int(i32),
    Long(i64),
    SByte(i8),
    UShort(u16),
    UInt(u32),
    ULong(u64),
    Float(u32, Seq<char>),
    Double(u64, Seq<char>),
    String(Seq<char>),
    Array(Seq<ValueView>),
    Tuple(Seq<ValueView>),
    Object(Seq<(Seq<char>, ValueView)>),
}

impl Value {
    /// The view, by recursion over the value's shape.
    pub open spec fn shape(&self) -> ValueView
        decreases self,
    {
        match self {
            Value::Null => ValueView::Null,
            Value::Bool(v) => ValueView::Bool(*v),
            Value::Byte(v) => ValueView::Byte(*v),
            Value::Short(v) => ValueView::Short(*v),
            Value::Int(v) => ValueView::Int(*v),
            Value::Long(v) => ValueView::Long(*v),
            Value::SByte(v) => ValueView::SByte(*v),
            Value::UShort(v) => ValueView::UShort(*v),
            Value::UInt(v) => ValueView::UInt(*v),
            Value::ULong(v) => ValueView::ULong(*v),
            Value::Float(v, text) => ValueView::Float(*v, text@),
            Value::Double(v, text) => ValueView::Double(*v, text@),
            Value::String(v) => ValueView::String(v@),
            Value::Array(items) => ValueView::Array(
                Seq::new(
                    items@.len(),
                    |i: int|
                        if 0 <= i < items@.len() {
                            items@[i].shape()
                        } else {
                            ValueView::Null
                        },
                ),
            ),
            Value::Tuple(items) => ValueView::Tuple(
                Seq::new(
                    items@.len(),
                    |i: int|
                        if 0 <= i < items@.len() {
                            items@[i].shape()
                        } else {
                            ValueView::Null
                        },
                ),
            ),
            Value::Object(entries) => ValueView::Object(
                Seq::new(
                    entries@.len(),
                    |i: int|
                        if 0 <= i < entries@.len() {
                            (entries@[i].0@, entries@[i].1.shape())
                        } else {
                            (Seq::empty(), ValueView::Null)
                        },
                ),
            ),
        }
    }
}

impl DeepView for Value {
    type V = ValueView;

    open spec fn deep_view(&self) -> ValueView {
        self.shape()
    }
}

impl View for Value {
    type V = ValueView;

    open spec fn view(&self) -> ValueView {
        self.shape()
    }
}

/// Unfolds the view of a value one level, with the children's views written
/// as `deep_view` of the child vectors.
pub proof fn lemma_value_view(v: Value)
    ensures
        v@ == (match v {
            Value::Null => ValueView::Null,
            Value::Bool(x) => ValueView::Bool(x),
            Value::Byte(x) => ValueView::Byte(x),
            Value::Short(x) => ValueView::Short(x),
            Value::Int(x) => ValueView::Int(x),
            Value::Long(x) => ValueView::Long(x),
            Value::SByte(x) => ValueView::SByte(x),
            Value::UShort(x) => ValueView::UShort(x),
            Value::UInt(x) => ValueView::UInt(x),
            Value::ULong(x) => ValueView::ULong(x),
            Value::Float(x, text) => ValueView::Float(x, text@),
            Value::Double(x, text) => ValueView::Double(x, text@),
            Value::String(x) => ValueView::String(x@),
            Value::Array(items) => ValueView::Array(items.deep_view()),
            Value::Tuple(items) => ValueView::Tuple(items.deep_view()),
            Value::Object(entries) => ValueView::Object(entries.deep_view()),
        }),
{
    match v {
        Value::Array(items) => {
            assert(v.shape()->Array_0 =~= items.deep_view());
        },
        Value::Tuple(items) => {
            assert(v.shape()->Tuple_0 =~= items.deep_view());
        },
        Value::Object(entries) => {
            assert(v.shape()->Object_0 =~= entries.deep_view());
        },
        _ => {},
    }
}

fn clone_values(v: &Vec<Value>) -> (r: Vec<Value>)
    ensures
        r.deep_view() == v.deep_view(),
    decreases v,
{
    let mut out: Vec<Value> = Vec::new();
    let mut i: usize = 0;
    while i < v.len()
        invariant
            i <= v.len(),
            out@.len() == i,
            forall|j: int| 0 <= j < i ==> out@[j]@ == v@[j]@,
        decreases v.len() - i,
    {
        let item = clone_value(&v[i]);
        out.push(item);
        i += 1;
    }
    assert(out.deep_view() =~= v.deep_view());
    out
}

pub(crate) fn clone_entries(v: &Vec<(String, Value)>) -> (r: Vec<(String, Value)>)
    ensures
        r.deep_view() == v.deep_view(),
    decreases v,
{
    let mut out: Vec<(String, Value)> = Vec::new();
    let mut i: usize = 0;
    while i < v.len()
        invariant
            i <= v.len(),
            out@.len() == i,
            forall|j: int| 0 <= j < i ==> out@[j].0@ == v@[j].0@ && out@[j].1@ == v@[j].1@,
        decreases v.len() - i,
    {
        let key = v[i].0.clone();
        let item = clone_value(&v[i].1);
        out.push((key, item));
        i += 1;
    }
    assert(out.deep_view() =~= v.deep_view());
    out
}

fn clone_value(v: &Value) -> (r: Value)
    ensures
        r@ == v@,
    decreases v,
{
    proof {
        lemma_value_view(*v);
    }
    let r = match v {
        Value::Null => Value::Null,
        Value::Bool(x) => Value::Bool(*x),
        Value::Byte(x) => Value::Byte(*x),
        Value::Short(x) => Value::Short(*x),
        Value::Int(x) => Value::Int(*x),
        Value::Long(x) => Value::Long(*x),
        Value::SByte(x) => Value::SByte(*x),
        Value::UShort(x) => Value::UShort(*x),
        Value::UInt(x) => Value::UInt(*x),
        Value::ULong(x) => Value::ULong(*x),
        Value::Float(x, text) => Value::Float(*x, text.clone()),
        Value::Double(x, text) => Value::Double(*x, text.clone()),
        Value::String(x) => Value::String(x.clone()),
        Value::Array(items) => Value::Array(clone_values(items)),
        Value::Tuple(items) => Value::Tuple(clone_values(items)),
        Value::Object(entries) => Value::Object(clone_entries(entries)),
    };
    proof {
        lemma_value_view(r);
    }
    r
}

impl Clone for Value {
    fn clone(&self) -> (r: Self)
        ensures
            r@ == self@,
    {
        clone_value(self)
    }
}

/// Whether no key occurs twice among the entries.
pub open spec fn distinct_keys(entries: Seq<(Seq<char>, ValueView)>) -> bool {
    forall|i: int, j: int| 0 <= i < j < entries.len() ==> entries[i].0 != entries[j].0
}

/// The entries but those under `key`, in their order.
pub open spec fn without_key(entries: Seq<(Seq<char>, ValueView)>, key: Seq<char>) -> Seq<
    (Seq<char>, ValueView),
>
    decreases entries.len(),
{
    if entries.len() == 0 {
        Seq::empty()
    } else if entries.last().0 == key {
        without_key(entries.drop_last(), key)
    } else {
        without_key(entries.drop_last(), key).push(entries.last())
    }
}

/// The entries after `value` was put under `key`: it comes last, and an
/// earlier entry under this key is gone.
pub open spec fn put(entries: Seq<(Seq<char>, ValueView)>, key: Seq<char>, value: ValueView) -> Seq<
    (Seq<char>, ValueView),
> {
    without_key(entries, key).push((key, value))
}

/// The entries of the object that is made of `entries`, put one after the
/// other: where a key occurs more than once, its last entry stays.
pub open spec fn merged(entries: Seq<(Seq<char>, ValueView)>) -> Seq<(Seq<char>, ValueView)>
    decreases entries.len(),
{
    if entries.len() == 0 {
        Seq::empty()
    } else {
        put(merged(entries.drop_last()), entries.last().0, entries.last().1)
    }
}

impl ValueView {
    /// Whether no object in the value, the value itself included, has a key
    /// twice.
    pub open spec fn well_formed(self) -> bool
        decreases self,
    {
        match self {
            ValueView::Array(items) => forall|i: int|
                0 <= i < items.len() ==> (#[trigger] items[i]).well_formed(),
            ValueView::Tuple(items) => forall|i: int|
                0 <= i < items.len() ==> (#[trigger] items[i]).well_formed(),
            ValueView::Object(entries) => distinct_keys(entries) && forall|i: int|
                0 <= i < entries.len() ==> (#[trigger] entries[i]).1.well_formed(),
            _ => true,
        }
    }
}

/// Each entry that is left after a key was taken out was there before, under
/// another key. Entries without a key twice stay so, and they stay as they
/// are where the key was not among them.
pub proof fn lemma_without_key(entries: Seq<(Seq<char>, ValueView)>, key: Seq<char>)
    ensures
        without_key(entries, key).len() <= entries.len(),
        forall|i: int|
            0 <= i < without_key(entries, key).len() ==> (#[trigger] without_key(entries, key)[i]).0
                != key && entries.contains(without_key(entries, key)[i]),
        distinct_keys(entries) ==> distinct_keys(without_key(entries, key)),
        distinct_keys(entries) && (forall|i: int|
            0 <= i < entries.len() ==> (#[trigger] entries[i]).0 != key) ==> without_key(
            entries,
            key,
        ) == entries,
    decreases entries.len(),
{
    if entries.len() > 0 {
        let head = entries.drop_last();
        lemma_without_key(head, key);
        let kept = without_key(head, key);
        assert forall|i: int| 0 <= i < kept.len() implies entries.contains(#[trigger] kept[i]) by {
            let j = choose|j: int| 0 <= j < head.len() && head[j] == kept[i];
            assert(entries[j] == kept[i]);
        }
        if entries.last().0 != key {
            assert(entries[entries.len() - 1] == entries.last());
            if distinct_keys(entries) {
                assert(distinct_keys(head)) by {
                    assert forall|i: int, j: int| 0 <= i < j < head.len() implies head[i].0
                        != head[j].0 by {
                        assert(head[i] == entries[i] && head[j] == entries[j]);
                    }
                }
                assert forall|i: int| 0 <= i < kept.len() implies (#[trigger] kept[i]).0
                    != entries.last().0 by {
                    let j = choose|j: int| 0 <= j < head.len() && head[j] == kept[i];
                    assert(entries[j] == kept[i]);
                }
                if forall|i: int| 0 <= i < entries.len() ==> (#[trigger] entries[i]).0 != key {
                    assert forall|i: int| 0 <= i < head.len() implies (#[trigger] head[i]).0
                        != key by {
                        assert(head[i] == entries[i]);
                    }
                    assert(kept.push(entries.last()) =~= entries);
                }
            }
        } else if distinct_keys(entries) {
            assert(distinct_keys(head)) by {
                assert forall|i: int, j: int| 0 <= i < j < head.len() implies head[i].0
                    != head[j].0 by {
                    assert(head[i] == entries[i] && head[j] == entries[j]);
                }
            }
            assert(entries[entries.len() - 1].0 == key);
        }
    }
}

/// An object is made without a key twice, and every value in it is one of
/// those it was made of.
pub proof fn lemma_merged(entries: Seq<(Seq<char>, ValueView)>)
    ensures
        distinct_keys(merged(entries)),
        forall|i: int|
            0 <= i < merged(entries).len() ==> entries.contains(#[trigger] merged(entries)[i]),
        distinct_keys(entries) ==> merged(entries) == entries,
    decreases entries.len(),
{
    if entries.len() > 0 {
        let head = entries.drop_last();
        let last = entries.last();
        lemma_merged(head);
        lemma_without_key(merged(head), last.0);
        let kept = without_key(merged(head), last.0);
        assert(entries[entries.len() - 1] == last);
        assert forall|i: int| 0 <= i < merged(entries).len() implies entries.contains(
            #[trigger] merged(entries)[i],
        ) by {
            if i < kept.len() {
                assert(merged(head).contains(kept[i]));
                let j = choose|j: int| 0 <= j < merged(head).len() && merged(head)[j] == kept[i];
                assert(head.contains(merged(head)[j]));
                let k = choose|k: int| 0 <= k < head.len() && head[k] == merged(head)[j];
                assert(entries[k] == kept[i]);
            }
        }
        if distinct_keys(entries) {
            assert(distinct_keys(head)) by {
                assert forall|i: int, j: int| 0 <= i < j < head.len() implies head[i].0
                    != head[j].0 by {
                    assert(head[i] == entries[i] && head[j] == entries[j]);
                }
            }
            assert forall|i: int| 0 <= i < head.len() implies (#[trigger] head[i]).0
                != last.0 by {
                assert(head[i] == entries[i]);
            }
            assert(kept.push((last.0, last.1)) =~= entries);
        }
    }
}

/// The entries with `value` put under `key`.
fn put_entry(entries: &Vec<(String, Value)>, key: String, value: Value) -> (r: Vec<(String, Value)>)
    ensures
        r.deep_view() == put(entries.deep_view(), key@, value@),
{
    let ghost all = entries.deep_view();
    let mut kept: Vec<(String, Value)> = Vec::new();
    let mut i: usize = 0;
    assert(kept.deep_view() =~= without_key(all.take(0), key@));
    while i < entries.len()
        invariant
            i <= entries.len(),
            all == entries.deep_view(),
            kept.deep_view() == without_key(all.take(i as int), key@),
        decreases entries.len() - i,
    {
        proof {
            assert(all.take(i + 1).drop_last() =~= all.take(i as int));
            assert(all.take(i + 1).last() == all[i as int]);
        }
        if !crate::builder::same_text(entries[i].0.as_str(), key.as_str()) {
            let ghost before = kept.deep_view();
            let entry = (entries[i].0.clone(), entries[i].1.clone());
            kept.push(entry);
            assert(kept.deep_view() =~= before.push(all[i as int]));
        }
        i += 1;
    }
    assert(all.take(entries.len() as int) =~= all);
    let ghost before = kept.deep_view();
    kept.push((key, value));
    assert(kept.deep_view() =~= before.push((key@, value@)));
    kept
}

impl Value {
    /// The object of these entries, put one after the other: where a key
    /// occurs more than once, its last entry stays. No key occurs twice in
    /// the object; entries whose keys differ stay as they are.
    pub fn object(entries: Vec<(String, Value)>) -> (r: Value)
        ensures
            r@ == ValueView::Object(merged(entries.deep_view())),
            distinct_keys(merged(entries.deep_view())),
            distinct_keys(entries.deep_view()) ==> r@ == ValueView::Object(entries.deep_view()),
            (forall|i: int|
                0 <= i < entries.len() ==> (#[trigger] entries.deep_view()[i]).1.well_formed())
                ==> r@.well_formed(),
    {
        let ghost all = entries.deep_view();
        let mut held: Vec<(String, Value)> = Vec::new();
        let mut i: usize = 0;
        assert(held.deep_view() =~= merged(all.take(0)));
        while i < entries.len()
            invariant
                i <= entries.len(),
                all == entries.deep_view(),
                held.deep_view() == merged(all.take(i as int)),
            decreases entries.len() - i,
        {
            proof {
                assert(all.take(i + 1).drop_last() =~= all.take(i as int));
                assert(all.take(i + 1).last() == all[i as int]);
            }
            held = put_entry(&held, entries[i].0.clone(), entries[i].1.clone());
            i += 1;
        }
        assert(all.take(entries.len() as int) =~= all);
        let r = Value::Object(held);
        proof {
            lemma_value_view(r);
            lemma_merged(all);
            if forall|i: int| 0 <= i < all.len() ==> (#[trigger] all[i]).1.well_formed() {
                assert forall|i: int| 0 <= i < merged(all).len() implies (#[trigger] merged(
                    all,
                )[i]).1.well_formed() by {
                    let j = choose|j: int| 0 <= j < all.len() && all[j] == merged(all)[i];
                    assert(all[j].1.well_formed());
                }
            }
        }
        r
    }
}

impl Default for Value {
    fn default() -> (r: Value)
        ensures
            r@ == ValueView::Null,
    {
        Value::Null
    }
}

impl From<bool> for Value {
    fn from(value: bool) -> (r: Value)
    {
        Value::Bool(value)
    }
}

impl vstd::std_specs::convert::FromSpecImpl<bool> for Value {
    open spec fn obeys_from_spec() -> bool {
        true
    }

    open spec fn from_spec(value: bool) -> Value {
        Value::Bool(value)
    }
}

impl From<u8> for Value {
    fn from(value: u8) -> (r: Value)
    {
        Value::Byte(value)
    }
}

impl vstd::std_specs::convert::FromSpecImpl<u8> for Value {
    open spec fn obeys_from_spec() -> bool {
        true
    }

    open spec fn from_spec(value: u8) -> Value {
        Value::Byte(value)
    }
}

impl From<i16> for Value {
    fn from(value: i16) -> (r: Value)
    {
        Value::Short(value)
    }
}

impl vstd::std_specs::convert::FromSpecImpl<i16> for Value {
    open spec fn obeys_from_spec() -> bool {
        true
    }

    open spec fn from_spec(value: i16) -> Value {
        Value::Short(value)
    }
}

impl From<i32> for Value {
    fn from(value: i32) -> (r: Value)
    {
        Value::Int(value)
    }
}

impl vstd::std_specs::convert::FromSpecImpl<i32> for Value {
    open spec fn obeys_from_spec() -> bool {
        true
    }

    open spec fn from_spec(value: i32) -> Value {
        Value::Int(value)
    }
}

impl From<i64> for Value {
    fn from(value: i64) -> (r: Value)
    {
        Value::Long(value)
    }
}

impl vstd::std_specs::convert::FromSpecImpl<i64> for Value {
    open spec fn obeys_from_spec() -> bool {
        true
    }

    open spec fn from_spec(value: i64) -> Value {
        Value::Long(value)
    }
}

impl From<i8> for Value {
    fn from(value: i8) -> (r: Value)
    {
        Value::SByte(value)
    }
}

impl vstd::std_specs::convert::FromSpecImpl<i8> for Value {
    open spec fn obeys_from_spec() -> bool {
        true
    }

    open spec fn from_spec(value: i8) -> Value {
        Value::SByte(value)
    }
}

impl From<u16> for Value {
    fn from(value: u16) -> (r: Value)
    {
        Value::UShort(value)
    }
}

impl vstd::std_specs::convert::FromSpecImpl<u16> for Value {
    open spec fn obeys_from_spec() -> bool {
        true
    }

    open spec fn from_spec(value: u16) -> Value {
        Value::UShort(value)
    }
}

impl From<u32> for Value {
    fn from(value: u32) -> (r: Value)
    {
        Value::UInt(value)
    }
}

impl vstd::std_specs::convert::FromSpecImpl<u32> for Value {
    open spec fn obeys_from_spec() -> bool {
        true
    }

    open spec fn from_spec(value: u32) -> Value {
        Value::UInt(value)
    }
}

impl From<u64> for Value {
    fn from(value: u64) -> (r: Value)
    {
        Value::ULong(value)
    }
}

impl vstd::std_specs::convert::FromSpecImpl<u64> for Value {
    open spec fn obeys_from_spec() -> bool {
        true
    }

    open spec fn from_spec(value: u64) -> Value {
        Value::ULong(value)
    }
}

impl From<usize> for Value {
    /// An unsigned number of the width of the machine's addresses.
    fn from(value: usize) -> (r: Value)
        ensures
            r@ == (if usize::BITS == 32 {
                ValueView::UInt(value as u32)
            } else {
                ValueView::ULong(value as u64)
            }),
    {
        if usize::BITS == 32 {
            Value::UInt(value as u32)
        } else {
            Value::ULong(value as u64)
        }
    }
}

impl vstd::std_specs::convert::FromSpecImpl<usize> for Value {
    open spec fn obeys_from_spec() -> bool {
        true
    }

    open spec fn from_spec(value: usize) -> Value {
        if usize::BITS == 32 {
            Value::UInt(value as u32)
        } else {
            Value::ULong(value as u64)
        }
    }
}

impl From<String> for Value {
    fn from(value: String) -> (r: Value)
    {
        Value::String(value)
    }
}

impl vstd::std_specs::convert::FromSpecImpl<String> for Value {
    open spec fn obeys_from_spec() -> bool {
        true
    }

    open spec fn from_spec(value: String) -> Value {
        Value::String(value)
    }
}

impl From<&str> for Value {
    fn from(value: &str) -> (r: Value)
        ensures
            r@ == ValueView::String(value@),
    {
        Value::String(String::from_str(value))
    }
}

impl vstd::std_specs::convert::FromSpecImpl<&str> for Value {
    open spec fn obeys_from_spec() -> bool {
        false
    }

    open spec fn from_spec(value: &str) -> Value {
        arbitrary()
    }
}

/// Metadata attached to a package, a type, a member or an argument: the
/// attribute's type and its arguments.
#[derive(Debug)]
pub struct Attribute(pub TypeRef, pub Vec<Value>);

pub ghost struct AttributeView(pub TypeRefView, pub Seq<ValueView>);

impl DeepView for Attribute {
    type V = AttributeView;

    open spec fn deep_view(&self) -> AttributeView {
        AttributeView(self.0@, self.1.deep_view())
    }
}

impl View for Attribute {
    type V = AttributeView;

    open spec fn view(&self) -> AttributeView {
        self.deep_view()
    }
}

impl Clone for Attribute {
    fn clone(&self) -> (r: Self)
        ensures
            r@ == self@,
    {
        Attribute(self.0.clone(), self.1.clone())
    }
}

/// How an argument is passed.
#[derive(Debug)]
pub enum ArgumentKind {
    /// Passed by value.
    Default,
    /// Passed by value; may be left out, and then has this value.
    DefaultValue(Value),
    /// Passed by reference, write-only.
    Out,
    /// Passed by reference, read-write.
    Ref,
    /// Passed by reference, read-only.
    In,
}

pub ghost enum ArgumentKindView {
    Default,
    DefaultValue(ValueView),
    Out,
    Ref,
    In,
}

impl DeepView for ArgumentKind {
    type V = ArgumentKindView;

    open spec fn deep_view(&self) -> ArgumentKindView {
        match self {
            ArgumentKind::Default => ArgumentKindView::Default,
            ArgumentKind::DefaultValue(v) => ArgumentKindView::DefaultValue(v@),
            ArgumentKind::Out => ArgumentKindView::Out,
            ArgumentKind::Ref => ArgumentKindView::Ref,
            ArgumentKind::In => ArgumentKindView::In,
        }
    }
}

impl View for ArgumentKind {
    type V = ArgumentKindView;

    open spec fn view(&self) -> ArgumentKindView {
        self.deep_view()
    }
}

impl Clone for ArgumentKind {
    fn clone(&self) -> (r: Self)
        ensures
            r@ == self@,
    {
        match self {
            ArgumentKind::Default => ArgumentKind::Default,
            ArgumentKind::DefaultValue(v) => ArgumentKind::DefaultValue(v.clone()),
            ArgumentKind::Out => ArgumentKind::Out,
            ArgumentKind::Ref => ArgumentKind::Ref,
            ArgumentKind::In => ArgumentKind::In,
        }
    }
}

impl ArgumentKindView {
    /// Whether the argument crosses the boundary as a pointer to storage the
    /// caller owns, rather than as the value's own bytes.
    pub open spec fn by_reference(self) -> bool {
        self is Out || self is Ref || self is In
    }
}

/// An argument of a constructor or a method: attributes, type, name, passing
/// mode.
#[derive(Debug)]
pub struct Argument(pub Vec<Attribute>, pub TypeRef, pub String, pub ArgumentKind);

pub ghost struct ArgumentView(
    pub Seq<AttributeView>,
    pub TypeRefView,
    pub Seq<char>,
    pub ArgumentKindView,
);

impl DeepView for Argument {
    type V = ArgumentView;

    open spec fn deep_view(&self) -> ArgumentView {
        ArgumentView(self.0.deep_view(), self.1@, self.2@, self.3@)
    }
}

impl View for Argument {
    type V = ArgumentView;

    open spec fn view(&self) -> ArgumentView {
        self.deep_view()
    }
}

impl Clone for Argument {
    fn clone(&self) -> (r: Self)
        ensures
            r@ == self@,
    {
        Argument(self.0.clone(), self.1.clone(), self.2.clone(), self.3.clone())
    }
}

/// Generic parameters: the parameter names, and the `where` bounds as pairs of
/// a parameter name and the type that bounds it.
#[derive(Debug)]
pub struct Generics(pub Vec<String>, pub Vec<(String, TypeRef)>);

pub ghost struct GenericsView(pub Seq<Seq<char>>, pub Seq<(Seq<char>, TypeRefView)>);

impl DeepView for Generics {
    type V = GenericsView;

    open spec fn deep_view(&self) -> GenericsView {
        GenericsView(self.0.deep_view(), self.1.deep_view())
    }
}

impl View for Generics {
    type V = GenericsView;

    open spec fn view(&self) -> GenericsView {
        self.deep_view()
    }
}

pub(crate) fn clone_bounds(v: &Vec<(String, TypeRef)>) -> (r: Vec<(String, TypeRef)>)
    ensures
        r.deep_view() == v.deep_view(),
{
    let mut out: Vec<(String, TypeRef)> = Vec::new();
    let mut i: usize = 0;
    while i < v.len()
        invariant
            i <= v.len(),
            out@.len() == i,
            forall|j: int| 0 <= j < i ==> out@[j].0@ == v@[j].0@ && out@[j].1@ == v@[j].1@,
        decreases v.len() - i,
    {
        let name = v[i].0.clone();
        let bound = v[i].1.clone();
        out.push((name, bound));
        i += 1;
    }
    assert(out.deep_view() =~= v.deep_view());
    out
}

impl Clone for Generics {
    fn clone(&self) -> (r: Self)
        ensures
            r@ == self@,
    {
        Generics(self.0.clone(), clone_bounds(&self.1))
    }
}

/// A constructor of a class or a struct.
#[derive(Debug)]
pub struct Constructor {
    pub attrs: Vec<Attribute>,
    pub vis: Visibility,
    pub args: Vec<Argument>,
}

pub ghost struct ConstructorView {
    pub attrs: Seq<AttributeView>,
    pub vis: Visibility,
    pub args: Seq<ArgumentView>,
}

impl DeepView for Constructor {
    type V = ConstructorView;

    open spec fn deep_view(&self) -> ConstructorView {
        ConstructorView {
            attrs: self.attrs.deep_view(),
            vis: self.vis,
            args: self.args.deep_view(),
        }
    }
}

impl View for Constructor {
    type V = ConstructorView;

    open spec fn view(&self) -> ConstructorView {
        self.deep_view()
    }
}

impl Clone for Constructor {
    fn clone(&self) -> (r: Self)
        ensures
            r@ == self@,
    {
        Constructor {
            attrs: self.attrs.clone(),
            vis: self.vis,
            args: self.args.clone(),
        }
    }
}

/// A data member.
#[derive(Debug)]
pub struct Field {
    pub attrs: Vec<Attribute>,
    pub vis: Visibility,
    pub field_type: TypeRef,
    pub name: String,
    pub default_value: Option<Value>,
    pub id: u64,
}

pub ghost struct FieldView {
    pub attrs: Seq<AttributeView>,
    pub vis: Visibility,
    pub field_type: TypeRefView,
    pub name: Seq<char>,
    pub default_value: Option<ValueView>,
    pub id: u64,
}

impl DeepView for Field {
    type V = FieldView;

    open spec fn deep_view(&self) -> FieldView {
        FieldView {
            attrs: self.attrs.deep_view(),
            vis: self.vis,
            field_type: self.field_type@,
            name: self.name@,
            default_value: self.default_value.deep_view(),
            id: self.id,
        }
    }
}

impl View for Field {
    type V = FieldView;

    open spec fn view(&self) -> FieldView {
        self.deep_view()
    }
}

impl Clone for Field {
    fn clone(&self) -> (r: Self)
        ensures
            r@ == self@,
    {
        Field {
            attrs: self.attrs.clone(),
            vis: self.vis,
            field_type: self.field_type.clone(),
            name: self.name.clone(),
            default_value: self.default_value.clone(),
            id: self.id,
        }
    }
}

/// A member read through a getter and, unless it is read-only, written
/// through a setter.
#[derive(Debug)]
pub struct Property {
    pub attrs: Vec<Attribute>,
    pub getter_visibility: Visibility,
    /// `None` for a read-only property.
    pub setter_visibility: Option<Visibility>,
    pub prop_type: TypeRef,
    pub name: String,
    pub id: u64,
}

pub ghost struct PropertyView {
    pub attrs: Seq<AttributeView>,
    pub getter_visibility: Visibility,
    pub setter_visibility: Option<Visibility>,
    pub prop_type: TypeRefView,
    pub name: Seq<char>,
    pub id: u64,
}

impl DeepView for Property {
    type V = PropertyView;

    open spec fn deep_view(&self) -> PropertyView {
        PropertyView {
            attrs: self.attrs.deep_view(),
            getter_visibility: self.getter_visibility,
            setter_visibility: self.setter_visibility,
            prop_type: self.prop_type@,
            name: self.name@,
            id: self.id,
        }
    }
}

impl View for Property {
    type V = PropertyView;

    open spec fn view(&self) -> PropertyView {
        self.deep_view()
    }
}

impl Clone for Property {
    fn clone(&self) -> (r: Self)
        ensures
            r@ == self@,
    {
        Property {
            attrs: self.attrs.clone(),
            getter_visibility: self.getter_visibility,
            setter_visibility: self.setter_visibility,
            prop_type: self.prop_type.clone(),
            name: self.name.clone(),
            id: self.id,
        }
    }
}

/// A method.
#[derive(Debug)]
pub struct Method {
    pub attrs: Vec<Attribute>,
    pub vis: Visibility,
    pub name: String,
    pub id: u64,
    pub generics: Generics,
    pub args: Vec<Argument>,
    /// `None` for a method that returns nothing.
    pub return_type: Option<TypeRef>,
    pub kind: MethodKind,
}

pub ghost struct MethodView {
    pub attrs: Seq<AttributeView>,
    pub vis: Visibility,
    pub name: Seq<char>,
    pub id: u64,
    pub generics: GenericsView,
    pub args: Seq<ArgumentView>,
    pub return_type: Option<TypeRefView>,
    pub kind: MethodKind,
}

impl DeepView for Method {
    type V = MethodView;

    open spec fn deep_view(&self) -> MethodView {
        MethodView {
            attrs: self.attrs.deep_view(),
            vis: self.vis,
            name: self.name@,
            id: self.id,
            generics: self.generics@,
            args: self.args.deep_view(),
            return_type: self.return_type.deep_view(),
            kind: self.kind,
        }
    }
}

impl View for Method {
    type V = MethodView;

    open spec fn view(&self) -> MethodView {
        self.deep_view()
    }
}

impl Clone for Method {
    fn clone(&self) -> (r: Self)
        ensures
            r@ == self@,
    {
        Method {
            attrs: self.attrs.clone(),
            vis: self.vis,
            name: self.name.clone(),
            id: self.id,
            generics: self.generics.clone(),
            args: self.args.clone(),
            return_type: self.return_type.clone(),
            kind: self.kind,
        }
    }
}

/// A variant of an enum class, with the fields it carries.
#[derive(Debug)]
pub struct Variant {
    pub attrs: Vec<Attribute>,
    pub vis: Visibility,
    pub name: String,
    pub id: u64,
    pub fields: Vec<Field>,
}

pub ghost struct VariantView {
    pub attrs: Seq<AttributeView>,
    pub vis: Visibility,
    pub name: Seq<char>,
    pub id: u64,
    pub fields: Seq<FieldView>,
}

impl DeepView for Variant {
    type V = VariantView;

    open spec fn deep_view(&self) -> VariantView {
        VariantView {
            attrs: self.attrs.deep_view(),
            vis: self.vis,
            name: self.name@,
            id: self.id,
            fields: self.fields.deep_view(),
        }
    }
}

impl View for Variant {
    type V = VariantView;

    open spec fn view(&self) -> VariantView {
        self.deep_view()
    }
}

impl Clone for Variant {
    fn clone(&self) -> (r: Self)
        ensures
            r@ == self@,
    {
        Variant {
            attrs: self.attrs.clone(),
            vis: self.vis,
            name: self.name.clone(),
            id: self.id,
            fields: self.fields.clone(),
        }
    }
}

/// The shape of a type and the members that shape allows.
#[derive(Debug)]
#[allow(inconsistent_fields)]
pub enum TypeKind {
    Class {
        is_sealed: bool,
        constructors: Vec<Constructor>,
        properties: Vec<Property>,
        fields: Vec<Field>,
        static_properties: Vec<Property>,
        static_fields: Vec<Field>,
        methods: Vec<Method>,
        parents: Vec<TypeRef>,
    },
    /// A closed set of named constants.
    Enum { variants: Vec<(String, Value)> },
    /// A closed set of variants that carry fields.
    EnumClass { variants: Vec<Variant>, methods: Vec<Method> },
    Interface { properties: Vec<Property>, methods: Vec<Method>, parents: Vec<TypeRef> },
    /// A type that holds only data.
    Struct { constructors: Vec<Constructor>, fields: Vec<Field>, static_fields: Vec<Field> },
    TypeAlias(Box<TypeRef>),
}

#[allow(inconsistent_fields)]
pub ghost enum TypeKindView {
    Class {
        is_sealed: bool,
        constructors: Seq<ConstructorView>,
        properties: Seq<PropertyView>,
        fields: Seq<FieldView>,
        static_properties: Seq<PropertyView>,
        static_fields: Seq<FieldView>,
        methods: Seq<MethodView>,
        parents: Seq<TypeRefView>,
    },
    Enum { variants: Seq<(Seq<char>, ValueView)> },
    EnumClass { variants: Seq<VariantView>, methods: Seq<MethodView> },
    Interface {
        properties: Seq<PropertyView>,
        methods: Seq<MethodView>,
        parents: Seq<TypeRefView>,
    },
    Struct {
        constructors: Seq<ConstructorView>,
        fields: Seq<FieldView>,
        static_fields: Seq<FieldView>,
    },
    TypeAlias(TypeRefView),
}

impl DeepView for TypeKind {
    type V = TypeKindView;

    open spec fn deep_view(&self) -> TypeKindView {
        match self {
            TypeKind::Class {
                is_sealed,
                constructors,
                properties,
                fields,
                static_properties,
                static_fields,
                methods,
                parents,
            } => TypeKindView::Class {
                is_sealed: *is_sealed,
                constructors: constructors.deep_view(),
                properties: properties.deep_view(),
                fields: fields.deep_view(),
                static_properties: static_properties.deep_view(),
                static_fields: static_fields.deep_view(),
                methods: methods.deep_view(),
                parents: parents.deep_view(),
            },
            TypeKind::Enum { variants } => TypeKindView::Enum { variants: variants.deep_view() },
            TypeKind::EnumClass { variants, methods } => TypeKindView::EnumClass {
                variants: variants.deep_view(),
                methods: methods.deep_view(),
            },
            TypeKind::Interface { properties, methods, parents } => TypeKindView::Interface {
                properties: properties.deep_view(),
                methods: methods.deep_view(),
                parents: parents.deep_view(),
            },
            TypeKind::Struct { constructors, fields, static_fields } => TypeKindView::Struct {
                constructors: constructors.deep_view(),
                fields: fields.deep_view(),
                static_fields: static_fields.deep_view(),
            },
            TypeKind::TypeAlias(alias) => TypeKindView::TypeAlias(alias@),
        }
    }
}

impl View for TypeKind {
    type V = TypeKindView;

    open spec fn view(&self) -> TypeKindView {
        self.deep_view()
    }
}

impl Clone for TypeKind {
    fn clone(&self) -> (r: Self)
        ensures
            r@ == self@,
    {
        match self {
            TypeKind::Class {
                is_sealed,
                constructors,
                properties,
                fields,
                static_properties,
                static_fields,
                methods,
                parents,
            } => TypeKind::Class {
                is_sealed: *is_sealed,
                constructors: constructors.clone(),
                properties: properties.clone(),
                fields: fields.clone(),
                static_properties: static_properties.clone(),
                static_fields: static_fields.clone(),
                methods: methods.clone(),
                parents: parents.clone(),
            },
            TypeKind::Enum { variants } => TypeKind::Enum { variants: clone_entries(variants) },
            TypeKind::EnumClass { variants, methods } => TypeKind::EnumClass {
                variants: variants.clone(),
                methods: methods.clone(),
            },
            TypeKind::Interface { properties, methods, parents } => TypeKind::Interface {
                properties: properties.clone(),
                methods: methods.clone(),
                parents: parents.clone(),
            },
            TypeKind::Struct { constructors, fields, static_fields } => TypeKind::Struct {
                constructors: constructors.clone(),
                fields: fields.clone(),
                static_fields: static_fields.clone(),
            },
            TypeKind::TypeAlias(alias) => TypeKind::TypeAlias(Box::new((**alias).clone())),
        }
    }
}

/// A type of a package.
#[derive(Debug)]
pub struct Type {
    pub attrs: Vec<Attribute>,
    pub vis: Visibility,
    pub namespace: String,
    pub name: String,
    pub id: u64,
    pub generics: Generics,
    pub kind: TypeKind,
}

pub ghost struct TypeView {
    pub attrs: Seq<AttributeView>,
    pub vis: Visibility,
    pub namespace: Seq<char>,
    pub name: Seq<char>,
    pub id: u64,
    pub generics: GenericsView,
    pub kind: TypeKindView,
}

impl DeepView for Type {
    type V = TypeView;

    open spec fn deep_view(&self) -> TypeView {
        TypeView {
            attrs: self.attrs.deep_view(),
            vis: self.vis,
            namespace: self.namespace@,
            name: self.name@,
            id: self.id,
            generics: self.generics@,
            kind: self.kind@,
        }
    }
}

impl View for Type {
    type V = TypeView;

    open spec fn view(&self) -> TypeView {
        self.deep_view()
    }
}

impl Clone for Type {
    fn clone(&self) -> (r: Self)
        ensures
            r@ == self@,
    {
        Type {
            attrs: self.attrs.clone(),
            vis: self.vis,
            namespace: self.namespace.clone(),
            name: self.name.clone(),
            id: self.id,
            generics: self.generics.clone(),
            kind: self.kind.clone(),
        }
    }
}

/// A package: the reflected surface of one library.
#[derive(Debug)]
pub struct Package {
    pub attrs: Vec<Attribute>,
    pub name: String,
    pub id: u64,
    pub types: Vec<Type>,
    /// How the package spells its names.
    pub naming: NamingConventions,
}

pub ghost struct PackageView {
    pub attrs: Seq<AttributeView>,
    pub name: Seq<char>,
    pub id: u64,
    pub types: Seq<TypeView>,
    pub naming: NamingConventionsView,
}

impl DeepView for Package {
    type V = PackageView;

    open spec fn deep_view(&self) -> PackageView {
        PackageView {
            attrs: self.attrs.deep_view(),
            name: self.name@,
            id: self.id,
            types: self.types.deep_view(),
            naming: self.naming@,
        }
    }
}

impl View for Package {
    type V = PackageView;

    open spec fn view(&self) -> PackageView {
        self.deep_view()
    }
}

impl Clone for Package {
    fn clone(&self) -> (r: Self)
        ensures
            r@ == self@,
    {
        Package {
            attrs: self.attrs.clone(),
            name: self.name.clone(),
            id: self.id,
            types: self.types.clone(),
            naming: self.naming.clone(),
        }
    }
}

impl TypeKindView {
    /// A class that has nothing but constructors and fields, static or
    /// not, is a struct; any other kind is what it is.
    pub open spec fn simplified(self) -> TypeKindView {
        match self {
            TypeKindView::Class {
                constructors,
                properties,
                fields,
                static_properties,
                static_fields,
                methods,
                parents,
                ..
            } => if methods.len() == 0 && parents.len() == 0 && properties.len() == 0
                && static_properties.len() == 0 {
                TypeKindView::Struct { constructors, fields, static_fields }
            } else {
                self
            },
            _ => self,
        }
    }
}

impl Type {
    /// The type, as a struct where it is a class that has nothing but
    /// constructors and fields.
    pub fn into_struct_if_plain(self) -> (r: Type)
        ensures
            r@ == (TypeView { kind: self@.kind.simplified(), ..self@ }),
    {
        let Type { attrs, vis, namespace, name, id, generics, kind } = self;
        let kind = match kind {
            TypeKind::Class {
                is_sealed,
                constructors,
                properties,
                fields,
                static_properties,
                static_fields,
                methods,
                parents,
            } => {
                if methods.len() == 0 && parents.len() == 0 && properties.len() == 0
                    && static_properties.len() == 0 {
                    TypeKind::Struct { constructors, fields, static_fields }
                } else {
                    TypeKind::Class {
                        is_sealed,
                        constructors,
                        properties,
                        fields,
                        static_properties,
                        static_fields,
                        methods,
                        parents,
                    }
                }
            },
            other => other,
        };
        Type { attrs, vis, namespace, name, id, generics, kind }
    }
}

impl From<Property> for Argument {
    fn from(value: Property) -> (r: Argument)
        ensures
            r@ == ArgumentView(
                value@.attrs,
                value@.prop_type,
                value@.name,
                ArgumentKindView::Default,
            ),
    {
        Argument(value.attrs, value.prop_type, value.name, ArgumentKind::Default)
    }
}

impl vstd::std_specs::convert::FromSpecImpl<Property> for Argument {
    open spec fn obeys_from_spec() -> bool {
        true
    }

    open spec fn from_spec(value: Property) -> Argument {
        Argument(value.attrs, value.prop_type, value.name, ArgumentKind::Default)
    }
}

impl From<Field> for Argument {
    fn from(value: Field) -> (r: Argument)
        ensures
            r@ == ArgumentView(
                value@.attrs,
                value@.field_type,
                value@.name,
                ArgumentKindView::Default,
            ),
    {
        Argument(value.attrs, value.field_type, value.name, ArgumentKind::Default)
    }
}

impl vstd::std_specs::convert::FromSpecImpl<Field> for Argument {
    open spec fn obeys_from_spec() -> bool {
        true
    }

    open spec fn from_spec(value: Field) -> Argument {
        Argument(value.attrs, value.field_type, value.name, ArgumentKind::Default)
    }
}

} // verus!
