use vstd::prelude::*;

use crate::generator::rust_std_lib::{
    first_string_from, has_attribute, seconds_from, strings_from, RustStdLib, RustStdLibView,
};
use crate::generator::{
    all_cross, arguments_cross, exports_method, exports_property, type_crosses, Config,
    ConfigView,
};
use crate::model::{
    Argument, ArgumentKind, ArgumentKindView, ArgumentView, Attribute, AttributeView, Constructor,
    ConstructorView, Generics, GenericsView, Method, MethodKind, MethodView, Package, PackageView,
    Property, PropertyView, Type, TypeKind, TypeKindView, TypeRef, TypeRefView, TypeView, Value,
    ValueView, Visibility,
};
use crate::naming::{
    converted, converted_package, converted_type, rust_conventions, NamingConventions,
    NamingConventionsView, NamingError, NamingErrorView,
};
use crate::text::{
    decimal, i64_to_string, indent, indented, join, join_strings, signed_decimal, u64_to_string,
    without_last,
};

verus! {

/// Why no text could be generated.
#[derive(Debug)]
pub enum GenerateError {
    /// A name of the package does not follow the package's conventions.
    Naming(NamingError),
    /// A constant is of a kind that has no text: an object.
    UnsupportedValue,
    /// A type is referred to by this id alone, and nothing here says which
    /// type that is.
    UnresolvedId(u64),
}

pub ghost enum GenerateErrorView {
    Naming(NamingErrorView),
    UnsupportedValue,
    UnresolvedId(u64),
}

impl View for GenerateError {
    type V = GenerateErrorView;

    open spec fn view(&self) -> GenerateErrorView {
        match self {
            GenerateError::Naming(e) => GenerateErrorView::Naming(e@),
            GenerateError::UnsupportedValue => GenerateErrorView::UnsupportedValue,
            GenerateError::UnresolvedId(id) => GenerateErrorView::UnresolvedId(*id),
        }
    }
}

/// The result of a naming conversion as a result of generation.
pub open spec fn named(r: Result<Seq<char>, NamingErrorView>) -> Result<
    Seq<char>,
    GenerateErrorView,
> {
    match r {
        Ok(s) => Ok(s),
        Err(e) => Err(GenerateErrorView::Naming(e)),
    }
}

/// What is emitted for one item of the host's side: the static that will
/// hold a function, the text of the binding, and the line of the loader
/// that fills the static from the registry.
pub struct Output {
    pub statics: String,
    pub bindings: String,
    pub load: String,
}

pub ghost struct OutputView {
    pub statics: Seq<char>,
    pub bindings: Seq<char>,
    pub load: Seq<char>,
}

impl OutputView {
    /// Nothing.
    pub open spec fn nothing() -> OutputView {
        OutputView { statics: Seq::empty(), bindings: Seq::empty(), load: Seq::empty() }
    }

    /// Only text of bindings.
    pub open spec fn text(bindings: Seq<char>) -> OutputView {
        OutputView { statics: Seq::empty(), bindings, load: Seq::empty() }
    }

    /// This, and after it `next`.
    pub open spec fn followed_by(self, next: OutputView) -> OutputView {
        OutputView {
            statics: self.statics + next.statics,
            bindings: self.bindings + next.bindings,
            load: self.load + next.load,
        }
    }
}

/// `first`, and after it what `rest` gives, if it gives anything.
pub open spec fn before(first: OutputView, rest: Result<OutputView, GenerateErrorView>) -> Result<
    OutputView,
    GenerateErrorView,
> {
    match rest {
        Ok(rest) => Ok(first.followed_by(rest)),
        Err(e) => Err(e),
    }
}

/// What `first` gives, and after it what `rest` gives; the error of the
/// first of the two that fails.
pub open spec fn in_turn(
    first: Result<OutputView, GenerateErrorView>,
    rest: Result<OutputView, GenerateErrorView>,
) -> Result<OutputView, GenerateErrorView> {
    match first {
        Ok(first) => before(first, rest),
        Err(e) => Err(e),
    }
}

impl View for Output {
    type V = OutputView;

    open spec fn view(&self) -> OutputView {
        OutputView { statics: self.statics@, bindings: self.bindings@, load: self.load@ }
    }
}

impl Output {
    /// Nothing.
    pub fn new() -> (e: Output)
        ensures
            e@ == OutputView::nothing(),
    {
        Output { statics: String::new(), bindings: String::new(), load: String::new() }
    }

    /// Appends `next`.
    pub fn push(&mut self, next: &Output)
        ensures
            final(self)@ == old(self)@.followed_by(next@),
    {
        self.statics.append(next.statics.as_str());
        self.bindings.append(next.bindings.as_str());
        self.load.append(next.load.as_str());
    }
}

/// `a`, then `b`, then `c`, however they are grouped.
pub proof fn lemma_output_assoc(a: OutputView, b: OutputView, c: OutputView)
    ensures
        a.followed_by(b).followed_by(c) == a.followed_by(b.followed_by(c)),
{
    assert(a.followed_by(b).followed_by(c).statics =~= a.followed_by(b.followed_by(c)).statics);
    assert(a.followed_by(b).followed_by(c).bindings =~= a.followed_by(b.followed_by(c)).bindings);
    assert(a.followed_by(b).followed_by(c).load =~= a.followed_by(b.followed_by(c)).load);
}

/// Nothing, before or after, changes nothing.
pub proof fn lemma_output_nothing(a: OutputView)
    ensures
        a.followed_by(OutputView::nothing()) == a,
        OutputView::nothing().followed_by(a) == a,
{
    assert(a.followed_by(OutputView::nothing()).statics =~= a.statics);
    assert(a.followed_by(OutputView::nothing()).bindings =~= a.bindings);
    assert(a.followed_by(OutputView::nothing()).load =~= a.load);
    assert(OutputView::nothing().followed_by(a).statics =~= a.statics);
    assert(OutputView::nothing().followed_by(a).bindings =~= a.bindings);
    assert(OutputView::nothing().followed_by(a).load =~= a.load);
}

/// Whether `name` is the name of a primitive type of Rust, which is taken
/// as it is and not respelled.
pub open spec fn is_primitive(name: Seq<char>) -> bool {
    name == "bool"@ || name == "str"@ || name == "char"@ || name == "i8"@ || name == "u8"@
        || name == "i16"@ || name == "u16"@ || name == "i32"@ || name == "u32"@ || name == "i64"@
        || name == "u64"@ || name == "usize"@
}

/// Whether `name` is the name of a primitive type of Rust.
pub fn primitive(name: &str) -> (yes: bool)
    ensures
        yes == is_primitive(name@),
{
    crate::builder::same_text(name, "bool")
        || crate::builder::same_text(name, "str")
        || crate::builder::same_text(name, "char")
        || crate::builder::same_text(name, "i8")
        || crate::builder::same_text(name, "u8")
        || crate::builder::same_text(name, "i16")
        || crate::builder::same_text(name, "u16")
        || crate::builder::same_text(name, "i32")
        || crate::builder::same_text(name, "u32")
        || crate::builder::same_text(name, "i64")
        || crate::builder::same_text(name, "u64")
        || crate::builder::same_text(name, "usize")
}

/// The Rust text of a type reference. A primitive's name stands as it is,
/// any other name is respelled as a type of Rust; a reference by id has no
/// text, and is an error; a generic reference is its base with its arguments in angle
/// brackets, a tuple its items in round brackets, a function `fn`, its
/// arguments in round brackets and, where it returns something, an arrow
/// and what it returns. Items are separated by commas.
pub open spec fn typeref_text(t: TypeRefView, naming: NamingConventionsView) -> Result<
    Seq<char>,
    GenerateErrorView,
>
    decreases t,
{
    match t {
        TypeRefView::Name(name) => if is_primitive(name) {
            Ok(name)
        } else {
            named(converted_type(rust_conventions(), naming, name))
        },
        TypeRefView::Id(id) => Err(GenerateErrorView::UnresolvedId(id)),
        TypeRefView::Generic(base, args) => match typeref_text(*base, naming) {
            Err(e) => Err(e),
            Ok(base) => match typeref_texts(args, naming) {
                Err(e) => Err(e),
                Ok(args) => Ok(base + "<"@ + join(args, ","@) + ">"@),
            },
        },
        TypeRefView::Tuple(items) => match typeref_texts(items, naming) {
            Err(e) => Err(e),
            Ok(items) => Ok("("@ + join(items, ","@) + ")"@),
        },
        TypeRefView::Fn(ret, args) => match typeref_texts(args, naming) {
            Err(e) => Err(e),
            Ok(args) => match ret {
                None => Ok("fn("@ + join(args, ","@) + ")"@),
                Some(ret) => match typeref_text(*ret, naming) {
                    Err(e) => Err(e),
                    Ok(ret) => Ok("fn("@ + join(args, ","@) + ")"@ + " -> "@ + ret),
                },
            },
        },
    }
}

/// The Rust text of each reference, or the error of the first that has none.
pub open spec fn typeref_texts(ts: Seq<TypeRefView>, naming: NamingConventionsView) -> Result<
    Seq<Seq<char>>,
    GenerateErrorView,
>
    decreases ts,
{
    if ts.len() == 0 {
        Ok(Seq::empty())
    } else {
        match typeref_text(ts.first(), naming) {
            Err(e) => Err(e),
            Ok(first) => match typeref_texts(ts.drop_first(), naming) {
                Err(e) => Err(e),
                Ok(rest) => Ok(seq![first] + rest),
            },
        }
    }
}

/// `done`, and after it the texts that `rest` gives, if it gives any.
pub open spec fn texts_after(
    done: Seq<Seq<char>>,
    rest: Result<Seq<Seq<char>>, GenerateErrorView>,
) -> Result<Seq<Seq<char>>, GenerateErrorView> {
    match rest {
        Ok(rest) => Ok(done + rest),
        Err(e) => Err(e),
    }
}

/// The Rust text of each reference.
fn get_typerefs(ts: &Vec<TypeRef>, naming: &NamingConventions, rust: &NamingConventions) -> (r:
    Result<Vec<String>, GenerateError>)
    requires
        rust@ == rust_conventions(),
    ensures
        match r {
            Ok(texts) => typeref_texts(ts.deep_view(), naming@) == Ok::<
                Seq<Seq<char>>,
                GenerateErrorView,
            >(texts.deep_view()),
            Err(e) => typeref_texts(ts.deep_view(), naming@) == Err::<
                Seq<Seq<char>>,
                GenerateErrorView,
            >(e@),
        },
    decreases ts,
{
    let ghost all = ts.deep_view();
    let mut texts: Vec<String> = Vec::new();
    let mut i: usize = 0;
    assert(texts.deep_view() =~= Seq::<Seq<char>>::empty());
    assert(all.skip(0) =~= all);
    while i < ts.len()
        invariant
            i <= ts.len(),
            rust@ == rust_conventions(),
            all == ts.deep_view(),
            typeref_texts(all, naming@) == texts_after(
                texts.deep_view(),
                typeref_texts(all.skip(i as int), naming@),
            ),
        decreases ts.len() - i,
    {
        proof {
            assert(all.skip(i as int).first() == ts@[i as int]@);
            assert(all.skip(i as int).drop_first() =~= all.skip(i + 1));
        }
        match typeref_text_of(&ts[i], naming, rust) {
            Ok(text) => {
                let ghost before = texts.deep_view();
                texts.push(text);
                assert(texts.deep_view() =~= before + seq![text@]);
                assert(forall|rest: Seq<Seq<char>>|
                    (before + seq![text@]) + rest =~= before + (seq![text@] + rest));
            },
            Err(e) => {
                return Err(e);
            },
        }
        i += 1;
    }
    assert(all.skip(ts.len() as int) =~= Seq::<TypeRefView>::empty());
    assert(texts.deep_view() + Seq::<Seq<char>>::empty() =~= texts.deep_view());
    Ok(texts)
}

/// The Rust text of a type reference.
fn typeref_text_of(typeref: &TypeRef, naming: &NamingConventions, rust: &NamingConventions) -> (r:
    Result<String, GenerateError>)
    requires
        rust@ == rust_conventions(),
    ensures
        match r {
            Ok(text) => typeref_text(typeref@, naming@) == Ok::<Seq<char>, GenerateErrorView>(
                text@,
            ),
            Err(e) => typeref_text(typeref@, naming@) == Err::<Seq<char>, GenerateErrorView>(e@),
        },
    decreases typeref,
{
    proof {
        crate::model::lemma_typeref_view(*typeref);
    }
    let mut name = String::new();
    match typeref {
        TypeRef::Name(referred) => {
            if primitive(referred.as_str()) {
                name.append(referred.as_str());
            } else {
                match rust.convert_type(referred.as_str(), naming) {
                    Ok(converted) => {
                        name.append(converted.as_str());
                    },
                    Err(e) => {
                        return Err(GenerateError::Naming(e));
                    },
                }
            }
        },
        TypeRef::Id(id) => {
            return Err(GenerateError::UnresolvedId(*id));
        },
        TypeRef::Generic(parent, generics) => {
            match typeref_text_of(parent, naming, rust) {
                Ok(base) => {
                    name.append(base.as_str());
                },
                Err(e) => {
                    return Err(e);
                },
            }
            name.append("<");
            match get_typerefs(generics, naming, rust) {
                Ok(texts) => {
                    name.append(join_strings(&texts, ",").as_str());
                },
                Err(e) => {
                    return Err(e);
                },
            }
            name.append(">");
        },
        TypeRef::Tuple(types) => {
            name.append("(");
            match get_typerefs(types, naming, rust) {
                Ok(texts) => {
                    name.append(join_strings(&texts, ",").as_str());
                },
                Err(e) => {
                    return Err(e);
                },
            }
            name.append(")");
        },
        TypeRef::Fn(ret_type, args) => {
            name.append("fn(");
            match get_typerefs(args, naming, rust) {
                Ok(texts) => {
                    name.append(join_strings(&texts, ",").as_str());
                },
                Err(e) => {
                    return Err(e);
                },
            }
            name.append(")");
            match ret_type {
                Some(return_type) => {
                    name.append(" -> ");
                    match typeref_text_of(return_type, naming, rust) {
                        Ok(text) => {
                            name.append(text.as_str());
                        },
                        Err(e) => {
                            return Err(e);
                        },
                    }
                },
                None => {},
            }
        },
    }
    assert(Ok::<Seq<char>, GenerateErrorView>(name@) =~~= typeref_text(typeref@, naming@));
    Ok(name)
}

/// The Rust text of a type reference of a package that is spelled in
/// `naming`.
pub fn get_typeref(typeref: &TypeRef, naming: &NamingConventions) -> (r: Result<
    String,
    GenerateError,
>)
    ensures
        match r {
            Ok(text) => typeref_text(typeref@, naming@) == Ok::<Seq<char>, GenerateErrorView>(
                text@,
            ),
            Err(e) => typeref_text(typeref@, naming@) == Err::<Seq<char>, GenerateErrorView>(e@),
        },
{
    let rust = NamingConventions::rust();
    typeref_text_of(typeref, naming, &rust)
}

/// The text of a constant. Null is `None`; a number is in decimal; a
/// string is itself, without quotes; an array is in square brackets, a
/// tuple in round brackets, the items separated by commas; a float and a
/// double are the text that they hold. An object has no text.
pub open spec fn value_text(v: ValueView) -> Result<Seq<char>, GenerateErrorView>
    decreases v,
{
    match v {
        ValueView::Null => Ok("None"@),
        ValueView::Bool(b) => Ok(
            if b {
                "true"@
            } else {
                "false"@
            },
        ),
        ValueView::Byte(n) => Ok(decimal(n as nat)),
        ValueView::Short(n) => Ok(signed_decimal(n as int)),
        ValueView::Int(n) => Ok(signed_decimal(n as int)),
        ValueView::Long(n) => Ok(signed_decimal(n as int)),
        ValueView::SByte(n) => Ok(signed_decimal(n as int)),
        ValueView::UShort(n) => Ok(decimal(n as nat)),
        ValueView::UInt(n) => Ok(decimal(n as nat)),
        ValueView::ULong(n) => Ok(decimal(n as nat)),
        ValueView::Float(_, text) => Ok(text),
        ValueView::Double(_, text) => Ok(text),
        ValueView::String(s) => Ok(s),
        ValueView::Array(items) => match value_texts(items) {
            Err(e) => Err(e),
            Ok(items) => Ok("["@ + join(items, ","@) + "]"@),
        },
        ValueView::Tuple(items) => match value_texts(items) {
            Err(e) => Err(e),
            Ok(items) => Ok("("@ + join(items, ","@) + ")"@),
        },
        ValueView::Object(_) => Err(GenerateErrorView::UnsupportedValue),
    }
}

/// The text of each constant, or the error of the first that has none.
pub open spec fn value_texts(vs: Seq<ValueView>) -> Result<Seq<Seq<char>>, GenerateErrorView>
    decreases vs,
{
    if vs.len() == 0 {
        Ok(Seq::empty())
    } else {
        match value_text(vs.first()) {
            Err(e) => Err(e),
            Ok(first) => match value_texts(vs.drop_first()) {
                Err(e) => Err(e),
                Ok(rest) => Ok(seq![first] + rest),
            },
        }
    }
}

/// The text of each constant.
fn get_values(vs: &Vec<Value>) -> (r: Result<Vec<String>, GenerateError>)
    ensures
        match r {
            Ok(texts) => value_texts(vs.deep_view()) == Ok::<Seq<Seq<char>>, GenerateErrorView>(
                texts.deep_view(),
            ),
            Err(e) => value_texts(vs.deep_view()) == Err::<Seq<Seq<char>>, GenerateErrorView>(e@),
        },
    decreases vs,
{
    let ghost all = vs.deep_view();
    let mut texts: Vec<String> = Vec::new();
    let mut i: usize = 0;
    assert(texts.deep_view() =~= Seq::<Seq<char>>::empty());
    assert(all.skip(0) =~= all);
    while i < vs.len()
        invariant
            i <= vs.len(),
            all == vs.deep_view(),
            value_texts(all) == texts_after(texts.deep_view(), value_texts(all.skip(i as int))),
        decreases vs.len() - i,
    {
        proof {
            assert(all.skip(i as int).first() == vs@[i as int]@);
            assert(all.skip(i as int).drop_first() =~= all.skip(i + 1));
        }
        match get_value(&vs[i]) {
            Ok(text) => {
                let ghost before = texts.deep_view();
                texts.push(text);
                assert(texts.deep_view() =~= before + seq![text@]);
                assert(forall|rest: Seq<Seq<char>>|
                    (before + seq![text@]) + rest =~= before + (seq![text@] + rest));
            },
            Err(e) => {
                return Err(e);
            },
        }
        i += 1;
    }
    assert(all.skip(vs.len() as int) =~= Seq::<ValueView>::empty());
    assert(texts.deep_view() + Seq::<Seq<char>>::empty() =~= texts.deep_view());
    Ok(texts)
}

/// The text of a constant.
pub fn get_value(value: &Value) -> (r: Result<String, GenerateError>)
    ensures
        match r {
            Ok(text) => value_text(value@) == Ok::<Seq<char>, GenerateErrorView>(text@),
            Err(e) => value_text(value@) == Err::<Seq<char>, GenerateErrorView>(e@),
        },
    decreases value,
{
    proof {
        crate::model::lemma_value_view(*value);
    }
    match value {
        Value::Null => Ok(String::from_str("None")),
        Value::Bool(b) => Ok(
            String::from_str(
                if *b {
                    "true"
                } else {
                    "false"
                },
            ),
        ),
        Value::Byte(n) => Ok(u64_to_string(*n as u64)),
        Value::Short(n) => Ok(i64_to_string(*n as i64)),
        Value::Int(n) => Ok(i64_to_string(*n as i64)),
        Value::Long(n) => Ok(i64_to_string(*n)),
        Value::SByte(n) => Ok(i64_to_string(*n as i64)),
        Value::UShort(n) => Ok(u64_to_string(*n as u64)),
        Value::UInt(n) => Ok(u64_to_string(*n as u64)),
        Value::ULong(n) => Ok(u64_to_string(*n)),
        Value::Float(_, text) => Ok(text.clone()),
        Value::Double(_, text) => Ok(text.clone()),
        Value::String(s) => Ok(s.clone()),
        Value::Array(items) => {
            match get_values(items) {
                Ok(texts) => {
                    let mut result = String::from_str("[");
                    result.append(join_strings(&texts, ",").as_str());
                    result.append("]");
                    Ok(result)
                },
                Err(e) => Err(e),
            }
        },
        Value::Tuple(items) => {
            match get_values(items) {
                Ok(texts) => {
                    let mut result = String::from_str("(");
                    result.append(join_strings(&texts, ",").as_str());
                    result.append(")");
                    Ok(result)
                },
                Err(e) => Err(e),
            }
        },
        Value::Object(_) => Err(GenerateError::UnsupportedValue),
    }
}

/// `'a, ` for each lifetime `a`.
pub open spec fn lifetime_parameters(lifetimes: Seq<Seq<char>>) -> Seq<char>
    decreases lifetimes.len(),
{
    if lifetimes.len() == 0 {
        Seq::empty()
    } else {
        lifetime_parameters(lifetimes.drop_last()) + "'"@ + lifetimes.last() + ", "@
    }
}

/// Each lifetime with its tick before it.
pub open spec fn ticked(lifetimes: Seq<Seq<char>>) -> Seq<Seq<char>> {
    Seq::new(lifetimes.len(), |i: int| "'"@ + lifetimes[i])
}

/// The types that bound the generic parameter `generic`, in the order of
/// the `where` bounds.
pub open spec fn bounds_of(wheres: Seq<(Seq<char>, TypeRefView)>, generic: Seq<char>) -> Seq<
    TypeRefView,
>
    decreases wheres.len(),
{
    if wheres.len() == 0 {
        Seq::empty()
    } else if wheres.last().0 == generic {
        bounds_of(wheres.drop_last(), generic).push(wheres.last().1)
    } else {
        bounds_of(wheres.drop_last(), generic)
    }
}

/// What follows a generic parameter that lifetimes bound: a colon and the
/// lifetimes, with ` + ` between each two.
pub open spec fn lifetime_bounds(lifetimes: Seq<Seq<char>>) -> Seq<char> {
    if lifetimes.len() > 0 {
        ":"@ + join(ticked(lifetimes), " + "@)
    } else {
        Seq::empty()
    }
}

/// What follows a generic parameter that types bound: a colon, or a plus
/// where lifetime bounds came before, and the types with `+` between each
/// two.
pub open spec fn type_bounds(after_lifetimes: bool, bounds: Seq<Seq<char>>) -> Seq<char> {
    if bounds.len() > 0 {
        (if after_lifetimes {
            "+"@
        } else {
            ":"@
        }) + join(bounds, "+"@)
    } else {
        Seq::empty()
    }
}

/// A generic parameter, with its bounds where they are asked for.
pub open spec fn generic_text(
    lib: RustStdLibView,
    generics: GenericsView,
    attrs: Seq<AttributeView>,
    naming: NamingConventionsView,
    generic: Seq<char>,
    with_where: bool,
) -> Result<Seq<char>, GenerateErrorView> {
    if !with_where {
        Ok(generic)
    } else {
        let lifetimes = seconds_from(attrs, lib.lifetime_generic_attribute.id, generic, 0);
        match typeref_texts(bounds_of(generics.1, generic), naming) {
            Err(e) => Err(e),
            Ok(bounds) => Ok(
                generic + lifetime_bounds(lifetimes) + type_bounds(lifetimes.len() > 0, bounds),
            ),
        }
    }
}

/// Each of the generic parameters `names`, or the error of the first that
/// has no text.
pub open spec fn generic_texts(
    lib: RustStdLibView,
    generics: GenericsView,
    attrs: Seq<AttributeView>,
    naming: NamingConventionsView,
    names: Seq<Seq<char>>,
    with_where: bool,
) -> Result<Seq<Seq<char>>, GenerateErrorView>
    decreases names.len(),
{
    if names.len() == 0 {
        Ok(Seq::empty())
    } else {
        match generic_text(lib, generics, attrs, naming, names.first(), with_where) {
            Err(e) => Err(e),
            Ok(first) => match generic_texts(
                lib,
                generics,
                attrs,
                naming,
                names.drop_first(),
                with_where,
            ) {
                Err(e) => Err(e),
                Ok(rest) => Ok(seq![first] + rest),
            },
        }
    }
}

/// The generic parameters of a type or a method, in angle brackets: first
/// the lifetimes that its `Lifetime` attributes name, then the generic
/// parameters. Nothing where there are no generic parameters.
pub open spec fn generics_text(
    lib: RustStdLibView,
    generics: GenericsView,
    attrs: Seq<AttributeView>,
    naming: NamingConventionsView,
    with_where: bool,
) -> Result<Seq<char>, GenerateErrorView> {
    if generics.0.len() == 0 {
        Ok(Seq::empty())
    } else {
        match generic_texts(lib, generics, attrs, naming, generics.0, with_where) {
            Err(e) => Err(e),
            Ok(texts) => Ok(
                "<"@ + lifetime_parameters(strings_from(attrs, lib.lifetime_attribute.id, 0))
                    + join(texts, ", "@) + ">"@,
            ),
        }
    }
}

/// The name of a type as Rust spells it: an interface by the interface
/// convention, any other type by the type convention.
pub open spec fn rust_type_name(t: TypeView, naming: NamingConventionsView) -> Result<
    Seq<char>,
    GenerateErrorView,
> {
    if t.kind is Interface {
        named(converted(rust_conventions().interface, naming.interface, t.name))
    } else {
        named(converted(rust_conventions().base_type, naming.base_type, t.name))
    }
}

/// The name of a type as Rust spells it, with its generic parameters.
pub open spec fn type_name_text(
    lib: RustStdLibView,
    t: TypeView,
    naming: NamingConventionsView,
    with_where: bool,
) -> Result<Seq<char>, GenerateErrorView> {
    match rust_type_name(t, naming) {
        Err(e) => Err(e),
        Ok(name) => match generics_text(lib, t.generics, t.attrs, naming, with_where) {
            Err(e) => Err(e),
            Ok(generics) => Ok(name + generics),
        },
    }
}

/// The lifetime of an argument, as it stands in the argument's type.
pub open spec fn lifetime_text(lib: RustStdLibView, attrs: Seq<AttributeView>) -> Seq<char> {
    match first_string_from(attrs, lib.lifetime_attribute.id, 0) {
        Some(lifetime) => "'"@ + lifetime + " "@,
        None => Seq::empty(),
    }
}

/// What stands before the type of an argument in a signature: nothing for
/// an argument passed by value, `&` and `mut` for one that is written
/// through, `&` for one that is only read.
pub open spec fn passing_prefix(kind: ArgumentKindView, lifetime: Seq<char>) -> Seq<char> {
    if kind is Out || kind is Ref {
        "&"@ + lifetime + "mut "@
    } else if kind is In {
        "&"@ + lifetime
    } else {
        Seq::empty()
    }
}

/// One argument of a signature: its name as Rust spells parameters, a
/// colon, its type.
pub open spec fn argument_text(
    lib: RustStdLibView,
    arg: ArgumentView,
    naming: NamingConventionsView,
) -> Result<Seq<char>, GenerateErrorView> {
    match named(converted(rust_conventions().parameter, naming.parameter, arg.2)) {
        Err(e) => Err(e),
        Ok(name) => match typeref_text(arg.1, naming) {
            Err(e) => Err(e),
            Ok(ty) => Ok(name + ":"@ + passing_prefix(arg.3, lifetime_text(lib, arg.0)) + ty),
        },
    }
}

/// Each argument of a signature, or the error of the first that has no
/// text.
pub open spec fn argument_texts(
    lib: RustStdLibView,
    args: Seq<ArgumentView>,
    naming: NamingConventionsView,
) -> Result<Seq<Seq<char>>, GenerateErrorView>
    decreases args.len(),
{
    if args.len() == 0 {
        Ok(Seq::empty())
    } else {
        match argument_text(lib, args.first(), naming) {
            Err(e) => Err(e),
            Ok(first) => match argument_texts(lib, args.drop_first(), naming) {
                Err(e) => Err(e),
                Ok(rest) => Ok(seq![first] + rest),
            },
        }
    }
}

/// The arguments of a signature, with a comma and a space between each two.
pub open spec fn arguments_text(
    lib: RustStdLibView,
    args: Seq<ArgumentView>,
    naming: NamingConventionsView,
) -> Result<Seq<char>, GenerateErrorView> {
    match argument_texts(lib, args, naming) {
        Err(e) => Err(e),
        Ok(texts) => Ok(join(texts, ", "@)),
    }
}

/// What stands before the type of an argument in its slot of the buffer: a
/// slot holds the value itself for an argument passed by value, and a
/// reference to storage that stays the caller's for any other.
pub open spec fn slot_prefix(kind: ArgumentKindView) -> Seq<char> {
    if kind is Out || kind is Ref {
        "&mut "@
    } else if kind is In {
        "&"@
    } else {
        Seq::empty()
    }
}

/// The type of each argument's slot, or the error of the first type that
/// has no text.
pub open spec fn slot_types(args: Seq<ArgumentView>, naming: NamingConventionsView) -> Result<
    Seq<Seq<char>>,
    GenerateErrorView,
>
    decreases args.len(),
{
    if args.len() == 0 {
        Ok(Seq::empty())
    } else {
        match typeref_text(args.first().1, naming) {
            Err(e) => Err(e),
            Ok(first) => match slot_types(args.drop_first(), naming) {
                Err(e) => Err(e),
                Ok(rest) => Ok(seq![slot_prefix(args.first().3) + first] + rest),
            },
        }
    }
}

/// The names of the arguments, as the model spells them.
pub open spec fn argument_names(args: Seq<ArgumentView>) -> Seq<Seq<char>> {
    Seq::new(args.len(), |i: int| args[i].2)
}

/// The size of a slot of type `ty`.
pub open spec fn size_text(ty: Seq<char>) -> Seq<char> {
    "std::mem::size_of::<"@ + ty + ">()"@
}

/// The sum of the sizes of the slots: the size of the buffer that holds
/// them, and the offset of the slot that would come next.
pub open spec fn sizes_sum(slots: Seq<Seq<char>>) -> Seq<char>
    decreases slots.len(),
{
    if slots.len() == 0 {
        Seq::empty()
    } else if slots.len() == 1 {
        size_text(slots[0])
    } else {
        sizes_sum(slots.drop_last()) + " + "@ + size_text(slots.last())
    }
}

/// The statement that writes `value` into its slot, of type `ty`, at
/// `offset`. The first slot is at the start of the buffer.
pub open spec fn assignment(offset: Seq<char>, ty: Seq<char>, value: Seq<char>) -> Seq<char> {
    if offset.len() == 0 {
        "*(args_ptr as *mut "@
            + ty
            + ") = "@
            + value
            + ";"@
    } else {
        "*(args_ptr.add("@
            + offset
            + ") as *mut "@
            + ty
            + ") = "@
            + value
            + ";"@
    }
}

/// The statements that write each value into its slot: slot `k` is at the
/// sum of the sizes of the slots before it.
pub open spec fn assignments(slots: Seq<Seq<char>>, values: Seq<Seq<char>>) -> Seq<Seq<char>> {
    Seq::new(slots.len(), |k: int| assignment(sizes_sum(slots.take(k)), slots[k], values[k]))
}

/// The slots of a call: the receiver's, of the size of a pointer, where
/// there is a receiver, then one for each argument in the declared order.
pub open spec fn call_slots(with_self: bool, types: Seq<Seq<char>>) -> Seq<Seq<char>> {
    (if with_self {
        seq!["Ptr"@]
    } else {
        Seq::empty()
    }) + types
}

/// The values that go into the slots of a call.
pub open spec fn call_values(with_self: bool, names: Seq<Seq<char>>) -> Seq<Seq<char>> {
    (if with_self {
        seq!["self.ptr"@]
    } else {
        Seq::empty()
    }) + names
}

/// The statements that fill the slots of a call, one line each.
pub open spec fn packed_assignments(
    with_self: bool,
    types: Seq<Seq<char>>,
    names: Seq<Seq<char>>,
) -> Seq<char> {
    join(
        assignments(call_slots(with_self, types), call_values(with_self, names)),
        "\n\t\t\t\t\t"@,
    )
}

/// The statements that pack the arguments of a call: one buffer, as large
/// as the slots together, filled slot by slot in the declared order.
/// Nothing where there is neither receiver nor argument.
pub open spec fn packing(with_self: bool, types: Seq<Seq<char>>, names: Seq<Seq<char>>) -> Seq<
    char,
> {
    if types.len() > 0 || with_self {
        "\n"@
            + "                let args_size = "@
            + sizes_sum(call_slots(with_self, types))
            + ";\n"@
            + "                let mut args_buf = vec![0u8; args_size];\n"@
            + "                let args_ptr = args_buf.as_mut_ptr();\n"@
            + "                unsafe {\n"@
            + "                    "@
            + packed_assignments(with_self, types, names)
            + "\n"@
            + "                }"@
    } else {
        Seq::empty()
    }
}

/// What a call passes to the function behind it: the size of the buffer
/// and the buffer, or zero and null where nothing was packed.
pub open spec fn passed(with_self: bool, types: Seq<Seq<char>>) -> Seq<char> {
    if types.len() > 0 || with_self {
        "args_size, args_ptr"@
    } else {
        "0, std::ptr::null_mut()"@
    }
}

/// The visibility of a generated item.
pub open spec fn vis_text(vis: Visibility) -> Seq<char> {
    if vis == Visibility::Public {
        "pub "@
    } else {
        "pub(crate) "@
    }
}

/// The name of a property as Rust spells it: by the property convention
/// where its getter is public, by that of private fields otherwise.
pub open spec fn property_name(p: PropertyView, naming: NamingConventionsView) -> Result<
    Seq<char>,
    GenerateErrorView,
> {
    if p.getter_visibility == Visibility::Public {
        named(converted(rust_conventions().property, naming.property, p.name))
    } else {
        named(converted(rust_conventions().private_field, naming.private_field, p.name))
    }
}

/// The variable that holds a property looked up in the loader.
pub open spec fn property_variable(parent: Seq<char>, name: Seq<char>) -> Seq<char> {
    parent + "_"@ + name + "_prop"@
}

/// The line of the loader that looks a property up.
pub open spec fn property_lookup(parent: Seq<char>, name: Seq<char>, id: u64) -> Seq<char> {
    "let "@
        + property_variable(parent, name)
        + " = "@
        + parent
        + "_type.get_property("@
        + decimal(id as nat)
        + ");\n"@
}

/// The getter of a property. In a type (`parent` names it) the getter
/// calls the function that the loader found, and takes the value out of
/// the allocation that comes back; a null address is an error there. In
/// an interface (`parent` is `None`) it is a signature.
pub open spec fn getter_output(
    config: ConfigView,
    p: PropertyView,
    name: Seq<char>,
    ty: Seq<char>,
    parent: Option<Seq<char>>,
) -> OutputView {
    if !Config::passes(config, p.getter_visibility) {
        OutputView::nothing()
    } else {
        match parent {
            Some(parent) => OutputView {
                statics: "static mut "@
                    + (parent + "_"@ + name + "_getter"@)
                    + ": Option<extern \"C\" fn(Ptr) -> Ptr> = None;\n"@,
                bindings: "\t"@ + vis_text(p.getter_visibility) + "fn get_"@ + name
                    + "(&self) -> "@ + ty + " {\n"@
                        + "\t\tunsafe {\n"@
                        + "\t\t\tlet raw_ptr: *mut "@
                        + ty
                        + " = "@
                        + (parent + "_"@ + name + "_getter"@)
                        + ".unwrap()(self.ptr) as *mut "@
                        + ty
                        + ";\n"@
                        + "\t\t\tif !raw_ptr.is_null() {\n"@
                        + "\t\t\t\t*Box::from_raw(raw_ptr)\n"@
                        + "\t\t\t} else {\n"@
                        + "\t\t\t\tpanic!(\"Pointer of gotten property is null\")\n"@
                        + "\t\t\t}\n"@
                        + "\t\t}\n"@
                        + "\t}\n"@,
                load: property_lookup(parent, name, p.id) + (parent + "_"@ + name + "_getter"@)
                    + " = Some("@
                    + property_variable(parent, name)
                    + ".getter);\n"@,
            },
            None => OutputView::text(
                "\t"@ + vis_text(p.getter_visibility) + "fn get_"@ + name + "(&self) -> "@ + ty
                    + ";\n"@,
            ),
        }
    }
}

/// Whether the setter of a property is generated.
pub open spec fn with_setter(config: ConfigView, p: PropertyView) -> bool {
    match p.setter_visibility {
        Some(vis) => Config::passes(config, vis),
        None => false,
    }
}

/// The setter of a property, where it has one that is visible enough. In
/// a type the loader takes the setter from the property that it looked up
/// for the getter.
pub open spec fn setter_output(
    config: ConfigView,
    p: PropertyView,
    name: Seq<char>,
    ty: Seq<char>,
    parent: Option<Seq<char>>,
) -> OutputView {
    if !with_setter(config, p) {
        OutputView::nothing()
    } else {
        match parent {
            Some(parent) => OutputView {
                statics: "static mut "@
                    + (parent + "_"@ + name + "_setter"@)
                    + ": Option<extern \"C\" fn(Ptr, Ptr)> = None;\n"@,
                bindings: "\t"@ + vis_text(p.setter_visibility->Some_0) + "fn set_"@ + name
                    + "(&mut self, value: "@ + ty + ")"@ + " {\n"@
                        + "\t\tunsafe { "@
                        + (parent + "_"@ + name + "_setter"@)
                        + ".unwrap()(self.ptr, &value as *const "@
                        + ty
                        + " as Ptr); }\n"@
                        + "\t}\n"@,
                load: (parent + "_"@ + name + "_setter"@)
                    + " = Some("@
                    + property_variable(parent, name)
                    + ".setter.unwrap());\n"@,
            },
            None => OutputView::text(
                "\t"@ + vis_text(p.setter_visibility->Some_0) + "fn set_"@ + name
                    + "(&mut self, value: "@ + ty + ")"@ + ";\n"@,
            ),
        }
    }
}

/// What is generated for a property: its getter, then its setter. Of an
/// interface (`parent` is `None`) these are signatures. Nothing is
/// generated for a property of a type that does not cross the boundary:
/// the library registers no function for it.
pub open spec fn property_output(
    config: ConfigView,
    naming: NamingConventionsView,
    p: PropertyView,
    parent: Option<Seq<char>>,
) -> Result<OutputView, GenerateErrorView> {
    if parent is Some && !exports_property(config, p) {
        Ok(OutputView::nothing())
    } else {
        match property_name(p, naming) {
            Err(e) => Err(e),
            Ok(name) => match typeref_text(p.prop_type, naming) {
                Err(e) => Err(e),
                Ok(ty) => Ok(
                    getter_output(config, p, name, ty, parent).followed_by(
                        setter_output(config, p, name, ty, parent),
                    ),
                ),
            },
        }
    }
}

/// The name of a generated constructor: that of its `ConstructorFnName`
/// attribute, or the configured name with the constructor's index.
pub open spec fn constructor_name(
    lib: RustStdLibView,
    config: ConfigView,
    c: ConstructorView,
    index: nat,
) -> Seq<char> {
    match first_string_from(c.attrs, lib.constructor_name_attribute.id, 0) {
        Some(name) => name,
        None => config.ctor_name + decimal(index),
    }
}

/// The static that holds the function of the constructor number `index`.
pub open spec fn constructor_static(ty_name: Seq<char>, index: nat) -> Seq<char> {
    ty_name + "_ctor"@ + decimal(index)
}

/// A constructor, given the texts of its arguments and of its slots: it
/// packs the arguments, calls the function that the loader found, and
/// wraps the address that comes back; a null address is an error there.
pub open spec fn constructor_text(
    lib: RustStdLibView,
    config: ConfigView,
    c: ConstructorView,
    ty_name: Seq<char>,
    index: nat,
    args: Seq<char>,
    slots: Seq<Seq<char>>,
) -> OutputView {
    OutputView {
        statics: "static mut "@
            + constructor_static(ty_name, index)
            + ": Option<Fn> = None;\n"@,
        bindings: "\t"@ + vis_text(c.vis) + "fn "@ + constructor_name(lib, config, c, index) + "("@
            + args + ") -> Self {\n"@
                + "\t\tunsafe {\n"@
                + "\t\t\tif let Some(ctor_func) = "@
                + constructor_static(ty_name, index)
                + " {"@ + packing(
            false,
            slots,
            argument_names(c.args),
        ) + "\n"@
            + "                let this = ctor_func("@
            + passed(false, slots)
            + ");\n"@
            + "                if !this.is_null() {\n"@
            + "                    Self {\n"@
            + "                        ptr: this\n"@
            + "                    }\n"@
            + "                } else {\n"@
            + "                    panic!(\"Pointer of constructor result is null\")\n"@
            + "                }\n"@
            + "            }\n"@
            + "            else {\n"@
            + "                panic!(\"Constructor wasn't loaded\")\n"@
            + "            }\n"@
            + "        }\n"@
            + "    }\n"@,
        load: constructor_fetch(ty_name, index),
    }
}

/// The line of the loader that fetches the function of the constructor
/// number `index`.
pub open spec fn constructor_fetch(ty_name: Seq<char>, index: nat) -> Seq<char> {
    constructor_static(ty_name, index)
        + " = Some("@
        + ty_name
        + "_type.get_ctor("@
        + decimal(index)
        + ").clone());\n"@
}

/// What is generated for the constructor number `index` of a type. Nothing
/// for a constructor that is not visible enough, or that takes an argument
/// whose type is not given by name. The numbers of the others stay as they
/// are: a constructor is fetched at its index among all the constructors.
pub open spec fn constructor_output(
    lib: RustStdLibView,
    config: ConfigView,
    naming: NamingConventionsView,
    c: ConstructorView,
    ty_name: Seq<char>,
    index: nat,
) -> Result<OutputView, GenerateErrorView> {
    if !Config::passes(config, c.vis) || !all_cross(c.args) {
        Ok(OutputView::nothing())
    } else {
        match arguments_text(lib, c.args, naming) {
            Err(e) => Err(e),
            Ok(args) => match slot_types(c.args, naming) {
                Err(e) => Err(e),
                Ok(slots) => Ok(constructor_text(lib, config, c, ty_name, index, args, slots)),
            },
        }
    }
}

/// The receiver in the signature of a method.
pub open spec fn receiver_text(lib: RustStdLibView, m: MethodView) -> Seq<char> {
    if m.kind == MethodKind::Static {
        Seq::empty()
    } else if has_attribute(m.attrs, lib.reference_attribute.id) {
        if has_attribute(m.attrs, lib.mutable_attribute.id) {
            "&mut self"@
        } else {
            "&self"@
        }
    } else if has_attribute(m.attrs, lib.mutable_attribute.id) {
        "mut self"@
    } else {
        "self"@
    }
}

/// What the body of a method does with what the call returns: nothing
/// where the method returns nothing; else it takes the value out of the
/// allocation that comes back, and a null address is an error.
pub open spec fn receiving(passed: Seq<char>, ret: Option<Seq<char>>) -> Seq<char> {
    match ret {
        None => "\n"@
            + "\t\t\t\tmethod_func("@
            + passed
            + ");"@,
        Some(ret) => "\n"@
            + "                let raw_ptr = method_func("@
            + passed
            + ");\n"@
            + "                if !raw_ptr.is_null() {\n"@
            + "                    *Box::from_raw(raw_ptr as *mut "@
            + ret
            + ")\n"@
            + "                } else {\n"@
            + "                    panic!(\"Pointer of method result is null\")\n"@
            + "                }"@,
    }
}

/// The signature of a method: its name, the receiver and the arguments in
/// round brackets and, where the method returns something, an arrow and
/// what it returns.
pub open spec fn method_signature(
    lib: RustStdLibView,
    m: MethodView,
    name: Seq<char>,
    ret: Option<Seq<char>>,
    args: Seq<char>,
) -> Seq<char> {
    "fn "@ + name + "("@ + receiver_text(lib, m) + (if receiver_text(lib, m).len() > 0
        && m.args.len() > 0 {
        ", "@
    } else {
        Seq::empty()
    }) + args + ")"@ + (match ret {
        Some(ret) => " -> "@ + ret,
        None => Seq::empty(),
    })
}

/// What closes the body of a method.
pub open spec fn method_end() -> Seq<char> {
    "\n"@
        + "            }\n"@
        + "            else {\n"@
        + "                panic!(\"Constructor wasn't loaded\")\n"@
        + "            }\n"@
        + "        }\n"@
        + "    }\n"@
}

/// A method, given its name as Rust spells it and the texts of what it
/// returns, of its arguments and of its slots. An abstract method is a
/// signature; any other packs the receiver and the arguments and calls the
/// function that the loader found.
pub open spec fn method_text(
    lib: RustStdLibView,
    m: MethodView,
    ty_name: Seq<char>,
    name: Seq<char>,
    ret: Option<Seq<char>>,
    args: Seq<char>,
    slots: Seq<Seq<char>>,
) -> OutputView {
    let signature = method_signature(lib, m, name, ret, args);
    if m.kind == MethodKind::Abstract {
        OutputView::text("\t"@ + signature + ";\n"@)
    } else {
        OutputView {
            statics: "static mut "@
                + (ty_name + "_"@ + name)
                + ": Option<Fn> = None;\n"@,
            bindings: "\t"@ + vis_text(m.vis) + signature + " {\n"@
                + "\t\tunsafe {\n"@
                + "\t\t\tif let Some(method_func) = "@
                + (ty_name + "_"@ + name)
                + " {"@ + packing(
                m.kind != MethodKind::Static,
                slots,
                argument_names(m.args),
            ) + receiving(passed(m.kind != MethodKind::Static, slots), ret) + method_end(),
            load: (ty_name + "_"@ + name)
                + " = Some("@
                + ty_name
                + "_type.get_method("@
                + decimal(m.id as nat)
                + ").clone());\n"@,
        }
    }
}

/// What stands before the type that a method returns.
pub open spec fn return_prefix(lib: RustStdLibView, attrs: Seq<AttributeView>) -> Seq<char> {
    match first_string_from(attrs, lib.return_attribute.id, 0) {
        Some(prefix) => prefix,
        None => Seq::empty(),
    }
}

/// The text of what a method returns, if it returns anything.
pub open spec fn return_text(
    lib: RustStdLibView,
    m: MethodView,
    naming: NamingConventionsView,
) -> Result<Option<Seq<char>>, GenerateErrorView> {
    match m.return_type {
        None => Ok(None),
        Some(ret) => match typeref_text(ret, naming) {
            Err(e) => Err(e),
            Ok(text) => Ok(Some(return_prefix(lib, m.attrs) + text)),
        },
    }
}

/// What is generated for a method of a type. Nothing for a method that is
/// not visible enough, nor for one with a body that does not cross the
/// boundary: the library registers no function for it.
pub open spec fn method_output(
    lib: RustStdLibView,
    config: ConfigView,
    naming: NamingConventionsView,
    m: MethodView,
    ty_name: Seq<char>,
) -> Result<OutputView, GenerateErrorView> {
    if !Config::passes(config, m.vis) || (m.kind != MethodKind::Abstract && !exports_method(
        config,
        m,
    )) {
        Ok(OutputView::nothing())
    } else {
        match named(converted(rust_conventions().method, naming.method, m.name)) {
            Err(e) => Err(e),
            Ok(name) => match return_text(lib, m, naming) {
                Err(e) => Err(e),
                Ok(ret) => match arguments_text(lib, m.args, naming) {
                    Err(e) => Err(e),
                    Ok(args) => if m.kind == MethodKind::Abstract {
                        Ok(method_text(lib, m, ty_name, name, ret, args, Seq::empty()))
                    } else {
                        match slot_types(m.args, naming) {
                            Err(e) => Err(e),
                            Ok(slots) => Ok(method_text(lib, m, ty_name, name, ret, args, slots)),
                        }
                    },
                },
            },
        }
    }
}

/// The `Drop` of a generated type: it calls the destructor that the loader
/// found for this very type. The object is freed there and nowhere else.
pub open spec fn drop_output(
    lib: RustStdLibView,
    naming: NamingConventionsView,
    t: TypeView,
    load_name: Seq<char>,
) -> Result<OutputView, GenerateErrorView> {
    match generics_text(lib, t.generics, t.attrs, naming, true) {
        Err(e) => Err(e),
        Ok(generics) => match type_name_text(lib, t, naming, false) {
            Err(e) => Err(e),
            Ok(name) => Ok(
                OutputView {
                    statics: "static mut "@
                        + (t.name + "_dtor"@)
                        + ": Option<FnDtor> = None;\n"@,
                    bindings: "\n\nimpl"@
                        + generics
                        + " Drop for "@
                        + name
                        + " {\n"@
                        + "\tfn drop(&mut self) {\n"@
                        + "\t\tunsafe {\n"@
                        + "\t\t\t"@
                        + (t.name + "_dtor"@)
                        + ".expect(\"Destructor wasn't loaded from library\")(self.ptr);\n"@
                        + "\t\t}\n"@
                        + "\t}\n"@
                        + "}"@,
                    load: (t.name + "_dtor"@)
                        + " = Some("@
                        + load_name
                        + ".get_dtor());\n"@,
                },
            ),
        },
    }
}

/// The `Default` of a generated type, which calls the constructor
/// `ctor_name`. Nothing where `Default` is not asked for.
pub open spec fn default_output(
    lib: RustStdLibView,
    config: ConfigView,
    naming: NamingConventionsView,
    t: TypeView,
    ctor_name: Seq<char>,
) -> Result<OutputView, GenerateErrorView> {
    if !config.generate_default {
        Ok(OutputView::nothing())
    } else {
        match generics_text(lib, t.generics, t.attrs, naming, true) {
            Err(e) => Err(e),
            Ok(generics) => match type_name_text(lib, t, naming, false) {
                Err(e) => Err(e),
                Ok(name) => Ok(
                    OutputView::text(
                        "\n\nimpl"@
                            + generics
                            + " Default for "@
                            + name
                            + " {\n"@
                            + "\tfn default() -> Self {\n"@
                            + "\t\tunsafe {\n"@
                            + "\t\t\t"@
                            + t.name
                            + "::"@
                            + ctor_name
                            + "()\n"@
                            + "\t\t}\n"@
                            + "\t}\n"@
                            + "}"@,
                    ),
                ),
            },
        }
    }
}

/// What is generated for the constructors from index `from` on. A constructor
/// is numbered by its index among all the constructors of the type.
pub open spec fn constructors_output(
    lib: RustStdLibView,
    config: ConfigView,
    naming: NamingConventionsView,
    ty_name: Seq<char>,
    items: Seq<ConstructorView>,
    from: int,
) -> Result<OutputView, GenerateErrorView>
    decreases items.len() - from,
{
    if from < 0 || from >= items.len() {
        Ok(OutputView::nothing())
    } else {
        in_turn(
            constructor_output(lib, config, naming, items[from], ty_name, from as nat),
            constructors_output(lib, config, naming, ty_name, items, from + 1),
        )
    }
}

/// What is generated for the properties from index `from` on.
pub open spec fn properties_output(
    config: ConfigView,
    naming: NamingConventionsView,
    parent: Option<Seq<char>>,
    items: Seq<PropertyView>,
    from: int,
) -> Result<OutputView, GenerateErrorView>
    decreases items.len() - from,
{
    if from < 0 || from >= items.len() {
        Ok(OutputView::nothing())
    } else {
        in_turn(
            property_output(config, naming, items[from], parent),
            properties_output(config, naming, parent, items, from + 1),
        )
    }
}

/// What is generated for the methods from index `from` on.
pub open spec fn methods_output(
    lib: RustStdLibView,
    config: ConfigView,
    naming: NamingConventionsView,
    ty_name: Seq<char>,
    items: Seq<MethodView>,
    from: int,
) -> Result<OutputView, GenerateErrorView>
    decreases items.len() - from,
{
    if from < 0 || from >= items.len() {
        Ok(OutputView::nothing())
    } else {
        in_turn(
            method_output(lib, config, naming, items[from], ty_name),
            methods_output(lib, config, naming, ty_name, items, from + 1),
        )
    }
}

/// The name by which `Default` calls a constructor: that of the last
/// constructor from index `from` on that takes no argument and is visible
/// enough, if there is one.
pub open spec fn default_constructor(
    lib: RustStdLibView,
    config: ConfigView,
    items: Seq<ConstructorView>,
    from: int,
) -> Option<Seq<char>>
    decreases items.len() - from,
{
    if from < 0 || from >= items.len() {
        None
    } else {
        match default_constructor(lib, config, items, from + 1) {
            Some(name) => Some(name),
            None => if items[from].args.len() == 0 && Config::passes(config, items[from].vis) {
                Some(constructor_name(lib, config, items[from], from as nat))
            } else {
                None
            },
        }
    }
}

/// `later` where there is one, else `earlier`.
pub open spec fn latest(later: Option<Seq<char>>, earlier: Option<Seq<char>>) -> Option<Seq<char>> {
    match later {
        Some(name) => Some(name),
        None => earlier,
    }
}

/// The variants of an enum from index `from` on, one line each: a tab, the
/// name, the value.
pub open spec fn variants_text(variants: Seq<(Seq<char>, ValueView)>, from: int) -> Result<
    Seq<char>,
    GenerateErrorView,
>
    decreases variants.len() - from,
{
    if from < 0 || from >= variants.len() {
        Ok(Seq::empty())
    } else {
        match value_text(variants[from].1) {
            Err(e) => Err(e),
            Ok(value) => match variants_text(variants, from + 1) {
                Err(e) => Err(e),
                Ok(rest) => Ok("\t"@
                    + variants[from].0
                    + " = "@
                    + value
                    + ",\n"@ + rest),
            },
        }
    }
}

/// The variable that holds a type's table in the loader.
pub open spec fn type_variable(t: TypeView) -> Seq<char> {
    t.name + "_type"@
}

/// The line of the loader that looks a type up in its package.
pub open spec fn type_lookup(package_variable: Seq<char>, t: TypeView) -> OutputView {
    OutputView {
        statics: Seq::empty(),
        bindings: Seq::empty(),
        load: "let "@
            + type_variable(t)
            + " = "@
            + package_variable
            + ".get_type("@
            + decimal(t.id as nat)
            + ");\n"@,
    }
}

/// The struct that stands for a type on the host's side: it holds the
/// address of the object and nothing else. Its `impl` is opened.
pub open spec fn handle_head(
    lib: RustStdLibView,
    naming: NamingConventionsView,
    t: TypeView,
) -> Result<
    OutputView,
    GenerateErrorView,
> {
    match type_name_text(lib, t, naming, true) {
        Err(e) => Err(e),
        Ok(full) => match generics_text(lib, t.generics, t.attrs, naming, true) {
            Err(e) => Err(e),
            Ok(generics) => match type_name_text(lib, t, naming, false) {
                Err(e) => Err(e),
                Ok(bare) => Ok(OutputView::text("struct "@
                    + full
                    + " {\n"@
                    + "    ptr: Ptr\n"@
                    + "}\n"@
                    + "\n"@
                    + "impl"@
                    + generics
                    + " "@
                    + bare
                    + " {\n"@)),
            },
        },
    }
}

/// The `Default` of a type, where it has a constructor that takes no
/// argument and is visible enough.
pub open spec fn default_of(
    lib: RustStdLibView,
    config: ConfigView,
    naming: NamingConventionsView,
    t: TypeView,
    constructors: Seq<ConstructorView>,
) -> Result<OutputView, GenerateErrorView> {
    match default_constructor(lib, config, constructors, 0) {
        Some(name) => default_output(lib, config, naming, t, name),
        None => Ok(OutputView::nothing()),
    }
}

/// A keyword, the name of a type, and an opening brace.
pub open spec fn opened(
    lib: RustStdLibView,
    naming: NamingConventionsView,
    t: TypeView,
    keyword: Seq<char>,
) -> Result<OutputView, GenerateErrorView> {
    match type_name_text(lib, t, naming, true) {
        Err(e) => Err(e),
        Ok(name) => Ok(OutputView::text(keyword + name + " {\n"@)),
    }
}

/// What is generated for a type after its visibility, by its kind.
///
/// A class and a struct become a handle with constructors, a `Drop` and,
/// where a generated constructor takes no argument, a `Default`; a class
/// has its properties and methods too. An enum becomes an enum with its
/// values, an enum class an enum with its methods, an interface a trait of
/// signatures, an alias a type alias.
pub open spec fn kind_output(
    lib: RustStdLibView,
    config: ConfigView,
    naming: NamingConventionsView,
    package_variable: Seq<char>,
    t: TypeView,
) -> Result<OutputView, GenerateErrorView> {
    match t.kind {
        TypeKindView::Class { constructors, properties, methods, .. } => in_turn(
            in_turn(
                in_turn(
                    in_turn(
                        in_turn(
                            in_turn(
                                before(
                                    type_lookup(package_variable, t),
                                    handle_head(lib, naming, t),
                                ),
                                constructors_output(lib, config, naming, t.name, constructors, 0),
                            ),
                            properties_output(config, naming, Some(t.name), properties, 0),
                        ),
                        methods_output(lib, config, naming, t.name, methods, 0),
                    ),
                    Ok(OutputView::text("}"@)),
                ),
                drop_output(lib, naming, t, type_variable(t)),
            ),
            default_of(lib, config, naming, t, constructors),
        ),
        TypeKindView::Enum { variants } => match type_name_text(lib, t, naming, true) {
            Err(e) => Err(e),
            Ok(name) => match variants_text(variants, 0) {
                Err(e) => Err(e),
                Ok(lines) => Ok(OutputView::text("enum "@ + name + " {\n"@ + lines + "}"@)),
            },
        },
        TypeKindView::EnumClass { methods, .. } => in_turn(
            in_turn(
                before(type_lookup(package_variable, t), opened(lib, naming, t, "enum "@)),
                methods_output(lib, config, naming, t.name, methods, 0),
            ),
            Ok(OutputView::text("}"@)),
        ),
        TypeKindView::Interface { properties, methods, .. } => in_turn(
            in_turn(
                in_turn(
                    opened(lib, naming, t, "trait "@),
                    methods_output(lib, config, naming, t.name, methods, 0),
                ),
                properties_output(config, naming, None, properties, 0),
            ),
            Ok(OutputView::text("}"@)),
        ),
        TypeKindView::Struct { constructors, .. } => in_turn(
            in_turn(
                in_turn(
                    in_turn(
                        before(type_lookup(package_variable, t), handle_head(lib, naming, t)),
                        constructors_output(lib, config, naming, t.name, constructors, 0),
                    ),
                    Ok(OutputView::text("}"@)),
                ),
                drop_output(lib, naming, t, type_variable(t)),
            ),
            default_of(lib, config, naming, t, constructors),
        ),
        TypeKindView::TypeAlias(alias) => match type_name_text(lib, t, naming, true) {
            Err(e) => Err(e),
            Ok(name) => match typeref_text(alias, naming) {
                Err(e) => Err(e),
                Ok(alias) => Ok(OutputView::text("type "@ + name + " = "@ + alias + ";"@)),
            },
        },
    }
}

/// What stands before a type: its visibility, and before that the derives
/// of an enum.
pub open spec fn type_head(t: TypeView) -> OutputView {
    OutputView::text(
        (if t.kind is Enum {
            "#[derive(Ord, PartialOrd, Hash, Eq, PartialEq, Debug, Copy, Clone)]\n"@
        } else {
            Seq::empty()
        }) + vis_text(t.vis),
    )
}

/// What is generated for one type, with an empty line after it. Nothing
/// for a type that is not visible enough, and nothing for a generic type.
pub open spec fn type_output(
    lib: RustStdLibView,
    config: ConfigView,
    naming: NamingConventionsView,
    package_variable: Seq<char>,
    t: TypeView,
) -> Result<OutputView, GenerateErrorView> {
    if !Config::passes(config, t.vis) || t.generics.0.len() > 0 {
        Ok(OutputView::nothing())
    } else {
        in_turn(
            before(type_head(t), kind_output(lib, config, naming, package_variable, t)),
            Ok(OutputView::text("\n\n"@)),
        )
    }
}

/// What is generated for the types from index `from` on.
pub open spec fn types_output(
    lib: RustStdLibView,
    config: ConfigView,
    naming: NamingConventionsView,
    package_variable: Seq<char>,
    items: Seq<TypeView>,
    from: int,
) -> Result<OutputView, GenerateErrorView>
    decreases items.len() - from,
{
    if from < 0 || from >= items.len() {
        Ok(OutputView::nothing())
    } else {
        in_turn(
            type_output(lib, config, naming, package_variable, items[from]),
            types_output(lib, config, naming, package_variable, items, from + 1),
        )
    }
}

/// What is generated for a package: the line of the loader that looks the
/// package up, then each type in the order of the package.
pub open spec fn package_output(
    lib: RustStdLibView,
    config: ConfigView,
    naming: NamingConventionsView,
    package_variable: Seq<char>,
    package: PackageView,
) -> Result<OutputView, GenerateErrorView> {
    before(
        OutputView {
            statics: Seq::empty(),
            bindings: Seq::empty(),
            load: "let "@
                + package_variable
                + " = ctx.get_package("@
                + decimal(package.id as nat)
                + ");\n"@,
        },
        types_output(lib, config, naming, package_variable, package.types, 0),
    )
}

/// The conventions by which the variable of a package is named: those of
/// Rust, with `_` between the parts.
pub open spec fn variable_conventions() -> NamingConventionsView {
    NamingConventionsView { package_divider: "_"@, ..rust_conventions() }
}

/// The first lines of a generated file.
pub open spec fn file_head() -> Seq<char> {
    "// This file was generated by tangara-gen\n"@
        + "// All changes in this file will discard after rebuilding project\n"@
        + "use tangara::context::{FnDtor, Context, Ptr, Fn};\n"@
        + "\n"@
}

/// The body of the loader as it stands in the file: each line after the
/// first begins with two tabs.
pub open spec fn loader_body(body: Seq<char>) -> Seq<char> {
    if indented(body, "\t\t"@).len() == 0 {
        indented(body, "\t\t"@)
    } else {
        indented(body, "\t\t"@).drop_last()
    }
}

/// The loader: the function that fills the statics from the registry. It
/// is to be called once, after the library has registered itself and
/// before any binding is used.
pub open spec fn loader(package_name: Seq<char>, body: Seq<char>) -> Seq<char> {
    "\n"@
        + "pub fn load_"@
        + package_name
        + "(ctx: &Context) {\n"@
        + "\tunsafe {\n"@
        + "\t\t"@
        + loader_body(body)
        + "}\n"@
        + "}\n"@
}

/// Nothing before a result changes nothing.
pub proof fn lemma_before_nothing(rest: Result<OutputView, GenerateErrorView>)
    ensures
        before(OutputView::nothing(), rest) == rest,
{
    match rest {
        Ok(rest) => {
            lemma_output_nothing(rest);
        },
        Err(_) => {},
    }
}

/// `done`, then `next`, then what `rest` gives, however they are grouped.
pub proof fn lemma_before_assoc(
    done: OutputView,
    next: OutputView,
    rest: Result<OutputView, GenerateErrorView>,
)
    ensures
        before(done, before(next, rest)) == before(done.followed_by(next), rest),
{
    match rest {
        Ok(rest) => {
            lemma_output_assoc(done, next, rest);
        },
        Err(_) => {},
    }
}

/// Only text of bindings.
fn text_output(bindings: String) -> (e: Output)
    ensures
        e@ == OutputView::text(bindings@),
{
    Output { statics: String::new(), bindings, load: String::new() }
}

/// The visibility of a generated item.
fn vis_str(vis: Visibility) -> (text: &'static str)
    ensures
        text@ == vis_text(vis),
{
    if vis == Visibility::Public {
        "pub "
    } else {
        "pub(crate) "
    }
}

/// `'a, ` for each lifetime `a`.
fn lifetime_params(lifetimes: &Vec<String>) -> (text: String)
    ensures
        text@ == lifetime_parameters(lifetimes.deep_view()),
{
    let ghost all = lifetimes.deep_view();
    let mut text = String::new();
    let mut i: usize = 0;
    while i < lifetimes.len()
        invariant
            i <= lifetimes.len(),
            all == lifetimes.deep_view(),
            text@ == lifetime_parameters(all.take(i as int)),
        decreases lifetimes.len() - i,
    {
        text.append("'");
        text.append(lifetimes[i].as_str());
        text.append(", ");
        i += 1;
        assert(all.take(i as int).drop_last() =~= all.take(i - 1));
    }
    assert(all.take(lifetimes.len() as int) =~= all);
    text
}

/// Each lifetime with its tick before it.
fn ticked_list(lifetimes: &Vec<String>) -> (texts: Vec<String>)
    ensures
        texts.deep_view() == ticked(lifetimes.deep_view()),
{
    let ghost all = lifetimes.deep_view();
    let mut texts: Vec<String> = Vec::new();
    let mut i: usize = 0;
    while i < lifetimes.len()
        invariant
            i <= lifetimes.len(),
            all == lifetimes.deep_view(),
            texts@.len() == i,
            forall|j: int| 0 <= j < i ==> texts@[j]@ == "'"@ + all[j],
        decreases lifetimes.len() - i,
    {
        let mut text = String::from_str("'");
        text.append(lifetimes[i].as_str());
        texts.push(text);
        i += 1;
    }
    assert(texts.deep_view() =~= ticked(all));
    texts
}

/// The types that bound the generic parameter `generic`.
fn bounds_for(wheres: &Vec<(String, TypeRef)>, generic: &str) -> (bounds: Vec<TypeRef>)
    ensures
        bounds.deep_view() == bounds_of(wheres.deep_view(), generic@),
{
    let ghost all = wheres.deep_view();
    let mut bounds: Vec<TypeRef> = Vec::new();
    let mut i: usize = 0;
    assert(bounds.deep_view() =~= Seq::<TypeRefView>::empty());
    while i < wheres.len()
        invariant
            i <= wheres.len(),
            all == wheres.deep_view(),
            bounds.deep_view() == bounds_of(all.take(i as int), generic@),
        decreases wheres.len() - i,
    {
        proof {
            assert(all.take(i + 1).drop_last() =~= all.take(i as int));
            assert(all.take(i + 1).last() == (wheres@[i as int].0@, wheres@[i as int].1@));
        }
        if crate::builder::same_text(wheres[i].0.as_str(), generic) {
            let ghost before = bounds.deep_view();
            let bound = wheres[i].1.clone();
            bounds.push(bound);
            assert(bounds.deep_view() =~= before.push(bound@));
        }
        i += 1;
    }
    assert(all.take(wheres.len() as int) =~= all);
    bounds
}

/// The names of the arguments, as the model spells them.
fn names_of(args: &Vec<Argument>) -> (names: Vec<String>)
    ensures
        names.deep_view() == argument_names(args.deep_view()),
        names.len() == args.len(),
{
    let mut names: Vec<String> = Vec::new();
    let mut i: usize = 0;
    while i < args.len()
        invariant
            i <= args.len(),
            names@.len() == i,
            forall|j: int| 0 <= j < i ==> names@[j]@ == args.deep_view()[j].2,
        decreases args.len() - i,
    {
        names.push(args[i].2.clone());
        i += 1;
    }
    assert(names.deep_view() =~= argument_names(args.deep_view()));
    names
}

/// The statement that writes `value` into its slot.
fn assignment_of(offset: &str, ty: &str, value: &str) -> (text: String)
    ensures
        text@ == assignment(offset@, ty@, value@),
{
    let mut text = String::new();
    if offset.is_empty() {
        text.append("*(args_ptr as *mut ");
        text.append(ty);
        text.append(") = ");
        text.append(value);
        text.append(";");
    } else {
        text.append("*(args_ptr.add(");
        text.append(offset);
        text.append(") as *mut ");
        text.append(ty);
        text.append(") = ");
        text.append(value);
        text.append(";");
    }
    text
}

/// The statements that pack the arguments of a call, and what the call
/// passes on: slot types and values in the declared order, the receiver
/// first where there is one.
pub fn pack_arguments(with_self: bool, types: &Vec<String>, names: &Vec<String>) -> (r: (
    String,
    String,
))
    requires
        types.len() == names.len(),
    ensures
        r.0@ == packing(with_self, types.deep_view(), names.deep_view()),
        r.1@ == passed(with_self, types.deep_view()),
{
    if types.len() == 0 && !with_self {
        return (String::new(), String::from_str("0, std::ptr::null_mut()"));
    }
    let ghost slots = call_slots(with_self, types.deep_view());
    let ghost values = call_values(with_self, names.deep_view());
    let ghost shift: int = if with_self {
        1
    } else {
        0
    };
    let mut args_size = String::new();
    let mut assigns: Vec<String> = Vec::new();
    assert(assigns.deep_view() =~= assignments(slots, values).take(0));
    if with_self {
        let first = assignment_of(args_size.as_str(), "Ptr", "self.ptr");
        args_size.append("std::mem::size_of::<");
        args_size.append("Ptr");
        args_size.append(">()");
        assigns.push(first);
        assert(slots.take(0) =~= Seq::<Seq<char>>::empty());
        assert(slots.take(1) =~= seq!["Ptr"@]);
        assert(assigns.deep_view() =~= assignments(slots, values).take(1));
    }
    let mut i: usize = 0;
    while i < types.len()
        invariant
            i <= types.len(),
            types.len() == names.len(),
            slots == call_slots(with_self, types.deep_view()),
            values == call_values(with_self, names.deep_view()),
            shift == (if with_self {
                1int
            } else {
                0int
            }),
            args_size@ == sizes_sum(slots.take(shift + i)),
            assigns.deep_view() == assignments(slots, values).take(shift + i),
        decreases types.len() - i,
    {
        proof {
            assert(slots[shift + i] == types@[i as int]@);
            assert(values[shift + i] == names@[i as int]@);
            assert(slots.take(shift + i + 1).drop_last() =~= slots.take(shift + i));
            assert(slots.take(shift + i + 1).last() == slots[shift + i]);
        }
        let one = assignment_of(args_size.as_str(), types[i].as_str(), names[i].as_str());
        let ghost before = assigns.deep_view();
        assigns.push(one);
        assert(assigns.deep_view() =~= before.push(one@));
        if !args_size.as_str().is_empty() {
            args_size.append(" + ");
        }
        args_size.append("std::mem::size_of::<");
        args_size.append(types[i].as_str());
        args_size.append(">()");
        proof {
            reveal_strlit("std::mem::size_of::<");
            assert(forall|ty: Seq<char>| (#[trigger] size_text(ty)).len() > 0);
            assert(shift + i > 0 ==> sizes_sum(slots.take(shift + i)).len() > 0);
            assert(args_size@ =~= sizes_sum(slots.take(shift + i + 1)));
            assert(assigns.deep_view() =~= assignments(slots, values).take(shift + i + 1));
        }
        i += 1;
    }
    proof {
        assert(slots.take(shift + types.len()) =~= slots);
        assert(assignments(slots, values).take(shift + types.len()) =~= assignments(
            slots,
            values,
        ));
    }
    let mut code = String::new();
    code.append("\n");
    code.append("                let args_size = ");
    code.append(args_size.as_str());
    code.append(";\n");
    code.append("                let mut args_buf = vec![0u8; args_size];\n");
    code.append("                let args_ptr = args_buf.as_mut_ptr();\n");
    code.append("                unsafe {\n");
    code.append("                    ");
    code.append(join_strings(&assigns, "\n\t\t\t\t\t").as_str());
    code.append("\n");
    code.append("                }");
    (code, String::from_str("args_size, args_ptr"))
}

/// Generates, for the host's side, the types that stand for a package's
/// types, and the loader that connects them to the registry.
pub struct SourceGenerator {
    config: Config,
    package: Package,
    naming: NamingConventions,
    std_lib: RustStdLib,
    rust_naming: NamingConventions,
    statics_block: String,
    bindings_block: String,
    load_body: String,
    package_name: String,
}

pub ghost struct SourceView {
    pub config: ConfigView,
    pub package: PackageView,
    /// The conventions in which the package is spelled.
    pub naming: NamingConventionsView,
    /// The statics that hold the functions.
    pub statics_block: Seq<char>,
    /// The generated types.
    pub bindings_block: Seq<char>,
    /// The body of the loader.
    pub load_body: Seq<char>,
    /// The variable that holds the package's table in the loader.
    pub package_name: Seq<char>,
}

impl SourceView {
    /// The generator as it is made for a package: nothing generated yet.
    /// The package's variable is its name, respelled, with `_package`.
    pub open spec fn fresh(package: PackageView, config: ConfigView) -> Result<
        SourceView,
        GenerateErrorView,
    > {
        match named(converted_package(variable_conventions(), package.naming, package.name)) {
            Err(e) => Err(e),
            Ok(name) => Ok(
                SourceView {
                    config,
                    package,
                    naming: package.naming,
                    statics_block: Seq::empty(),
                    bindings_block: Seq::empty(),
                    load_body: Seq::empty(),
                    package_name: name + "_package"@,
                },
            ),
        }
    }

    /// What `generate` generates for the package.
    pub open spec fn output(self) -> Result<OutputView, GenerateErrorView> {
        package_output(
            RustStdLibView::standard(),
            self.config,
            self.naming,
            self.package_name,
            self.package,
        )
    }

    /// The generator after `generate` has generated `output`.
    pub open spec fn with_output(self, output: OutputView) -> SourceView {
        SourceView {
            statics_block: self.statics_block + output.statics,
            bindings_block: self.bindings_block + output.bindings,
            load_body: self.load_body + output.load,
            ..self
        }
    }

    /// The text of the file: the head, the statics, an empty line, the
    /// generated types, the loader.
    pub open spec fn file(self) -> Seq<char> {
        file_head() + self.statics_block + "\n"@ + self.bindings_block + loader(
            self.package.name,
            self.load_body,
        )
    }
}

impl View for SourceGenerator {
    type V = SourceView;

    closed spec fn view(&self) -> SourceView {
        SourceView {
            config: self.config@,
            package: self.package@,
            naming: self.naming@,
            statics_block: self.statics_block@,
            bindings_block: self.bindings_block@,
            load_body: self.load_body@,
            package_name: self.package_name@,
        }
    }
}

impl SourceGenerator {
    #[verifier::type_invariant]
    spec fn well_formed(self) -> bool {
        self.std_lib@ == RustStdLibView::standard() && self.rust_naming@ == rust_conventions()
    }

    pub(crate) fn new(package: Package, config: Config) -> (r: Result<Self, GenerateError>)
        ensures
            match r {
                Ok(g) => SourceView::fresh(package@, config@) == Ok::<
                    SourceView,
                    GenerateErrorView,
                >(g@),
                Err(e) => SourceView::fresh(package@, config@) == Err::<
                    SourceView,
                    GenerateErrorView,
                >(e@),
            },
    {
        let mut package_naming = NamingConventions::rust();
        package_naming.package_divider = String::from_str("_");
        let mut package_name = match package_naming.convert_package(
            package.name.as_str(),
            &package.naming,
        ) {
            Ok(name) => name,
            Err(e) => {
                return Err(GenerateError::Naming(e));
            },
        };
        package_name.append("_package");
        let naming = package.naming.clone();
        Ok(
            Self {
                config,
                package,
                naming,
                std_lib: RustStdLib::new(),
                rust_naming: NamingConventions::rust(),
                statics_block: String::new(),
                bindings_block: String::new(),
                load_body: String::new(),
                package_name,
            },
        )
    }

    /// The generic parameters of a type, in angle brackets.
    pub fn get_generics(&self, generics: &Generics, attrs: &Vec<Attribute>, with_where: bool) -> (r:
        Result<String, GenerateError>)
        ensures
            match r {
                Ok(text) => generics_text(
                    RustStdLibView::standard(),
                    generics@,
                    attrs.deep_view(),
                    self@.naming,
                    with_where,
                ) == Ok::<Seq<char>, GenerateErrorView>(text@),
                Err(e) => generics_text(
                    RustStdLibView::standard(),
                    generics@,
                    attrs.deep_view(),
                    self@.naming,
                    with_where,
                ) == Err::<Seq<char>, GenerateErrorView>(e@),
            },
    {
        proof {
            use_type_invariant(self);
        }
        let ghost lib = RustStdLibView::standard();
        let mut name = String::new();
        if generics.0.len() == 0 {
            return Ok(name);
        }
        let ghost all = generics.0.deep_view();
        let mut texts: Vec<String> = Vec::new();
        let mut i: usize = 0;
        assert(texts.deep_view() =~= Seq::<Seq<char>>::empty());
        assert(all.skip(0) =~= all);
        while i < generics.0.len()
            invariant
                i <= generics.0.len(),
                lib == RustStdLibView::standard(),
                self.std_lib@ == lib,
                self.rust_naming@ == rust_conventions(),
                all == generics.0.deep_view(),
                generic_texts(lib, generics@, attrs.deep_view(), self@.naming, all, with_where)
                    == texts_after(
                    texts.deep_view(),
                    generic_texts(
                        lib,
                        generics@,
                        attrs.deep_view(),
                        self@.naming,
                        all.skip(i as int),
                        with_where,
                    ),
                ),
            decreases generics.0.len() - i,
        {
            proof {
                assert(all.skip(i as int).first() == generics.0@[i as int]@);
                assert(all.skip(i as int).drop_first() =~= all.skip(i + 1));
            }
            let mut text = generics.0[i].clone();
            if with_where {
                let lifetimes = self.std_lib.get_generic_lifetimes(
                    attrs.as_slice(),
                    generics.0[i].as_str(),
                );
                let mut first = String::new();
                if lifetimes.len() > 0 {
                    first.append(":");
                    first.append(join_strings(&ticked_list(&lifetimes), " + ").as_str());
                }
                assert(first@ =~= lifetime_bounds(lifetimes.deep_view()));
                let bounds = bounds_for(&generics.1, generics.0[i].as_str());
                let mut second = String::new();
                match get_typerefs(&bounds, &self.naming, &self.rust_naming) {
                    Ok(bound_texts) => {
                        if bound_texts.len() > 0 {
                            if lifetimes.len() > 0 {
                                second.append("+");
                            } else {
                                second.append(":");
                            }
                            second.append(join_strings(&bound_texts, "+").as_str());
                        }
                        assert(second@ =~= type_bounds(
                            lifetimes.deep_view().len() > 0,
                            bound_texts.deep_view(),
                        ));
                    },
                    Err(e) => {
                        return Err(e);
                    },
                }
                text.append(first.as_str());
                text.append(second.as_str());
            }
            assert(generic_text(
                lib,
                generics@,
                attrs.deep_view(),
                self@.naming,
                all[i as int],
                with_where,
            ) == Ok::<Seq<char>, GenerateErrorView>(text@));
            let ghost before = texts.deep_view();
            texts.push(text);
            assert(texts.deep_view() =~= before + seq![text@]);
            assert(forall|rest: Seq<Seq<char>>|
                (before + seq![text@]) + rest =~= before + (seq![text@] + rest));
            i += 1;
        }
        assert(all.skip(generics.0.len() as int) =~= Seq::<Seq<char>>::empty());
        assert(texts.deep_view() + Seq::<Seq<char>>::empty() =~= texts.deep_view());
        name.append("<");
        name.append(lifetime_params(&self.std_lib.get_lifetimes(attrs.as_slice())).as_str());
        name.append(join_strings(&texts, ", ").as_str());
        name.append(">");
        Ok(name)
    }

    /// The name of a type as Rust spells it, with its generic parameters.
    pub fn get_type_name(&self, t: &Type, with_where: bool) -> (r: Result<String, GenerateError>)
        ensures
            match r {
                Ok(text) => type_name_text(
                    RustStdLibView::standard(),
                    t@,
                    self@.naming,
                    with_where,
                ) == Ok::<Seq<char>, GenerateErrorView>(text@),
                Err(e) => type_name_text(
                    RustStdLibView::standard(),
                    t@,
                    self@.naming,
                    with_where,
                ) == Err::<Seq<char>, GenerateErrorView>(e@),
            },
    {
        proof {
            use_type_invariant(self);
        }
        let is_interface = match &t.kind {
            TypeKind::Interface { .. } => true,
            _ => false,
        };
        let converted = if is_interface {
            self.rust_naming.interface.from(t.name.as_str(), &self.naming.interface)
        } else {
            self.rust_naming.base_type.from(t.name.as_str(), &self.naming.base_type)
        };
        let mut name = match converted {
            Ok(name) => name,
            Err(e) => {
                return Err(GenerateError::Naming(e));
            },
        };
        match self.get_generics(&t.generics, &t.attrs, with_where) {
            Ok(generics) => {
                name.append(generics.as_str());
            },
            Err(e) => {
                return Err(e);
            },
        }
        Ok(name)
    }

    /// One argument of a signature.
    fn get_arg(&self, arg: &Argument) -> (r: Result<String, GenerateError>)
        ensures
            match r {
                Ok(text) => argument_text(
                    RustStdLibView::standard(),
                    arg@,
                    self@.naming,
                ) == Ok::<Seq<char>, GenerateErrorView>(text@),
                Err(e) => argument_text(
                    RustStdLibView::standard(),
                    arg@,
                    self@.naming,
                ) == Err::<Seq<char>, GenerateErrorView>(e@),
            },
    {
        proof {
            use_type_invariant(self);
        }
        let mut lifetime = String::new();
        match self.std_lib.get_lifetime(arg.0.as_slice()) {
            Some(lt) => {
                lifetime.append("'");
                lifetime.append(lt.as_str());
                lifetime.append(" ");
            },
            None => {},
        }
        assert(lifetime@ =~= lifetime_text(RustStdLibView::standard(), arg@.0));
        let mut prefix = String::new();
        match &arg.3 {
            ArgumentKind::Default => {},
            ArgumentKind::DefaultValue(_) => {},
            ArgumentKind::Out => {
                prefix.append("&");
                prefix.append(lifetime.as_str());
                prefix.append("mut ");
            },
            ArgumentKind::Ref => {
                prefix.append("&");
                prefix.append(lifetime.as_str());
                prefix.append("mut ");
            },
            ArgumentKind::In => {
                prefix.append("&");
                prefix.append(lifetime.as_str());
            },
        }
        assert(prefix@ =~= passing_prefix(arg@.3, lifetime@));
        let mut text = match self.rust_naming.parameter.from(
            arg.2.as_str(),
            &self.naming.parameter,
        ) {
            Ok(name) => name,
            Err(e) => {
                return Err(GenerateError::Naming(e));
            },
        };
        text.append(":");
        text.append(prefix.as_str());
        match typeref_text_of(&arg.1, &self.naming, &self.rust_naming) {
            Ok(ty) => {
                text.append(ty.as_str());
            },
            Err(e) => {
                return Err(e);
            },
        }
        Ok(text)
    }

    /// The arguments of a signature.
    pub fn get_args(&self, args: &Vec<Argument>) -> (r: Result<String, GenerateError>)
        ensures
            match r {
                Ok(text) => arguments_text(
                    RustStdLibView::standard(),
                    args.deep_view(),
                    self@.naming,
                ) == Ok::<Seq<char>, GenerateErrorView>(text@),
                Err(e) => arguments_text(
                    RustStdLibView::standard(),
                    args.deep_view(),
                    self@.naming,
                ) == Err::<Seq<char>, GenerateErrorView>(e@),
            },
    {
        let ghost lib = RustStdLibView::standard();
        let ghost all = args.deep_view();
        let mut texts: Vec<String> = Vec::new();
        let mut i: usize = 0;
        assert(texts.deep_view() =~= Seq::<Seq<char>>::empty());
        assert(all.skip(0) =~= all);
        while i < args.len()
            invariant
                i <= args.len(),
                lib == RustStdLibView::standard(),
                all == args.deep_view(),
                argument_texts(lib, all, self@.naming) == texts_after(
                    texts.deep_view(),
                    argument_texts(lib, all.skip(i as int), self@.naming),
                ),
            decreases args.len() - i,
        {
            proof {
                assert(all.skip(i as int).first() == args@[i as int]@);
                assert(all.skip(i as int).drop_first() =~= all.skip(i + 1));
            }
            match self.get_arg(&args[i]) {
                Ok(text) => {
                    let ghost before = texts.deep_view();
                    texts.push(text);
                    assert(texts.deep_view() =~= before + seq![text@]);
                    assert(forall|rest: Seq<Seq<char>>|
                        (before + seq![text@]) + rest =~= before + (seq![text@] + rest));
                },
                Err(e) => {
                    return Err(e);
                },
            }
            i += 1;
        }
        assert(all.skip(args.len() as int) =~= Seq::<ArgumentView>::empty());
        assert(texts.deep_view() + Seq::<Seq<char>>::empty() =~= texts.deep_view());
        Ok(join_strings(&texts, ", "))
    }

    /// The type of each argument's slot.
    fn get_slot_types(&self, args: &Vec<Argument>) -> (r: Result<Vec<String>, GenerateError>)
        ensures
            match r {
                Ok(texts) => slot_types(
                    args.deep_view(),
                    self@.naming,
                ) == Ok::<Seq<Seq<char>>, GenerateErrorView>(texts.deep_view()),
                Err(e) => slot_types(
                    args.deep_view(),
                    self@.naming,
                ) == Err::<Seq<Seq<char>>, GenerateErrorView>(e@),
            },
            r is Ok ==> r->Ok_0.len() == args.len(),
    {
        proof {
            use_type_invariant(self);
        }
        let ghost all = args.deep_view();
        let mut texts: Vec<String> = Vec::new();
        let mut i: usize = 0;
        assert(texts.deep_view() =~= Seq::<Seq<char>>::empty());
        assert(all.skip(0) =~= all);
        while i < args.len()
            invariant
                i <= args.len(),
                texts.len() == i,
                self.rust_naming@ == rust_conventions(),
                all == args.deep_view(),
                slot_types(all, self@.naming) == texts_after(
                    texts.deep_view(),
                    slot_types(all.skip(i as int), self@.naming),
                ),
            decreases args.len() - i,
        {
            proof {
                assert(all.skip(i as int).first() == args@[i as int]@);
                assert(all.skip(i as int).drop_first() =~= all.skip(i + 1));
            }
            let mut text = String::new();
            match &args[i].3 {
                ArgumentKind::Default => {},
                ArgumentKind::DefaultValue(_) => {},
                ArgumentKind::Out => {
                    text.append("&mut ");
                },
                ArgumentKind::Ref => {
                    text.append("&mut ");
                },
                ArgumentKind::In => {
                    text.append("&");
                },
            }
            assert(text@ =~= slot_prefix(args@[i as int]@.3));
            match typeref_text_of(&args[i].1, &self.naming, &self.rust_naming) {
                Ok(ty) => {
                    text.append(ty.as_str());
                    let ghost before = texts.deep_view();
                    texts.push(text);
                    assert(texts.deep_view() =~= before + seq![text@]);
                    assert(forall|rest: Seq<Seq<char>>|
                        (before + seq![text@]) + rest =~= before + (seq![text@] + rest));
                },
                Err(e) => {
                    return Err(e);
                },
            }
            i += 1;
        }
        assert(all.skip(args.len() as int) =~= Seq::<ArgumentView>::empty());
        assert(texts.deep_view() + Seq::<Seq<char>>::empty() =~= texts.deep_view());
        Ok(texts)
    }

    /// The statements that pack the arguments of a call, and what the call
    /// passes on.
    pub fn gen_args(&self, args: &Vec<Argument>, with_self: bool) -> (r: Result<
        (String, String),
        GenerateError,
    >)
        ensures
            match r {
                Ok(texts) => match slot_types(args.deep_view(), self@.naming) {
                    Ok(slots) => texts.0@ == packing(
                        with_self,
                        slots,
                        argument_names(args.deep_view()),
                    ) && texts.1@ == passed(with_self, slots),
                    Err(_) => false,
                },
                Err(e) => slot_types(args.deep_view(), self@.naming) == Err::<
                    Seq<Seq<char>>,
                    GenerateErrorView,
                >(e@),
            },
    {
        match self.get_slot_types(args) {
            Ok(types) => Ok(pack_arguments(with_self, &types, &names_of(args))),
            Err(e) => Err(e),
        }
    }

    /// The getter of a property, given the property's name and type as Rust
    /// spells them.
    fn gen_getter(&self, property: &Property, name: &str, ty: &str, parent: Option<&str>) -> (e:
        Output)
        ensures
            e@ == getter_output(self@.config, property@, name@, ty@, parent.deep_view()),
    {
        let mut e = Output::new();
        if !self.config.pass_vis(property.getter_visibility) {
            return e;
        }
        e.bindings.append("\t");
        e.bindings.append(vis_str(property.getter_visibility));
        e.bindings.append("fn get_");
        e.bindings.append(name);
        e.bindings.append("(&self) -> ");
        e.bindings.append(ty);
        match parent {
            Some(parent) => {
                let mut getter_name = String::from_str(parent);
                getter_name.append("_");
                getter_name.append(name);
                getter_name.append("_getter");
                let mut variable = String::from_str(parent);
                variable.append("_");
                variable.append(name);
                variable.append("_prop");
                assert(variable@ == property_variable(parent@, name@));
                e.statics.append("static mut ");
                e.statics.append(getter_name.as_str());
                e.statics.append(": Option<extern \"C\" fn(Ptr) -> Ptr> = None;\n");
                e.load.append("let ");
                e.load.append(variable.as_str());
                e.load.append(" = ");
                e.load.append(parent);
                e.load.append("_type.get_property(");
                e.load.append(u64_to_string(property.id).as_str());
                e.load.append(");\n");
                e.load.append(getter_name.as_str());
                e.load.append(" = Some(");
                e.load.append(variable.as_str());
                e.load.append(".getter);\n");
                e.bindings.append(" {\n");
                e.bindings.append("\t\tunsafe {\n");
                e.bindings.append("\t\t\tlet raw_ptr: *mut ");
                e.bindings.append(ty);
                e.bindings.append(" = ");
                e.bindings.append(getter_name.as_str());
                e.bindings.append(".unwrap()(self.ptr) as *mut ");
                e.bindings.append(ty);
                e.bindings.append(";\n");
                e.bindings.append("\t\t\tif !raw_ptr.is_null() {\n");
                e.bindings.append("\t\t\t\t*Box::from_raw(raw_ptr)\n");
                e.bindings.append("\t\t\t} else {\n");
                e.bindings.append("\t\t\t\tpanic!(\"Pointer of gotten property is null\")\n");
                e.bindings.append("\t\t\t}\n");
                e.bindings.append("\t\t}\n");
                e.bindings.append("\t}\n");
                assert(e@.statics =~= getter_output(
                    self@.config,
                    property@,
                    name@,
                    ty@,
                    Some(parent@),
                ).statics);
                assert(e@.bindings =~= getter_output(
                    self@.config,
                    property@,
                    name@,
                    ty@,
                    Some(parent@),
                ).bindings);
                assert(e@.load =~= getter_output(
                    self@.config,
                    property@,
                    name@,
                    ty@,
                    Some(parent@),
                ).load);
            },
            None => {
                e.bindings.append(";\n");
                assert(e@.bindings =~= getter_output(
                    self@.config,
                    property@,
                    name@,
                    ty@,
                    None,
                ).bindings);
            },
        }
        e
    }

    /// The setter of a property, given the property's name and type as Rust
    /// spells them.
    fn gen_setter(&self, property: &Property, name: &str, ty: &str, parent: Option<&str>) -> (e:
        Output)
        ensures
            e@ == setter_output(self@.config, property@, name@, ty@, parent.deep_view()),
    {
        let mut e = Output::new();
        let setter_vis = match property.setter_visibility {
            Some(vis) => vis,
            None => {
                return e;
            },
        };
        if !self.config.pass_vis(setter_vis) {
            return e;
        }
        e.bindings.append("\t");
        e.bindings.append(vis_str(setter_vis));
        e.bindings.append("fn set_");
        e.bindings.append(name);
        e.bindings.append("(&mut self, value: ");
        e.bindings.append(ty);
        e.bindings.append(")");
        match parent {
            Some(parent) => {
                let mut setter_name = String::from_str(parent);
                setter_name.append("_");
                setter_name.append(name);
                setter_name.append("_setter");
                let mut variable = String::from_str(parent);
                variable.append("_");
                variable.append(name);
                variable.append("_prop");
                assert(variable@ == property_variable(parent@, name@));
                e.statics.append("static mut ");
                e.statics.append(setter_name.as_str());
                e.statics.append(": Option<extern \"C\" fn(Ptr, Ptr)> = None;\n");
                e.load.append(setter_name.as_str());
                e.load.append(" = Some(");
                e.load.append(variable.as_str());
                e.load.append(".setter.unwrap());\n");
                e.bindings.append(" {\n");
                e.bindings.append("\t\tunsafe { ");
                e.bindings.append(setter_name.as_str());
                e.bindings.append(".unwrap()(self.ptr, &value as *const ");
                e.bindings.append(ty);
                e.bindings.append(" as Ptr); }\n");
                e.bindings.append("\t}\n");
                assert(e@.statics =~= setter_output(
                    self@.config,
                    property@,
                    name@,
                    ty@,
                    Some(parent@),
                ).statics);
                assert(e@.bindings =~= setter_output(
                    self@.config,
                    property@,
                    name@,
                    ty@,
                    Some(parent@),
                ).bindings);
                assert(e@.load =~= setter_output(
                    self@.config,
                    property@,
                    name@,
                    ty@,
                    Some(parent@),
                ).load);
            },
            None => {
                e.bindings.append(";\n");
                assert(e@.bindings =~= setter_output(
                    self@.config,
                    property@,
                    name@,
                    ty@,
                    None,
                ).bindings);
            },
        }
        e
    }

    /// What is generated for a property. `parent` names the type that has
    /// the property; it is `None` for a property of an interface, of which
    /// only signatures are generated.
    pub fn gen_property(&self, property: &Property, parent: Option<&str>) -> (r: Result<
        Output,
        GenerateError,
    >)
        ensures
            match r {
                Ok(output) => property_output(
                    self@.config,
                    self@.naming,
                    property@,
                    parent.deep_view(),
                ) == Ok::<OutputView, GenerateErrorView>(output@),
                Err(e) => property_output(
                    self@.config,
                    self@.naming,
                    property@,
                    parent.deep_view(),
                ) == Err::<OutputView, GenerateErrorView>(e@),
            },
    {
        proof {
            use_type_invariant(self);
        }
        if parent.is_some() && !(self.config.pass_vis(property.getter_visibility) && type_crosses(
            &property.prop_type,
        )) {
            return Ok(Output::new());
        }
        let converted = if property.getter_visibility == Visibility::Public {
            self.rust_naming.property.from(property.name.as_str(), &self.naming.property)
        } else {
            self.rust_naming.private_field.from(
                property.name.as_str(),
                &self.naming.private_field,
            )
        };
        let name = match converted {
            Ok(name) => name,
            Err(e) => {
                return Err(GenerateError::Naming(e));
            },
        };
        let ty = match typeref_text_of(&property.prop_type, &self.naming, &self.rust_naming) {
            Ok(ty) => ty,
            Err(e) => {
                return Err(e);
            },
        };
        let mut output = self.gen_getter(property, name.as_str(), ty.as_str(), parent);
        output.push(&self.gen_setter(property, name.as_str(), ty.as_str(), parent));
        Ok(output)
    }

    /// The name of the generated constructor number `index`.
    fn ctor_name(&self, ctor: &Constructor, index: usize) -> (name: String)
        ensures
            name@ == constructor_name(
                RustStdLibView::standard(),
                self@.config,
                ctor@,
                index as nat,
            ),
    {
        proof {
            use_type_invariant(self);
        }
        match self.std_lib.get_fn_name(ctor.attrs.as_slice()) {
            Some(name) => name,
            None => {
                let mut name = self.config.ctor_name.clone();
                name.append(u64_to_string(index as u64).as_str());
                name
            },
        }
    }

    /// What is generated for the constructor number `index` of a type.
    pub fn gen_ctor(&self, ctor: &Constructor, index: usize, ty_name: &str) -> (r: Result<
        Output,
        GenerateError,
    >)
        ensures
            match r {
                Ok(output) => constructor_output(
                    RustStdLibView::standard(),
                    self@.config,
                    self@.naming,
                    ctor@,
                    ty_name@,
                    index as nat,
                ) == Ok::<OutputView, GenerateErrorView>(output@),
                Err(e) => constructor_output(
                    RustStdLibView::standard(),
                    self@.config,
                    self@.naming,
                    ctor@,
                    ty_name@,
                    index as nat,
                ) == Err::<OutputView, GenerateErrorView>(e@),
            },
    {
        let mut e = Output::new();
        if !self.config.pass_vis(ctor.vis) || !arguments_cross(&ctor.args) {
            return Ok(e);
        }
        let args = match self.get_args(&ctor.args) {
            Ok(args) => args,
            Err(e) => {
                return Err(e);
            },
        };
        let (pack, pass) = match self.gen_args(&ctor.args, false) {
            Ok(texts) => texts,
            Err(e) => {
                return Err(e);
            },
        };
        let mut load_name = String::from_str(ty_name);
        load_name.append("_ctor");
        load_name.append(u64_to_string(index as u64).as_str());
        assert(load_name@ == constructor_static(ty_name@, index as nat));
        let name = self.ctor_name(ctor, index);
        e.statics.append("static mut ");
        e.statics.append(load_name.as_str());
        e.statics.append(": Option<Fn> = None;\n");
        e.load.append(load_name.as_str());
        e.load.append(" = Some(");
        e.load.append(ty_name);
        e.load.append("_type.get_ctor(");
        e.load.append(u64_to_string(index as u64).as_str());
        e.load.append(").clone());\n");
        e.bindings.append("\t");
        e.bindings.append(vis_str(ctor.vis));
        e.bindings.append("fn ");
        e.bindings.append(name.as_str());
        e.bindings.append("(");
        e.bindings.append(args.as_str());
        e.bindings.append(") -> Self {\n");
        e.bindings.append("\t\tunsafe {\n");
        e.bindings.append("\t\t\tif let Some(ctor_func) = ");
        e.bindings.append(load_name.as_str());
        e.bindings.append(" {");
        e.bindings.append(pack.as_str());
        e.bindings.append("\n");
        e.bindings.append("                let this = ctor_func(");
        e.bindings.append(pass.as_str());
        e.bindings.append(");\n");
        e.bindings.append("                if !this.is_null() {\n");
        e.bindings.append("                    Self {\n");
        e.bindings.append("                        ptr: this\n");
        e.bindings.append("                    }\n");
        e.bindings.append("                } else {\n");
        e.bindings.append("                    panic!(\"Pointer of constructor result is null\")\n");
        e.bindings.append("                }\n");
        e.bindings.append("            }\n");
        e.bindings.append("            else {\n");
        e.bindings.append("                panic!(\"Constructor wasn't loaded\")\n");
        e.bindings.append("            }\n");
        e.bindings.append("        }\n");
        e.bindings.append("    }\n");
        proof {
            let slots = slot_types(ctor@.args, self@.naming)->Ok_0;
            let want = constructor_text(
                RustStdLibView::standard(),
                self@.config,
                ctor@,
                ty_name@,
                index as nat,
                args@,
                slots,
            );
            assert(e@.statics =~= want.statics);
            assert(e@.bindings =~= want.bindings);
            assert(e@.load =~= want.load);
        }
        Ok(e)
    }

    /// The receiver in the signature of a method.
    fn self_block(&self, method: &Method) -> (text: &'static str)
        ensures
            text@ == receiver_text(RustStdLibView::standard(), method@),
    {
        proof {
            use_type_invariant(self);
        }
        if method.kind == MethodKind::Static {
            proof {
                reveal_strlit("");
            }
            ""
        } else if self.std_lib.is_reference(method.attrs.as_slice()) {
            if self.std_lib.is_mutable(method.attrs.as_slice()) {
                "&mut self"
            } else {
                "&self"
            }
        } else if self.std_lib.is_mutable(method.attrs.as_slice()) {
            "mut self"
        } else {
            "self"
        }
    }

    /// The signature of a method.
    fn signature(&self, method: &Method, name: &str, ret: &Option<String>, args: &str) -> (text:
        String)
        ensures
            text@ == method_signature(
                RustStdLibView::standard(),
                method@,
                name@,
                ret.deep_view(),
                args@,
            ),
    {
        let receiver = self.self_block(method);
        let mut signature = String::from_str("fn ");
        signature.append(name);
        signature.append("(");
        signature.append(receiver);
        if !receiver.is_empty() && method.args.len() > 0 {
            signature.append(", ");
        }
        signature.append(args);
        signature.append(")");
        match ret {
            Some(ret) => {
                signature.append(" -> ");
                signature.append(ret.as_str());
            },
            None => {},
        }
        signature
    }

    /// The part of a method's body that deals with what the call returns.
    fn received(pass: &str, ret: &Option<String>) -> (text: String)
        ensures
            text@ == receiving(pass@, ret.deep_view()),
    {
        let mut received = String::new();
        match ret {
            None => {
                received.append("\n");
                received.append("\t\t\t\tmethod_func(");
                received.append(pass);
                received.append(");");
            },
            Some(ret) => {
                received.append("\n");
                received.append("                let raw_ptr = method_func(");
                received.append(pass);
                received.append(");\n");
                received.append("                if !raw_ptr.is_null() {\n");
                received.append("                    *Box::from_raw(raw_ptr as *mut ");
                received.append(ret.as_str());
                received.append(")\n");
                received.append("                } else {\n");
                received.append("                    panic!(\"Pointer of method result is null\")\n");
                received.append("                }");
            },
        }
        received
    }

    /// A method, given its name and the texts of its parts.
    #[verifier::rlimit(60)]
    fn method_text(
        &self,
        method: &Method,
        ty_name: &str,
        name: &str,
        ret: &Option<String>,
        args: &str,
        pack: &str,
        pass: &str,
        Ghost(slots): Ghost<Seq<Seq<char>>>,
    ) -> (e: Output)
        requires
            method.kind != MethodKind::Abstract ==> pack@ == packing(
                method.kind != MethodKind::Static,
                slots,
                argument_names(method@.args),
            ) && pass@ == passed(method.kind != MethodKind::Static, slots),
        ensures
            e@ == method_text(
                RustStdLibView::standard(),
                method@,
                ty_name@,
                name@,
                ret.deep_view(),
                args@,
                slots,
            ),
    {
        let mut e = Output::new();
        let signature = self.signature(method, name, ret, args);
        e.bindings.append("\t");
        if method.kind == MethodKind::Abstract {
            e.bindings.append(signature.as_str());
            e.bindings.append(";\n");
            proof {
                let want = method_text(
                    RustStdLibView::standard(),
                    method@,
                    ty_name@,
                    name@,
                    ret.deep_view(),
                    args@,
                    slots,
                );
                assert(e@.bindings =~= want.bindings);
            }
            return e;
        }
        let mut load_name = String::from_str(ty_name);
        load_name.append("_");
        load_name.append(name);
        e.statics.append("static mut ");
        e.statics.append(load_name.as_str());
        e.statics.append(": Option<Fn> = None;\n");
        e.load.append(load_name.as_str());
        e.load.append(" = Some(");
        e.load.append(ty_name);
        e.load.append("_type.get_method(");
        e.load.append(u64_to_string(method.id).as_str());
        e.load.append(").clone());\n");
        e.bindings.append(vis_str(method.vis));
        e.bindings.append(signature.as_str());
        e.bindings.append(" {\n");
        e.bindings.append("\t\tunsafe {\n");
        e.bindings.append("\t\t\tif let Some(method_func) = ");
        e.bindings.append(load_name.as_str());
        e.bindings.append(" {");
        e.bindings.append(pack);
        e.bindings.append(Self::received(pass, ret).as_str());
        e.bindings.append("\n");
        e.bindings.append("            }\n");
        e.bindings.append("            else {\n");
        e.bindings.append("                panic!(\"Constructor wasn't loaded\")\n");
        e.bindings.append("            }\n");
        e.bindings.append("        }\n");
        e.bindings.append("    }\n");
        proof {
            let want = method_text(
                RustStdLibView::standard(),
                method@,
                ty_name@,
                name@,
                ret.deep_view(),
                args@,
                slots,
            );
            assert(e@.statics =~= want.statics);
            assert(e@.bindings =~= want.bindings);
            assert(e@.load =~= want.load);
        }
        e
    }

    /// What is generated for a method of a type.
    pub fn gen_method(&self, method: &Method, ty_name: &str) -> (r: Result<Output, GenerateError>)
        ensures
            match r {
                Ok(output) => method_output(
                    RustStdLibView::standard(),
                    self@.config,
                    self@.naming,
                    method@,
                    ty_name@,
                ) == Ok::<OutputView, GenerateErrorView>(output@),
                Err(e) => method_output(
                    RustStdLibView::standard(),
                    self@.config,
                    self@.naming,
                    method@,
                    ty_name@,
                ) == Err::<OutputView, GenerateErrorView>(e@),
            },
    {
        proof {
            use_type_invariant(self);
        }
        if !self.config.pass_vis(method.vis) {
            return Ok(Output::new());
        }
        let registered = match method.kind {
            MethodKind::Abstract => true,
            MethodKind::Default => arguments_cross(&method.args),
            MethodKind::Static => arguments_cross(&method.args),
            MethodKind::Virtual => false,
        };
        if !registered {
            return Ok(Output::new());
        }
        let name = match self.rust_naming.method.from(method.name.as_str(), &self.naming.method) {
            Ok(name) => name,
            Err(e) => {
                return Err(GenerateError::Naming(e));
            },
        };
        let ret: Option<String> = match &method.return_type {
            Some(ret) => match typeref_text_of(ret, &self.naming, &self.rust_naming) {
                Ok(text) => {
                    let mut core = match self.std_lib.get_return_prefix(method.attrs.as_slice()) {
                        Some(prefix) => prefix,
                        None => String::new(),
                    };
                    core.append(text.as_str());
                    Some(core)
                },
                Err(e) => {
                    return Err(e);
                },
            },
            None => None,
        };
        assert(return_text(RustStdLibView::standard(), method@, self@.naming) == Ok::<
            Option<Seq<char>>,
            GenerateErrorView,
        >(ret.deep_view()));
        let args = match self.get_args(&method.args) {
            Ok(args) => args,
            Err(e) => {
                return Err(e);
            },
        };
        if method.kind == MethodKind::Abstract {
            return Ok(
                self.method_text(
                    method,
                    ty_name,
                    name.as_str(),
                    &ret,
                    args.as_str(),
                    "",
                    "",
                    Ghost(Seq::empty()),
                ),
            );
        }
        let (pack, pass) = match self.gen_args(&method.args, method.kind != MethodKind::Static) {
            Ok(texts) => texts,
            Err(e) => {
                return Err(e);
            },
        };
        Ok(
            self.method_text(
                method,
                ty_name,
                name.as_str(),
                &ret,
                args.as_str(),
                pack.as_str(),
                pass.as_str(),
                Ghost(slot_types(method@.args, self@.naming)->Ok_0),
            ),
        )
    }

    /// The `Drop` of a generated type.
    pub fn gen_drop(&self, t: &Type, load_name: &str) -> (r: Result<Output, GenerateError>)
        ensures
            match r {
                Ok(output) => drop_output(
                    RustStdLibView::standard(),
                    self@.naming,
                    t@,
                    load_name@,
                ) == Ok::<OutputView, GenerateErrorView>(output@),
                Err(e) => drop_output(
                    RustStdLibView::standard(),
                    self@.naming,
                    t@,
                    load_name@,
                ) == Err::<OutputView, GenerateErrorView>(e@),
            },
    {
        let generics = match self.get_generics(&t.generics, &t.attrs, true) {
            Ok(generics) => generics,
            Err(e) => {
                return Err(e);
            },
        };
        let name = match self.get_type_name(t, false) {
            Ok(name) => name,
            Err(e) => {
                return Err(e);
            },
        };
        let mut dtor_name = t.name.clone();
        dtor_name.append("_dtor");
        let mut e = Output::new();
        e.statics.append("static mut ");
        e.statics.append(dtor_name.as_str());
        e.statics.append(": Option<FnDtor> = None;\n");
        e.load.append(dtor_name.as_str());
        e.load.append(" = Some(");
        e.load.append(load_name);
        e.load.append(".get_dtor());\n");
        e.bindings.append("\n\nimpl");
        e.bindings.append(generics.as_str());
        e.bindings.append(" Drop for ");
        e.bindings.append(name.as_str());
        e.bindings.append(" {\n");
        e.bindings.append("\tfn drop(&mut self) {\n");
        e.bindings.append("\t\tunsafe {\n");
        e.bindings.append("\t\t\t");
        e.bindings.append(dtor_name.as_str());
        e.bindings.append(".expect(\"Destructor wasn't loaded from library\")(self.ptr);\n");
        e.bindings.append("\t\t}\n");
        e.bindings.append("\t}\n");
        e.bindings.append("}");
        proof {
            let want = drop_output(RustStdLibView::standard(), self@.naming, t@, load_name@)->Ok_0;
            assert(e@.statics =~= want.statics);
            assert(e@.bindings =~= want.bindings);
            assert(e@.load =~= want.load);
        }
        Ok(e)
    }

    /// The `Default` of a generated type, which calls the constructor
    /// `ctor_name`.
    pub fn gen_default(&self, t: &Type, ctor_name: &str) -> (r: Result<Output, GenerateError>)
        ensures
            match r {
                Ok(output) => default_output(
                    RustStdLibView::standard(),
                    self@.config,
                    self@.naming,
                    t@,
                    ctor_name@,
                ) == Ok::<OutputView, GenerateErrorView>(output@),
                Err(e) => default_output(
                    RustStdLibView::standard(),
                    self@.config,
                    self@.naming,
                    t@,
                    ctor_name@,
                ) == Err::<OutputView, GenerateErrorView>(e@),
            },
    {
        if !self.config.generate_default {
            return Ok(Output::new());
        }
        let generics = match self.get_generics(&t.generics, &t.attrs, true) {
            Ok(generics) => generics,
            Err(e) => {
                return Err(e);
            },
        };
        let name = match self.get_type_name(t, false) {
            Ok(name) => name,
            Err(e) => {
                return Err(e);
            },
        };
        let mut text = String::from_str("\n\nimpl");
        text.append(generics.as_str());
        text.append(" Default for ");
        text.append(name.as_str());
        text.append(" {\n");
        text.append("\tfn default() -> Self {\n");
        text.append("\t\tunsafe {\n");
        text.append("\t\t\t");
        text.append(t.name.as_str());
        text.append("::");
        text.append(ctor_name);
        text.append("()\n");
        text.append("\t\t}\n");
        text.append("\t}\n");
        text.append("}");
        Ok(text_output(text))
    }

    /// What is generated for the constructors of a type.
    fn gen_constructors(
        &self,
        items: &Vec<Constructor>,
        ty_name: &str,
    ) -> (r: Result<Output, GenerateError>)
        ensures
            match r {
                Ok(output) => constructors_output(
                    RustStdLibView::standard(),
                    self@.config,
                    self@.naming,
                    ty_name@,
                    items.deep_view(),
                    0,
                ) == Ok::<OutputView, GenerateErrorView>(output@),
                Err(e) => constructors_output(
                    RustStdLibView::standard(),
                    self@.config,
                    self@.naming,
                    ty_name@,
                    items.deep_view(),
                    0,
                ) == Err::<OutputView, GenerateErrorView>(e@),
            },
    {
        let ghost all = items.deep_view();
        let mut output = Output::new();
        let mut i: usize = 0;
        proof {
            lemma_before_nothing(
                constructors_output(
                    RustStdLibView::standard(),
                    self@.config,
                    self@.naming,
                    ty_name@,
                    all,
                    0,
                ),
            );
        }
        while i < items.len()
            invariant
                i <= items.len(),
                all == items.deep_view(),
                constructors_output(
                    RustStdLibView::standard(),
                    self@.config,
                    self@.naming,
                    ty_name@,
                    all,
                    0,
                ) == before(
                    output@,
                    constructors_output(
                        RustStdLibView::standard(),
                        self@.config,
                        self@.naming,
                        ty_name@,
                        all,
                        i as int,
                    ),
                ),
            decreases items.len() - i,
        {
            match self.gen_ctor(&items[i], i, ty_name) {
                Ok(one) => {
                    proof {
                        lemma_before_assoc(
                            output@,
                            one@,
                            constructors_output(
                                RustStdLibView::standard(),
                                self@.config,
                                self@.naming,
                                ty_name@,
                                all,
                                i + 1,
                            ),
                        );
                    }
                    output.push(&one);
                },
                Err(e) => {
                    return Err(e);
                },
            }
            i += 1;
        }
        proof {
            lemma_output_nothing(output@);
        }
        Ok(output)
    }

    /// What is generated for the properties of a type or an interface.
    fn gen_properties(
        &self,
        items: &Vec<Property>,
        parent: Option<&str>,
    ) -> (r: Result<Output, GenerateError>)
        ensures
            match r {
                Ok(output) => properties_output(
                    self@.config,
                    self@.naming,
                    parent.deep_view(),
                    items.deep_view(),
                    0,
                ) == Ok::<OutputView, GenerateErrorView>(output@),
                Err(e) => properties_output(
                    self@.config,
                    self@.naming,
                    parent.deep_view(),
                    items.deep_view(),
                    0,
                ) == Err::<OutputView, GenerateErrorView>(e@),
            },
    {
        let ghost all = items.deep_view();
        let mut output = Output::new();
        let mut i: usize = 0;
        proof {
            lemma_before_nothing(
                properties_output(self@.config, self@.naming, parent.deep_view(), all, 0),
            );
        }
        while i < items.len()
            invariant
                i <= items.len(),
                all == items.deep_view(),
                properties_output(self@.config, self@.naming, parent.deep_view(), all, 0) == before(
                    output@,
                    properties_output(
                        self@.config,
                        self@.naming,
                        parent.deep_view(),
                        all,
                        i as int,
                    ),
                ),
            decreases items.len() - i,
        {
            match self.gen_property(&items[i], parent) {
                Ok(one) => {
                    proof {
                        lemma_before_assoc(
                            output@,
                            one@,
                            properties_output(
                                self@.config,
                                self@.naming,
                                parent.deep_view(),
                                all,
                                i + 1,
                            ),
                        );
                    }
                    output.push(&one);
                },
                Err(e) => {
                    return Err(e);
                },
            }
            i += 1;
        }
        proof {
            lemma_output_nothing(output@);
        }
        Ok(output)
    }

    /// What is generated for the methods of a type.
    fn gen_methods(&self, items: &Vec<Method>, ty_name: &str) -> (r: Result<Output, GenerateError>)
        ensures
            match r {
                Ok(output) => methods_output(
                    RustStdLibView::standard(),
                    self@.config,
                    self@.naming,
                    ty_name@,
                    items.deep_view(),
                    0,
                ) == Ok::<OutputView, GenerateErrorView>(output@),
                Err(e) => methods_output(
                    RustStdLibView::standard(),
                    self@.config,
                    self@.naming,
                    ty_name@,
                    items.deep_view(),
                    0,
                ) == Err::<OutputView, GenerateErrorView>(e@),
            },
    {
        let ghost all = items.deep_view();
        let mut output = Output::new();
        let mut i: usize = 0;
        proof {
            lemma_before_nothing(
                methods_output(
                    RustStdLibView::standard(),
                    self@.config,
                    self@.naming,
                    ty_name@,
                    all,
                    0,
                ),
            );
        }
        while i < items.len()
            invariant
                i <= items.len(),
                all == items.deep_view(),
                methods_output(
                    RustStdLibView::standard(),
                    self@.config,
                    self@.naming,
                    ty_name@,
                    all,
                    0,
                ) == before(
                    output@,
                    methods_output(
                        RustStdLibView::standard(),
                        self@.config,
                        self@.naming,
                        ty_name@,
                        all,
                        i as int,
                    ),
                ),
            decreases items.len() - i,
        {
            match self.gen_method(&items[i], ty_name) {
                Ok(one) => {
                    proof {
                        lemma_before_assoc(
                            output@,
                            one@,
                            methods_output(
                                RustStdLibView::standard(),
                                self@.config,
                                self@.naming,
                                ty_name@,
                                all,
                                i + 1,
                            ),
                        );
                    }
                    output.push(&one);
                },
                Err(e) => {
                    return Err(e);
                },
            }
            i += 1;
        }
        proof {
            lemma_output_nothing(output@);
        }
        Ok(output)
    }

    /// What is generated for the types of the package.
    fn gen_types(&self, items: &Vec<Type>) -> (r: Result<Output, GenerateError>)
        ensures
            match r {
                Ok(output) => types_output(
                    RustStdLibView::standard(),
                    self@.config,
                    self@.naming,
                    self@.package_name,
                    items.deep_view(),
                    0,
                ) == Ok::<OutputView, GenerateErrorView>(output@),
                Err(e) => types_output(
                    RustStdLibView::standard(),
                    self@.config,
                    self@.naming,
                    self@.package_name,
                    items.deep_view(),
                    0,
                ) == Err::<OutputView, GenerateErrorView>(e@),
            },
    {
        let ghost all = items.deep_view();
        let mut output = Output::new();
        let mut i: usize = 0;
        proof {
            lemma_before_nothing(
                types_output(
                    RustStdLibView::standard(),
                    self@.config,
                    self@.naming,
                    self@.package_name,
                    all,
                    0,
                ),
            );
        }
        while i < items.len()
            invariant
                i <= items.len(),
                all == items.deep_view(),
                types_output(
                    RustStdLibView::standard(),
                    self@.config,
                    self@.naming,
                    self@.package_name,
                    all,
                    0,
                ) == before(
                    output@,
                    types_output(
                        RustStdLibView::standard(),
                        self@.config,
                        self@.naming,
                        self@.package_name,
                        all,
                        i as int,
                    ),
                ),
            decreases items.len() - i,
        {
            match self.gen_type(&items[i]) {
                Ok(one) => {
                    proof {
                        lemma_before_assoc(
                            output@,
                            one@,
                            types_output(
                                RustStdLibView::standard(),
                                self@.config,
                                self@.naming,
                                self@.package_name,
                                all,
                                i + 1,
                            ),
                        );
                    }
                    output.push(&one);
                },
                Err(e) => {
                    return Err(e);
                },
            }
            i += 1;
        }
        proof {
            lemma_output_nothing(output@);
        }
        Ok(output)
    }

    /// The name by which `Default` calls a constructor of the type: that of
    /// the last constructor that takes no argument and is visible enough.
    fn default_ctor(&self, items: &Vec<Constructor>) -> (name: Option<String>)
        ensures
            name.deep_view() == default_constructor(
                RustStdLibView::standard(),
                self@.config,
                items.deep_view(),
                0,
            ),
    {
        let ghost lib = RustStdLibView::standard();
        let ghost all = items.deep_view();
        let mut name: Option<String> = None;
        let mut i: usize = 0;
        while i < items.len()
            invariant
                i <= items.len(),
                lib == RustStdLibView::standard(),
                all == items.deep_view(),
                default_constructor(lib, self@.config, all, 0) == latest(
                    default_constructor(lib, self@.config, all, i as int),
                    name.deep_view(),
                ),
            decreases items.len() - i,
        {
            if items[i].args.len() == 0 && self.config.pass_vis(items[i].vis) {
                name = Some(self.ctor_name(&items[i], i));
            }
            i += 1;
        }
        name
    }

    /// The line of the loader that looks a type up.
    fn add_load_type(&self, t: &Type) -> (e: Output)
        ensures
            e@ == type_lookup(self@.package_name, t@),
    {
        let mut e = Output::new();
        let mut variable = t.name.clone();
        variable.append("_type");
        e.load.append("let ");
        e.load.append(variable.as_str());
        e.load.append(" = ");
        e.load.append(self.package_name.as_str());
        e.load.append(".get_type(");
        e.load.append(u64_to_string(t.id).as_str());
        e.load.append(");\n");
        e
    }

    /// The handle that stands for a type, with its `impl` opened.
    fn gen_handle(&self, t: &Type) -> (r: Result<Output, GenerateError>)
        ensures
            match r {
                Ok(output) => handle_head(
                    RustStdLibView::standard(),
                    self@.naming,
                    t@,
                ) == Ok::<OutputView, GenerateErrorView>(output@),
                Err(e) => handle_head(
                    RustStdLibView::standard(),
                    self@.naming,
                    t@,
                ) == Err::<OutputView, GenerateErrorView>(e@),
            },
    {
        let full = match self.get_type_name(t, true) {
            Ok(name) => name,
            Err(e) => {
                return Err(e);
            },
        };
        let generics = match self.get_generics(&t.generics, &t.attrs, true) {
            Ok(generics) => generics,
            Err(e) => {
                return Err(e);
            },
        };
        let bare = match self.get_type_name(t, false) {
            Ok(name) => name,
            Err(e) => {
                return Err(e);
            },
        };
        let mut text = String::new();
        text.append("struct ");
        text.append(full.as_str());
        text.append(" {\n");
        text.append("    ptr: Ptr\n");
        text.append("}\n");
        text.append("\n");
        text.append("impl");
        text.append(generics.as_str());
        text.append(" ");
        text.append(bare.as_str());
        text.append(" {\n");
        Ok(text_output(text))
    }

    /// The `Default` of a type, where it has a constructor without
    /// arguments.
    fn gen_default_of(&self, t: &Type, constructors: &Vec<Constructor>) -> (r: Result<
        Output,
        GenerateError,
    >)
        ensures
            match r {
                Ok(output) => default_of(
                    RustStdLibView::standard(),
                    self@.config,
                    self@.naming,
                    t@,
                    constructors.deep_view(),
                ) == Ok::<OutputView, GenerateErrorView>(output@),
                Err(e) => default_of(
                    RustStdLibView::standard(),
                    self@.config,
                    self@.naming,
                    t@,
                    constructors.deep_view(),
                ) == Err::<OutputView, GenerateErrorView>(e@),
            },
    {
        match self.default_ctor(constructors) {
            Some(name) => self.gen_default(t, name.as_str()),
            None => Ok(Output::new()),
        }
    }

    /// A keyword, the name of a type, and an opening brace.
    fn gen_opened(&self, t: &Type, keyword: &str) -> (r: Result<Output, GenerateError>)
        ensures
            match r {
                Ok(output) => opened(
                    RustStdLibView::standard(),
                    self@.naming,
                    t@,
                    keyword@,
                ) == Ok::<OutputView, GenerateErrorView>(output@),
                Err(e) => opened(
                    RustStdLibView::standard(),
                    self@.naming,
                    t@,
                    keyword@,
                ) == Err::<OutputView, GenerateErrorView>(e@),
            },
    {
        match self.get_type_name(t, true) {
            Ok(name) => {
                let mut text = String::from_str(keyword);
                text.append(name.as_str());
                text.append(" {\n");
                Ok(text_output(text))
            },
            Err(e) => Err(e),
        }
    }

    /// The variants of an enum, one line each.
    fn gen_enum_variants(&self, variants: &Vec<(String, Value)>) -> (r: Result<
        String,
        GenerateError,
    >)
        ensures
            match r {
                Ok(text) => variants_text(variants.deep_view(), 0) == Ok::<
                    Seq<char>,
                    GenerateErrorView,
                >(text@),
                Err(e) => variants_text(variants.deep_view(), 0) == Err::<
                    Seq<char>,
                    GenerateErrorView,
                >(e@),
            },
    {
        let ghost all = variants.deep_view();
        let mut text = String::new();
        let mut i: usize = 0;
        while i < variants.len()
            invariant
                i <= variants.len(),
                all == variants.deep_view(),
                variants_text(all, 0) == (match variants_text(all, i as int) {
                    Ok(rest) => Ok::<Seq<char>, GenerateErrorView>(text@ + rest),
                    Err(e) => Err(e),
                }),
            decreases variants.len() - i,
        {
            proof {
                assert(all[i as int] == (variants@[i as int].0@, variants@[i as int].1@));
            }
            match get_value(&variants[i].1) {
                Ok(value) => {
                    let ghost before = text@;
                    text.append("\t");
                    text.append(variants[i].0.as_str());
                    text.append(" = ");
                    text.append(value.as_str());
                    text.append(",\n");
                    assert(forall|rest: Seq<char>|
                        text@ + rest =~= before + ("\t"@
                            + all[i as int].0
                            + " = "@
                            + value@
                            + ",\n"@ + rest));
                },
                Err(e) => {
                    return Err(e);
                },
            }
            i += 1;
        }
        assert(text@ + Seq::<char>::empty() =~= text@);
        Ok(text)
    }

    /// What is generated for a type after its visibility, by its kind.
    fn gen_kind(&self, t: &Type) -> (r: Result<Output, GenerateError>)
        ensures
            match r {
                Ok(output) => kind_output(
                    RustStdLibView::standard(),
                    self@.config,
                    self@.naming,
                    self@.package_name,
                    t@,
                ) == Ok::<OutputView, GenerateErrorView>(output@),
                Err(e) => kind_output(
                    RustStdLibView::standard(),
                    self@.config,
                    self@.naming,
                    self@.package_name,
                    t@,
                ) == Err::<OutputView, GenerateErrorView>(e@),
            },
    {
        let mut variable = t.name.clone();
        variable.append("_type");
        match &t.kind {
            TypeKind::Class {
                is_sealed: _,
                constructors,
                properties,
                fields: _,
                static_properties: _,
                static_fields: _,
                methods,
                parents: _,
            } => {
                let mut output = self.add_load_type(t);
                match self.gen_handle(t) {
                    Ok(next) => {
                        output.push(&next);
                    },
                    Err(e) => {
                        return Err(e);
                    },
                }
                match self.gen_constructors(constructors, t.name.as_str()) {
                    Ok(next) => {
                        output.push(&next);
                    },
                    Err(e) => {
                        return Err(e);
                    },
                }
                match self.gen_properties(properties, Some(t.name.as_str())) {
                    Ok(next) => {
                        output.push(&next);
                    },
                    Err(e) => {
                        return Err(e);
                    },
                }
                match self.gen_methods(methods, t.name.as_str()) {
                    Ok(next) => {
                        output.push(&next);
                    },
                    Err(e) => {
                        return Err(e);
                    },
                }
                output.push(&text_output(String::from_str("}")));
                match self.gen_drop(t, variable.as_str()) {
                    Ok(next) => {
                        output.push(&next);
                    },
                    Err(e) => {
                        return Err(e);
                    },
                }
                match self.gen_default_of(t, constructors) {
                    Ok(next) => {
                        output.push(&next);
                    },
                    Err(e) => {
                        return Err(e);
                    },
                }
                Ok(output)
            },
            TypeKind::Enum { variants } => {
                let name = match self.get_type_name(t, true) {
                    Ok(name) => name,
                    Err(e) => {
                        return Err(e);
                    },
                };
                let lines = match self.gen_enum_variants(variants) {
                    Ok(lines) => lines,
                    Err(e) => {
                        return Err(e);
                    },
                };
                let mut text = String::from_str("enum ");
                text.append(name.as_str());
                text.append(" {\n");
                text.append(lines.as_str());
                text.append("}");
                Ok(text_output(text))
            },
            TypeKind::EnumClass { variants: _, methods } => {
                let mut output = self.add_load_type(t);
                match self.gen_opened(t, "enum ") {
                    Ok(next) => {
                        output.push(&next);
                    },
                    Err(e) => {
                        return Err(e);
                    },
                }
                match self.gen_methods(methods, t.name.as_str()) {
                    Ok(next) => {
                        output.push(&next);
                    },
                    Err(e) => {
                        return Err(e);
                    },
                }
                output.push(&text_output(String::from_str("}")));
                Ok(output)
            },
            TypeKind::Interface { properties, methods, parents: _ } => {
                let mut output = match self.gen_opened(t, "trait ") {
                    Ok(output) => output,
                    Err(e) => {
                        return Err(e);
                    },
                };
                match self.gen_methods(methods, t.name.as_str()) {
                    Ok(next) => {
                        output.push(&next);
                    },
                    Err(e) => {
                        return Err(e);
                    },
                }
                match self.gen_properties(properties, None) {
                    Ok(next) => {
                        output.push(&next);
                    },
                    Err(e) => {
                        return Err(e);
                    },
                }
                output.push(&text_output(String::from_str("}")));
                Ok(output)
            },
            TypeKind::Struct { constructors, fields: _, static_fields: _ } => {
                let mut output = self.add_load_type(t);
                match self.gen_handle(t) {
                    Ok(next) => {
                        output.push(&next);
                    },
                    Err(e) => {
                        return Err(e);
                    },
                }
                match self.gen_constructors(constructors, t.name.as_str()) {
                    Ok(next) => {
                        output.push(&next);
                    },
                    Err(e) => {
                        return Err(e);
                    },
                }
                output.push(&text_output(String::from_str("}")));
                match self.gen_drop(t, variable.as_str()) {
                    Ok(next) => {
                        output.push(&next);
                    },
                    Err(e) => {
                        return Err(e);
                    },
                }
                match self.gen_default_of(t, constructors) {
                    Ok(next) => {
                        output.push(&next);
                    },
                    Err(e) => {
                        return Err(e);
                    },
                }
                Ok(output)
            },
            TypeKind::TypeAlias(alias) => {
                proof {
                    use_type_invariant(self);
                }
                let name = match self.get_type_name(t, true) {
                    Ok(name) => name,
                    Err(e) => {
                        return Err(e);
                    },
                };
                let target = match typeref_text_of(alias, &self.naming, &self.rust_naming) {
                    Ok(target) => target,
                    Err(e) => {
                        return Err(e);
                    },
                };
                let mut text = String::from_str("type ");
                text.append(name.as_str());
                text.append(" = ");
                text.append(target.as_str());
                text.append(";");
                Ok(text_output(text))
            },
        }
    }

    /// What is generated for one type.
    pub fn gen_type(&self, t: &Type) -> (r: Result<Output, GenerateError>)
        ensures
            match r {
                Ok(output) => type_output(
                    RustStdLibView::standard(),
                    self@.config,
                    self@.naming,
                    self@.package_name,
                    t@,
                ) == Ok::<OutputView, GenerateErrorView>(output@),
                Err(e) => type_output(
                    RustStdLibView::standard(),
                    self@.config,
                    self@.naming,
                    self@.package_name,
                    t@,
                ) == Err::<OutputView, GenerateErrorView>(e@),
            },
    {
        if !self.config.pass_vis(t.vis) || t.generics.0.len() > 0 {
            return Ok(Output::new());
        }
        let is_enum = match &t.kind {
            TypeKind::Enum { .. } => true,
            _ => false,
        };
        let mut head = String::new();
        if is_enum {
            head.append("#[derive(Ord, PartialOrd, Hash, Eq, PartialEq, Debug, Copy, Clone)]\n");
        }
        head.append(vis_str(t.vis));
        let mut output = text_output(head);
        assert(output@ == type_head(t@));
        match self.gen_kind(t) {
            Ok(next) => {
                output.push(&next);
            },
            Err(e) => {
                return Err(e);
            },
        }
        output.push(&text_output(String::from_str("\n\n")));
        Ok(output)
    }

    /// Generates the types and the loader of the package: appends the
    /// statics, the types and the body of the loader to what the generator
    /// holds. Where a name of the package does not follow the package's
    /// conventions, a constant has no text, or a type is referred to by
    /// id alone, nothing is appended.
    pub fn generate(&mut self) -> (r: Result<(), GenerateError>)
        ensures
            match r {
                Ok(_) => old(self)@.output() is Ok && final(self)@ == old(self)@.with_output(
                    old(self)@.output()->Ok_0,
                ),
                Err(e) => old(self)@.output() == Err::<OutputView, GenerateErrorView>(e@)
                    && final(self)@ == old(self)@,
            },
    {
        proof {
            use_type_invariant(&*self);
        }
        let mut output = Output::new();
        output.load.append("let ");
        output.load.append(self.package_name.as_str());
        output.load.append(" = ctx.get_package(");
        output.load.append(u64_to_string(self.package.id).as_str());
        output.load.append(");\n");
        match self.gen_types(&self.package.types) {
            Ok(types) => {
                output.push(&types);
            },
            Err(e) => {
                return Err(e);
            },
        }
        let mut statics = self.statics_block.clone();
        statics.append(output.statics.as_str());
        let mut bindings = self.bindings_block.clone();
        bindings.append(output.bindings.as_str());
        let mut load = self.load_body.clone();
        load.append(output.load.as_str());
        self.statics_block = statics;
        self.bindings_block = bindings;
        self.load_body = load;
        Ok(())
    }

    /// Generates the types and the loader of the package and gives the
    /// text of the whole file.
    pub fn render(self) -> (r: Result<String, GenerateError>)
        ensures
            match r {
                Ok(text) => self@.output() is Ok && text@ == self@.with_output(
                    self@.output()->Ok_0,
                ).file(),
                Err(e) => self@.output() == Err::<OutputView, GenerateErrorView>(e@),
            },
    {
        let mut generator = self;
        match generator.generate() {
            Ok(_) => {},
            Err(e) => {
                return Err(e);
            },
        }
        let body = without_last(indent(generator.load_body.as_str(), "\t\t").as_str());
        let mut text = String::new();
        text.append("// This file was generated by tangara-gen\n");
        text.append("// All changes in this file will discard after rebuilding project\n");
        text.append("use tangara::context::{FnDtor, Context, Ptr, Fn};\n");
        text.append("\n");
        text.append(generator.statics_block.as_str());
        text.append("\n");
        text.append(generator.bindings_block.as_str());
        text.append("\n");
        text.append("pub fn load_");
        text.append(generator.package.name.as_str());
        text.append("(ctx: &Context) {\n");
        text.append("\tunsafe {\n");
        text.append("\t\t");
        text.append(body.as_str());
        text.append("}\n");
        text.append("}\n");
        Ok(text)
    }
}

} // verus!
