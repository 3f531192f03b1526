//! The binding generator: from the metadata of a package to the text of the
//! glue that carries calls across the boundary.
//!
//! On the library's side the entry point generator emits one function per
//! exported member, in the shape the marshaling protocol fixes, and the
//! entry point that registers them. On the host's side the source generator
//! emits the types that pack arguments, look functions up by id and call
//! them. Both emit text only; writing it to a file is the caller's business.
use vstd::prelude::*;

use crate::generator::rust_std_lib::{first_string_from, RustStdLibView};
use crate::model::{
    Argument, ArgumentView, ConstructorView, FieldView, MethodKind, MethodView, Package,
    PackageView, PropertyView, TypeRef, TypeRefView, TypeView,
};

pub mod entrypoint_generator;
pub mod rust_std_lib;
pub mod source_generator;

pub use crate::generator::entrypoint_generator::EntrypointGenerator;
pub use crate::generator::rust_std_lib::RustStdLib;
pub use crate::generator::source_generator::{GenerateError, SourceGenerator};

verus! {

/// What the generators are to do.
#[derive(Debug)]
pub struct Config {
    /// Whether to generate internal types and members too, not only public
    /// ones.
    pub enable_internal: bool,
    /// The name of a generated constructor that has none of its own; the
    /// constructor's index is appended, as in `new0`.
    pub ctor_name: String,
    /// Whether to implement `Default` for a type that has a constructor
    /// without arguments.
    pub generate_default: bool,
    /// The name of the entry point that registers a library's functions.
    pub load_name: String,
}

pub ghost struct ConfigView {
    pub enable_internal: bool,
    pub ctor_name: Seq<char>,
    pub generate_default: bool,
    pub load_name: Seq<char>,
}

impl View for Config {
    type V = ConfigView;

    open spec fn view(&self) -> ConfigView {
        ConfigView {
            enable_internal: self.enable_internal,
            ctor_name: self.ctor_name@,
            generate_default: self.generate_default,
            load_name: self.load_name@,
        }
    }
}

impl Default for Config {
    fn default() -> (config: Config)
        ensures
            config@ == (ConfigView {
                enable_internal: false,
                ctor_name: "new"@,
                generate_default: true,
                load_name: "tgLoad"@,
            }),
    {
        Config {
            enable_internal: false,
            ctor_name: String::from_str("new"),
            generate_default: true,
            load_name: String::from_str("tgLoad"),
        }
    }
}

impl Config {
    /// Whether something of this visibility is generated: what is public,
    /// and what is internal where internals are asked for.
    pub open spec fn passes(config: ConfigView, vis: crate::model::Visibility) -> bool {
        vis == crate::model::Visibility::Public || (config.enable_internal && vis
            == crate::model::Visibility::Internal)
    }

    /// Whether something of this visibility is generated.
    pub fn pass_vis(&self, vis: crate::model::Visibility) -> (pass: bool)
        ensures
            pass == Self::passes(self@, vis),
    {
        vis == crate::model::Visibility::Public || (self.enable_internal && vis
            == crate::model::Visibility::Internal)
    }
}

/// Whether glue can carry a value of this type across: the type is given
/// by name. A type given by id or by shape is not supported, and a member
/// that needs one is left out on both sides.
pub open spec fn crosses(t: TypeRefView) -> bool {
    t is Name
}

/// Whether every argument's type is given by name.
pub open spec fn all_cross(args: Seq<ArgumentView>) -> bool {
    forall|i: int| 0 <= i < args.len() ==> crosses((#[trigger] args[i]).1)
}

/// Whether the library has a function behind a constructor: it is visible
/// enough, an attribute names the Rust function, and its arguments can
/// cross. A constructor without one keeps its place among the constructors
/// all the same, so that a constructor's index is the same for everyone.
pub open spec fn exports_constructor(
    lib: RustStdLibView,
    config: ConfigView,
    c: ConstructorView,
) -> bool {
    Config::passes(config, c.vis) && first_string_from(
        c.attrs,
        lib.constructor_name_attribute.id,
        0,
    ) is Some && all_cross(c.args)
}

/// Whether a method crosses the boundary: it is visible enough, it is a
/// default or a static method, and its arguments can cross. Both sides
/// leave out every other method of a type.
pub open spec fn exports_method(config: ConfigView, m: MethodView) -> bool {
    Config::passes(config, m.vis) && (m.kind == MethodKind::Default || m.kind
        == MethodKind::Static) && all_cross(m.args)
}

/// Whether a property crosses the boundary: its getter is visible enough
/// and its type can cross.
pub open spec fn exports_property(config: ConfigView, p: PropertyView) -> bool {
    Config::passes(config, p.getter_visibility) && crosses(p.prop_type)
}

/// Whether a field crosses the boundary: it is visible enough and its type
/// can cross.
pub open spec fn exports_field(config: ConfigView, f: FieldView) -> bool {
    Config::passes(config, f.vis) && crosses(f.field_type)
}

/// Whether the type is given by name.
pub fn type_crosses(t: &TypeRef) -> (yes: bool)
    ensures
        yes == crosses(t@),
{
    match t {
        TypeRef::Name(_) => true,
        _ => false,
    }
}

/// Whether every argument's type is given by name.
pub fn arguments_cross(args: &Vec<Argument>) -> (yes: bool)
    ensures
        yes == all_cross(args.deep_view()),
{
    let mut i: usize = 0;
    while i < args.len()
        invariant
            i <= args.len(),
            forall|j: int| 0 <= j < i ==> crosses((#[trigger] args.deep_view()[j]).1),
        decreases args.len() - i,
    {
        if !type_crosses(&args[i].1) {
            assert(!crosses(args.deep_view()[i as int].1));
            return false;
        }
        i += 1;
    }
    true
}

/// Both sides number the constructors of a type alike, by their place among
/// all its constructors. The entry point registers one function for each
/// constructor, in order, so the table holds the function of the
/// constructor number `k` at index `k`; and the bindings of the host, where
/// they have the constructor number `k` at all, fetch it at index `k`.
pub proof fn lemma_constructor_numbering(
    lib: RustStdLibView,
    config: ConfigView,
    naming: crate::naming::NamingConventionsView,
    items: Seq<ConstructorView>,
    t: TypeView,
    k: int,
)
    requires
        0 <= k < items.len(),
    ensures
        entrypoint_generator::constructors_from(lib, config, items, t, 0).load
            == entrypoint_generator::constructor_registrations(t, items.len(), 0),
        entrypoint_generator::constructor(lib, config, items[k], t, k as nat).load
            == entrypoint_generator::constructor_registration(t, k as nat),
        source_generator::constructor_output(lib, config, naming, items[k], t.name, k as nat)
            matches Ok(output) ==> output == source_generator::OutputView::nothing() || output.load
            == source_generator::constructor_fetch(t.name, k as nat),
{
    entrypoint_generator::lemma_constructor_slots(lib, config, items, t, 0);
}

/// The loader of the host fetches no more than the entry point registers:
/// where the bindings of a type hold a line that fetches a constructor, a
/// method or a property, the library exports that member, and so the entry
/// point has a line that registers it.
pub proof fn lemma_fetched_is_registered(
    lib: RustStdLibView,
    config: ConfigView,
    naming: crate::naming::NamingConventionsView,
    t: TypeView,
    c: ConstructorView,
    index: nat,
    m: MethodView,
    p: PropertyView,
)
    ensures
        source_generator::constructor_output(lib, config, naming, c, t.name, index) matches Ok(
            output,
        ) ==> output.load.len() > 0 ==> Config::passes(config, c.vis) && all_cross(c.args)
            && entrypoint_generator::constructor(lib, config, c, t, index).load
            == entrypoint_generator::constructor_registration(t, index),
        source_generator::method_output(lib, config, naming, m, t.name) matches Ok(output)
            ==> output.load.len() > 0 ==> exports_method(config, m)
            && entrypoint_generator::method(lib, config, m, t).load.len() > 0,
        source_generator::property_output(config, naming, p, Some(t.name)) matches Ok(output)
            ==> output.load.len() > 0 ==> exports_property(config, p)
            && entrypoint_generator::property(config, p, t).load.len() > 0,
{
    reveal_strlit(".add_method(");
    reveal_strlit(".add_property(");
}

/// Generates Rust glue for one package.
pub struct RustGenerator {
    config: Config,
    package: Package,
}

impl RustGenerator {
    pub closed spec fn config(&self) -> ConfigView {
        self.config@
    }

    pub closed spec fn package(&self) -> PackageView {
        self.package@
    }

    pub fn new(package: Package, config: Config) -> (r: Self)
        ensures
            r.package() == package@,
            r.config() == config@,
    {
        Self { config, package }
    }

    /// The generator of the library's side.
    pub fn generate_entrypoint(self) -> (r: EntrypointGenerator)
        ensures
            r@ == crate::generator::entrypoint_generator::EntrypointView::fresh(
                self.package(),
                self.config(),
            ),
    {
        EntrypointGenerator::new(self.package, self.config)
    }

    /// The generator of the host's side. Fails where the package's name
    /// does not follow the package's conventions.
    pub fn generate_bindings(self) -> (r: Result<SourceGenerator, GenerateError>)
        ensures
            match r {
                Ok(g) => crate::generator::source_generator::SourceView::fresh(
                    self.package(),
                    self.config(),
                ) == Ok::<
                    crate::generator::source_generator::SourceView,
                    crate::generator::source_generator::GenerateErrorView,
                >(g@),
                Err(e) => crate::generator::source_generator::SourceView::fresh(
                    self.package(),
                    self.config(),
                ) == Err::<
                    crate::generator::source_generator::SourceView,
                    crate::generator::source_generator::GenerateErrorView,
                >(e@),
            },
    {
        SourceGenerator::new(self.package, self.config)
    }
}

} // verus!
