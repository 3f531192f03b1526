//! The dynamic registry: packages, their types, and each type's functions,
//! found by id.
//!
//! A host creates an empty `Context`. A library's entry point then registers
//! one package, its types and their functions, once, before any call crosses
//! the boundary; afterwards the registry is only read. The registry knows
//! nothing of unloading: a function address is only as good as the library
//! it came from.
use std::collections::HashMap;
use vstd::prelude::*;

verus! {

/// An untyped address on the other side of the boundary. It owns nothing by
/// itself.
#[derive(PartialEq, Eq, Structural, Hash, Debug, Clone, Copy)]
pub struct Ptr {
    pub addr: usize,
}

impl Ptr {
    /// The null address: what an operation that produces nothing returns.
    pub fn null() -> (p: Ptr)
        ensures
            p.addr == 0,
    {
        Ptr { addr: 0 }
    }

    pub fn is_null(&self) -> (null: bool)
        ensures
            null == (self.addr == 0),
    {
        self.addr == 0
    }
}

/// Address of a destructor: takes the object.
#[derive(PartialEq, Eq, Structural, Hash, Debug, Clone, Copy)]
pub struct FnDtor {
    pub addr: usize,
}

/// Address of a constructor or a method: takes the size of the packed
/// arguments and their buffer, returns the result.
#[derive(PartialEq, Eq, Structural, Hash, Debug, Clone, Copy)]
pub struct FnCall {
    pub addr: usize,
}

/// Address of a getter: takes the object, returns the value.
#[derive(PartialEq, Eq, Structural, Hash, Debug, Clone, Copy)]
pub struct FnGetter {
    pub addr: usize,
}

/// Address of a setter: takes the object and the value.
#[derive(PartialEq, Eq, Structural, Hash, Debug, Clone, Copy)]
pub struct FnSetter {
    pub addr: usize,
}

/// Address of a static getter: returns the value.
#[derive(PartialEq, Eq, Structural, Hash, Debug, Clone, Copy)]
pub struct FnStaticGetter {
    pub addr: usize,
}

/// Address of a static setter: takes the value.
#[derive(PartialEq, Eq, Structural, Hash, Debug, Clone, Copy)]
pub struct FnStaticSetter {
    pub addr: usize,
}

/// The functions of a property or a field. `setter` is `None` for what can
/// only be read.
#[derive(PartialEq, Eq, Structural, Hash, Debug, Clone, Copy)]
pub struct Property {
    pub getter: FnGetter,
    pub setter: Option<FnSetter>,
}

/// The functions of a static property or a static field.
#[derive(PartialEq, Eq, Structural, Hash, Debug, Clone, Copy)]
pub struct StaticProperty {
    pub getter: FnStaticGetter,
    pub setter: Option<FnStaticSetter>,
}

/// What a lookup was after.
#[derive(PartialEq, Eq, Structural, Hash, Debug, Clone, Copy)]
pub enum Entry {
    Package,
    Type,
    Destructor,
    Constructor,
    Method,
    Property,
    StaticProperty,
}

/// The registry holds nothing of kind `entry` under `key`. For a
/// constructor the key is its index, for a destructor it is 0.
#[derive(PartialEq, Eq, Structural, Hash, Debug, Clone, Copy)]
pub struct NotFound {
    pub entry: Entry,
    pub key: u64,
}

/// The functions of one type.
pub struct FuncTable {
    dtor: Option<FnDtor>,
    ctors: Vec<FnCall>,
    methods: HashMap<u64, FnCall>,
    properties: HashMap<u64, Property>,
    statics: HashMap<u64, StaticProperty>,
}

pub ghost struct FuncTableView {
    pub dtor: Option<FnDtor>,
    /// Constructors by position: the index is the overload's number.
    pub ctors: Seq<FnCall>,
    pub methods: Map<u64, FnCall>,
    pub properties: Map<u64, Property>,
    pub statics: Map<u64, StaticProperty>,
}

impl FuncTableView {
    /// The table of a type of which nothing is registered yet.
    pub open spec fn empty() -> FuncTableView {
        FuncTableView {
            dtor: None,
            ctors: Seq::empty(),
            methods: Map::empty(),
            properties: Map::empty(),
            statics: Map::empty(),
        }
    }
}

impl View for FuncTable {
    type V = FuncTableView;

    closed spec fn view(&self) -> FuncTableView {
        FuncTableView {
            dtor: self.dtor,
            ctors: self.ctors@,
            methods: self.methods@,
            properties: self.properties@,
            statics: self.statics@,
        }
    }
}

impl FuncTable {
    pub(crate) fn new() -> (table: Self)
        ensures
            table@ == FuncTableView::empty(),
    {
        Self {
            dtor: None,
            ctors: Vec::new(),
            methods: HashMap::new(),
            properties: HashMap::new(),
            statics: HashMap::new(),
        }
    }

    /// Registers the destructor, in place of any registered before.
    pub fn set_dtor(&mut self, dtor: FnDtor)
        ensures
            final(self)@ == (FuncTableView { dtor: Some(dtor), ..old(self)@ }),
    {
        self.dtor = Some(dtor);
    }

    /// The destructor, if one is registered.
    pub fn get_dtor(&self) -> (r: Result<FnDtor, NotFound>)
        ensures
            r == (match self@.dtor {
                Some(dtor) => Ok::<FnDtor, NotFound>(dtor),
                None => Err(NotFound { entry: Entry::Destructor, key: 0 }),
            }),
    {
        match self.dtor {
            Some(dtor) => Ok(dtor),
            None => Err(NotFound { entry: Entry::Destructor, key: 0 }),
        }
    }

    /// Registers one more constructor and returns its index.
    pub fn add_ctor(&mut self, ctor: FnCall) -> (index: usize)
        ensures
            final(self)@ == (FuncTableView { ctors: old(self)@.ctors.push(ctor), ..old(self)@ }),
            index == old(self)@.ctors.len(),
    {
        self.ctors.push(ctor);
        self.ctors.len() - 1
    }

    /// The constructor at `index`.
    pub fn get_ctor(&self, index: usize) -> (r: Result<&FnCall, NotFound>)
        ensures
            match r {
                Ok(ctor) => index < self@.ctors.len() && *ctor == self@.ctors[index as int],
                Err(e) => index >= self@.ctors.len() && e == (NotFound {
                    entry: Entry::Constructor,
                    key: index as u64,
                }),
            },
    {
        if index < self.ctors.len() {
            Ok(&self.ctors[index])
        } else {
            Err(NotFound { entry: Entry::Constructor, key: index as u64 })
        }
    }

    /// Registers the method with this id, in place of any registered under it.
    pub fn add_method(&mut self, id: u64, func: FnCall)
        ensures
            final(self)@ == (FuncTableView {
                methods: old(self)@.methods.insert(id, func),
                ..old(self)@
            }),
    {
        self.methods.insert(id, func);
    }

    /// The method with this id.
    pub fn get_method(&self, id: u64) -> (r: Result<&FnCall, NotFound>)
        ensures
            match r {
                Ok(func) => self@.methods.contains_key(id) && *func == self@.methods[id],
                Err(e) => !self@.methods.contains_key(id) && e == (NotFound {
                    entry: Entry::Method,
                    key: id,
                }),
            },
    {
        match self.methods.get(&id) {
            Some(func) => Ok(func),
            None => Err(NotFound { entry: Entry::Method, key: id }),
        }
    }

    /// Registers the property with this id, in place of any registered under it.
    pub fn add_property(&mut self, id: u64, property: Property)
        ensures
            final(self)@ == (FuncTableView {
                properties: old(self)@.properties.insert(id, property),
                ..old(self)@
            }),
    {
        self.properties.insert(id, property);
    }

    /// The property with this id.
    pub fn get_property(&self, id: u64) -> (r: Result<&Property, NotFound>)
        ensures
            match r {
                Ok(property) => self@.properties.contains_key(id) && *property
                    == self@.properties[id],
                Err(e) => !self@.properties.contains_key(id) && e == (NotFound {
                    entry: Entry::Property,
                    key: id,
                }),
            },
    {
        match self.properties.get(&id) {
            Some(property) => Ok(property),
            None => Err(NotFound { entry: Entry::Property, key: id }),
        }
    }

    /// Registers the static property with this id, in place of any
    /// registered under it.
    pub fn add_static(&mut self, id: u64, static_property: StaticProperty)
        ensures
            final(self)@ == (FuncTableView {
                statics: old(self)@.statics.insert(id, static_property),
                ..old(self)@
            }),
    {
        self.statics.insert(id, static_property);
    }

    /// The static property with this id.
    pub fn get_static(&self, id: u64) -> (r: Result<&StaticProperty, NotFound>)
        ensures
            match r {
                Ok(property) => self@.statics.contains_key(id) && *property == self@.statics[id],
                Err(e) => !self@.statics.contains_key(id) && e == (NotFound {
                    entry: Entry::StaticProperty,
                    key: id,
                }),
            },
    {
        match self.statics.get(&id) {
            Some(property) => Ok(property),
            None => Err(NotFound { entry: Entry::StaticProperty, key: id }),
        }
    }
}

/// The types of one package.
pub struct TypeTable {
    types: HashMap<u64, FuncTable>,
}

impl View for TypeTable {
    type V = Map<u64, FuncTableView>;

    closed spec fn view(&self) -> Map<u64, FuncTableView> {
        self.types@.map_values(|table: FuncTable| table@)
    }
}

impl TypeTable {
    pub(crate) fn new() -> (table: Self)
        ensures
            table@ == Map::<u64, FuncTableView>::empty(),
    {
        let table = Self { types: HashMap::new() };
        assert(table@ =~= Map::<u64, FuncTableView>::empty());
        table
    }

    /// Registers the type with this id, with an empty table, in place of any
    /// registered under it, and hands the table out to be filled.
    pub fn add_type(&mut self, id: u64) -> (table: &mut FuncTable)
        ensures
            table@ == FuncTableView::empty(),
            final(self)@ == old(self)@.insert(id, final(table)@),
    {
        self.types.entry(id).insert_entry(FuncTable::new()).into_mut()
    }

    /// The table of the type with this id.
    pub fn get_type(&self, id: u64) -> (r: Result<&FuncTable, NotFound>)
        ensures
            match r {
                Ok(table) => self@.contains_key(id) && table@ == self@[id],
                Err(e) => !self@.contains_key(id) && e == (NotFound {
                    entry: Entry::Type,
                    key: id,
                }),
            },
    {
        match self.types.get(&id) {
            Some(table) => Ok(table),
            None => Err(NotFound { entry: Entry::Type, key: id }),
        }
    }
}

/// The registry: the packages that have been loaded.
pub struct Context {
    pkgs: HashMap<u64, TypeTable>,
}

impl View for Context {
    type V = Map<u64, Map<u64, FuncTableView>>;

    closed spec fn view(&self) -> Map<u64, Map<u64, FuncTableView>> {
        self.pkgs@.map_values(|table: TypeTable| table@)
    }
}

impl Context {
    pub(crate) fn new() -> (ctx: Self)
        ensures
            ctx@ == Map::<u64, Map<u64, FuncTableView>>::empty(),
    {
        let ctx = Self { pkgs: HashMap::new() };
        assert(ctx@ =~= Map::<u64, Map<u64, FuncTableView>>::empty());
        ctx
    }

    /// Registers the package with this id, with no types, in place of any
    /// registered under it, and hands its table out to be filled.
    pub fn add_package(&mut self, id: u64) -> (table: &mut TypeTable)
        ensures
            table@ == Map::<u64, FuncTableView>::empty(),
            final(self)@ == old(self)@.insert(id, final(table)@),
    {
        self.pkgs.entry(id).insert_entry(TypeTable::new()).into_mut()
    }

    /// The table of the package with this id.
    pub fn get_package(&self, id: u64) -> (r: Result<&TypeTable, NotFound>)
        ensures
            match r {
                Ok(table) => self@.contains_key(id) && table@ == self@[id],
                Err(e) => !self@.contains_key(id) && e == (NotFound {
                    entry: Entry::Package,
                    key: id,
                }),
            },
    {
        match self.pkgs.get(&id) {
            Some(table) => Ok(table),
            None => Err(NotFound { entry: Entry::Package, key: id }),
        }
    }
}

/// Owns the registry of one host.
pub struct Runtime {
    context: Context,
}

impl Runtime {
    pub closed spec fn context(&self) -> Context {
        self.context
    }

    /// A runtime with an empty registry.
    pub fn new() -> (rt: Self)
        ensures
            rt.context()@ == Map::<u64, Map<u64, FuncTableView>>::empty(),
    {
        Self { context: Context::new() }
    }

    /// The registry, to be filled or read.
    pub fn use_context(&mut self) -> (ctx: &mut Context)
        ensures
            *ctx == old(self).context(),
            final(self).context() == *final(ctx),
    {
        &mut self.context
    }
}

/// What looking up the destructor of type `ty` of package `package` gives:
/// the three lookups in a row, and the first that fails.
pub open spec fn find_dtor(ctx: Map<u64, Map<u64, FuncTableView>>, package: u64, ty: u64) -> Result<
    FnDtor,
    NotFound,
> {
    if !ctx.contains_key(package) {
        Err(NotFound { entry: Entry::Package, key: package })
    } else if !ctx[package].contains_key(ty) {
        Err(NotFound { entry: Entry::Type, key: ty })
    } else {
        match ctx[package][ty].dtor {
            Some(dtor) => Ok(dtor),
            None => Err(NotFound { entry: Entry::Destructor, key: 0 }),
        }
    }
}

/// Registry round trip. Register package `package`, in it type `ty`, for it
/// the destructor `dtor`: looking that destructor up gives exactly `dtor`.
/// For a package id `other` that was not registered, before or now, the
/// lookup fails with `NotFound`.
pub proof fn lemma_registry_round_trip(
    before: Map<u64, Map<u64, FuncTableView>>,
    package: u64,
    ty: u64,
    dtor: FnDtor,
    other: u64,
)
    requires
        other != package,
        !before.contains_key(other),
    ensures
        ({
            let table = FuncTableView { dtor: Some(dtor), ..FuncTableView::empty() };
            let types = Map::<u64, FuncTableView>::empty().insert(ty, table);
            let after = before.insert(package, types);
            &&& find_dtor(after, package, ty) == Ok::<FnDtor, NotFound>(dtor)
            &&& find_dtor(after, other, ty) == Err::<FnDtor, NotFound>(
                NotFound { entry: Entry::Package, key: other },
            )
        }),
{
}

} // verus!
