//! WIT packages with their names resolved.

use vstd::prelude::*;

verus! {

/// A type where it is used.
#[derive(Debug, Clone, Copy, PartialEq, Eq, Structural)]
pub enum WitType {
    Bool,
    Integer,
    Float,
    Text,
    /// A declared type, by its index.
    Id(usize),
    /// A type that no model can have.
    Unsupported,
}

/// What a type is declared in.
#[derive(Debug, Clone, Copy, PartialEq, Eq, Structural)]
pub enum WitOwner {
    Interface(usize),
    World(usize),
    Unowned,
}

/// A field of a record.
#[derive(Debug, Clone)]
pub struct WitField {
    pub name: String,
    pub docs: Option<String>,
    pub ty: WitType,
}

/// A case of a variant.
#[derive(Debug, Clone)]
pub struct WitCase {
    pub name: String,
    pub ty: Option<WitType>,
}

/// What a declared type is.
#[derive(Debug, Clone)]
pub enum WitTypeKind {
    Record(Vec<WitField>),
    Resource,
    Own(usize),
    Borrow(usize),
    Flags(Vec<String>),
    Tuple(Vec<WitType>),
    Variant(Vec<WitCase>),
    Enumeration(Vec<String>),
    Optional(WitType),
    Outcome(Option<WitType>, Option<WitType>),
    List(WitType),
    Mapping(WitType, WitType),
    Alias(WitType),
    /// A kind that no model can have, by its name.
    Other(String),
}

/// A declared type.
#[derive(Debug, Clone)]
pub struct WitTypeDef {
    pub name: Option<String>,
    pub docs: Option<String>,
    pub owner: WitOwner,
    pub kind: WitTypeKind,
}

/// What a function belongs to.
#[derive(Debug, Clone, Copy, PartialEq, Eq, Structural)]
pub enum WitFunctionKind {
    Freestanding,
    Method(usize),
    Static(usize),
    Constructor(usize),
    Other,
}

/// A parameter of a function.
#[derive(Debug, Clone)]
pub struct WitParam {
    pub name: String,
    pub ty: WitType,
}

/// A function of an interface.
#[derive(Debug, Clone)]
pub struct WitFunction {
    pub name: String,
    pub docs: Option<String>,
    pub kind: WitFunctionKind,
    pub params: Vec<WitParam>,
    pub result: Option<WitType>,
}

/// A name for something, by its index.
#[derive(Debug, Clone)]
pub struct WitName {
    pub name: String,
    pub id: usize,
}

/// An interface, with its types and functions in their order.
#[derive(Debug, Clone)]
pub struct WitInterface {
    pub name: Option<String>,
    pub docs: Option<String>,
    pub types: Vec<WitName>,
    pub functions: Vec<WitFunction>,
}

/// An exported interface: by its index, with its own name where the export gives one.
#[derive(Debug, Clone)]
pub struct WitExport {
    pub name: Option<String>,
    pub interface: usize,
}

/// A world, with the interfaces that it exports.
#[derive(Debug, Clone)]
pub struct WitWorld {
    pub name: String,
    pub docs: Option<String>,
    pub exports: Vec<WitExport>,
}

/// A package, with its worlds and interfaces in their order.
#[derive(Debug, Clone)]
pub struct WitPackage {
    pub namespace: String,
    pub name: String,
    pub version: Option<String>,
    pub docs: Option<String>,
    pub worlds: Vec<WitName>,
    pub interfaces: Vec<usize>,
}

/// Packages that refer to each other.
#[derive(Debug, Clone)]
pub struct WitDocument {
    pub types: Vec<WitTypeDef>,
    pub interfaces: Vec<WitInterface>,
    pub worlds: Vec<WitWorld>,
    pub packages: Vec<WitPackage>,
}

/// Whether a type is declared before an index, where it is a declared one.
pub open spec fn type_below(ty: WitType, limit: int) -> bool {
    match ty {
        WitType::Id(id) => id < limit,
        _ => true,
    }
}

/// Whether an optional type is declared before an index.
pub open spec fn opt_type_below(ty: Option<WitType>, limit: int) -> bool {
    match ty {
        Some(ty) => type_below(ty, limit),
        None => true,
    }
}

/// Whether a kind refers only to types that are declared before an index, and the cases of an
/// enumeration can be numbered.
pub open spec fn kind_below(kind: WitTypeKind, limit: int) -> bool {
    match kind {
        WitTypeKind::Record(fields) => forall|i: int|
            0 <= i < fields@.len() ==> type_below((#[trigger] fields@[i]).ty, limit),
        WitTypeKind::Own(id) => id < limit,
        WitTypeKind::Borrow(id) => id < limit,
        WitTypeKind::Tuple(items) => forall|i: int|
            0 <= i < items@.len() ==> type_below(#[trigger] items@[i], limit),
        WitTypeKind::Variant(cases) => forall|i: int|
            0 <= i < cases@.len() ==> opt_type_below((#[trigger] cases@[i]).ty, limit),
        WitTypeKind::Enumeration(cases) => cases@.len() <= i32::MAX,
        WitTypeKind::Optional(inner) => type_below(inner, limit),
        WitTypeKind::Outcome(ok, err) => opt_type_below(ok, limit) && opt_type_below(err, limit),
        WitTypeKind::List(inner) => type_below(inner, limit),
        WitTypeKind::Mapping(key, value) => type_below(key, limit) && type_below(value, limit),
        WitTypeKind::Alias(next) => type_below(next, limit),
        _ => true,
    }
}

impl WitDocument {
    /// Whether the owner of a type is there.
    pub open spec fn owner_ok(&self, owner: WitOwner) -> bool {
        match owner {
            WitOwner::Interface(id) => id < self.interfaces@.len(),
            WitOwner::World(id) => id < self.worlds@.len(),
            WitOwner::Unowned => true,
        }
    }

    /// Whether a declared type refers only to types before it, and its owner is there.
    pub open spec fn type_ok(&self, id: int) -> bool {
        &&& kind_below(self.types@[id].kind, id)
        &&& self.owner_ok(self.types@[id].owner)
    }

    /// Whether a function refers only to declared types.
    pub open spec fn function_ok(&self, function: WitFunction) -> bool {
        &&& forall|i: int|
            0 <= i < function.params@.len() ==> type_below(
            (#[trigger] function.params@[i]).ty,
            self.types@.len() as int,
        )
        &&& opt_type_below(function.result, self.types@.len() as int)
    }

    /// Whether an interface refers only to declared types.
    pub open spec fn interface_ok(&self, interface: WitInterface) -> bool {
        &&& forall|i: int|
            0 <= i < interface.types@.len() ==> (#[trigger] interface.types@[i]).id
            < self.types@.len()
        &&& forall|i: int|
            0 <= i < interface.functions@.len() ==> self.function_ok(
            #[trigger] interface.functions@[i],
        )
    }

    /// Whether a world exports only declared interfaces.
    pub open spec fn world_ok(&self, world: WitWorld) -> bool {
        forall|i: int|
            0 <= i < world.exports@.len() ==> (#[trigger] world.exports@[i]).interface
            < self.interfaces@.len()
    }

    /// Whether a package holds only declared worlds and interfaces.
    pub open spec fn package_ok(&self, package: WitPackage) -> bool {
        &&& forall|i: int|
            0 <= i < package.worlds@.len() ==> (#[trigger] package.worlds@[i]).id
            < self.worlds@.len()
        &&& forall|i: int|
            0 <= i < package.interfaces@.len() ==> (#[trigger] package.interfaces@[i])
            < self.interfaces@.len()
    }

    /// Whether every index is one of something declared, and every type comes after the types
    /// that it is made of.
    pub open spec fn wf(&self) -> bool {
        &&& forall|id: int| 0 <= id < self.types@.len() ==> #[trigger] self.type_ok(id)
        &&& forall|i: int|
            0 <= i < self.interfaces@.len() ==> self.interface_ok(#[trigger] self.interfaces@[i])
        &&& forall|i: int|
            0 <= i < self.worlds@.len() ==> self.world_ok(#[trigger] self.worlds@[i])
        &&& forall|i: int|
            0 <= i < self.packages@.len() ==> self.package_ok(#[trigger] self.packages@[i])
    }

    /// Whether the document is well-formed.
    pub fn is_well_formed(&self) -> (result: bool)
        ensures
            result == self.wf(),
    {
        let mut i: usize = 0;
        while i < self.types.len()
            invariant
                i <= self.types.len(),
                forall|id: int| 0 <= id < i ==> #[trigger] self.type_ok(id),
            decreases self.types.len() - i,
        {
            if !kind_is_below(&self.types[i].kind, i) || !self.owner_is_ok(self.types[i].owner) {
                assert(!self.type_ok(i as int));
                return false;
            }
            assert(self.type_ok(i as int));
            i += 1;
        }
        let mut i: usize = 0;
        while i < self.interfaces.len()
            invariant
                i <= self.interfaces.len(),
                forall|k: int| 0 <= k < i ==> self.interface_ok(#[trigger] self.interfaces@[k]),
            decreases self.interfaces.len() - i,
        {
            if !self.interface_is_ok(&self.interfaces[i]) {
                return false;
            }
            i += 1;
        }
        let mut i: usize = 0;
        while i < self.worlds.len()
            invariant
                i <= self.worlds.len(),
                forall|k: int| 0 <= k < i ==> self.world_ok(#[trigger] self.worlds@[k]),
            decreases self.worlds.len() - i,
        {
            let exports = &self.worlds[i].exports;
            let mut k: usize = 0;
            while k < exports.len()
                invariant
                    i < self.worlds.len(),
                    exports == &self.worlds@[i as int].exports,
                    k <= exports.len(),
                    forall|j: int|
                        0 <= j < k ==> (#[trigger] exports@[j]).interface
                            < self.interfaces@.len(),
                decreases exports.len() - k,
            {
                if exports[k].interface >= self.interfaces.len() {
                    assert(!self.world_ok(self.worlds@[i as int]));
                    return false;
                }
                k += 1;
            }
            i += 1;
        }
        let mut i: usize = 0;
        while i < self.packages.len()
            invariant
                i <= self.packages.len(),
                forall|k: int| 0 <= k < i ==> self.package_ok(#[trigger] self.packages@[k]),
            decreases self.packages.len() - i,
        {
            if !self.package_is_ok(&self.packages[i]) {
                return false;
            }
            i += 1;
        }
        true
    }

    fn owner_is_ok(&self, owner: WitOwner) -> (result: bool)
        ensures
            result == self.owner_ok(owner),
    {
        match owner {
            WitOwner::Interface(id) => id < self.interfaces.len(),
            WitOwner::World(id) => id < self.worlds.len(),
            WitOwner::Unowned => true,
        }
    }

    fn function_is_ok(&self, function: &WitFunction) -> (result: bool)
        ensures
            result == self.function_ok(*function),
    {
        let mut i: usize = 0;
        while i < function.params.len()
            invariant
                i <= function.params.len(),
                forall|k: int|
                    0 <= k < i ==> type_below(
                        (#[trigger] function.params@[k]).ty,
                        self.types@.len() as int,
                    ),
            decreases function.params.len() - i,
        {
            if !type_is_below(function.params[i].ty, self.types.len()) {
                return false;
            }
            i += 1;
        }
        opt_type_is_below(function.result, self.types.len())
    }

    fn interface_is_ok(&self, interface: &WitInterface) -> (result: bool)
        ensures
            result == self.interface_ok(*interface),
    {
        let mut i: usize = 0;
        while i < interface.types.len()
            invariant
                i <= interface.types.len(),
                forall|k: int|
                    0 <= k < i ==> (#[trigger] interface.types@[k]).id < self.types@.len(),
            decreases interface.types.len() - i,
        {
            if interface.types[i].id >= self.types.len() {
                return false;
            }
            i += 1;
        }
        let mut i: usize = 0;
        while i < interface.functions.len()
            invariant
                i <= interface.functions.len(),
                forall|k: int|
                    0 <= k < i ==> self.function_ok(#[trigger] interface.functions@[k]),
            decreases interface.functions.len() - i,
        {
            if !self.function_is_ok(&interface.functions[i]) {
                return false;
            }
            i += 1;
        }
        true
    }

    fn package_is_ok(&self, package: &WitPackage) -> (result: bool)
        ensures
            result == self.package_ok(*package),
    {
        let mut i: usize = 0;
        while i < package.worlds.len()
            invariant
                i <= package.worlds.len(),
                forall|k: int|
                    0 <= k < i ==> (#[trigger] package.worlds@[k]).id < self.worlds@.len(),
            decreases package.worlds.len() - i,
        {
            if package.worlds[i].id >= self.worlds.len() {
                return false;
            }
            i += 1;
        }
        let mut i: usize = 0;
        while i < package.interfaces.len()
            invariant
                i <= package.interfaces.len(),
                forall|k: int|
                    0 <= k < i ==> (#[trigger] package.interfaces@[k]) < self.interfaces@.len(),
            decreases package.interfaces.len() - i,
        {
            if package.interfaces[i] >= self.interfaces.len() {
                return false;
            }
            i += 1;
        }
        true
    }
}

fn type_is_below(ty: WitType, limit: usize) -> (result: bool)
    ensures
        result == type_below(ty, limit as int),
{
    match ty {
        WitType::Id(id) => id < limit,
        _ => true,
    }
}

fn opt_type_is_below(ty: Option<WitType>, limit: usize) -> (result: bool)
    ensures
        result == opt_type_below(ty, limit as int),
{
    match ty {
        Some(ty) => type_is_below(ty, limit),
        None => true,
    }
}

#[verifier::loop_isolation(false)]
fn kind_is_below(kind: &WitTypeKind, limit: usize) -> (result: bool)
    ensures
        result == kind_below(*kind, limit as int),
{
    match kind {
        WitTypeKind::Record(fields) => {
            let mut i: usize = 0;
            while i < fields.len()
                invariant
                    i <= fields.len(),
                    forall|k: int|
                        0 <= k < i ==> type_below((#[trigger] fields@[k]).ty, limit as int),
                decreases fields.len() - i,
            {
                if !type_is_below(fields[i].ty, limit) {
                    return false;
                }
                i += 1;
            }
            true
        },
        WitTypeKind::Own(id) => *id < limit,
        WitTypeKind::Borrow(id) => *id < limit,
        WitTypeKind::Tuple(items) => {
            let mut i: usize = 0;
            while i < items.len()
                invariant
                    i <= items.len(),
                    forall|k: int| 0 <= k < i ==> type_below(#[trigger] items@[k], limit as int),
                decreases items.len() - i,
            {
                if !type_is_below(items[i], limit) {
                    return false;
                }
                i += 1;
            }
            true
        },
        WitTypeKind::Variant(cases) => {
            let mut i: usize = 0;
            while i < cases.len()
                invariant
                    i <= cases.len(),
                    forall|k: int|
                        0 <= k < i ==> opt_type_below((#[trigger] cases@[k]).ty, limit as int),
                decreases cases.len() - i,
            {
                if !opt_type_is_below(cases[i].ty, limit) {
                    return false;
                }
                i += 1;
            }
            true
        },
        WitTypeKind::Enumeration(cases) => cases.len() <= 0x7fff_ffff,
        WitTypeKind::Optional(inner) => type_is_below(*inner, limit),
        WitTypeKind::Outcome(ok, err) => opt_type_is_below(*ok, limit) && opt_type_is_below(
            *err,
            limit,
        ),
        WitTypeKind::List(inner) => type_is_below(*inner, limit),
        WitTypeKind::Mapping(key, value) => type_is_below(*key, limit) && type_is_below(
            *value,
            limit,
        ),
        WitTypeKind::Alias(next) => type_is_below(*next, limit),
        _ => true,
    }
}

} // verus!
