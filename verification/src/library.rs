//! The types of the introspected libraries, as far as the code writers
//! look at them.
use vstd::prelude::*;

verus! {

/// Refers to a type: its namespace and its index there.
#[derive(Clone, Copy, Debug, PartialEq, Eq, Structural)]
pub struct TypeId {
    pub ns_id: u16,
    pub id: u32,
}

/// An enumeration of a library.
pub struct Enumeration {
    pub name: String,
}

/// A type of a library, by its kind.
pub enum Type {
    Class,
    Interface,
    Enumeration(Enumeration),
    Other,
}

/// The types of one namespace.
pub struct LibraryNamespace {
    pub name: String,
    pub types: Vec<Type>,
}

/// All namespaces known to the generator.
pub struct Library {
    pub namespaces: Vec<LibraryNamespace>,
}

impl Library {
    /// `tid` refers to a type of this library.
    pub open spec fn has_type(&self, tid: TypeId) -> bool {
        &&& (tid.ns_id as int) < self.namespaces@.len()
        &&& (tid.id as int) < self.namespaces@[tid.ns_id as int].types@.len()
    }

    /// The type that `tid` refers to.
    pub open spec fn type_at(&self, tid: TypeId) -> Type {
        self.namespaces@[tid.ns_id as int].types@[tid.id as int]
    }

    /// The type that `tid` refers to.
    pub fn type_(&self, tid: TypeId) -> (res: &Type)
        requires
            self.has_type(tid),
        ensures
            *res == self.type_at(tid),
    {
        &self.namespaces[tid.ns_id as usize].types[tid.id as usize]
    }
}

} // verus!
