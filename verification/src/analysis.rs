//! What the analysis of a library hands to the code writers.
use vstd::prelude::*;
use crate::library::TypeId;
use crate::version::Version;

verus! {

/// What the generator does with an object.
#[derive(Clone, Copy, Debug, PartialEq, Eq, Structural)]
pub enum GStatus {
    Manual,
    Generate,
    Comment,
    Ignore,
}

impl GStatus {
    /// The object is left out.
    pub fn ignored(&self) -> (res: bool)
        ensures
            res == (*self == GStatus::Ignore),
    {
        match self {
            GStatus::Ignore => true,
            _ => false,
        }
    }

    /// Code is generated for the object.
    pub fn need_generate(&self) -> (res: bool)
        ensures
            res == (*self == GStatus::Generate),
    {
        match self {
            GStatus::Generate => true,
            _ => false,
        }
    }
}

/// Visibility of a generated item.
#[derive(Clone, Copy, Debug, PartialEq, Eq, Structural)]
pub enum Visibility {
    Public,
    Crate,
    Private,
    Hidden,
}

impl Visibility {
    /// The item is hidden from the documentation.
    pub fn hidden(&self) -> (res: bool)
        ensures
            res == (*self == Visibility::Hidden),
    {
        match self {
            Visibility::Hidden => true,
            _ => false,
        }
    }
}

/// A parent type (class or interface) together with its name and status.
pub struct StatusedTypeId {
    pub type_id: TypeId,
    pub name: String,
    pub status: GStatus,
}

/// A function of a boxed type that the wrapper calls, such as its copy
/// function.
pub struct TraitInfo {
    pub glib_name: String,
    pub version: Option<Version>,
    pub first_parameter_mut: bool,
}

/// The conditions under which an import is needed.
pub struct ImportConditions {
    /// The version from which on the import is needed, if any.
    pub version: Option<Version>,
    /// Further cfg predicates, all of which must hold.
    pub constraints: Vec<String>,
}

/// One `use` item with its conditions.
pub struct ImportEntry {
    pub name: String,
    pub conditions: ImportConditions,
}

/// The imports of a generated file, in the order in which they are written.
pub struct Imports {
    pub entries: Vec<ImportEntry>,
}

/// A parameter of a C function.
pub struct CParameter {
    pub name: String,
    pub typ: TypeId,
    /// The parameter is the object the function is called on.
    pub instance_parameter: bool,
}

/// How a Rust value is handed to a C parameter.
pub enum TransformationType {
    /// Passed as it is.
    ToGlibDirect { name: String },
    /// Converted as a scalar.
    ToGlibScalar { name: String },
    /// Converted to a pointer.
    ToGlibPointer { name: String },
}

/// The conversion for the C parameter at index `ind_c`.
pub struct Transformation {
    pub ind_c: usize,
    pub transformation_type: TransformationType,
}

/// The parameters of a function, on the C and on the Rust side.
pub struct Parameters {
    pub c_parameters: Vec<CParameter>,
    /// Names of the parameters of the generated Rust function.
    pub rust_parameters: Vec<String>,
    pub transformations: Vec<Transformation>,
}

/// A function of the library as the analysis describes it.
pub struct FunctionInfo {
    pub name: String,
    pub visibility: Visibility,
    pub status: GStatus,
    pub version: Option<Version>,
    pub parameters: Parameters,
}

} // verus!
