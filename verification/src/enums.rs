//! Enumerations: what is kept of an analysed enumeration, and the marking
//! of enumeration functions that take the enumeration as their first
//! parameter as methods on it.
use vstd::prelude::*;
use vstd::string::*;
use crate::analysis::{
    CParameter, FunctionInfo, GStatus, Parameters, Transformation, TransformationType, Visibility,
};
use crate::library::{Enumeration, Library, Type, TypeId};

verus! {

/// An analysed enumeration.
pub struct Info {
    pub full_name: String,
    pub type_id: TypeId,
    pub name: String,
    pub functions: Vec<FunctionInfo>,
    pub visibility: Visibility,
}

impl Info {
    /// The enumeration of the library that this info describes.
    pub fn type_<'a>(&self, library: &'a Library) -> (res: &'a Enumeration)
        requires
            library.has_type(self.type_id),
            library.type_at(self.type_id) is Enumeration,
        ensures
            library.type_at(self.type_id) == Type::Enumeration(*res),
    {
        match library.type_(self.type_id) {
            Type::Enumeration(e) => e,
            _ => vstd::pervasive::unreached(),
        }
    }
}

/// The first C parameter of `f` has the type `tid`.
pub open spec fn first_parameter_has_type(f: FunctionInfo, tid: TypeId) -> bool {
    f.parameters.c_parameters@.len() > 0 && f.parameters.c_parameters@[0].typ == tid
}

/// `ts[k]` is the first conversion of the first C parameter.
pub open spec fn is_first_conversion_of_first(ts: Seq<Transformation>, k: int) -> bool {
    &&& 0 <= k < ts.len()
    &&& ts[k].ind_c == 0
    &&& forall|j: int| 0 <= j < k ==> ts[j].ind_c != 0
}

/// The first parameter of `f`, where it has the type `tid`, is converted
/// as a scalar: it can be passed as `self`.
pub open spec fn instance_convertible(f: FunctionInfo, tid: TypeId) -> bool {
    first_parameter_has_type(f, tid) ==> exists|k: int|
        is_first_conversion_of_first(f.parameters.transformations@, k)
            && f.parameters.transformations@[k].transformation_type is ToGlibScalar
}

/// `new` is `old` with its first C parameter marked as the instance and the
/// conversion `k` of it renamed to `self`; all else is as it was.
pub open spec fn marked_as_method(old: FunctionInfo, new: FunctionInfo, k: int) -> bool {
    let oc = old.parameters.c_parameters@;
    let nc = new.parameters.c_parameters@;
    let ot = old.parameters.transformations@;
    let nt = new.parameters.transformations@;
    &&& new.name == old.name
    &&& new.visibility == old.visibility
    &&& new.status == old.status
    &&& new.version == old.version
    &&& new.parameters.rust_parameters@ == old.parameters.rust_parameters@
    &&& nc.len() == oc.len()
    &&& nc[0].name == oc[0].name
    &&& nc[0].typ == oc[0].typ
    &&& nc[0].instance_parameter
    &&& forall|j: int| 0 < j < nc.len() ==> nc[j] == oc[j]
    &&& nt.len() == ot.len()
    &&& nt[k].ind_c == ot[k].ind_c
    &&& (nt[k].transformation_type matches TransformationType::ToGlibScalar { name } && name@
        == "self"@)
    &&& forall|j: int| 0 <= j < nt.len() && j != k ==> nt[j] == ot[j]
}

fn placeholder_function() -> (res: FunctionInfo)
    ensures
        res.name@ == Seq::<char>::empty(),
        res.visibility == Visibility::Public,
        res.status == GStatus::Ignore,
        res.version is None,
        res.parameters.c_parameters@.len() == 0,
        res.parameters.rust_parameters@.len() == 0,
        res.parameters.transformations@.len() == 0,
{
    FunctionInfo {
        name: String::new(),
        visibility: Visibility::Public,
        status: GStatus::Ignore,
        version: None,
        parameters: Parameters {
            c_parameters: Vec::new(),
            rust_parameters: Vec::new(),
            transformations: Vec::new(),
        },
    }
}

fn placeholder_parameter() -> (res: CParameter)
    ensures
        res.name@ == Seq::<char>::empty(),
        res.typ == (TypeId { ns_id: 0, id: 0 }),
        !res.instance_parameter,
{
    CParameter { name: String::new(), typ: TypeId { ns_id: 0, id: 0 }, instance_parameter: false }
}

fn placeholder_transformation() -> (res: Transformation)
    ensures
        res.ind_c == 0,
        res.transformation_type matches TransformationType::ToGlibDirect { name } && name@
            == Seq::<char>::empty(),
{
    Transformation {
        ind_c: 0,
        transformation_type: TransformationType::ToGlibDirect { name: String::new() },
    }
}

fn first_conversion_of_first(ts: &Vec<Transformation>) -> (res: Option<usize>)
    ensures
        match res {
            Some(k) => is_first_conversion_of_first(ts@, k as int),
            None => forall|j: int| 0 <= j < ts@.len() ==> ts@[j].ind_c != 0,
        },
{
    let mut i: usize = 0;
    while i < ts.len()
        invariant
            i <= ts.len(),
            forall|j: int| 0 <= j < i ==> ts@[j].ind_c != 0,
        decreases ts.len() - i,
    {
        if ts[i].ind_c == 0 {
            return Some(i);
        }
        i = i + 1;
    }
    None
}

fn mark_as_method(f: &mut FunctionInfo, Ghost(k): Ghost<int>)
    requires
        first_parameter_has_type(*old(f), old(f).parameters.c_parameters@[0].typ),
        is_first_conversion_of_first(old(f).parameters.transformations@, k),
        old(f).parameters.transformations@[k].transformation_type is ToGlibScalar,
    ensures
        marked_as_method(*old(f), *final(f), k),
{
    let mut p = placeholder_parameter();
    f.parameters.c_parameters.set_and_swap(0, &mut p);
    p.instance_parameter = true;
    f.parameters.c_parameters.set_and_swap(0, &mut p);
    let found = first_conversion_of_first(&f.parameters.transformations);
    let t_index = match found {
        Some(t_index) => t_index,
        None => vstd::pervasive::unreached(),
    };
    assert(t_index == k) by {
        if t_index < k {
        } else if t_index > k {
            assert(f.parameters.transformations@[k].ind_c == 0);
        }
    }
    let mut t = placeholder_transformation();
    f.parameters.transformations.set_and_swap(t_index, &mut t);
    t.transformation_type = TransformationType::ToGlibScalar { name: String::from_str("self") };
    f.parameters.transformations.set_and_swap(t_index, &mut t);
}

/// Marks, in each function whose first C parameter has the type of the
/// enumeration `enumeration_tid`, that parameter as the instance and its
/// conversion as passing `self`; other functions are left as they are.
pub fn mark_instance_parameters(functions: &mut Vec<FunctionInfo>, enumeration_tid: TypeId)
    requires
        forall|i: int|
            0 <= i < old(functions)@.len() ==> instance_convertible(
                #[trigger] old(functions)@[i],
                enumeration_tid,
            ),
    ensures
        final(functions)@.len() == old(functions)@.len(),
        forall|i: int|
            0 <= i < old(functions)@.len() && !first_parameter_has_type(
                #[trigger] old(functions)@[i],
                enumeration_tid,
            ) ==> final(functions)@[i] == old(functions)@[i],
        forall|i: int, k: int|
            0 <= i < old(functions)@.len() && first_parameter_has_type(
                old(functions)@[i],
                enumeration_tid,
            ) && #[trigger] is_first_conversion_of_first(
                old(functions)@[i].parameters.transformations@,
                k,
            ) ==> marked_as_method(old(functions)@[i], final(functions)@[i], k),
{
    let n = functions.len();
    let mut i: usize = 0;
    while i < n
        invariant
            i <= n,
            n == old(functions)@.len(),
            functions@.len() == n,
            forall|j: int|
                i <= j < n ==> #[trigger] functions@[j] == old(functions)@[j],
            forall|j: int|
                0 <= j < n ==> instance_convertible(#[trigger] old(functions)@[j], enumeration_tid),
            forall|j: int|
                0 <= j < i && !first_parameter_has_type(#[trigger] old(functions)@[j], enumeration_tid)
                    ==> functions@[j] == old(functions)@[j],
            forall|j: int, k: int|
                0 <= j < i && first_parameter_has_type(old(functions)@[j], enumeration_tid)
                    && #[trigger] is_first_conversion_of_first(
                    old(functions)@[j].parameters.transformations@,
                    k,
                ) ==> marked_as_method(old(functions)@[j], functions@[j], k),
        decreases n - i,
    {
        let mut f = placeholder_function();
        functions.set_and_swap(i, &mut f);
        let ghost of = f;
        assert(of == old(functions)@[i as int]);
        if f.parameters.c_parameters.len() > 0 && f.parameters.c_parameters[0].typ
            == enumeration_tid {
            let ghost k = choose|k: int|
                is_first_conversion_of_first(of.parameters.transformations@, k)
                    && of.parameters.transformations@[k].transformation_type is ToGlibScalar;
            mark_as_method(&mut f, Ghost(k));
            proof {
                assert forall|k2: int|
                    is_first_conversion_of_first(of.parameters.transformations@, k2) implies k2
                    == k by {
                    if k2 < k {
                        assert(of.parameters.transformations@[k2].ind_c == 0);
                    } else if k2 > k {
                        assert(of.parameters.transformations@[k].ind_c == 0);
                    }
                }
            }
        }
        functions.set_and_swap(i, &mut f);
        i = i + 1;
    }
}

} // verus!
