use gir::analysis::{
    CParameter, FunctionInfo, GStatus, Parameters, Transformation, TransformationType, Visibility,
};
use gir::enums::{mark_instance_parameters, Info};
use gir::library::{Enumeration, Library, LibraryNamespace, Type, TypeId};

fn s(x: &str) -> String {
    x.to_string()
}

const ENUM_TID: TypeId = TypeId { ns_id: 0, id: 1 };
const OTHER_TID: TypeId = TypeId { ns_id: 0, id: 0 };

fn scalar(name: &str) -> TransformationType {
    TransformationType::ToGlibScalar { name: s(name) }
}

fn function(name: &str, first: Option<TypeId>, transformations: Vec<Transformation>) -> FunctionInfo {
    FunctionInfo {
        name: s(name),
        visibility: Visibility::Public,
        status: GStatus::Generate,
        version: None,
        parameters: Parameters {
            c_parameters: first
                .into_iter()
                .map(|typ| CParameter { name: s("value"), typ, instance_parameter: false })
                .chain(std::iter::once(CParameter {
                    name: s("other"),
                    typ: OTHER_TID,
                    instance_parameter: false,
                }))
                .collect(),
            rust_parameters: vec![s("value")],
            transformations,
        },
    }
}

fn name_of(t: &TransformationType) -> &str {
    match t {
        TransformationType::ToGlibDirect { name }
        | TransformationType::ToGlibScalar { name }
        | TransformationType::ToGlibPointer { name } => name,
    }
}

#[test]
fn enum_functions_taking_the_enum_first_become_methods() {
    let mut functions = vec![
        function(
            "to_str",
            Some(ENUM_TID),
            vec![
                Transformation { ind_c: 1, transformation_type: scalar("other") },
                Transformation { ind_c: 0, transformation_type: scalar("value") },
                Transformation { ind_c: 0, transformation_type: scalar("again") },
            ],
        ),
        function(
            "from_int",
            Some(OTHER_TID),
            vec![Transformation { ind_c: 0, transformation_type: scalar("value") }],
        ),
        function("none", None, vec![]),
    ];
    mark_instance_parameters(&mut functions, ENUM_TID);

    let first = &functions[0].parameters;
    assert!(first.c_parameters[0].instance_parameter);
    assert!(!first.c_parameters[1].instance_parameter);
    assert_eq!(name_of(&first.transformations[0].transformation_type), "other");
    assert_eq!(name_of(&first.transformations[1].transformation_type), "self");
    assert_eq!(name_of(&first.transformations[2].transformation_type), "again");

    let second = &functions[1].parameters;
    assert!(!second.c_parameters[0].instance_parameter);
    assert_eq!(name_of(&second.transformations[0].transformation_type), "value");

    let third = &functions[2].parameters;
    assert_eq!(third.c_parameters.len(), 1);
    assert!(!third.c_parameters[0].instance_parameter);
}

#[test]
fn info_finds_its_enumeration() {
    let library = Library {
        namespaces: vec![LibraryNamespace {
            name: s("Gtk"),
            types: vec![Type::Class, Type::Enumeration(Enumeration { name: s("Align") })],
        }],
    };
    let info = Info {
        full_name: s("Gtk.Align"),
        type_id: ENUM_TID,
        name: s("Align"),
        functions: vec![],
        visibility: Visibility::Public,
    };
    assert_eq!(info.type_(&library).name, "Align");
}
