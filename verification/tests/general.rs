use gir::analysis::{
    FunctionInfo, GStatus, ImportConditions, ImportEntry, Imports, Parameters, StatusedTypeId,
    TraitInfo, Visibility,
};
use gir::config::{Config, Derive};
use gir::env::{use_glib_type, Env, Namespace, Namespaces};
use gir::general::{
    cfg_condition, cfg_condition_string, cfg_condition_string_no_doc, cfg_deprecated,
    cfg_deprecated_string, declare_default_from_new, define_auto_boxed_type, define_boxed_type,
    define_object_type, define_shared_type, derives, doc_alias, doc_hidden, escape_string,
    not_version_condition, not_version_condition_no_dox, single_version_file, start_comments,
    start_comments_no_version, uses, version_condition, version_condition_no_doc,
    version_condition_string, write_vec,
};
use gir::gir_version::VERSION;
use gir::library::{Library, LibraryNamespace, Type, TypeId};
use gir::text::tabs;
use gir::version::Version;

fn s(x: &str) -> String {
    x.to_string()
}

fn config() -> Config {
    Config {
        girs_version: s("abc123"),
        single_version_file: None,
        min_cfg_version: Version(3, 18, 0),
    }
}

fn env_with(is_glib_crate: bool) -> Env {
    Env {
        library: Library {
            namespaces: vec![
                LibraryNamespace {
                    name: s("Gtk"),
                    types: vec![Type::Class, Type::Interface, Type::Other, Type::Class],
                },
                LibraryNamespace {
                    name: s("Gio"),
                    types: vec![Type::Interface, Type::Class],
                },
            ],
        },
        config: config(),
        namespaces: Namespaces {
            namespaces: vec![
                Namespace { name: s("Gtk"), crate_name: s("gtk") },
                Namespace { name: s("Gio"), crate_name: s("gio") },
            ],
            is_glib_crate,
            main_sys_crate_name: s("ffi"),
        },
    }
}

fn env() -> Env {
    env_with(false)
}

fn parent(ns_id: u16, id: u32, name: &str, status: GStatus) -> StatusedTypeId {
    StatusedTypeId { type_id: TypeId { ns_id, id }, name: s(name), status }
}

#[test]
fn test_escape_string() {
    assert_eq!(escape_string(""), "");
    assert_eq!(escape_string("no escaping here"), "no escaping here");
    assert_eq!(escape_string(r#"'"\"#), r#"'\"\\"#);
}

#[test]
fn escape_string_escapes_quotes_and_backslashes_only() {
    assert_eq!(escape_string("a\"b\\c\nd"), "a\\\"b\\\\c\nd");
    assert_eq!(escape_string("\\\\"), "\\\\\\\\");
    assert_eq!(escape_string("ünï\"cødé"), "ünï\\\"cødé");
}

#[test]
fn start_comments_with_versions() {
    let mut out = String::new();
    start_comments(&mut out, &config());
    assert_eq!(
        out,
        format!(
            "// This file was generated by gir (https://github.com/gtk-rs/gir @ {})\n\
             // from gir-files (https://github.com/gtk-rs/gir-files @ abc123)\n\
             // DO NOT EDIT\n",
            VERSION
        )
    );
}

#[test]
fn start_comments_with_single_version_file() {
    let mut conf = config();
    conf.single_version_file = Some(s("versions.txt"));
    let mut out = s("x");
    start_comments(&mut out, &conf);
    let mut plain = s("x");
    start_comments_no_version(&mut plain);
    assert_eq!(out, plain);
    assert_eq!(
        plain,
        "x// This file was generated by gir (https://github.com/gtk-rs/gir)\n\
         // from gir-files (https://github.com/gtk-rs/gir-files)\n\
         // DO NOT EDIT\n"
    );
}

#[test]
fn single_version_file_text() {
    let mut out = String::new();
    single_version_file(&mut out, &config());
    assert_eq!(
        out,
        format!(
            "Generated by gir (https://github.com/gtk-rs/gir @ {})\n\
             from gir-files (https://github.com/gtk-rs/gir-files @ abc123)\n",
            VERSION
        )
    );
}

#[test]
fn version_features_and_cfgs() {
    assert_eq!(Version(3, 24, 0).to_feature(), "v3_24");
    assert_eq!(Version(2, 44, 1).to_feature(), "v2_44_1");
    assert_eq!(Version(10, 0, 305).to_cfg(), "feature = \"v10_0_305\"");
    assert!(Version(3, 20, 0).later_than(&Version(3, 18, 9)));
    assert!(!Version(3, 18, 0).later_than(&Version(3, 18, 0)));
    assert!(!Version(2, 99, 99).later_than(&Version(3, 0, 0)));
}

#[test]
fn tabs_are_four_spaces() {
    assert_eq!(tabs(0), "");
    assert_eq!(tabs(2), "        ");
}

#[test]
fn glib_type_paths() {
    assert_eq!(use_glib_type(&env_with(false), "wrapper!"), "glib::wrapper!");
    assert_eq!(use_glib_type(&env_with(true), "wrapper!"), "crate::wrapper!");
}

#[test]
fn too_low_versions() {
    let e = env();
    assert!(e.is_too_low_version(Some(Version(3, 18, 0))));
    assert!(e.is_too_low_version(Some(Version(3, 10, 0))));
    assert!(!e.is_too_low_version(Some(Version(3, 18, 1))));
    assert!(!e.is_too_low_version(None));
}

#[test]
fn cfg_condition_strings() {
    let cond = Some(s("feature = \"x\""));
    assert_eq!(
        cfg_condition_string_no_doc(&cond, false, 0).unwrap(),
        "#[cfg(any(feature = \"x\", feature = \"dox\"))]"
    );
    assert_eq!(
        cfg_condition_string(&cond, true, 1).unwrap(),
        "    //#[cfg(any(feature = \"x\", feature = \"dox\"))]\n    \
         //#[cfg_attr(feature = \"dox\", doc(cfg(feature = \"x\")))]"
    );
    assert_eq!(cfg_condition_string(&None, false, 0), None);
    assert_eq!(cfg_condition_string_no_doc(&None, false, 0), None);
    let mut out = String::new();
    cfg_condition(&mut out, &cond, false, 0);
    cfg_condition(&mut out, &None, false, 0);
    assert_eq!(
        out,
        "#[cfg(any(feature = \"x\", feature = \"dox\"))]\n\
         #[cfg_attr(feature = \"dox\", doc(cfg(feature = \"x\")))]\n"
    );
}

#[test]
fn version_conditions() {
    let e = env();
    assert_eq!(
        version_condition_string(&e, Some(Version(3, 20, 0)), false, 0).unwrap(),
        "#[cfg(any(feature = \"v3_20\", feature = \"dox\"))]\n\
         #[cfg_attr(feature = \"dox\", doc(cfg(feature = \"v3_20\")))]"
    );
    assert_eq!(version_condition_string(&e, Some(Version(3, 18, 0)), false, 0), None);
    assert_eq!(version_condition_string(&e, None, false, 0), None);

    let mut out = String::new();
    version_condition(&mut out, &e, Some(Version(3, 22, 2)), false, 1);
    version_condition(&mut out, &e, Some(Version(3, 2, 0)), false, 1);
    assert_eq!(
        out,
        "    #[cfg(any(feature = \"v3_22_2\", feature = \"dox\"))]\n    \
         #[cfg_attr(feature = \"dox\", doc(cfg(feature = \"v3_22_2\")))]\n"
    );

    let mut out = String::new();
    version_condition_no_doc(&mut out, &e, Some(Version(3, 20, 0)), true, 0);
    version_condition_no_doc(&mut out, &e, Some(Version(3, 18, 0)), true, 0);
    version_condition_no_doc(&mut out, &e, None, true, 0);
    assert_eq!(out, "//#[cfg(any(feature = \"v3_20\", feature = \"dox\"))]\n");
}

#[test]
fn not_version_conditions() {
    let mut out = String::new();
    not_version_condition(&mut out, Some(Version(3, 20, 0)), false, 0);
    not_version_condition(&mut out, None, false, 0);
    assert_eq!(
        out,
        "#[cfg(any(not(feature = \"v3_20\"), feature = \"dox\"))]\n\
         #[cfg_attr(feature = \"dox\", doc(cfg(not(feature = \"v3_20\"))))]\n"
    );
    let mut out = String::new();
    not_version_condition_no_dox(&mut out, Some(Version(1, 2, 3)), true, 1);
    not_version_condition_no_dox(&mut out, None, true, 1);
    assert_eq!(
        out,
        "    //#[cfg(not(any(feature = \"v1_2_3\", feature = \"dox\")))]\n"
    );
}

#[test]
fn deprecation_attributes() {
    let e = env();
    assert_eq!(
        cfg_deprecated_string(Some(Version(3, 10, 0)), &e, false, 0).unwrap(),
        "#[deprecated]"
    );
    assert_eq!(
        cfg_deprecated_string(Some(Version(3, 20, 0)), &e, true, 1).unwrap(),
        "    //#[cfg_attr(feature = \"v3_20\", deprecated)]"
    );
    assert_eq!(cfg_deprecated_string(None, &e, false, 0), None);
    let mut out = String::new();
    cfg_deprecated(&mut out, &e, Some(Version(3, 18, 0)), false, 0);
    cfg_deprecated(&mut out, &e, None, false, 0);
    assert_eq!(out, "#[deprecated]\n");
}

#[test]
fn derive_lines() {
    let ds = vec![
        Derive { names: vec![s("Debug"), s("Clone")], cfg_condition: None },
        Derive { names: vec![s("Hash")], cfg_condition: Some(s("feature = \"x\"")) },
    ];
    let mut out = String::new();
    derives(&mut out, &ds, 1);
    assert_eq!(
        out,
        "    #[derive(Debug, Clone)]\n    #[cfg_attr(feature = \"x\", derive(Hash))]\n"
    );
    let mut out = String::new();
    derives(&mut out, &[], 1);
    assert_eq!(out, "");
}

#[test]
fn doc_attributes() {
    let mut out = String::new();
    doc_alias(&mut out, "gtk_widget_show", "", 1);
    doc_alias(&mut out, "gtk_widget_hide", "//", 0);
    assert_eq!(
        out,
        "    #[doc(alias = \"gtk_widget_show\")]\n//#[doc(alias = \"gtk_widget_hide\")]\n"
    );
    let mut out = String::new();
    doc_hidden(&mut out, true, "//", 2);
    doc_hidden(&mut out, false, "//", 2);
    assert_eq!(out, "        //#[doc(hidden)]\n");
}

#[test]
fn vec_lines() {
    let mut out = String::new();
    write_vec(&mut out, &[s("a"), s(""), s("b c")]);
    assert_eq!(out, "a\n\nb c\n");
}

#[test]
fn use_items() {
    let imports = Imports {
        entries: vec![
            ImportEntry {
                name: s("glib::translate::*"),
                conditions: ImportConditions { version: None, constraints: vec![] },
            },
            ImportEntry {
                name: s("std::mem"),
                conditions: ImportConditions {
                    version: Some(Version(3, 20, 0)),
                    constraints: vec![s("unix"), s("target_os = \"linux\"")],
                },
            },
            ImportEntry {
                name: s("std::ptr"),
                conditions: ImportConditions {
                    version: Some(Version(3, 0, 0)),
                    constraints: vec![],
                },
            },
        ],
    };
    let mut out = String::new();
    uses(&mut out, &env(), &imports);
    assert_eq!(
        out,
        "\nuse glib::translate::*;\n\
         #[cfg(any(unix, target_os = \"linux\",feature = \"dox\"))]\n\
         #[cfg_attr(feature = \"dox\", doc(cfg(unix, target_os = \"linux\")))]\n\
         #[cfg(any(feature = \"v3_20\", feature = \"dox\"))]\n\
         #[cfg_attr(feature = \"dox\", doc(cfg(feature = \"v3_20\")))]\n\
         use std::mem;\n\
         use std::ptr;\n"
    );
}

#[test]
fn object_type_without_parents() {
    let mut out = String::new();
    define_object_type(
        &mut out,
        &env(),
        "Widget",
        "GtkWidget",
        Some("GtkWidgetClass"),
        "gtk_widget_get_type",
        false,
        &[parent(0, 0, "Ignored", GStatus::Ignore)],
    );
    assert_eq!(
        out,
        "\nglib::wrapper! {\n\
         \tpub struct Widget(Object<ffi::GtkWidget, ffi::GtkWidgetClass>);\n\
         \n\
         \tmatch fn {\n\
         \t\tget_type => || ffi::gtk_widget_get_type(),\n\
         \t}\n\
         }\n"
    );
}

#[test]
fn interface_type_with_prerequisites() {
    let mut out = String::new();
    define_object_type(
        &mut out,
        &env_with(true),
        "Editable",
        "GtkEditable",
        None,
        "gtk_editable_get_type",
        true,
        &[
            parent(0, 0, "Widget", GStatus::Generate),
            parent(0, 2, "Skipped", GStatus::Ignore),
            parent(1, 0, "ActionGroup", GStatus::Manual),
        ],
    );
    assert_eq!(
        out,
        "\ncrate::wrapper! {\n\
         \tpub struct Editable(Interface<ffi::GtkEditable>) @requires Widget, gio::ActionGroup;\n\
         \n\
         \tmatch fn {\n\
         \t\tget_type => || ffi::gtk_editable_get_type(),\n\
         \t}\n\
         }\n"
    );
    let mut out = String::new();
    define_object_type(&mut out, &env(), "Editable", "GtkEditable", None, "f", true, &[]);
    assert!(out.contains("\tpub struct Editable(Interface<ffi::GtkEditable>);\n"));
}

#[test]
fn object_type_with_classes_and_interfaces() {
    let parents = [
        parent(0, 0, "Widget", GStatus::Generate),
        parent(0, 1, "Buildable", GStatus::Generate),
        parent(0, 2, "NotAType", GStatus::Generate),
        parent(0, 3, "Hidden", GStatus::Ignore),
        parent(1, 1, "Application", GStatus::Manual),
        parent(1, 0, "ActionMap", GStatus::Generate),
    ];
    let mut out = String::new();
    define_object_type(
        &mut out,
        &env(),
        "Window",
        "GtkWindow",
        Some("GtkWindowClass"),
        "gtk_window_get_type",
        false,
        &parents,
    );
    assert_eq!(
        out,
        "\nglib::wrapper! {\n\
         \tpub struct Window(Object<ffi::GtkWindow, ffi::GtkWindowClass>) \
         @extends Widget, gio::Application, @implements Buildable, gio::ActionMap;\n\
         \n\
         \tmatch fn {\n\
         \t\tget_type => || ffi::gtk_window_get_type(),\n\
         \t}\n\
         }\n"
    );

    let mut out = String::new();
    define_object_type(&mut out, &env(), "W", "GtkW", None, "f", false, &parents[1..2]);
    assert!(out.contains("\tpub struct W(Object<ffi::GtkW>) @implements Buildable;\n"));
    let mut out = String::new();
    define_object_type(&mut out, &env(), "W", "GtkW", None, "f", false, &parents[0..1]);
    assert!(out.contains("\tpub struct W(Object<ffi::GtkW>) @extends Widget;\n"));
    let mut out = String::new();
    define_object_type(&mut out, &env(), "W", "GtkW", None, "f", false, &parents[2..3]);
    assert!(out.contains("\tpub struct W(Object<ffi::GtkW>);\n"));
}

fn copy_fn(first_parameter_mut: bool) -> TraitInfo {
    TraitInfo { glib_name: s("gtk_border_copy"), version: None, first_parameter_mut }
}

const BOXED_BODY_WITH_TYPE: &str = "glib::wrapper! {\n\
     \x20   #[derive(Debug)]\n\
     \tpub struct Border(Boxed<ffi::GtkBorder>);\n\
     \n\
     \tmatch fn {\n\
     \t\tcopy => |ptr| ffi::gtk_border_copy(mut_override(ptr)),\n\
     \t\tfree => |ptr| ffi::gtk_border_free(ptr),\n\
     \t\tinit => |_ptr| (),\n\
     \t\tclear => |_ptr| (),\n\
     \t\tget_type => || ffi::gtk_border_get_type(),\n\
     \t}\n\
     }\n";

const BOXED_BODY_WITHOUT_TYPE: &str = "glib::wrapper! {\n\
     \x20   #[derive(Debug)]\n\
     \tpub struct Border(Boxed<ffi::GtkBorder>);\n\
     \n\
     \tmatch fn {\n\
     \t\tcopy => |ptr| ffi::gtk_border_copy(mut_override(ptr)),\n\
     \t\tfree => |ptr| ffi::gtk_border_free(ptr),\n\
     \t\tinit => |_ptr| (),\n\
     \t\tclear => |_ptr| (),\n\
     \t}\n\
     }\n";

#[test]
fn boxed_type_with_versioned_type_function() {
    let derive = [Derive { names: vec![s("Debug")], cfg_condition: None }];
    let init = Some(s("|_ptr| ()"));
    let clear = Some(s("|_ptr| ()"));
    let mut out = String::new();
    define_boxed_type(
        &mut out,
        &env(),
        "Border",
        "GtkBorder",
        &copy_fn(true),
        "gtk_border_free",
        &init,
        &clear,
        Some((s("gtk_border_get_type"), Some(Version(3, 20, 0)))),
        &derive,
    );
    assert_eq!(
        out,
        format!(
            "\n#[cfg(any(feature = \"v3_20\", feature = \"dox\"))]\n\
             #[cfg_attr(feature = \"dox\", doc(cfg(feature = \"v3_20\")))]\n\
             {}\n\
             #[cfg(not(any(feature = \"v3_20\", feature = \"dox\")))]\n\
             {}",
            BOXED_BODY_WITH_TYPE, BOXED_BODY_WITHOUT_TYPE
        )
    );

    let mut out = String::new();
    define_boxed_type(
        &mut out,
        &env(),
        "Border",
        "GtkBorder",
        &copy_fn(true),
        "gtk_border_free",
        &init,
        &clear,
        Some((s("gtk_border_get_type"), None)),
        &derive,
    );
    assert_eq!(out, format!("\n{}", BOXED_BODY_WITH_TYPE));

    let mut out = String::new();
    define_boxed_type(
        &mut out,
        &env(),
        "Border",
        "GtkBorder",
        &copy_fn(true),
        "gtk_border_free",
        &init,
        &clear,
        None,
        &derive,
    );
    assert_eq!(out, format!("\n{}", BOXED_BODY_WITHOUT_TYPE));
}

#[test]
fn boxed_type_without_init_or_mut_copy() {
    let mut out = String::new();
    define_boxed_type(
        &mut out,
        &env(),
        "Border",
        "GtkBorder",
        &copy_fn(false),
        "gtk_border_free",
        &Some(s("init")),
        &None,
        None,
        &[],
    );
    assert_eq!(
        out,
        "\nglib::wrapper! {\n\
         \tpub struct Border(Boxed<ffi::GtkBorder>);\n\
         \n\
         \tmatch fn {\n\
         \t\tcopy => |ptr| ffi::gtk_border_copy(ptr),\n\
         \t\tfree => |ptr| ffi::gtk_border_free(ptr),\n\
         \t}\n\
         }\n"
    );
}

#[test]
fn auto_boxed_type() {
    let mut out = String::new();
    define_auto_boxed_type(
        &mut out,
        &env(),
        "Rect",
        "GdkRect",
        &None,
        &None,
        "gdk_rect_get_type",
        &[Derive { names: vec![s("Debug"), s("PartialEq")], cfg_condition: None }],
    );
    assert_eq!(
        out,
        "\nglib::wrapper! {\n\
         \x20   #[derive(Debug, PartialEq)]\n\
         \tpub struct Rect(Boxed<ffi::GdkRect>);\n\
         \n\
         \tmatch fn {\n\
         \t\tcopy => |ptr| glib::gobject_ffi::g_boxed_copy(ffi::gdk_rect_get_type(), ptr as *mut _) as *mut ffi::GdkRect,\n\
         \t\tfree => |ptr| glib::gobject_ffi::g_boxed_free(ffi::gdk_rect_get_type(), ptr as *mut _),\n\
         \t\tget_type => || ffi::gdk_rect_get_type(),\n\
         \t}\n\
         }\n"
    );
}

#[test]
fn shared_type() {
    let mut out = String::new();
    define_shared_type(
        &mut out,
        &env_with(true),
        "Bytes",
        "GBytes",
        "g_bytes_ref",
        "g_bytes_unref",
        Some((s("g_bytes_get_type"), Some(Version(3, 22, 0)))),
        &[],
    );
    let with_type = "crate::wrapper! {\n\
         \tpub struct Bytes(Shared<ffi::GBytes>);\n\
         \n\
         \tmatch fn {\n\
         \t\tref => |ptr| ffi::g_bytes_ref(ptr),\n\
         \t\tunref => |ptr| ffi::g_bytes_unref(ptr),\n\
         \t\tget_type => || ffi::g_bytes_get_type(),\n\
         \t}\n\
         }\n";
    let without_type = "crate::wrapper! {\n\
         \tpub struct Bytes(Shared<ffi::GBytes>);\n\
         \n\
         \tmatch fn {\n\
         \t\tref => |ptr| ffi::g_bytes_ref(ptr),\n\
         \t\tunref => |ptr| ffi::g_bytes_unref(ptr),\n\
         \t}\n\
         }\n";
    assert_eq!(
        out,
        format!(
            "\n#[cfg(any(feature = \"v3_22\", feature = \"dox\"))]\n\
             #[cfg_attr(feature = \"dox\", doc(cfg(feature = \"v3_22\")))]\n\
             {}\n\
             #[cfg(not(any(feature = \"v3_22\", feature = \"dox\")))]\n\
             {}",
            with_type, without_type
        )
    );
    let mut out = String::new();
    define_shared_type(&mut out, &env_with(true), "Bytes", "GBytes", "g_bytes_ref", "g_bytes_unref", None, &[]);
    assert_eq!(out, format!("\n{}", without_type));
}

fn function(name: &str, visibility: Visibility, status: GStatus, params: usize) -> FunctionInfo {
    FunctionInfo {
        name: s(name),
        visibility,
        status,
        version: Some(Version(3, 20, 0)),
        parameters: Parameters {
            c_parameters: vec![],
            rust_parameters: (0..params).map(|i| format!("p{}", i)).collect(),
            transformations: vec![],
        },
    }
}

#[test]
fn default_from_new() {
    let e = env();
    let functions = vec![
        function("new", Visibility::Hidden, GStatus::Generate, 0),
        function("new", Visibility::Public, GStatus::Manual, 0),
        function("new", Visibility::Public, GStatus::Generate, 1),
        function("with_label", Visibility::Public, GStatus::Generate, 0),
        function("new", Visibility::Public, GStatus::Generate, 0),
        function("new", Visibility::Crate, GStatus::Generate, 0),
    ];
    let mut out = String::new();
    declare_default_from_new(&mut out, &e, "Button", &functions);
    assert_eq!(
        out,
        "\n#[cfg(any(feature = \"v3_20\", feature = \"dox\"))]\n\
         #[cfg_attr(feature = \"dox\", doc(cfg(feature = \"v3_20\")))]\n\
         impl Default for Button {\n    fn default() -> Self {\n        Self::new()\n    }\n}\n"
    );
    let mut out = String::new();
    declare_default_from_new(&mut out, &e, "Button", &functions[..4]);
    assert_eq!(out, "");
}
