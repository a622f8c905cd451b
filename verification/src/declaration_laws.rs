//! Laws on the declarations and attributes that the writers of
//! `general` produce, stated over their inputs in plain text: where the
//! class struct of an object type stands, where derives, init and clear
//! functions and version gates go, and what commenting an attribute out
//! changes.
use vstd::prelude::*;
use crate::analysis::{GStatus, ImportEntry, StatusedTypeId};
use crate::config::Derive;
use crate::env::Env;
use crate::general::{
    class_name_text, extends_implements_text, get_type_text, parent_names, wrapper_close_text,
    wrapper_open_text, ParentSelection, auto_boxed_type_text, boxed_type_body_text, cfg_condition_text, cfg_deprecated_spec,
    derives_text, has_kept_parent, import_text, imports_text, line_text,
    not_version_condition_no_dox_text, object_struct_line, object_type_text,
    shared_type_body_text, version_condition_spec,
};
use crate::analysis::TraitInfo;
use crate::text::{comment_text, join, tabs_text};
use crate::version::Version;

verus! {

proof fn literal_splits()
    ensures
        "(Interface<"@ == "(Interface"@ + "<"@,
        "(Object<"@ == "(Object"@ + "<"@,
        ">);"@ == ">"@ + ");"@,
        ">) @requires "@ == ">"@ + ") @requires "@,
        ">)"@ == ">"@ + ")"@,
{
    reveal_strlit("(Interface<");
    reveal_strlit("(Interface");
    reveal_strlit("(Object<");
    reveal_strlit("(Object");
    reveal_strlit("<");
    reveal_strlit(">");
    reveal_strlit(">);");
    reveal_strlit(");");
    reveal_strlit(">) @requires ");
    reveal_strlit(") @requires ");
    reveal_strlit(">)");
    reveal_strlit(")");
    assert("(Interface<"@ =~= "(Interface"@ + "<"@);
    assert("(Object<"@ =~= "(Object"@ + "<"@);
    assert(">);"@ =~= ">"@ + ");"@);
    assert(">) @requires "@ =~= ">"@ + ") @requires "@);
    assert(">)"@ =~= ">"@ + ")"@);
}

/// The struct line of an object type splits around the instance struct:
/// what comes before `<<sys>::<glib_name>` and after the class part does not
/// depend on the class part.
proof fn struct_line_split(
    env: &Env,
    struct_name: Seq<char>,
    glib_name: Seq<char>,
    is_interface: bool,
    parents: Seq<StatusedTypeId>,
) -> (split: (Seq<char>, Seq<char>))
    ensures
        forall|class_name: Seq<char>|
            #[trigger] object_struct_line(
                env,
                struct_name,
                glib_name,
                class_name,
                is_interface,
                parents,
            ) == split.0 + "<"@ + env.namespaces.main_sys_crate_name@ + "::"@ + glib_name
                + class_name + ">"@ + split.1,
{
    reveal(object_struct_line);
    literal_splits();
    let sys = env.namespaces.main_sys_crate_name@;
    if !has_kept_parent(parents) {
        let kind = if is_interface {
            "Interface"@
        } else {
            "Object"@
        };
        let p = "\tpub struct "@ + struct_name + "("@ + kind;
        let q = ");"@;
        assert forall|class_name: Seq<char>|
            #[trigger] object_struct_line(
                env,
                struct_name,
                glib_name,
                class_name,
                is_interface,
                parents,
            ) == p + "<"@ + sys + "::"@ + glib_name + class_name + ">"@ + q by {
            assert(object_struct_line(env, struct_name, glib_name, class_name, is_interface, parents)
                =~= p + "<"@ + sys + "::"@ + glib_name + class_name + ">"@ + q);
        }
        (p, q)
    } else if is_interface {
        let p = "\tpub struct "@ + struct_name + "(Interface"@;
        let q = ") @requires "@ + join(parent_names(env, parents, ParentSelection::Kept), ", "@)
            + ";"@;
        assert forall|class_name: Seq<char>|
            #[trigger] object_struct_line(
                env,
                struct_name,
                glib_name,
                class_name,
                is_interface,
                parents,
            ) == p + "<"@ + sys + "::"@ + glib_name + class_name + ">"@ + q by {
            assert(object_struct_line(env, struct_name, glib_name, class_name, is_interface, parents)
                =~= p + "<"@ + sys + "::"@ + glib_name + class_name + ">"@ + q);
        }
        (p, q)
    } else {
        let p = "\tpub struct "@ + struct_name + "(Object"@;
        let q = ")"@ + extends_implements_text(
            parent_names(env, parents, ParentSelection::Classes),
            parent_names(env, parents, ParentSelection::Interfaces),
        ) + ";"@;
        assert forall|class_name: Seq<char>|
            #[trigger] object_struct_line(
                env,
                struct_name,
                glib_name,
                class_name,
                is_interface,
                parents,
            ) == p + "<"@ + sys + "::"@ + glib_name + class_name + ">"@ + q by {
            assert(object_struct_line(env, struct_name, glib_name, class_name, is_interface, parents)
                =~= p + "<"@ + sys + "::"@ + glib_name + class_name + ">"@ + q);
        }
        (p, q)
    }
}

/// The class struct of an object type or interface stands right after its
/// instance struct, in every form of the declaration: the declaration with
/// a class struct `c` is the one without it with `, <sys>::<c>` put after
/// `<<sys>::<glib_name>`, where `sys` is the crate of the raw bindings.
#[verifier::spinoff_prover]
#[verifier::rlimit(40)]
pub proof fn class_struct_follows_instance_struct(
    env: &Env,
    struct_name: Seq<char>,
    glib_name: Seq<char>,
    c: Seq<char>,
    glib_func_name: Seq<char>,
    is_interface: bool,
    parents: Seq<StatusedTypeId>,
) -> (split: (Seq<char>, Seq<char>))
    ensures
        ({
            let sys = env.namespaces.main_sys_crate_name@;
            &&& object_type_text(env, struct_name, glib_name, None, glib_func_name, is_interface, parents)
                == split.0 + "<"@ + sys + "::"@ + glib_name + ">"@ + split.1
            &&& object_type_text(
                env,
                struct_name,
                glib_name,
                Some(c),
                glib_func_name,
                is_interface,
                parents,
            ) == split.0 + "<"@ + sys + "::"@ + glib_name + ", "@ + sys + "::"@ + c + ">"@
                + split.1
        }),
{
    let sys = env.namespaces.main_sys_crate_name@;
    let (lp, lq) = struct_line_split(env, struct_name, glib_name, is_interface, parents);
    let open = "\n"@ + wrapper_open_text(env);
    let rest = "\n"@ + "\n"@ + "\tmatch fn {"@ + "\n"@ + get_type_text(env, Some(glib_func_name))
        + wrapper_close_text();
    let none_name = class_name_text(env, None);
    let some_name = class_name_text(env, Some(c));
    assert(none_name =~= Seq::<char>::empty());
    let l0 = object_struct_line(env, struct_name, glib_name, none_name, is_interface, parents);
    let l1 = object_struct_line(env, struct_name, glib_name, some_name, is_interface, parents);
    assert(l0 == lp + "<"@ + sys + "::"@ + glib_name + none_name + ">"@ + lq);
    assert(l1 == lp + "<"@ + sys + "::"@ + glib_name + some_name + ">"@ + lq);
    let p = open + lp;
    let q = lq + rest;
    assert(object_type_text(env, struct_name, glib_name, None, glib_func_name, is_interface, parents)
        == open + l0 + rest);
    assert(object_type_text(env, struct_name, glib_name, Some(c), glib_func_name, is_interface, parents)
        == open + l1 + rest);
    assert(open + l0 + rest =~= p + "<"@ + sys + "::"@ + glib_name + ">"@ + q);
    assert(open + l1 + rest =~= p + "<"@ + sys + "::"@ + glib_name + ", "@ + sys + "::"@ + c + ">"@
        + q);
    (p, q)
}

/// A non-empty list of derives writes at least one line per derive set.
pub proof fn derive_lines_per_derive(derive: Seq<Derive>, indent: nat)
    ensures
        derives_text(derive, indent).len() >= derive.len(),
        derive.len() > 0 ==> derives_text(derive, indent).last() == '\n',
    decreases derive.len(),
{
    reveal_strlit("\n");
    if derive.len() > 0 {
        derive_lines_per_derive(derive.drop_last(), indent);
    }
}

/// The derives of a shared type stand right after the opening line of its
/// declaration: the declaration with derives is the one without them with
/// the derive lines put after that line.
pub proof fn shared_type_derives_follow_opening(
    env: &Env,
    struct_name: Seq<char>,
    glib_name: Seq<char>,
    ref_fn: Seq<char>,
    unref_fn: Seq<char>,
    get_type_fn: Option<Seq<char>>,
    derive: Seq<Derive>,
) -> (rest: Seq<char>)
    ensures
        shared_type_body_text(env, struct_name, glib_name, ref_fn, unref_fn, get_type_fn, derive)
            == wrapper_open_text(env) + derives_text(derive, 1) + rest,
        shared_type_body_text(
            env,
            struct_name,
            glib_name,
            ref_fn,
            unref_fn,
            get_type_fn,
            Seq::empty(),
        ) == wrapper_open_text(env) + rest,
{
    reveal(shared_type_body_text);
    let rest = crate::general::wrapped_struct_line(env, struct_name, "Shared"@, glib_name) + "\n"@
        + "\tmatch fn {"@ + "\n"@ + crate::general::ref_unref_text(env, ref_fn, unref_fn)
        + get_type_text(env, get_type_fn) + wrapper_close_text();
    assert(derives_text(Seq::<Derive>::empty(), 1) =~= Seq::<char>::empty());
    assert(shared_type_body_text(env, struct_name, glib_name, ref_fn, unref_fn, get_type_fn, derive)
        =~= wrapper_open_text(env) + derives_text(derive, 1) + rest);
    assert(shared_type_body_text(
        env,
        struct_name,
        glib_name,
        ref_fn,
        unref_fn,
        get_type_fn,
        Seq::empty(),
    ) =~= wrapper_open_text(env) + rest);
    rest
}

/// The derives of a boxed type stand right after the opening line of its
/// declaration.
pub proof fn boxed_type_derives_follow_opening(
    env: &Env,
    struct_name: Seq<char>,
    glib_name: Seq<char>,
    copy_fn: TraitInfo,
    free_fn: Seq<char>,
    init: Option<Seq<char>>,
    clear: Option<Seq<char>>,
    get_type_fn: Option<Seq<char>>,
    derive: Seq<Derive>,
) -> (rest: Seq<char>)
    ensures
        boxed_type_body_text(
            env,
            struct_name,
            glib_name,
            copy_fn,
            free_fn,
            init,
            clear,
            get_type_fn,
            derive,
        ) == wrapper_open_text(env) + derives_text(derive, 1) + rest,
        boxed_type_body_text(
            env,
            struct_name,
            glib_name,
            copy_fn,
            free_fn,
            init,
            clear,
            get_type_fn,
            Seq::empty(),
        ) == wrapper_open_text(env) + rest,
{
    reveal(boxed_type_body_text);
    let rest = crate::general::wrapped_struct_line(env, struct_name, "Boxed"@, glib_name) + "\n"@
        + "\tmatch fn {"@ + "\n"@ + crate::general::copy_free_text(env, copy_fn, free_fn)
        + crate::general::init_clear_text(init, clear) + get_type_text(env, get_type_fn)
        + wrapper_close_text();
    assert(derives_text(Seq::<Derive>::empty(), 1) =~= Seq::<char>::empty());
    assert(boxed_type_body_text(
        env,
        struct_name,
        glib_name,
        copy_fn,
        free_fn,
        init,
        clear,
        get_type_fn,
        derive,
    ) =~= wrapper_open_text(env) + derives_text(derive, 1) + rest);
    assert(boxed_type_body_text(
        env,
        struct_name,
        glib_name,
        copy_fn,
        free_fn,
        init,
        clear,
        get_type_fn,
        Seq::empty(),
    ) =~= wrapper_open_text(env) + rest);
    rest
}

/// The derives of a boxed type that glib copies through its type stand
/// right after the opening line of its declaration.
pub proof fn auto_boxed_type_derives_follow_opening(
    env: &Env,
    struct_name: Seq<char>,
    glib_name: Seq<char>,
    init: Option<Seq<char>>,
    clear: Option<Seq<char>>,
    get_type_fn: Seq<char>,
    derive: Seq<Derive>,
) -> (rest: Seq<char>)
    ensures
        auto_boxed_type_text(env, struct_name, glib_name, init, clear, get_type_fn, derive) == "\n"@
            + wrapper_open_text(env) + derives_text(derive, 1) + rest,
        auto_boxed_type_text(env, struct_name, glib_name, init, clear, get_type_fn, Seq::empty())
            == "\n"@ + wrapper_open_text(env) + rest,
{
    reveal(auto_boxed_type_text);
    let rest = crate::general::wrapped_struct_line(env, struct_name, "Boxed"@, glib_name) + "\n"@
        + "\tmatch fn {"@ + "\n"@ + crate::general::auto_copy_free_text(env, glib_name, get_type_fn)
        + crate::general::init_clear_text(init, clear) + get_type_text(env, Some(get_type_fn))
        + wrapper_close_text();
    assert(derives_text(Seq::<Derive>::empty(), 1) =~= Seq::<char>::empty());
    assert(auto_boxed_type_text(env, struct_name, glib_name, init, clear, get_type_fn, derive)
        =~= "\n"@ + wrapper_open_text(env) + derives_text(derive, 1) + rest);
    assert(auto_boxed_type_text(env, struct_name, glib_name, init, clear, get_type_fn, Seq::empty())
        =~= "\n"@ + wrapper_open_text(env) + rest);
    rest
}

/// The lines of the init and clear functions.
pub open spec fn init_clear_lines(i: Seq<char>, c: Seq<char>) -> Seq<char> {
    "\t\tinit => "@ + i + ","@ + "\n"@ + "\t\tclear => "@ + c + ","@ + "\n"@
}

/// The end of a declaration whose type function is `g`, where it has one.
pub open spec fn type_function_and_end(sys: Seq<char>, g: Option<Seq<char>>) -> Seq<char> {
    (match g {
        Some(g) => "\t\tget_type => || "@ + sys + "::"@ + g + "(),"@ + "\n"@,
        None => Seq::empty(),
    }) + "\t}"@ + "\n"@ + "}"@ + "\n"@
}

/// Where both an init and a clear function are given, a boxed type that
/// glib copies through its type has them right before its type function
/// and the end of its declaration; where either is missing, neither is
/// written.
pub proof fn auto_boxed_type_init_clear_before_type_function(
    env: &Env,
    struct_name: Seq<char>,
    glib_name: Seq<char>,
    i: Seq<char>,
    c: Seq<char>,
    get_type_fn: Seq<char>,
    derive: Seq<Derive>,
) -> (before: Seq<char>)
    ensures
        ({
            let end = type_function_and_end(env.namespaces.main_sys_crate_name@, Some(get_type_fn));
            &&& auto_boxed_type_text(env, struct_name, glib_name, None, None, get_type_fn, derive)
                == before + end
            &&& auto_boxed_type_text(
                env,
                struct_name,
                glib_name,
                Some(i),
                Some(c),
                get_type_fn,
                derive,
            ) == before + init_clear_lines(i, c) + end
            &&& auto_boxed_type_text(env, struct_name, glib_name, Some(i), None, get_type_fn, derive)
                == before + end
            &&& auto_boxed_type_text(env, struct_name, glib_name, None, Some(c), get_type_fn, derive)
                == before + end
        }),
{
    reveal(auto_boxed_type_text);
    let sys = env.namespaces.main_sys_crate_name@;
    let end = type_function_and_end(sys, Some(get_type_fn));
    let before = "\n"@ + wrapper_open_text(env) + derives_text(derive, 1)
        + crate::general::wrapped_struct_line(env, struct_name, "Boxed"@, glib_name) + "\n"@
        + "\tmatch fn {"@ + "\n"@ + crate::general::auto_copy_free_text(
        env,
        glib_name,
        get_type_fn,
    );
    assert(auto_boxed_type_text(env, struct_name, glib_name, None, None, get_type_fn, derive)
        =~= before + end);
    assert(auto_boxed_type_text(env, struct_name, glib_name, Some(i), Some(c), get_type_fn, derive)
        =~= before + init_clear_lines(i, c) + end);
    assert(auto_boxed_type_text(env, struct_name, glib_name, Some(i), None, get_type_fn, derive)
        =~= before + end);
    assert(auto_boxed_type_text(env, struct_name, glib_name, None, Some(c), get_type_fn, derive)
        =~= before + end);
    before
}

/// Where both an init and a clear function are given, a boxed type has
/// them right before its type function and the end of its declaration;
/// where either is missing, neither is written.
pub proof fn boxed_type_init_clear_before_type_function(
    env: &Env,
    struct_name: Seq<char>,
    glib_name: Seq<char>,
    copy_fn: TraitInfo,
    free_fn: Seq<char>,
    i: Seq<char>,
    c: Seq<char>,
    get_type_fn: Option<Seq<char>>,
    derive: Seq<Derive>,
) -> (before: Seq<char>)
    ensures
        ({
            let end = type_function_and_end(env.namespaces.main_sys_crate_name@, get_type_fn);
            &&& boxed_type_body_text(
                env,
                struct_name,
                glib_name,
                copy_fn,
                free_fn,
                None,
                None,
                get_type_fn,
                derive,
            ) == before + end
            &&& boxed_type_body_text(
                env,
                struct_name,
                glib_name,
                copy_fn,
                free_fn,
                Some(i),
                Some(c),
                get_type_fn,
                derive,
            ) == before + init_clear_lines(i, c) + end
            &&& boxed_type_body_text(
                env,
                struct_name,
                glib_name,
                copy_fn,
                free_fn,
                Some(i),
                None,
                get_type_fn,
                derive,
            ) == before + end
            &&& boxed_type_body_text(
                env,
                struct_name,
                glib_name,
                copy_fn,
                free_fn,
                None,
                Some(c),
                get_type_fn,
                derive,
            ) == before + end
        }),
{
    reveal(boxed_type_body_text);
    let sys = env.namespaces.main_sys_crate_name@;
    let end = type_function_and_end(sys, get_type_fn);
    let before = wrapper_open_text(env) + derives_text(derive, 1)
        + crate::general::wrapped_struct_line(env, struct_name, "Boxed"@, glib_name) + "\n"@
        + "\tmatch fn {"@ + "\n"@ + crate::general::copy_free_text(env, copy_fn, free_fn);
    assert(get_type_text(env, get_type_fn) + wrapper_close_text() =~= end);
    assert(boxed_type_body_text(
        env,
        struct_name,
        glib_name,
        copy_fn,
        free_fn,
        None,
        None,
        get_type_fn,
        derive,
    ) =~= before + end);
    assert(boxed_type_body_text(
        env,
        struct_name,
        glib_name,
        copy_fn,
        free_fn,
        Some(i),
        Some(c),
        get_type_fn,
        derive,
    ) =~= before + init_clear_lines(i, c) + end);
    assert(boxed_type_body_text(
        env,
        struct_name,
        glib_name,
        copy_fn,
        free_fn,
        Some(i),
        None,
        get_type_fn,
        derive,
    ) =~= before + end);
    assert(boxed_type_body_text(
        env,
        struct_name,
        glib_name,
        copy_fn,
        free_fn,
        None,
        Some(c),
        get_type_fn,
        derive,
    ) =~= before + end);
    before
}

/// The version gate of an import stands right before its `use` item, for
/// every import, with or without constraints: an import whose version is
/// later than the oldest one supported is preceded by the two attributes
/// for the feature of that version; any other import by none. The
/// attributes for its constraints, if it has any, come first.
pub proof fn import_version_gate_before_use(env: &Env, entry: ImportEntry) -> (constraints_part: Seq<
    char,
>)
    ensures
        entry.conditions.constraints@.len() == 0 ==> constraints_part.len() == 0,
        entry.conditions.constraints@.len() > 0 ==> constraints_part == "#[cfg(any("@ + join(
            crate::text::views(entry.conditions.constraints@),
            ", "@,
        ) + ",feature = \"dox\"))]"@ + "\n"@ + "#[cfg_attr(feature = \"dox\", doc(cfg("@ + join(
            crate::text::views(entry.conditions.constraints@),
            ", "@,
        ) + ")))]"@ + "\n"@,
        match entry.conditions.version {
            Some(v) => if v.is_later_than(env.config.min_cfg_version) {
                import_text(env, entry) == constraints_part + "#[cfg(any("@ + v.cfg_text()
                    + ", feature = \"dox\"))]"@ + "\n"@ + "#[cfg_attr(feature = \"dox\", doc(cfg("@
                    + v.cfg_text() + ")))]"@ + "\n"@ + "use "@ + entry.name@ + ";"@ + "\n"@
            } else {
                import_text(env, entry) == constraints_part + "use "@ + entry.name@ + ";"@ + "\n"@
            },
            None => import_text(env, entry) == constraints_part + "use "@ + entry.name@ + ";"@
                + "\n"@,
        },
{
    let constraints = join(crate::text::views(entry.conditions.constraints@), ", "@);
    let part = if entry.conditions.constraints@.len() > 0 {
        "#[cfg(any("@ + constraints + ",feature = \"dox\"))]"@ + "\n"@
            + "#[cfg_attr(feature = \"dox\", doc(cfg("@ + constraints + ")))]"@ + "\n"@
    } else {
        Seq::empty()
    };
    let use_line = "use "@ + entry.name@ + ";"@ + "\n"@;
    assert(tabs_text(0) =~= Seq::<char>::empty());
    assert(comment_text(false) =~= Seq::<char>::empty());
    match entry.conditions.version {
        Some(v) => {
            if v.is_later_than(env.config.min_cfg_version) {
                let cv = v.cfg_text();
                assert(line_text(version_condition_spec(env, entry.conditions.version, false, 0))
                    =~= "#[cfg(any("@ + cv + ", feature = \"dox\"))]"@ + "\n"@
                    + "#[cfg_attr(feature = \"dox\", doc(cfg("@ + cv + ")))]"@ + "\n"@);
                assert(import_text(env, entry) =~= part + "#[cfg(any("@ + cv
                    + ", feature = \"dox\"))]"@ + "\n"@ + "#[cfg_attr(feature = \"dox\", doc(cfg("@
                    + cv + ")))]"@ + "\n"@ + use_line);
            } else {
                assert(import_text(env, entry) =~= part + use_line);
            }
        },
        None => {
            assert(import_text(env, entry) =~= part + use_line);
        },
    }
    part
}

/// Commenting out a deprecation attribute puts `//` between the indentation
/// and the attribute, and changes nothing else: an item deprecated in a
/// version supported unconditionally gets `#[deprecated]`, one deprecated
/// later gets it under the feature of that version, one not deprecated
/// gets nothing.
pub proof fn commenting_out_deprecation_inserts_slashes(
    deprecated: Option<Version>,
    env: &Env,
    indent: nat,
) -> (attr: Seq<char>)
    ensures
        deprecated is None ==> cfg_deprecated_spec(deprecated, env, false, indent) is None
            && cfg_deprecated_spec(deprecated, env, true, indent) is None,
        deprecated is Some ==> cfg_deprecated_spec(deprecated, env, false, indent) == Some(
            tabs_text(indent) + attr,
        ) && cfg_deprecated_spec(deprecated, env, true, indent) == Some(
            tabs_text(indent) + "//"@ + attr,
        ),
        env.too_low(deprecated) ==> attr == "#[deprecated]"@,
        deprecated is Some && !env.too_low(deprecated) ==> attr == "#[cfg_attr("@
            + deprecated.unwrap().cfg_text() + ", deprecated)]"@,
{
    assert(comment_text(false) =~= Seq::<char>::empty());
    match deprecated {
        Some(v) => {
            if env.too_low(deprecated) {
                let attr = "#[deprecated]"@;
                assert(tabs_text(indent) + comment_text(false) + attr =~= tabs_text(indent) + attr);
                attr
            } else {
                let attr = "#[cfg_attr("@ + v.cfg_text() + ", deprecated)]"@;
                assert(tabs_text(indent) + comment_text(false) + "#[cfg_attr("@ + v.cfg_text()
                    + ", deprecated)]"@ =~= tabs_text(indent) + attr);
                assert(tabs_text(indent) + comment_text(true) + "#[cfg_attr("@ + v.cfg_text()
                    + ", deprecated)]"@ =~= tabs_text(indent) + "//"@ + attr);
                attr
            }
        },
        None => Seq::empty(),
    }
}

/// Commenting out the cfg attributes of a condition puts `//` between the
/// indentation and each of the two attributes, and changes nothing else.
pub proof fn commenting_out_cfg_condition_inserts_slashes(cond: Seq<char>, indent: nat)
    ensures
        ({
            let t = tabs_text(indent);
            let a = "#[cfg(any("@ + cond + ", feature = \"dox\"))]"@;
            let b = "#[cfg_attr(feature = \"dox\", doc(cfg("@ + cond + ")))]"@;
            &&& cfg_condition_text(cond, false, indent) == t + a + "\n"@ + t + b
            &&& cfg_condition_text(cond, true, indent) == t + "//"@ + a + "\n"@ + t + "//"@ + b
        }),
{
    let t = tabs_text(indent);
    let a = "#[cfg(any("@ + cond + ", feature = \"dox\"))]"@;
    let b = "#[cfg_attr(feature = \"dox\", doc(cfg("@ + cond + ")))]"@;
    assert(comment_text(false) =~= Seq::<char>::empty());
    assert(cfg_condition_text(cond, false, indent) =~= t + a + "\n"@ + t + b);
    assert(cfg_condition_text(cond, true, indent) =~= t + "//"@ + a + "\n"@ + t + "//"@ + b);
}

/// Commenting out the attribute that excludes a version's feature puts
/// `//` between the indentation and the attribute, and changes nothing else.
pub proof fn commenting_out_not_version_inserts_slashes(v: Version, indent: nat)
    ensures
        ({
            let t = tabs_text(indent);
            let a = "#[cfg(not(any("@ + v.cfg_text() + ", feature = \"dox\")))]"@ + "\n"@;
            &&& not_version_condition_no_dox_text(Some(v), false, indent) == t + a
            &&& not_version_condition_no_dox_text(Some(v), true, indent) == t + "//"@ + a
        }),
{
    let t = tabs_text(indent);
    let a = "#[cfg(not(any("@ + v.cfg_text() + ", feature = \"dox\")))]"@ + "\n"@;
    assert(comment_text(false) =~= Seq::<char>::empty());
    assert(not_version_condition_no_dox_text(Some(v), false, indent) =~= t + a);
    assert(not_version_condition_no_dox_text(Some(v), true, indent) =~= t + "//"@ + a);
}

proof fn ignored_parent_not_named(
    env: &Env,
    a: Seq<StatusedTypeId>,
    p: StatusedTypeId,
    b: Seq<StatusedTypeId>,
    sel: ParentSelection,
)
    requires
        p.status == GStatus::Ignore,
    ensures
        parent_names(env, a + seq![p] + b, sel) == parent_names(env, a + b, sel),
    decreases b.len(),
{
    if b.len() == 0 {
        assert(a + seq![p] + b =~= a.push(p));
        assert(a.push(p).drop_last() =~= a);
        assert(a + b =~= a);
    } else {
        ignored_parent_not_named(env, a, p, b.drop_last(), sel);
        assert((a + seq![p] + b).drop_last() =~= a + seq![p] + b.drop_last());
        assert((a + b).drop_last() =~= a + b.drop_last());
        assert((a + seq![p] + b).last() == b.last());
        assert((a + b).last() == b.last());
    }
}

/// An ignored parent leaves no trace in the declaration of an object type
/// or interface: the declaration is the same with or without it, wherever
/// it stands among the parents.
pub proof fn ignored_parent_leaves_no_trace(
    env: &Env,
    struct_name: Seq<char>,
    glib_name: Seq<char>,
    glib_class_name: Option<Seq<char>>,
    glib_func_name: Seq<char>,
    is_interface: bool,
    a: Seq<StatusedTypeId>,
    p: StatusedTypeId,
    b: Seq<StatusedTypeId>,
)
    requires
        p.status == GStatus::Ignore,
    ensures
        object_type_text(
            env,
            struct_name,
            glib_name,
            glib_class_name,
            glib_func_name,
            is_interface,
            a + seq![p] + b,
        ) == object_type_text(
            env,
            struct_name,
            glib_name,
            glib_class_name,
            glib_func_name,
            is_interface,
            a + b,
        ),
{
    reveal(object_struct_line);
    let with = a + seq![p] + b;
    let without = a + b;
    ignored_parent_not_named(env, a, p, b, ParentSelection::Kept);
    ignored_parent_not_named(env, a, p, b, ParentSelection::Classes);
    ignored_parent_not_named(env, a, p, b, ParentSelection::Interfaces);
    if has_kept_parent(with) {
        let i = choose|i: int| 0 <= i < with.len() && with[i].status != GStatus::Ignore;
        if i < a.len() {
            assert(without[i] == with[i]);
        } else {
            assert(i > a.len());
            assert(without[i - 1] == with[i]);
        }
    }
    if has_kept_parent(without) {
        let i = choose|i: int| 0 <= i < without.len() && without[i].status != GStatus::Ignore;
        if i < a.len() {
            assert(with[i] == without[i]);
        } else {
            assert(with[i + 1] == without[i]);
        }
    }
    assert(has_kept_parent(with) == has_kept_parent(without));
    let cn = class_name_text(env, glib_class_name);
    assert(object_struct_line(env, struct_name, glib_name, cn, is_interface, with)
        == object_struct_line(env, struct_name, glib_name, cn, is_interface, without));
}

/// The imports are written one after the other, each independently of the
/// others: the text of a concatenation of import lists is the
/// concatenation of their texts.
pub proof fn imports_written_independently(env: &Env, a: Seq<ImportEntry>, b: Seq<ImportEntry>)
    ensures
        imports_text(env, a + b) == imports_text(env, a) + imports_text(env, b),
    decreases b.len(),
{
    if b.len() == 0 {
        assert(a + b =~= a);
        assert(imports_text(env, a) + imports_text(env, b) =~= imports_text(env, a));
    } else {
        imports_written_independently(env, a, b.drop_last());
        assert((a + b).drop_last() =~= a + b.drop_last());
        assert((a + b).last() == b.last());
        assert(imports_text(env, a + b) =~= imports_text(env, a) + imports_text(env, b));
    }
}

/// The derive sets are written one after the other, each independently of
/// the others.
pub proof fn derives_written_independently(a: Seq<Derive>, b: Seq<Derive>, indent: nat)
    ensures
        derives_text(a + b, indent) == derives_text(a, indent) + derives_text(b, indent),
    decreases b.len(),
{
    if b.len() == 0 {
        assert(a + b =~= a);
        assert(derives_text(a, indent) + derives_text(b, indent) =~= derives_text(a, indent));
    } else {
        derives_written_independently(a, b.drop_last(), indent);
        assert((a + b).drop_last() =~= a + b.drop_last());
        assert((a + b).last() == b.last());
        assert(derives_text(a + b, indent) =~= derives_text(a, indent) + derives_text(b, indent));
    }
}

/// One derive set is one indented line: `#[derive(<names>)]`, or
/// `#[cfg_attr(<condition>, derive(<names>))]` under a condition, with the
/// names joined by `, `.
pub proof fn derive_set_is_one_line(d: Derive, indent: nat)
    ensures
        ({
            let names = join(crate::text::views(d.names@), ", "@);
            derives_text(seq![d], indent) == tabs_text(indent) + match d.cfg_condition {
                Some(c) => "#[cfg_attr("@ + c@ + ", derive("@ + names + "))]"@,
                None => "#[derive("@ + names + ")]"@,
            } + "\n"@
        }),
{
    assert(seq![d].drop_last() =~= Seq::<Derive>::empty());
    assert(seq![d].last() == d);
    assert(derives_text(Seq::<Derive>::empty(), indent) =~= Seq::<char>::empty());
    let names = join(crate::text::views(d.names@), ", "@);
    assert(derives_text(seq![d], indent) =~= tabs_text(indent) + match d.cfg_condition {
        Some(c) => "#[cfg_attr("@ + c@ + ", derive("@ + names + "))]"@,
        None => "#[derive("@ + names + ")]"@,
    } + "\n"@);
}

/// A kept parent is named by its own name inside the main namespace and by
/// `<crate>::<name>` in another namespace; an ignored one is not named.
pub proof fn parent_naming(env: &Env, p: StatusedTypeId)
    ensures
        p.status == GStatus::Ignore ==> parent_names(env, seq![p], ParentSelection::Kept).len()
            == 0,
        p.status != GStatus::Ignore && p.type_id.ns_id == crate::env::MAIN ==> parent_names(
            env,
            seq![p],
            ParentSelection::Kept,
        ) == seq![p.name@],
        p.status != GStatus::Ignore && p.type_id.ns_id != crate::env::MAIN ==> parent_names(
            env,
            seq![p],
            ParentSelection::Kept,
        ) == seq![
            env.namespaces.namespaces@[p.type_id.ns_id as int].crate_name@ + "::"@ + p.name@,
        ],
{
    assert(seq![p].drop_last() =~= Seq::<StatusedTypeId>::empty());
    assert(seq![p].last() == p);
    assert(parent_names(env, Seq::<StatusedTypeId>::empty(), ParentSelection::Kept)
        =~= Seq::<Seq<char>>::empty());
    if p.status != GStatus::Ignore {
        assert(parent_names(env, seq![p], ParentSelection::Kept) =~= seq![
            crate::general::parent_name_text(env, p),
        ]);
    }
}

} // verus!
