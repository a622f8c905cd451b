use gir::config::Config;
use gir::env::{Env, Namespaces};
use gir::general::{
    cfg_condition_string, cfg_condition_string_no_doc, escape_string, not_version_condition,
    version_condition, version_condition_no_doc, version_condition_string,
};
use gir::library::Library;
use gir::version::Version;

fn env() -> Env {
    Env {
        library: Library { namespaces: vec![] },
        config: Config {
            girs_version: "g".to_string(),
            single_version_file: None,
            min_cfg_version: Version(2, 40, 0),
        },
        namespaces: Namespaces {
            namespaces: vec![],
            is_glib_crate: false,
            main_sys_crate_name: "ffi".to_string(),
        },
    }
}

/// The value of a string literal whose body is `t`, accepting only the
/// escapes `\\` and `\"`.
fn literal_value(t: &str) -> Option<String> {
    let mut out = String::new();
    let mut chars = t.chars();
    while let Some(c) = chars.next() {
        match c {
            '"' => return None,
            '\\' => match chars.next() {
                Some(e @ ('"' | '\\')) => out.push(e),
                _ => return None,
            },
            _ => out.push(c),
        }
    }
    Some(out)
}

#[test]
fn escaped_text_reads_back_as_literal() {
    for s in ["", "plain", "\"", "\\", "a\\\"b", "\\\\\"\"", "tab\there\nnewline", "ç\"ß"] {
        assert_eq!(literal_value(&escape_string(s)), Some(s.to_string()));
    }
    assert_eq!(literal_value("a\"b"), None);
}

#[test]
fn gate_exactly_when_not_too_low() {
    let e = env();
    for v in [Version(2, 38, 0), Version(2, 40, 0), Version(2, 40, 1), Version(3, 0, 0)] {
        assert_eq!(
            e.is_too_low_version(Some(v)),
            version_condition_string(&e, Some(v), false, 0).is_none()
        );
    }
    assert!(!e.is_too_low_version(None));
    assert!(version_condition_string(&e, None, false, 0).is_none());
}

#[test]
fn no_doc_attribute_is_first_line() {
    let cond = Some("unix".to_string());
    let full = cfg_condition_string(&cond, true, 2).unwrap();
    let first = cfg_condition_string_no_doc(&cond, true, 2).unwrap();
    assert!(full.starts_with(&format!("{}\n", first)));
    assert_eq!(full.lines().count(), 2);

    let e = env();
    for v in [Some(Version(2, 44, 0)), Some(Version(2, 30, 0)), None] {
        let mut with_doc = String::new();
        version_condition(&mut with_doc, &e, v, false, 0);
        let mut no_doc = String::new();
        version_condition_no_doc(&mut no_doc, &e, v, false, 0);
        assert!(with_doc.starts_with(&no_doc));
    }
}

#[test]
fn not_version_condition_negates() {
    let e = env();
    let v = Version(2, 44, 0);
    let mut gate = String::new();
    version_condition(&mut gate, &e, Some(v), false, 0);
    let mut negated = String::new();
    not_version_condition(&mut negated, Some(v), false, 0);
    assert_eq!(negated, gate.replace("feature = \"v2_44\"", "not(feature = \"v2_44\")"));
}

#[test]
fn distinct_versions_have_distinct_features() {
    let versions = [
        Version(1, 11, 0),
        Version(11, 1, 0),
        Version(1, 1, 1),
        Version(1, 11, 1),
        Version(1, 1, 11),
        Version(1, 2, 0),
        Version(1, 20, 0),
    ];
    for a in versions {
        for b in versions {
            assert_eq!(a == b, a.to_feature() == b.to_feature());
        }
    }
}

#[test]
fn version_order_is_strict_and_total() {
    let versions = [Version(1, 0, 0), Version(1, 0, 1), Version(1, 1, 0), Version(2, 0, 0)];
    for a in versions {
        assert!(!a.later_than(&a));
        for b in versions {
            assert!(a == b || a.later_than(&b) || b.later_than(&a));
            for c in versions {
                if a.later_than(&b) && b.later_than(&c) {
                    assert!(a.later_than(&c));
                }
            }
        }
    }
}
