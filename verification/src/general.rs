//! Writers for the pieces of code that every generated file shares: the
//! header comment, imports, cfg conditions for versions, derives, doc
//! attributes and the `wrapper!` declarations of object, boxed and shared
//! types. Each writer appends its text to `out`; the `_string` variants
//! return the text of one attribute without the final newline.
use vstd::prelude::*;
use vstd::string::*;
use crate::config::{Config, Derive};
use crate::analysis::{
    FunctionInfo, GStatus, ImportEntry, Imports, StatusedTypeId, TraitInfo, Visibility,
};
use crate::env::{glib_type_text, write_glib_type, Env, MAIN};
use crate::library::Type;
use crate::gir_version::VERSION;
use crate::text::{
    comment_text, join, opt_view, push_char, tabs_text, views, write_comment, write_joined, write_tabs,
};
use crate::version::Version;

verus! {

// ---------------------------------------------------------------------------
// Header comments
// ---------------------------------------------------------------------------

/// The header of a generated file that names no versions.
pub open spec fn start_comments_no_version_text() -> Seq<char> {
    "// This file was generated by gir (https://github.com/gtk-rs/gir)\n"@
        + "// from gir-files (https://github.com/gtk-rs/gir-files)\n"@ + "// DO NOT EDIT\n"@
}

/// The header of a generated file: with the versions of the generator and
/// of the gir-files, unless those are kept in a file of their own.
pub open spec fn start_comments_text(conf: &Config) -> Seq<char> {
    if conf.single_version_file is Some {
        start_comments_no_version_text()
    } else {
        "// This file was generated by gir (https://github.com/gtk-rs/gir @ "@ + VERSION@
            + ")\n"@ + "// from gir-files (https://github.com/gtk-rs/gir-files @ "@
            + conf.girs_version@ + ")\n"@ + "// DO NOT EDIT\n"@
    }
}

/// The text of the file that records the versions once.
pub open spec fn single_version_file_text(conf: &Config) -> Seq<char> {
    "Generated by gir (https://github.com/gtk-rs/gir @ "@ + VERSION@ + ")\n"@
        + "from gir-files (https://github.com/gtk-rs/gir-files @ "@ + conf.girs_version@
        + ")\n"@
}

/// Writes the header comment of a generated file.
pub fn start_comments(out: &mut String, conf: &Config)
    ensures
        final(out)@ == old(out)@ + start_comments_text(conf),
{
    if conf.single_version_file.is_some() {
        return start_comments_no_version(out);
    }
    out.append("// This file was generated by gir (https://github.com/gtk-rs/gir @ ");
    out.append(VERSION);
    out.append(")\n");
    out.append("// from gir-files (https://github.com/gtk-rs/gir-files @ ");
    out.append(conf.girs_version.as_str());
    out.append(")\n");
    out.append("// DO NOT EDIT\n");
    assert(out@ =~= old(out)@ + start_comments_text(conf));
}

/// Writes the header comment of a generated file without versions.
pub fn start_comments_no_version(out: &mut String)
    ensures
        final(out)@ == old(out)@ + start_comments_no_version_text(),
{
    out.append("// This file was generated by gir (https://github.com/gtk-rs/gir)\n");
    out.append("// from gir-files (https://github.com/gtk-rs/gir-files)\n");
    out.append("// DO NOT EDIT\n");
    assert(out@ =~= old(out)@ + start_comments_no_version_text());
}

/// Writes the text of the file that records the versions once.
pub fn single_version_file(out: &mut String, conf: &Config)
    ensures
        final(out)@ == old(out)@ + single_version_file_text(conf),
{
    out.append("Generated by gir (https://github.com/gtk-rs/gir @ ");
    out.append(VERSION);
    out.append(")\n");
    out.append("from gir-files (https://github.com/gtk-rs/gir-files @ ");
    out.append(conf.girs_version.as_str());
    out.append(")\n");
    assert(out@ =~= old(out)@ + single_version_file_text(conf));
}

/// Where the versions are kept in a file of their own, the header of each
/// generated file is the one without versions.
pub proof fn single_version_file_drops_versions_from_header(conf: &Config)
    requires
        conf.single_version_file is Some,
    ensures
        start_comments_text(conf) == start_comments_no_version_text(),
{
}

// ---------------------------------------------------------------------------
// cfg conditions
// ---------------------------------------------------------------------------

/// The attribute that compiles an item only where `cond` holds or the
/// documentation is built.
pub open spec fn cfg_line(cond: Seq<char>, commented: bool, indent: nat) -> Seq<char> {
    tabs_text(indent) + comment_text(commented) + "#[cfg(any("@ + cond
        + ", feature = \"dox\"))]"@
}

/// The attribute that marks in the documentation that an item needs `cond`.
pub open spec fn doc_cfg_line(cond: Seq<char>, commented: bool, indent: nat) -> Seq<char> {
    tabs_text(indent) + comment_text(commented) + "#[cfg_attr(feature = \"dox\", doc(cfg("@
        + cond + ")))]"@
}

/// Both attributes for `cond`, on two lines.
pub open spec fn cfg_condition_text(cond: Seq<char>, commented: bool, indent: nat) -> Seq<
    char,
> {
    cfg_line(cond, commented, indent) + "\n"@ + doc_cfg_line(cond, commented, indent)
}

/// What `cfg_condition_string` returns.
pub open spec fn cfg_condition_spec(cond: Option<Seq<char>>, commented: bool, indent: nat) -> Option<
    Seq<char>,
> {
    match cond {
        Some(c) => Some(cfg_condition_text(c, commented, indent)),
        None => None,
    }
}

/// What `cfg_condition_string_no_doc` returns.
pub open spec fn cfg_condition_no_doc_spec(
    cond: Option<Seq<char>>,
    commented: bool,
    indent: nat,
) -> Option<Seq<char>> {
    match cond {
        Some(c) => Some(cfg_line(c, commented, indent)),
        None => None,
    }
}

/// The text of an optional line: the line and a newline, or nothing.
pub open spec fn line_text(line: Option<Seq<char>>) -> Seq<char> {
    match line {
        Some(s) => s + "\n"@,
        None => Seq::empty(),
    }
}

fn write_cfg_line(out: &mut String, cond: &str, commented: bool, indent: usize)
    ensures
        final(out)@ == old(out)@ + cfg_line(cond@, commented, indent as nat),
{
    write_tabs(out, indent);
    write_comment(out, commented);
    out.append("#[cfg(any(");
    out.append(cond);
    out.append(", feature = \"dox\"))]");
    assert(out@ =~= old(out)@ + cfg_line(cond@, commented, indent as nat));
}

fn write_cfg_condition(out: &mut String, cond: &str, commented: bool, indent: usize)
    ensures
        final(out)@ == old(out)@ + cfg_condition_text(cond@, commented, indent as nat),
{
    write_cfg_line(out, cond, commented, indent);
    out.append("\n");
    write_tabs(out, indent);
    write_comment(out, commented);
    out.append("#[cfg_attr(feature = \"dox\", doc(cfg(");
    out.append(cond);
    out.append(")))]");
    assert(out@ =~= old(out)@ + cfg_condition_text(cond@, commented, indent as nat));
}

/// The attribute, without documentation marker, that compiles an item only
/// where `cfg_condition` holds; `None` where there is no condition.
pub fn cfg_condition_string_no_doc(
    cfg_condition: &Option<String>,
    commented: bool,
    indent: usize,
) -> (res: Option<String>)
    ensures
        opt_view(res) == cfg_condition_no_doc_spec(opt_view(*cfg_condition), commented, indent as nat),
{
    match cfg_condition {
        Some(v) => {
            let mut s = String::new();
            write_cfg_line(&mut s, v.as_str(), commented, indent);
            assert(s@ =~= cfg_line(v@, commented, indent as nat));
            Some(s)
        },
        None => None,
    }
}

/// The two attributes that compile an item only where `cfg_condition`
/// holds and mark so in the documentation; `None` where there is no
/// condition.
pub fn cfg_condition_string(cfg_condition: &Option<String>, commented: bool, indent: usize) -> (res:
    Option<String>)
    ensures
        opt_view(res) == cfg_condition_spec(opt_view(*cfg_condition), commented, indent as nat),
{
    match cfg_condition {
        Some(v) => {
            let mut s = String::new();
            write_cfg_condition(&mut s, v.as_str(), commented, indent);
            assert(s@ =~= cfg_condition_text(v@, commented, indent as nat));
            Some(s)
        },
        None => None,
    }
}

/// Writes the attributes of `cfg_condition_string`, each on its line.
pub fn cfg_condition(out: &mut String, cfg_condition: &Option<String>, commented: bool, indent: usize)
    ensures
        final(out)@ == old(out)@ + line_text(
            cfg_condition_spec(opt_view(*cfg_condition), commented, indent as nat),
        ),
{
    let s = cfg_condition_string(cfg_condition, commented, indent);
    if let Some(s) = s {
        out.append(s.as_str());
        out.append("\n");
    }
    assert(out@ =~= old(out)@ + line_text(
        cfg_condition_spec(opt_view(*cfg_condition), commented, indent as nat),
    ));
}

// ---------------------------------------------------------------------------
// Version conditions
// ---------------------------------------------------------------------------

/// What `version_condition_string` returns: the cfg attributes for the
/// feature of `version`, where `version` is later than the oldest version
/// supported unconditionally.
pub open spec fn version_condition_spec(
    env: &Env,
    version: Option<Version>,
    commented: bool,
    indent: nat,
) -> Option<Seq<char>> {
    match version {
        Some(v) => if v.is_later_than(env.config.min_cfg_version) {
            Some(cfg_condition_text(v.cfg_text(), commented, indent))
        } else {
            None
        },
        None => None,
    }
}

/// What `version_condition_no_doc` writes.
pub open spec fn version_condition_no_doc_text(
    env: &Env,
    version: Option<Version>,
    commented: bool,
    indent: nat,
) -> Seq<char> {
    match version {
        Some(v) => if v.is_later_than(env.config.min_cfg_version) {
            cfg_line(v.cfg_text(), commented, indent) + "\n"@
        } else {
            Seq::empty()
        },
        None => Seq::empty(),
    }
}

/// The attributes that compile an item only where the feature of `version`
/// is on; `None` where the version needs no condition.
pub fn version_condition_string(
    env: &Env,
    version: Option<Version>,
    commented: bool,
    indent: usize,
) -> (res: Option<String>)
    ensures
        opt_view(res) == version_condition_spec(env, version, commented, indent as nat),
{
    match version {
        Some(v) => {
            if v.later_than(&env.config.min_cfg_version) {
                cfg_condition_string(&Some(v.to_cfg()), commented, indent)
            } else {
                None
            }
        },
        None => None,
    }
}

/// Writes the attributes of `version_condition_string`, each on its line.
pub fn version_condition(
    out: &mut String,
    env: &Env,
    version: Option<Version>,
    commented: bool,
    indent: usize,
)
    ensures
        final(out)@ == old(out)@ + line_text(
            version_condition_spec(env, version, commented, indent as nat),
        ),
{
    if let Some(s) = version_condition_string(env, version, commented, indent) {
        out.append(s.as_str());
        out.append("\n");
    }
    assert(out@ =~= old(out)@ + line_text(
        version_condition_spec(env, version, commented, indent as nat),
    ));
}

/// Writes the cfg attribute for the feature of `version`, without the
/// documentation marker, where the version needs a condition.
pub fn version_condition_no_doc(
    out: &mut String,
    env: &Env,
    version: Option<Version>,
    commented: bool,
    indent: usize,
)
    ensures
        final(out)@ == old(out)@ + version_condition_no_doc_text(
            env,
            version,
            commented,
            indent as nat,
        ),
{
    match version {
        Some(v) => {
            if v.later_than(&env.config.min_cfg_version) {
                if let Some(s) = cfg_condition_string_no_doc(&Some(v.to_cfg()), commented, indent) {
                    out.append(s.as_str());
                    out.append("\n");
                }
            }
        },
        None => {},
    }
    assert(out@ =~= old(out)@ + version_condition_no_doc_text(
        env,
        version,
        commented,
        indent as nat,
    ));
}

/// What `not_version_condition` writes: attributes that compile an item
/// only where the feature of `version` is off.
pub open spec fn not_version_condition_text(
    version: Option<Version>,
    commented: bool,
    indent: nat,
) -> Seq<char> {
    match version {
        Some(v) => cfg_condition_text("not("@ + v.cfg_text() + ")"@, commented, indent)
            + "\n"@,
        None => Seq::empty(),
    }
}

/// Writes the attributes that compile an item only where the feature of
/// `version` is off, where a version is given.
pub fn not_version_condition(
    out: &mut String,
    version: Option<Version>,
    commented: bool,
    indent: usize,
)
    ensures
        final(out)@ == old(out)@ + not_version_condition_text(version, commented, indent as nat),
{
    if let Some(v) = version {
        let mut cond = String::new();
        cond.append("not(");
        v.write_cfg(&mut cond);
        cond.append(")");
        if let Some(s) = cfg_condition_string(&Some(cond), commented, indent) {
            out.append(s.as_str());
            out.append("\n");
        }
    }
    assert(out@ =~= old(out)@ + not_version_condition_text(version, commented, indent as nat));
}

/// What `not_version_condition_no_dox` writes: an attribute that compiles
/// an item only where neither the feature of `version` is on nor the
/// documentation is built.
pub open spec fn not_version_condition_no_dox_text(
    version: Option<Version>,
    commented: bool,
    indent: nat,
) -> Seq<char> {
    match version {
        Some(v) => tabs_text(indent) + comment_text(commented) + "#[cfg(not(any("@
            + v.cfg_text() + ", feature = \"dox\")))]"@ + "\n"@,
        None => Seq::empty(),
    }
}

/// Writes the attribute that compiles an item only where neither the
/// feature of `version` is on nor the documentation is built.
pub fn not_version_condition_no_dox(
    out: &mut String,
    version: Option<Version>,
    commented: bool,
    indent: usize,
)
    ensures
        final(out)@ == old(out)@ + not_version_condition_no_dox_text(
            version,
            commented,
            indent as nat,
        ),
{
    if let Some(v) = version {
        write_tabs(out, indent);
        write_comment(out, commented);
        out.append("#[cfg(not(any(");
        v.write_cfg(out);
        out.append(", feature = \"dox\")))]");
        out.append("\n");
    }
    assert(out@ =~= old(out)@ + not_version_condition_no_dox_text(
        version,
        commented,
        indent as nat,
    ));
}

/// A version either needs a feature gate or is supported unconditionally,
/// never both: `version_condition` writes a gate exactly for the versions
/// that `Env::is_too_low_version` does not call too low.
pub proof fn version_gate_exactly_when_not_too_low(
    env: &Env,
    version: Option<Version>,
    commented: bool,
    indent: nat,
)
    ensures
        version is Some ==> (env.too_low(version) <==> version_condition_spec(
            env,
            version,
            commented,
            indent,
        ) is None),
        version is None ==> !env.too_low(version) && version_condition_spec(
            env,
            version,
            commented,
            indent,
        ) is None,
{
}

/// The attribute without documentation marker is the first of the two
/// lines of the attributes with it, for a condition and for a version.
pub proof fn no_doc_condition_is_first_line(
    env: &Env,
    cond: Option<Seq<char>>,
    version: Option<Version>,
    commented: bool,
    indent: nat,
)
    ensures
        cond is None ==> cfg_condition_spec(cond, commented, indent) is None
            && cfg_condition_no_doc_spec(cond, commented, indent) is None,
        cond matches Some(c) ==> cfg_condition_spec(cond, commented, indent) == Some(
            cfg_condition_no_doc_spec(cond, commented, indent).unwrap() + "\n"@ + doc_cfg_line(
                c,
                commented,
                indent,
            ),
        ),
        line_text(version_condition_spec(env, version, commented, indent))
            == version_condition_no_doc_text(env, version, commented, indent) + match version {
            Some(v) => if v.is_later_than(env.config.min_cfg_version) {
                doc_cfg_line(v.cfg_text(), commented, indent) + "\n"@
            } else {
                Seq::empty()
            },
            None => Seq::empty(),
        },
{
    match version {
        Some(v) => {
            if v.is_later_than(env.config.min_cfg_version) {
                let c = v.cfg_text();
                assert(line_text(version_condition_spec(env, version, commented, indent))
                    =~= version_condition_no_doc_text(env, version, commented, indent)
                    + doc_cfg_line(c, commented, indent) + "\n"@);
            } else {
                assert(line_text(version_condition_spec(env, version, commented, indent))
                    =~= version_condition_no_doc_text(env, version, commented, indent)
                    + Seq::<char>::empty());
            }
        },
        None => {
            assert(line_text(version_condition_spec(env, version, commented, indent))
                =~= version_condition_no_doc_text(env, version, commented, indent)
                + Seq::<char>::empty());
        },
    }
}

/// Where a version needs a gate, `not_version_condition` writes the same
/// attributes as `version_condition` around the negated predicate.
pub proof fn not_version_condition_negates_version_condition(
    env: &Env,
    v: Version,
    commented: bool,
    indent: nat,
)
    requires
        v.is_later_than(env.config.min_cfg_version),
    ensures
        version_condition_spec(env, Some(v), commented, indent) == Some(
            cfg_condition_text(v.cfg_text(), commented, indent),
        ),
        not_version_condition_text(Some(v), commented, indent) == line_text(
            Some(cfg_condition_text("not("@ + v.cfg_text() + ")"@, commented, indent)),
        ),
{
}

// ---------------------------------------------------------------------------
// Deprecation
// ---------------------------------------------------------------------------

/// What `cfg_deprecated_string` returns: an unconditional `#[deprecated]`
/// where the item was deprecated in a version supported unconditionally,
/// `#[deprecated]` under the feature of the version where it was deprecated
/// later, nothing where it is not deprecated.
pub open spec fn cfg_deprecated_spec(
    deprecated: Option<Version>,
    env: &Env,
    commented: bool,
    indent: nat,
) -> Option<Seq<char>> {
    if env.too_low(deprecated) {
        Some(tabs_text(indent) + comment_text(commented) + "#[deprecated]"@)
    } else {
        match deprecated {
            Some(v) => Some(
                tabs_text(indent) + comment_text(commented) + "#[cfg_attr("@ + v.cfg_text()
                    + ", deprecated)]"@,
            ),
            None => None,
        }
    }
}

/// The deprecation attribute for an item deprecated in `deprecated`.
pub fn cfg_deprecated_string(
    deprecated: Option<Version>,
    env: &Env,
    commented: bool,
    indent: usize,
) -> (res: Option<String>)
    ensures
        opt_view(res) == cfg_deprecated_spec(deprecated, env, commented, indent as nat),
{
    let mut s = String::new();
    write_tabs(&mut s, indent);
    write_comment(&mut s, commented);
    if env.is_too_low_version(deprecated) {
        s.append("#[deprecated]");
        assert(s@ =~= tabs_text(indent as nat) + comment_text(commented) + "#[deprecated]"@);
        Some(s)
    } else if let Some(v) = deprecated {
        s.append("#[cfg_attr(");
        v.write_cfg(&mut s);
        s.append(", deprecated)]");
        assert(s@ =~= tabs_text(indent as nat) + comment_text(commented) + "#[cfg_attr("@
            + v.cfg_text() + ", deprecated)]"@);
        Some(s)
    } else {
        None
    }
}

/// Writes the deprecation attribute of `cfg_deprecated_string` on its line.
pub fn cfg_deprecated(
    out: &mut String,
    env: &Env,
    deprecated: Option<Version>,
    commented: bool,
    indent: usize,
)
    ensures
        final(out)@ == old(out)@ + line_text(
            cfg_deprecated_spec(deprecated, env, commented, indent as nat),
        ),
{
    if let Some(s) = cfg_deprecated_string(deprecated, env, commented, indent) {
        out.append(s.as_str());
        out.append("\n");
    }
    assert(out@ =~= old(out)@ + line_text(
        cfg_deprecated_spec(deprecated, env, commented, indent as nat),
    ));
}

// ---------------------------------------------------------------------------
// Derives and doc attributes
// ---------------------------------------------------------------------------

/// The attribute of one derive set: under its cfg condition if it has one.
pub open spec fn derive_attribute(d: Derive) -> Seq<char> {
    match d.cfg_condition {
        Some(c) => "#[cfg_attr("@ + c@ + ", derive("@ + join(views(d.names@), ", "@) + "))]"@,
        None => "#[derive("@ + join(views(d.names@), ", "@) + ")]"@,
    }
}

/// What `derives` writes: one indented attribute line per derive set, in
/// order.
pub open spec fn derives_text(derives: Seq<Derive>, indent: nat) -> Seq<char>
    decreases derives.len(),
{
    if derives.len() == 0 {
        Seq::empty()
    } else {
        derives_text(derives.drop_last(), indent) + tabs_text(indent) + derive_attribute(
            derives.last(),
        ) + "\n"@
    }
}

/// Writes the derive attributes for `derives`, indented by `indent` levels.
pub fn derives(out: &mut String, derives: &[Derive], indent: usize)
    ensures
        final(out)@ == old(out)@ + derives_text(derives@, indent as nat),
{
    let mut i: usize = 0;
    while i < derives.len()
        invariant
            i <= derives.len(),
            out@ == old(out)@ + derives_text(derives@.take(i as int), indent as nat),
        decreases derives.len() - i,
    {
        let derive = &derives[i];
        write_tabs(out, indent);
        match &derive.cfg_condition {
            Some(condition) => {
                out.append("#[cfg_attr(");
                out.append(condition.as_str());
                out.append(", derive(");
                write_joined(out, derive.names.as_slice(), ", ");
                out.append("))]");
            },
            None => {
                out.append("#[derive(");
                write_joined(out, derive.names.as_slice(), ", ");
                out.append(")]");
            },
        }
        out.append("\n");
        proof {
            let t = derives@.take(i + 1);
            assert(t.drop_last() =~= derives@.take(i as int));
            assert(t.last() == derives@[i as int]);
        }
        i = i + 1;
        assert(out@ =~= old(out)@ + derives_text(derives@.take(i as int), indent as nat));
    }
    assert(derives@.take(derives.len() as int) =~= derives@);
}

/// What `doc_alias` writes.
pub open spec fn doc_alias_text(name: Seq<char>, comment_prefix: Seq<char>, indent: nat) -> Seq<
    char,
> {
    tabs_text(indent) + comment_prefix + "#[doc(alias = \""@ + name + "\")]"@ + "\n"@
}

/// Writes the attribute that gives an item the search alias `name`.
pub fn doc_alias(out: &mut String, name: &str, comment_prefix: &str, indent: usize)
    ensures
        final(out)@ == old(out)@ + doc_alias_text(name@, comment_prefix@, indent as nat),
{
    write_tabs(out, indent);
    out.append(comment_prefix);
    out.append("#[doc(alias = \"");
    out.append(name);
    out.append("\")]");
    out.append("\n");
    assert(out@ =~= old(out)@ + doc_alias_text(name@, comment_prefix@, indent as nat));
}

/// What `doc_hidden` writes.
pub open spec fn doc_hidden_text(doc_hidden: bool, comment_prefix: Seq<char>, indent: nat) -> Seq<
    char,
> {
    if doc_hidden {
        tabs_text(indent) + comment_prefix + "#[doc(hidden)]"@ + "\n"@
    } else {
        Seq::empty()
    }
}

/// Writes the attribute that hides an item from the documentation, where
/// `doc_hidden` is set.
pub fn doc_hidden(out: &mut String, doc_hidden: bool, comment_prefix: &str, indent: usize)
    ensures
        final(out)@ == old(out)@ + doc_hidden_text(doc_hidden, comment_prefix@, indent as nat),
{
    if doc_hidden {
        write_tabs(out, indent);
        out.append(comment_prefix);
        out.append("#[doc(hidden)]");
        out.append("\n");
    }
    assert(out@ =~= old(out)@ + doc_hidden_text(doc_hidden, comment_prefix@, indent as nat));
}

/// Each of `items` on a line of its own.
pub open spec fn lines_text(items: Seq<Seq<char>>) -> Seq<char>
    decreases items.len(),
{
    if items.len() == 0 {
        Seq::empty()
    } else {
        lines_text(items.drop_last()) + items.last() + "\n"@
    }
}

/// Writes each of `v` on a line of its own.
pub fn write_vec(out: &mut String, v: &[String])
    ensures
        final(out)@ == old(out)@ + lines_text(views(v@)),
{
    let ghost all = views(v@);
    let mut i: usize = 0;
    while i < v.len()
        invariant
            i <= v.len(),
            all == views(v@),
            out@ == old(out)@ + lines_text(all.take(i as int)),
        decreases v.len() - i,
    {
        out.append(v[i].as_str());
        out.append("\n");
        proof {
            let t = all.take(i + 1);
            assert(t.drop_last() =~= all.take(i as int));
            assert(t.last() == v@[i as int]@);
        }
        i = i + 1;
        assert(out@ =~= old(out)@ + lines_text(all.take(i as int)));
    }
    assert(all.take(v.len() as int) =~= all);
}

// ---------------------------------------------------------------------------
// String literals
// ---------------------------------------------------------------------------

/// The characters that must be escaped inside double quotes.
pub open spec fn needs_escape(c: char) -> bool {
    c == '"' || c == '\\'
}

/// One character as it stands inside double quotes.
pub open spec fn escape_char(c: char) -> Seq<char> {
    if needs_escape(c) {
        seq!['\\', c]
    } else {
        seq![c]
    }
}

/// `s` with a backslash put before each double quote and each backslash.
pub open spec fn escape_text(s: Seq<char>) -> Seq<char>
    decreases s.len(),
{
    if s.len() == 0 {
        Seq::empty()
    } else {
        escape_text(s.drop_last()) + escape_char(s.last())
    }
}

/// Escapes string in format suitable for placing inside double quotes.
pub fn escape_string(s: &str) -> (res: String)
    ensures
        res@ == escape_text(s@),
{
    let mut es = String::new();
    let ghost chars = s@;
    for c in it: s.chars()
        invariant
            chars == s@,
            it.seq() == chars,
            es@ == escape_text(chars.take(it.index() as int)),
    {
        let ghost i = it.index();
        if c == '"' || c == '\\' {
            push_char(&mut es, '\\');
        }
        push_char(&mut es, c);
        proof {
            let t = chars.take(i + 1);
            assert(t.drop_last() =~= chars.take(i as int));
        }
    }
    assert(chars.take(chars.len() as int) =~= chars);
    es
}

/// The value of a string literal whose text between the double quotes is
/// `t`, where `t` uses no escapes but `\\` and `\"`; `None` where `t` holds
/// a double quote that would end the literal, or another escape.
pub open spec fn literal_value(t: Seq<char>) -> Option<Seq<char>>
    decreases t.len(),
{
    if t.len() == 0 {
        Some(Seq::empty())
    } else if t[0] == '"' {
        None
    } else if t[0] == '\\' {
        if t.len() >= 2 && needs_escape(t[1]) {
            match literal_value(t.skip(2)) {
                Some(rest) => Some(seq![t[1]] + rest),
                None => None,
            }
        } else {
            None
        }
    } else {
        match literal_value(t.skip(1)) {
            Some(rest) => Some(seq![t[0]] + rest),
            None => None,
        }
    }
}

/// Escaping a concatenation escapes each part.
pub proof fn escape_text_concat(a: Seq<char>, b: Seq<char>)
    ensures
        escape_text(a + b) == escape_text(a) + escape_text(b),
    decreases b.len(),
{
    if b.len() == 0 {
        assert(a + b =~= a);
        assert(escape_text(a) + escape_text(b) =~= escape_text(a));
    } else {
        escape_text_concat(a, b.drop_last());
        assert((a + b).drop_last() =~= a + b.drop_last());
        assert((a + b).last() == b.last());
        assert(escape_text(a + b) =~= escape_text(a) + escape_text(b));
    }
}

/// Placed between double quotes, the escaped text is a string literal whose
/// value is the original text: every double quote and backslash is escaped,
/// and nothing else is.
pub proof fn escape_string_gives_literal_of_original(s: Seq<char>)
    ensures
        literal_value(escape_text(s)) == Some(s),
    decreases s.len(),
{
    if s.len() == 0 {
        assert(escape_text(s) =~= Seq::<char>::empty());
        assert(literal_value(escape_text(s)) == Some(Seq::<char>::empty()));
        assert(s =~= Seq::<char>::empty());
    } else {
        let c = s[0];
        let rest = s.drop_first();
        assert(s =~= seq![c] + rest);
        escape_text_concat(seq![c], rest);
        assert(seq![c].drop_last() =~= Seq::<char>::empty());
        assert(escape_text(Seq::<char>::empty()) == Seq::<char>::empty());
        assert(seq![c].last() == c);
        assert(escape_text(seq![c]) == escape_text(seq![c].drop_last()) + escape_char(c));
        assert(escape_text(seq![c]) =~= escape_char(c));
        let t = escape_text(s);
        assert(t =~= escape_char(c) + escape_text(rest));
        escape_string_gives_literal_of_original(rest);
        if needs_escape(c) {
            assert(t.skip(2) =~= escape_text(rest));
        } else {
            assert(t.skip(1) =~= escape_text(rest));
        }
        assert(seq![c] + rest =~= s);
    }
}

/// A text without double quotes and backslashes is left as it is.
pub proof fn escape_string_keeps_plain_text(s: Seq<char>)
    requires
        forall|i: int| 0 <= i < s.len() ==> !needs_escape(#[trigger] s[i]),
    ensures
        escape_text(s) == s,
    decreases s.len(),
{
    if s.len() > 0 {
        escape_string_keeps_plain_text(s.drop_last());
        assert(!needs_escape(s[s.len() - 1]));
        assert(escape_text(s) =~= s);
    }
}

// ---------------------------------------------------------------------------
// Imports
// ---------------------------------------------------------------------------

/// The lines of one import: the attributes for its constraints, if it has
/// any, the attributes for its version, then the `use` item.
pub open spec fn import_text(env: &Env, entry: ImportEntry) -> Seq<char> {
    let constraints = join(views(entry.conditions.constraints@), ", "@);
    (if entry.conditions.constraints@.len() > 0 {
        "#[cfg(any("@ + constraints + ",feature = \"dox\"))]"@ + "\n"@
            + "#[cfg_attr(feature = \"dox\", doc(cfg("@ + constraints + ")))]"@ + "\n"@
    } else {
        Seq::empty()
    }) + line_text(version_condition_spec(env, entry.conditions.version, false, 0))
        + "use "@ + entry.name@ + ";"@ + "\n"@
}

/// The lines of the imports `entries`, in order.
pub open spec fn imports_text(env: &Env, entries: Seq<ImportEntry>) -> Seq<char>
    decreases entries.len(),
{
    if entries.len() == 0 {
        Seq::empty()
    } else {
        imports_text(env, entries.drop_last()) + import_text(env, entries.last())
    }
}

/// What `uses` writes: an empty line, then the imports.
pub open spec fn uses_text(env: &Env, imports: &Imports) -> Seq<char> {
    "\n"@ + imports_text(env, imports.entries@)
}

fn write_import(out: &mut String, env: &Env, entry: &ImportEntry)
    ensures
        final(out)@ == old(out)@ + import_text(env, *entry),
{
    let scope = &entry.conditions;
    if scope.constraints.len() > 0 {
        let mut constraints = String::new();
        write_joined(&mut constraints, scope.constraints.as_slice(), ", ");
        out.append("#[cfg(any(");
        out.append(constraints.as_str());
        out.append(",feature = \"dox\"))]");
        out.append("\n");
        out.append("#[cfg_attr(feature = \"dox\", doc(cfg(");
        out.append(constraints.as_str());
        out.append(")))]");
        out.append("\n");
    }
    version_condition(out, env, scope.version, false, 0);
    out.append("use ");
    out.append(entry.name.as_str());
    out.append(";");
    out.append("\n");
    assert(out@ =~= old(out)@ + import_text(env, *entry));
}

/// Writes the `use` items of a generated file, each with its conditions.
pub fn uses(out: &mut String, env: &Env, imports: &Imports)
    ensures
        final(out)@ == old(out)@ + uses_text(env, imports),
{
    out.append("\n");
    let entries = &imports.entries;
    let mut i: usize = 0;
    while i < entries.len()
        invariant
            i <= entries.len(),
            entries == imports.entries,
            out@ == old(out)@ + "\n"@ + imports_text(env, entries@.take(i as int)),
        decreases entries.len() - i,
    {
        write_import(out, env, &entries[i]);
        proof {
            let t = entries@.take(i + 1);
            assert(t.drop_last() =~= entries@.take(i as int));
            assert(t.last() == entries@[i as int]);
        }
        i = i + 1;
        assert(out@ =~= old(out)@ + "\n"@ + imports_text(env, entries@.take(i as int)));
    }
    assert(entries@.take(entries.len() as int) =~= entries@);
}

// ---------------------------------------------------------------------------
// Object types
// ---------------------------------------------------------------------------

/// Which parents of an object type a list is made of.
pub enum ParentSelection {
    /// Those that are not ignored.
    Kept,
    /// The kept parents that are classes.
    Classes,
    /// The kept parents that are interfaces.
    Interfaces,
}

/// `p` belongs to the parents that `sel` picks.
pub open spec fn parent_selected(env: &Env, p: StatusedTypeId, sel: ParentSelection) -> bool {
    &&& p.status != GStatus::Ignore
    &&& match sel {
        ParentSelection::Kept => true,
        ParentSelection::Classes => env.library.type_at(p.type_id) is Class,
        ParentSelection::Interfaces => env.library.type_at(p.type_id) is Interface,
    }
}

/// How a parent is named in generated code: by its name inside the main
/// namespace, prefixed by the crate of its namespace elsewhere.
pub open spec fn parent_name_text(env: &Env, p: StatusedTypeId) -> Seq<char> {
    if p.type_id.ns_id == MAIN {
        p.name@
    } else {
        env.crate_name_of(p.type_id.ns_id) + "::"@ + p.name@
    }
}

/// The namespace of `p` is known where `p` is named through its crate.
pub open spec fn parent_nameable(env: &Env, p: StatusedTypeId) -> bool {
    p.type_id.ns_id != MAIN ==> (p.type_id.ns_id as int) < env.namespaces.namespaces@.len()
}

/// The names of the parents that `sel` picks, in order.
pub open spec fn parent_names(env: &Env, parents: Seq<StatusedTypeId>, sel: ParentSelection) -> Seq<
    Seq<char>,
>
    decreases parents.len(),
{
    if parents.len() == 0 {
        Seq::empty()
    } else {
        let rest = parent_names(env, parents.drop_last(), sel);
        if parent_selected(env, parents.last(), sel) {
            rest.push(parent_name_text(env, parents.last()))
        } else {
            rest
        }
    }
}

/// Some parent is not ignored.
pub open spec fn has_kept_parent(parents: Seq<StatusedTypeId>) -> bool {
    exists|i: int| 0 <= i < parents.len() && parents[i].status != GStatus::Ignore
}

/// Every parent that `sel` picks can be named, and where `sel` looks at the
/// kind of a type, every kept parent is a type of the library.
pub open spec fn parents_resolvable(env: &Env, parents: Seq<StatusedTypeId>, sel: ParentSelection) -> bool {
    forall|i: int|
        0 <= i < parents.len() && parents[i].status != GStatus::Ignore ==> {
            &&& (!(sel is Kept) ==> env.library.has_type(parents[i].type_id))
            &&& (parent_selected(env, parents[i], sel) ==> parent_nameable(env, parents[i]))
        }
}

fn format_parent_name(env: &Env, p: &StatusedTypeId) -> (res: String)
    requires
        parent_nameable(env, *p),
    ensures
        res@ == parent_name_text(env, *p),
{
    if p.type_id.ns_id == MAIN {
        p.name.clone()
    } else {
        let mut res = String::new();
        res.append(env.namespaces.namespaces[p.type_id.ns_id as usize].crate_name.as_str());
        res.append("::");
        res.append(p.name.as_str());
        assert(res@ =~= parent_name_text(env, *p));
        res
    }
}

fn selects(env: &Env, p: &StatusedTypeId, sel: &ParentSelection) -> (res: bool)
    requires
        p.status != GStatus::Ignore && !(*sel is Kept) ==> env.library.has_type(p.type_id),
    ensures
        res == parent_selected(env, *p, *sel),
{
    if p.status.ignored() {
        return false;
    }
    match sel {
        ParentSelection::Kept => true,
        ParentSelection::Classes => match env.library.type_(p.type_id) {
            Type::Class => true,
            _ => false,
        },
        ParentSelection::Interfaces => match env.library.type_(p.type_id) {
            Type::Interface => true,
            _ => false,
        },
    }
}

fn parent_name_list(env: &Env, parents: &[StatusedTypeId], sel: ParentSelection) -> (res: Vec<
    String,
>)
    requires
        parents_resolvable(env, parents@, sel),
    ensures
        views(res@) == parent_names(env, parents@, sel),
{
    let mut res: Vec<String> = Vec::new();
    let mut i: usize = 0;
    while i < parents.len()
        invariant
            i <= parents.len(),
            parents_resolvable(env, parents@, sel),
            views(res@) == parent_names(env, parents@.take(i as int), sel),
        decreases parents.len() - i,
    {
        let p = &parents[i];
        if selects(env, p, &sel) {
            res.push(format_parent_name(env, p));
        }
        proof {
            let t = parents@.take(i + 1);
            assert(t.drop_last() =~= parents@.take(i as int));
            assert(t.last() == parents@[i as int]);
            assert(views(res@) =~= parent_names(env, t, sel));
        }
        i = i + 1;
    }
    assert(parents@.take(parents.len() as int) =~= parents@);
    res
}

fn any_kept(parents: &[StatusedTypeId]) -> (res: bool)
    ensures
        res == has_kept_parent(parents@),
{
    let mut i: usize = 0;
    while i < parents.len()
        invariant
            i <= parents.len(),
            forall|j: int| 0 <= j < i ==> parents@[j].status == GStatus::Ignore,
        decreases parents.len() - i,
    {
        if !parents[i].status.ignored() {
            return true;
        }
        i = i + 1;
    }
    false
}

/// The suffix naming the classes an object type extends and the interfaces
/// it implements.
pub open spec fn extends_implements_text(classes: Seq<Seq<char>>, interfaces: Seq<Seq<char>>) -> Seq<
    char,
> {
    (if classes.len() > 0 {
        " @extends "@ + join(classes, ", "@)
    } else {
        Seq::empty()
    }) + (if interfaces.len() > 0 {
        (if classes.len() > 0 {
            ","@
        } else {
            Seq::empty()
        }) + " @implements "@ + join(interfaces, ", "@)
    } else {
        Seq::empty()
    })
}

/// The `pub struct` line of an object type's wrapper.
#[verifier::opaque]
pub open spec fn object_struct_line(
    env: &Env,
    struct_name: Seq<char>,
    glib_name: Seq<char>,
    class_name: Seq<char>,
    is_interface: bool,
    parents: Seq<StatusedTypeId>,
) -> Seq<char> {
    let sys = env.namespaces.main_sys_crate_name@;
    if !has_kept_parent(parents) {
        "\tpub struct "@ + struct_name + "("@ + (if is_interface {
            "Interface"@
        } else {
            "Object"@
        }) + "<"@ + sys + "::"@ + glib_name + class_name + ">);"@
    } else if is_interface {
        "\tpub struct "@ + struct_name + "(Interface<"@ + sys + "::"@ + glib_name + class_name
            + ">) @requires "@ + join(parent_names(env, parents, ParentSelection::Kept), ", "@)
            + ";"@
    } else {
        "\tpub struct "@ + struct_name + "(Object<"@ + sys + "::"@ + glib_name + class_name + ">)"@
            + extends_implements_text(
            parent_names(env, parents, ParentSelection::Classes),
            parent_names(env, parents, ParentSelection::Interfaces),
        ) + ";"@
    }
}

/// The class struct part of an object type's wrapper: `, <sys>::<class>`
/// where the type has a class struct.
pub open spec fn class_name_text(env: &Env, glib_class_name: Option<Seq<char>>) -> Seq<char> {
    match glib_class_name {
        Some(c) => ", "@ + env.namespaces.main_sys_crate_name@ + "::"@ + c,
        None => Seq::empty(),
    }
}

/// What `define_object_type` writes: an empty line and the `wrapper!`
/// declaration of the object type with its parents and its type function.
pub open spec fn object_type_text(
    env: &Env,
    struct_name: Seq<char>,
    glib_name: Seq<char>,
    glib_class_name: Option<Seq<char>>,
    glib_func_name: Seq<char>,
    is_interface: bool,
    parents: Seq<StatusedTypeId>,
) -> Seq<char> {
    "\n"@ + wrapper_open_text(env) + object_struct_line(
        env,
        struct_name,
        glib_name,
        class_name_text(env, glib_class_name),
        is_interface,
        parents,
    ) + "\n"@ + "\n"@ + "\tmatch fn {"@ + "\n"@ + get_type_text(env, Some(glib_func_name))
        + wrapper_close_text()
}

/// The lookups that `define_object_type` makes succeed: an interface's
/// kept parents can be named; a class's kept parents are types of the
/// library, and those that are classes or interfaces can be named.
pub open spec fn object_parents_resolvable(
    env: &Env,
    is_interface: bool,
    parents: Seq<StatusedTypeId>,
) -> bool {
    if is_interface {
        parents_resolvable(env, parents, ParentSelection::Kept)
    } else {
        parents_resolvable(env, parents, ParentSelection::Classes) && parents_resolvable(
            env,
            parents,
            ParentSelection::Interfaces,
        )
    }
}

fn write_object_struct_line(
    out: &mut String,
    env: &Env,
    struct_name: &str,
    glib_name: &str,
    class_name: &str,
    is_interface: bool,
    parents: &[StatusedTypeId],
)
    requires
        object_parents_resolvable(env, is_interface, parents@),
    ensures
        final(out)@ == old(out)@ + object_struct_line(
            env,
            struct_name@,
            glib_name@,
            class_name@,
            is_interface,
            parents@,
        ),
{
    reveal(object_struct_line);
    let sys_crate_name = env.main_sys_crate_name();
    if !any_kept(parents) {
        out.append("\tpub struct ");
        out.append(struct_name);
        out.append("(");
        if is_interface {
            out.append("Interface");
        } else {
            out.append("Object");
        }
        out.append("<");
        out.append(sys_crate_name);
        out.append("::");
        out.append(glib_name);
        out.append(class_name);
        out.append(">);");
        assert(out@ =~= old(out)@ + object_struct_line(
            env,
            struct_name@,
            glib_name@,
            class_name@,
            is_interface,
            parents@,
        ));
    } else if is_interface {
        let prerequisites = parent_name_list(env, parents, ParentSelection::Kept);
        out.append("\tpub struct ");
        out.append(struct_name);
        out.append("(Interface<");
        out.append(sys_crate_name);
        out.append("::");
        out.append(glib_name);
        out.append(class_name);
        out.append(">) @requires ");
        write_joined(out, prerequisites.as_slice(), ", ");
        out.append(";");
        assert(out@ =~= old(out)@ + object_struct_line(
            env,
            struct_name@,
            glib_name@,
            class_name@,
            is_interface,
            parents@,
        ));
    } else {
        let interfaces = parent_name_list(env, parents, ParentSelection::Interfaces);
        let classes = parent_name_list(env, parents, ParentSelection::Classes);
        let parents_string = extends_implements(&classes, &interfaces);
        out.append("\tpub struct ");
        out.append(struct_name);
        out.append("(Object<");
        out.append(sys_crate_name);
        out.append("::");
        out.append(glib_name);
        out.append(class_name);
        out.append(">)");
        out.append(parents_string.as_str());
        out.append(";");
        assert(out@ =~= old(out)@ + object_struct_line(
            env,
            struct_name@,
            glib_name@,
            class_name@,
            is_interface,
            parents@,
        ));
    }
}

fn extends_implements(classes: &Vec<String>, interfaces: &Vec<String>) -> (res: String)
    ensures
        res@ == extends_implements_text(views(classes@), views(interfaces@)),
{
    let mut parents_string = String::new();
    if classes.len() > 0 {
        parents_string.append(" @extends ");
        write_joined(&mut parents_string, classes.as_slice(), ", ");
    }
    if interfaces.len() > 0 {
        if classes.len() > 0 {
            push_char(&mut parents_string, ',');
        }
        parents_string.append(" @implements ");
        write_joined(&mut parents_string, interfaces.as_slice(), ", ");
    }
    proof {
        reveal_strlit(",");
    }
    assert(parents_string@ =~= extends_implements_text(views(classes@), views(interfaces@)));
    parents_string
}

/// Writes the `wrapper!` declaration of an object type or interface.
pub fn define_object_type(
    out: &mut String,
    env: &Env,
    struct_name: &str,
    glib_name: &str,
    glib_class_name: Option<&str>,
    glib_func_name: &str,
    is_interface: bool,
    parents: &[StatusedTypeId],
)
    requires
        object_parents_resolvable(env, is_interface, parents@),
    ensures
        final(out)@ == old(out)@ + object_type_text(
            env,
            struct_name@,
            glib_name@,
            match glib_class_name {
                Some(c) => Some(c@),
                None => None,
            },
            glib_func_name@,
            is_interface,
            parents@,
        ),
{
    let ghost class_view = match glib_class_name {
        Some(c) => Some(c@),
        None => None,
    };
    let sys_crate_name = env.main_sys_crate_name();
    let mut class_name = String::new();
    if let Some(s) = glib_class_name {
        class_name.append(", ");
        class_name.append(sys_crate_name);
        class_name.append("::");
        class_name.append(s);
    }
    assert(class_name@ =~= class_name_text(env, class_view));
    out.append("\n");
    write_wrapper_open(out, env);
    write_object_struct_line(
        out,
        env,
        struct_name,
        glib_name,
        class_name.as_str(),
        is_interface,
        parents,
    );
    out.append("\n");
    out.append("\n");
    out.append("\tmatch fn {");
    out.append("\n");
    write_get_type(out, env, Some(glib_func_name));
    write_wrapper_close(out);
    assert(out@ =~= old(out)@ + object_type_text(
        env,
        struct_name@,
        glib_name@,
        class_view,
        glib_func_name@,
        is_interface,
        parents@,
    ));
}

// ---------------------------------------------------------------------------
// Boxed and shared types
// ---------------------------------------------------------------------------

/// The first line of a `wrapper!` declaration.
pub open spec fn wrapper_open_text(env: &Env) -> Seq<char> {
    glib_type_text(env, "wrapper!"@) + " {"@ + "\n"@
}

/// The last lines of a `wrapper!` declaration: the end of the `match fn`
/// block and of the declaration.
pub open spec fn wrapper_close_text() -> Seq<char> {
    "\t}"@ + "\n"@ + "}"@ + "\n"@
}

/// The `init` and `clear` functions, where both are given.
pub open spec fn init_clear_text(init: Option<Seq<char>>, clear: Option<Seq<char>>) -> Seq<char> {
    match (init, clear) {
        (Some(i), Some(c)) => "\t\tinit => "@ + i + ","@ + "\n"@ + "\t\tclear => "@ + c + ","@
            + "\n"@,
        _ => Seq::empty(),
    }
}

/// The `get_type` function, where one is given.
pub open spec fn get_type_text(env: &Env, get_type_fn: Option<Seq<char>>) -> Seq<char> {
    match get_type_fn {
        Some(g) => "\t\tget_type => || "@ + env.namespaces.main_sys_crate_name@ + "::"@ + g
            + "(),"@ + "\n"@,
        None => Seq::empty(),
    }
}

/// The `pub struct` line of a wrapper of kind `kind` (`Boxed` or `Shared`).
pub open spec fn wrapped_struct_line(
    env: &Env,
    struct_name: Seq<char>,
    kind: Seq<char>,
    glib_name: Seq<char>,
) -> Seq<char> {
    "\tpub struct "@ + struct_name + "("@ + kind + "<"@ + env.namespaces.main_sys_crate_name@
        + "::"@ + glib_name + ">);"@ + "\n"@
}

/// The characters of an optional string slice.
pub open spec fn opt_str_view(o: Option<&str>) -> Option<Seq<char>> {
    match o {
        Some(s) => Some(s@),
        None => None,
    }
}

fn write_wrapper_open(out: &mut String, env: &Env)
    ensures
        final(out)@ == old(out)@ + wrapper_open_text(env),
{
    write_glib_type(out, env, "wrapper!");
    out.append(" {");
    out.append("\n");
    assert(out@ =~= old(out)@ + wrapper_open_text(env));
}

fn write_wrapper_close(out: &mut String)
    ensures
        final(out)@ == old(out)@ + wrapper_close_text(),
{
    out.append("\t}");
    out.append("\n");
    out.append("}");
    out.append("\n");
    assert(out@ =~= old(out)@ + wrapper_close_text());
}

fn write_init_clear(out: &mut String, init: &Option<String>, clear: &Option<String>)
    ensures
        final(out)@ == old(out)@ + init_clear_text(opt_view(*init), opt_view(*clear)),
{
    if let (Some(init_function_expression), Some(clear_function_expression)) = (init, clear) {
        out.append("\t\tinit => ");
        out.append(init_function_expression.as_str());
        out.append(",");
        out.append("\n");
        out.append("\t\tclear => ");
        out.append(clear_function_expression.as_str());
        out.append(",");
        out.append("\n");
    }
    assert(out@ =~= old(out)@ + init_clear_text(opt_view(*init), opt_view(*clear)));
}

fn write_get_type(out: &mut String, env: &Env, get_type_fn: Option<&str>)
    ensures
        final(out)@ == old(out)@ + get_type_text(env, opt_str_view(get_type_fn)),
{
    if let Some(get_type_fn) = get_type_fn {
        out.append("\t\tget_type => || ");
        out.append(env.main_sys_crate_name());
        out.append("::");
        out.append(get_type_fn);
        out.append("(),");
        out.append("\n");
    }
    assert(out@ =~= old(out)@ + get_type_text(env, opt_str_view(get_type_fn)));
}

fn write_wrapped_struct_line(
    out: &mut String,
    env: &Env,
    struct_name: &str,
    kind: &str,
    glib_name: &str,
)
    ensures
        final(out)@ == old(out)@ + wrapped_struct_line(env, struct_name@, kind@, glib_name@),
{
    out.append("\tpub struct ");
    out.append(struct_name);
    out.append("(");
    out.append(kind);
    out.append("<");
    out.append(env.main_sys_crate_name());
    out.append("::");
    out.append(glib_name);
    out.append(">);");
    out.append("\n");
    assert(out@ =~= old(out)@ + wrapped_struct_line(env, struct_name@, kind@, glib_name@));
}

/// The `copy` and `free` functions of a boxed type.
pub open spec fn copy_free_text(env: &Env, copy_fn: TraitInfo, free_fn: Seq<char>) -> Seq<char> {
    let sys = env.namespaces.main_sys_crate_name@;
    "\t\tcopy => |ptr| "@ + sys + "::"@ + copy_fn.glib_name@ + "("@ + (if copy_fn.first_parameter_mut {
        "mut_override(ptr)"@
    } else {
        "ptr"@
    }) + "),"@ + "\n"@ + "\t\tfree => |ptr| "@ + sys + "::"@ + free_fn + "(ptr),"@ + "\n"@
}

/// One `wrapper!` declaration of a boxed type, with `get_type_fn` as its
/// type function where one is given.
#[verifier::opaque]
pub open spec fn boxed_type_body_text(
    env: &Env,
    struct_name: Seq<char>,
    glib_name: Seq<char>,
    copy_fn: TraitInfo,
    free_fn: Seq<char>,
    init: Option<Seq<char>>,
    clear: Option<Seq<char>>,
    get_type_fn: Option<Seq<char>>,
    derive: Seq<Derive>,
) -> Seq<char> {
    wrapper_open_text(env) + derives_text(derive, 1) + wrapped_struct_line(
        env,
        struct_name,
        "Boxed"@,
        glib_name,
    ) + "\n"@ + "\tmatch fn {"@ + "\n"@ + copy_free_text(env, copy_fn, free_fn) + init_clear_text(
        init,
        clear,
    ) + get_type_text(env, get_type_fn) + wrapper_close_text()
}

fn write_copy_free(out: &mut String, env: &Env, copy_fn: &TraitInfo, free_fn: &str)
    ensures
        final(out)@ == old(out)@ + copy_free_text(env, *copy_fn, free_fn@),
{
    let sys_crate_name = env.main_sys_crate_name();
    out.append("\t\tcopy => |ptr| ");
    out.append(sys_crate_name);
    out.append("::");
    out.append(copy_fn.glib_name.as_str());
    out.append("(");
    if copy_fn.first_parameter_mut {
        out.append("mut_override(ptr)");
    } else {
        out.append("ptr");
    }
    out.append("),");
    out.append("\n");
    out.append("\t\tfree => |ptr| ");
    out.append(sys_crate_name);
    out.append("::");
    out.append(free_fn);
    out.append("(ptr),");
    out.append("\n");
    assert(out@ =~= old(out)@ + copy_free_text(env, *copy_fn, free_fn@));
}

fn define_boxed_type_internal(
    out: &mut String,
    env: &Env,
    struct_name: &str,
    glib_name: &str,
    copy_fn: &TraitInfo,
    free_fn: &str,
    init_function_expression: &Option<String>,
    clear_function_expression: &Option<String>,
    get_type_fn: Option<&str>,
    derive: &[Derive],
)
    ensures
        final(out)@ == old(out)@ + boxed_type_body_text(
            env,
            struct_name@,
            glib_name@,
            *copy_fn,
            free_fn@,
            opt_view(*init_function_expression),
            opt_view(*clear_function_expression),
            opt_str_view(get_type_fn),
            derive@,
        ),
{
    reveal(boxed_type_body_text);
    write_wrapper_open(out, env);
    derives(out, derive, 1);
    write_wrapped_struct_line(out, env, struct_name, "Boxed", glib_name);
    out.append("\n");
    out.append("\tmatch fn {");
    out.append("\n");
    write_copy_free(out, env, copy_fn, free_fn);
    write_init_clear(out, init_function_expression, clear_function_expression);
    write_get_type(out, env, get_type_fn);
    write_wrapper_close(out);
    assert(out@ =~= old(out)@ + boxed_type_body_text(
        env,
        struct_name@,
        glib_name@,
        *copy_fn,
        free_fn@,
        opt_view(*init_function_expression),
        opt_view(*clear_function_expression),
        opt_str_view(get_type_fn),
        derive@,
    ));
}

/// What `define_boxed_type` writes: an empty line, then the `wrapper!`
/// declaration. Where the type function appeared in a version, the
/// declaration comes twice: with the type function under the feature of
/// that version, and without it where that feature is off.
pub open spec fn boxed_type_text(
    env: &Env,
    struct_name: Seq<char>,
    glib_name: Seq<char>,
    copy_fn: TraitInfo,
    free_fn: Seq<char>,
    init: Option<Seq<char>>,
    clear: Option<Seq<char>>,
    get_type_fn: Option<(String, Option<Version>)>,
    derive: Seq<Derive>,
) -> Seq<char> {
    "\n"@ + match get_type_fn {
        Some((g, Some(v))) => line_text(version_condition_spec(env, Some(v), false, 0))
            + boxed_type_body_text(
            env,
            struct_name,
            glib_name,
            copy_fn,
            free_fn,
            init,
            clear,
            Some(g@),
            derive,
        ) + "\n"@ + not_version_condition_no_dox_text(Some(v), false, 0) + boxed_type_body_text(
            env,
            struct_name,
            glib_name,
            copy_fn,
            free_fn,
            init,
            clear,
            None,
            derive,
        ),
        Some((g, None)) => boxed_type_body_text(
            env,
            struct_name,
            glib_name,
            copy_fn,
            free_fn,
            init,
            clear,
            Some(g@),
            derive,
        ),
        None => boxed_type_body_text(
            env,
            struct_name,
            glib_name,
            copy_fn,
            free_fn,
            init,
            clear,
            None,
            derive,
        ),
    }
}

/// Where the type function of a boxed or shared type appeared in a version
/// later than the oldest one supported, its two declarations are guarded by
/// complementary predicates: the first compiles where `P` holds and the
/// second where `not(P)` does, for `P` the feature of that version or the
/// documentation build.
pub proof fn versioned_declarations_have_complementary_guards(env: &Env, v: Version)
    requires
        v.is_later_than(env.config.min_cfg_version),
    ensures
        ({
            let p = "any("@ + v.cfg_text() + ", feature = \"dox\")"@;
            &&& line_text(version_condition_spec(env, Some(v), false, 0)) == "#[cfg("@ + p + ")]"@
                + "\n"@ + doc_cfg_line(v.cfg_text(), false, 0) + "\n"@
            &&& not_version_condition_no_dox_text(Some(v), false, 0) == "#[cfg(not("@ + p + "))]"@
                + "\n"@
        }),
{
    reveal_strlit("#[cfg(any(");
    reveal_strlit("#[cfg(");
    reveal_strlit("any(");
    reveal_strlit(", feature = \"dox\"))]");
    reveal_strlit(", feature = \"dox\")");
    reveal_strlit(")]");
    reveal_strlit("#[cfg(not(any(");
    reveal_strlit("#[cfg(not(");
    reveal_strlit(", feature = \"dox\")))]");
    reveal_strlit("))]");
    let c = v.cfg_text();
    let p = "any("@ + c + ", feature = \"dox\")"@;
    assert(tabs_text(0) =~= Seq::<char>::empty());
    assert(comment_text(false) =~= Seq::<char>::empty());
    assert(cfg_line(c, false, 0) =~= "#[cfg("@ + p + ")]"@);
    assert(line_text(version_condition_spec(env, Some(v), false, 0)) =~= "#[cfg("@ + p + ")]"@
        + "\n"@ + doc_cfg_line(c, false, 0) + "\n"@);
    assert(not_version_condition_no_dox_text(Some(v), false, 0) =~= "#[cfg(not("@ + p + "))]"@
        + "\n"@);
}

/// Writes the `wrapper!` declaration of a boxed type with explicit copy and
/// free functions.
pub fn define_boxed_type(
    out: &mut String,
    env: &Env,
    struct_name: &str,
    glib_name: &str,
    copy_fn: &TraitInfo,
    free_fn: &str,
    init_function_expression: &Option<String>,
    clear_function_expression: &Option<String>,
    get_type_fn: Option<(String, Option<Version>)>,
    derive: &[Derive],
)
    ensures
        final(out)@ == old(out)@ + boxed_type_text(
            env,
            struct_name@,
            glib_name@,
            *copy_fn,
            free_fn@,
            opt_view(*init_function_expression),
            opt_view(*clear_function_expression),
            get_type_fn,
            derive@,
        ),
{
    let ghost g0 = get_type_fn;
    out.append("\n");
    if let Some((ref get_type_fn, get_type_version)) = get_type_fn {
        if get_type_version.is_some() {
            version_condition(out, env, get_type_version, false, 0);
            define_boxed_type_internal(
                out,
                env,
                struct_name,
                glib_name,
                copy_fn,
                free_fn,
                init_function_expression,
                clear_function_expression,
                Some(get_type_fn.as_str()),
                derive,
            );
            out.append("\n");
            not_version_condition_no_dox(out, get_type_version, false, 0);
            define_boxed_type_internal(
                out,
                env,
                struct_name,
                glib_name,
                copy_fn,
                free_fn,
                init_function_expression,
                clear_function_expression,
                None,
                derive,
            );
        } else {
            define_boxed_type_internal(
                out,
                env,
                struct_name,
                glib_name,
                copy_fn,
                free_fn,
                init_function_expression,
                clear_function_expression,
                Some(get_type_fn.as_str()),
                derive,
            );
        }
    } else {
        define_boxed_type_internal(
            out,
            env,
            struct_name,
            glib_name,
            copy_fn,
            free_fn,
            init_function_expression,
            clear_function_expression,
            None,
            derive,
        );
    }
    assert(out@ =~= old(out)@ + boxed_type_text(
        env,
        struct_name@,
        glib_name@,
        *copy_fn,
        free_fn@,
        opt_view(*init_function_expression),
        opt_view(*clear_function_expression),
        g0,
        derive@,
    ));
}

/// The `copy` and `free` functions of a boxed type that glib copies and
/// frees through its type.
pub open spec fn auto_copy_free_text(env: &Env, glib_name: Seq<char>, get_type_fn: Seq<char>) -> Seq<
    char,
> {
    let sys = env.namespaces.main_sys_crate_name@;
    "\t\tcopy => |ptr| "@ + glib_type_text(env, "gobject_ffi::g_boxed_copy"@) + "("@ + sys + "::"@
        + get_type_fn + "(), ptr as *mut _) as *mut "@ + sys + "::"@ + glib_name + ","@ + "\n"@
        + "\t\tfree => |ptr| "@ + glib_type_text(env, "gobject_ffi::g_boxed_free"@) + "("@ + sys
        + "::"@ + get_type_fn + "(), ptr as *mut _),"@ + "\n"@
}

/// What `define_auto_boxed_type` writes: an empty line, then the
/// `wrapper!` declaration of a boxed type that is copied and freed through
/// its type function.
#[verifier::opaque]
pub open spec fn auto_boxed_type_text(
    env: &Env,
    struct_name: Seq<char>,
    glib_name: Seq<char>,
    init: Option<Seq<char>>,
    clear: Option<Seq<char>>,
    get_type_fn: Seq<char>,
    derive: Seq<Derive>,
) -> Seq<char> {
    "\n"@ + wrapper_open_text(env) + derives_text(derive, 1) + wrapped_struct_line(
        env,
        struct_name,
        "Boxed"@,
        glib_name,
    ) + "\n"@ + "\tmatch fn {"@ + "\n"@ + auto_copy_free_text(env, glib_name, get_type_fn)
        + init_clear_text(init, clear) + get_type_text(env, Some(get_type_fn))
        + wrapper_close_text()
}

fn write_auto_copy_free(out: &mut String, env: &Env, glib_name: &str, get_type_fn: &str)
    ensures
        final(out)@ == old(out)@ + auto_copy_free_text(env, glib_name@, get_type_fn@),
{
    let sys_crate_name = env.main_sys_crate_name();
    out.append("\t\tcopy => |ptr| ");
    write_glib_type(out, env, "gobject_ffi::g_boxed_copy");
    out.append("(");
    out.append(sys_crate_name);
    out.append("::");
    out.append(get_type_fn);
    out.append("(), ptr as *mut _) as *mut ");
    out.append(sys_crate_name);
    out.append("::");
    out.append(glib_name);
    out.append(",");
    out.append("\n");
    out.append("\t\tfree => |ptr| ");
    write_glib_type(out, env, "gobject_ffi::g_boxed_free");
    out.append("(");
    out.append(sys_crate_name);
    out.append("::");
    out.append(get_type_fn);
    out.append("(), ptr as *mut _),");
    out.append("\n");
    assert(out@ =~= old(out)@ + auto_copy_free_text(env, glib_name@, get_type_fn@));
}

/// Writes the `wrapper!` declaration of a boxed type that glib copies and
/// frees through its type function.
pub fn define_auto_boxed_type(
    out: &mut String,
    env: &Env,
    struct_name: &str,
    glib_name: &str,
    init_function_expression: &Option<String>,
    clear_function_expression: &Option<String>,
    get_type_fn: &str,
    derive: &[Derive],
)
    ensures
        final(out)@ == old(out)@ + auto_boxed_type_text(
            env,
            struct_name@,
            glib_name@,
            opt_view(*init_function_expression),
            opt_view(*clear_function_expression),
            get_type_fn@,
            derive@,
        ),
{
    reveal(auto_boxed_type_text);
    out.append("\n");
    write_wrapper_open(out, env);
    derives(out, derive, 1);
    write_wrapped_struct_line(out, env, struct_name, "Boxed", glib_name);
    out.append("\n");
    out.append("\tmatch fn {");
    out.append("\n");
    write_auto_copy_free(out, env, glib_name, get_type_fn);
    write_init_clear(out, init_function_expression, clear_function_expression);
    write_get_type(out, env, Some(get_type_fn));
    write_wrapper_close(out);
    assert(out@ =~= old(out)@ + auto_boxed_type_text(
        env,
        struct_name@,
        glib_name@,
        opt_view(*init_function_expression),
        opt_view(*clear_function_expression),
        get_type_fn@,
        derive@,
    ));
}

/// The `ref` and `unref` functions of a shared type.
pub open spec fn ref_unref_text(env: &Env, ref_fn: Seq<char>, unref_fn: Seq<char>) -> Seq<char> {
    let sys = env.namespaces.main_sys_crate_name@;
    "\t\tref => |ptr| "@ + sys + "::"@ + ref_fn + "(ptr),"@ + "\n"@ + "\t\tunref => |ptr| "@ + sys
        + "::"@ + unref_fn + "(ptr),"@ + "\n"@
}

/// One `wrapper!` declaration of a shared type, with `get_type_fn` as its
/// type function where one is given.
#[verifier::opaque]
pub open spec fn shared_type_body_text(
    env: &Env,
    struct_name: Seq<char>,
    glib_name: Seq<char>,
    ref_fn: Seq<char>,
    unref_fn: Seq<char>,
    get_type_fn: Option<Seq<char>>,
    derive: Seq<Derive>,
) -> Seq<char> {
    wrapper_open_text(env) + derives_text(derive, 1) + wrapped_struct_line(
        env,
        struct_name,
        "Shared"@,
        glib_name,
    ) + "\n"@ + "\tmatch fn {"@ + "\n"@ + ref_unref_text(env, ref_fn, unref_fn) + get_type_text(
        env,
        get_type_fn,
    ) + wrapper_close_text()
}

fn write_ref_unref(out: &mut String, env: &Env, ref_fn: &str, unref_fn: &str)
    ensures
        final(out)@ == old(out)@ + ref_unref_text(env, ref_fn@, unref_fn@),
{
    let sys_crate_name = env.main_sys_crate_name();
    out.append("\t\tref => |ptr| ");
    out.append(sys_crate_name);
    out.append("::");
    out.append(ref_fn);
    out.append("(ptr),");
    out.append("\n");
    out.append("\t\tunref => |ptr| ");
    out.append(sys_crate_name);
    out.append("::");
    out.append(unref_fn);
    out.append("(ptr),");
    out.append("\n");
    assert(out@ =~= old(out)@ + ref_unref_text(env, ref_fn@, unref_fn@));
}

fn define_shared_type_internal(
    out: &mut String,
    env: &Env,
    struct_name: &str,
    glib_name: &str,
    ref_fn: &str,
    unref_fn: &str,
    get_type_fn: Option<&str>,
    derive: &[Derive],
)
    ensures
        final(out)@ == old(out)@ + shared_type_body_text(
            env,
            struct_name@,
            glib_name@,
            ref_fn@,
            unref_fn@,
            opt_str_view(get_type_fn),
            derive@,
        ),
{
    reveal(shared_type_body_text);
    write_wrapper_open(out, env);
    derives(out, derive, 1);
    write_wrapped_struct_line(out, env, struct_name, "Shared", glib_name);
    out.append("\n");
    out.append("\tmatch fn {");
    out.append("\n");
    write_ref_unref(out, env, ref_fn, unref_fn);
    write_get_type(out, env, get_type_fn);
    write_wrapper_close(out);
    assert(out@ =~= old(out)@ + shared_type_body_text(
        env,
        struct_name@,
        glib_name@,
        ref_fn@,
        unref_fn@,
        opt_str_view(get_type_fn),
        derive@,
    ));
}

/// What `define_shared_type` writes: an empty line, then the `wrapper!`
/// declaration. Where the type function appeared in a version, the
/// declaration comes twice: with the type function under the feature of
/// that version, and without it where that feature is off.
pub open spec fn shared_type_text(
    env: &Env,
    struct_name: Seq<char>,
    glib_name: Seq<char>,
    ref_fn: Seq<char>,
    unref_fn: Seq<char>,
    get_type_fn: Option<(String, Option<Version>)>,
    derive: Seq<Derive>,
) -> Seq<char> {
    "\n"@ + match get_type_fn {
        Some((g, Some(v))) => line_text(version_condition_spec(env, Some(v), false, 0))
            + shared_type_body_text(env, struct_name, glib_name, ref_fn, unref_fn, Some(g@), derive)
            + "\n"@ + not_version_condition_no_dox_text(Some(v), false, 0) + shared_type_body_text(
            env,
            struct_name,
            glib_name,
            ref_fn,
            unref_fn,
            None,
            derive,
        ),
        Some((g, None)) => shared_type_body_text(
            env,
            struct_name,
            glib_name,
            ref_fn,
            unref_fn,
            Some(g@),
            derive,
        ),
        None => shared_type_body_text(env, struct_name, glib_name, ref_fn, unref_fn, None, derive),
    }
}

/// Writes the `wrapper!` declaration of a reference-counted shared type.
pub fn define_shared_type(
    out: &mut String,
    env: &Env,
    struct_name: &str,
    glib_name: &str,
    ref_fn: &str,
    unref_fn: &str,
    get_type_fn: Option<(String, Option<Version>)>,
    derive: &[Derive],
)
    ensures
        final(out)@ == old(out)@ + shared_type_text(
            env,
            struct_name@,
            glib_name@,
            ref_fn@,
            unref_fn@,
            get_type_fn,
            derive@,
        ),
{
    let ghost g0 = get_type_fn;
    out.append("\n");
    if let Some((ref get_type_fn, get_type_version)) = get_type_fn {
        if get_type_version.is_some() {
            version_condition(out, env, get_type_version, false, 0);
            define_shared_type_internal(
                out,
                env,
                struct_name,
                glib_name,
                ref_fn,
                unref_fn,
                Some(get_type_fn.as_str()),
                derive,
            );
            out.append("\n");
            not_version_condition_no_dox(out, get_type_version, false, 0);
            define_shared_type_internal(
                out,
                env,
                struct_name,
                glib_name,
                ref_fn,
                unref_fn,
                None,
                derive,
            );
        } else {
            define_shared_type_internal(
                out,
                env,
                struct_name,
                glib_name,
                ref_fn,
                unref_fn,
                Some(get_type_fn.as_str()),
                derive,
            );
        }
    } else {
        define_shared_type_internal(out, env, struct_name, glib_name, ref_fn, unref_fn, None, derive);
    }
    assert(out@ =~= old(out)@ + shared_type_text(
        env,
        struct_name@,
        glib_name@,
        ref_fn@,
        unref_fn@,
        g0,
        derive@,
    ));
}

// ---------------------------------------------------------------------------
// Default from `new`
// ---------------------------------------------------------------------------

/// `f` is a generated, visible function `new` without parameters.
pub open spec fn is_default_constructor(f: FunctionInfo) -> bool {
    &&& f.visibility != Visibility::Hidden
    &&& f.status == GStatus::Generate
    &&& f.name@ == "new"@
    &&& f.parameters.rust_parameters@.len() == 0
}

/// `functions[i]` is the first default constructor of `functions`.
pub open spec fn is_first_default_constructor(functions: Seq<FunctionInfo>, i: int) -> bool {
    &&& 0 <= i < functions.len()
    &&& is_default_constructor(functions[i])
    &&& forall|j: int| 0 <= j < i ==> !is_default_constructor(functions[j])
}

/// The `Default` impl of type `name` that calls the constructor `func`.
pub open spec fn default_impl_text(env: &Env, name: Seq<char>, func: FunctionInfo) -> Seq<char> {
    "\n"@ + line_text(version_condition_spec(env, func.version, false, 0)) + "impl Default for "@
        + name + " {"@ + "\n"@ + "    fn default() -> Self {"@ + "\n"@ + "        Self::new()"@
        + "\n"@ + "    }"@ + "\n"@ + "}"@ + "\n"@
}

fn is_default_new(f: &FunctionInfo) -> (res: bool)
    ensures
        res == is_default_constructor(*f),
{
    !f.visibility.hidden() && f.status.need_generate() && f.name == String::from_str("new")
        && f.parameters.rust_parameters.len() == 0
}

/// Writes a `Default` impl for type `name` that calls `new`, where the
/// type has a generated, visible `new` without parameters (the first such
/// function counts).
pub fn declare_default_from_new(
    out: &mut String,
    env: &Env,
    name: &str,
    functions: &[FunctionInfo],
)
    ensures
        (forall|i: int| 0 <= i < functions@.len() ==> !is_default_constructor(functions@[i]))
            ==> final(out)@ == old(out)@,
        forall|i: int|
            is_first_default_constructor(functions@, i) ==> final(out)@ == old(out)@
                + default_impl_text(env, name@, functions@[i]),
{
    let mut i: usize = 0;
    while i < functions.len()
        invariant
            i <= functions.len(),
            out@ == old(out)@,
            forall|j: int| 0 <= j < i ==> !is_default_constructor(functions@[j]),
        decreases functions.len() - i,
    {
        let func = &functions[i];
        if is_default_new(func) {
            out.append("\n");
            version_condition(out, env, func.version, false, 0);
            out.append("impl Default for ");
            out.append(name);
            out.append(" {");
            out.append("\n");
            out.append("    fn default() -> Self {");
            out.append("\n");
            out.append("        Self::new()");
            out.append("\n");
            out.append("    }");
            out.append("\n");
            out.append("}");
            out.append("\n");
            assert(out@ =~= old(out)@ + default_impl_text(env, name@, functions@[i as int]));
            assert(is_first_default_constructor(functions@, i as int));
            assert forall|k: int| is_first_default_constructor(functions@, k) implies k == i by {
                if k < i {
                } else if k > i {
                    assert(!is_default_constructor(functions@[i as int]));
                }
            }
            return;
        }
        i = i + 1;
    }
}

} // verus!
