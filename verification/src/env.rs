//! The environment the code writers run in: the library, the settings and
//! the namespaces of the generated crates.
use vstd::prelude::*;
use vstd::string::*;
use crate::config::Config;
use crate::library::Library;
use crate::version::Version;

verus! {

/// Index of the namespace that bindings are generated for.
pub const MAIN: u16 = 0;

/// A namespace and the crate that binds it.
pub struct Namespace {
    pub name: String,
    pub crate_name: String,
}

/// The namespaces of the generated crates.
pub struct Namespaces {
    pub namespaces: Vec<Namespace>,
    /// The crate being generated is glib itself.
    pub is_glib_crate: bool,
    /// Name of the crate with the raw bindings of the main namespace.
    pub main_sys_crate_name: String,
}

/// Everything the code writers read.
pub struct Env {
    pub library: Library,
    pub config: Config,
    pub namespaces: Namespaces,
}

impl Env {
    /// `version` is set and is not later than the oldest version supported
    /// unconditionally.
    pub open spec fn too_low(&self, version: Option<Version>) -> bool {
        match version {
            Some(v) => !v.is_later_than(self.config.min_cfg_version),
            None => false,
        }
    }

    /// Whether `version` is set and is not later than the oldest version
    /// supported unconditionally.
    pub fn is_too_low_version(&self, version: Option<Version>) -> (res: bool)
        ensures
            res == self.too_low(version),
    {
        match version {
            Some(v) => !v.later_than(&self.config.min_cfg_version),
            None => false,
        }
    }

    /// Name of the crate with the raw bindings of the main namespace.
    pub fn main_sys_crate_name(&self) -> (res: &str)
        ensures
            res@ == self.namespaces.main_sys_crate_name@,
    {
        self.namespaces.main_sys_crate_name.as_str()
    }

    /// The crate name of namespace `ns`.
    pub open spec fn crate_name_of(&self, ns: u16) -> Seq<char> {
        self.namespaces.namespaces@[ns as int].crate_name@
    }

    /// The path under which glib items are reached: `crate` inside glib,
    /// `glib` elsewhere.
    pub open spec fn glib_path(&self) -> Seq<char> {
        if self.namespaces.is_glib_crate {
            "crate"@
        } else {
            "glib"@
        }
    }
}

/// The path of the glib item `import`.
pub open spec fn glib_type_text(env: &Env, import: Seq<char>) -> Seq<char> {
    env.glib_path() + "::"@ + import
}

/// Appends the path of the glib item `import`.
pub fn write_glib_type(out: &mut String, env: &Env, import: &str)
    ensures
        final(out)@ == old(out)@ + glib_type_text(env, import@),
{
    if env.namespaces.is_glib_crate {
        out.append("crate");
    } else {
        out.append("glib");
    }
    out.append("::");
    out.append(import);
    assert(out@ =~= old(out)@ + glib_type_text(env, import@));
}

/// The path of the glib item `import`.
pub fn use_glib_type(env: &Env, import: &str) -> (res: String)
    ensures
        res@ == glib_type_text(env, import@),
{
    let mut res = String::new();
    write_glib_type(&mut res, env, import);
    assert(res@ =~= glib_type_text(env, import@));
    res
}

} // verus!
