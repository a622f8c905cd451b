//! Library versions (`major.minor.patch`), their order, and the cargo
//! feature that gates items added in a version.
use vstd::prelude::*;
use vstd::string::*;
use crate::text::{decimal, decimal_injective, decimal_nonempty_without_underscore, write_decimal};

verus! {

/// A version `major.minor.patch` of a library.
#[derive(Clone, Copy, Debug, PartialEq, Eq, Structural)]
pub struct Version(pub u16, pub u16, pub u16);

impl Version {
    /// `self` comes after `other`, comparing major, then minor, then patch.
    pub open spec fn is_later_than(self, other: Version) -> bool {
        ||| self.0 > other.0
        ||| (self.0 == other.0 && self.1 > other.1)
        ||| (self.0 == other.0 && self.1 == other.1 && self.2 > other.2)
    }

    /// The feature name: `v<major>_<minor>`, followed by `_<patch>` when the
    /// patch number is not zero.
    pub open spec fn feature_text(self) -> Seq<char> {
        "v"@ + decimal(self.0 as nat) + "_"@ + decimal(self.1 as nat) + if self.2 == 0 {
            Seq::empty()
        } else {
            "_"@ + decimal(self.2 as nat)
        }
    }

    /// The cfg predicate that holds where the feature of this version is on:
    /// `feature = "<feature>"`.
    pub open spec fn cfg_text(self) -> Seq<char> {
        "feature = \""@ + self.feature_text() + "\""@
    }

    /// Whether `self` comes after `other`.
    pub fn later_than(&self, other: &Version) -> (res: bool)
        ensures
            res == self.is_later_than(*other),
    {
        self.0 > other.0 || (self.0 == other.0 && self.1 > other.1) || (self.0 == other.0
            && self.1 == other.1 && self.2 > other.2)
    }

    /// Appends the feature name of this version.
    pub fn write_feature(&self, out: &mut String)
        ensures
            final(out)@ == old(out)@ + self.feature_text(),
    {
        out.append("v");
        write_decimal(out, self.0);
        out.append("_");
        write_decimal(out, self.1);
        if self.2 != 0 {
            out.append("_");
            write_decimal(out, self.2);
        }
        assert(out@ =~= old(out)@ + self.feature_text());
    }

    /// The feature name of this version, such as `v2_44`.
    pub fn to_feature(self) -> (res: String)
        ensures
            res@ == self.feature_text(),
    {
        let mut res = String::new();
        self.write_feature(&mut res);
        assert(res@ =~= self.feature_text());
        res
    }

    /// Appends the cfg predicate of this version.
    pub fn write_cfg(&self, out: &mut String)
        ensures
            final(out)@ == old(out)@ + self.cfg_text(),
    {
        out.append("feature = \"");
        self.write_feature(out);
        out.append("\"");
        assert(out@ =~= old(out)@ + self.cfg_text());
    }

    /// The cfg predicate of this version, such as `feature = "v2_44"`.
    pub fn to_cfg(self) -> (res: String)
        ensures
            res@ == self.cfg_text(),
    {
        let mut res = String::new();
        self.write_cfg(&mut res);
        assert(res@ =~= self.cfg_text());
        res
    }
}

/// No version comes after itself.
pub proof fn version_order_irreflexive(a: Version)
    ensures
        !a.is_later_than(a),
{
}

/// The order of versions is transitive.
pub proof fn version_order_transitive(a: Version, b: Version, c: Version)
    requires
        a.is_later_than(b),
        b.is_later_than(c),
    ensures
        a.is_later_than(c),
{
}

/// Of two different versions, one comes after the other.
pub proof fn version_order_total(a: Version, b: Version)
    ensures
        a == b || a.is_later_than(b) || b.is_later_than(a),
{
}

/// Different versions have different feature names, so the gates of two
/// versions never coincide.
pub proof fn version_feature_injective(a: Version, b: Version)
    requires
        a.feature_text() == b.feature_text(),
    ensures
        a == b,
{
    reveal_strlit("v");
    reveal_strlit("_");
    let u = "_"@;
    let t = a.feature_text();
    let da0 = decimal(a.0 as nat);
    let db0 = decimal(b.0 as nat);
    let da1 = decimal(a.1 as nat);
    let db1 = decimal(b.1 as nat);
    decimal_nonempty_without_underscore(a.0 as nat);
    decimal_nonempty_without_underscore(b.0 as nat);
    decimal_nonempty_without_underscore(a.1 as nat);
    decimal_nonempty_without_underscore(b.1 as nat);
    decimal_nonempty_without_underscore(a.2 as nat);
    decimal_nonempty_without_underscore(b.2 as nat);
    let pa = if a.2 == 0 {
        Seq::<char>::empty()
    } else {
        u + decimal(a.2 as nat)
    };
    let pb = if b.2 == 0 {
        Seq::<char>::empty()
    } else {
        u + decimal(b.2 as nat)
    };
    let ta = "v"@ + da0 + u + da1 + pa;
    let tb = "v"@ + db0 + u + db1 + pb;
    assert(ta == a.feature_text());
    assert(tb == b.feature_text());
    // the first underscore ends the major number
    if da0.len() < db0.len() {
        assert(ta[1 + da0.len() as int] == '_');
        assert(tb[1 + da0.len() as int] == db0[da0.len() as int]);
    }
    if db0.len() < da0.len() {
        assert(tb[1 + db0.len() as int] == '_');
        assert(ta[1 + db0.len() as int] == da0[db0.len() as int]);
    }
    assert(da0.len() == db0.len());
    assert(da0 =~= ta.subrange(1, 1 + da0.len() as int));
    assert(db0 =~= tb.subrange(1, 1 + db0.len() as int));
    decimal_injective(a.0 as nat, b.0 as nat);
    // the next underscore, or the end, ends the minor number
    let s: int = 2 + da0.len() as int;
    if da1.len() < db1.len() {
        assert(tb[s + da1.len()] == db1[da1.len() as int]);
        if pa.len() == 0 {
            assert(ta.len() == s + da1.len());
        } else {
            assert(ta[s + da1.len()] == '_');
        }
    }
    if db1.len() < da1.len() {
        assert(ta[s + db1.len()] == da1[db1.len() as int]);
        if pb.len() == 0 {
            assert(tb.len() == s + db1.len());
        } else {
            assert(tb[s + db1.len()] == '_');
        }
    }
    assert(da1.len() == db1.len());
    assert(da1 =~= ta.subrange(s, s + da1.len() as int));
    assert(db1 =~= tb.subrange(s, s + db1.len() as int));
    decimal_injective(a.1 as nat, b.1 as nat);
    // what is left is the patch part
    let r: int = s + da1.len();
    assert(pa =~= ta.subrange(r, ta.len() as int));
    assert(pb =~= tb.subrange(r, tb.len() as int));
    assert(pa == pb);
    if a.2 != 0 && b.2 != 0 {
        assert(decimal(a.2 as nat) =~= pa.subrange(1, pa.len() as int));
        assert(decimal(b.2 as nat) =~= pb.subrange(1, pb.len() as int));
        decimal_injective(a.2 as nat, b.2 as nat);
    }
}

} // verus!
