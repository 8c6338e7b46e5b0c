//! Semantic versions and the selection of the parts of one to print.
use vstd::prelude::*;

use crate::delimiter::Delimiter;
use crate::error::InvalidSemver;
use crate::text::{decimal, decimal_spec, join, join_spec, views};

verus! {

/// The numbers and identifiers of a semantic version, as plain values.
pub type SemVerView = (u64, u64, u64, Seq<char>, Seq<char>);

/// A semantic version: `MAJOR.MINOR.PATCH`, with pre-release and build
/// identifiers kept as the dot-separated text they were written as (empty
/// when absent).
#[derive(Debug, Clone, PartialEq, Eq)]
pub struct SemVer {
    pub major: u64,
    pub minor: u64,
    pub patch: u64,
    pub pre: String,
    pub build: String,
}

impl View for SemVer {
    type V = SemVerView;

    open spec fn view(&self) -> SemVerView {
        (self.major, self.minor, self.patch, self.pre@, self.build@)
    }
}

/// `sep` followed by `ids`, or nothing when `ids` is empty.
pub open spec fn tagged(sep: char, ids: Seq<char>) -> Seq<char> {
    if ids.len() == 0 {
        Seq::empty()
    } else {
        seq![sep] + ids
    }
}

/// The canonical text `MAJOR.MINOR.PATCH[-PRE][+BUILD]` of a version.
pub open spec fn version_text(v: SemVerView) -> Seq<char> {
    decimal_spec(v.0 as nat) + seq!['.'] + decimal_spec(v.1 as nat) + seq!['.'] + decimal_spec(
        v.2 as nat,
    ) + tagged('-', v.3) + tagged('+', v.4)
}

/// How `semver::Version::parse` reads a text: `None` where it refuses it,
/// else the three numbers and the pre-release and build text.
pub uninterp spec fn semver_of(text: Seq<char>) -> Option<SemVerView>;

/// Relies on `semver::Version::parse`, `Prerelease::as_str` and
/// `BuildMetadata::as_str`: whether a text parses, and into which numbers and
/// identifiers, is determined by the text alone.
#[verifier::external_body]
fn parse_semver(text: &str) -> (r: Result<SemVer, semver::Error>)
    ensures
        match r {
            Ok(v) => semver_of(text@) == Some(v@),
            Err(_) => semver_of(text@) is None,
        },
{
    match semver::Version::parse(text) {
        Ok(v) => Ok(SemVer {
            major: v.major,
            minor: v.minor,
            patch: v.patch,
            pre: v.pre.as_str().to_string(),
            build: v.build.as_str().to_string(),
        }),
        Err(e) => Err(e),
    }
}

fn tag(sep: &str, ids: &String) -> (r: String)
    requires
        sep@.len() == 1,
    ensures
        r@ == tagged(sep@[0], ids@),
{
    if ids.as_str().unicode_len() == 0 {
        String::new()
    } else {
        let mut r = String::from_str(sep);
        r.append(ids.as_str());
        proof {
            assert(sep@ =~= seq![sep@[0]]);
        }
        r
    }
}

impl SemVer {
    /// Reads a semantic version from its text.
    pub fn parse(text: &str) -> (r: Result<SemVer, InvalidSemver>)
        ensures
            r is Ok <==> semver_of(text@) is Some,
            r is Ok ==> semver_of(text@) == Some(r->Ok_0@),
    {
        match parse_semver(text) {
            Ok(v) => Ok(v),
            Err(e) => Err(InvalidSemver(e)),
        }
    }

    /// The canonical text of this version.
    pub fn to_string(&self) -> (r: String)
        ensures
            r@ == version_text(self@),
    {
        proof {
            reveal_strlit(".");
            reveal_strlit("-");
            reveal_strlit("+");
            assert("."@ =~= seq!['.']);
        }
        let mut r = decimal(self.major);
        r.append(".");
        r.append(decimal(self.minor).as_str());
        r.append(".");
        r.append(decimal(self.patch).as_str());
        r.append(tag("-", &self.pre).as_str());
        r.append(tag("+", &self.build).as_str());
        r
    }
}

/// Which parts of a version to print.
///
/// `full` and `pretty` exclude each other and every component flag;
/// [`Version::has_conflict`] tells whether a set of flags breaks that rule.
#[derive(Debug, Clone, Copy, PartialEq, Eq, Default)]
pub struct Version {
    pub full: bool,
    pub pretty: bool,
    pub major: bool,
    pub minor: bool,
    pub patch: bool,
    pub build: bool,
    pub pre: bool,
}

/// `seq![x]` when `on`, else nothing.
pub open spec fn part_if(on: bool, x: Seq<char>) -> Seq<Seq<char>> {
    if on {
        seq![x]
    } else {
        Seq::empty()
    }
}

impl Version {
    /// Whether any of the component flags is set.
    pub open spec fn any_component(&self) -> bool {
        self.major || self.minor || self.patch || self.build || self.pre
    }

    /// Whether the flags ask for two things that exclude each other.
    pub open spec fn conflicting(&self) -> bool {
        (self.full && self.pretty) || ((self.full || self.pretty) && self.any_component())
    }

    /// The requested components of `v`, always in the order major, minor,
    /// patch, build, pre-release.
    pub open spec fn components(&self, v: SemVerView) -> Seq<Seq<char>> {
        part_if(self.major, decimal_spec(v.0 as nat)) + part_if(self.minor, decimal_spec(v.1 as nat))
            + part_if(self.patch, decimal_spec(v.2 as nat)) + part_if(self.build, v.4) + part_if(
            self.pre,
            v.3,
        )
    }

    /// What is printed for `v` under these flags, with list delimiter `d`.
    pub open spec fn select(&self, v: SemVerView, d: Seq<char>) -> Seq<char> {
        if self.full {
            version_text(v)
        } else if self.pretty {
            seq!['v'] + version_text(v)
        } else if self.components(v).len() == 0 {
            version_text(v)
        } else {
            join_spec(self.components(v), d)
        }
    }

    /// Whether the flags ask for two things that exclude each other.
    pub fn has_conflict(&self) -> (r: bool)
        ensures
            r == self.conflicting(),
    {
        let any = self.major || self.minor || self.patch || self.build || self.pre;
        (self.full && self.pretty) || ((self.full || self.pretty) && any)
    }

    /// The text of the requested parts of `v`, joined with `delimiter`.
    pub fn match_version(&self, v: &SemVer, delimiter: &Delimiter) -> (r: String)
        ensures
            r@ == self.select(v@, delimiter.text()),
    {
        if self.full {
            return v.to_string();
        }
        if self.pretty {
            proof {
                reveal_strlit("v");
            }
            let mut r = String::from_str("v");
            r.append(v.to_string().as_str());
            return r;
        }
        let mut out: Vec<String> = Vec::new();
        let ghost want = self.components(v@);
        if self.major {
            out.push(decimal(v.major));
        }
        assert(views(out@) =~= part_if(self.major, decimal_spec(v.major as nat)));
        if self.minor {
            out.push(decimal(v.minor));
        }
        assert(views(out@) =~= part_if(self.major, decimal_spec(v.major as nat)) + part_if(
            self.minor,
            decimal_spec(v.minor as nat),
        ));
        if self.patch {
            out.push(decimal(v.patch));
        }
        assert(views(out@) =~= part_if(self.major, decimal_spec(v.major as nat)) + part_if(
            self.minor,
            decimal_spec(v.minor as nat),
        ) + part_if(self.patch, decimal_spec(v.patch as nat)));
        if self.build {
            out.push(v.build.clone());
        }
        assert(views(out@) =~= part_if(self.major, decimal_spec(v.major as nat)) + part_if(
            self.minor,
            decimal_spec(v.minor as nat),
        ) + part_if(self.patch, decimal_spec(v.patch as nat)) + part_if(self.build, v.build@));
        if self.pre {
            out.push(v.pre.clone());
        }
        assert(views(out@) =~= want);
        if out.len() == 0 {
            return v.to_string();
        }
        let sep = delimiter.to_string();
        join(&out, sep.as_str())
    }
}

} // verus!
