//! What can go wrong while finding, reading or querying a manifest.
use vstd::prelude::*;

verus! {

#[verifier::external_type_specification]
#[verifier::external_body]
pub struct ExSemverError(semver::Error);

/// A field or section that the manifest does not give, named by its
/// dotted path.
#[derive(Debug, Clone, Copy, PartialEq, Eq)]
pub struct NotSpecified(pub &'static str);

impl NotSpecified {
    /// The message for a missing field or section.
    pub open spec fn message_spec(&self) -> Seq<char> {
        "`"@ + self.0@ + "` not specified in manifest"@
    }

    /// The message for a missing field or section.
    pub fn message(&self) -> (r: String)
        ensures
            r@ == self.message_spec(),
    {
        let mut r = String::from_str("`");
        r.append(self.0);
        r.append("` not specified in manifest");
        r
    }
}

/// What `Debug` for `str` writes for a text: the text in double quotes,
/// with special characters escaped.
pub uninterp spec fn debug_of(s: Seq<char>) -> Seq<char>;

/// Relies on `Debug` for `str`: the quoted form is determined by the
/// characters alone.
#[verifier::external_body]
fn quoted(s: &str) -> (r: String)
    ensures
        r@ == debug_of(s@),
{
    format!("{:?}", s)
}

/// A property that is marked as inherited from the workspace, read where
/// no workspace value was at hand.
#[derive(Debug, Clone, Copy, PartialEq, Eq)]
pub struct InheritanceError(pub &'static str);

impl InheritanceError {
    /// The message around the property's quoted name `quoted_name`.
    pub open spec fn message_around(quoted_name: Seq<char>) -> Seq<char> {
        "The property "@ + quoted_name + " is inherited from the workspace parent!"@
    }

    /// The message for a property whose name, already quoted, is
    /// `quoted_name`.
    pub fn message_for(quoted_name: &str) -> (r: String)
        ensures
            r@ == Self::message_around(quoted_name@),
    {
        let mut r = String::from_str("The property ");
        r.append(quoted_name);
        r.append(" is inherited from the workspace parent!");
        r
    }

    /// The message naming the inherited property, quoted as `Debug` quotes
    /// a string.
    pub fn message(&self) -> (r: String)
        ensures
            r@ == Self::message_around(debug_of(self.0@)),
    {
        let name = quoted(self.0);
        Self::message_for(name.as_str())
    }
}

/// A version field that is not a valid semantic version.
#[derive(Debug)]
pub struct InvalidSemver(pub semver::Error);

/// Relies on `Display` for `semver::Error`: the reason a version was refused.
#[verifier::external_body]
fn semver_error_text(e: &semver::Error) -> String {
    e.to_string()
}

impl InvalidSemver {
    /// The message for an invalid version: a fixed prefix and the reason
    /// that the version parser gives.
    pub fn message(&self) -> (r: String)
        ensures
            r@.len() >= "Invalid semver: "@.len(),
            r@.subrange(0, "Invalid semver: "@.len() as int) == "Invalid semver: "@,
    {
        let mut r = String::from_str("Invalid semver: ");
        let reason = semver_error_text(&self.0);
        r.append(reason.as_str());
        proof {
            assert(r@.subrange(0, "Invalid semver: "@.len() as int) =~= "Invalid semver: "@);
        }
        r
    }
}

/// Every way a query can fail.
#[derive(Debug)]
pub enum QueryError {
    /// The starting directory does not resolve to an existing directory.
    InvalidEntryPoint(String),
    /// No directory from the start up to the root holds a manifest.
    NoManifestFound,
    /// The manifest could not be read or parsed; the reader's own message.
    ManifestParse(String),
    /// The section (`package`, `workspace` or `workspace.package`) is absent.
    SectionNotSpecified(NotSpecified),
    /// The field is absent and not inherited from anywhere.
    NotSpecified(NotSpecified),
    /// The version field does not parse.
    InvalidSemver(InvalidSemver),
}

impl QueryError {
    /// The message for this error, for all but an invalid version (whose
    /// reason comes from the version parser).
    pub open spec fn message_spec(&self) -> Seq<char> {
        match self {
            QueryError::InvalidEntryPoint(p) => "Missing/invalid entry point ["@ + p@ + "]"@,
            QueryError::NoManifestFound => "No manifest found"@,
            QueryError::ManifestParse(m) => m@,
            QueryError::SectionNotSpecified(n) => n.message_spec(),
            QueryError::NotSpecified(n) => n.message_spec(),
            QueryError::InvalidSemver(_) => "Invalid semver: "@,
        }
    }

    /// The one-line message printed after `Error: `.
    pub fn message(&self) -> (r: String)
        ensures
            !(self is InvalidSemver) ==> r@ == self.message_spec(),
            self is InvalidSemver ==> r@.len() >= self.message_spec().len() && r@.subrange(
                0,
                self.message_spec().len() as int,
            ) == self.message_spec(),
    {
        match self {
            QueryError::InvalidEntryPoint(p) => {
                let mut r = String::from_str("Missing/invalid entry point [");
                r.append(p.as_str());
                r.append("]");
                r
            },
            QueryError::NoManifestFound => String::from_str("No manifest found"),
            QueryError::ManifestParse(m) => m.clone(),
            QueryError::SectionNotSpecified(n) => n.message(),
            QueryError::NotSpecified(n) => n.message(),
            QueryError::InvalidSemver(e) => e.message(),
        }
    }
}

} // verus!
