//! Field resolution: from a manifest and a requested field to the text that
//! is printed, with inheritance from the workspace's shared package values.
use vstd::prelude::*;

use crate::cli::{Cli, Command};
use crate::delimiter::Delimiter;
use crate::error::{NotSpecified, QueryError};
use crate::manifest::{
    Edition, Inheritable, Manifest, OptionalFile, Package, Publish, Resolver, Workspace,
    WorkspacePackage,
};
use crate::terminator::Terminator;
use crate::text::{join, join_spec, views};
use crate::version::{semver_of, SemVer, Version};

verus! {

/// What a query yields: the text of the field, or why there is none.
pub type Outcome = Result<Seq<char>, QueryError>;

/// The result `r` of a query is the outcome `o`: the same text, or the same
/// error (an invalid version is matched by kind, as the parser's reason is
/// not modelled).
pub open spec fn agrees(r: Result<String, QueryError>, o: Outcome) -> bool {
    match o {
        Ok(s) => r is Ok && r->Ok_0@ == s,
        Err(QueryError::InvalidSemver(_)) => r is Err && r->Err_0 is InvalidSemver,
        Err(e) => r is Err && r->Err_0 == e,
    }
}

/// The value behind an optional reference.
pub open spec fn opt_val<T>(o: Option<&T>) -> Option<T> {
    match o {
        Some(x) => Some(*x),
        None => None,
    }
}

/// The field `path` is not given.
pub open spec fn missing(path: &'static str) -> Outcome {
    Err(QueryError::NotSpecified(NotSpecified(path)))
}

/// The section `name` is not given.
pub open spec fn no_section(name: &'static str) -> Outcome {
    Err(QueryError::SectionNotSpecified(NotSpecified(name)))
}

/// A plain optional text field.
pub open spec fn opt_text_spec(v: Option<String>, path: &'static str) -> Outcome {
    match v {
        Some(s) => Ok(s@),
        None => missing(path),
    }
}

/// An optional text field that may be inherited from `shared`.
pub open spec fn text_field_spec(
    local: Option<Inheritable<String>>,
    shared: Option<String>,
    path: &'static str,
) -> Outcome {
    match local {
        None => missing(path),
        Some(Inheritable::Local(s)) => Ok(s@),
        Some(Inheritable::Inherited) => opt_text_spec(shared, path),
    }
}

/// A plain optional list field, joined with `d`.
pub open spec fn opt_list_spec(v: Option<Vec<String>>, d: Seq<char>, path: &'static str) -> Outcome {
    match v {
        Some(l) => Ok(join_spec(views(l@), d)),
        None => missing(path),
    }
}

/// A list field that may be inherited from `shared`, joined with `d`; an
/// empty list is a value, not an absence.
pub open spec fn list_field_spec(
    local: Inheritable<Vec<String>>,
    shared: Option<Vec<String>>,
    d: Seq<char>,
    path: &'static str,
) -> Outcome {
    match local {
        Inheritable::Local(l) => Ok(join_spec(views(l@), d)),
        Inheritable::Inherited => opt_list_spec(shared, d, path),
    }
}

/// The year an edition is named by.
pub open spec fn edition_spec(e: Edition) -> Seq<char> {
    match e {
        Edition::E2015 => "2015"@,
        Edition::E2018 => "2018"@,
        Edition::E2021 => "2021"@,
    }
}

/// An edition field that may be inherited from `shared`.
pub open spec fn edition_field_spec(
    local: Inheritable<Edition>,
    shared: Option<Edition>,
    path: &'static str,
) -> Outcome {
    match local {
        Inheritable::Local(e) => Ok(edition_spec(e)),
        Inheritable::Inherited => match shared {
            Some(e) => Ok(edition_spec(e)),
            None => missing(path),
        },
    }
}

/// A file setting: its path, or absent where it is only a flag.
pub open spec fn file_spec(f: OptionalFile, path: &'static str) -> Outcome {
    match f {
        OptionalFile::Path(p) => Ok(p@),
        OptionalFile::Flag(_) => missing(path),
    }
}

/// An optional file setting.
pub open spec fn build_spec(v: Option<OptionalFile>, path: &'static str) -> Outcome {
    match v {
        Some(f) => file_spec(f, path),
        None => missing(path),
    }
}

/// A file setting that may be inherited from `shared`.
pub open spec fn readme_field_spec(
    local: Inheritable<OptionalFile>,
    shared: Option<OptionalFile>,
    path: &'static str,
) -> Outcome {
    match local {
        Inheritable::Local(f) => file_spec(f, path),
        Inheritable::Inherited => match shared {
            Some(f) => file_spec(f, path),
            None => missing(path),
        },
    }
}

/// A publish setting: `true` or `false`, or the registries joined with `d`.
pub open spec fn publish_spec(p: Publish, d: Seq<char>) -> Seq<char> {
    match p {
        Publish::Flag(b) => if b {
            "true"@
        } else {
            "false"@
        },
        Publish::Registry(l) => join_spec(views(l@), d),
    }
}

/// A publish setting that may be inherited from `shared`.
pub open spec fn publish_field_spec(
    local: Inheritable<Publish>,
    shared: Option<Publish>,
    d: Seq<char>,
    path: &'static str,
) -> Outcome {
    match local {
        Inheritable::Local(p) => Ok(publish_spec(p, d)),
        Inheritable::Inherited => match shared {
            Some(p) => Ok(publish_spec(p, d)),
            None => missing(path),
        },
    }
}

/// An optional resolver setting, by its version number.
pub open spec fn resolver_spec(v: Option<Resolver>, path: &'static str) -> Outcome {
    match v {
        Some(Resolver::V1) => Ok("1"@),
        Some(Resolver::V2) => Ok("2"@),
        None => missing(path),
    }
}

/// A version field that may be inherited from `shared`, parsed and then
/// printed as `flags` ask.
pub open spec fn version_field_spec(
    local: Inheritable<String>,
    shared: Option<String>,
    flags: Version,
    d: Seq<char>,
    path: &'static str,
) -> Outcome {
    let text = match local {
        Inheritable::Local(s) => Some(s),
        Inheritable::Inherited => shared,
    };
    match text {
        None => missing(path),
        Some(t) => match semver_of(t@) {
            None => Err(QueryError::InvalidSemver(arbitrary())),
            Some(v) => Ok(flags.select(v, d)),
        },
    }
}

/// The value that the workspace's shared package values `sh` give for a
/// field, read by `f`; nothing without shared values.
pub open spec fn from_shared<T>(
    sh: Option<WorkspacePackage>,
    f: spec_fn(WorkspacePackage) -> Option<T>,
) -> Option<T> {
    match sh {
        Some(w) => f(w),
        None => None,
    }
}

/// A field of the `package` section `p`, with `sh` the workspace's shared
/// package values.
pub open spec fn package_field(
    p: Package,
    sh: Option<WorkspacePackage>,
    cmd: Command,
    d: Seq<char>,
) -> Outcome {
    let path = cmd.path_spec();
    match cmd {
        Command::PackageName => Ok(p.name@),
        Command::PackageEdition => edition_field_spec(
            p.edition,
            from_shared(sh, |w: WorkspacePackage| w.edition),
            path,
        ),
        Command::PackageRustVersion => text_field_spec(
            p.rust_version,
            from_shared(sh, |w: WorkspacePackage| w.rust_version),
            path,
        ),
        Command::PackageVersion { inner } => version_field_spec(
            p.version,
            from_shared(sh, |w: WorkspacePackage| w.version),
            inner,
            d,
            path,
        ),
        Command::PackageBuild => build_spec(p.build, path),
        Command::PackageWorkspace => opt_text_spec(p.workspace, path),
        Command::PackageAuthors => list_field_spec(
            p.authors,
            from_shared(sh, |w: WorkspacePackage| w.authors),
            d,
            path,
        ),
        Command::PackageLinks => opt_text_spec(p.links, path),
        Command::PackageDescription => text_field_spec(
            p.description,
            from_shared(sh, |w: WorkspacePackage| w.description),
            path,
        ),
        Command::PackageHomepage => text_field_spec(
            p.homepage,
            from_shared(sh, |w: WorkspacePackage| w.homepage),
            path,
        ),
        Command::PackageReadme => readme_field_spec(
            p.readme,
            from_shared(sh, |w: WorkspacePackage| Some(w.readme)),
            path,
        ),
        Command::PackageKeywords => list_field_spec(
            p.keywords,
            from_shared(sh, |w: WorkspacePackage| w.keywords),
            d,
            path,
        ),
        Command::PackageCategories => list_field_spec(
            p.categories,
            from_shared(sh, |w: WorkspacePackage| w.categories),
            d,
            path,
        ),
        Command::PackageExclude => list_field_spec(
            p.exclude,
            from_shared(sh, |w: WorkspacePackage| w.exclude),
            d,
            path,
        ),
        Command::PackageInclude => list_field_spec(
            p.include_paths,
            from_shared(sh, |w: WorkspacePackage| w.include_paths),
            d,
            path,
        ),
        Command::PackageLicense => text_field_spec(
            p.license,
            from_shared(sh, |w: WorkspacePackage| w.license),
            path,
        ),
        Command::PackageLicenseFile => text_field_spec(
            p.license_file,
            from_shared(sh, |w: WorkspacePackage| w.license_file),
            path,
        ),
        Command::PackageRepository => text_field_spec(
            p.repository,
            from_shared(sh, |w: WorkspacePackage| w.repository),
            path,
        ),
        Command::PackageDefaultRun => opt_text_spec(p.default_run, path),
        Command::PackagePublish => publish_field_spec(
            p.publish,
            from_shared(sh, |w: WorkspacePackage| Some(w.publish)),
            d,
            path,
        ),
        Command::PackageResolver => resolver_spec(p.resolver, path),
        Command::PackageMetadata => opt_text_spec(p.metadata, path),
        _ => no_section("package"),
    }
}

/// A field of the `workspace` section `ws`.
pub open spec fn workspace_field(ws: Workspace, cmd: Command, d: Seq<char>) -> Outcome {
    let path = cmd.path_spec();
    match cmd {
        Command::WorkspaceMembers => Ok(join_spec(views(ws.members@), d)),
        Command::WorkspaceDefaultMembers => Ok(join_spec(views(ws.default_members@), d)),
        _ => match ws.package {
            None => no_section("workspace.package"),
            Some(w) => match cmd {
                Command::WorkspacePackageAuthors => opt_list_spec(w.authors, d, path),
                Command::WorkspacePackageCategories => opt_list_spec(w.categories, d, path),
                Command::WorkspacePackageDescription => opt_text_spec(w.description, path),
                Command::WorkspacePackageDocumentation => opt_text_spec(w.documentation, path),
                Command::WorkspacePackageEdition => edition_field_spec(
                    Inheritable::Inherited,
                    w.edition,
                    path,
                ),
                Command::WorkspacePackageExclude => opt_list_spec(w.exclude, d, path),
                Command::WorkspacePackageHomepage => opt_text_spec(w.homepage, path),
                Command::WorkspacePackageInclude => opt_list_spec(w.include_paths, d, path),
                Command::WorkspacePackageKeywords => opt_list_spec(w.keywords, d, path),
                Command::WorkspacePackageLicense => opt_text_spec(w.license, path),
                Command::WorkspacePackageLicenseFile => opt_text_spec(w.license_file, path),
                Command::WorkspacePackagePublish => Ok(publish_spec(w.publish, d)),
                Command::WorkspacePackageReadme => file_spec(w.readme, path),
                Command::WorkspacePackageRepository => opt_text_spec(w.repository, path),
                Command::WorkspacePackageRustVersion => opt_text_spec(w.rust_version, path),
                Command::WorkspacePackageVersion { inner } => version_field_spec(
                    Inheritable::Inherited,
                    w.version,
                    inner,
                    d,
                    path,
                ),
                _ => no_section("workspace"),
            },
        },
    }
}

/// The text of field `cmd` of manifest `m`, lists joined with `d`.
pub open spec fn resolve_spec(m: Manifest, cmd: Command, d: Seq<char>) -> Outcome {
    if cmd.in_package() {
        match m.package {
            None => no_section("package"),
            Some(p) => package_field(p, m.defaults(), cmd, d),
        }
    } else {
        match m.workspace {
            None => no_section("workspace"),
            Some(ws) => workspace_field(ws, cmd, d),
        }
    }
}

/// The delimiter's characters, [`Delimiter::CrLf`] when none is given.
pub open spec fn delimiter_text(o: Option<Delimiter>) -> Seq<char> {
    match o {
        Some(d) => d.text(),
        None => seq!['\r', '\n'],
    }
}

/// The terminator's characters, [`Terminator::Lf`] when none is given.
pub open spec fn terminator_text(o: Option<Terminator>) -> Seq<char> {
    match o {
        Some(t) => t.text(),
        None => seq!['\n'],
    }
}

/// What is printed for command line `cli` on manifest `m`: the field's text
/// followed once by the terminator.
pub open spec fn output_spec(cli: Cli, m: Manifest) -> Outcome {
    match resolve_spec(m, cli.command, delimiter_text(cli.delimiter)) {
        Ok(s) => Ok(s + terminator_text(cli.terminator)),
        Err(e) => Err(e),
    }
}

fn not_specified(path: &'static str) -> (r: Result<String, QueryError>)
    ensures
        agrees(r, missing(path)),
{
    Err(QueryError::NotSpecified(NotSpecified(path)))
}

fn opt_text(v: Option<&String>, path: &'static str) -> (r: Result<String, QueryError>)
    ensures
        agrees(r, opt_text_spec(opt_val(v), path)),
{
    match v {
        Some(s) => Ok(s.clone()),
        None => not_specified(path),
    }
}

fn text_field(local: &Option<Inheritable<String>>, shared: Option<&String>, path: &'static str) -> (r:
    Result<String, QueryError>)
    ensures
        agrees(r, text_field_spec(*local, opt_val(shared), path)),
{
    match local {
        None => not_specified(path),
        Some(Inheritable::Local(s)) => Ok(s.clone()),
        Some(Inheritable::Inherited) => opt_text(shared, path),
    }
}

fn list_text(l: &Vec<String>, d: &Delimiter) -> (r: String)
    ensures
        r@ == join_spec(views(l@), d.text()),
{
    let sep = d.to_string();
    join(l, sep.as_str())
}

fn opt_list(v: Option<&Vec<String>>, d: &Delimiter, path: &'static str) -> (r: Result<String, QueryError>)
    ensures
        agrees(r, opt_list_spec(opt_val(v), d.text(), path)),
{
    match v {
        Some(l) => Ok(list_text(l, d)),
        None => not_specified(path),
    }
}

fn list_field(
    local: &Inheritable<Vec<String>>,
    shared: Option<&Vec<String>>,
    d: &Delimiter,
    path: &'static str,
) -> (r: Result<String, QueryError>)
    ensures
        agrees(r, list_field_spec(*local, opt_val(shared), d.text(), path)),
{
    match local {
        Inheritable::Local(l) => Ok(list_text(l, d)),
        Inheritable::Inherited => opt_list(shared, d, path),
    }
}

fn edition_text(e: &Edition) -> (r: String)
    ensures
        r@ == edition_spec(*e),
{
    match e {
        Edition::E2015 => String::from_str("2015"),
        Edition::E2018 => String::from_str("2018"),
        Edition::E2021 => String::from_str("2021"),
    }
}

fn edition_field(local: &Inheritable<Edition>, shared: Option<&Edition>, path: &'static str) -> (r:
    Result<String, QueryError>)
    ensures
        agrees(r, edition_field_spec(*local, opt_val(shared), path)),
{
    match local {
        Inheritable::Local(e) => Ok(edition_text(e)),
        Inheritable::Inherited => match shared {
            Some(e) => Ok(edition_text(e)),
            None => not_specified(path),
        },
    }
}

fn file_field(f: &OptionalFile, path: &'static str) -> (r: Result<String, QueryError>)
    ensures
        agrees(r, file_spec(*f, path)),
{
    match f {
        OptionalFile::Path(p) => Ok(p.clone()),
        OptionalFile::Flag(_) => not_specified(path),
    }
}

fn build_field(v: Option<&OptionalFile>, path: &'static str) -> (r: Result<String, QueryError>)
    ensures
        agrees(r, build_spec(opt_val(v), path)),
{
    match v {
        Some(f) => file_field(f, path),
        None => not_specified(path),
    }
}

fn readme_field(local: &Inheritable<OptionalFile>, shared: Option<&OptionalFile>, path: &'static str) -> (r:
    Result<String, QueryError>)
    ensures
        agrees(r, readme_field_spec(*local, opt_val(shared), path)),
{
    match local {
        Inheritable::Local(f) => file_field(f, path),
        Inheritable::Inherited => match shared {
            Some(f) => file_field(f, path),
            None => not_specified(path),
        },
    }
}

fn publish_text(p: &Publish, d: &Delimiter) -> (r: String)
    ensures
        r@ == publish_spec(*p, d.text()),
{
    match p {
        Publish::Flag(b) => if *b {
            String::from_str("true")
        } else {
            String::from_str("false")
        },
        Publish::Registry(l) => list_text(l, d),
    }
}

fn publish_field(
    local: &Inheritable<Publish>,
    shared: Option<&Publish>,
    d: &Delimiter,
    path: &'static str,
) -> (r: Result<String, QueryError>)
    ensures
        agrees(r, publish_field_spec(*local, opt_val(shared), d.text(), path)),
{
    match local {
        Inheritable::Local(p) => Ok(publish_text(p, d)),
        Inheritable::Inherited => match shared {
            Some(p) => Ok(publish_text(p, d)),
            None => not_specified(path),
        },
    }
}

fn resolver_field(v: Option<&Resolver>, path: &'static str) -> (r: Result<String, QueryError>)
    ensures
        agrees(r, resolver_spec(opt_val(v), path)),
{
    match v {
        Some(Resolver::V1) => Ok(String::from_str("1")),
        Some(Resolver::V2) => Ok(String::from_str("2")),
        None => not_specified(path),
    }
}

fn version_field(
    local: &Inheritable<String>,
    shared: Option<&String>,
    flags: &Version,
    d: &Delimiter,
    path: &'static str,
) -> (r: Result<String, QueryError>)
    ensures
        agrees(r, version_field_spec(*local, opt_val(shared), *flags, d.text(), path)),
{
    let text = match local {
        Inheritable::Local(s) => s,
        Inheritable::Inherited => match shared {
            Some(s) => s,
            None => {
                return not_specified(path);
            },
        },
    };
    match SemVer::parse(text.as_str()) {
        Ok(v) => Ok(flags.match_version(&v, d)),
        Err(e) => Err(QueryError::InvalidSemver(e)),
    }
}

fn package_value(
    p: &Package,
    shared: Option<&WorkspacePackage>,
    cmd: &Command,
    d: &Delimiter,
) -> (r: Result<String, QueryError>)
    requires
        cmd.in_package(),
    ensures
        agrees(r, package_field(*p, opt_val(shared), *cmd, d.text())),
{
    let path = cmd.path();
    match cmd {
        Command::PackageName => Ok(p.name.clone()),
        Command::PackageEdition => {
            let fallback = match shared {
                Some(w) => w.edition.as_ref(),
                None => None,
            };
            edition_field(&p.edition, fallback, path)
        },
        Command::PackageRustVersion => {
            let fallback = match shared {
                Some(w) => w.rust_version.as_ref(),
                None => None,
            };
            text_field(&p.rust_version, fallback, path)
        },
        Command::PackageVersion { inner } => {
            let fallback = match shared {
                Some(w) => w.version.as_ref(),
                None => None,
            };
            version_field(&p.version, fallback, inner, d, path)
        },
        Command::PackageBuild => build_field(p.build.as_ref(), path),
        Command::PackageWorkspace => opt_text(p.workspace.as_ref(), path),
        Command::PackageAuthors => {
            let fallback = match shared {
                Some(w) => w.authors.as_ref(),
                None => None,
            };
            list_field(&p.authors, fallback, d, path)
        },
        Command::PackageLinks => opt_text(p.links.as_ref(), path),
        Command::PackageDescription => {
            let fallback = match shared {
                Some(w) => w.description.as_ref(),
                None => None,
            };
            text_field(&p.description, fallback, path)
        },
        Command::PackageHomepage => {
            let fallback = match shared {
                Some(w) => w.homepage.as_ref(),
                None => None,
            };
            text_field(&p.homepage, fallback, path)
        },
        Command::PackageReadme => {
            let fallback = match shared {
                Some(w) => Some(&w.readme),
                None => None,
            };
            readme_field(&p.readme, fallback, path)
        },
        Command::PackageKeywords => {
            let fallback = match shared {
                Some(w) => w.keywords.as_ref(),
                None => None,
            };
            list_field(&p.keywords, fallback, d, path)
        },
        Command::PackageCategories => {
            let fallback = match shared {
                Some(w) => w.categories.as_ref(),
                None => None,
            };
            list_field(&p.categories, fallback, d, path)
        },
        Command::PackageExclude => {
            let fallback = match shared {
                Some(w) => w.exclude.as_ref(),
                None => None,
            };
            list_field(&p.exclude, fallback, d, path)
        },
        Command::PackageInclude => {
            let fallback = match shared {
                Some(w) => w.include_paths.as_ref(),
                None => None,
            };
            list_field(&p.include_paths, fallback, d, path)
        },
        Command::PackageLicense => {
            let fallback = match shared {
                Some(w) => w.license.as_ref(),
                None => None,
            };
            text_field(&p.license, fallback, path)
        },
        Command::PackageLicenseFile => {
            let fallback = match shared {
                Some(w) => w.license_file.as_ref(),
                None => None,
            };
            text_field(&p.license_file, fallback, path)
        },
        Command::PackageRepository => {
            let fallback = match shared {
                Some(w) => w.repository.as_ref(),
                None => None,
            };
            text_field(&p.repository, fallback, path)
        },
        Command::PackageDefaultRun => opt_text(p.default_run.as_ref(), path),
        Command::PackagePublish => {
            let fallback = match shared {
                Some(w) => Some(&w.publish),
                None => None,
            };
            publish_field(&p.publish, fallback, d, path)
        },
        Command::PackageResolver => resolver_field(p.resolver.as_ref(), path),
        Command::PackageMetadata => opt_text(p.metadata.as_ref(), path),
        _ => Err(QueryError::SectionNotSpecified(NotSpecified("package"))),
    }
}

fn workspace_value(ws: &Workspace, cmd: &Command, d: &Delimiter) -> (r: Result<String, QueryError>)
    ensures
        agrees(r, workspace_field(*ws, *cmd, d.text())),
{
    let path = cmd.path();
    match cmd {
        Command::WorkspaceMembers => Ok(list_text(&ws.members, d)),
        Command::WorkspaceDefaultMembers => Ok(list_text(&ws.default_members, d)),
        _ => match &ws.package {
            None => Err(QueryError::SectionNotSpecified(NotSpecified("workspace.package"))),
            Some(w) => match cmd {
                Command::WorkspacePackageAuthors => opt_list(w.authors.as_ref(), d, path),
                Command::WorkspacePackageCategories => opt_list(w.categories.as_ref(), d, path),
                Command::WorkspacePackageDescription => opt_text(w.description.as_ref(), path),
                Command::WorkspacePackageDocumentation => opt_text(w.documentation.as_ref(), path),
                Command::WorkspacePackageEdition => edition_field(
                    &Inheritable::Inherited,
                    w.edition.as_ref(),
                    path,
                ),
                Command::WorkspacePackageExclude => opt_list(w.exclude.as_ref(), d, path),
                Command::WorkspacePackageHomepage => opt_text(w.homepage.as_ref(), path),
                Command::WorkspacePackageInclude => opt_list(w.include_paths.as_ref(), d, path),
                Command::WorkspacePackageKeywords => opt_list(w.keywords.as_ref(), d, path),
                Command::WorkspacePackageLicense => opt_text(w.license.as_ref(), path),
                Command::WorkspacePackageLicenseFile => opt_text(w.license_file.as_ref(), path),
                Command::WorkspacePackagePublish => Ok(publish_text(&w.publish, d)),
                Command::WorkspacePackageReadme => file_field(&w.readme, path),
                Command::WorkspacePackageRepository => opt_text(w.repository.as_ref(), path),
                Command::WorkspacePackageRustVersion => opt_text(w.rust_version.as_ref(), path),
                Command::WorkspacePackageVersion { inner } => version_field(
                    &Inheritable::Inherited,
                    w.version.as_ref(),
                    inner,
                    d,
                    path,
                ),
                _ => Err(QueryError::SectionNotSpecified(NotSpecified("workspace"))),
            },
        },
    }
}

/// The text of field `cmd` of `manifest`, list values joined with
/// `delimiter`; package fields marked as inherited take the workspace's
/// shared value.
pub fn resolve(manifest: &Manifest, cmd: &Command, delimiter: &Delimiter) -> (r: Result<
    String,
    QueryError,
>)
    ensures
        agrees(r, resolve_spec(*manifest, *cmd, delimiter.text())),
{
    if cmd.is_package_field() {
        match &manifest.package {
            None => Err(QueryError::SectionNotSpecified(NotSpecified("package"))),
            Some(p) => {
                let shared = match &manifest.workspace {
                    Some(ws) => ws.package.as_ref(),
                    None => manifest.root_defaults.as_ref(),
                };
                package_value(p, shared, cmd, delimiter)
            },
        }
    } else {
        match &manifest.workspace {
            None => Err(QueryError::SectionNotSpecified(NotSpecified("workspace"))),
            Some(ws) => workspace_value(ws, cmd, delimiter),
        }
    }
}

/// What is printed for `cli` on `manifest`: the requested field, followed
/// once by the terminator.
pub fn output(cli: &Cli, manifest: &Manifest) -> (r: Result<String, QueryError>)
    ensures
        agrees(r, output_spec(*cli, *manifest)),
{
    let resolved = match &cli.delimiter {
        Some(d) => resolve(manifest, &cli.command, d),
        None => resolve(manifest, &cli.command, &Delimiter::CrLf),
    };
    match resolved {
        Ok(mut out) => {
            let term = match &cli.terminator {
                Some(t) => t.to_string(),
                None => Terminator::Lf.to_string(),
            };
            out.append(term.as_str());
            Ok(out)
        },
        Err(e) => Err(e),
    }
}

} // verus!
