//! The command line as plain values: which field to query, and how to
//! delimit and terminate what is printed.
use vstd::prelude::*;

use crate::delimiter::Delimiter;
use crate::terminator::Terminator;
use crate::version::Version;

verus! {

/// A parsed command line.
#[derive(Debug, Clone)]
pub struct Cli {
    /// The field to query.
    pub command: Command,
    /// Where to start looking for the manifest; the working directory when
    /// absent.
    pub entry: Option<String>,
    /// Separator for list values; [`Delimiter::CrLf`] when absent.
    pub delimiter: Option<Delimiter>,
    /// Written after the value; [`Terminator::Lf`] when absent.
    pub terminator: Option<Terminator>,
}

/// The field of the manifest to print, one variant per dotted path.
#[derive(Debug, Clone, PartialEq, Eq)]
pub enum Command {
    // package
    PackageName,
    PackageEdition,
    PackageRustVersion,
    PackageVersion { inner: Version },
    PackageBuild,
    PackageWorkspace,
    PackageAuthors,
    PackageLinks,
    PackageDescription,
    PackageHomepage,
    PackageReadme,
    PackageKeywords,
    PackageCategories,
    PackageExclude,
    PackageInclude,
    PackageLicense,
    PackageLicenseFile,
    PackageRepository,
    PackageDefaultRun,
    PackagePublish,
    PackageResolver,
    PackageMetadata,
    // workspace
    WorkspaceMembers,
    WorkspaceDefaultMembers,
    WorkspacePackageAuthors,
    WorkspacePackageCategories,
    WorkspacePackageDescription,
    WorkspacePackageDocumentation,
    WorkspacePackageEdition,
    WorkspacePackageExclude,
    WorkspacePackageHomepage,
    WorkspacePackageInclude,
    WorkspacePackageKeywords,
    WorkspacePackageLicense,
    WorkspacePackageLicenseFile,
    WorkspacePackagePublish,
    WorkspacePackageReadme,
    WorkspacePackageRepository,
    WorkspacePackageRustVersion,
    WorkspacePackageVersion { inner: Version },
}

impl Command {
    /// The dotted path that selects this field.
    pub open spec fn path_spec(&self) -> &'static str {
        match self {
            Command::PackageName => "package.name",
            Command::PackageEdition => "package.edition",
            Command::PackageRustVersion => "package.rust_version",
            Command::PackageVersion { .. } => "package.version",
            Command::PackageBuild => "package.build",
            Command::PackageWorkspace => "package.workspace",
            Command::PackageAuthors => "package.authors",
            Command::PackageLinks => "package.links",
            Command::PackageDescription => "package.description",
            Command::PackageHomepage => "package.homepage",
            Command::PackageReadme => "package.readme",
            Command::PackageKeywords => "package.keywords",
            Command::PackageCategories => "package.categories",
            Command::PackageExclude => "package.exclude",
            Command::PackageInclude => "package.include",
            Command::PackageLicense => "package.license",
            Command::PackageLicenseFile => "package.license_file",
            Command::PackageRepository => "package.repository",
            Command::PackageDefaultRun => "package.default_run",
            Command::PackagePublish => "package.publish",
            Command::PackageResolver => "package.resolver",
            Command::PackageMetadata => "package.metadata",
            Command::WorkspaceMembers => "workspace.members",
            Command::WorkspaceDefaultMembers => "workspace.default_members",
            Command::WorkspacePackageAuthors => "workspace.package.authors",
            Command::WorkspacePackageCategories => "workspace.package.categories",
            Command::WorkspacePackageDescription => "workspace.package.description",
            Command::WorkspacePackageDocumentation => "workspace.package.documentation",
            Command::WorkspacePackageEdition => "workspace.package.edition",
            Command::WorkspacePackageExclude => "workspace.package.exclude",
            Command::WorkspacePackageHomepage => "workspace.package.homepage",
            Command::WorkspacePackageInclude => "workspace.package.include",
            Command::WorkspacePackageKeywords => "workspace.package.keywords",
            Command::WorkspacePackageLicense => "workspace.package.license",
            Command::WorkspacePackageLicenseFile => "workspace.package.license_file",
            Command::WorkspacePackagePublish => "workspace.package.publish",
            Command::WorkspacePackageReadme => "workspace.package.readme",
            Command::WorkspacePackageRepository => "workspace.package.repository",
            Command::WorkspacePackageRustVersion => "workspace.package.rust_version",
            Command::WorkspacePackageVersion { .. } => "workspace.package.version",
        }
    }

    /// Whether this field lies in the `package` section.
    pub open spec fn in_package(&self) -> bool {
        match self {
            Command::PackageName => true,
            Command::PackageEdition => true,
            Command::PackageRustVersion => true,
            Command::PackageVersion { .. } => true,
            Command::PackageBuild => true,
            Command::PackageWorkspace => true,
            Command::PackageAuthors => true,
            Command::PackageLinks => true,
            Command::PackageDescription => true,
            Command::PackageHomepage => true,
            Command::PackageReadme => true,
            Command::PackageKeywords => true,
            Command::PackageCategories => true,
            Command::PackageExclude => true,
            Command::PackageInclude => true,
            Command::PackageLicense => true,
            Command::PackageLicenseFile => true,
            Command::PackageRepository => true,
            Command::PackageDefaultRun => true,
            Command::PackagePublish => true,
            Command::PackageResolver => true,
            Command::PackageMetadata => true,
            _ => false,
        }
    }

    /// Whether this field lies in the `package` section.
    pub fn is_package_field(&self) -> (r: bool)
        ensures
            r == self.in_package(),
    {
        match self {
            Command::PackageName => true,
            Command::PackageEdition => true,
            Command::PackageRustVersion => true,
            Command::PackageVersion { .. } => true,
            Command::PackageBuild => true,
            Command::PackageWorkspace => true,
            Command::PackageAuthors => true,
            Command::PackageLinks => true,
            Command::PackageDescription => true,
            Command::PackageHomepage => true,
            Command::PackageReadme => true,
            Command::PackageKeywords => true,
            Command::PackageCategories => true,
            Command::PackageExclude => true,
            Command::PackageInclude => true,
            Command::PackageLicense => true,
            Command::PackageLicenseFile => true,
            Command::PackageRepository => true,
            Command::PackageDefaultRun => true,
            Command::PackagePublish => true,
            Command::PackageResolver => true,
            Command::PackageMetadata => true,
            _ => false,
        }
    }

    /// The dotted path that selects this field.
    pub fn path(&self) -> (r: &'static str)
        ensures
            r == self.path_spec(),
    {
        match self {
            Command::PackageName => "package.name",
            Command::PackageEdition => "package.edition",
            Command::PackageRustVersion => "package.rust_version",
            Command::PackageVersion { .. } => "package.version",
            Command::PackageBuild => "package.build",
            Command::PackageWorkspace => "package.workspace",
            Command::PackageAuthors => "package.authors",
            Command::PackageLinks => "package.links",
            Command::PackageDescription => "package.description",
            Command::PackageHomepage => "package.homepage",
            Command::PackageReadme => "package.readme",
            Command::PackageKeywords => "package.keywords",
            Command::PackageCategories => "package.categories",
            Command::PackageExclude => "package.exclude",
            Command::PackageInclude => "package.include",
            Command::PackageLicense => "package.license",
            Command::PackageLicenseFile => "package.license_file",
            Command::PackageRepository => "package.repository",
            Command::PackageDefaultRun => "package.default_run",
            Command::PackagePublish => "package.publish",
            Command::PackageResolver => "package.resolver",
            Command::PackageMetadata => "package.metadata",
            Command::WorkspaceMembers => "workspace.members",
            Command::WorkspaceDefaultMembers => "workspace.default_members",
            Command::WorkspacePackageAuthors => "workspace.package.authors",
            Command::WorkspacePackageCategories => "workspace.package.categories",
            Command::WorkspacePackageDescription => "workspace.package.description",
            Command::WorkspacePackageDocumentation => "workspace.package.documentation",
            Command::WorkspacePackageEdition => "workspace.package.edition",
            Command::WorkspacePackageExclude => "workspace.package.exclude",
            Command::WorkspacePackageHomepage => "workspace.package.homepage",
            Command::WorkspacePackageInclude => "workspace.package.include",
            Command::WorkspacePackageKeywords => "workspace.package.keywords",
            Command::WorkspacePackageLicense => "workspace.package.license",
            Command::WorkspacePackageLicenseFile => "workspace.package.license_file",
            Command::WorkspacePackagePublish => "workspace.package.publish",
            Command::WorkspacePackageReadme => "workspace.package.readme",
            Command::WorkspacePackageRepository => "workspace.package.repository",
            Command::WorkspacePackageRustVersion => "workspace.package.rust_version",
            Command::WorkspacePackageVersion { .. } => "workspace.package.version",
        }
    }
}

} // verus!
