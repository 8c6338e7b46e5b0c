//! The parsed manifest as plain values: an optional package section and an
//! optional workspace section with its shared package defaults.
use vstd::prelude::*;

verus! {

/// A package field that either holds its own value or says to take the one
/// from the workspace's shared package defaults.
#[derive(Debug, Clone, PartialEq, Eq)]
pub enum Inheritable<T> {
    Local(T),
    Inherited,
}

/// The language edition a package is written in.
#[derive(Debug, Clone, Copy, PartialEq, Eq)]
pub enum Edition {
    E2015,
    E2018,
    E2021,
}

/// Where a package may be published: everywhere or nowhere, or only to the
/// listed registries.
#[derive(Debug, Clone, PartialEq, Eq)]
pub enum Publish {
    Flag(bool),
    Registry(Vec<String>),
}

/// A file setting that is either an explicit path or a flag that turns the
/// default on or off.
#[derive(Debug, Clone, PartialEq, Eq)]
pub enum OptionalFile {
    Flag(bool),
    Path(String),
}

/// The dependency resolver version.
#[derive(Debug, Clone, Copy, PartialEq, Eq)]
pub enum Resolver {
    V1,
    V2,
}

/// The `package` section.
#[derive(Debug, Clone)]
pub struct Package {
    pub name: String,
    pub edition: Inheritable<Edition>,
    pub rust_version: Option<Inheritable<String>>,
    pub version: Inheritable<String>,
    pub build: Option<OptionalFile>,
    pub workspace: Option<String>,
    pub authors: Inheritable<Vec<String>>,
    pub links: Option<String>,
    pub description: Option<Inheritable<String>>,
    pub homepage: Option<Inheritable<String>>,
    pub readme: Inheritable<OptionalFile>,
    pub keywords: Inheritable<Vec<String>>,
    pub categories: Inheritable<Vec<String>>,
    pub exclude: Inheritable<Vec<String>>,
    pub include_paths: Inheritable<Vec<String>>,
    pub license: Option<Inheritable<String>>,
    pub license_file: Option<Inheritable<String>>,
    pub repository: Option<Inheritable<String>>,
    pub default_run: Option<String>,
    pub publish: Inheritable<Publish>,
    pub resolver: Option<Resolver>,
    /// The `package.metadata` table, as TOML text.
    pub metadata: Option<String>,
}

/// The `workspace.package` section: values that member packages may
/// inherit, each one optional.
#[derive(Debug, Clone)]
pub struct WorkspacePackage {
    pub authors: Option<Vec<String>>,
    pub categories: Option<Vec<String>>,
    pub description: Option<String>,
    pub documentation: Option<String>,
    pub edition: Option<Edition>,
    pub exclude: Option<Vec<String>>,
    pub homepage: Option<String>,
    pub include_paths: Option<Vec<String>>,
    pub keywords: Option<Vec<String>>,
    pub license: Option<String>,
    pub license_file: Option<String>,
    pub publish: Publish,
    pub readme: OptionalFile,
    pub repository: Option<String>,
    pub rust_version: Option<String>,
    pub version: Option<String>,
}

/// The `workspace` section.
#[derive(Debug, Clone)]
pub struct Workspace {
    pub members: Vec<String>,
    pub default_members: Vec<String>,
    pub package: Option<WorkspacePackage>,
}

/// A whole manifest.
#[derive(Debug, Clone)]
pub struct Manifest {
    pub package: Option<Package>,
    pub workspace: Option<Workspace>,
    /// For a member package whose workspace root is another manifest, that
    /// root's shared package values.
    pub root_defaults: Option<WorkspacePackage>,
}

impl Manifest {
    /// The shared package values that inherited fields take: those of
    /// this manifest's own workspace section where it has one, else those
    /// of the workspace root it belongs to.
    pub open spec fn defaults(&self) -> Option<WorkspacePackage> {
        match self.workspace {
            Some(ws) => ws.package,
            None => self.root_defaults,
        }
    }
}

} // verus!
