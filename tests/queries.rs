use cargo_get::cli::{Cli, Command};
use cargo_get::delimiter::Delimiter;
use cargo_get::error::{NotSpecified, QueryError};
use cargo_get::manifest::{
    Edition, Inheritable, Manifest, OptionalFile, Package, Publish, Resolver, Workspace,
    WorkspacePackage,
};
use cargo_get::resolve::{output, resolve};
use cargo_get::terminator::Terminator;
use cargo_get::version::Version;

fn strings(items: &[&str]) -> Vec<String> {
    items.iter().map(|s| s.to_string()).collect()
}

fn bare_package(version: &str) -> Package {
    Package {
        name: "test-name".to_owned(),
        edition: Inheritable::Local(Edition::E2015),
        rust_version: None,
        version: Inheritable::Local(version.to_owned()),
        build: None,
        workspace: None,
        authors: Inheritable::Local(Vec::new()),
        links: None,
        description: None,
        homepage: None,
        readme: Inheritable::Local(OptionalFile::Flag(true)),
        keywords: Inheritable::Local(Vec::new()),
        categories: Inheritable::Local(Vec::new()),
        exclude: Inheritable::Local(Vec::new()),
        include_paths: Inheritable::Local(Vec::new()),
        license: None,
        license_file: None,
        repository: None,
        default_run: None,
        publish: Inheritable::Local(Publish::Flag(true)),
        resolver: None,
        metadata: None,
    }
}

fn only_package(p: Package) -> Manifest {
    Manifest { package: Some(p), workspace: None, root_defaults: None }
}

fn toml_01() -> Manifest {
    let mut p = bare_package("1.2.3");
    p.edition = Inheritable::Local(Edition::E2018);
    p.authors = Inheritable::Local(strings(&["John Doe<john-doe@abc.com>"]));
    p.keywords = Inheritable::Local(strings(&["binary", "cargo", "cli", "dev-tools", "query"]));
    p.license = Some(Inheritable::Local("Apache-2.0/MIT".to_owned()));
    p.description = Some(Inheritable::Local("A very useful description".to_owned()));
    p.readme = Inheritable::Local(OptionalFile::Path("README.md".to_owned()));
    p.repository = Some(Inheritable::Local(
        "https://github.com/nicolaiunrein/cargo-get".to_owned(),
    ));
    only_package(p)
}

fn toml_02() -> Manifest {
    let mut p = bare_package("1.2.3+build-2");
    p.homepage = Some(Inheritable::Local("crates.io".to_owned()));
    p.authors = Inheritable::Local(strings(&[
        "John Doe<john-doe@abc.com>",
        "Jane Doe<jane-doe@def.com>",
    ]));
    p.links = Some("foo".to_owned());
    p.categories = Inheritable::Local(strings(&["cli"]));
    p.description = Some(Inheritable::Local("desc".to_owned()));
    only_package(p)
}

fn toml_03() -> Manifest {
    let mut p = bare_package("1.2.3-alpha-3");
    p.edition = Inheritable::Local(Edition::E2021);
    p.categories = Inheritable::Local(strings(&["cli", "config"]));
    only_package(p)
}

fn shared_defaults() -> WorkspacePackage {
    WorkspacePackage {
        authors: None,
        categories: None,
        description: None,
        documentation: None,
        edition: None,
        exclude: None,
        homepage: None,
        include_paths: None,
        keywords: None,
        license: None,
        license_file: None,
        publish: Publish::Flag(true),
        readme: OptionalFile::Flag(true),
        repository: None,
        rust_version: None,
        version: Some("1.2.3".to_owned()),
    }
}

fn workspace_root() -> Manifest {
    Manifest {
        package: None,
        workspace: Some(Workspace {
            members: strings(&["pkg1", "pkg2"]),
            default_members: strings(&["pkg2"]),
            package: Some(shared_defaults()),
        }),
        root_defaults: None,
    }
}

fn member_of_workspace() -> Manifest {
    let mut p = bare_package("0.0.0");
    p.version = Inheritable::Inherited;
    Manifest {
        package: Some(p),
        workspace: Some(Workspace {
            members: Vec::new(),
            default_members: Vec::new(),
            package: Some(shared_defaults()),
        }),
        root_defaults: None,
    }
}

fn cli_for(command: Command) -> Cli {
    Cli { command, entry: None, delimiter: None, terminator: None }
}

fn query(m: &Manifest, command: Command) -> Result<String, QueryError> {
    output(&cli_for(command), m)
}

fn flags() -> Version {
    Version::default()
}

fn not_specified(path: &'static str) -> QueryError {
    QueryError::NotSpecified(NotSpecified(path))
}

fn assert_not_specified(r: Result<String, QueryError>, path: &'static str) {
    match r {
        Err(QueryError::NotSpecified(NotSpecified(p))) => assert_eq!(p, path),
        other => panic!("expected `{}` to be missing, got {:?}", path, other),
    }
}

#[test]
fn run_name() {
    assert_eq!(query(&toml_01(), Command::PackageName).unwrap(), "test-name\n");
}

#[test]
fn run_homepage_empty() {
    assert_not_specified(query(&toml_01(), Command::PackageHomepage), "package.homepage");
}

#[test]
fn run_homepage_present() {
    assert_eq!(query(&toml_02(), Command::PackageHomepage).unwrap(), "crates.io\n");
}

#[test]
fn run_author() {
    assert_eq!(
        query(&toml_01(), Command::PackageAuthors).unwrap(),
        "John Doe<john-doe@abc.com>\n"
    );
}

#[test]
fn run_multiple_author() {
    assert_eq!(
        query(&toml_02(), Command::PackageAuthors).unwrap(),
        "John Doe<john-doe@abc.com>\r\nJane Doe<jane-doe@def.com>\n"
    );
}

#[test]
fn run_keywords() {
    assert_eq!(
        query(&toml_01(), Command::PackageKeywords).unwrap(),
        "binary\r\ncargo\r\ncli\r\ndev-tools\r\nquery\n"
    );
}

#[test]
fn run_license() {
    assert_eq!(query(&toml_01(), Command::PackageLicense).unwrap(), "Apache-2.0/MIT\n");
}

#[test]
fn run_links_empty() {
    assert_not_specified(query(&toml_01(), Command::PackageLinks), "package.links");
}

#[test]
fn run_links() {
    assert_eq!(query(&toml_02(), Command::PackageLinks).unwrap(), "foo\n");
}

#[test]
fn run_description() {
    assert_eq!(
        query(&toml_01(), Command::PackageDescription).unwrap(),
        "A very useful description\n"
    );
}

#[test]
fn run_description_missing() {
    let err = query(&toml_03(), Command::PackageDescription).unwrap_err();
    assert_eq!(
        format!("Error: {}\n", err.message()),
        "Error: `package.description` not specified in manifest\n"
    );
}

#[test]
fn run_categories_empty() {
    assert_eq!(query(&toml_01(), Command::PackageCategories).unwrap(), "\n");
}

#[test]
fn run_categories_one() {
    assert_eq!(query(&toml_02(), Command::PackageCategories).unwrap(), "cli\n");
}

#[test]
fn run_categories_multiple() {
    assert_eq!(query(&toml_03(), Command::PackageCategories).unwrap(), "cli\r\nconfig\n");
}

#[test]
fn run_edition_2021() {
    assert_eq!(query(&toml_03(), Command::PackageEdition).unwrap(), "2021\n");
}

#[test]
fn run_edition_2018() {
    assert_eq!(query(&toml_01(), Command::PackageEdition).unwrap(), "2018\n");
}

#[test]
fn run_edition_2015() {
    assert_eq!(query(&toml_02(), Command::PackageEdition).unwrap(), "2015\n");
}

fn authors_with(delimiter: &str) -> String {
    let cli = Cli {
        command: Command::PackageAuthors,
        entry: None,
        delimiter: Some(Delimiter::parse(delimiter)),
        terminator: None,
    };
    output(&cli, &toml_02()).unwrap()
}

#[test]
fn run_with_custom_delimiter() {
    assert_eq!(authors_with(";"), "John Doe<john-doe@abc.com>;Jane Doe<jane-doe@def.com>\n");
}

#[test]
fn run_with_dashes_as_delimiters() {
    assert_eq!(
        authors_with(" -- "),
        "John Doe<john-doe@abc.com> -- Jane Doe<jane-doe@def.com>\n"
    );
}

#[test]
fn run_delimiters_no_equals() {
    assert_eq!(
        authors_with(" -- "),
        "John Doe<john-doe@abc.com> -- Jane Doe<jane-doe@def.com>\n"
    );
}

#[test]
fn run_delimiter_tab() {
    assert_eq!(authors_with("tab"), "John Doe<john-doe@abc.com>\tJane Doe<jane-doe@def.com>\n");
}

fn name_with(terminator: &str) -> String {
    let cli = Cli {
        command: Command::PackageName,
        entry: None,
        delimiter: None,
        terminator: Some(Terminator::parse(terminator)),
    };
    output(&cli, &toml_02()).unwrap()
}

#[test]
fn pkg_name_with_custom_terminator() {
    assert_eq!(name_with(".exe"), "test-name.exe");
}

#[test]
fn pkg_name_with_cr_as_terminator() {
    assert_eq!(name_with("cr"), "test-name\r");
}

#[test]
fn pkg_name_with_lf_as_terminator() {
    assert_eq!(name_with("lf"), "test-name\n");
}

#[test]
fn pkg_name_with_crlf_as_terminator() {
    assert_eq!(name_with("crlf"), "test-name\r\n");
}

#[test]
fn pkg_name_with_semicolon_as_terminator() {
    assert_eq!(name_with(";"), "test-name;");
}

#[test]
fn pkg_name_with_nul_as_terminator() {
    assert_eq!(name_with("nul"), "test-name\0");
}

fn version_of(m: &Manifest, inner: Version) -> String {
    query(m, Command::PackageVersion { inner }).unwrap()
}

#[test]
fn run_version_full() {
    assert_eq!(version_of(&toml_01(), Version { full: true, ..flags() }), "1.2.3\n");
}

#[test]
fn run_version_pretty() {
    assert_eq!(version_of(&toml_01(), Version { pretty: true, ..flags() }), "v1.2.3\n");
}

#[test]
fn run_version_major() {
    assert_eq!(version_of(&toml_01(), Version { major: true, ..flags() }), "1\n");
}

#[test]
fn run_version_minor() {
    assert_eq!(version_of(&toml_01(), Version { minor: true, ..flags() }), "2\n");
}

#[test]
fn run_version_patch() {
    assert_eq!(version_of(&toml_01(), Version { patch: true, ..flags() }), "3\n");
}

#[test]
fn run_version_build() {
    assert_eq!(version_of(&toml_02(), Version { build: true, ..flags() }), "build-2\n");
}

#[test]
fn run_version_pre() {
    assert_eq!(version_of(&toml_03(), Version { pre: true, ..flags() }), "alpha-3\n");
}

#[test]
fn run_version_pretty_minor_conflict() {
    assert!(Version { pretty: true, minor: true, ..flags() }.has_conflict());
}

#[test]
fn run_version_pretty_full_conflict() {
    assert!(Version { pretty: true, full: true, ..flags() }.has_conflict());
}

#[test]
fn run_version_full_minor_conflict() {
    assert!(Version { full: true, minor: true, ..flags() }.has_conflict());
}

#[test]
fn version_flags_without_conflict() {
    assert!(!flags().has_conflict());
    assert!(!Version { full: true, ..flags() }.has_conflict());
    assert!(!Version { major: true, minor: true, pre: true, ..flags() }.has_conflict());
}

#[test]
fn inherited_version() {
    assert_eq!(query(&member_of_workspace(), Command::PackageVersion { inner: flags() }).unwrap(), "1.2.3\n");
}

#[test]
fn workspace_version() {
    assert_eq!(
        query(
            &workspace_root(),
            Command::WorkspacePackageVersion { inner: Version { pretty: true, ..flags() } }
        )
        .unwrap(),
        "v1.2.3\n"
    );
}

#[test]
fn workspace_members() {
    assert_eq!(query(&workspace_root(), Command::WorkspaceMembers).unwrap(), "pkg1\r\npkg2\n");
}

#[test]
fn workspace_default_members() {
    assert_eq!(query(&workspace_root(), Command::WorkspaceDefaultMembers).unwrap(), "pkg2\n");
}

#[test]
fn version_components_of_full_prerelease() {
    let mut p = bare_package("1.2.3-alpha.3+build-2");
    p.authors = Inheritable::Local(Vec::new());
    let m = only_package(p);
    assert_eq!(version_of(&m, Version { full: true, ..flags() }), "1.2.3-alpha.3+build-2\n");
    assert_eq!(version_of(&m, Version { pretty: true, ..flags() }), "v1.2.3-alpha.3+build-2\n");
    assert_eq!(version_of(&m, Version { major: true, ..flags() }), "1\n");
    assert_eq!(version_of(&m, Version { pre: true, ..flags() }), "alpha.3\n");
    assert_eq!(version_of(&m, flags()), "1.2.3-alpha.3+build-2\n");
    assert_eq!(
        version_of(&m, Version { pre: true, major: true, build: true, patch: true, minor: true, ..flags() }),
        "1\r\n2\r\n3\r\nbuild-2\r\nalpha.3\n"
    );
    assert!(Version { pretty: true, major: true, ..flags() }.has_conflict());
}

#[test]
fn empty_lists_print_only_the_terminator() {
    let m = toml_03();
    for command in [
        Command::PackageAuthors,
        Command::PackageKeywords,
        Command::PackageExclude,
        Command::PackageInclude,
    ] {
        assert_eq!(query(&m, command).unwrap(), "\n");
    }
}

#[test]
fn absent_homepage_message() {
    let err = query(&toml_01(), Command::PackageHomepage).unwrap_err();
    assert_eq!(
        format!("Error: {}", err.message()),
        "Error: `package.homepage` not specified in manifest"
    );
}

#[test]
fn absent_optional_fields_are_not_specified() {
    let m = toml_03();
    for (command, path) in [
        (Command::PackageRustVersion, "package.rust_version"),
        (Command::PackageBuild, "package.build"),
        (Command::PackageWorkspace, "package.workspace"),
        (Command::PackageLicense, "package.license"),
        (Command::PackageLicenseFile, "package.license_file"),
        (Command::PackageRepository, "package.repository"),
        (Command::PackageDefaultRun, "package.default_run"),
        (Command::PackageResolver, "package.resolver"),
        (Command::PackageMetadata, "package.metadata"),
        (Command::PackageReadme, "package.readme"),
    ] {
        assert_not_specified(query(&m, command), path);
    }
}

#[test]
fn inherited_authors_use_workspace_values() {
    let mut m = member_of_workspace();
    if let Some(p) = m.package.as_mut() {
        p.authors = Inheritable::Inherited;
    }
    if let Some(ws) = m.workspace.as_mut() {
        ws.package.as_mut().unwrap().authors = Some(strings(&["Ann", "Bob"]));
    }
    assert_eq!(query(&m, Command::PackageAuthors).unwrap(), "Ann\r\nBob\n");
}

#[test]
fn inherited_field_missing_in_workspace_is_not_specified() {
    let mut m = member_of_workspace();
    if let Some(p) = m.package.as_mut() {
        p.license = Some(Inheritable::Inherited);
        p.edition = Inheritable::Inherited;
    }
    assert_not_specified(query(&m, Command::PackageLicense), "package.license");
    assert_not_specified(query(&m, Command::PackageEdition), "package.edition");
    let mut alone = toml_01();
    if let Some(p) = alone.package.as_mut() {
        p.keywords = Inheritable::Inherited;
    }
    assert_not_specified(query(&alone, Command::PackageKeywords), "package.keywords");
}

#[test]
fn inherited_scalars_use_workspace_values() {
    let mut m = member_of_workspace();
    if let Some(ws) = m.workspace.as_mut() {
        let w = ws.package.as_mut().unwrap();
        w.license = Some("MIT".to_owned());
        w.edition = Some(Edition::E2021);
        w.readme = OptionalFile::Path("README.md".to_owned());
        w.publish = Publish::Registry(strings(&["a", "b"]));
    }
    if let Some(p) = m.package.as_mut() {
        p.license = Some(Inheritable::Inherited);
        p.edition = Inheritable::Inherited;
        p.readme = Inheritable::Inherited;
        p.publish = Inheritable::Inherited;
    }
    assert_eq!(query(&m, Command::PackageLicense).unwrap(), "MIT\n");
    assert_eq!(query(&m, Command::PackageEdition).unwrap(), "2021\n");
    assert_eq!(query(&m, Command::PackageReadme).unwrap(), "README.md\n");
    assert_eq!(query(&m, Command::PackagePublish).unwrap(), "a\r\nb\n");
}

#[test]
fn missing_sections_are_reported() {
    let root = workspace_root();
    match query(&root, Command::PackageName) {
        Err(QueryError::SectionNotSpecified(NotSpecified(s))) => assert_eq!(s, "package"),
        other => panic!("unexpected {:?}", other),
    }
    match query(&toml_01(), Command::WorkspaceMembers) {
        Err(QueryError::SectionNotSpecified(NotSpecified(s))) => assert_eq!(s, "workspace"),
        other => panic!("unexpected {:?}", other),
    }
    let bare = Manifest {
        package: None,
        workspace: Some(Workspace { members: Vec::new(), default_members: Vec::new(), package: None }),
        root_defaults: None,
    };
    let err = query(&bare, Command::WorkspacePackageLicense).unwrap_err();
    assert_eq!(err.message(), "`workspace.package` not specified in manifest");
    assert_eq!(query(&bare, Command::WorkspaceMembers).unwrap(), "\n");
}

#[test]
fn workspace_package_fields() {
    let m = workspace_root();
    assert_not_specified(query(&m, Command::WorkspacePackageLicense), "workspace.package.license");
    assert_not_specified(
        query(&m, Command::WorkspacePackageDescription),
        "workspace.package.description",
    );
    assert_not_specified(query(&m, Command::WorkspacePackageReadme), "workspace.package.readme");
    assert_eq!(query(&m, Command::WorkspacePackagePublish).unwrap(), "true\n");
    assert_eq!(
        query(&m, Command::WorkspacePackageVersion { inner: Version { minor: true, ..flags() } })
            .unwrap(),
        "2\n"
    );
}

#[test]
fn publish_and_resolver_texts() {
    let mut p = bare_package("1.0.0");
    p.publish = Inheritable::Local(Publish::Flag(false));
    p.resolver = Some(Resolver::V2);
    p.build = Some(OptionalFile::Path("build.rs".to_owned()));
    p.metadata = Some("a = 1".to_owned());
    let m = only_package(p);
    assert_eq!(query(&m, Command::PackagePublish).unwrap(), "false\n");
    assert_eq!(query(&m, Command::PackageResolver).unwrap(), "2\n");
    assert_eq!(query(&m, Command::PackageBuild).unwrap(), "build.rs\n");
    assert_eq!(query(&m, Command::PackageMetadata).unwrap(), "a = 1\n");
}

#[test]
fn invalid_version_is_reported() {
    let m = only_package(bare_package("1.2"));
    let err = query(&m, Command::PackageVersion { inner: flags() }).unwrap_err();
    assert!(matches!(err, QueryError::InvalidSemver(_)));
    assert!(err.message().starts_with("Invalid semver: "));
    assert!(err.message().len() > "Invalid semver: ".len());
}

#[test]
fn resolve_leaves_out_the_terminator() {
    assert_eq!(resolve(&toml_02(), &Command::PackageCategories, &Delimiter::Tab).unwrap(), "cli");
    assert_eq!(not_specified("x").message(), "`x` not specified in manifest");
}

#[test]
fn member_inherits_from_separate_root() {
    let mut p = bare_package("0.0.0");
    p.version = Inheritable::Inherited;
    p.license = Some(Inheritable::Inherited);
    let m = Manifest { package: Some(p), workspace: None, root_defaults: Some(shared_defaults()) };
    assert_eq!(query(&m, Command::PackageVersion { inner: flags() }).unwrap(), "1.2.3\n");
    assert_not_specified(query(&m, Command::PackageLicense), "package.license");
    match query(&m, Command::WorkspaceMembers) {
        Err(QueryError::SectionNotSpecified(NotSpecified(s))) => assert_eq!(s, "workspace"),
        other => panic!("unexpected {:?}", other),
    }
}

#[test]
fn own_workspace_section_takes_precedence_over_root() {
    let mut m = member_of_workspace();
    let mut other = shared_defaults();
    other.version = Some("9.9.9".to_owned());
    m.root_defaults = Some(other);
    assert_eq!(query(&m, Command::PackageVersion { inner: flags() }).unwrap(), "1.2.3\n");
}
