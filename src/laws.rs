//! Properties that relate several parts of the library, proved from the
//! contracts of the functions they speak of.
use vstd::prelude::*;

use crate::cli::Cli;
use crate::delimiter::Delimiter;
use crate::error::{NotSpecified, QueryError};
use crate::manifest::{Inheritable, Manifest, Package, WorkspacePackage};
use crate::resolve::{delimiter_text, output_spec, resolve_spec, terminator_text};
use crate::terminator::Terminator;
use crate::text::{join_spec, lower_of, views};

verus! {

/// Reading a delimiter token and writing the delimiter back out gives the
/// control characters that a keyword names (`tab`, `cr`, `lf`, `crlf`, in
/// any case), and any other token unchanged.
pub proof fn delimiter_round_trip(token: Seq<char>, d: Delimiter)
    requires
        d.parsed_from(lower_of(token), token),
    ensures
        lower_of(token) == seq!['t', 'a', 'b'] ==> d.text() == seq!['\t'],
        lower_of(token) == seq!['c', 'r'] ==> d.text() == seq!['\r'],
        lower_of(token) == seq!['l', 'f'] ==> d.text() == seq!['\n'],
        lower_of(token) == seq!['c', 'r', 'l', 'f'] ==> d.text() == seq!['\r', '\n'],
        lower_of(token) != seq!['t', 'a', 'b'] && lower_of(token) != seq!['c', 'r'] && lower_of(
            token,
        ) != seq!['l', 'f'] && lower_of(token) != seq!['c', 'r', 'l', 'f'] ==> d.text() == token,
{
    assert(seq!['c', 'r', 'l', 'f'].len() != seq!['t', 'a', 'b'].len());
    assert(seq!['c', 'r', 'l', 'f'].len() != seq!['c', 'r'].len());
}

/// Reading a terminator token and writing the terminator back out gives
/// the characters that a keyword names (`cr`, `crlf`, `lf`, `nul`, in any
/// case), and any other token unchanged.
pub proof fn terminator_round_trip(token: Seq<char>, t: Terminator)
    requires
        t.parsed_from(lower_of(token), token),
    ensures
        lower_of(token) == seq!['c', 'r'] ==> t.text() == seq!['\r'],
        lower_of(token) == seq!['c', 'r', 'l', 'f'] ==> t.text() == seq!['\r', '\n'],
        lower_of(token) == seq!['l', 'f'] ==> t.text() == seq!['\n'],
        lower_of(token) == seq!['n', 'u', 'l'] ==> t.text() == seq!['\0'],
        lower_of(token) != seq!['c', 'r'] && lower_of(token) != seq!['c', 'r', 'l', 'f'] && lower_of(
            token,
        ) != seq!['l', 'f'] && lower_of(token) != seq!['n', 'u', 'l'] ==> t.text() == token,
{
    assert(seq!['c', 'r', 'l', 'f'].len() != seq!['c', 'r'].len());
}

/// Whatever the field, a successful query prints the field's text followed
/// by the terminator exactly once, and a failing one fails as the field
/// does.
pub proof fn output_ends_with_terminator(cli: Cli, m: Manifest)
    ensures
        match output_spec(cli, m) {
            Ok(out) => {
                let value = resolve_spec(m, cli.command, delimiter_text(cli.delimiter));
                let t = terminator_text(cli.terminator);
                &&& value is Ok
                &&& out == value->Ok_0 + t
                &&& out.len() >= t.len()
                &&& out.subrange(out.len() - t.len(), out.len() as int) == t
            },
            Err(e) => resolve_spec(m, cli.command, delimiter_text(cli.delimiter)) == Err::<
                Seq<char>,
                QueryError,
            >(e),
        },
{
    if let Ok(out) = output_spec(cli, m) {
        let value = resolve_spec(m, cli.command, delimiter_text(cli.delimiter))->Ok_0;
        let t = terminator_text(cli.terminator);
        assert(out.subrange(out.len() - t.len(), out.len() as int) =~= t);
    }
}

/// A list field of the package that is given as an empty list prints
/// nothing but the terminator: the empty list is a value, not an absence.
pub proof fn empty_list_prints_terminator(cli: Cli, m: Manifest, p: Package, l: Vec<String>)
    requires
        m.package == Some(p),
        l@.len() == 0,
        (cli.command is PackageAuthors && p.authors == Inheritable::Local(l)) || (
        cli.command is PackageKeywords && p.keywords == Inheritable::Local(l)) || (
        cli.command is PackageCategories && p.categories == Inheritable::Local(l)) || (
        cli.command is PackageExclude && p.exclude == Inheritable::Local(l)) || (
        cli.command is PackageInclude && p.include_paths == Inheritable::Local(l)),
    ensures
        output_spec(cli, m) == Ok::<Seq<char>, QueryError>(terminator_text(cli.terminator)),
{
    assert(views(l@) =~= Seq::<Seq<char>>::empty());
    assert(Seq::<char>::empty() + terminator_text(cli.terminator) =~= terminator_text(
        cli.terminator,
    ));
}

/// Querying an optional field that the package does not give fails with
/// `NotSpecified` naming the field's dotted path; for the homepage the
/// message is ``` `package.homepage` not specified in manifest ```.
pub proof fn absent_field_not_specified(cli: Cli, m: Manifest, p: Package)
    requires
        m.package == Some(p),
        (cli.command is PackageHomepage && p.homepage is None) || (cli.command is PackageLicense
            && p.license is None) || (cli.command is PackageDescription && p.description is None)
            || (cli.command is PackageRepository && p.repository is None) || (
        cli.command is PackageRustVersion && p.rust_version is None) || (
        cli.command is PackageLicenseFile && p.license_file is None) || (cli.command is PackageLinks
            && p.links is None) || (cli.command is PackageDefaultRun && p.default_run is None) || (
        cli.command is PackageWorkspace && p.workspace is None) || (cli.command is PackageMetadata
            && p.metadata is None) || (cli.command is PackageBuild && p.build is None) || (
        cli.command is PackageResolver && p.resolver is None),
    ensures
        output_spec(cli, m) == Err::<Seq<char>, QueryError>(
            QueryError::NotSpecified(NotSpecified(cli.command.path_spec())),
        ),
        cli.command is PackageHomepage ==> QueryError::NotSpecified(
            NotSpecified(cli.command.path_spec()),
        ).message_spec() == "`package.homepage` not specified in manifest"@,
{
    if cli.command is PackageHomepage {
        reveal_strlit("`");
        reveal_strlit("package.homepage");
        reveal_strlit("` not specified in manifest");
        reveal_strlit("`package.homepage` not specified in manifest");
        assert(QueryError::NotSpecified(NotSpecified(cli.command.path_spec())).message_spec()
            =~= "`package.homepage` not specified in manifest"@);
    }
}

/// A package whose authors are marked as inherited takes the workspace's
/// shared authors; two names print as the first, the delimiter, the second
/// and the terminator.
pub proof fn inherited_authors_joined(
    cli: Cli,
    m: Manifest,
    p: Package,
    w: WorkspacePackage,
    names: Vec<String>,
)
    requires
        cli.command is PackageAuthors,
        m.package == Some(p),
        p.authors is Inherited,
        m.defaults() == Some(w),
        w.authors == Some(names),
        names@.len() == 2,
    ensures
        output_spec(cli, m) == Ok::<Seq<char>, QueryError>(
            names@[0]@ + delimiter_text(cli.delimiter) + names@[1]@ + terminator_text(
                cli.terminator,
            ),
        ),
{
    let v = views(names@);
    let d = delimiter_text(cli.delimiter);
    assert(v.drop_last().len() == 1);
    assert(join_spec(v.drop_last(), d) == v[0]);
    assert(join_spec(v, d) == v[0] + d + v[1]);
}

} // verus!
