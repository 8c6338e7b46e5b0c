//! Finding the manifest: the nearest directory, from the start upward, that
//! holds one.
use vstd::prelude::*;

use crate::cli::Cli;
use crate::error::QueryError;
use crate::manifest::Manifest;
use crate::resolve::{agrees, output, output_spec};

verus! {

/// Directory `i` is the nearest one that holds a manifest: it holds one and
/// none before it does.
pub open spec fn nearest(has_manifest: Seq<bool>, i: int) -> bool {
    &&& 0 <= i < has_manifest.len()
    &&& has_manifest[i]
    &&& forall|j: int| 0 <= j < i ==> !has_manifest[j]
}

/// Picks the manifest to read. `has_manifest[i]` tells whether the `i`-th
/// directory on the way up (the start itself first, the root last) directly
/// holds a manifest; the result is the index of the nearest such directory.
pub fn search_manifest_path(has_manifest: &Vec<bool>) -> (r: Result<usize, QueryError>)
    ensures
        match r {
            Ok(i) => nearest(has_manifest@, i as int),
            Err(e) => e is NoManifestFound && forall|j: int|
                0 <= j < has_manifest@.len() ==> !has_manifest@[j],
        },
{
    let mut i: usize = 0;
    while i < has_manifest.len()
        invariant
            i <= has_manifest@.len(),
            forall|j: int| 0 <= j < i ==> !has_manifest@[j],
        decreases has_manifest.len() - i,
    {
        if has_manifest[i] {
            return Ok(i);
        }
        i += 1;
    }
    Err(QueryError::NoManifestFound)
}

/// Answers `cli`: finds the nearest directory that holds a manifest (see
/// [`search_manifest_path`]), reads only that one with `read`, and prints
/// the requested field. Without a manifest anywhere on the way up the
/// answer is `NoManifestFound`, whatever the field; an error from `read`
/// is passed on as it is.
pub fn query<F: Fn(usize) -> Result<Manifest, QueryError>>(
    cli: &Cli,
    has_manifest: &Vec<bool>,
    read: F,
) -> (r: Result<String, QueryError>)
    requires
        forall|i: usize| i < has_manifest@.len() ==> read.requires((i,)),
    ensures
        (forall|j: int| 0 <= j < has_manifest@.len() ==> !has_manifest@[j]) ==> (r is Err
            && r->Err_0 is NoManifestFound),
        forall|i: int|
            nearest(has_manifest@, i) ==> exists|x: Result<Manifest, QueryError>|
                #[trigger] read.ensures((i as usize,), x) && match x {
                    Ok(m) => agrees(r, output_spec(*cli, m)),
                    Err(e) => r == Err::<String, QueryError>(e),
                },
{
    match search_manifest_path(has_manifest) {
        Err(e) => Err(e),
        Ok(i) => {
            let x = read(i);
            let ghost read_result = x;
            let r = match x {
                Ok(m) => output(cli, &m),
                Err(e) => Err(e),
            };
            proof {
                assert forall|k: int| nearest(has_manifest@, k) implies exists|
                    y: Result<Manifest, QueryError>,
                | #[trigger] read.ensures((k as usize,), y) && match y {
                    Ok(m) => agrees(r, output_spec(*cli, m)),
                    Err(e) => r == Err::<String, QueryError>(e),
                } by {
                    if k < i {
                        assert(!has_manifest@[k]);
                    } else if k > i {
                        assert(!has_manifest@[i as int]);
                    }
                    assert(k as usize == i);
                    assert(read.ensures((k as usize,), read_result));
                }
            }
            r
        },
    }
}

} // verus!
