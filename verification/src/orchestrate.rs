//! The import orchestration's result type and the join of the
//! pipeline's concurrently running stages.
//!
//! The stages — fetching the archive, demultiplexing it, copying the
//! selected blob across the blocking boundary, and the repository import
//! itself — run concurrently and are joined at the end.  The join is
//! first-error-wins in a fixed order; later failures are still observed
//! by the caller driving the stages, but not surfaced.

use vstd::prelude::*;

use crate::errors::ImportError;

verus! {

/// The result of an import operation.
#[derive(Debug)]
pub struct Import {
    /// The commit that was imported.
    pub ostree_commit: String,
    /// The image digest retrieved.
    pub image_digest: String,
}

/// Joins the four concurrently running pipeline stages, in the fixed
/// order fetch, demultiplex, copy, import: the first failure in that
/// order becomes the import's failure and the later ones are dropped;
/// only when every stage succeeded is the import assembled, from the
/// commit the import stage produced and the digest recorded at the
/// manifest fetch.
pub fn join_pipeline_results(
    fetch: Result<(), ImportError>,
    parse: Result<(), ImportError>,
    copy: Result<(), ImportError>,
    import: Result<String, ImportError>,
    image_digest: String,
) -> (r: Result<Import, ImportError>)
    ensures
        fetch is Err ==> r == Result::<Import, ImportError>::Err(fetch->Err_0),
        fetch is Ok && parse is Err ==> r == Result::<Import, ImportError>::Err(parse->Err_0),
        fetch is Ok && parse is Ok && copy is Err ==> r == Result::<Import, ImportError>::Err(
            copy->Err_0,
        ),
        fetch is Ok && parse is Ok && copy is Ok && import is Err ==> r == Result::<
            Import,
            ImportError,
        >::Err(import->Err_0),
        fetch is Ok && parse is Ok && copy is Ok && import is Ok ==> r is Ok
            && r->Ok_0.ostree_commit@ == import->Ok_0@ && r->Ok_0.image_digest@ == image_digest@,
{
    match fetch {
        Err(e) => {
            return Err(e);
        },
        Ok(u) => u,
    };
    match parse {
        Err(e) => {
            return Err(e);
        },
        Ok(u) => u,
    };
    match copy {
        Err(e) => {
            return Err(e);
        },
        Ok(u) => u,
    };
    match import {
        Err(e) => Err(e),
        Ok(ostree_commit) => Ok(Import { ostree_commit, image_digest }),
    }
}

} // verus!
