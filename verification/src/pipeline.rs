//! What the pipeline computes.
//!
//! A [`World`] fixes what each outside stage answers on one request. The
//! function [`dispatch`] is the pipeline's result in a world, written as a
//! composition of the stages.

use vstd::prelude::*;
use crate::handler::RequestHandler;
use crate::stage::{Stage, FIRST_TRANSFORM_AT, RESOLVE_AT, STAGE_COUNT};
use crate::status::Status;

verus! {

/// What the outside stages answer on one request.
#[verifier::reject_recursive_types(R)]
#[verifier::reject_recursive_types(E)]
pub struct World<R, E> {
    /// A filter's terminal result, or none where it lets the request pass.
    pub filter: spec_fn(Stage) -> Option<Result<R, E>>,
    /// Whether the request's method is allowed.
    pub method_allowed: bool,
    /// The error page renderer's result for a status.
    pub render: spec_fn(Status) -> Result<R, E>,
    /// The root of the virtual host that the request's host matches.
    pub host_root: Option<String>,
    /// The static resolver's result for a base path: a response and the
    /// file served, or a status.
    pub resolve: spec_fn(String) -> Result<(R, String), Status>,
    /// A post-transform's result for a response and, for the custom
    /// headers, the file served.
    pub transform: spec_fn(Stage, R, Option<String>) -> Result<R, E>,
}

/// The file that a post-transform is given: only the custom headers see it.
pub open spec fn handed_path(stage: Stage, file_path: Option<String>) -> Option<String> {
    if stage == Stage::CustomHeaders {
        file_path
    } else {
        None
    }
}

/// The result of the post-transforms from position `i` on, applied in order
/// to `response`. A stage that does not run is passed over; the first
/// failure is the result.
pub open spec fn transformed_from<R, E>(
    h: RequestHandler,
    w: World<R, E>,
    i: int,
    response: R,
    file_path: Option<String>,
) -> Result<R, E>
    decreases STAGE_COUNT - i,
{
    if i >= STAGE_COUNT {
        Ok(response)
    } else if !h.runs(Stage::at(i)) {
        transformed_from(h, w, i + 1, response, file_path)
    } else {
        match (w.transform)(Stage::at(i), response, handed_path(Stage::at(i), file_path)) {
            Ok(next) => transformed_from(h, w, i + 1, next, file_path),
            Err(e) => Err(e),
        }
    }
}

/// The result of the static resolution under a base path, taken through
/// the post-transforms: of the response served, or of the error page of the
/// failure status. A failing error page is the result as it is.
pub open spec fn resolved<R, E>(h: RequestHandler, w: World<R, E>, base_path: String) -> Result<R, E> {
    match (w.resolve)(base_path) {
        Ok((response, file_path)) => transformed_from(
            h,
            w,
            FIRST_TRANSFORM_AT as int,
            response,
            Some(file_path),
        ),
        Err(status) => rendered_failure(h, w, status),
    }
}

/// The error page of a failed resolution, taken through the
/// post-transforms.
pub open spec fn rendered_failure<R, E>(h: RequestHandler, w: World<R, E>, status: Status) -> Result<R, E> {
    match (w.render)(status) {
        Ok(response) => transformed_from(h, w, FIRST_TRANSFORM_AT as int, response, None),
        Err(e) => Err(e),
    }
}

/// The result of the pipeline from pre-filter position `i` on, under a
/// base path: the first terminal result among the stages that run, else
/// the static resolution's.
pub open spec fn filtered_from<R, E>(
    h: RequestHandler,
    w: World<R, E>,
    i: int,
    base_path: String,
) -> Result<R, E>
    decreases RESOLVE_AT - i,
{
    if i >= RESOLVE_AT {
        resolved(h, w, base_path)
    } else if !h.runs(Stage::at(i)) {
        filtered_from(h, w, i + 1, base_path)
    } else if Stage::at(i).is_filter() {
        match (w.filter)(Stage::at(i)) {
            Some(result) => result,
            None => filtered_from(h, w, i + 1, base_path),
        }
    } else if Stage::at(i) == Stage::MethodCheck {
        if w.method_allowed {
            filtered_from(h, w, i + 1, base_path)
        } else {
            (w.render)(Status { code: 405 })
        }
    } else if Stage::at(i) == Stage::VirtualHosts {
        match w.host_root {
            Some(root) => filtered_from(h, w, i + 1, root),
            None => filtered_from(h, w, i + 1, base_path),
        }
    } else {
        filtered_from(h, w, i + 1, base_path)
    }
}

/// The result of the whole pipeline for one request.
pub open spec fn dispatch<R, E>(h: RequestHandler, w: World<R, E>) -> Result<R, E> {
    filtered_from(h, w, 0, h.opts.root_dir)
}

} // verus!
