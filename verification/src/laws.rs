//! The laws of the dispatcher: that its steps compute the pipeline, that a
//! short circuit skips what follows, and what the order of the
//! post-transforms gives.

use vstd::prelude::*;
use crate::handler::{Action, Awaiting, Dispatch, Event, RequestHandler};
use crate::pipeline::{
    dispatch, filtered_from, handed_path, rendered_failure, resolved, transformed_from, World,
};
use crate::stage::{Stage, FIRST_TRANSFORM_AT, RESOLVE_AT, STAGE_COUNT};
use crate::status::Status;

verus! {

/// The event with which a world answers an action. The end and a refusal
/// ask for nothing; they are given the arrival, which no state past the
/// first takes.
pub open spec fn reply<R, E>(w: World<R, E>, action: Action<R, E>) -> Event<R, E> {
    match action {
        Action::Filter(stage) => Event::Filtered((w.filter)(stage)),
        Action::Log => Event::Logged,
        Action::CheckMethod => Event::Method(w.method_allowed),
        Action::Render { status, page404, page50x } => Event::Rendered((w.render)(status)),
        Action::ResolveHost => Event::Host(w.host_root),
        Action::Resolve(opts) => match (w.resolve)(opts.base_path) {
            Ok((response, file_path)) => Event::Served { response, file_path },
            Err(status) => Event::Failed(status),
        },
        Action::Transform { stage, response, file_path } => Event::Transformed(
            (w.transform)(stage, response, file_path),
        ),
        Action::Finish(result) => Event::Arrived,
        Action::Refuse => Event::Arrived,
    }
}

/// Whether an action is the one that a state waits for.
pub open spec fn pending<R, E>(h: RequestHandler, state: Dispatch, action: Action<R, E>) -> bool {
    match action {
        Action::Filter(stage) => state.awaiting == Awaiting::Reply(stage) && stage.is_filter()
            && h.runs(stage),
        Action::Log => state.awaiting == Awaiting::Reply(Stage::Log),
        Action::CheckMethod => state.awaiting == Awaiting::Reply(Stage::MethodCheck),
        Action::Render { status, page404, page50x } => state.awaiting == Awaiting::Rejection
            || state.awaiting == Awaiting::FailurePage,
        Action::ResolveHost => state.awaiting == Awaiting::Reply(Stage::VirtualHosts) && h.runs(
            Stage::VirtualHosts,
        ),
        Action::Resolve(opts) => state.awaiting == Awaiting::Reply(Stage::Resolve)
            && opts.base_path == state.base_path,
        Action::Transform { stage, response, file_path } => state.awaiting == Awaiting::Reply(stage)
            && stage.is_transform() && h.runs(stage) && file_path == handed_path(
            stage,
            state.file_path,
        ),
        Action::Finish(result) => state.awaiting == Awaiting::Nothing,
        Action::Refuse => false,
    }
}

/// The result that the pipeline will have, seen from a state and the action
/// that it waits for.
pub open spec fn outcome<R, E>(
    h: RequestHandler,
    w: World<R, E>,
    state: Dispatch,
    action: Action<R, E>,
) -> Result<R, E> {
    match action {
        Action::Filter(stage) => filtered_from(h, w, stage.ordinal(), state.base_path),
        Action::Log => filtered_from(h, w, Stage::Log.ordinal(), state.base_path),
        Action::CheckMethod => filtered_from(h, w, Stage::MethodCheck.ordinal(), state.base_path),
        Action::ResolveHost => filtered_from(h, w, Stage::VirtualHosts.ordinal(), state.base_path),
        Action::Resolve(opts) => resolved(h, w, state.base_path),
        Action::Render { status, page404, page50x } => if state.awaiting == Awaiting::Rejection {
            (w.render)(status)
        } else {
            rendered_failure(h, w, status)
        },
        Action::Transform { stage, response, file_path } => transformed_from(
            h,
            w,
            stage.ordinal(),
            response,
            state.file_path,
        ),
        Action::Finish(result) => result,
        Action::Refuse => arbitrary(),
    }
}

/// Entering the pre-filters at a position changes nothing of the result.
pub proof fn lemma_enter_pre<R, E>(h: RequestHandler, w: World<R, E>, i: int, base_path: String)
    requires
        0 <= i <= RESOLVE_AT,
    ensures
        pending(h, h.enter_pre::<R, E>(i, base_path).0, h.enter_pre::<R, E>(i, base_path).1),
        outcome(h, w, h.enter_pre::<R, E>(i, base_path).0, h.enter_pre::<R, E>(i, base_path).1)
            == filtered_from(h, w, i, base_path),
    decreases RESOLVE_AT - i,
{
    h.lemma_resolution_is_reached(i);
    if i < RESOLVE_AT && !h.runs(Stage::at(i)) {
        lemma_enter_pre(h, w, i + 1, base_path);
    }
}

/// Entering the post-transforms at a position changes nothing of the
/// result.
pub proof fn lemma_enter_post<R, E>(
    h: RequestHandler,
    w: World<R, E>,
    i: int,
    base_path: String,
    file_path: Option<String>,
    response: R,
)
    requires
        FIRST_TRANSFORM_AT <= i <= STAGE_COUNT,
    ensures
        pending(
            h,
            h.enter_post::<R, E>(i, base_path, file_path, response).0,
            h.enter_post::<R, E>(i, base_path, file_path, response).1,
        ),
        outcome(
            h,
            w,
            h.enter_post::<R, E>(i, base_path, file_path, response).0,
            h.enter_post::<R, E>(i, base_path, file_path, response).1,
        ) == transformed_from(h, w, i, response, file_path),
    decreases STAGE_COUNT - i,
{
    if i < STAGE_COUNT && !h.runs(Stage::at(i)) {
        lemma_enter_post(h, w, i + 1, base_path, file_path, response);
    }
}

/// The first step: on the arrival of a request the dispatcher asks for an
/// action from which the pipeline's result is `dispatch`.
pub proof fn lemma_first_step<R, E>(h: RequestHandler, w: World<R, E>, state: Dispatch)
    requires
        state.awaiting == Awaiting::Request,
    ensures
        pending(h, h.step::<R, E>(state, Event::Arrived).0, h.step::<R, E>(state, Event::Arrived).1),
        outcome(h, w, h.step::<R, E>(state, Event::Arrived).0, h.step::<R, E>(state, Event::Arrived).1)
            == dispatch(h, w),
{
    let ghost root = h.opts.root_dir;
    lemma_enter_pre(h, w, 0, root);
}

/// Every later step: where the world answers the action that the
/// dispatcher waits for, the next action is again one that the next state
/// waits for, and the pipeline's result is the same seen from either.
pub proof fn lemma_step_keeps_outcome<R, E>(
    h: RequestHandler,
    w: World<R, E>,
    state: Dispatch,
    action: Action<R, E>,
)
    requires
        pending(h, state, action),
        !(action is Finish),
    ensures
        pending(h, h.step(state, reply(w, action)).0, h.step(state, reply(w, action)).1),
        outcome(h, w, h.step(state, reply(w, action)).0, h.step(state, reply(w, action)).1)
            == outcome(h, w, state, action),
{
    let base = state.base_path;
    match action {
        Action::Filter(stage) => {
            lemma_enter_pre(h, w, stage.ordinal() + 1, base);
        },
        Action::Log => {
            lemma_enter_pre(h, w, 2, base);
        },
        Action::CheckMethod => {
            lemma_enter_pre(h, w, 3, base);
        },
        Action::ResolveHost => {
            lemma_enter_pre(h, w, 10, base);
            if w.host_root is Some {
                lemma_enter_pre(h, w, 10, w.host_root.unwrap());
            }
        },
        Action::Resolve(opts) => {
            match (w.resolve)(base) {
                Ok((response, file_path)) => {
                    lemma_enter_post(h, w, 11, base, Some(file_path), response);
                },
                Err(status) => {},
            }
        },
        Action::Render { status, page404, page50x } => {
            match (w.render)(status) {
                Ok(response) => {
                    lemma_enter_post(h, w, 11, base, None, response);
                },
                Err(e) => {},
            }
        },
        Action::Transform { stage, response, file_path } => {
            match (w.transform)(stage, response, file_path) {
                Ok(next) => {
                    lemma_enter_post(h, w, stage.ordinal() + 1, base, state.file_path, next);
                },
                Err(e) => {},
            }
        },
        _ => {},
    }
}

/// A run of the dispatcher in a world: it starts with the arrival of the
/// request, and each later entry is the dispatcher's step on the world's
/// answer to the action before it.
pub open spec fn is_run<R, E>(
    h: RequestHandler,
    w: World<R, E>,
    start: Dispatch,
    trace: Seq<(Dispatch, Action<R, E>)>,
) -> bool {
    &&& start.awaiting == Awaiting::Request
    &&& trace.len() >= 1
    &&& trace[0] == h.step::<R, E>(start, Event::Arrived)
    &&& forall|k: int|
        1 <= k < trace.len() ==> !(trace[k - 1].1 is Finish) && #[trigger] trace[k] == h.step(
            trace[k - 1].0,
            reply(w, trace[k - 1].1),
        )
}

/// At every point of a run the dispatcher waits for the action it asked
/// for, never refuses, and the pipeline's result seen from there is
/// `dispatch`.
pub proof fn lemma_run_keeps_outcome<R, E>(
    h: RequestHandler,
    w: World<R, E>,
    start: Dispatch,
    trace: Seq<(Dispatch, Action<R, E>)>,
    k: int,
)
    requires
        is_run(h, w, start, trace),
        0 <= k < trace.len(),
    ensures
        pending(h, trace[k].0, trace[k].1),
        outcome(h, w, trace[k].0, trace[k].1) == dispatch(h, w),
    decreases k,
{
    if k == 0 {
        lemma_first_step(h, w, start);
    } else {
        lemma_run_keeps_outcome(h, w, start, trace, k - 1);
        lemma_step_keeps_outcome(h, w, trace[k - 1].0, trace[k - 1].1);
    }
}

/// The result that a run hands out is the pipeline's result: whatever the
/// stages answer, the dispatcher returns exactly `dispatch`.
pub proof fn lemma_run_ends_in_dispatch<R, E>(
    h: RequestHandler,
    w: World<R, E>,
    start: Dispatch,
    trace: Seq<(Dispatch, Action<R, E>)>,
    result: Result<R, E>,
)
    requires
        is_run(h, w, start, trace),
        trace.last().1 == Action::Finish(result),
    ensures
        result == dispatch(h, w),
        trace.last().0.awaiting == Awaiting::Nothing,
{
    lemma_run_keeps_outcome(h, w, start, trace, trace.len() - 1);
}

/// Whether every stage before position `i` that runs lets the request
/// pass: its filters have no terminal result, and its method is allowed.
pub open spec fn passes_before<R, E>(h: RequestHandler, w: World<R, E>, i: int) -> bool {
    forall|j: int|
        0 <= j < i && h.runs(#[trigger] Stage::at(j)) ==> (Stage::at(j).is_filter() ==> (w.filter)(
            Stage::at(j),
        ) is None) && (Stage::at(j) == Stage::MethodCheck ==> w.method_allowed)
}

/// Stages that let the request pass do not change the result.
pub proof fn lemma_passed_stages<R, E>(h: RequestHandler, w: World<R, E>, i: int)
    requires
        0 <= i <= Stage::VirtualHosts.ordinal(),
        passes_before(h, w, i),
    ensures
        dispatch(h, w) == filtered_from(h, w, i, h.opts.root_dir),
    decreases i,
{
    if i > 0 {
        assert(passes_before(h, w, i - 1));
        lemma_passed_stages(h, w, i - 1);
        let stage = Stage::at(i - 1);
        assert(h.runs(stage) ==> (stage.is_filter() ==> (w.filter)(stage) is None) && (stage
            == Stage::MethodCheck ==> w.method_allowed));
    }
}

/// Short circuit: where a filter that runs has a terminal result and every
/// stage before it lets the request pass, that result is the pipeline's,
/// whatever the static resolver and the post-transforms would answer.
pub proof fn lemma_terminal_filter<R, E>(
    h: RequestHandler,
    w: World<R, E>,
    stage: Stage,
    result: Result<R, E>,
)
    requires
        stage.is_filter(),
        h.runs(stage),
        passes_before(h, w, stage.ordinal()),
        (w.filter)(stage) == Some(result),
    ensures
        dispatch(h, w) == result,
{
    lemma_passed_stages(h, w, stage.ordinal());
}

/// A method that is not allowed: where the health check lets the request
/// pass, the pipeline's result is the error page renderer's for status
/// 405, a client error, and nothing else of the world counts.
pub proof fn lemma_refused_method<R, E>(h: RequestHandler, w: World<R, E>)
    requires
        (w.filter)(Stage::Health) is None,
        !w.method_allowed,
    ensures
        dispatch(h, w) == (w.render)(Status { code: 405 }),
        (Status { code: 405 }).is_client_error(),
{
    assert(passes_before(h, w, 2)) by {
        assert forall|j: int| 0 <= j < 2 && h.runs(#[trigger] Stage::at(j)) implies (Stage::at(
            j,
        ).is_filter() ==> (w.filter)(Stage::at(j)) is None) && (Stage::at(j) == Stage::MethodCheck
            ==> w.method_allowed) by {
            assert(j == 0 || j == 1);
        }
    }
    lemma_passed_stages(h, w, 2);
}

/// The dispatcher's steps on a method that is not allowed: it asks for the
/// error page of status 405 with the configured pages, and hands out what
/// the renderer gives, with no stage in between.
pub proof fn lemma_refused_method_steps<R, E>(
    h: RequestHandler,
    state: Dispatch,
    rendered: Result<R, E>,
)
    requires
        state.awaiting == Awaiting::Reply(Stage::MethodCheck),
    ensures
        h.step::<R, E>(state, Event::Method(false)).1 is Render,
        h.step::<R, E>(state, Event::Method(false)).1->status == (Status { code: 405 }),
        h.step::<R, E>(state, Event::Method(false)).1->page404 == h.opts.page404,
        h.step::<R, E>(state, Event::Method(false)).1->page50x == h.opts.page50x,
        h.step(h.step::<R, E>(state, Event::Method(false)).0, Event::Rendered(rendered)).1
            == Action::Finish(rendered),
{
}

/// The dispatcher's step on a filter's terminal result: the result is
/// handed out at once and the dispatcher waits for nothing more.
pub proof fn lemma_terminal_filter_step<R, E>(
    h: RequestHandler,
    state: Dispatch,
    stage: Stage,
    result: Result<R, E>,
)
    requires
        state.awaiting == Awaiting::Reply(stage),
        stage.is_filter(),
    ensures
        h.step(state, Event::Filtered(Some(result))).1 == Action::Finish(result),
        h.step(state, Event::Filtered(Some(result))).0.awaiting == Awaiting::Nothing,
{
}

/// The base path that the static resolver is called with: the matching
/// virtual host's root where the virtual hosts are asked and one matches,
/// else the root directory.
pub open spec fn effective_base<R, E>(h: RequestHandler, w: World<R, E>) -> String {
    if h.runs(Stage::VirtualHosts) && w.host_root is Some {
        w.host_root.unwrap()
    } else {
        h.opts.root_dir
    }
}

/// Whether the pipeline's result is a short circuit of a pre-filter from
/// position `i` on: a filter's terminal result, or the error page of a
/// method that is not allowed.
pub open spec fn short_circuits_from<R, E>(h: RequestHandler, w: World<R, E>, i: int) -> bool {
    exists|j: int|
        i <= j < RESOLVE_AT && h.runs(#[trigger] Stage::at(j)) && ((Stage::at(j).is_filter() && (
        w.filter)(Stage::at(j)) is Some) || (Stage::at(j) == Stage::MethodCheck
            && !w.method_allowed))
}

/// The two outcomes: either a pre-filter short-circuits, or the result is
/// the static resolution's under the effective base path, taken through
/// the post-transforms. There is no third.
pub proof fn lemma_two_outcomes<R, E>(h: RequestHandler, w: World<R, E>)
    ensures
        short_circuits_from(h, w, 0) || dispatch(h, w) == resolved(h, w, effective_base(h, w)),
{
    lemma_two_outcomes_from(h, w, 0);
}

/// The two outcomes, from a pre-filter position on.
pub proof fn lemma_two_outcomes_from<R, E>(h: RequestHandler, w: World<R, E>, i: int)
    requires
        0 <= i <= RESOLVE_AT,
    ensures
        short_circuits_from(h, w, i) || filtered_from(h, w, i, h.opts.root_dir) == resolved(
            h,
            w,
            if i <= Stage::VirtualHosts.ordinal() {
                effective_base(h, w)
            } else {
                h.opts.root_dir
            },
        ),
    decreases RESOLVE_AT - i,
{
    if i < RESOLVE_AT {
        lemma_two_outcomes_from(h, w, i + 1);
        let stage = Stage::at(i);
        if short_circuits_from(h, w, i + 1) {
            let j = choose|j: int|
                i + 1 <= j < RESOLVE_AT && h.runs(#[trigger] Stage::at(j)) && ((Stage::at(
                    j,
                ).is_filter() && (w.filter)(Stage::at(j)) is Some) || (Stage::at(j)
                    == Stage::MethodCheck && !w.method_allowed));
            assert(h.runs(Stage::at(j)));
        } else if h.runs(stage) && ((stage.is_filter() && (w.filter)(stage) is Some) || (stage
            == Stage::MethodCheck && !w.method_allowed)) {
            assert(h.runs(Stage::at(i)));
        } else if stage == Stage::VirtualHosts && h.runs(stage) && w.host_root is Some {
            assert(i == 9);
            assert(filtered_from(h, w, 10, w.host_root.unwrap()) == resolved(
                h,
                w,
                w.host_root.unwrap(),
            ));
        } else {
        }
    }
}

/// Order of the post-transforms: with every stage present and none
/// failing, the result is the custom headers' of the security headers' of
/// the cache control's of the compression's of the `Vary` annotation's of
/// the CORS headers' of the fallback page's of the response. A later stage
/// works on what the earlier ones made; only the last sees the file.
pub proof fn lemma_transform_order<R, E>(
    h: RequestHandler,
    w: World<R, E>,
    file_path: Option<String>,
    r0: R,
    r1: R,
    r2: R,
    r3: R,
    r4: R,
    r5: R,
    r6: R,
    r7: R,
)
    requires
        h.stages.fallback_page,
        h.stages.compression,
        (w.transform)(Stage::FallbackPage, r0, None) == Ok::<R, E>(r1),
        (w.transform)(Stage::CorsHeaders, r1, None) == Ok::<R, E>(r2),
        (w.transform)(Stage::CompressionVary, r2, None) == Ok::<R, E>(r3),
        (w.transform)(Stage::Compression, r3, None) == Ok::<R, E>(r4),
        (w.transform)(Stage::CacheControl, r4, None) == Ok::<R, E>(r5),
        (w.transform)(Stage::SecurityHeaders, r5, None) == Ok::<R, E>(r6),
        (w.transform)(Stage::CustomHeaders, r6, file_path) == Ok::<R, E>(r7),
    ensures
        transformed_from(h, w, FIRST_TRANSFORM_AT as int, r0, file_path) == Ok::<R, E>(r7),
{
    reveal_with_fuel(transformed_from, 9);
}

/// A failing post-transform ends the chain: its error is the result, and
/// no later stage changes it.
pub proof fn lemma_transform_failure<R, E>(
    h: RequestHandler,
    w: World<R, E>,
    stage: Stage,
    response: R,
    file_path: Option<String>,
    e: E,
)
    requires
        stage.is_transform(),
        h.runs(stage),
        (w.transform)(stage, response, handed_path(stage, file_path)) == Err::<R, E>(e),
    ensures
        transformed_from(h, w, stage.ordinal(), response, file_path) == Err::<R, E>(e),
{
}

/// Second run of the chain: where every post-transform that runs leaves a
/// response as it is, the chain leaves it as it is. So a chain whose
/// stages do nothing more to their own result gives that result again when
/// it is run on it a second time.
pub proof fn lemma_transform_fixed_point<R, E>(
    h: RequestHandler,
    w: World<R, E>,
    i: int,
    response: R,
    file_path: Option<String>,
)
    requires
        FIRST_TRANSFORM_AT <= i <= STAGE_COUNT,
        forall|j: int|
            i <= j < STAGE_COUNT && h.runs(#[trigger] Stage::at(j)) ==> (w.transform)(
                Stage::at(j),
                response,
                handed_path(Stage::at(j), file_path),
            ) == Ok::<R, E>(response),
    ensures
        transformed_from(h, w, i, response, file_path) == Ok::<R, E>(response),
    decreases STAGE_COUNT - i,
{
    if i < STAGE_COUNT {
        lemma_transform_fixed_point(h, w, i + 1, response, file_path);
        assert(h.runs(Stage::at(i)) ==> (w.transform)(
            Stage::at(i),
            response,
            handed_path(Stage::at(i), file_path),
        ) == Ok::<R, E>(response));
    }
}

/// An upper bound on the number of steps that are left before the result
/// is handed out, seen from a state and the action that it waits for.
pub open spec fn steps_left<R, E>(state: Dispatch, action: Action<R, E>) -> int {
    match action {
        Action::Filter(stage) => 2 * RESOLVE_AT - stage.ordinal(),
        Action::Log => 2 * RESOLVE_AT - Stage::Log.ordinal(),
        Action::CheckMethod => 2 * RESOLVE_AT - Stage::MethodCheck.ordinal(),
        Action::ResolveHost => 2 * RESOLVE_AT - Stage::VirtualHosts.ordinal(),
        Action::Resolve(opts) => RESOLVE_AT as int,
        Action::Render { status, page404, page50x } => if state.awaiting == Awaiting::Rejection {
            1
        } else {
            RESOLVE_AT - 1
        },
        Action::Transform { stage, response, file_path } => STAGE_COUNT - stage.ordinal(),
        Action::Finish(result) => 0,
        Action::Refuse => 0,
    }
}

/// Every step brings the end nearer: the bound on the steps that are left
/// falls with each answer of the world.
pub proof fn lemma_step_makes_progress<R, E>(
    h: RequestHandler,
    w: World<R, E>,
    state: Dispatch,
    action: Action<R, E>,
)
    requires
        pending(h, state, action),
        !(action is Finish),
    ensures
        0 <= steps_left(h.step(state, reply(w, action)).0, h.step(state, reply(w, action)).1)
            < steps_left(state, action),
{
    match action {
        Action::Filter(stage) => {
            h.lemma_resolution_is_reached(stage.ordinal() + 1);
        },
        Action::Log => {
            h.lemma_resolution_is_reached(2);
        },
        Action::CheckMethod => {
            h.lemma_resolution_is_reached(3);
        },
        Action::ResolveHost => {
            h.lemma_resolution_is_reached(10);
        },
        Action::Transform { stage, response, file_path } => {
            lemma_next_is_later(h, stage.ordinal() + 1);
        },
        _ => {
            lemma_next_is_later(h, FIRST_TRANSFORM_AT as int);
        },
    }
}

/// The search for a stage that runs never goes back, nor past the end.
pub proof fn lemma_next_is_later(h: RequestHandler, i: int)
    requires
        0 <= i <= STAGE_COUNT,
    ensures
        i <= h.next_from(i) <= STAGE_COUNT,
    decreases STAGE_COUNT - i,
{
    if i < STAGE_COUNT && !h.runs(Stage::at(i)) {
        lemma_next_is_later(h, i + 1);
    }
}

/// A run is short: its `k`-th entry has at most 20 - `k` steps left, so no
/// run has more than 21 entries.
pub proof fn lemma_run_is_short<R, E>(
    h: RequestHandler,
    w: World<R, E>,
    start: Dispatch,
    trace: Seq<(Dispatch, Action<R, E>)>,
    k: int,
)
    requires
        is_run(h, w, start, trace),
        0 <= k < trace.len(),
    ensures
        0 <= steps_left(trace[k].0, trace[k].1) <= 2 * RESOLVE_AT - k,
        k <= 2 * RESOLVE_AT,
    decreases k,
{
    if k == 0 {
        h.lemma_resolution_is_reached(0);
    } else {
        lemma_run_is_short(h, w, start, trace, k - 1);
        lemma_run_keeps_outcome(h, w, start, trace, k - 1);
        assert(trace[k] == h.step(trace[k - 1].0, reply(w, trace[k - 1].1)));
        lemma_step_makes_progress(h, w, trace[k - 1].0, trace[k - 1].1);
    }
}

/// The search for a stage that runs stops at the first one: it never
/// passes a stage that runs.
pub proof fn lemma_next_stops_at(h: RequestHandler, i: int, j: int)
    requires
        0 <= i <= j < STAGE_COUNT,
        h.runs(Stage::at(j)),
    ensures
        i <= h.next_from(i) <= j,
    decreases j - i,
{
    if i < j && !h.runs(Stage::at(i)) {
        lemma_next_stops_at(h, i + 1, j);
    }
}

/// Whether the pipeline short-circuits at pre-filter position `p`: every
/// stage before it lets the request pass, and the stage at `p` runs and
/// either is a filter with a terminal result or finds the method not
/// allowed.
pub open spec fn short_circuit_at<R, E>(h: RequestHandler, w: World<R, E>, p: int) -> bool {
    &&& 0 <= p < RESOLVE_AT
    &&& h.runs(Stage::at(p))
    &&& passes_before(h, w, p)
    &&& (Stage::at(p).is_filter() && (w.filter)(Stage::at(p)) is Some) || (Stage::at(p)
        == Stage::MethodCheck && !w.method_allowed)
}

/// The position of the pre-filter stage that an action asks for; the stage
/// count for any other action.
pub open spec fn pre_filter_position<R, E>(action: Action<R, E>) -> int {
    match action {
        Action::Filter(stage) => stage.ordinal(),
        Action::Log => Stage::Log.ordinal(),
        Action::CheckMethod => Stage::MethodCheck.ordinal(),
        Action::ResolveHost => Stage::VirtualHosts.ordinal(),
        _ => STAGE_COUNT as int,
    }
}

/// What a run that short-circuits at position `p` may ask for: a
/// pre-filter stage up to `p`, the error page of a method that is not
/// allowed, or the end.
pub open spec fn before_short_circuit<R, E>(
    h: RequestHandler,
    p: int,
    state: Dispatch,
    action: Action<R, E>,
) -> bool {
    ||| pre_filter_position(action) <= p
    ||| action is Render && state.awaiting == Awaiting::Rejection && Stage::at(p)
        == Stage::MethodCheck
    ||| action is Finish
}

/// A run that short-circuits never reaches the static resolution nor a
/// post-transform: all it asks for are pre-filter stages up to the one
/// that ends it, the error page where the method is not allowed, and the
/// end.
pub proof fn lemma_short_circuit_skips_the_rest<R, E>(
    h: RequestHandler,
    w: World<R, E>,
    start: Dispatch,
    trace: Seq<(Dispatch, Action<R, E>)>,
    p: int,
    k: int,
)
    requires
        is_run(h, w, start, trace),
        short_circuit_at(h, w, p),
        0 <= k < trace.len(),
    ensures
        before_short_circuit(h, p, trace[k].0, trace[k].1),
        !(trace[k].1 is Resolve),
        !(trace[k].1 is Transform),
    decreases k,
{
    if k == 0 {
        lemma_next_stops_at(h, 0, p);
    } else {
        lemma_short_circuit_skips_the_rest(h, w, start, trace, p, k - 1);
        lemma_run_keeps_outcome(h, w, start, trace, k - 1);
        let state = trace[k - 1].0;
        let action = trace[k - 1].1;
        assert(trace[k] == h.step(state, reply(w, action)));
        let o = pre_filter_position(action);
        if o < p {
            assert(Stage::at(o).ordinal() == o);
            assert(h.runs(Stage::at(o)));
            lemma_next_stops_at(h, o + 1, p);
        }
    }
}

/// The base path is replaced at most once, and only by the virtual hosts:
/// while a run is among the pre-filters up to the virtual hosts it holds
/// the root directory, and the static resolver is called with the
/// effective base path.
pub proof fn lemma_resolution_base<R, E>(
    h: RequestHandler,
    w: World<R, E>,
    start: Dispatch,
    trace: Seq<(Dispatch, Action<R, E>)>,
    k: int,
)
    requires
        is_run(h, w, start, trace),
        0 <= k < trace.len(),
    ensures
        pre_filter_position(trace[k].1) < RESOLVE_AT ==> trace[k].0.base_path == h.opts.root_dir,
        trace[k].1 is Resolve ==> trace[k].1->Resolve_0.base_path == effective_base(h, w),
        trace[k].1 is Resolve ==> trace[k].1->Resolve_0 == h.resolve_opts(effective_base(h, w)),
    decreases k,
{
    if k == 0 {
        h.lemma_resolution_is_reached(0);
        if h.runs(Stage::VirtualHosts) {
            lemma_next_stops_at(h, 0, 9);
        }
    } else {
        lemma_resolution_base(h, w, start, trace, k - 1);
        lemma_run_keeps_outcome(h, w, start, trace, k - 1);
        let state = trace[k - 1].0;
        let action = trace[k - 1].1;
        assert(trace[k] == h.step(state, reply(w, action)));
        let o = pre_filter_position(action);
        if o < RESOLVE_AT {
            h.lemma_resolution_is_reached(o + 1);
            if o < 9 && h.runs(Stage::VirtualHosts) {
                lemma_next_stops_at(h, o + 1, 9);
            }
        }
    }
}

/// Whether a post-transform gives every response it makes a property.
pub open spec fn establishes<R, E>(w: World<R, E>, stage: Stage, has: spec_fn(R) -> bool) -> bool {
    forall|r: R, p: Option<String>|
        (#[trigger] (w.transform)(stage, r, p)) is Ok ==> has((w.transform)(stage, r, p)->Ok_0)
}

/// Whether every post-transform that runs after a stage keeps a property of
/// the response it is given.
pub open spec fn kept_after<R, E>(
    h: RequestHandler,
    w: World<R, E>,
    stage: Stage,
    has: spec_fn(R) -> bool,
) -> bool {
    forall|j: int, r: R, p: Option<String>|
        stage.ordinal() < j < STAGE_COUNT && h.runs(Stage::at(j)) && has(r) && (#[trigger] (
        w.transform)(Stage::at(j), r, p)) is Ok ==> has((w.transform)(Stage::at(j), r, p)->Ok_0)
}

/// What a post-transform adds stays: where a stage that runs gives its
/// responses a property, such as a header, and every later stage that runs
/// keeps it, the final response has it. This holds of the response that
/// was served and of the error page alike.
pub proof fn lemma_transform_keeps<R, E>(
    h: RequestHandler,
    w: World<R, E>,
    stage: Stage,
    has: spec_fn(R) -> bool,
    i: int,
    response: R,
    file_path: Option<String>,
)
    requires
        stage.is_transform(),
        h.runs(stage),
        establishes(w, stage, has),
        kept_after(h, w, stage, has),
        FIRST_TRANSFORM_AT <= i <= STAGE_COUNT,
        i > stage.ordinal() ==> has(response),
        transformed_from(h, w, i, response, file_path) is Ok,
    ensures
        has(transformed_from(h, w, i, response, file_path)->Ok_0),
    decreases STAGE_COUNT - i,
{
    if i < STAGE_COUNT {
        if !h.runs(Stage::at(i)) {
            lemma_transform_keeps(h, w, stage, has, i + 1, response, file_path);
        } else {
            let p = handed_path(Stage::at(i), file_path);
            let next = (w.transform)(Stage::at(i), response, p);
            if next is Ok {
                lemma_transform_keeps(h, w, stage, has, i + 1, next->Ok_0, file_path);
            }
        }
    }
}

/// The result that the dispatcher hands out when it is driven from a state
/// and an action with the world's answers, for at most `n` answers; none
/// where it has not finished by then.
pub open spec fn result_within<R, E>(
    h: RequestHandler,
    w: World<R, E>,
    state: Dispatch,
    action: Action<R, E>,
    n: nat,
) -> Option<Result<R, E>>
    decreases n,
{
    if action is Finish {
        Some(action->Finish_0)
    } else if n == 0 {
        None
    } else {
        let next = h.step(state, reply(w, action));
        result_within(h, w, next.0, next.1, (n - 1) as nat)
    }
}

/// Driven from any point of a run, the dispatcher finishes within the
/// steps that are left, with the pipeline's result seen from that point.
pub proof fn lemma_finishes_within<R, E>(
    h: RequestHandler,
    w: World<R, E>,
    state: Dispatch,
    action: Action<R, E>,
    n: nat,
)
    requires
        pending(h, state, action),
        0 <= steps_left(state, action) <= n,
    ensures
        result_within(h, w, state, action, n) == Some(outcome(h, w, state, action)),
    decreases n,
{
    if !(action is Finish) {
        lemma_step_keeps_outcome(h, w, state, action);
        lemma_step_makes_progress(h, w, state, action);
        let next = h.step(state, reply(w, action));
        lemma_finishes_within(h, w, next.0, next.1, (n - 1) as nat);
    }
}

/// The dispatcher computes the pipeline: driven with the answers of any
/// world, it finishes within 20 answers after the request's arrival, and
/// what it hands out is `dispatch`.
pub proof fn lemma_dispatcher_computes_dispatch<R, E>(h: RequestHandler, w: World<R, E>, start: Dispatch)
    requires
        start.awaiting == Awaiting::Request,
    ensures
        result_within(
            h,
            w,
            h.step::<R, E>(start, Event::Arrived).0,
            h.step::<R, E>(start, Event::Arrived).1,
            20,
        ) == Some(dispatch(h, w)),
{
    lemma_first_step(h, w, start);
    h.lemma_resolution_is_reached(0);
    let first = h.step::<R, E>(start, Event::Arrived);
    lemma_finishes_within(h, w, first.0, first.1, 20);
}

} // verus!
