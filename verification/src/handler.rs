//! The dispatcher: which stage runs next, and when a response is final.
//!
//! The stages do their work outside this library. The dispatcher is a state
//! machine: it names the next piece of work as an [`Action`], is told the
//! outcome as an [`Event`], and answers with the next action, until the
//! action is [`Action::Finish`].

use std::sync::Arc;
use vstd::prelude::*;
use crate::config::{DirListFmt, RequestHandlerOpts};
use crate::stage::{Capabilities, Stage, FIRST_TRANSFORM_AT, RESOLVE_AT, STAGE_COUNT};
use crate::status::Status;

verus! {

/// What the dispatcher is waiting for.
#[derive(Clone, Copy, Debug, PartialEq, Eq, Structural)]
pub enum Awaiting {
    /// The request: nothing has run yet.
    Request,
    /// The outcome of a stage.
    Reply(Stage),
    /// The error page for a request whose method is not allowed.
    Rejection,
    /// The error page for a failed static resolution.
    FailurePage,
    /// Nothing: the response has been handed out.
    Nothing,
}

/// The per-request state of the dispatcher.
pub struct Dispatch {
    /// What the dispatcher is waiting for.
    pub awaiting: Awaiting,
    /// The effective base path of the static resolution.
    pub base_path: String,
    /// The file that the static resolution served, where it served one.
    pub file_path: Option<String>,
}

/// What the static resolver is called with, besides the request itself.
pub struct ResolveOpts<'a> {
    pub base_path: String,
    pub dir_listing: bool,
    pub dir_listing_order: u8,
    pub dir_listing_format: DirListFmt,
    pub redirect_trailing_slash: bool,
    pub compression_static: bool,
    pub ignore_hidden_files: bool,
    pub index_files: &'a Vec<String>,
}

/// The work that the dispatcher asks for next.
pub enum Action<'a, R, E> {
    /// Run a filter stage on the request; answered by `Event::Filtered`.
    Filter(Stage),
    /// Emit the log line of the request; answered by `Event::Logged`.
    Log,
    /// Test the request's method against the allow-list; answered by
    /// `Event::Method`.
    CheckMethod,
    /// Render the error page of a status; answered by `Event::Rendered`.
    Render { status: Status, page404: &'a String, page50x: &'a String },
    /// Look the request's host up among the virtual hosts; answered by
    /// `Event::Host`.
    ResolveHost,
    /// Resolve the request against the file system; answered by
    /// `Event::Served` or `Event::Failed`.
    Resolve(ResolveOpts<'a>),
    /// Run a post-transform on the response; answered by
    /// `Event::Transformed`.
    Transform { stage: Stage, response: R, file_path: Option<String> },
    /// Hand the result to the caller: the request is done.
    Finish(Result<R, E>),
    /// The event does not answer what the dispatcher was waiting for.
    Refuse,
}

/// What happened outside the dispatcher.
pub enum Event<R, E> {
    /// A request has arrived.
    Arrived,
    /// A filter stage ran: a terminal result, or none to continue.
    Filtered(Option<Result<R, E>>),
    /// The log line was emitted.
    Logged,
    /// Whether the request's method is allowed.
    Method(bool),
    /// The error page renderer's result.
    Rendered(Result<R, E>),
    /// The root directory of the virtual host that matched, if one did.
    Host(Option<String>),
    /// The static resolver served a response from a file.
    Served { response: R, file_path: String },
    /// The static resolver failed with a status.
    Failed(Status),
    /// A post-transform's result.
    Transformed(Result<R, E>),
}

/// It defines the main request handler.
pub struct RequestHandler {
    /// Request handler options, shared and never changed.
    pub opts: Arc<RequestHandlerOpts>,
    /// The optional stages that are present.
    pub stages: Capabilities,
}

impl Dispatch {
    /// The state of a request on which nothing has run yet.
    pub fn new() -> (r: Dispatch)
        ensures
            r.awaiting == Awaiting::Request,
            r.base_path@ == Seq::<char>::empty(),
            r.file_path.is_none(),
    {
        Dispatch { awaiting: Awaiting::Request, base_path: String::new(), file_path: None }
    }

    /// Whether the response has been handed out.
    pub fn is_done(&self) -> (r: bool)
        ensures
            r == (self.awaiting == Awaiting::Nothing),
    {
        self.awaiting == Awaiting::Nothing
    }
}

impl RequestHandler {
    /// Whether a stage is run at all. Metrics, basic auth, the fallback
    /// page and the two compression stages run where the capability is
    /// present; the virtual hosts are asked where advanced options are set;
    /// every other stage always runs.
    pub open spec fn runs(&self, stage: Stage) -> bool {
        match stage {
            Stage::Metrics => self.stages.metrics,
            Stage::BasicAuth => self.stages.basic_auth,
            Stage::VirtualHosts => self.opts.advanced_opts.is_some(),
            Stage::FallbackPage => self.stages.fallback_page,
            Stage::CompressionVary => self.stages.compression,
            Stage::Compression => self.stages.compression,
            _ => true,
        }
    }

    /// The position of the first stage at or after position `i` that runs;
    /// the stage count where there is none.
    pub open spec fn next_from(&self, i: int) -> int
        decreases STAGE_COUNT - i,
    {
        if i >= STAGE_COUNT {
            STAGE_COUNT as int
        } else if self.runs(Stage::at(i)) {
            i
        } else {
            self.next_from(i + 1)
        }
    }

    /// What the static resolver is called with for a base path.
    pub open spec fn resolve_opts<'a>(&'a self, base_path: String) -> ResolveOpts<'a> {
        ResolveOpts {
            base_path,
            dir_listing: self.stages.directory_listing && self.opts.dir_listing,
            dir_listing_order: self.opts.dir_listing_order,
            dir_listing_format: self.opts.dir_listing_format,
            redirect_trailing_slash: self.opts.redirect_trailing_slash,
            compression_static: self.opts.compression_static,
            ignore_hidden_files: self.opts.ignore_hidden_files,
            index_files: &self.opts.index_files,
        }
    }

    /// The request for the error page of a status, with the configured
    /// pages.
    pub open spec fn render_action<'a, R, E>(&'a self, status: Status) -> Action<'a, R, E> {
        Action::Render { status, page404: &self.opts.page404, page50x: &self.opts.page50x }
    }

    /// State and action when the pre-filter stages from position `i` on are
    /// still to run: the first of them that runs is asked for.
    pub open spec fn enter_pre<'a, R, E>(&'a self, i: int, base_path: String) -> (
        Dispatch,
        Action<'a, R, E>,
    ) {
        let stage = Stage::at(self.next_from(i));
        let state = Dispatch { awaiting: Awaiting::Reply(stage), base_path, file_path: None };
        let action = if stage.is_filter() {
            Action::Filter(stage)
        } else if stage == Stage::Log {
            Action::Log
        } else if stage == Stage::MethodCheck {
            Action::CheckMethod
        } else if stage == Stage::VirtualHosts {
            Action::ResolveHost
        } else {
            Action::Resolve(self.resolve_opts(base_path))
        };
        (state, action)
    }

    /// State and action when the post-transforms from position `i` on are
    /// still to run on `response`: the first of them that runs is asked
    /// for, and the response is final where none is left. Only the custom
    /// headers are given the file that was served.
    pub open spec fn enter_post<'a, R, E>(
        &'a self,
        i: int,
        base_path: String,
        file_path: Option<String>,
        response: R,
    ) -> (Dispatch, Action<'a, R, E>) {
        let j = self.next_from(i);
        if j >= STAGE_COUNT {
            (Dispatch { awaiting: Awaiting::Nothing, base_path, file_path }, Action::Finish(Ok(response)))
        } else {
            let stage = Stage::at(j);
            (
                Dispatch { awaiting: Awaiting::Reply(stage), base_path, file_path },
                Action::Transform {
                    stage,
                    response,
                    file_path: if stage == Stage::CustomHeaders {
                        file_path
                    } else {
                        None
                    },
                },
            )
        }
    }

    /// State and action when a result is final.
    pub open spec fn finish<'a, R, E>(state: Dispatch, result: Result<R, E>) -> (Dispatch, Action<'a, R, E>) {
        (
            Dispatch {
                awaiting: Awaiting::Nothing,
                base_path: state.base_path,
                file_path: state.file_path,
            },
            Action::Finish(result),
        )
    }

    /// The dispatcher's transition: the state and the action that follow a
    /// state and an event.
    ///
    /// - A terminal result of a filter, and the error page of a refused
    ///   method, are final at once: no later stage runs.
    /// - A filter that continues, the log and an allowed method lead to the
    ///   next pre-filter stage that runs.
    /// - A virtual host that matched replaces the base path.
    /// - The static resolution's response, or the error page of its
    ///   failure, is taken through every post-transform that runs, in
    ///   order; a post-transform or an error page that fails is final.
    /// - An event that does not answer the state is refused and changes
    ///   nothing.
    pub open spec fn step<'a, R, E>(&'a self, state: Dispatch, event: Event<R, E>) -> (
        Dispatch,
        Action<'a, R, E>,
    ) {
        match state.awaiting {
            Awaiting::Request => match event {
                Event::Arrived => self.enter_pre(0, self.opts.root_dir),
                _ => (state, Action::Refuse),
            },
            Awaiting::Reply(stage) => match event {
                Event::Filtered(Some(result)) if stage.is_filter() => Self::finish(state, result),
                Event::Filtered(None) if stage.is_filter() => self.enter_pre(
                    stage.ordinal() + 1,
                    state.base_path,
                ),
                Event::Logged if stage == Stage::Log => self.enter_pre(
                    stage.ordinal() + 1,
                    state.base_path,
                ),
                Event::Method(true) if stage == Stage::MethodCheck => self.enter_pre(
                    stage.ordinal() + 1,
                    state.base_path,
                ),
                Event::Method(false) if stage == Stage::MethodCheck => (
                    Dispatch {
                        awaiting: Awaiting::Rejection,
                        base_path: state.base_path,
                        file_path: state.file_path,
                    },
                    self.render_action(Status { code: 405 }),
                ),
                Event::Host(Some(root)) if stage == Stage::VirtualHosts => self.enter_pre(
                    stage.ordinal() + 1,
                    root,
                ),
                Event::Host(None) if stage == Stage::VirtualHosts => self.enter_pre(
                    stage.ordinal() + 1,
                    state.base_path,
                ),
                Event::Served { response, file_path } if stage == Stage::Resolve => self.enter_post(
                    FIRST_TRANSFORM_AT as int,
                    state.base_path,
                    Some(file_path),
                    response,
                ),
                Event::Failed(status) if stage == Stage::Resolve => (
                    Dispatch {
                        awaiting: Awaiting::FailurePage,
                        base_path: state.base_path,
                        file_path: None,
                    },
                    self.render_action(status),
                ),
                Event::Transformed(Ok(response)) if stage.is_transform() => self.enter_post(
                    stage.ordinal() + 1,
                    state.base_path,
                    state.file_path,
                    response,
                ),
                Event::Transformed(Err(e)) if stage.is_transform() => Self::finish(state, Err(e)),
                _ => (state, Action::Refuse),
            },
            Awaiting::Rejection => match event {
                Event::Rendered(result) => Self::finish(state, result),
                _ => (state, Action::Refuse),
            },
            Awaiting::FailurePage => match event {
                Event::Rendered(Ok(response)) => self.enter_post(
                    FIRST_TRANSFORM_AT as int,
                    state.base_path,
                    None,
                    response,
                ),
                Event::Rendered(Err(e)) => Self::finish(state, Err(e)),
                _ => (state, Action::Refuse),
            },
            Awaiting::Nothing => (state, Action::Refuse),
        }
    }

    /// A handler over options and the optional stages that are present.
    pub fn new(opts: RequestHandlerOpts, stages: Capabilities) -> (r: RequestHandler)
        ensures
            *r.opts == opts,
            r.stages == stages,
    {
        RequestHandler { opts: Arc::new(opts), stages }
    }

    /// Whether a stage is run at all.
    pub fn stage_runs(&self, stage: Stage) -> (r: bool)
        ensures
            r == self.runs(stage),
    {
        match stage {
            Stage::Metrics => self.stages.metrics,
            Stage::BasicAuth => self.stages.basic_auth,
            Stage::VirtualHosts => self.opts.advanced_opts.is_some(),
            Stage::FallbackPage => self.stages.fallback_page,
            Stage::CompressionVary => self.stages.compression,
            Stage::Compression => self.stages.compression,
            _ => true,
        }
    }

    /// The first stage at or after position `i` that runs.
    pub fn next_stage(&self, i: u8) -> (r: Option<Stage>)
        ensures
            r.is_some() <==> self.next_from(i as int) < STAGE_COUNT,
            r.is_some() ==> r.unwrap() == Stage::at(self.next_from(i as int)) && self.runs(
                r.unwrap(),
            ) && r.unwrap().ordinal() == self.next_from(i as int),
    {
        let mut j: u8 = i;
        while j < STAGE_COUNT
            invariant
                i <= j,
                self.next_from(j as int) == self.next_from(i as int),
            decreases STAGE_COUNT - j,
        {
            match Stage::from_index(j) {
                Some(stage) => {
                    if self.stage_runs(stage) {
                        return Some(stage);
                    }
                },
                None => {},
            }
            j = j + 1;
        }
        None
    }

    fn error_page<'a, R, E>(&'a self, status: Status) -> (r: Action<'a, R, E>)
        ensures
            r == self.render_action::<R, E>(status),
    {
        Action::Render {
            status,
            page404: &self.opts.page404,
            page50x: &self.opts.page50x,
        }
    }

    fn advance_pre<'a, R, E>(&'a self, i: u8, base_path: String) -> (r: (Dispatch, Action<'a, R, E>))
        requires
            i <= RESOLVE_AT,
        ensures
            r == self.enter_pre::<R, E>(i as int, base_path),
    {
        proof {
            self.lemma_resolution_is_reached(i as int);
        }
        let stage = match self.next_stage(i) {
            Some(stage) => stage,
            None => Stage::Resolve,
        };
        let action = if stage.is_filter() {
            Action::Filter(stage)
        } else if stage == Stage::Log {
            Action::Log
        } else if stage == Stage::MethodCheck {
            Action::CheckMethod
        } else if stage == Stage::VirtualHosts {
            Action::ResolveHost
        } else {
            Action::Resolve(
                ResolveOpts {
                    base_path: base_path.clone(),
                    dir_listing: self.stages.directory_listing && self.opts.dir_listing,
                    dir_listing_order: self.opts.dir_listing_order,
                    dir_listing_format: self.opts.dir_listing_format,
                    redirect_trailing_slash: self.opts.redirect_trailing_slash,
                    compression_static: self.opts.compression_static,
                    ignore_hidden_files: self.opts.ignore_hidden_files,
                    index_files: &self.opts.index_files,
                },
            )
        };
        (Dispatch { awaiting: Awaiting::Reply(stage), base_path, file_path: None }, action)
    }

    fn advance_post<'a, R, E>(
        &'a self,
        i: u8,
        base_path: String,
        file_path: Option<String>,
        response: R,
    ) -> (r: (Dispatch, Action<'a, R, E>))
        ensures
            r == self.enter_post::<R, E>(i as int, base_path, file_path, response),
    {
        match self.next_stage(i) {
            None => (
                Dispatch { awaiting: Awaiting::Nothing, base_path, file_path },
                Action::Finish(Ok(response)),
            ),
            Some(stage) => {
                let handed = if stage == Stage::CustomHeaders {
                    file_path.clone()
                } else {
                    None
                };
                (
                    Dispatch { awaiting: Awaiting::Reply(stage), base_path, file_path },
                    Action::Transform { stage, response, file_path: handed },
                )
            },
        }
    }

    /// From any pre-filter position the search for a stage that runs ends
    /// at the static resolution at the latest.
    pub proof fn lemma_resolution_is_reached(&self, i: int)
        requires
            0 <= i <= RESOLVE_AT,
        ensures
            i <= self.next_from(i) <= RESOLVE_AT,
        decreases RESOLVE_AT - i,
    {
        if i < RESOLVE_AT && !self.runs(Stage::at(i)) {
            self.lemma_resolution_is_reached(i + 1);
        }
    }

    /// Main entry point: takes the dispatcher from a state and an event to
    /// the next state and the next action, as `step` says.
    pub fn handle<'a, R, E>(&'a self, state: Dispatch, event: Event<R, E>) -> (r: (
        Dispatch,
        Action<'a, R, E>,
    ))
        ensures
            r == self.step(state, event),
    {
        match state.awaiting {
            Awaiting::Request => match event {
                Event::Arrived => self.advance_pre(0, self.opts.root_dir.clone()),
                _ => (state, Action::Refuse),
            },
            Awaiting::Reply(stage) => {
                let at: u8 = stage.index();
                match event {
                    Event::Filtered(outcome) => {
                        if stage.is_filter() {
                            match outcome {
                                Some(result) => Self::finished(state, result),
                                None => self.advance_pre(at + 1, state.base_path),
                            }
                        } else {
                            (state, Action::Refuse)
                        }
                    },
                    Event::Logged => {
                        if stage == Stage::Log {
                            self.advance_pre(at + 1, state.base_path)
                        } else {
                            (state, Action::Refuse)
                        }
                    },
                    Event::Method(allowed) => {
                        if stage == Stage::MethodCheck {
                            if allowed {
                                self.advance_pre(at + 1, state.base_path)
                            } else {
                                let action = self.error_page(Status::method_not_allowed());
                                (
                                    Dispatch {
                                        awaiting: Awaiting::Rejection,
                                        base_path: state.base_path,
                                        file_path: state.file_path,
                                    },
                                    action,
                                )
                            }
                        } else {
                            (state, Action::Refuse)
                        }
                    },
                    Event::Host(found) => {
                        if stage == Stage::VirtualHosts {
                            match found {
                                Some(root) => self.advance_pre(at + 1, root),
                                None => self.advance_pre(at + 1, state.base_path),
                            }
                        } else {
                            (state, Action::Refuse)
                        }
                    },
                    Event::Served { response, file_path } => {
                        if stage == Stage::Resolve {
                            self.advance_post(
                                FIRST_TRANSFORM_AT,
                                state.base_path,
                                Some(file_path),
                                response,
                            )
                        } else {
                            (state, Action::Refuse)
                        }
                    },
                    Event::Failed(status) => {
                        if stage == Stage::Resolve {
                            let action = self.error_page(status);
                            (
                                Dispatch {
                                    awaiting: Awaiting::FailurePage,
                                    base_path: state.base_path,
                                    file_path: None,
                                },
                                action,
                            )
                        } else {
                            (state, Action::Refuse)
                        }
                    },
                    Event::Transformed(outcome) => {
                        if stage.is_transform() {
                            match outcome {
                                Ok(response) => self.advance_post(
                                    at + 1,
                                    state.base_path,
                                    state.file_path,
                                    response,
                                ),
                                Err(e) => Self::finished(state, Err(e)),
                            }
                        } else {
                            (state, Action::Refuse)
                        }
                    },
                    _ => (state, Action::Refuse),
                }
            },
            Awaiting::Rejection => match event {
                Event::Rendered(result) => Self::finished(state, result),
                _ => (state, Action::Refuse),
            },
            Awaiting::FailurePage => match event {
                Event::Rendered(Ok(response)) => self.advance_post(
                    FIRST_TRANSFORM_AT,
                    state.base_path,
                    None,
                    response,
                ),
                Event::Rendered(Err(e)) => Self::finished(state, Err(e)),
                _ => (state, Action::Refuse),
            },
            Awaiting::Nothing => (state, Action::Refuse),
        }
    }

    fn finished<'a, R, E>(state: Dispatch, result: Result<R, E>) -> (r: (Dispatch, Action<'a, R, E>))
        ensures
            r == Self::finish(state, result),
    {
        (
            Dispatch {
                awaiting: Awaiting::Nothing,
                base_path: state.base_path,
                file_path: state.file_path,
            },
            Action::Finish(result),
        )
    }
}

} // verus!
