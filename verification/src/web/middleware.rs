//! # Middleware
//!
//! Defines the [`Middleware`] control value returned by middleware, and the
//! order in which a matched route's middleware and handler run: each
//! middleware in turn while they answer [`Middleware::Next`], then the
//! handler; a [`Middleware::Stop`] ends the chain and the response is sent
//! as it stands.

use vstd::prelude::*;

use crate::web::http_code::HttpCode;
use crate::web::http_request::Parsers;
use crate::web::response::{Response, moved_to_back};

verus! {

/// # Middleware
///
/// An enum that describes the action the router should take when encountered.
#[derive(Debug, Clone, Copy, PartialEq, Eq, Structural)]
pub enum Middleware {
    /// Stop
    ///
    /// Notifies the router to STOP and return the information thus far.
    Stop,
    /// Next
    ///
    /// Notifies the router to continue onward.
    Next,
}

/// What the connection handler does next for a matched route.
#[derive(Debug, Clone, Copy, PartialEq, Eq, Structural)]
pub enum Step {
    /// Run the middleware at this position.
    RunMiddleware(usize),
    /// Run the route's handler.
    RunHandler,
    /// Send the response as it stands.
    Respond,
}

/// The first step for a route: nothing runs without a handler; otherwise the
/// first middleware, or the handler when there is no middleware.
pub fn first_step(has_handler: bool, middleware_count: usize) -> (r: Step)
    ensures
        r == (if !has_handler {
            Step::Respond
        } else if middleware_count > 0 {
            Step::RunMiddleware(0)
        } else {
            Step::RunHandler
        }),
{
    if !has_handler {
        Step::Respond
    } else if middleware_count > 0 {
        Step::RunMiddleware(0)
    } else {
        Step::RunHandler
    }
}

/// The step after the middleware at `index` answered `result`: `Stop` sends
/// the response; `Next` runs the following middleware, or the handler after
/// the last one.
pub fn after_middleware(index: usize, middleware_count: usize, result: Middleware) -> (r: Step)
    requires
        index < middleware_count,
    ensures
        r == (match result {
            Middleware::Stop => Step::Respond,
            Middleware::Next => if index + 1 < middleware_count {
                Step::RunMiddleware((index + 1) as usize)
            } else {
                Step::RunHandler
            },
        }),
{
    match result {
        Middleware::Stop => Step::Respond,
        Middleware::Next => if index + 1 < middleware_count {
            Step::RunMiddleware(index + 1)
        } else {
            Step::RunHandler
        },
    }
}

/// The step reached after the middleware answered `results` in turn
/// (starting from [`first_step`]).
pub open spec fn step_after(has_handler: bool, count: nat, results: Seq<Middleware>) -> Step
    decreases results.len(),
{
    if results.len() == 0 {
        if !has_handler {
            Step::Respond
        } else if count > 0 {
            Step::RunMiddleware(0)
        } else {
            Step::RunHandler
        }
    } else {
        match step_after(has_handler, count, results.drop_last()) {
            Step::RunMiddleware(i) => match results.last() {
                Middleware::Stop => Step::Respond,
                Middleware::Next => if i + 1 < count {
                    Step::RunMiddleware((i + 1) as usize)
                } else {
                    Step::RunHandler
                },
            },
            s => s,
        }
    }
}

/// The handler of a matched route runs exactly when the route has a handler
/// and every one of its middleware answered `Next`: after `k` answers that
/// were all `Next`, the `k`-th middleware runs next, or the handler once all
/// have answered; a `Stop` sends the response at once.
pub proof fn lemma_handler_runs_after_all_next(has_handler: bool, count: nat, results: Seq<Middleware>)
    requires
        has_handler,
        results.len() <= count,
        count <= usize::MAX,
    ensures
        (forall|i: int| 0 <= i < results.len() ==> results[i] == Middleware::Next) ==> step_after(
            has_handler,
            count,
            results,
        ) == (if results.len() < count {
            Step::RunMiddleware(results.len() as usize)
        } else {
            Step::RunHandler
        }),
        (exists|i: int| 0 <= i < results.len() && results[i] == Middleware::Stop) ==> step_after(
            has_handler,
            count,
            results,
        ) == Step::Respond,
    decreases results.len(),
{
    if results.len() > 0 {
        let prev = results.drop_last();
        lemma_handler_runs_after_all_next(has_handler, count, prev);
        if exists|i: int| 0 <= i < results.len() && results[i] == Middleware::Stop {
            let i = choose|i: int| 0 <= i < results.len() && results[i] == Middleware::Stop;
            if i < prev.len() {
                assert(prev[i] == Middleware::Stop);
            }
        }
        if forall|i: int| 0 <= i < results.len() ==> results[i] == Middleware::Next {
            assert(forall|i: int| 0 <= i < prev.len() ==> prev[i] == results[i]);
        }
    }
}

/// The response sent when a request cannot be read: status `404` and a
/// `Content-Length` of `0`.
pub fn parse_failure_response(parser: &Parsers) -> (r: Response)
    ensures
        r.code() == HttpCode::NotFound,
        r.header_list() == moved_to_back(
            Seq::<(Seq<char>, Seq<char>)>::empty(),
            "Content-Length"@,
            "0"@,
        ),
        r.body_bytes() is None,
        r.framing() == *parser,
{
    let mut res = Response::new(parser);
    res.status(HttpCode::NotFound);
    res.set_header("Content-Length", "0");
    res
}

} // verus!
