//! The whole service as one decision: which guards a route runs, in which
//! order, and what follows.

use vstd::prelude::*;
use crate::auth::{authorized, Authenticated};
use crate::credentials::Credentials;
use crate::handlers::{index, retrieve, retrieve_plan, test_auth, Step, StepView};
use crate::request::{Request, RequestView};
use crate::response::{bare, challenge, text, unauthorized_catcher, Response, Status};
use crate::site_url::SiteURL;

verus! {

/// The routes of the service.
#[derive(Debug)]
pub enum Route {
    /// `GET /`: the banner. The one route that is not protected.
    Index,
    /// `GET /test_auth`: tells a client whether its credentials are right.
    TestAuth,
    /// `POST /upload`: stores the body of the request.
    Upload,
    /// `GET /<name>`: hands out the paste of that name.
    Retrieve(String),
}

/// The mathematical content of a [`Route`].
pub enum RouteView {
    Index,
    TestAuth,
    Upload,
    Retrieve(Seq<char>),
}

impl View for Route {
    type V = RouteView;

    open spec fn view(&self) -> RouteView {
        match *self {
            Route::Index => RouteView::Index,
            Route::TestAuth => RouteView::TestAuth,
            Route::Upload => RouteView::Upload,
            Route::Retrieve(name) => RouteView::Retrieve(name@),
        }
    }
}

impl RouteView {
    /// Whether the route is behind the authorization guard.
    pub open spec fn is_protected(self) -> bool {
        !(self is Index)
    }
}

/// What a protected route does with a request: `then` where the request
/// carries the configured credentials; the challenge, and nothing else,
/// where it does not.
pub open spec fn guarded(request: RequestView, secrets: (Seq<char>, Seq<char>), then: StepView)
    -> StepView {
    if authorized(request.credentials, secrets) {
        then
    } else {
        StepView::Respond(challenge())
    }
}

/// What the service does with a request. The banner is served to anyone.
/// Every other route first runs the authorization guard. An upload then
/// needs a site address, and without one is a bad request; with one, its
/// body is read next.
pub open spec fn plan(route: RouteView, request: RequestView, secrets: (Seq<char>, Seq<char>))
    -> StepView {
    match route {
        RouteView::Index => StepView::Respond(text(Status::Success, "litebin."@)),
        RouteView::TestAuth => guarded(
            request,
            secrets,
            StepView::Respond(text(Status::Success, "Test Authentication."@)),
        ),
        RouteView::Upload => guarded(
            request,
            secrets,
            match request.host {
                Some(host) => StepView::ReadBody { site_url: host },
                None => StepView::Respond(bare(Status::BadRequest)),
            },
        ),
        RouteView::Retrieve(name) => guarded(request, secrets, retrieve_plan(name)),
    }
}

/// Decides what is to happen for a request on a route: see [`plan`].
pub fn handle(route: &Route, request: &Request, secrets: &Credentials) -> (step: Step)
    ensures
        step@ == plan(route@, request@, secrets@),
{
    if let Route::Index = route {
        return Step::Respond(Response::from_text(Status::Success, index()));
    }
    let auth = match Authenticated::from_request(request, secrets) {
        Ok(auth) => auth,
        Err(_) => {
            return Step::Respond(unauthorized_catcher());
        },
    };
    match route {
        Route::Index => Step::Respond(Response::from_text(Status::Success, index())),
        Route::TestAuth => Step::Respond(Response::from_text(Status::Success, test_auth(auth))),
        Route::Upload => match SiteURL::from_request(request) {
            Ok(site_url) => Step::ReadBody { auth, site_url },
            Err(_) => Step::Respond(Response::from_status(Status::BadRequest)),
        },
        Route::Retrieve(name) => retrieve(name.as_str(), auth),
    }
}

} // verus!
