//! Type-safe routing over an application-defined route type.
//!
//! A route type implements [`Route`] to convert to and from URL paths; the
//! [`Router`] keeps the current route and a navigation history supporting
//! back navigation.

use vstd::prelude::*;

verus! {

/// A route that can be converted to and from a path. Implemented by the
/// application's own route type.
pub trait Route: Sized {
    /// Convert this route to a URL path.
    fn to_path(&self) -> String;

    /// Try to parse a URL path into this route.
    fn from_path(path: &str) -> Result<Self, RouteError>;
}

/// Errors that can occur during routing.
#[derive(Debug, Clone)]
pub enum RouteError {
    /// The path didn't match any known route.
    NotFound(String),
    /// The path matched a route but had an invalid parameter.
    InvalidParameter {
        /// The route whose parameter failed to parse.
        route: String,
        /// The offending parameter.
        parameter: String,
        /// Why the parameter was rejected.
        error: String,
    },
}

/// The rendered message of a routing error.
pub open spec fn spec_route_error_message(e: RouteError) -> Seq<char> {
    match e {
        RouteError::NotFound(path) => "Route not found: "@ + path@,
        RouteError::InvalidParameter { route, parameter, error } => "Invalid parameter '"@
            + parameter@ + "' for route '"@ + route@ + "': "@ + error@,
    }
}

impl RouteError {
    /// Render the error as one line of text.
    pub fn message(&self) -> (r: String)
        ensures
            r@ == spec_route_error_message(*self),
    {
        match self {
            RouteError::NotFound(path) => {
                let r = String::from_str("Route not found: ").concat(path.as_str());
                r
            },
            RouteError::InvalidParameter { route, parameter, error } => {
                let mut r = String::from_str("Invalid parameter '");
                r.append(parameter.as_str());
                r.append("' for route '");
                r.append(route.as_str());
                r.append("': ");
                r.append(error.as_str());
                proof {
                    assert(r@ =~= spec_route_error_message(*self));
                }
                r
            },
        }
    }
}

/// A router that manages navigation between routes.
pub struct Router<R: Route> {
    current_route: R,
    history: Vec<R>,
}

impl<R: Route> Router<R> {
    /// The route currently shown.
    pub closed spec fn spec_current(&self) -> R {
        self.current_route
    }

    /// Previously visited routes, oldest first.
    pub closed spec fn spec_history(&self) -> Seq<R> {
        self.history@
    }

    /// Create a new router showing `initial_route`, with empty history.
    pub fn new(initial_route: R) -> (r: Self)
        ensures
            r.spec_current() == initial_route,
            r.spec_history().len() == 0,
    {
        Router { current_route: initial_route, history: Vec::new() }
    }

    /// The current route.
    pub fn current(&self) -> (r: &R)
        ensures
            *r == self.spec_current(),
    {
        &self.current_route
    }

    /// Navigate to `route`, remembering the route left behind.
    pub fn navigate(&mut self, route: R)
        ensures
            final(self).spec_current() == route,
            final(self).spec_history() == old(self).spec_history().push(
                old(self).spec_current(),
            ),
    {
        let mut old_route = route;
        core::mem::swap(&mut self.current_route, &mut old_route);
        self.history.push(old_route);
    }

    /// Return to the previous route, if any.
    pub fn go_back(&mut self) -> (r: Option<()>)
        ensures
            if old(self).spec_history().len() == 0 {
                &&& r is None
                &&& final(self).spec_current() == old(self).spec_current()
                &&& final(self).spec_history() == old(self).spec_history()
            } else {
                &&& r is Some
                &&& final(self).spec_current() == old(self).spec_history().last()
                &&& final(self).spec_history() == old(self).spec_history().drop_last()
            },
    {
        match self.history.pop() {
            Some(previous) => {
                self.current_route = previous;
                Some(())
            },
            None => None,
        }
    }

    /// Whether there is a previous route to return to.
    pub fn can_go_back(&self) -> (r: bool)
        ensures
            r == (self.spec_history().len() > 0),
    {
        self.history.len() > 0
    }
}

} // verus!
