use vstd::prelude::*;

use crate::json::str_eq;

verus! {

broadcast use vstd::string::group_string_axioms;

/// The pages of the application.
#[derive(Clone, Copy, Debug, PartialEq, Eq, Structural)]
pub enum Route {
    Home,
    Hello,
    NotFound,
    RESTStuff,
}

/// The page a path leads to: the four known paths each name a page, and
/// every other path falls through to the not-found page.
pub open spec fn spec_route_for_path(p: Seq<char>) -> Route {
    if p == "/"@ {
        Route::Home
    } else if p == "/hello"@ {
        Route::Hello
    } else if p == "/dbstuff"@ {
        Route::RESTStuff
    } else {
        Route::NotFound
    }
}

/// The path under which a page is reached.
pub open spec fn spec_path_of_route(r: Route) -> Seq<char> {
    match r {
        Route::Home => "/"@,
        Route::Hello => "/hello"@,
        Route::NotFound => "/404"@,
        Route::RESTStuff => "/dbstuff"@,
    }
}

/// Map a path to the page it leads to.
pub fn route_for_path(p: &str) -> (r: Route)
    ensures
        r == spec_route_for_path(p@),
{
    if str_eq(p, "/") {
        Route::Home
    } else if str_eq(p, "/hello") {
        Route::Hello
    } else if str_eq(p, "/dbstuff") {
        Route::RESTStuff
    } else {
        Route::NotFound
    }
}

/// The path under which a page is reached.
pub fn path_of_route(r: Route) -> (p: String)
    ensures
        p@ == spec_path_of_route(r),
{
    match r {
        Route::Home => String::from_str("/"),
        Route::Hello => String::from_str("/hello"),
        Route::NotFound => String::from_str("/404"),
        Route::RESTStuff => String::from_str("/dbstuff"),
    }
}

/// Every page's own path routes back to that page.
pub proof fn lemma_route_round_trip(r: Route)
    ensures
        spec_route_for_path(spec_path_of_route(r)) == r,
{
    reveal_strlit("/");
    reveal_strlit("/hello");
    reveal_strlit("/404");
    reveal_strlit("/dbstuff");
    assert("/"@.len() == 1);
    assert("/hello"@.len() == 6);
    assert("/404"@.len() == 4);
    assert("/dbstuff"@.len() == 8);
}

} // verus!
