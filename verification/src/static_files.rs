//! Static files under `static/`, and the error pages for 404 and 401.
use vstd::prelude::*;
use vstd::string::*;
use crate::http::{owned, Catcher, CatcherSpec, Handler, Method, RouteSpec, NOT_FOUND, UNAUTHORIZED};

verus! {

/// The routes of this module, as (method, path, rank, handler), in mounting order.
pub open spec fn route_table() -> Seq<(Method, Seq<char>, Option<isize>, Handler)> {
    seq![
        (Method::Get, "/static/<file..>"@, Some(3isize), Handler::Files),
    ]
}

/// The routes of this module.
pub fn routes() -> (r: Vec<RouteSpec>)
    ensures
        r@.map_values(|s: RouteSpec| s@) == route_table(),
{
    let r = vec![
        RouteSpec {
            method: Method::Get,
            path: "/static/<file..>",
            rank: Some(3),
            handler: Handler::Files,
        },
    ];
    assert(r@.map_values(|s: RouteSpec| s@) =~= route_table());
    r
}

/// The error handlers of this module: the 404 page and the 401 page.
pub fn err() -> (r: Vec<CatcherSpec>)
    ensures
        r@ == seq![
            CatcherSpec { code: NOT_FOUND, catcher: Catcher::NotFound },
            CatcherSpec { code: UNAUTHORIZED, catcher: Catcher::Blocked },
        ],
{
    let r = vec![
        CatcherSpec { code: NOT_FOUND, catcher: Catcher::NotFound },
        CatcherSpec { code: UNAUTHORIZED, catcher: Catcher::Blocked },
    ];
    assert(r@ =~= seq![
        CatcherSpec { code: NOT_FOUND, catcher: Catcher::NotFound },
        CatcherSpec { code: UNAUTHORIZED, catcher: Catcher::Blocked },
    ]);
    r
}

/// The path `static/` joined with `file`, as `Path::join` joins them: an
/// absolute `file` stands for itself.
pub open spec fn static_path(file: Seq<char>) -> Seq<char> {
    if file.len() > 0 && file[0] == '/' {
        file
    } else {
        "static/"@ + file
    }
}

/// The path of the file that a request for `/static/<file>` is served from;
/// the application opens it, and answers 404 when it cannot.
pub fn files(file: &str) -> (p: String)
    ensures
        p@ == static_path(file@),
{
    if file.unicode_len() > 0 && file.get_char(0) == '/' {
        owned(file)
    } else {
        let mut p = owned("static/");
        p.append(file);
        p
    }
}

/// The page that answers a 404.
pub fn not_found_page() -> (p: &'static str)
    ensures
        p@ == "static/404_Not_Found.html"@,
{
    "static/404_Not_Found.html"
}

/// The page that answers a 401.
pub fn blocked_page() -> (p: &'static str)
    ensures
        p@ == "static/401_Unauthorized.html"@,
{
    "static/401_Unauthorized.html"
}

/// The answer to a 404, given the 404 page if it exists and could be opened:
/// that page, or else a plain text, so that a missing error page does not
/// itself end in an error page.
pub fn not_found<F>(page: Option<F>) -> (r: Result<F, String>)
    ensures
        match page {
            Some(f) => r == Ok::<F, String>(f),
            None => r matches Err(msg) && msg@ == "404 - Not found"@,
        },
{
    match page {
        Some(f) => Ok(f),
        None => Err(owned("404 - Not found")),
    }
}

/// The answer to a 401, given the 401 page if it exists and could be opened:
/// that page, or else a plain text.
pub fn blocked<F>(page: Option<F>) -> (r: Result<F, String>)
    ensures
        match page {
            Some(f) => r == Ok::<F, String>(f),
            None => r matches Err(msg) && msg@ == "401 - Access Denied"@,
        },
{
    match page {
        Some(f) => Ok(f),
        None => Err(owned("401 - Access Denied")),
    }
}

} // verus!
