use vstd::prelude::*;

use crate::model::sample_servers;
use crate::model::Server;
use crate::render::dec_seq;
use crate::render::entries_text;
use crate::render::list_prefix;
use crate::render::list_suffix;
use crate::render::root_greeting;
use crate::render::root_html;
use crate::render::root_prefix;
use crate::render::server_entry;
use crate::render::RootPage;
use crate::render::ServerListPage;

verus! {

/// A failure of the request pipeline. `NotFound` answers an unmatched
/// request; `RenderError` reports that a page could not be rendered and
/// carries the cause. Every error maps to a response, never to a crash.
#[derive(Clone, Debug)]
pub enum WebuiError {
    NotFound,
    RenderError(String),
}

/// A plain HTTP response: the status code and the body text.
#[derive(Clone, Debug)]
pub struct HttpResponse {
    pub status: u16,
    pub body: String,
}

/// The body text of a render failure: a fixed prefix, then the cause.
pub open spec fn render_error_text(cause: Seq<char>) -> Seq<char> {
    "Failed to render template: "@ + cause
}

/// The human-readable message of an error.
pub open spec fn error_message(e: WebuiError) -> Seq<char> {
    match e {
        WebuiError::NotFound => "Page not found"@,
        WebuiError::RenderError(c) => render_error_text(c@),
    }
}

/// The HTTP status that reports an error: 404 for a missing page, 500 for
/// a render failure.
pub open spec fn error_status(e: WebuiError) -> u16 {
    match e {
        WebuiError::NotFound => 404,
        WebuiError::RenderError(_) => 500,
    }
}

impl WebuiError {
    /// The human-readable message, exactly `error_message`.
    pub fn message(&self) -> (r: String)
        ensures
            r@ == error_message(*self),
    {
        match self {
            WebuiError::NotFound => "Page not found".to_owned(),
            WebuiError::RenderError(c) => {
                let mut s: String = "Failed to render template: ".to_owned();
                s.append(c.as_str());
                s
            },
        }
    }

    /// The response that reports this error: status `error_status`, body
    /// `error_message`. The mapping is total and the status is always 404
    /// or 500.
    pub fn into_response(self) -> (r: HttpResponse)
        ensures
            r.status == error_status(self),
            r.body@ == error_message(self),
            r.status == 404 || r.status == 500,
    {
        let status: u16 = match &self {
            WebuiError::NotFound => 404,
            WebuiError::RenderError(_) => 500,
        };
        let body = self.message();
        HttpResponse { status, body }
    }
}

/// A registered route.
#[derive(Clone, Copy, Debug, PartialEq, Eq, Structural)]
pub enum Route {
    Root,
    Servers,
}

/// The fixed route table, built once and never mutated: GET "/" and
/// GET "/servers"; every other request is unmatched.
pub open spec fn route_of(method: Seq<char>, path: Seq<char>) -> Option<Route> {
    if method == "GET"@ && path == "/"@ {
        Some(Route::Root)
    } else if method == "GET"@ && path == "/servers"@ {
        Some(Route::Servers)
    } else {
        None
    }
}

/// Whether two pieces of text are equal.
fn str_eq(a: &str, b: &str) -> (r: bool)
    ensures
        r == (a@ == b@),
{
    let x = a.to_owned();
    let y = b.to_owned();
    x == y
}

/// Looks a request up in the fixed route table, exactly `route_of`.
pub fn dispatch(method: &str, path: &str) -> (r: Option<Route>)
    ensures
        r == route_of(method@, path@),
{
    if str_eq(method, "GET") {
        if str_eq(path, "/") {
            Some(Route::Root)
        } else if str_eq(path, "/servers") {
            Some(Route::Servers)
        } else {
            None
        }
    } else {
        None
    }
}

/// Handler of GET "/": always succeeds, with the rendered home page.
pub fn root() -> (r: Result<String, WebuiError>)
    ensures
        r matches Ok(b) && b@ == root_html(),
{
    Ok(RootPage.render())
}

/// The list entry shown for the first sample server.
pub open spec fn sample_entry_1() -> Seq<char> {
    "<li>Server 1 (127.0.0.1, Available)</li>"@
}

/// The list entry shown for the second sample server.
pub open spec fn sample_entry_2() -> Seq<char> {
    "<li>Server 2 (127.0.0.2, Busy)</li>"@
}

/// The list entry shown for the third sample server.
pub open spec fn sample_entry_3() -> Seq<char> {
    "<li>(unnamed) (127.0.0.3, Offline)</li>"@
}

/// The whole server-status page for the fixed sample data: the three
/// sample entries, in order, between the page's prefix and suffix.
pub open spec fn servers_page() -> Seq<char> {
    list_prefix() + sample_entry_1() + sample_entry_2() + sample_entry_3() + list_suffix()
}

proof fn lemma_sample_entry_1(s: Server)
    requires
        s.name matches Some(n) && n@ == "Server 1"@,
        s.ip == (crate::model::IpAddress::V4 { a: 127, b: 0, c: 0, d: 1 }),
        s.status == crate::model::ServerStatus::Available,
    ensures
        server_entry(s) == sample_entry_1(),
{
    reveal_with_fuel(dec_seq, 4);
    reveal_strlit("<li>");
    reveal_strlit("Server 1");
    reveal_strlit(" (");
    reveal_strlit(".");
    reveal_strlit(", ");
    reveal_strlit("Available");
    reveal_strlit(")</li>");
    reveal_strlit("<li>Server 1 (127.0.0.1, Available)</li>");
    assert(dec_seq(127) =~= seq!['1', '2', '7']);
    assert(dec_seq(0) =~= seq!['0']);
    assert(dec_seq(1) =~= seq!['1']);
    assert(server_entry(s) =~= sample_entry_1());
}

proof fn lemma_sample_entry_2(s: Server)
    requires
        s.name matches Some(n) && n@ == "Server 2"@,
        s.ip == (crate::model::IpAddress::V4 { a: 127, b: 0, c: 0, d: 2 }),
        s.status == crate::model::ServerStatus::Busy,
    ensures
        server_entry(s) == sample_entry_2(),
{
    reveal_with_fuel(dec_seq, 4);
    reveal_strlit("<li>");
    reveal_strlit("Server 2");
    reveal_strlit(" (");
    reveal_strlit(".");
    reveal_strlit(", ");
    reveal_strlit("Busy");
    reveal_strlit(")</li>");
    reveal_strlit("<li>Server 2 (127.0.0.2, Busy)</li>");
    assert(dec_seq(127) =~= seq!['1', '2', '7']);
    assert(dec_seq(0) =~= seq!['0']);
    assert(dec_seq(2) =~= seq!['2']);
    assert(server_entry(s) =~= sample_entry_2());
}

proof fn lemma_sample_entry_3(s: Server)
    requires
        s.name is None,
        s.ip == (crate::model::IpAddress::V4 { a: 127, b: 0, c: 0, d: 3 }),
        s.status == crate::model::ServerStatus::Offline,
    ensures
        server_entry(s) == sample_entry_3(),
{
    reveal_with_fuel(dec_seq, 4);
    reveal_strlit("<li>");
    reveal_strlit("(unnamed)");
    reveal_strlit(" (");
    reveal_strlit(".");
    reveal_strlit(", ");
    reveal_strlit("Offline");
    reveal_strlit(")</li>");
    reveal_strlit("<li>(unnamed) (127.0.0.3, Offline)</li>");
    assert(dec_seq(127) =~= seq!['1', '2', '7']);
    assert(dec_seq(0) =~= seq!['0']);
    assert(dec_seq(3) =~= seq!['3']);
    assert(server_entry(s) =~= sample_entry_3());
}

/// Handler of GET "/servers": always succeeds, with the page listing the
/// three sample servers in their fixed order.
pub fn server_list() -> (r: Result<String, WebuiError>)
    ensures
        r matches Ok(b) && b@ == servers_page(),
{
    let servers = sample_servers();
    let page = ServerListPage { servers };
    let body = page.render();
    proof {
        let ss = page.servers@;
        reveal_with_fuel(entries_text, 4);
        lemma_sample_entry_1(ss[0]);
        lemma_sample_entry_2(ss[1]);
        lemma_sample_entry_3(ss[2]);
        assert(ss.drop_last().drop_last().drop_last() =~= Seq::<Server>::empty());
        assert(ss.drop_last().drop_last().last() == ss[0]);
        assert(ss.drop_last().last() == ss[1]);
        assert(ss.last() == ss[2]);
        assert(entries_text(ss) =~= sample_entry_1() + sample_entry_2() + sample_entry_3());
        assert(body@ =~= servers_page());
    }
    Ok(body)
}

/// The status owed to a request: 200 for a matched route (both handlers
/// always succeed), 404 for an unmatched one.
pub open spec fn expected_status(method: Seq<char>, path: Seq<char>) -> u16 {
    match route_of(method, path) {
        Some(_) => 200,
        None => 404,
    }
}

/// The body owed to a request.
pub open spec fn expected_body(method: Seq<char>, path: Seq<char>) -> Seq<char> {
    match route_of(method, path) {
        Some(Route::Root) => root_html(),
        Some(Route::Servers) => servers_page(),
        None => "Page not found"@,
    }
}

/// Completes the pipeline for one handler outcome: a successful body is
/// returned as-is with status 200; an error is reported by `into_response`.
pub fn respond(outcome: Result<String, WebuiError>) -> (r: HttpResponse)
    ensures
        outcome matches Ok(b) ==> r.status == 200 && r.body@ == b@,
        outcome matches Err(e) ==> r.status == error_status(e) && r.body@ == error_message(e),
{
    match outcome {
        Ok(body) => HttpResponse { status: 200, body },
        Err(e) => e.into_response(),
    }
}

/// Serves one request: dispatches on the fixed route table, runs the
/// matched handler, and completes the response; an unmatched request is
/// answered by `NotFound`. The response depends on the request alone.
pub fn handle_request(method: &str, path: &str) -> (r: HttpResponse)
    ensures
        r.status == expected_status(method@, path@),
        r.body@ == expected_body(method@, path@),
        r.status == 200 || r.status == 404,
{
    match dispatch(method, path) {
        Some(Route::Root) => respond(root()),
        Some(Route::Servers) => respond(server_list()),
        None => respond(Err(WebuiError::NotFound)),
    }
}

/// Whether `needle` occurs somewhere in `hay`.
pub open spec fn contains_seq(hay: Seq<char>, needle: Seq<char>) -> bool {
    exists|i: int|
        0 <= i && i + needle.len() <= hay.len() && #[trigger] hay.subrange(i, i + needle.len())
            == needle
}

/// The home page is never empty and shows the greeting.
pub proof fn lemma_root_page_greets()
    ensures
        root_html().len() > 0,
        contains_seq(root_html(), root_greeting()),
{
    reveal_strlit("Welcome to the server status page!");
    let i = root_prefix().len() as int;
    assert(root_html().subrange(i, i + root_greeting().len()) =~= root_greeting());
}

/// The server-status page lists exactly the three sample entries, in their
/// fixed order: they stand consecutively between the page's prefix and
/// suffix, and nothing else does.
pub proof fn lemma_servers_page_lists_three_in_order()
    ensures
        servers_page().subrange(
            list_prefix().len() as int,
            list_prefix().len() as int + sample_entry_1().len(),
        ) == sample_entry_1(),
        servers_page().subrange(
            list_prefix().len() as int + sample_entry_1().len(),
            list_prefix().len() as int + sample_entry_1().len() + sample_entry_2().len(),
        ) == sample_entry_2(),
        servers_page().subrange(
            list_prefix().len() as int + sample_entry_1().len() + sample_entry_2().len(),
            list_prefix().len() as int + sample_entry_1().len() + sample_entry_2().len()
                + sample_entry_3().len(),
        ) == sample_entry_3(),
        servers_page().len() == list_prefix().len() + sample_entry_1().len()
            + sample_entry_2().len() + sample_entry_3().len() + list_suffix().len(),
{
    assert(servers_page().subrange(
        list_prefix().len() as int,
        list_prefix().len() as int + sample_entry_1().len(),
    ) =~= sample_entry_1());
    assert(servers_page().subrange(
        list_prefix().len() as int + sample_entry_1().len(),
        list_prefix().len() as int + sample_entry_1().len() + sample_entry_2().len(),
    ) =~= sample_entry_2());
    assert(servers_page().subrange(
        list_prefix().len() as int + sample_entry_1().len() + sample_entry_2().len(),
        list_prefix().len() as int + sample_entry_1().len() + sample_entry_2().len()
            + sample_entry_3().len(),
    ) =~= sample_entry_3());
}

/// A render failure's report opens with the fixed failure text, whatever
/// the cause was.
pub proof fn lemma_render_failure_text(cause: Seq<char>)
    ensures
        render_error_text(cause).len() >= "Failed to render template: "@.len(),
        render_error_text(cause).subrange(
            0,
            "Failed to render template: "@.len() as int,
        ) == "Failed to render template: "@,
{
    assert(render_error_text(cause).subrange(
        0,
        "Failed to render template: "@.len() as int,
    ) =~= "Failed to render template: "@);
}

/// Every response of the pipeline has status 200, 404 or 500: a served
/// request is answered with 200 or 404, a missing page with 404, and a
/// render failure with 500.
pub proof fn lemma_status_total(method: Seq<char>, path: Seq<char>)
    ensures
        expected_status(method, path) == 200 || expected_status(method, path) == 404,
        forall|e: WebuiError| e is NotFound ==> error_status(e) == 404,
        forall|e: WebuiError| e is RenderError ==> error_status(e) == 500,
{
}

/// An unmatched request — any method other than GET, or any path other
/// than the two registered ones — is answered with 404.
pub proof fn lemma_unmatched_is_404(method: Seq<char>, path: Seq<char>)
    requires
        !(method == "GET"@ && (path == "/"@ || path == "/servers"@)),
    ensures
        expected_status(method, path) == 404,
        expected_body(method, path) == "Page not found"@,
{
}

/// Responses depend on the request alone: two responses that meet the
/// pipeline's contract for the same request are identical.
pub proof fn lemma_identical_responses(
    method: Seq<char>,
    path: Seq<char>,
    r1: HttpResponse,
    r2: HttpResponse,
)
    requires
        r1.status == expected_status(method, path),
        r1.body@ == expected_body(method, path),
        r2.status == expected_status(method, path),
        r2.body@ == expected_body(method, path),
    ensures
        r1.status == r2.status,
        r1.body@ == r2.body@,
{
}

} // verus!
