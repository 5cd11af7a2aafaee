use tower_htmx::error::{Error, ErrorKind, RewriteError};
use tower_htmx::message::{Fragment, RequestHead, ResponseHead};
use tower_htmx::service::{Action, Composer, Event, HtmxRewriteLayer, HtmxRewriteService, Phase};
use tower_htmx::uri::Target;

type Site = fn(&str) -> Option<(&'static str, Vec<u8>)>;

fn request(path: &str, query: Option<&str>, depth: Option<usize>) -> RequestHead {
    RequestHead { target: Target { path: path.to_string(), query: query.map(|q| q.to_string()) }, depth }
}

fn html_head(len: usize) -> ResponseHead {
    ResponseHead { content_type: Some("text/html".to_string()), content_length: Some(len), context: None }
}

enum Reply {
    Pass,
    Unchanged(Vec<u8>),
    Rewritten(Vec<u8>),
    Failed(Error<String, String, RewriteError>),
}

/// Drives one composer to its end against a site, and counts the fetches.
fn serve(site: Site, req: RequestHead, fetched: &mut Vec<String>) -> Reply {
    let mut composer = Composer::new();
    let mut action: Action<String, String> = composer.step(Event::Request(req));
    loop {
        action = match action {
            Action::Forward(forward) => match site(&forward.target.path) {
                Some((content_type, body)) => {
                    let head = ResponseHead {
                        content_type: Some(content_type.to_string()),
                        content_length: Some(body.len()),
                        context: None,
                    };
                    match composer.step(Event::Response(head)) {
                        Action::Buffer => composer.step(Event::Body(body)),
                        other => other,
                    }
                },
                None => composer.step(Event::DispatchFailed("no such page".to_string())),
            },
            Action::Fetch(sub) => {
                fetched.push(sub.target.path.clone());
                let inner = request(&sub.target.path, sub.target.query.as_deref(), Some(sub.depth));
                match serve(site, inner, fetched) {
                    Reply::Pass => {
                        let (content_type, body) = site(&sub.target.path).unwrap();
                        composer.step(Event::Fetched(Fragment { content_type: Some(content_type.to_string()), body }))
                    },
                    Reply::Unchanged(body) | Reply::Rewritten(body) => composer.step(
                        Event::Fetched(Fragment { content_type: Some("text/html".to_string()), body }),
                    ),
                    Reply::Failed(Error::Future(e)) => composer.step(Event::DispatchFailed(e)),
                    Reply::Failed(Error::Body(e)) => composer.step(Event::BodyFailed(e)),
                    Reply::Failed(Error::Rewrite(e)) => composer.step(Event::DispatchFailed(e.message())),
                }
            },
            Action::Pass => return Reply::Pass,
            Action::PassBuffered(body) => return Reply::Unchanged(body),
            Action::Rewritten { body, content_length } => {
                assert_eq!(content_length, body.len());
                return Reply::Rewritten(body);
            },
            Action::Fail(error) => return Reply::Failed(error),
            Action::Buffer | Action::Invalid => panic!("the composer asked for something out of turn"),
        };
    }
}

fn rewritten(reply: Reply) -> String {
    match reply {
        Reply::Rewritten(body) => String::from_utf8(body).unwrap(),
        Reply::Unchanged(_) => panic!("the document was passed on"),
        Reply::Pass => panic!("the response was passed on"),
        Reply::Failed(e) => panic!("the composition failed: {:?}", e),
    }
}

fn one_fragment_site(path: &str) -> Option<(&'static str, Vec<u8>)> {
    match path {
        "/page" => Some(("text/html", b"<p>a</p><div hx-get=\"/frag\" hx-trigger=\"server\">old</div><p>z</p>".to_vec())),
        "/frag" => Some(("text/html", b"<b>hi</b>".to_vec())),
        _ => None,
    }
}

#[test]
fn a_fragment_replaces_the_inner_content_by_default() {
    let mut fetched = Vec::new();
    let out = rewritten(serve(one_fragment_site, request("/page", None, None), &mut fetched));
    assert_eq!(out, "<p>a</p><div hx-get=\"/frag\" hx-trigger=\"server\"><b>hi</b></div><p>z</p>");
    assert_eq!(fetched, vec!["/frag".to_string()]);
}

fn swap_site(path: &str) -> Option<(&'static str, Vec<u8>)> {
    let page = |mode: &str| {
        format!("<i>a</i><div hx-get=\"/frag\" hx-trigger=\"server\" hx-swap=\"{}\">old</div><i>z</i>", mode).into_bytes()
    };
    match path {
        "/inner" => Some(("text/html", page("innerHTML"))),
        "/outer" => Some(("text/html", page("outerHTML"))),
        "/afterbegin" => Some(("text/html", page("afterbegin"))),
        "/beforebegin" => Some(("text/html", page("beforebegin"))),
        "/beforeend" => Some(("text/html", page("beforeend"))),
        "/afterend" => Some(("text/html", page("afterend"))),
        "/delete" => Some(("text/html", page("delete"))),
        "/unknown" => Some(("text/html", page("sideways"))),
        "/frag" => Some(("text/html", b"<b>hi</b>".to_vec())),
        _ => None,
    }
}

fn swapped(path: &str) -> String {
    let mut fetched = Vec::new();
    let out = rewritten(serve(swap_site, request(path, None, None), &mut fetched));
    assert_eq!(fetched, vec!["/frag".to_string()]);
    out
}

#[test]
fn every_swap_mode_merges_in_its_place() {
    let open = |mode: &str| format!("<div hx-get=\"/frag\" hx-trigger=\"server\" hx-swap=\"{}\">", mode);
    assert_eq!(swapped("/inner"), format!("<i>a</i>{}<b>hi</b></div><i>z</i>", open("innerHTML")));
    assert_eq!(swapped("/outer"), "<i>a</i><b>hi</b><i>z</i>");
    assert_eq!(swapped("/afterbegin"), format!("<i>a</i>{}<b>hi</b>old</div><i>z</i>", open("afterbegin")));
    assert_eq!(swapped("/beforebegin"), format!("<i>a</i><b>hi</b>{}old</div><i>z</i>", open("beforebegin")));
    assert_eq!(swapped("/beforeend"), format!("<i>a</i>{}old<b>hi</b></div><i>z</i>", open("beforeend")));
    assert_eq!(swapped("/afterend"), format!("<i>a</i>{}old</div><b>hi</b><i>z</i>", open("afterend")));
}

#[test]
fn delete_removes_the_element_and_still_fetches() {
    assert_eq!(swapped("/delete"), "<i>a</i><i>z</i>");
}

#[test]
fn an_unknown_swap_mode_changes_nothing_and_still_fetches() {
    assert_eq!(
        swapped("/unknown"),
        "<i>a</i><div hx-get=\"/frag\" hx-trigger=\"server\" hx-swap=\"sideways\">old</div><i>z</i>"
    );
}

fn text_site(path: &str) -> Option<(&'static str, Vec<u8>)> {
    match path {
        "/page" => Some(("text/html; charset=utf-8", b"<div hx-get=\"/note\" hx-trigger=\"server\"></div>".to_vec())),
        "/note" => Some(("text/plain", b"1 < 2 & 3 > 2".to_vec())),
        "/binary" => Some(("text/html", b"<div hx-get=\"/bytes\" hx-trigger=\"server\"></div>".to_vec())),
        "/bytes" => Some(("application/octet-stream", vec![0xff, 0xfe, 0x00])),
        _ => None,
    }
}

#[test]
fn a_fragment_that_is_not_html_is_escaped() {
    let mut fetched = Vec::new();
    let out = rewritten(serve(text_site, request("/page", None, None), &mut fetched));
    assert_eq!(out, "<div hx-get=\"/note\" hx-trigger=\"server\">1 &lt; 2 &amp; 3 &gt; 2</div>");
}

#[test]
fn a_fragment_that_is_not_utf8_fails_the_composition() {
    let mut fetched = Vec::new();
    match serve(text_site, request("/binary", None, None), &mut fetched) {
        Reply::Failed(Error::Rewrite(e)) => assert_eq!(e.kind(), ErrorKind::InvalidText),
        _ => panic!("expected a rewrite error"),
    }
}

fn plain_site(path: &str) -> Option<(&'static str, Vec<u8>)> {
    match path {
        "/plain" => Some(("text/html", b"<!DOCTYPE html><html><!-- c --><body><p>no directives</p></body></html>".to_vec())),
        "/untriggered" => Some(("text/html", b"<div hx-get=\"/frag\">kept</div>".to_vec())),
        "/data" => Some(("application/json", b"{\"hx-get\": 1}".to_vec())),
        _ => None,
    }
}

#[test]
fn a_document_without_directives_is_passed_on_byte_for_byte() {
    let mut fetched = Vec::new();
    match serve(plain_site, request("/plain", None, None), &mut fetched) {
        Reply::Unchanged(body) => assert_eq!(body, plain_site("/plain").unwrap().1),
        _ => panic!("expected the document as it was read"),
    }
    assert!(fetched.is_empty());
}

#[test]
fn a_directive_without_the_server_trigger_is_no_directive() {
    let mut fetched = Vec::new();
    match serve(plain_site, request("/untriggered", None, None), &mut fetched) {
        Reply::Unchanged(body) => assert_eq!(body, b"<div hx-get=\"/frag\">kept</div>".to_vec()),
        _ => panic!("expected the document as it was read"),
    }
    assert!(fetched.is_empty());
}

#[test]
fn a_response_that_is_not_html_is_passed_on_unread() {
    let mut fetched = Vec::new();
    assert!(matches!(serve(plain_site, request("/data", None, None), &mut fetched), Reply::Pass));
}

#[test]
fn a_response_without_a_length_is_passed_on_unread() {
    let mut composer = Composer::new();
    let _: Action<String, String> = composer.step(Event::Request(request("/page", None, None)));
    let head = ResponseHead { content_type: Some("text/html".to_string()), content_length: None, context: None };
    let action: Action<String, String> = composer.step(Event::Response(head));
    assert!(matches!(action, Action::Pass));
    assert_eq!(composer.phase, Phase::Done);
}

fn chain_site(path: &str) -> Option<(&'static str, Vec<u8>)> {
    // /c0 includes /c1, which includes /c2, and so on; /c10 and /d11 are leaves.
    const LINKS: [(&str, &str); 21] = [
        ("/c0", "/c1"), ("/c1", "/c2"), ("/c2", "/c3"), ("/c3", "/c4"), ("/c4", "/c5"),
        ("/c5", "/c6"), ("/c6", "/c7"), ("/c7", "/c8"), ("/c8", "/c9"), ("/c9", "/c10"),
        ("/d0", "/d1"), ("/d1", "/d2"), ("/d2", "/d3"), ("/d3", "/d4"), ("/d4", "/d5"),
        ("/d5", "/d6"), ("/d6", "/d7"), ("/d7", "/d8"), ("/d8", "/d9"), ("/d9", "/d10"),
        ("/d10", "/d11"),
    ];
    if path == "/c10" || path == "/d11" {
        return Some(("text/html", b"<b>leaf</b>".to_vec()));
    }
    for (from, to) in LINKS.iter() {
        if *from == path {
            let page = format!("<div hx-get=\"{}\" hx-trigger=\"server\" hx-swap=\"outerHTML\"></div>", to);
            return Some(("text/html", page.into_bytes()));
        }
    }
    None
}

#[test]
fn ten_nested_fragments_are_resolved() {
    let mut fetched = Vec::new();
    let out = rewritten(serve(chain_site, request("/c0", None, None), &mut fetched));
    assert_eq!(out, "<b>leaf</b>");
    assert_eq!(fetched.len(), 10);
    assert_eq!(fetched[9], "/c10");
}

#[test]
fn the_eleventh_nested_fragment_is_refused() {
    let mut fetched = Vec::new();
    let reply = serve(chain_site, request("/d0", None, None), &mut fetched);
    assert!(matches!(reply, Reply::Failed(_)));
    // ten requests went out; the page that the tenth fetched asked for an eleventh
    assert_eq!(fetched.len(), 10);
    assert_eq!(fetched[9], "/d10");
    // seen from the page at the ceiling, the error is the recursion limit
    let mut deepest = Vec::new();
    match serve(chain_site, request("/d10", None, Some(10)), &mut deepest) {
        Reply::Failed(Error::Rewrite(e)) => assert_eq!(e.kind(), ErrorKind::RecursionLimit),
        _ => panic!("expected the recursion limit"),
    }
    assert!(deepest.is_empty());
}

#[test]
fn a_request_at_depth_nine_may_fetch_once_more() {
    let mut fetched = Vec::new();
    let out = rewritten(serve(chain_site, request("/c9", None, Some(9)), &mut fetched));
    assert_eq!(out, "<b>leaf</b>");
    assert_eq!(fetched, vec!["/c10".to_string()]);
}

fn child_site(path: &str) -> Option<(&'static str, Vec<u8>)> {
    match path {
        "/a" => Some(("text/html", b"<h1>page a</h1>".to_vec())),
        "/b" => Some((
            "text/html",
            b"<main hx-get=\"[child]\" hx-trigger=\"server\"></main><aside hx-get=\"[child]\" hx-trigger=\"server\">x</aside>"
                .to_vec(),
        )),
        _ => None,
    }
}

#[test]
fn child_stands_for_the_page_that_named_the_parent() {
    let mut composer = Composer::new();
    let action: Action<String, String> = composer.step(Event::Request(request("/a", Some("parent=/b"), None)));
    match action {
        Action::Forward(forward) => {
            assert_eq!(forward.target.path, "/b");
            assert_eq!(forward.target.query, None);
        },
        _ => panic!("expected the request to be forwarded"),
    }
    let mut fetched = Vec::new();
    let out = rewritten(serve(child_site, request("/a", Some("parent=/b"), None), &mut fetched));
    assert_eq!(
        out,
        "<main hx-get=\"[child]\" hx-trigger=\"server\"><h1>page a</h1></main><aside hx-get=\"[child]\" hx-trigger=\"server\"></aside>"
    );
    assert_eq!(fetched, vec!["/a".to_string()]);
}

#[test]
fn child_without_a_parent_gets_empty_content() {
    let mut fetched = Vec::new();
    let out = rewritten(serve(child_site, request("/b", None, None), &mut fetched));
    assert_eq!(
        out,
        "<main hx-get=\"[child]\" hx-trigger=\"server\"></main><aside hx-get=\"[child]\" hx-trigger=\"server\"></aside>"
    );
    assert!(fetched.is_empty());
}

fn broken_site(path: &str) -> Option<(&'static str, Vec<u8>)> {
    match path {
        "/blank" => Some((
            "text/html",
            b"<div hx-get=\"/ok\" hx-trigger=\"server\"></div><div hx-get=\" \" hx-trigger=\"server\"></div>".to_vec(),
        )),
        "/empty" => Some(("text/html", b"<div hx-get=\"\" hx-trigger=\"server\"></div>".to_vec())),
        "/empty/" => Some(("text/html", b"<b>index</b>".to_vec())),
        "/missing" => Some(("text/html", b"<div hx-get=\"/nowhere\" hx-trigger=\"server\"></div>".to_vec())),
        "/ok" => Some(("text/html", b"<b>ok</b>".to_vec())),
        _ => None,
    }
}

#[test]
fn a_target_of_blanks_fails_the_whole_response() {
    let mut fetched = Vec::new();
    match serve(broken_site, request("/blank", None, None), &mut fetched) {
        Reply::Failed(Error::Rewrite(e)) => assert_eq!(e.kind(), ErrorKind::Uri),
        _ => panic!("expected a uri error"),
    }
    // nothing was fetched, not even for the valid directive before it
    assert!(fetched.is_empty());
}

#[test]
fn an_empty_target_names_the_base_path_with_a_slash() {
    let mut fetched = Vec::new();
    let out = rewritten(serve(broken_site, request("/empty", None, None), &mut fetched));
    assert_eq!(out, "<div hx-get=\"\" hx-trigger=\"server\"><b>index</b></div>");
    assert_eq!(fetched, vec!["/empty/".to_string()]);
}

#[test]
fn a_failed_fetch_fails_the_composition() {
    let mut fetched = Vec::new();
    match serve(broken_site, request("/missing", None, None), &mut fetched) {
        Reply::Failed(Error::Future(e)) => assert_eq!(e, "no such page"),
        _ => panic!("expected the error of the inner service"),
    }
}

#[test]
fn a_body_that_cannot_be_read_fails_the_composition() {
    let mut composer = Composer::new();
    let _: Action<String, String> = composer.step(Event::Request(request("/page", None, None)));
    let _: Action<String, String> = composer.step(Event::Response(html_head(10)));
    assert_eq!(composer.phase, Phase::Scanning);
    let action: Action<String, String> = composer.step(Event::BodyFailed("connection reset".to_string()));
    match action {
        Action::Fail(Error::Body(e)) => assert_eq!(e, "connection reset"),
        _ => panic!("expected the body error"),
    }
    assert_eq!(composer.phase, Phase::Failed);
}

#[test]
fn an_event_out_of_turn_changes_nothing() {
    let mut composer = Composer::new();
    let action: Action<String, String> = composer.step(Event::Body(b"<p></p>".to_vec()));
    assert!(matches!(action, Action::Invalid));
    assert_eq!(composer.phase, Phase::Received);
    let _: Action<String, String> = composer.step(Event::Request(request("/page", None, None)));
    let again: Action<String, String> = composer.step(Event::Request(request("/page", None, None)));
    assert!(matches!(again, Action::Invalid));
    assert_eq!(composer.phase, Phase::Dispatched);
}

#[test]
fn a_settled_composer_takes_no_more_events() {
    let mut composer = Composer::new();
    let _: Action<String, String> = composer.step(Event::Request(request("/data", None, None)));
    let head = ResponseHead { content_type: Some("application/json".to_string()), content_length: Some(2), context: None };
    let _: Action<String, String> = composer.step(Event::Response(head));
    assert_eq!(composer.phase, Phase::Done);
    let late: Action<String, String> = composer.step(Event::Body(b"{}".to_vec()));
    assert!(matches!(late, Action::Invalid));
}

#[test]
fn the_selector_attribute_travels_in_the_request() {
    let mut composer = Composer::new();
    let _: Action<String, String> = composer.step(Event::Request(request("/page", None, None)));
    let body = b"<div hx-get=\"/cards\" hx-select=\".card b\" hx-trigger=\"server\"></div>".to_vec();
    let _: Action<String, String> = composer.step(Event::Response(html_head(body.len())));
    let action: Action<String, String> = composer.step(Event::Body(body));
    match action {
        Action::Fetch(sub) => {
            assert_eq!(sub.target.path, "/cards");
            assert_eq!(sub.target.query, Some("hx-select=%2Ecard%20b".to_string()));
            assert_eq!(sub.depth, 1);
        },
        _ => panic!("expected a fetch"),
    }
    assert_eq!(composer.phase, Phase::Resolving);
}

#[test]
fn a_relative_target_is_put_behind_the_request_path() {
    let mut composer = Composer::new();
    let _: Action<String, String> = composer.step(Event::Request(request("/docs/intro", Some("x=1"), Some(3))));
    let body = b"<div hx-get=\"part\" hx-trigger=\"server\"></div>".to_vec();
    let _: Action<String, String> = composer.step(Event::Response(html_head(body.len())));
    let action: Action<String, String> = composer.step(Event::Body(body));
    match action {
        Action::Fetch(sub) => {
            assert_eq!(sub.target.path, "/docs/intro/part");
            assert_eq!(sub.target.query, None);
            assert_eq!(sub.depth, 4);
        },
        _ => panic!("expected a fetch"),
    }
}

#[test]
fn fragments_are_paired_with_directives_in_document_order() {
    let mut composer = Composer::new();
    let _: Action<String, String> = composer.step(Event::Request(request("/page", None, None)));
    let body = b"<a hx-get=\"/one\" hx-trigger=\"server\"></a><a hx-get=\"/two\" hx-trigger=\"server\"></a>".to_vec();
    let _: Action<String, String> = composer.step(Event::Response(html_head(body.len())));
    let first: Action<String, String> = composer.step(Event::Body(body));
    assert!(matches!(&first, Action::Fetch(sub) if sub.target.path == "/one"));
    let second: Action<String, String> = composer.step(
        Event::Fetched(Fragment { content_type: Some("text/html".to_string()), body: b"1".to_vec() }),
    );
    assert!(matches!(&second, Action::Fetch(sub) if sub.target.path == "/two"));
    let last: Action<String, String> = composer.step(
        Event::Fetched(Fragment { content_type: Some("text/html".to_string()), body: b"2".to_vec() }),
    );
    match last {
        Action::Rewritten { body, content_length } => {
            assert_eq!(
                String::from_utf8(body).unwrap(),
                "<a hx-get=\"/one\" hx-trigger=\"server\">1</a><a hx-get=\"/two\" hx-trigger=\"server\">2</a>"
            );
            assert_eq!(content_length, 84);
        },
        _ => panic!("expected the merged document"),
    }
    assert_eq!(composer.phase, Phase::Done);
}

#[test]
fn layers_wrap_the_inner_service() {
    let service: HtmxRewriteService<u8> = HtmxRewriteLayer::new().layer(7u8);
    assert_eq!(service.0, 7);
    assert_eq!(HtmxRewriteService::new(9u8).0, 9);
    let infallible = HtmxRewriteLayer::new().infallible().layer(5u8);
    assert_eq!(infallible.0.0, 5);
    let composer = service.call();
    assert_eq!(composer.phase, Phase::Received);
    assert_eq!(composer.rewriter.selector, "[hx-get][hx-trigger~=\"server\"]");
}
