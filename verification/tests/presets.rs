use tower_htmx::engine::{AttributeNames, Directive, Edit};
use tower_htmx::inject::EditCursor;
use tower_htmx::error::{ErrorKind, RewriteError};
use tower_htmx::message::{Fragment, RequestHead, ResponseHead};
use tower_htmx::multi::{strip_context, HoldupBody, MultiContext};
use tower_htmx::plan::{edit_of, keep, plan, plan_by_key};
use tower_htmx::presets::{ExtractSettings, InsertSettings};
use tower_htmx::resolve::{ResolveContext, ResolveLayer, ResolveService};
use tower_htmx::rewrite::{
    copy_of, handle_rewrite, provide_settings, HtmlRewriteBody, HtmlRewriteLayer, HtmlRewriteService, RuleSet,
    SettingsProvider,
};
use tower_htmx::swap::{ContentKind, SwapMode};
use tower_htmx::uri::Target;

const TEMPLATE: &[u8] = b"<header hx-get=\"nav\"></header><main hx-get=\"/body\" hx-select=\".card\" hx-swap=\"outerHTML\">\
</main><footer hx-get=\"nav\" hx-swap=\"beforeend\">(c)</footer>";

fn head() -> ResponseHead {
    ResponseHead { content_type: Some("text/html".to_string()), content_length: Some(TEMPLATE.len()), context: None }
}

fn html(body: &str) -> Fragment {
    Fragment { content_type: Some("text/html".to_string()), body: body.as_bytes().to_vec() }
}

fn keys(context: &ResolveContext) -> Vec<String> {
    context.entries.iter().map(|e| e.key.clone()).collect()
}

fn extract(res: &mut ResponseHead) -> Vec<u8> {
    let mut settings = ExtractSettings::new();
    settings.handle_request(&RequestHead { target: Target { path: "/".to_string(), query: None }, depth: None });
    let rules = provide_settings(&mut settings, res).unwrap();
    handle_rewrite(rules, res, TEMPLATE).unwrap()
}

#[test]
fn extracting_records_each_key_once_in_document_order() {
    let mut res = head();
    let out = extract(&mut res);
    assert_eq!(out, TEMPLATE.to_vec());
    let context = res.context.unwrap();
    assert_eq!(keys(&context), vec!["nav".to_string(), "/body?hx-select=%2Ecard".to_string()]);
    assert!(context.entries.iter().all(|e| e.value.is_none()));
    assert_eq!(context.len(), 2);
}

#[test]
fn extracting_starts_from_a_fresh_context() {
    let mut stale = ResolveContext::new();
    stale.insert("old".to_string());
    let mut res = head();
    res.context = Some(stale);
    extract(&mut res);
    assert_eq!(keys(&res.context.unwrap()), vec!["nav".to_string(), "/body?hx-select=%2Ecard".to_string()]);
}

fn page() -> Target {
    Target { path: "/page".to_string(), query: Some("x=1".to_string()) }
}

#[test]
fn the_request_for_a_key_is_resolved_against_the_base() {
    let mut res = head();
    extract(&mut res);
    let context = res.context.unwrap();
    // a relative key goes behind the path that was asked for
    let first = context.request_for(&page(), 0).unwrap();
    assert_eq!(first.path, "/page/nav");
    assert_eq!(first.query, None);
    // an absolute key replaces path and query
    let second = context.request_for(&page(), 1).unwrap();
    assert_eq!(second.path, "/body");
    assert_eq!(second.query, Some("hx-select=%2Ecard".to_string()));
}

#[test]
fn an_absolute_key_is_asked_for_as_it_is() {
    let mut context = ResolveContext::new();
    context.insert("/frag".to_string());
    context.insert("frag".to_string());
    let base = Target { path: "/page".to_string(), query: None };
    assert_eq!(context.request_for(&base, 0).unwrap().path, "/frag");
    assert_eq!(context.request_for(&base, 1).unwrap().path, "/page/frag");
}

#[test]
fn a_key_that_is_no_path_has_no_request() {
    let mut context = ResolveContext::new();
    context.insert("a b".to_string());
    assert!(matches!(context.request_for(&page(), 0), Err(RewriteError::Uri)));
}

#[test]
fn every_key_is_asked_for_once_and_in_order() {
    let mut res = head();
    extract(&mut res);
    let base = page();
    let mut asked = Vec::new();
    let mut from = 0;
    while let Some((index, target)) = ResolveService::<()>::call(&res, &base, from).unwrap() {
        asked.push((index, target.path.clone()));
        res.context.as_mut().unwrap().store(index, html("x"));
        from = index + 1;
    }
    assert_eq!(asked, vec![(0, "/page/nav".to_string()), (1, "/body".to_string())]);
    let context = res.context.as_ref().unwrap();
    assert!(context.entries.iter().all(|e| e.value.is_some()));
    assert_eq!(context.next_key(0), Some(0));
    assert_eq!(context.next_key(1), Some(1));
    assert_eq!(context.next_key(2), None);
    assert_eq!(context.next_key(7), None);
}

#[test]
fn a_response_without_a_context_is_left_alone() {
    let res = head();
    assert!(ResolveService::<()>::call(&res, &page(), 0).unwrap().is_none());
}

#[test]
fn a_key_that_is_no_path_fails_the_resolution() {
    let mut res = head();
    let mut context = ResolveContext::new();
    context.insert("/ok".to_string());
    context.insert("not ok".to_string());
    res.context = Some(context);
    assert!(matches!(ResolveService::<()>::call(&res, &page(), 0), Ok(Some((0, _)))));
    assert!(matches!(ResolveService::<()>::call(&res, &page(), 1), Err(RewriteError::Uri)));
}

#[test]
fn inserting_merges_what_the_keys_resolved_to() {
    let mut res = head();
    extract(&mut res);
    let mut context = res.context.take().unwrap();
    context.store(0, html("<a>nav</a>"));
    context.store(1, html("<div class=\"card\">c</div>"));
    res.context = Some(context);
    let rules = InsertSettings::new().handle_response(&mut res).unwrap();
    assert!(res.context.is_none());
    let out = handle_rewrite(rules, &mut res, TEMPLATE).unwrap();
    assert_eq!(
        String::from_utf8(out).unwrap(),
        "<header hx-get=\"nav\"><a>nav</a></header><div class=\"card\">c</div>\
<footer hx-get=\"nav\" hx-swap=\"beforeend\">(c)<a>nav</a></footer>"
    );
}

#[test]
fn inserting_fails_on_a_key_that_is_not_resolved() {
    let mut res = head();
    extract(&mut res);
    let mut context = res.context.take().unwrap();
    context.store(0, html("<a>nav</a>"));
    res.context = Some(context);
    let rules = InsertSettings::new().handle_response(&mut res).unwrap();
    let failed = handle_rewrite(rules, &mut res, TEMPLATE).unwrap_err();
    assert_eq!(failed.kind(), ErrorKind::MissingResolution);
    assert_eq!(failed.message(), "problem with inner content");
}

#[test]
fn inserting_without_a_context_finds_nothing_resolved() {
    let mut res = head();
    let rules = InsertSettings::new().handle_response(&mut res).unwrap();
    let failed = handle_rewrite(rules, &mut res, TEMPLATE).unwrap_err();
    assert_eq!(failed.kind(), ErrorKind::MissingResolution);
    let untouched = InsertSettings::new().handle_response(&mut res).unwrap();
    assert_eq!(handle_rewrite(untouched, &mut res, b"<p>plain</p>").unwrap(), b"<p>plain</p>".to_vec());
}

#[test]
fn inserting_fails_on_a_fragment_that_is_not_text() {
    let mut context = ResolveContext::new();
    context.insert("/x".to_string());
    context.store(0, Fragment { content_type: Some("text/html".to_string()), body: vec![0xc3, 0x28] });
    let rules = RuleSet::Insert { selector: "[hx-get]".to_string(), names: AttributeNames::new(), context };
    let failed = handle_rewrite(rules, &mut head(), b"<p hx-get=\"/x\"></p>").unwrap_err();
    assert_eq!(failed.kind(), ErrorKind::InvalidText);
}

#[test]
fn a_context_keeps_one_entry_for_each_key() {
    let mut context = ResolveContext::new();
    assert_eq!(context.len(), 0);
    context.insert("a".to_string());
    context.insert("b".to_string());
    context.store(0, html("A"));
    assert_eq!(context.get("a").map(|f| f.body.clone()), Some(b"A".to_vec()));
    assert!(context.get("b").is_none());
    assert!(context.get("c").is_none());
    assert_eq!(context.position("b"), Some(1));
    assert_eq!(context.position("c"), None);
    // finding a key again forgets what it resolved to and keeps its place
    context.insert("a".to_string());
    assert_eq!(keys(&context), vec!["a".to_string(), "b".to_string()]);
    assert!(context.get("a").is_none());
}

#[test]
fn edits_are_planned_in_document_order() {
    let directives = vec![
        Directive { target: Some("/one".to_string()), select: None, swap: Some("delete".to_string()) },
        Directive { target: None, select: None, swap: Some("outerHTML".to_string()) },
        Directive { target: Some("/two".to_string()), select: None, swap: None },
    ];
    let fragments = vec![
        html("1"),
        Fragment { content_type: Some("text/plain".to_string()), body: b"2".to_vec() },
        html("unused"),
    ];
    let edits: Vec<Edit> = plan(&directives, &fragments).unwrap();
    assert_eq!(edits.len(), 3);
    assert_eq!((edits[0].mode, edits[0].content.as_str(), edits[0].kind), (Some(SwapMode::Delete), "1", ContentKind::Html));
    assert_eq!((edits[1].mode, edits[1].content.as_str(), edits[1].kind), (None, "", ContentKind::Text));
    assert_eq!(
        (edits[2].mode, edits[2].content.as_str(), edits[2].kind),
        (Some(SwapMode::ReplaceInnerHTML), "2", ContentKind::Text)
    );
}

#[test]
fn a_plan_fails_when_fragments_run_out() {
    let directives = vec![
        Directive { target: Some("/one".to_string()), select: None, swap: None },
        Directive { target: Some("/two".to_string()), select: None, swap: None },
    ];
    let failed = plan(&directives, &vec![html("1")]).unwrap_err();
    assert_eq!(failed.kind(), ErrorKind::MissingResolution);
    assert!(plan(&Vec::new(), &Vec::new()).unwrap().is_empty());
}

#[test]
fn the_first_failure_in_document_order_wins() {
    let directives = vec![
        Directive { target: Some("/bad".to_string()), select: None, swap: None },
        Directive { target: Some("/gone".to_string()), select: None, swap: None },
    ];
    let fragments = vec![Fragment { content_type: None, body: vec![0xff] }];
    assert_eq!(plan(&directives, &fragments).unwrap_err().kind(), ErrorKind::InvalidText);
    let mut context = ResolveContext::new();
    context.insert("/bad".to_string());
    assert_eq!(plan_by_key(&directives, &context).unwrap_err().kind(), ErrorKind::MissingResolution);
}

#[test]
fn a_single_edit_reads_mode_text_and_kind() {
    let directive = Directive { target: Some("/x".to_string()), select: None, swap: Some("afterend".to_string()) };
    let edit = edit_of(&directive, &html("żółw")).unwrap();
    assert_eq!(edit.mode, Some(SwapMode::InsertAfterEnd));
    assert_eq!(edit.content, "żółw");
    assert_eq!(edit.kind, ContentKind::Html);
    let untouched = keep();
    assert_eq!(untouched.mode, None);
    assert_eq!(untouched.content, "");
    assert!(matches!(edit_of(&directive, &Fragment { content_type: None, body: vec![0x80] }), Err(RewriteError::InvalidText)));
}

#[test]
fn a_rewritten_body_announces_its_length_once() {
    let mut res = head();
    let rules = RuleSet::Select { selector: "b, b *".to_string() };
    let mut body = HtmlRewriteBody::<(), RewriteError>::new(()).try_rewrite(rules, &mut res, b"<p><b>x</b></p>");
    assert_eq!(body.len(), Some(8));
    HtmlRewriteService::<(), ()>::finish(&mut res, &body);
    assert_eq!(res.content_length, Some(8));
    assert!(matches!(body.poll_frame(), Some(Ok(bytes)) if bytes == b"<b>x</b>"));
    assert_eq!(body.len(), None);
    assert!(body.poll_frame().is_none());
}

#[test]
fn a_failed_body_hands_out_its_error_once_and_leaves_the_head() {
    let mut res = head();
    let rules = RuleSet::Select { selector: "((".to_string() };
    let mut body = HtmlRewriteBody::<(), RewriteError>::new(()).try_rewrite(rules, &mut res, b"<p></p>");
    assert_eq!(body.len(), None);
    HtmlRewriteService::<(), ()>::finish(&mut res, &body);
    assert_eq!(res.content_length, Some(TEMPLATE.len()));
    assert!(matches!(body.poll_frame(), Some(Err(e)) if e.kind() == ErrorKind::Engine));
    assert!(body.poll_frame().is_none());
}

#[test]
fn a_body_that_is_passed_on_is_left_alone() {
    let mut res = head();
    let mut body: HtmlRewriteBody<Vec<u8>, RewriteError> = HtmlRewriteBody::new(b"raw".to_vec());
    assert_eq!(body.len(), None);
    HtmlRewriteService::<(), ()>::finish(&mut res, &body);
    assert_eq!(res.content_length, Some(TEMPLATE.len()));
    assert!(body.poll_frame().is_none());
    assert!(matches!(&body, HtmlRewriteBody::Normal { inner } if inner == b"raw"));
    // a body that was rewritten is not rewritten again
    let done: HtmlRewriteBody<Vec<u8>, RewriteError> = HtmlRewriteBody::Rewritten { rewritten: Some(b"x".to_vec()) };
    let again = done.try_rewrite(RuleSet::Select { selector: "p".to_string() }, &mut res, b"<p>y</p>");
    assert!(matches!(again, HtmlRewriteBody::Rewritten { rewritten: Some(bytes) } if bytes == b"x"));
}

#[test]
fn layers_and_services_hold_what_they_are_given() {
    let layer = HtmlRewriteLayer::new(3u8);
    assert_eq!(layer.settings, 3);
    let service = layer.layer("inner");
    assert_eq!((service.settings, service.inner), (3, "inner"));
    let direct = HtmlRewriteService::new("inner", 4u8);
    assert_eq!((direct.settings, direct.inner), (4, "inner"));
    assert_eq!(ResolveLayer::new().layer(1u8).inner, 1);
    assert_eq!(ResolveService::new(2u8).inner, 2);
    assert_eq!(HoldupBody::new(5u8).body, 5);
    assert_eq!(copy_of(b"abc"), b"abc".to_vec());
    let shared: MultiContext<u8> = MultiContext { entries: vec![("k".to_string(), 1)] };
    assert_eq!(shared.entries.len(), 1);
}

#[test]
fn the_context_is_taken_off_before_a_response_is_sent() {
    let mut res = head();
    res.context = Some(ResolveContext::new());
    strip_context(&mut res);
    assert!(res.context.is_none());
    assert_eq!(res.content_length, Some(TEMPLATE.len()));
    assert_eq!(res.content_type, Some("text/html".to_string()));
}

#[test]
fn a_cursor_starts_before_the_first_edit() {
    let edits = vec![keep(), keep()];
    let cursor = EditCursor::new(&edits);
    assert_eq!(cursor.next, 0);
    assert_eq!(cursor.edits.len(), 2);
}
