use std::cell::RefCell;

use megui::app::{MeguiApp, Page};
use megui::artwork::Artwork;
use megui::catalog::{decode, read_answer, DecodeError, Field, SchemaError};
use megui::config::{default_theme, AppConfig, Config};
use megui::fetch::{Demand, FetchSlot, Resource};
use megui::outcome::{catalog_outcome, first_catalog, read_document, resume_outcome};
use megui::theme::ThemeMode;
use megui::transport::{Completion, Response};

fn config() -> Config {
    Config {
        app: AppConfig {
            name: "Megui".to_string(),
            website: "https://example.org".to_string(),
            resume: "https://example.org/resume.html".to_string(),
            artworks: "https://artworks.example.org/index.json".to_string(),
            repository: "https://example.org/repo".to_string(),
            default_theme: "Light".to_string(),
        },
    }
}

fn body(text: &str) -> Option<Completion> {
    Some(Ok(Response { bytes: text.as_bytes().to_vec() }))
}

fn failed(slot: &FetchSlot<Vec<Artwork>>) -> String {
    match slot {
        FetchSlot::Failed(message) => message.clone(),
        other => panic!("expected a failure, got {:?}", other),
    }
}

fn names(artworks: &[Artwork]) -> Vec<(String, Option<String>)> {
    artworks.iter().map(|a| (a.name.clone(), a.info.clone())).collect()
}

#[test]
fn app_starts_loading_the_catalog() {
    let (app, request) = MeguiApp::new(config(), Page::About);
    assert!(matches!(app.catalog, FetchSlot::Loading));
    assert!(matches!(app.resume, FetchSlot::Idle));
    assert_eq!(app.current_view, Page::About);
    assert_eq!(app.theme_mode, ThemeMode::Light);
    assert_eq!(app.selected_artworks.len(), 0);
    assert!(app.sidebar_open);
    assert!(!app.settings_open);
    assert_eq!(request.resource, Resource::Catalog);
    assert_eq!(request.url, "https://artworks.example.org/index.json");
    assert!(app.needs_repaint());
}

#[test]
fn second_trigger_issues_no_request() {
    let mut slot: FetchSlot<u32> = FetchSlot::new();
    assert!(slot.trigger());
    assert!(!slot.trigger());
    assert!(slot.is_loading());

    let (mut app, _first) = MeguiApp::new(config(), Page::Artworks);
    assert!(app.start_artworks_fetch().is_none());
    assert!(app.start_artworks_fetch().is_none());
    assert!(matches!(app.catalog, FetchSlot::Loading));
}

#[test]
fn trigger_after_resolution_issues_again() {
    let (mut app, _first) = MeguiApp::new(config(), Page::Artworks);
    assert!(app.process_fetch_response(body("[]")));
    let again = app.start_artworks_fetch().expect("a resolved slot can be triggered");
    assert_eq!(again.url, "https://artworks.example.org/index.json");
    assert!(matches!(app.catalog, FetchSlot::Loading));
}

#[test]
fn poll_without_message_keeps_loading() {
    let (mut app, _request) = MeguiApp::new(config(), Page::Artworks);
    for _ in 0..3 {
        assert!(!app.process_fetch_response(None));
        assert!(matches!(app.catalog, FetchSlot::Loading));
    }
    let mut slot: FetchSlot<u32> = FetchSlot::new();
    slot.trigger();
    assert!(!slot.poll(None));
    assert!(slot.is_loading());
}

#[test]
fn poll_without_request_drops_the_message() {
    let mut slot: FetchSlot<u32> = FetchSlot::new();
    assert!(!slot.poll(Some(Ok(7))));
    assert!(matches!(slot, FetchSlot::Idle));
    slot.trigger();
    assert!(slot.poll(Some(Ok(7))));
    assert!(!slot.poll(Some(Ok(8))));
    assert!(matches!(slot, FetchSlot::Succeeded(7)));
}

#[test]
fn transport_failure_is_reported() {
    let (mut app, _request) = MeguiApp::new(config(), Page::Artworks);
    assert!(app.process_fetch_response(Some(Err("connection refused".to_string()))));
    assert_eq!(failed(&app.catalog), "Fetch error: connection refused");
    assert!(!app.needs_repaint());
    assert!(!app.process_fetch_response(body("[]")));
    assert_eq!(failed(&app.catalog), "Fetch error: connection refused");
}

#[test]
fn body_that_is_no_text_is_reported() {
    let (mut app, _request) = MeguiApp::new(config(), Page::Artworks);
    let message = Some(Ok(Response { bytes: vec![b'[', 0xff, b']'] }));
    assert!(app.process_fetch_response(message));
    assert_eq!(failed(&app.catalog), "failed to read response text");
}

#[test]
fn empty_answer_is_reported() {
    let (mut app, _request) = MeguiApp::new(config(), Page::Artworks);
    assert!(app.process_fetch_response(body("[]")));
    assert_eq!(failed(&app.catalog), "No data returned");
}

#[test]
fn first_catalog_is_shown() {
    let (mut app, _request) = MeguiApp::new(config(), Page::Artworks);
    let text = r#"[{"type":"x","name":"y","contents":[{"name":"A"},{"name":"B","info":"desc"}]}]"#;
    assert!(app.process_fetch_response(body(text)));
    match &app.catalog {
        FetchSlot::Succeeded(artworks) => assert_eq!(
            names(artworks),
            vec![("A".to_string(), None), ("B".to_string(), Some("desc".to_string()))]
        ),
        other => panic!("expected artworks, got {:?}", other),
    }
    assert!(!app.needs_repaint());
}

#[test]
fn later_catalogs_are_decoded_but_not_shown() {
    let text = r#"[{"type":"d","name":"one","contents":[{"name":"A","info":null}]},
                   {"type":"d","name":"two","contents":[{"name":"B"}]}]"#;
    let shown = catalog_outcome(Ok(Response { bytes: text.as_bytes().to_vec() })).unwrap();
    assert_eq!(names(&shown), vec![("A".to_string(), None)]);

    let broken = r#"[{"type":"d","name":"one","contents":[]},{"type":"d"}]"#;
    let outcome = catalog_outcome(Ok(Response { bytes: broken.as_bytes().to_vec() }));
    assert_eq!(outcome.unwrap_err(), "Parse error: missing field `name`");
}

#[test]
fn malformed_json_is_reported_with_the_parsers_words() {
    for text in ["not json", "[{\"type\":", "", "[1,]", "{\"a\":1} trailing"] {
        let complaint = serde_json::from_str::<serde_json::Value>(text).unwrap_err().to_string();
        let (mut app, _request) = MeguiApp::new(config(), Page::Artworks);
        assert!(app.process_fetch_response(body(text)));
        assert_eq!(failed(&app.catalog), format!("Parse error: {}", complaint));
    }
    let (mut app, _request) = MeguiApp::new(config(), Page::Artworks);
    app.process_fetch_response(body("[1,]"));
    assert_eq!(failed(&app.catalog), "Parse error: trailing comma at line 1 column 4");
}

#[test]
fn deeply_nested_json_is_reported() {
    let text = "[".repeat(100_000);
    let (mut app, _request) = MeguiApp::new(config(), Page::Artworks);
    assert!(app.process_fetch_response(body(&text)));
    assert_eq!(
        failed(&app.catalog),
        "Parse error: recursion limit exceeded at line 1 column 128"
    );
}

#[test]
fn resources_are_triggered_one_by_one() {
    let (mut app, _request) = MeguiApp::new(config(), Page::Artworks);
    assert!(app.is_loading(Resource::Catalog));
    assert!(!app.is_loading(Resource::ResumeDocument));
    assert!(app.trigger(Resource::Catalog).is_none());
    let resume = app.trigger(Resource::ResumeDocument).expect("the resume was idle");
    assert_eq!(resume.resource, Resource::ResumeDocument);
    assert_eq!(resume.url, "https://example.org/resume.html");
    assert!(app.trigger(Resource::ResumeDocument).is_none());
    assert!(app.is_loading(Resource::ResumeDocument));

    assert!(app.process_fetch_response(Some(Err("x".to_string()))));
    assert!(app.is_loading(Resource::ResumeDocument));
    assert!(!app.is_loading(Resource::Catalog));
    assert!(app.process_resume_response(Some(Err("y".to_string())), html2md::parse_html));
    assert_eq!(failed(&app.catalog), "Fetch error: x");
    let catalog = app.trigger(Resource::Catalog).expect("the catalog had failed");
    assert_eq!(catalog.resource, Resource::Catalog);
}

#[test]
fn answers_of_the_wrong_shape_are_reported() {
    let cases = [
        (r#"{"type":"x"}"#, SchemaError::NotAnArray),
        (r#""text""#, SchemaError::NotAnArray),
        (r#"[1]"#, SchemaError::NotAnObject),
        (r#"[[]]"#, SchemaError::NotAnObject),
        (r#"[{}]"#, SchemaError::MissingField(Field::Type)),
        (r#"[{"type":1,"name":"n","contents":[]}]"#, SchemaError::WrongType(Field::Type)),
        (r#"[{"type":"t"}]"#, SchemaError::MissingField(Field::Name)),
        (r#"[{"type":"t","name":null,"contents":[]}]"#, SchemaError::WrongType(Field::Name)),
        (r#"[{"type":"t","name":"n"}]"#, SchemaError::MissingField(Field::Contents)),
        (r#"[{"type":"t","name":"n","contents":{}}]"#, SchemaError::WrongType(Field::Contents)),
        (r#"[{"type":"t","name":"n","contents":["A"]}]"#, SchemaError::NotAnObject),
        (r#"[{"type":"t","name":"n","contents":[{}]}]"#, SchemaError::MissingField(Field::Name)),
        (
            r#"[{"type":"t","name":"n","contents":[{"name":true}]}]"#,
            SchemaError::WrongType(Field::Name),
        ),
        (
            r#"[{"type":"t","name":"n","contents":[{"name":"A","info":3}]}]"#,
            SchemaError::WrongType(Field::Info),
        ),
    ];
    for (text, expected) in cases {
        match decode(text) {
            Err(DecodeError::Schema(error)) => assert_eq!(error, expected, "{}", text),
            other => panic!("{}: expected a schema error, got {:?}", text, other),
        }
    }
}

#[test]
fn a_fault_of_syntax_is_reported_before_an_earlier_misfit() {
    for text in ["[1, }", r#"[{"type":7}, {"type":"t" "name"}]"#, r#"[{}, {"a":}]"#, "[null] x"] {
        let complaint = serde_json::from_str::<serde_json::Value>(text).unwrap_err().to_string();
        match decode(text) {
            Err(DecodeError::Syntax(message)) => assert_eq!(message, complaint, "{}", text),
            other => panic!("{}: expected the parser's complaint, got {:?}", text, other),
        }
    }
    assert_eq!(
        catalog_outcome(Ok(Response { bytes: b"[1, }".to_vec() })).unwrap_err(),
        "Parse error: expected value at line 1 column 5"
    );
    match decode("[1, 2]") {
        Err(DecodeError::Schema(error)) => assert_eq!(error, SchemaError::NotAnObject),
        other => panic!("expected a schema error, got {:?}", other),
    }
}

#[test]
fn an_ignored_member_must_still_be_a_value_the_parser_accepts() {
    let fine = r#"[{"type":"t","name":"n","contents":[{"name":"A","size":1e30}],"extra":-0.5}]"#;
    assert_eq!(names(&decode(fine).unwrap()[0].contents), vec![("A".to_string(), None)]);

    let cases = [
        r#"[{"type":"t","name":"n","contents":[],"extra":1e999}]"#,
        r#"[{"type":"t","name":"n","contents":[{"name":"A","size":1e999}]}]"#,
    ];
    for text in cases {
        let complaint = serde_json::from_str::<serde_json::Value>(text).unwrap_err().to_string();
        assert!(complaint.starts_with("number out of range"), "{}", complaint);
        match decode(text) {
            Err(DecodeError::Syntax(message)) => assert_eq!(message, complaint, "{}", text),
            other => panic!("{}: expected the parser's complaint, got {:?}", text, other),
        }
    }
    assert_eq!(
        catalog_outcome(Ok(Response { bytes: cases[0].as_bytes().to_vec() })).unwrap_err(),
        "Parse error: number out of range at line 1 column 51"
    );
}

#[test]
fn first_misfit_decides_the_error() {
    let text = r#"[{"type":"t","name":"n","contents":[{"name":"A"},{"name":1},{}]}, 5]"#;
    match decode(text) {
        Err(DecodeError::Schema(error)) => assert_eq!(error, SchemaError::WrongType(Field::Name)),
        other => panic!("expected a schema error, got {:?}", other),
    }
}

#[test]
fn schema_error_messages() {
    assert_eq!(SchemaError::NotAnArray.message(), "expected an array of catalogs");
    assert_eq!(SchemaError::NotAnObject.message(), "expected an object");
    assert_eq!(SchemaError::MissingField(Field::Contents).message(), "missing field `contents`");
    assert_eq!(SchemaError::MissingField(Field::Type).message(), "missing field `type`");
    assert_eq!(SchemaError::WrongType(Field::Info).message(), "invalid type for field `info`");
    assert_eq!(SchemaError::WrongType(Field::Name).message(), "invalid type for field `name`");
    assert_eq!(DecodeError::Syntax("boom".to_string()).message(), "boom");
    assert_eq!(
        DecodeError::Schema(SchemaError::NotAnArray).message(),
        "expected an array of catalogs"
    );
    let (mut app, _request) = MeguiApp::new(config(), Page::Artworks);
    app.process_fetch_response(body("[{}]"));
    assert_eq!(failed(&app.catalog), "Parse error: missing field `type`");
}

#[test]
fn unknown_members_and_duplicates_are_tolerated() {
    let text = r#"[{"type":"t","name":"n","extra":[1,2,{"x":null}],
                    "contents":[{"name":"A","info":"first","info":"second","size":3}]}]"#;
    let catalogs = decode(text).unwrap();
    assert_eq!(catalogs.len(), 1);
    assert_eq!(catalogs[0].response_type, "t");
    assert_eq!(catalogs[0].name, "n");
    assert_eq!(
        names(&catalogs[0].contents),
        vec![("A".to_string(), Some("second".to_string()))]
    );
}

#[test]
fn parsed_documents_can_be_read_directly() {
    let mut artwork = serde_json::Map::new();
    artwork.insert("name".to_string(), serde_json::Value::String("Spiral".to_string()));
    artwork.insert("info".to_string(), serde_json::Value::Null);
    let mut catalog = serde_json::Map::new();
    catalog.insert("type".to_string(), serde_json::Value::String("directory".to_string()));
    catalog.insert("name".to_string(), serde_json::Value::String(".".to_string()));
    catalog.insert(
        "contents".to_string(),
        serde_json::Value::Array(vec![serde_json::Value::Object(artwork)]),
    );
    let document = serde_json::Value::Array(vec![serde_json::Value::Object(catalog)]);
    let catalogs = read_answer(&document).unwrap();
    assert_eq!(catalogs.len(), 1);
    assert_eq!(names(&catalogs[0].contents), vec![("Spiral".to_string(), None)]);
    assert_eq!(read_answer(&serde_json::Value::Null).unwrap_err(), SchemaError::NotAnArray);
}

#[test]
fn first_catalog_of_a_decoded_answer() {
    assert_eq!(first_catalog(Ok(vec![])).unwrap_err(), "No data returned");
    assert_eq!(
        first_catalog(Err(DecodeError::Syntax("expected value".to_string()))).unwrap_err(),
        "Parse error: expected value"
    );
    assert_eq!(
        first_catalog(Err(DecodeError::Schema(SchemaError::NotAnObject))).unwrap_err(),
        "Parse error: expected an object"
    );
}

#[test]
fn resume_is_fetched_on_first_click_and_shown_when_it_arrives() {
    let (mut app, _request) = MeguiApp::new(config(), Page::Artworks);
    let todo = app.navigate(Page::Resume);
    let request = todo.request.expect("the first click fetches the resume");
    assert_eq!(request.resource, Resource::ResumeDocument);
    assert_eq!(request.url, "https://example.org/resume.html");
    assert_eq!(todo.hash, "#/artworks");
    assert_eq!(app.current_view, Page::Artworks);
    assert!(matches!(app.resume, FetchSlot::Loading));

    let waiting = app.navigate(Page::Resume);
    assert!(waiting.request.is_none());
    assert_eq!(app.current_view, Page::Artworks);

    assert!(!app.process_resume_response(None, html2md::parse_html));
    let html = "<h1>Jane Doe</h1><p>Painter &amp; <b>coder</b></p>";
    assert!(app.process_resume_response(body(html), html2md::parse_html));
    assert_eq!(app.current_view, Page::Resume);
    match &app.resume {
        FetchSlot::Succeeded(markdown) => {
            assert_eq!(markdown, &html2md::parse_html(html));
            assert_eq!(markdown, "Jane Doe\n==========\n\nPainter & **coder**");
        }
        other => panic!("expected the resume, got {:?}", other),
    }

    app.navigate(Page::About);
    let back = app.navigate(Page::Resume);
    assert!(back.request.is_none());
    assert_eq!(back.hash, "#/resume");
    assert_eq!(app.current_view, Page::Resume);
}

#[test]
fn resume_failures_are_reported_and_can_be_retried() {
    let (mut app, _request) = MeguiApp::new(config(), Page::About);
    app.navigate(Page::Resume);
    assert!(app.process_resume_response(Some(Err("timed out".to_string())), html2md::parse_html));
    assert!(matches!(&app.resume, FetchSlot::Failed(m) if m == "Fetch error: timed out"));
    assert_eq!(app.current_view, Page::About);

    assert!(app.navigate(Page::Resume).request.is_some());
    assert!(app.process_resume_response(
        Some(Ok(Response { bytes: vec![0xc3, 0x28] })),
        html2md::parse_html
    ));
    assert!(matches!(&app.resume, FetchSlot::Failed(m) if m == "failed to read response text"));

    assert_eq!(
        resume_outcome(Ok(Response { bytes: b"<p>plain</p>".to_vec() }), html2md::parse_html)
            .unwrap(),
        "plain"
    );
}

#[test]
fn converter_sees_the_body_once_and_only_when_it_is_text() {
    let seen: RefCell<Vec<String>> = RefCell::new(Vec::new());
    let record = |html: &str| {
        seen.borrow_mut().push(html.to_string());
        format!("md:{}", html)
    };
    let (mut app, _request) = MeguiApp::new(config(), Page::Artworks);
    assert!(!app.process_resume_response(body("<p>early</p>"), &record));
    app.navigate(Page::Resume);
    assert!(!app.process_resume_response(None, &record));
    assert!(app.process_resume_response(body("<p>héllo</p>"), &record));
    assert!(!app.process_resume_response(body("<p>late</p>"), &record));
    assert_eq!(*seen.borrow(), vec!["<p>héllo</p>".to_string()]);
    assert!(matches!(&app.resume, FetchSlot::Succeeded(m) if m == "md:<p>héllo</p>"));

    let outcome = resume_outcome(Err("down".to_string()), &record);
    assert_eq!(outcome.unwrap_err(), "Fetch error: down");
    let outcome = resume_outcome(Ok(Response { bytes: vec![0x80] }), &record);
    assert_eq!(outcome.unwrap_err(), "failed to read response text");
    assert_eq!(seen.borrow().len(), 1);
}

#[test]
fn delivered_text_is_read_the_same_for_every_resource() {
    let fine: Completion = Ok(Response { bytes: "héllo".as_bytes().to_vec() });
    assert_eq!(read_document(&fine), Ok("héllo"));
    let down: Completion = Err("refused".to_string());
    assert_eq!(read_document(&down), Err("Fetch error: refused".to_string()));
    let binary: Completion = Ok(Response { bytes: vec![0xf0, 0x28, 0x8c, 0x28] });
    assert_eq!(read_document(&binary), Err("failed to read response text".to_string()));
    let empty: Completion = Ok(Response { bytes: vec![] });
    assert_eq!(read_document(&empty), Ok(""));
}

#[test]
fn menu_clicks_switch_pages() {
    let (mut app, _request) = MeguiApp::new(config(), Page::Artworks);
    let about = app.navigate(Page::About);
    assert!(about.request.is_none());
    assert_eq!(about.hash, "#/about");
    assert_eq!(app.current_view, Page::About);
    assert_eq!(app.title(), "About");
    assert_eq!(app.url_hash(), "#/about");
    let artworks = app.navigate(Page::Artworks);
    assert_eq!(artworks.hash, "#/artworks");
    assert_eq!(app.current_view, Page::Artworks);
}

#[test]
fn demand_follows_the_slot() {
    let mut slot: FetchSlot<u32> = FetchSlot::new();
    assert_eq!(slot.demand(), Demand::Fetch);
    assert_eq!(slot.demand(), Demand::Wait);
    slot.poll(Some(Err("no".to_string())));
    assert_eq!(slot.demand(), Demand::Fetch);
    slot.poll(Some(Ok(3)));
    assert_eq!(slot.demand(), Demand::Show);
    assert!(matches!(slot, FetchSlot::Succeeded(3)));
}

#[test]
fn one_frame_looks_after_both_resources() {
    let (mut app, _request) = MeguiApp::new(config(), Page::Artworks);
    app.navigate(Page::Resume);
    assert!(app.update(None, None, html2md::parse_html));
    assert!(app.update(body("[]"), None, html2md::parse_html));
    assert_eq!(failed(&app.catalog), "No data returned");
    assert!(!app.update(None, body("<p>cv</p>"), html2md::parse_html));
    assert!(matches!(&app.resume, FetchSlot::Succeeded(m) if m == "cv"));
    assert_eq!(app.current_view, Page::Resume);
    assert!(!app.update(body("[]"), body("<p>late</p>"), html2md::parse_html));
    assert!(matches!(&app.resume, FetchSlot::Succeeded(m) if m == "cv"));
}

#[test]
fn configuration_addresses() {
    let settings = config();
    assert_eq!(settings.app.artworks_base(), "https://artworks.example.org");
    assert_eq!(settings.app.artwork_url("Spiral"), "https://artworks.example.org/Spiral/");
    assert_eq!(settings.app.theme_mode(), ThemeMode::Light);
    assert_eq!(default_theme(), "auto");

    let mut odd = config();
    odd.app.artworks = "https://a.example/x/index.json/index.json".to_string();
    assert_eq!(odd.app.artworks_base(), "https://a.example/x");
    odd.app.artworks = "https://a.example/index.json/".to_string();
    assert_eq!(odd.app.artworks_base(), "https://a.example/index.json/");
    odd.app.artworks = "/index.json".to_string();
    assert_eq!(odd.app.artworks_base(), "");
    assert_eq!(odd.app.artwork_url("A"), "/A/");
    odd.app.default_theme = "DaRk".to_string();
    assert_eq!(odd.app.theme_mode(), ThemeMode::Dark);
}
