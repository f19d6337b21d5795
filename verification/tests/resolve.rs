use handlebars_server::render::{resolve, Resolved};
use handlebars_server::reload::{Poll, ReloadHub, ReloadKind};
use handlebars_server::templates::TemplateStore;
use handlebars_server::value::ValueStore;

fn store_with(entries: &[(&str, &str)]) -> TemplateStore {
    let sources: Vec<(String, String)> =
        entries.iter().map(|(n, s)| (n.to_string(), s.to_string())).collect();
    TemplateStore::load(&sources).expect("templates should compile")
}

fn doc(text: &str) -> serde_json::Value {
    serde_json::from_str(text).expect("test document should parse")
}

fn page(r: Resolved) -> String {
    match r {
        Resolved::Rendered(s) => s,
        Resolved::NotFound => panic!("expected a rendered page, got not-found"),
        Resolved::Static => panic!("expected a rendered page, got static fallback"),
    }
}

#[test]
fn greeting_scenario() {
    let store = store_with(&[("greeting", "Hello, {{name}}!")]);
    let first = doc("{\"name\":\"Ada\"}");
    let mut value_store = ValueStore::initialize(Some(Ok(first))).expect("first value");
    let mut hub = ReloadHub::new(8);
    let mut subscriber = hub.subscribe();

    let out = page(resolve(&store, value_store.current(), "/greeting.html"));
    assert_eq!(out, "Hello, Ada!");

    let resumed = value_store.ingest(&mut hub, Ok(doc("{\"name\":\"Grace\"}")));
    assert!(resumed);
    let out = page(resolve(&store, value_store.current(), "/greeting.html"));
    assert_eq!(out, "Hello, Grace!");

    assert_eq!(subscriber.poll(&hub), Poll::Event(ReloadKind::Value));
    assert_eq!(subscriber.poll(&hub), Poll::Empty);
}

#[test]
fn render_twice_is_identical() {
    let store = store_with(&[("greeting", "Hello, {{name}}!")]);
    let d = doc("{\"name\":\"Ada\"}");
    let first = page(resolve(&store, &d, "/greeting.html"));
    let second = page(resolve(&store, &d, "/greeting.html"));
    assert_eq!(first, second);
}

#[test]
fn pointer_selects_subdocument() {
    let store = store_with(&[("item", "value is {{this}}")]);
    let d = doc("{\"a\":{\"b\":7}}");
    let out = page(resolve(&store, &d, "/a/b/item.html"));
    assert_eq!(out, "value is 7");
}

#[test]
fn unresolved_pointer_is_not_found() {
    let store = store_with(&[("greeting", "Hello, {{name}}!")]);
    let d = doc("{\"name\":\"Ada\"}");
    assert!(matches!(resolve(&store, &d, "/missing/greeting.html"), Resolved::NotFound));
}

#[test]
fn template_source_is_never_served() {
    let store = store_with(&[("mytpl", "secret {{x}}")]);
    let d = doc("{\"x\":1}");
    assert!(store.has_template("mytpl"));
    assert!(matches!(resolve(&store, &d, "/mytpl.hbs"), Resolved::NotFound));
    assert!(matches!(resolve(&store, &d, "/a/b/mytpl.hbs"), Resolved::NotFound));
}

#[test]
fn extensionless_paths_fall_through() {
    let store = store_with(&[("greeting", "Hello, {{name}}!")]);
    let d = doc("{\"name\":\"Ada\"}");
    assert!(matches!(resolve(&store, &d, "/greeting"), Resolved::Static));
    assert!(matches!(resolve(&store, &d, "/"), Resolved::Static));
    assert!(matches!(resolve(&store, &d, "/.html"), Resolved::Static));
    assert!(matches!(resolve(&store, &d, "nodirsep"), Resolved::Static));
}

#[test]
fn unknown_template_falls_through() {
    let store = store_with(&[("greeting", "Hello, {{name}}!")]);
    let d = doc("{\"name\":\"Ada\"}");
    assert!(matches!(resolve(&store, &d, "/other.html"), Resolved::Static));
}

#[test]
fn percent_encoded_path_is_decoded() {
    let store = store_with(&[("greeting", "Hello, {{name}}!")]);
    let d = doc("{\"name\":\"Ada\"}");
    let out = page(resolve(&store, &d, "/greeting%2Ehtml"));
    assert_eq!(out, "Hello, Ada!");
}

#[test]
fn undecodable_path_falls_through() {
    let store = store_with(&[("greeting", "Hello, {{name}}!")]);
    let d = doc("{\"name\":\"Ada\"}");
    assert!(matches!(resolve(&store, &d, "/bad%FF.html"), Resolved::Static));
}

#[test]
fn strict_mode_failure_is_not_found() {
    let store = store_with(&[("strictpage", "value: {{missing}}")]);
    let d = doc("{\"present\":1}");
    assert!(matches!(resolve(&store, &d, "/strictpage.html"), Resolved::NotFound));
}
