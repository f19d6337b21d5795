use handlebars_server::render::rsplit2;
use handlebars_server::templates::{template_name, TemplateStore};

fn sources(entries: &[(&str, &str)]) -> Vec<(String, String)> {
    entries.iter().map(|(n, s)| (n.to_string(), s.to_string())).collect()
}

fn rendered_page(store: &TemplateStore, name: &str, data: &str) -> String {
    let value: serde_json::Value = serde_json::from_str(data).expect("data should parse");
    store.render(name, &value).expect("render should succeed")
}

#[test]
fn load_compiles_all_templates() {
    let store = TemplateStore::load(&sources(&[
        ("a", "first {{x}}"),
        ("b", "second {{y}}"),
    ]))
    .expect("both templates compile");
    assert!(store.has_template("a"));
    assert!(store.has_template("b"));
    assert!(!store.has_template("c"));
}

#[test]
fn load_fails_as_a_whole() {
    let result = TemplateStore::load(&sources(&[
        ("good", "fine {{x}}"),
        ("broken", "{{#if x}}never closed"),
    ]));
    let err = match result {
        Ok(_) => panic!("a broken template must fail the whole load"),
        Err(e) => e,
    };
    assert_eq!(err.template, "broken");
}

#[test]
fn render_unknown_name_fails() {
    let store = TemplateStore::load(&sources(&[("a", "text")])).expect("compiles");
    let value: serde_json::Value = serde_json::from_str("{}").expect("parses");
    assert!(store.render("nope", &value).is_err());
}

#[test]
fn reload_swaps_the_whole_set() {
    let mut store = TemplateStore::load(&sources(&[("page", "old body")])).expect("compiles");
    assert_eq!(rendered_page(&store, "page", "{}"), "old body");

    store
        .reload(&sources(&[("page", "new body"), ("extra", "added")]))
        .expect("new set compiles");
    assert_eq!(rendered_page(&store, "page", "{}"), "new body");
    assert_eq!(rendered_page(&store, "extra", "{}"), "added");
}

#[test]
fn failed_reload_keeps_previous_set() {
    let mut store = TemplateStore::load(&sources(&[("page", "still here")])).expect("compiles");
    let result = store.reload(&sources(&[("page", "{{#each broken")]));
    assert!(result.is_err());
    assert_eq!(rendered_page(&store, "page", "{}"), "still here");
}

#[test]
fn collision_last_entry_wins() {
    let store = TemplateStore::load(&sources(&[("n", "first"), ("n", "second")]))
        .expect("compiles");
    assert_eq!(rendered_page(&store, "n", "{}"), "second");
}

#[test]
fn template_names_strip_the_extension() {
    assert_eq!(template_name("greeting.hbs"), Some("greeting".to_string()));
    assert_eq!(template_name("dir/page.hbs"), Some("dir/page".to_string()));
    assert_eq!(template_name("a.b.hbs"), Some("a.b".to_string()));
    assert_eq!(template_name("style.css"), None);
    assert_eq!(template_name(".hbs"), None);
    assert_eq!(template_name("dir/.hbs"), None);
    assert_eq!(template_name("noext"), None);
}

#[test]
fn empty_directory_loads_an_empty_store() {
    let store = TemplateStore::load(&Vec::new()).expect("nothing to compile");
    assert!(!store.has_template("anything"));
}

#[test]
fn rsplit2_splits_at_the_last_separator() {
    assert_eq!(rsplit2("a/b/c", '/'), Some(("a/b", "c")));
    assert_eq!(rsplit2("/c.html", '/'), Some(("", "c.html")));
    assert_eq!(rsplit2("c.html", '.'), Some(("c", "html")));
    assert_eq!(rsplit2("abc", '/'), None);
    assert_eq!(rsplit2("", '/'), None);
    assert_eq!(rsplit2("/", '/'), Some(("", "")));
}
