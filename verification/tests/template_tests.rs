use lemmy_scheduled_post_bot::FieldLookup;
use lemmy_scheduled_post_bot::Template;

fn table_of(pairs: &[(&str, &str)]) -> FieldLookup {
    let mut table = FieldLookup::new();
    for (name, value) in pairs {
        table.put(name.to_string(), value.to_string());
    }
    table
}

fn render(text: &str, pairs: &[(&str, &str)]) -> String {
    let template = Template { text: text.to_string() };
    template.render(&table_of(pairs))
}

#[test]
fn template_substitutes_known_placeholder() {
    assert_eq!(render("Hello {name}!", &[("name", "World")]), "Hello World!");
}

#[test]
fn template_drops_unknown_placeholder() {
    assert_eq!(render("{a}{missing}{b}", &[("a", "X"), ("b", "Y")]), "XY");
}

#[test]
fn template_discards_unterminated_placeholder() {
    assert_eq!(render("open {brace", &[("brace", "value")]), "open ");
}

#[test]
fn template_passes_plain_text_through() {
    assert_eq!(render("no placeholders here", &[]), "no placeholders here");
}

#[test]
fn template_empty_text_renders_empty() {
    assert_eq!(render("", &[("name", "World")]), "");
}

#[test]
fn template_brace_inside_placeholder_is_a_name_character() {
    // A second `{` does not open a nested placeholder: it becomes part of
    // the pending name, which then matches nothing.
    assert_eq!(render("a{b{c}d", &[("b", "B"), ("c", "C"), ("b{c", "INNER")]), "aINNERd");
}

#[test]
fn template_renders_numeric_value_text() {
    assert_eq!(render("count: {n}", &[("n", "42")]), "count: 42");
}

#[test]
fn template_result_is_not_reevaluated() {
    // A substituted value that itself looks like a placeholder stays as it
    // is: placeholders are found in the input text only.
    assert_eq!(render("{a}", &[("a", "{b}"), ("b", "deep")]), "{b}");
}

#[test]
fn lookup_first_writer_wins() {
    let mut table = FieldLookup::new();
    table.put("name".to_string(), "first".to_string());
    table.put("name".to_string(), "second".to_string());
    assert_eq!(table.get(&"name".to_string()), Some(&"first".to_string()));
    assert_eq!(table.get(&"other".to_string()), None);
}
