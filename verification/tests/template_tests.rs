use quickinject::template::render;
use quickinject::template::render_page;

#[test]
fn template_round_trip_empty_fragment() {
    assert_eq!(render("before{{MARK}}after", "{{MARK}}", ""), "beforeafter");
}

#[test]
fn template_round_trip_nonempty_fragment() {
    assert_eq!(render("before{{MARK}}after", "{{MARK}}", "X;"), "beforeX;after");
}

#[test]
fn render_replaces_every_occurrence() {
    assert_eq!(render("a{{M}}b{{M}}c", "{{M}}", "-"), "a-b-c");
}

#[test]
fn render_without_occurrence_is_identity() {
    assert_eq!(render("no marker here", "{{M}}", "x"), "no marker here");
}

#[test]
fn render_page_uses_the_plugins_placeholder() {
    let page = render_page("var plugins = [];{{ PLUGINS }}done();", "plugins.push(new Foo);");
    assert_eq!(page, "var plugins = [];plugins.push(new Foo);done();");
}

#[test]
fn render_page_with_empty_fragment_removes_placeholder() {
    let page = render_page("var plugins = [];{{ PLUGINS }}done();", "");
    assert_eq!(page, "var plugins = [];done();");
}
