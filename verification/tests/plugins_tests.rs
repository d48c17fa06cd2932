use quickinject::plugins::assemble_listing;
use quickinject::plugins::assemble_plugins;

#[test]
fn plugin_concatenation_in_listing_order() {
    let reads = vec![Some(String::from("Foo")), Some(String::from("Bar"))];
    let fragment = assemble_plugins(&reads);
    assert_eq!(fragment, "plugins.push(new Foo);plugins.push(new Bar);");
}

#[test]
fn missing_plugin_directory_degrades_to_empty_fragment() {
    let fragment = assemble_listing(&None);
    assert_eq!(fragment, "");
}

#[test]
fn unreadable_file_is_skipped() {
    let reads = vec![
        Some(String::from("Foo")),
        None,
        Some(String::from("Bar")),
    ];
    let fragment = assemble_plugins(&reads);
    assert_eq!(fragment, "plugins.push(new Foo);plugins.push(new Bar);");
}

#[test]
fn empty_listing_yields_empty_fragment() {
    let reads: Vec<Option<String>> = Vec::new();
    assert_eq!(assemble_plugins(&reads), "");
    assert_eq!(assemble_listing(&Some(reads)), "");
}

#[test]
fn single_plugin_statement() {
    let reads = vec![Some(String::from("Widget"))];
    assert_eq!(assemble_listing(&Some(reads)), "plugins.push(new Widget);");
}
