use ozpv::routing::{home_route_path, not_found_link, resolve, Page};

#[test]
fn root_path_renders_home() {
    assert_eq!(resolve(""), Page::Home);
    assert_eq!(resolve("/"), Page::Home);
}

#[test]
fn undefined_paths_fall_through_to_not_found() {
    assert_eq!(resolve("/about"), Page::NotFound);
    assert_eq!(resolve("x"), Page::NotFound);
    assert_eq!(resolve("//"), Page::NotFound);
    assert_eq!(resolve("/index.html"), Page::NotFound);
    assert_eq!(resolve(" "), Page::NotFound);
}

#[test]
fn not_found_page_links_back_to_root() {
    assert_eq!(not_found_link(), "/");
}

#[test]
fn route_table_has_the_empty_segment() {
    assert_eq!(home_route_path(), "");
}
