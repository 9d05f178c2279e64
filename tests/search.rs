use ytermusic::search::{clicked_item, plus_spaces, search_query, wrapped_selection};

#[test]
fn query_encodes_and_uses_plus_for_spaces() {
    assert_eq!(search_query("hello world"), "hello+world");
    assert_eq!(search_query("a&b c"), "a%26b+c");
    assert_eq!(search_query(""), "");
}

#[test]
fn plus_spaces_scans_from_the_left() {
    assert_eq!(plus_spaces("%20%2020%20"), "++20+");
    assert_eq!(plus_spaces("%2"), "%2");
}

#[test]
fn selection_wraps() {
    assert_eq!(wrapped_selection(-1, 0), 0);
    assert_eq!(wrapped_selection(-1, 5), 4);
    assert_eq!(wrapped_selection(5, 5), 0);
    assert_eq!(wrapped_selection(2, 5), 2);
}

#[test]
fn click_maps_to_item() {
    assert_eq!(clicked_item(2, 0, 5), Some(2));
    assert_eq!(clicked_item(2, 3, 5), Some(4));
    assert_eq!(clicked_item(3, 3, 5), None);
    assert_eq!(clicked_item(0, 0, 0), None);
}
