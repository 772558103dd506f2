use cosmoclerk::render::chain_page;
use cosmoclerk::session::{parse_button, Event};
use cosmoclerk::text::{contains, escape_markdown, lex_le_str, position_folded};

#[test]
fn test_escape_markdown() {
    let escaped = escape_markdown("Test_string*with[special]chars");
    assert_eq!(escaped, "Test\\_string\\*with\\[special\\]chars");
    let escaped = escape_markdown("https://example.com/path?param=value");
    assert_eq!(escaped, "https://example\\.com/path?param\\=value");
}

#[test]
fn escape_leaves_plain_text() {
    assert_eq!(escape_markdown(""), "");
    assert_eq!(escape_markdown("osmosis"), "osmosis");
    assert_eq!(escape_markdown("a!b"), "a\\!b");
}

#[test]
fn numbers_to_and_from_text() {
    assert_eq!(parse_button("page:42"), Event::Page(42));
    assert_eq!(parse_button("page:+42"), Event::Page(42));
    assert_eq!(parse_button("page:-1"), Event::Button("page:-1".to_string()));
    assert_eq!(parse_button("page:"), Event::Button("page:".to_string()));
    assert_eq!(
        parse_button("page:18446744073709551616"),
        Event::Button("page:18446744073709551616".to_string())
    );
    let chains: Vec<String> = (0..300).map(|i| format!("c{}", i)).collect();
    let page = chain_page(&chains, 10, false, &None);
    let nav = &page.buttons[page.buttons.len() - 2];
    assert_eq!(nav[0].data, "page:9");
    assert_eq!(nav[1].data, "page:11");
}

#[test]
fn case_insensitive_search() {
    let names = vec!["osmosis".to_string(), "cosmoshub".to_string()];
    assert_eq!(position_folded(&names, "COSMOSHUB"), Some(1));
    assert_eq!(position_folded(&names, "juno"), None);
}

#[test]
fn order_and_substrings() {
    assert!(lex_le_str("a", "b"));
    assert!(!lex_le_str("b", "a"));
    assert!(lex_le_str("ab", "abc"));
    assert!(lex_le_str("abc", "abc"));
    assert!(contains("osmosistestnet", "testnet"));
    assert!(!contains("osmosis", "testnet"));
}
