use koinly_convert::{is_dollar, is_eligible, is_transfer};
use koinly_convert::text::{chars_of, contains, occurs_at_in, same_text};

#[test]
fn the_five_codes_are_dollars() {
    assert!(is_dollar("USDC"));
    assert!(is_dollar("TUSD"));
    assert!(is_dollar("USDP"));
    assert!(is_dollar("BUSD"));
    assert!(is_dollar("HUSD"));
}

#[test]
fn other_codes_are_not_dollars() {
    assert!(!is_dollar("ETH"));
    assert!(!is_dollar("BTC"));
    assert!(!is_dollar("USDT"));
    assert!(!is_dollar("USD"));
    assert!(!is_dollar(""));
}

#[test]
fn dollar_codes_match_exactly() {
    assert!(!is_dollar("usdc"));
    assert!(!is_dollar("Usdc"));
    assert!(!is_dollar(" USDC"));
    assert!(!is_dollar("USDC "));
    assert!(!is_dollar("USDCX"));
    assert!(!is_dollar("USD"));
}

#[test]
fn transfer_marker_is_found_anywhere() {
    assert!(is_transfer("Transfer from"));
    assert!(is_transfer("Transfer from Alice"));
    assert!(is_transfer("memo: Transfer from Alice"));
    assert!(is_transfer("xTransfer fromx"));
    assert!(is_transfer("Transfer Transfer from"));
}

#[test]
fn transfer_marker_is_case_sensitive() {
    assert!(!is_transfer("transfer from Alice"));
    assert!(!is_transfer("TRANSFER FROM Alice"));
    assert!(!is_transfer("Transfer From Alice"));
}

#[test]
fn transfer_marker_must_be_whole() {
    assert!(!is_transfer(""));
    assert!(!is_transfer("Transfer"));
    assert!(!is_transfer("Transfer fro"));
    assert!(!is_transfer("Transfer  from"));
    assert!(!is_transfer("Transferfrom"));
    assert!(!is_transfer("0xabcdef"));
}

#[test]
fn eligible_needs_dollar_and_no_transfer() {
    assert!(is_eligible("USDC", "abcTXID"));
    assert!(is_eligible("HUSD", ""));
    assert!(!is_eligible("USDC", "Transfer from Alice"));
    assert!(!is_eligible("ETH", "abcTXID"));
    assert!(!is_eligible("ETH", "Transfer from Alice"));
}

#[test]
fn chars_of_gives_each_character() {
    assert_eq!(chars_of(""), Vec::<char>::new());
    assert_eq!(chars_of("abc"), vec!['a', 'b', 'c']);
    assert_eq!(chars_of("a\u{e9}\u{1f600}z"), vec!['a', '\u{e9}', '\u{1f600}', 'z']);
}

#[test]
fn same_text_compares_whole_strings() {
    assert!(same_text("", ""));
    assert!(same_text("txid", "txid"));
    assert!(!same_text("txid", "txi"));
    assert!(!same_text("txi", "txid"));
    assert!(!same_text("txid", "txiD"));
    assert!(!same_text("", "a"));
}

#[test]
fn contains_finds_a_word_at_any_place() {
    assert!(contains("hello world", "hello"));
    assert!(contains("hello world", "o w"));
    assert!(contains("hello world", "world"));
    assert!(contains("hello world", "hello world"));
    assert!(!contains("hello world", "hello world!"));
    assert!(!contains("hello world", "worlds"));
    assert!(!contains("", "a"));
    assert!(contains("aab", "ab"));
    assert!(contains("na\u{ef}ve caf\u{e9}", "caf\u{e9}"));
}

#[test]
fn contains_finds_the_empty_word_everywhere() {
    assert!(contains("", ""));
    assert!(contains("abc", ""));
}

#[test]
fn occurs_at_in_checks_one_place() {
    let hay = chars_of("abcabc");
    let word = chars_of("bc");
    assert!(!occurs_at_in(&hay, &word, 0));
    assert!(occurs_at_in(&hay, &word, 1));
    assert!(!occurs_at_in(&hay, &word, 2));
    assert!(occurs_at_in(&hay, &word, 4));
}

#[test]
fn occurs_at_in_is_false_where_the_word_does_not_fit() {
    let hay = chars_of("abcabc");
    let word = chars_of("bc");
    assert!(!occurs_at_in(&hay, &word, 5));
    assert!(!occurs_at_in(&hay, &word, 6));
    assert!(!occurs_at_in(&hay, &word, 100));
    assert!(!occurs_at_in(&word, &hay, 0));
    assert!(occurs_at_in(&hay, &Vec::new(), 6));
    assert!(!occurs_at_in(&hay, &Vec::new(), 7));
}
