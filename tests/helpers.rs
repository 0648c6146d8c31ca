use kalshi::decimal::decimal_string;
use kalshi::params::present_params;
use kalshi::signing::{assemble_headers, canonical_message};

#[test]
fn canonical_message_joins_without_separators() {
    assert_eq!(canonical_message(1700000000000, "GET", "/markets"), "1700000000000GET/markets");
}

#[test]
fn canonical_message_keeps_path_verbatim() {
    assert_eq!(
        canonical_message(0, "POST", "/portfolio/orders/"),
        "0POST/portfolio/orders/"
    );
}

#[test]
fn decimal_of_zero_and_extremes() {
    assert_eq!(decimal_string(0), "0");
    assert_eq!(decimal_string(9), "9");
    assert_eq!(decimal_string(10), "10");
    assert_eq!(decimal_string(1700000000000), "1700000000000");
    assert_eq!(decimal_string(u128::MAX), u128::MAX.to_string());
}

#[test]
fn headers_carry_base64_of_signature() {
    let h = assemble_headers("key-1", b"hello", 42);
    assert_eq!(h.len(), 3);
    assert_eq!(h[0], ("KALSHI-ACCESS-KEY", "key-1".to_string()));
    assert_eq!(h[1], ("KALSHI-ACCESS-SIGNATURE", "aGVsbG8=".to_string()));
    assert_eq!(h[2], ("KALSHI-ACCESS-TIMESTAMP", "42".to_string()));
}

#[test]
fn base64_padding_cases() {
    assert_eq!(assemble_headers("k", b"", 0)[1].1, "");
    assert_eq!(assemble_headers("k", b"f", 0)[1].1, "Zg==");
    assert_eq!(assemble_headers("k", b"fo", 0)[1].1, "Zm8=");
    assert_eq!(assemble_headers("k", b"foo", 0)[1].1, "Zm9v");
    assert_eq!(assemble_headers("k", &[0xfb, 0xff], 0)[1].1, "+/8=");
}

#[test]
fn present_params_keeps_only_values_in_order() {
    let entries = vec![
        ("limit", Some("10".to_string())),
        ("cursor", None),
        ("status", Some("open".to_string())),
    ];
    let params = present_params(&entries);
    assert_eq!(
        params,
        vec![("limit", "10".to_string()), ("status", "open".to_string())]
    );
}

#[test]
fn present_params_of_nothing_is_empty() {
    assert!(present_params(&vec![("cursor", None)]).is_empty());
    assert!(present_params(&vec![]).is_empty());
}
