use ceph_usage::size::parse_pool_size;

#[test]
fn size_option_text_parses() {
    assert_eq!(parse_pool_size("size: 3"), Ok(3));
}

#[test]
fn bare_number_parses() {
    assert_eq!(parse_pool_size("3"), Ok(3));
}

#[test]
fn word_instead_of_number_is_rejected() {
    assert_eq!(
        parse_pool_size("size: three"),
        Err(String::from("invalid digit found in string"))
    );
}

#[test]
fn empty_string_is_rejected() {
    assert_eq!(
        parse_pool_size(""),
        Err(String::from("Invalid size string returned from librados: "))
    );
}

#[test]
fn whitespace_only_is_rejected() {
    assert_eq!(
        parse_pool_size(" \t\n  "),
        Err(String::from("Invalid size string returned from librados:  \t\n  "))
    );
}

#[test]
fn leading_plus_is_accepted() {
    assert_eq!(parse_pool_size("size: +7"), Ok(7));
}

#[test]
fn plus_alone_is_rejected() {
    assert_eq!(
        parse_pool_size("size: +"),
        Err(String::from("invalid digit found in string"))
    );
}

#[test]
fn largest_value_parses() {
    assert_eq!(parse_pool_size("size: 4294967295"), Ok(u32::MAX));
}

#[test]
fn value_out_of_range_is_rejected() {
    assert_eq!(
        parse_pool_size("size: 4294967296"),
        Err(String::from("number too large to fit in target type"))
    );
}

#[test]
fn trailing_whitespace_is_skipped() {
    assert_eq!(parse_pool_size("size: 2  \n"), Ok(2));
}

#[test]
fn only_the_last_token_counts() {
    assert_eq!(parse_pool_size("min_size 1 size 10"), Ok(10));
    assert_eq!(
        parse_pool_size("10 b"),
        Err(String::from("invalid digit found in string"))
    );
}

#[test]
fn unicode_whitespace_splits_tokens() {
    assert_eq!(parse_pool_size("3\u{a0}"), Ok(3));
    assert_eq!(parse_pool_size("size:\u{2003}4"), Ok(4));
    assert_eq!(parse_pool_size("size:\u{85}5\u{3000}"), Ok(5));
}

#[test]
fn unicode_whitespace_only_is_rejected() {
    assert_eq!(
        parse_pool_size("\u{a0}\u{2028}"),
        Err(String::from(
            "Invalid size string returned from librados: \u{a0}\u{2028}"
        ))
    );
}

#[test]
fn leading_zeros_parse() {
    assert_eq!(parse_pool_size("007"), Ok(7));
}

#[test]
fn zero_parses() {
    assert_eq!(parse_pool_size("size: 0"), Ok(0));
}

#[test]
fn overflow_is_noticed_before_a_later_bad_digit() {
    assert_eq!(
        parse_pool_size("99999999999x"),
        Err(String::from("number too large to fit in target type"))
    );
}
