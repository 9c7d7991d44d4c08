use xbrowser::tokens::split_tokens;

#[test]
fn split_tokens_at_a_space() {
    let set = split_tokens("foo bar", ' ');
    assert_eq!(set.len(), 2);
    assert!(set.contains("foo") && set.contains("bar"));
}

#[test]
fn split_tokens_of_nothing_is_one_empty_token() {
    let set = split_tokens("", ',');
    assert_eq!(set.len(), 1);
    assert!(set.contains(""));
}

#[test]
fn split_tokens_without_the_separator_is_the_whole() {
    let set = split_tokens("foo bar", ',');
    assert_eq!(set.len(), 1);
    assert!(set.contains("foo bar"));
}

#[test]
fn split_tokens_at_another_separator() {
    let set = split_tokens("a,b,,c,", ',');
    assert_eq!(set.len(), 4);
    for token in ["a", "b", "c", ""] {
        assert!(set.contains(token));
    }
}

#[test]
fn split_tokens_at_a_wide_separator() {
    let set = split_tokens("eins→zwei→drei", '→');
    assert_eq!(set.len(), 3);
    for token in ["eins", "zwei", "drei"] {
        assert!(set.contains(token));
    }
}
