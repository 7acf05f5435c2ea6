use tristate_bridge::text::same_text;

#[test]
fn equal_texts_are_the_same() {
    assert!(same_text("", ""));
    assert!(same_text("0", "0"));
    assert!(same_text("1", "1"));
    assert!(same_text("FFFFFFFF0001", "FFFFFFFF0001"));
    assert!(same_text("küche", "küche"));
}

#[test]
fn different_texts_are_not_the_same() {
    assert!(!same_text("0", "1"));
    assert!(!same_text("0", ""));
    assert!(!same_text("", "0"));
    assert!(!same_text("0", "00"));
    assert!(!same_text("a", "A"));
    assert!(!same_text("1", " 1"));
    assert!(!same_text("1", "１"));
    assert!(!same_text("ab", "ba"));
}

#[test]
fn same_text_agrees_with_plain_equality() {
    let texts = ["", "0", "1", "01", "10", "é", "e\u{301}", "😀", "home/living"];
    for left in texts.iter() {
        for right in texts.iter() {
            assert_eq!(same_text(left, right), left == right);
        }
    }
}
