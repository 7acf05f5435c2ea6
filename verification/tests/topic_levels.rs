use tristate_bridge::topic::topic_segment;

#[test]
fn levels_of_a_plain_topic() {
    assert_eq!(topic_segment("home/living/d2777/set", 0), Some("home"));
    assert_eq!(topic_segment("home/living/d2777/set", 1), Some("living"));
    assert_eq!(topic_segment("home/living/d2777/set", 2), Some("d2777"));
    assert_eq!(topic_segment("home/living/d2777/set", 3), Some("set"));
    assert_eq!(topic_segment("home/living/d2777/set", 4), None);
}

#[test]
fn empty_topic_is_one_empty_level() {
    assert_eq!(topic_segment("", 0), Some(""));
    assert_eq!(topic_segment("", 1), None);
}

#[test]
fn separators_at_the_edges_give_empty_levels() {
    assert_eq!(topic_segment("/", 0), Some(""));
    assert_eq!(topic_segment("/", 1), Some(""));
    assert_eq!(topic_segment("/", 2), None);
    assert_eq!(topic_segment("a/b/", 2), Some(""));
    assert_eq!(topic_segment("//x", 2), Some("x"));
    assert_eq!(topic_segment("a//b", 1), Some(""));
}

#[test]
fn levels_match_a_plain_split() {
    let topics = ["", "/", "a", "a/b", "a/b/c", "a/b/c/d/e", "//", "///", "x//y/", "/lead", "trail/"];
    for topic in topics.iter() {
        let expected: Vec<&str> = topic.split('/').collect();
        for index in 0..expected.len() + 2 {
            assert_eq!(topic_segment(topic, index), expected.get(index).copied());
        }
    }
}

#[test]
fn levels_of_text_beyond_ascii() {
    assert_eq!(topic_segment("haus/küche/schalter/an", 1), Some("küche"));
    assert_eq!(topic_segment("haus/küche/schalter/an", 2), Some("schalter"));
    assert_eq!(topic_segment("家/居間/電灯", 2), Some("電灯"));
    assert_eq!(topic_segment("家/居間/電灯", 3), None);
}
