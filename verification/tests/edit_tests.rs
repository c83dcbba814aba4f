use mcp_filesystem::edit::apply_edit;

#[test]
fn single_occurrence_is_replaced() {
    let new_text = apply_edit("hello\n", "hello\n", "world").unwrap();
    assert_eq!(new_text, "world");
}

#[test]
fn occurrence_in_the_middle() {
    let new_text = apply_edit("fn main() { old(); }", "old()", "new_call()").unwrap();
    assert_eq!(new_text, "fn main() { new_call(); }");
}

#[test]
fn length_changes_by_the_difference() {
    let text = "alpha beta gamma";
    let new_text = apply_edit(text, "beta", "b").unwrap();
    assert_eq!(new_text, "alpha b gamma");
    assert_eq!(new_text.chars().count(), text.chars().count() + 1 - 4);
}

#[test]
fn anchor_not_found_gives_zero() {
    let e = apply_edit("hello", "bye", "x").unwrap_err();
    assert_eq!(e.count, 0);
}

#[test]
fn anchor_found_twice_gives_two() {
    let e = apply_edit("ab ab", "ab", "x").unwrap_err();
    assert_eq!(e.count, 2);
}

#[test]
fn occurrences_do_not_overlap() {
    let e = apply_edit("aaaa", "aa", "x").unwrap_err();
    assert_eq!(e.count, 2);
    assert_eq!(apply_edit("aaa", "aa", "x").unwrap(), "xa");
}

#[test]
fn empty_anchor_in_empty_text() {
    assert_eq!(apply_edit("", "", "new").unwrap(), "new");
}

#[test]
fn empty_anchor_in_text_is_ambiguous() {
    let e = apply_edit("abc", "", "x").unwrap_err();
    assert_eq!(e.count, 4);
}

#[test]
fn anchor_longer_than_text() {
    let e = apply_edit("ab", "abc", "x").unwrap_err();
    assert_eq!(e.count, 0);
}

#[test]
fn replacement_may_hold_the_anchor() {
    assert_eq!(apply_edit("one two", "two", "two two").unwrap(), "one two two");
}

#[test]
fn text_beyond_ascii() {
    assert_eq!(apply_edit("grüße, wörld", "wörld", "welt").unwrap(), "grüße, welt");
}

#[test]
fn edit_agrees_with_matches_and_replace() {
    let texts = ["", "a", "aaa", "abcabc", "hello\nworld\n", "xyxyx", "initial content\n"];
    let anchors = ["", "a", "aa", "abc", "x", "yx", "\n", "initial content\n", "zz"];
    for text in texts {
        for anchor in anchors {
            let count = text.matches(anchor).count();
            match apply_edit(text, anchor, "R") {
                Ok(new_text) => {
                    assert_eq!(count, 1, "{:?} in {:?}", anchor, text);
                    assert_eq!(new_text, text.replace(anchor, "R"));
                }
                Err(e) => {
                    assert_ne!(count, 1, "{:?} in {:?}", anchor, text);
                    assert_eq!(e.count, count, "{:?} in {:?}", anchor, text);
                }
            }
        }
    }
}
