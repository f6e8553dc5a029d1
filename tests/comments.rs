use comment_filter::comments::{exclude_comments, ExcludingComments};

/// Filters the bytes of `input` and maps the output back to text.
fn filter(input: &str) -> String {
    exclude_comments(input.as_bytes().to_vec())
        .into_filtered()
        .into_iter()
        .map(|b| b as char)
        .collect()
}

#[test]
fn empty() {
    assert!(filter("").is_empty());
}

#[test]
fn single_char() {
    assert_eq!(filter("0"), "0");
}

#[test]
fn two_chars() {
    assert_eq!(filter("ab"), "ab");
}

#[test]
fn comment() {
    assert_eq!(filter("ab//cd"), "ab");
}

#[test]
fn comments_are_ended_by_new_line() {
    assert_eq!(filter("ab//comment\nde"), "ab\nde");
}

#[test]
fn new_lines_without_comments() {
    assert_eq!(filter("ab\nde"), "ab\nde");
}

#[test]
fn single_slash_is_not_excluded() {
    assert_eq!(filter("ab/cd"), "ab/cd");
}

#[test]
fn multiline() {
    assert_eq!(
        filter(
            "
line 1 //comment 1
line 2 // comment 2 // comment 3
line 3
line 4 // comment 4"
        ),
        "
line 1 
line 2 
line 3
line 4 "
    );
}

#[test]
fn trailing_single_slash_is_kept() {
    assert_eq!(filter("a/"), "a/");
    assert_eq!(filter("/"), "/");
}

#[test]
fn trailing_opener_is_dropped() {
    assert_eq!(filter("a//"), "a");
    assert_eq!(filter("//"), "");
}

#[test]
fn slash_before_newline_is_kept() {
    assert_eq!(filter("a/\nb"), "a/\nb");
}

#[test]
fn three_slashes_open_a_comment() {
    assert_eq!(filter("x///c\nd"), "x\nd");
}

#[test]
fn slashes_inside_comment_are_discarded() {
    assert_eq!(filter("a// b / c // d\ne"), "a\ne");
}

#[test]
fn input_without_slash_is_unchanged() {
    let input = "hex 00 ff\n\tde ad be ef\n";
    assert_eq!(filter(input), input);
}

#[test]
fn filtering_twice_equals_filtering_once() {
    for input in ["a/ //c\n/x//y\n/", "x///c\nd", "a/b//c\n//\n/", ""] {
        let once = filter(input);
        assert_eq!(filter(&once), once);
    }
}

#[test]
fn output_is_not_longer() {
    for input in ["a/", "a//b", "/", "//\n//\n", "ab/cd"] {
        assert!(filter(input).len() <= input.len());
    }
}

#[test]
fn newline_count_is_kept() {
    let input = "\n//a\n/\n//b\n\nc//\n";
    let count = |s: &str| s.bytes().filter(|b| *b == b'\n').count();
    assert_eq!(count(&filter(input)), count(input));
    assert_eq!(count(input), 6);
}

#[test]
fn pull_by_pull() {
    let mut it = ExcludingComments::new_from_iter(b"a/b//c\nd/".to_vec());
    let mut out = Vec::new();
    while let Some(b) = it.next() {
        out.push(b);
    }
    assert_eq!(out, b"a/b\nd/".to_vec());
    assert_eq!(it.next(), None);
}
