use tutorial_helpers::banner::example_title;
use tutorial_helpers::banner::section_subtitle;
use tutorial_helpers::banner::section_title;

#[test]
fn hello_title_banner() {
    let lines = example_title("Hello");
    assert_eq!(lines, vec!["/*********\\", "|  Hello  |", "\\*********/"]);
}

#[test]
fn hello_section_banner() {
    let lines = section_title("Hello");
    assert_eq!(lines, vec!["/---------\\", "|  Hello  |", "\\---------/"]);
}

#[test]
fn short_section_banner() {
    let lines = section_title("Hi");
    assert_eq!(lines, vec!["/------\\", "|  Hi  |", "\\------/"]);
}

#[test]
fn hello_subtitle() {
    let lines = section_subtitle("Hello");
    assert_eq!(lines, vec!["Hello", "====="]);
}

#[test]
fn empty_title_banner_is_minimal() {
    let lines = example_title("");
    assert_eq!(lines, vec!["/****\\", "|    |", "\\****/"]);
    // the border is exactly as long as the fixed padding constant
    assert_eq!(lines[0].len() - 2, 4);
}

#[test]
fn empty_section_banner_is_minimal() {
    let lines = section_title("");
    assert_eq!(lines, vec!["/----\\", "|    |", "\\----/"]);
}

#[test]
fn empty_subtitle_is_minimal() {
    let lines = section_subtitle("");
    assert_eq!(lines, vec!["", ""]);
}

#[test]
fn title_banner_is_three_wide_lines() {
    let title = "Primitives";
    let lines = example_title(title);
    assert_eq!(lines.len(), 3);
    for line in &lines {
        assert!(line.chars().count() >= title.len() + 4);
    }
    assert!(lines[1].contains(title));
}

#[test]
fn section_banner_is_three_wide_lines() {
    let title = "Scalar Types";
    let lines = section_title(title);
    assert_eq!(lines.len(), 3);
    for line in &lines {
        assert!(line.chars().count() >= title.len() + 4);
    }
    assert!(lines[1].contains(title));
}

#[test]
fn subtitle_is_two_lines_with_full_underline() {
    let title = "Nesting and Labels";
    let lines = section_subtitle(title);
    assert_eq!(lines.len(), 2);
    assert_eq!(lines[0], title);
    assert_eq!(lines[1].len(), title.len());
    assert!(lines[1].chars().all(|c| c == '='));
}

#[test]
fn rendering_twice_is_byte_identical() {
    assert_eq!(example_title("Example 1: Hello World"), example_title("Example 1: Hello World"));
    assert_eq!(section_title("Formatting"), section_title("Formatting"));
    assert_eq!(section_subtitle("File Hierarchy"), section_subtitle("File Hierarchy"));
}

#[test]
fn title_centering_pads_both_sides_evenly() {
    let lines = example_title("abc");
    assert_eq!(lines[1], "|  abc  |");
}
