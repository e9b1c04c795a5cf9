//! Title and description of an image.

use elizaos_plugin_gateway::title::{begins_title_line, describe, extract_title, DEFAULT_TITLE};
use elizaos_plugin_gateway::ImageDescriptionResult;

fn result(title: &str, description: &str) -> ImageDescriptionResult {
    ImageDescriptionResult { title: title.to_string(), description: description.to_string() }
}

#[test]
fn test_title_line_is_split_off() {
    assert_eq!(
        extract_title("Title: Sunset\nA vivid orange sky."),
        result("Sunset", "A vivid orange sky.")
    );
}

#[test]
fn test_text_without_title_is_kept_whole() {
    assert_eq!(
        extract_title("A vivid orange sky."),
        result("Image Analysis", "A vivid orange sky.")
    );
    assert_eq!(extract_title("  padded \n"), result("Image Analysis", "  padded \n"));
    assert_eq!(extract_title(""), result("Image Analysis", ""));
    assert_eq!(DEFAULT_TITLE, "Image Analysis");
}

#[test]
fn test_title_is_found_without_regard_to_case() {
    assert_eq!(extract_title("TITLE:   Dawn  \nMist."), result("Dawn", "Mist."));
    assert_eq!(extract_title("title Dusk\nStars."), result("Dusk", "Stars."));
}

#[test]
fn test_title_after_other_lines() {
    assert_eq!(
        extract_title("Here you go.\nTitle: Harbor\nBoats at rest."),
        result("Harbor", "Here you go.\nBoats at rest.")
    );
}

#[test]
fn test_only_first_title_is_removed() {
    assert_eq!(
        extract_title("Title: One\nTitle: Two\nBody"),
        result("One", "Title: Two\nBody")
    );
}

#[test]
fn test_title_as_last_line() {
    assert_eq!(extract_title("Body text.\nTitle: End"), result("End", "Body text."));
}

#[test]
fn test_describe_for_each_finding() {
    assert_eq!(describe("whole", Some("  Found \t"), " rest \n"), result("Found", "rest"));
    assert_eq!(describe(" whole ", None, "unused"), result("Image Analysis", " whole "));
    assert_eq!(describe("whole", Some(""), ""), result("", ""));
}

#[test]
fn test_title_inside_a_word_is_no_title() {
    assert_eq!(
        extract_title("Subtitle: none\nA red barn."),
        result("Image Analysis", "Subtitle: none\nA red barn.")
    );
}

#[test]
fn test_title_inside_a_line_is_no_title() {
    assert_eq!(
        extract_title("The title: Dawn\nMist over water."),
        result("Image Analysis", "The title: Dawn\nMist over water.")
    );
    assert_eq!(
        extract_title(" Title: Dawn\nMist."),
        result("Image Analysis", " Title: Dawn\nMist.")
    );
    assert_eq!(
        extract_title("Titles: Dawn\nMist."),
        result("Image Analysis", "Titles: Dawn\nMist.")
    );
}

#[test]
fn test_title_line_after_a_line_with_the_word_inside() {
    assert_eq!(
        extract_title("Subtitle: none\nTitle: Barn\nA red barn."),
        result("Barn", "Subtitle: none\nA red barn.")
    );
}

#[test]
fn test_begins_title_line() {
    assert!(begins_title_line("Title: x"));
    assert!(begins_title_line("tItLe\tx"));
    assert!(begins_title_line("a\ntitle:"));
    assert!(begins_title_line("a\nTITLE\u{a0}x"));
    assert!(!begins_title_line("title"));
    assert!(!begins_title_line("title-x"));
    assert!(!begins_title_line("a title: x"));
    assert!(!begins_title_line("a\rtitle: x"));
    assert!(!begins_title_line("subtitle: x"));
    assert!(!begins_title_line(""));
    assert!(!begins_title_line("\u{54}\u{130}tle: x"));
}

#[test]
fn test_title_line_without_a_title_is_kept_whole() {
    assert_eq!(extract_title("title:"), result("Image Analysis", "title:"));
}
