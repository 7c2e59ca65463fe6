use file_browser::ansi;
use file_browser::display::{
    display_directory, display_file, display_hidden_file, display_link, display_normal_file,
    display_unknown, is_char_between_char_range, is_wide, truncate_with_ellipsis,
};
use file_browser::file::{File, FileType};

fn width_of(text: &str) -> usize {
    text.chars().map(|c| if is_wide(c) { 2 } else { 1 }).sum()
}

#[test]
fn three_wide_characters_in_a_budget_of_five() {
    let cell = truncate_with_ellipsis("\u{65e5}\u{672c}\u{8a9e}", 5);
    assert_eq!(cell, "\u{65e5}\u{672c}\u{2026}");
    assert!(cell.chars().filter(|c| *c != '\u{2026}').count() <= 2);
    assert!(width_of(&cell) <= 5);
}

#[test]
fn short_text_is_padded_to_the_full_width() {
    assert_eq!(truncate_with_ellipsis("abc", 6), "abc   ");
    assert_eq!(truncate_with_ellipsis("", 4), "    ");
}

#[test]
fn text_that_fits_exactly_is_left_as_it_is() {
    assert_eq!(truncate_with_ellipsis("abcdef", 6), "abcdef");
}

#[test]
fn long_text_is_cut_one_column_short_and_marked() {
    assert_eq!(truncate_with_ellipsis("abcdefg", 6), "abcde\u{2026}");
    assert_eq!(truncate_with_ellipsis("abcdefghijklmnop", 3), "ab\u{2026}");
}

#[test]
fn a_cell_narrower_than_three_holds_the_mark_alone() {
    assert_eq!(truncate_with_ellipsis("abc", 0), "\u{2026}");
    assert_eq!(truncate_with_ellipsis("abc", 1), "\u{2026}");
    assert_eq!(truncate_with_ellipsis("", 2), "\u{2026}");
}

#[test]
fn wide_characters_count_twice_when_padding() {
    let cell = truncate_with_ellipsis("\u{3042}b", 6);
    assert_eq!(cell, "\u{3042}b   ");
    assert_eq!(width_of(&cell), 6);
}

#[test]
fn a_wide_character_that_would_overshoot_is_left_out() {
    // Two columns are free before the mark, the next character needs two
    // more than the one that is left.
    let cell = truncate_with_ellipsis("a\u{30ab}\u{30ab}\u{30ab}", 5);
    assert_eq!(cell, "a\u{30ab}\u{2026}");
    assert_eq!(width_of(&cell), 4);
}

#[test]
fn no_cell_is_wider_than_its_budget() {
    let samples = [
        "",
        "a",
        "plain ascii text that is rather long",
        "\u{65e5}\u{672c}\u{8a9e}\u{306e}\u{30c6}\u{30ad}\u{30b9}\u{30c8}",
        "mixed \u{ff21}\u{ff22} text",
        "\u{e9}t\u{e9}",
    ];
    for sample in samples {
        for budget in 3..30usize {
            let cell = truncate_with_ellipsis(sample, budget);
            assert!(width_of(&cell) <= budget, "{:?} in {}", sample, budget);
            if width_of(sample) <= budget {
                assert_eq!(width_of(&cell), budget);
                assert!(cell.starts_with(sample));
            } else {
                assert!(cell.ends_with('\u{2026}'));
                let kept: String = cell.chars().take(cell.chars().count() - 1).collect();
                assert!(sample.starts_with(&kept));
                assert!(width_of(&kept) <= budget - 1);
            }
        }
    }
}

#[test]
fn the_wide_scripts_are_told_from_the_others() {
    assert!(is_wide('\u{3042}'));
    assert!(is_wide('\u{30ab}'));
    assert!(is_wide('\u{65e5}'));
    assert!(is_wide('\u{ff21}'));
    assert!(is_wide('\u{3040}'));
    assert!(is_wide('\u{30ff}'));
    assert!(is_wide('\u{4e00}'));
    assert!(is_wide('\u{9faf}'));
    assert!(is_wide('\u{ff01}'));
    assert!(is_wide('\u{ff60}'));
    assert!(!is_wide('a'));
    assert!(!is_wide(' '));
    assert!(!is_wide('\u{e9}'));
    assert!(!is_wide('\u{2026}'));
    assert!(!is_wide('\u{303f}'));
    assert!(!is_wide('\u{3100}'));
    assert!(!is_wide('\u{9fb0}'));
    assert!(!is_wide('\u{ff61}'));
}

#[test]
fn a_range_holds_its_ends() {
    assert!(is_char_between_char_range('a', 'a', 'c'));
    assert!(is_char_between_char_range('b', 'a', 'c'));
    assert!(is_char_between_char_range('c', 'a', 'c'));
    assert!(!is_char_between_char_range('d', 'a', 'c'));
    assert!(!is_char_between_char_range('A', 'a', 'c'));
    assert!(!is_char_between_char_range('b', 'c', 'a'));
}

fn entry(ftype: FileType, name: &str) -> File {
    File::new(ftype, name.to_string())
}

#[test]
fn entries_are_drawn_in_the_colour_of_their_kind() {
    let file = entry(FileType::File, "a");
    assert_eq!(display_file(Some(&file), 3), format!("{}a  {}", ansi::WHITE, ansi::RESET));
    let dir = entry(FileType::Directory, "a");
    assert_eq!(display_file(Some(&dir), 3), format!("{}a  {}", ansi::BLUE, ansi::RESET));
    let link = entry(FileType::Link, "a");
    assert_eq!(display_file(Some(&link), 3), format!("{}a  {}", ansi::CYAN, ansi::RESET));
    let unknown = entry(FileType::Unknown, "a");
    assert_eq!(display_file(Some(&unknown), 3), format!("{}a  {}", ansi::RED, ansi::RESET));
}

#[test]
fn hidden_entries_are_drawn_in_gray_whatever_their_kind() {
    let dir = entry(FileType::Directory, ".git");
    assert_eq!(display_file(Some(&dir), 5), format!("{}.git {}", ansi::GRAY, ansi::RESET));
    let file = entry(FileType::File, ".profile");
    assert_eq!(
        display_file(Some(&file), 5),
        format!("{}.pro\u{2026}{}", ansi::GRAY, ansi::RESET)
    );
}

#[test]
fn a_missing_entry_is_drawn_blank() {
    assert_eq!(display_file(None, 4), "    ");
    assert_eq!(display_file(None, 0), "");
}

#[test]
fn each_kind_has_its_own_drawing_function() {
    let f = entry(FileType::File, "name");
    assert_eq!(display_normal_file(&f, 4), format!("{}name{}", ansi::WHITE, ansi::RESET));
    assert_eq!(display_directory(&f, 4), format!("{}name{}", ansi::BLUE, ansi::RESET));
    assert_eq!(display_link(&f, 4), format!("{}name{}", ansi::CYAN, ansi::RESET));
    assert_eq!(display_unknown(&f, 4), format!("{}name{}", ansi::RED, ansi::RESET));
    assert_eq!(display_hidden_file(&f, 4), format!("{}name{}", ansi::GRAY, ansi::RESET));
}
