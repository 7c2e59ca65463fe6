use file_browser::display::viewport;

#[test]
fn everything_visible_when_it_fits() {
    assert_eq!(viewport(5, 10, 2), (0, 5));
}

#[test]
fn window_follows_the_selection() {
    assert_eq!(viewport(100, 10, 50), (45, 55));
}

#[test]
fn window_is_pinned_to_the_end() {
    assert_eq!(viewport(100, 10, 97), (90, 100));
}

#[test]
fn window_is_pinned_to_the_start() {
    assert_eq!(viewport(100, 10, 0), (0, 10));
    assert_eq!(viewport(100, 10, 4), (0, 10));
    assert_eq!(viewport(100, 10, 5), (0, 10));
}

#[test]
fn window_starts_to_move_past_the_first_half() {
    assert_eq!(viewport(100, 10, 6), (1, 11));
}

#[test]
fn window_reaches_the_end_half_a_window_before_the_last_item() {
    assert_eq!(viewport(100, 10, 95), (90, 100));
    assert_eq!(viewport(100, 10, 96), (90, 100));
    assert_eq!(viewport(100, 10, 99), (90, 100));
}

#[test]
fn nothing_to_show_without_items() {
    assert_eq!(viewport(0, 10, 0), (0, 0));
}

#[test]
fn nothing_to_show_without_rows() {
    assert_eq!(viewport(0, 0, 0), (0, 0));
    assert_eq!(viewport(7, 0, 3), (0, 0));
    assert_eq!(viewport(100, 0, 99), (0, 0));
}

#[test]
fn exactly_fitting_list_is_shown_whole() {
    assert_eq!(viewport(10, 10, 9), (0, 10));
}

#[test]
fn odd_number_of_rows_centres_on_an_even_window() {
    assert_eq!(viewport(100, 11, 50), (45, 55));
    assert_eq!(viewport(100, 11, 3), (0, 11));
    assert_eq!(viewport(100, 11, 98), (89, 100));
}

#[test]
fn window_contains_the_selection_for_every_small_case() {
    for n in 0..40usize {
        for r in 2..12usize {
            for s in 0..n {
                let (from, to) = viewport(n, r, s);
                assert!(from <= s && s < to, "n={} r={} s={}", n, r, s);
                assert!(to - from <= r);
                assert!(to <= n);
                if n > r && (s < r / 2 || s > n - r / 2) {
                    assert_eq!(to - from, r);
                }
            }
        }
    }
}

#[test]
fn a_single_row_shows_the_start_or_nothing_in_between() {
    assert_eq!(viewport(1, 1, 0), (0, 1));
    assert_eq!(viewport(5, 1, 2), (2, 2));
}
