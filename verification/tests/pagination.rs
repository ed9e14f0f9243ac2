use favorites::pagination::{PageWindow, DEFAULT_PAGE, DEFAULT_PER_PAGE, MAX_PER_PAGE};

#[test]
fn window_defaults_to_first_page_of_ten() {
    let w = PageWindow::resolve(None, None);
    assert_eq!(w, PageWindow { page: 1, per_page: 10, offset: 0 });
    assert_eq!(DEFAULT_PAGE, 1);
    assert_eq!(DEFAULT_PER_PAGE, 10);
}

#[test]
fn window_offset_is_pages_before_times_size() {
    assert_eq!(PageWindow::resolve(Some(3), Some(5)), PageWindow { page: 3, per_page: 5, offset: 10 });
    assert_eq!(PageWindow::resolve(Some(1), Some(5)), PageWindow { page: 1, per_page: 5, offset: 0 });
    assert_eq!(PageWindow::resolve(Some(7), None), PageWindow { page: 7, per_page: 10, offset: 60 });
    assert_eq!(PageWindow::resolve(None, Some(25)), PageWindow { page: 1, per_page: 25, offset: 0 });
}

#[test]
fn window_of_next_page_starts_where_this_one_ends() {
    for page in 1..20 {
        for per_page in 1..12 {
            let w = PageWindow::resolve(Some(page), Some(per_page));
            let next = PageWindow::resolve(Some(page + 1), Some(per_page));
            assert_eq!(next.offset, w.offset + w.per_page);
        }
    }
}

#[test]
fn page_below_the_first_is_the_first() {
    assert_eq!(PageWindow::resolve(Some(0), Some(5)), PageWindow { page: 1, per_page: 5, offset: 0 });
    assert_eq!(PageWindow::resolve(Some(-3), Some(5)), PageWindow { page: 1, per_page: 5, offset: 0 });
    assert_eq!(
        PageWindow::resolve(Some(i64::MIN), None),
        PageWindow { page: 1, per_page: 10, offset: 0 }
    );
}

#[test]
fn page_size_is_held_between_one_and_the_maximum() {
    assert_eq!(MAX_PER_PAGE, 100);
    assert_eq!(PageWindow::resolve(Some(2), Some(0)), PageWindow { page: 2, per_page: 1, offset: 1 });
    assert_eq!(PageWindow::resolve(Some(2), Some(-8)), PageWindow { page: 2, per_page: 1, offset: 1 });
    assert_eq!(
        PageWindow::resolve(Some(2), Some(100)),
        PageWindow { page: 2, per_page: 100, offset: 100 }
    );
    assert_eq!(
        PageWindow::resolve(Some(2), Some(101)),
        PageWindow { page: 2, per_page: 100, offset: 100 }
    );
    assert_eq!(
        PageWindow::resolve(Some(3), Some(i64::MAX)),
        PageWindow { page: 3, per_page: 100, offset: 200 }
    );
}

#[test]
fn offset_stops_at_the_largest_the_store_can_take() {
    assert_eq!(
        PageWindow::resolve(Some(i64::MAX), Some(100)),
        PageWindow { page: i64::MAX, per_page: 100, offset: i64::MAX }
    );
    assert_eq!(
        PageWindow::resolve(Some(i64::MAX), Some(1)),
        PageWindow { page: i64::MAX, per_page: 1, offset: i64::MAX - 1 }
    );
    assert_eq!(
        PageWindow::resolve(Some(i64::MAX / 2 + 2), Some(2)),
        PageWindow { page: i64::MAX / 2 + 2, per_page: 2, offset: i64::MAX }
    );
}
