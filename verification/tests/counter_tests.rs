use homepage::counter::Counter;

#[test]
fn fresh_counter_is_zero() {
    let c = Counter::new();
    assert_eq!(c.current(), 0);
}

#[test]
fn three_clicks_display_three() {
    let mut c = Counter::new();
    c.click();
    c.click();
    c.click();
    assert_eq!(c.current(), 3);
}

#[test]
fn click_n_matches_repeated_clicks() {
    let mut a = Counter::new();
    a.click_n(5);
    let mut b = Counter::new();
    for _ in 0..5 {
        b.click();
    }
    assert_eq!(a.current(), 5);
    assert_eq!(a.current(), b.current());
}

#[test]
fn clicks_accumulate() {
    let mut c = Counter::new();
    c.click_n(2);
    c.click();
    assert_eq!(c.current(), 3);
}

#[test]
fn zero_clicks_leave_zero() {
    let mut c = Counter::new();
    c.click_n(0);
    assert_eq!(c.current(), 0);
}
