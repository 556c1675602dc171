use arch_forum::listing::{render_entry, render_lines, render_listing};

fn threads(count: usize) -> Vec<(String, String)> {
    (0..count).map(|i| (format!("t{}", i), format!("a{}", i))).collect()
}

#[test]
fn entry_has_number_title_and_line_ending() {
    assert_eq!(render_entry(0, "Hello", "\r\n"), "[1] Hello\r\n");
    assert_eq!(render_entry(9, "Tenth", "\n"), "[10] Tenth\n");
    assert_eq!(render_entry(122, "", ""), "[123] ");
}

#[test]
fn lines_stop_at_the_limit() {
    for count in 0..25 {
        let lines = render_lines(&threads(count), 10, "\r\n");
        assert_eq!(lines.len(), count.min(10));
        for (i, line) in lines.iter().enumerate() {
            assert_eq!(*line, format!("[{}] t{}\r\n", i + 1, i));
        }
    }
    assert!(render_lines(&threads(3), 0, "\n").is_empty());
}

#[test]
fn listing_is_the_lines_in_order() {
    assert_eq!(render_listing(&threads(2), 10, "\r\n"), "[1] t0\r\n[2] t1\r\n");
    assert_eq!(render_listing(&threads(7), 5, "\n"), "[1] t0\n[2] t1\n[3] t2\n[4] t3\n[5] t4\n");
    assert_eq!(render_listing(&threads(0), 5, "\n"), "");
    let twelve = render_listing(&threads(12), 10, "\r\n");
    assert_eq!(twelve.matches("\r\n").count(), 10);
    assert!(twelve.ends_with("[10] t9\r\n"));
}
