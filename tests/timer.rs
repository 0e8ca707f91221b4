use tameta::render::Renderer;
use tameta::timer::{TimeUp, Timer};

#[test]
fn presets_are_twenty_five_and_five_minutes() {
    assert_eq!(Timer::default().remaining_secs(), 1500);
    assert_eq!(Timer::rest().remaining_secs(), 300);
}

#[test]
fn tick_counts_down_and_expires_after_exactly_d_ticks() {
    for d in 1u64..=130 {
        let mut t = Timer::from_secs(d);
        for k in 1..d {
            assert_eq!(t.tick(), Ok(()));
            assert_eq!(t.remaining_secs(), d - k);
        }
        assert_eq!(t.tick(), Err(TimeUp));
        assert_eq!(t.remaining_secs(), 0);
    }
}

#[test]
fn tick_saturates_at_zero() {
    let mut t = Timer::from_secs(0);
    assert_eq!(t.tick(), Err(TimeUp));
    assert_eq!(t.remaining_secs(), 0);
    assert_eq!(t.tick(), Err(TimeUp));
    assert_eq!(t.remaining_secs(), 0);
}

#[test]
fn tick_at_largest_count() {
    let mut t = Timer::from_secs(u64::MAX);
    assert_eq!(t.tick(), Ok(()));
    assert_eq!(t.remaining_secs(), u64::MAX - 1);
}

#[test]
fn format_twenty_five_minutes() {
    assert_eq!(Timer::from_secs(25 * 60).format(), (2, 5, 0, 0));
    assert_eq!(Timer::default().format(), (2, 5, 0, 0));
}

#[test]
fn format_nine_seconds() {
    assert_eq!(Timer::from_secs(9).format(), (0, 0, 0, 9));
}

#[test]
fn format_other_values() {
    assert_eq!(Timer::from_secs(0).format(), (0, 0, 0, 0));
    assert_eq!(Timer::from_secs(5999).format(), (9, 9, 5, 9));
    assert_eq!(Timer::from_secs(754).format(), (1, 2, 3, 4));
    assert_eq!(Timer::rest().format(), (0, 5, 0, 0));
}

#[test]
fn pretty_lines_hold_every_glyph_row() {
    let r = Renderer::new();
    let lines = Timer::from_secs(754).pretty_lines(&r);
    assert_eq!(lines.len(), 5);
    let one = r.to_ascii(1);
    let two = r.to_ascii(2);
    let colon = r.to_ascii(58);
    let three = r.to_ascii(3);
    let four = r.to_ascii(4);
    for x in 0..5 {
        let line = &lines[x];
        let mut at = 0;
        for part in [one.0[x], two.0[x], colon.0[x], three.0[x], four.0[x]] {
            let found = line[at..].find(part).expect("glyph row present");
            at += found + part.len();
        }
    }
}
