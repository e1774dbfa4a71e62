use header_widget::header::{
    Alignment, ByteQuantity, ColorTag, ElapsedTime, Emphasis, HeaderDetails, UIState,
};

fn state(up: u64, down: u64, cumulative_mode: bool) -> UIState {
    UIState {
        total_bytes_uploaded: up,
        total_bytes_downloaded: down,
        cumulative_mode,
    }
}

fn header(state: &UIState, secs: u64, paused: bool) -> HeaderDetails<'_> {
    HeaderDetails {
        state,
        elapsed_time: ElapsedTime::new(secs, 0),
        paused,
    }
}

#[test]
fn under_a_day_has_no_days_prefix() {
    let st = state(0, 0, false);
    for (secs, text) in [
        (0u64, "00:00:00 "),
        (59, "00:00:59 "),
        (60, "00:01:00 "),
        (3599, "00:59:59 "),
        (3725, "01:02:05 "),
        (45296, "12:34:56 "),
        (86399, "23:59:59 "),
    ] {
        let h = header(&st, secs, false);
        assert_eq!(h.days_string(), "");
        assert_eq!(h.elapsed_time_string(), text);
    }
}

#[test]
fn under_a_day_matches_the_clock_formula() {
    let st = state(0, 0, false);
    for secs in (0u64..86400).step_by(997) {
        let h = header(&st, secs, false);
        let expected = format!("{:02}:{:02}:{:02} ", secs / 3600, (secs % 3600) / 60, secs % 60);
        assert_eq!(h.elapsed_time_string(), expected);
    }
}

#[test]
fn exactly_one_day() {
    let st = state(0, 0, false);
    let h = header(&st, 86400, false);
    assert_eq!(h.days_string(), "1 day, ");
    assert_eq!(h.elapsed_time_string(), "1 day, 00:00:00 ");
}

#[test]
fn two_days_one_hour_one_minute_one_second() {
    let st = state(0, 0, false);
    let h = header(&st, 2 * 86400 + 3661, false);
    assert_eq!(h.days_string(), "2 days, ");
    assert_eq!(h.elapsed_time_string(), "2 days, 01:01:01 ");
}

#[test]
fn many_days_are_written_in_full() {
    let st = state(0, 0, false);
    let h = header(&st, 1234 * 86400 + 23 * 3600 + 59 * 60 + 59, false);
    assert_eq!(h.elapsed_time_string(), "1234 days, 23:59:59 ");
    let h = header(&st, u64::MAX, false);
    let days = u64::MAX / 86400;
    let rest = u64::MAX % 86400;
    let expected = format!(
        "{} days, {:02}:{:02}:{:02} ",
        days,
        rest / 3600,
        (u64::MAX % 3600) / 60,
        u64::MAX % 60
    );
    assert_eq!(h.elapsed_time_string(), expected);
}

#[test]
fn sub_second_part_is_dropped() {
    let st = state(0, 0, false);
    let h = HeaderDetails {
        state: &st,
        elapsed_time: ElapsedTime::new(59, 999_999_999),
        paused: false,
    };
    assert_eq!(h.elapsed_time.as_secs(), 59);
    assert_eq!(h.elapsed_time_string(), "00:00:59 ");
}

#[test]
fn bandwidth_text_running_and_paused() {
    let st = state(1, 2, true);
    let running = header(&st, 0, false);
    assert_eq!(running.bandwidth_string("1B", "2B"), " Total Up / Down: 1B / 2B");
    let paused = header(&st, 0, true);
    assert_eq!(
        paused.bandwidth_string("1B", "2B"),
        " Total Up / Down: 1B / 2B [PAUSED]"
    );
    assert!(paused.bandwidth_string("1B", "2B").ends_with(" [PAUSED]"));
    assert!(!running.bandwidth_string("1B", "2B").ends_with(" [PAUSED]"));
}

#[test]
fn rendering_twice_gives_the_same_fragments() {
    let st = state(1500, 2_500_000, false);
    let h = header(&st, 3725, true);
    let a = h.render("1.50KBps", "2.50MBps", 80);
    let b = h.render("1.50KBps", "2.50MBps", 80);
    assert_eq!(a.len(), b.len());
    for (x, y) in a.iter().zip(b.iter()) {
        assert_eq!(x.text, y.text);
        assert_eq!(x.alignment, y.alignment);
        assert_eq!(x.emphasis, y.emphasis);
        assert_eq!(x.color, y.color);
    }
    assert_eq!(h.elapsed_time_string(), h.elapsed_time_string());
    assert_eq!(
        h.bandwidth_string("1.50KBps", "2.50MBps"),
        h.bandwidth_string("1.50KBps", "2.50MBps")
    );
}

#[test]
fn elapsed_fragment_shown_at_the_boundary_width() {
    let st = state(1500, 2_500_000, false);
    let h = header(&st, 3725, false);
    let b = h.bandwidth_string("1.50KBps", "2.50MBps").len();
    let e = h.elapsed_time_string().len();
    let shown = h.render("1.50KBps", "2.50MBps", (b + e + 1) as u16);
    assert_eq!(shown.len(), 2);
    assert_eq!(shown[0].text, "01:02:05 ");
    assert_eq!(shown[0].alignment, Alignment::Right);
    assert_eq!(shown[1].alignment, Alignment::Left);
    let hidden = h.render("1.50KBps", "2.50MBps", (b + e) as u16);
    assert_eq!(hidden.len(), 1);
    assert_eq!(hidden[0].text, " Total Up / Down: 1.50KBps / 2.50MBps");
}

#[test]
fn narrow_and_empty_regions_keep_only_the_bandwidth() {
    let st = state(0, 0, true);
    let h = header(&st, 0, false);
    for width in [0u16, 1, 10] {
        let r = h.render("0B", "0B", width);
        assert_eq!(r.len(), 1);
        assert_eq!(r[0].text, " Total Up / Down: 0B / 0B");
    }
    let r = h.render("0B", "0B", u16::MAX);
    assert_eq!(r.len(), 2);
}

#[test]
fn width_counts_bytes_of_the_figures() {
    let st = state(0, 0, true);
    let h = header(&st, 0, false);
    // " Total Up / Down: " (18) + "é" (2 bytes) + " / " (3) + "x" (1) = 24 bytes; elapsed 9.
    assert_eq!(h.bandwidth_string("é", "x").len(), 24);
    assert_eq!(h.render("é", "x", 34).len(), 2);
    assert_eq!(h.render("é", "x", 33).len(), 1);
}

#[test]
fn paused_header_is_marked_and_colored() {
    let st = state(1500, 2_500_000, false);
    let h = header(&st, 3725, true);
    let r = h.render("1.50KBps", "2.50MBps", 80);
    assert_eq!(r.len(), 2);
    assert!(r[1].text.ends_with(" [PAUSED]"));
    assert!(r.iter().all(|f| f.color == ColorTag::Paused));
    assert_eq!(h.color(), ColorTag::Paused);

    let running = header(&st, 3725, false);
    let r = running.render("1.50KBps", "2.50MBps", 80);
    assert!(!r[1].text.ends_with(" [PAUSED]"));
    assert!(r.iter().all(|f| f.color == ColorTag::Active));
    assert_eq!(running.color(), ColorTag::Active);
}

#[test]
fn cumulative_mode_asks_for_plain_quantities() {
    let st = state(7, 9, true);
    let h = header(&st, 0, false);
    let (up, down) = h.bandwidth_quantities();
    assert_eq!(up, ByteQuantity { bytes: 7, as_rate: false });
    assert_eq!(down, ByteQuantity { bytes: 9, as_rate: false });

    let st = state(7, 9, false);
    let h = header(&st, 0, false);
    let (up, down) = h.bandwidth_quantities();
    assert_eq!(up, ByteQuantity { bytes: 7, as_rate: true });
    assert_eq!(down, ByteQuantity { bytes: 9, as_rate: true });
}

#[test]
fn end_to_end_example() {
    let st = state(1500, 2_500_000, false);
    let h = header(&st, 3725, false);
    let (up, down) = h.bandwidth_quantities();
    assert_eq!((up.bytes, up.as_rate), (1500, true));
    assert_eq!((down.bytes, down.as_rate), (2_500_000, true));
    let r = h.render("1.50KBps", "2.50MBps", 80);
    assert_eq!(r.len(), 2);
    assert_eq!(r[0].text, "01:02:05 ");
    assert_eq!(r[1].text, " Total Up / Down: 1.50KBps / 2.50MBps");
    assert!(r[1].text.starts_with(" Total Up / Down: "));
    for f in &r {
        assert_eq!(f.color, ColorTag::Active);
        assert_eq!(f.emphasis, Emphasis::Bold);
    }
}
