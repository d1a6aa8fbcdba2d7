use ytdlp_gui::progress::{download_text, eta_text, Download, Figures, LONGEST_SECONDS};
use ytdlp_gui::single::Single;

fn single(value: f32) -> Single {
    Single { bits: value.to_bits() }
}

fn figures(megabytes: f32, eta_seconds: i64) -> Figures {
    Figures {
        percent: single(12.5),
        megabytes: single(megabytes),
        megabytes_text: format!("{:.2}", megabytes),
        gigabytes_text: format!("{:.2}", megabytes / 1024.0),
        speed_text: String::from("3.14"),
        eta_seconds,
    }
}

fn download() -> Download {
    Download {
        eta: None,
        downloaded_bytes: single(1.0),
        total_bytes: None,
        total_bytes_estimate: None,
        speed: None,
        playlist_count: None,
        playlist_index: None,
    }
}

#[test]
fn times_left_are_minutes_and_seconds() {
    assert_eq!(eta_text(0), "00:00");
    assert_eq!(eta_text(12), "00:12");
    assert_eq!(eta_text(75), "01:15");
    assert_eq!(eta_text(600), "10:00");
    assert_eq!(eta_text(6061), "101:01");
}

#[test]
fn negative_times_are_cut_towards_zero() {
    assert_eq!(eta_text(-5), "00:-5");
    assert_eq!(eta_text(-75), "-1:-15");
}

#[test]
fn the_longest_time_is_shown() {
    assert_eq!(LONGEST_SECONDS, i64::MAX / 1000);
    assert_eq!(
        eta_text(LONGEST_SECONDS),
        format!("{}:{:02}", LONGEST_SECONDS / 60, LONGEST_SECONDS % 60)
    );
    assert_eq!(
        eta_text(-LONGEST_SECONDS),
        format!("{}:{:02}", -LONGEST_SECONDS / 60, -LONGEST_SECONDS % 60)
    );
}

#[test]
fn minutes_and_seconds_add_up() {
    for seconds in [0i64, 59, 60, 61, 3599, 86399] {
        let text = eta_text(seconds);
        let (minutes, rest) = text.split_once(':').unwrap();
        let minutes: i64 = minutes.parse().unwrap();
        let rest: i64 = rest.parse().unwrap();
        assert_eq!(minutes * 60 + rest, seconds);
        assert!(rest < 60);
    }
}

#[test]
fn amounts_are_in_gigabytes_past_1024_megabytes() {
    assert_eq!(download_text(&figures(12.345, 75)), "12.35MB | 3.14MB/s | ETA 01:15");
    assert_eq!(download_text(&figures(1024.0, 0)), "1024.00MB | 3.14MB/s | ETA 00:00");
    assert_eq!(download_text(&figures(2048.0, 0)), "2.00GB | 3.14MB/s | ETA 00:00");
}

#[test]
fn numbers_are_compared_as_floats_are() {
    let below = f32::from_bits(1024f32.to_bits() - 1);
    let above = f32::from_bits(1024f32.to_bits() + 1);
    let samples = [
        0.0,
        -0.0,
        1.0,
        below,
        1024.0,
        above,
        1e30,
        f32::MAX,
        f32::INFINITY,
        f32::NAN,
        -f32::NAN,
        -1.0,
        -2048.0,
        f32::NEG_INFINITY,
        f32::MIN_POSITIVE,
    ];
    for value in samples {
        assert_eq!(single(value).is_above_1024(), value > 1024.0, "{}", value);
    }
}

#[test]
fn the_total_falls_back_to_the_estimate_and_to_zero() {
    let exact = Download {
        total_bytes: Some(single(10.0)),
        total_bytes_estimate: Some(single(20.0)),
        ..download()
    };
    let estimated = Download { total_bytes_estimate: Some(single(20.0)), ..download() };
    assert_eq!(exact.total(), single(10.0));
    assert_eq!(estimated.total(), single(20.0));
    assert_eq!(download().total(), single(0.0));
}

#[test]
fn unknown_speed_and_time_are_zero() {
    let known = Download { eta: Some(single(9.5)), speed: Some(single(7.0)), ..download() };
    assert_eq!(known.eta_or_zero(), single(9.5));
    assert_eq!(known.speed_or_zero(), single(7.0));
    assert_eq!(download().eta_or_zero(), single(0.0));
    assert_eq!(download().speed_or_zero(), single(0.0));
}

#[test]
fn the_place_in_a_playlist_needs_both_numbers() {
    let both = Download { playlist_count: Some(12), playlist_index: Some(3), ..download() };
    let one = Download { playlist_count: Some(12), ..download() };
    let other = Download { playlist_index: Some(3), ..download() };
    assert_eq!(both.playlist_text(), Some(String::from("Downloading 3/12")));
    assert_eq!(one.playlist_text(), None);
    assert_eq!(other.playlist_text(), None);
}
