use rmusic_tui::cli::Cli;
use rmusic_tui::cli::DEFAULT_LOGLEVEL;
use rmusic_tui::playback::playback_context::seconds;
use rmusic_tui::queue::ShuffleType;
use rmusic_tui::ui::status::duration_label;
use rmusic_tui::ui::status::repeat_label;
use rmusic_tui::ui::status::shuffle_label;
use rmusic_tui::ui::status::time_label;
use rmusic_tui::ui::status::track_label;

#[test]
fn time_label_shows_minutes_and_two_digits_of_seconds() {
    assert_eq!(time_label(0, 0), "0:00/0:00 ");
    assert_eq!(time_label(5, 65), "0:05/1:05 ");
    assert_eq!(time_label(59, 60), "0:59/1:00 ");
    assert_eq!(time_label(600, 3599), "10:00/59:59 ");
    assert_eq!(time_label(3600, 7325), "60:00/122:05 ");
    assert_eq!(time_label(u64::MAX, 9), "307445734561825860:15/0:09 ");
}

#[test]
fn time_label_agrees_with_the_formatting_of_numbers() {
    for played in [0u64, 1, 9, 10, 59, 60, 61, 99, 100, 599, 600, 1234, 86399, 1_000_000] {
        for total in [0u64, 7, 125, 3600] {
            let expected = format!(
                "{}:{:02}/{}:{:02} ",
                played / 60,
                played % 60,
                total / 60,
                total % 60
            );
            assert_eq!(time_label(played, total), expected);
        }
    }
}

#[test]
fn duration_label_counts_minutes_within_the_hour() {
    assert_eq!(duration_label(0), "00:00");
    assert_eq!(duration_label(9), "00:09");
    assert_eq!(duration_label(75), "01:15");
    assert_eq!(duration_label(3599), "59:59");
    assert_eq!(duration_label(3600), "00:00");
    assert_eq!(duration_label(3725), "02:05");
    for seconds in [0u64, 59, 60, 600, 3661, 86400, u64::MAX] {
        let expected = format!("{:0>2}:{:0>2}", (seconds / 60) % 60, seconds % 60);
        assert_eq!(duration_label(seconds), expected);
    }
}

#[test]
fn cli_defaults_to_warnings() {
    assert_eq!(Cli::default().loglevel, 2);
    assert_eq!(DEFAULT_LOGLEVEL, 2);
    assert_eq!(Cli { loglevel: 3 }.loglevel, 3);
}

#[test]
fn track_label_shows_the_path_and_the_sample_rate() {
    assert_eq!(track_label(Some(&"/music/a.opus".to_string()), 48000), "/music/a.opus 48000");
    assert_eq!(track_label(Some(&"".to_string()), 0), " 0");
    assert_eq!(track_label(None, 44100), " 44100");
    assert_eq!(track_label(None, u64::MAX), format!(" {}", u64::MAX));
}

#[test]
fn marks_of_shuffle_and_repeat() {
    assert_eq!(shuffle_label(ShuffleType::Off), "");
    assert_eq!(shuffle_label(ShuffleType::Shuffled), "SH");
    assert_eq!(repeat_label(true), "R");
    assert_eq!(repeat_label(false), "");
}

#[test]
fn seconds_are_whole_and_zero_at_a_rate_of_zero() {
    assert_eq!(seconds(0, 48000), 0);
    assert_eq!(seconds(47999, 48000), 0);
    assert_eq!(seconds(48000, 48000), 1);
    assert_eq!(seconds(480000, 48000), 10);
    assert_eq!(seconds(5, 0), 0);
    assert_eq!(seconds(u64::MAX, 1), u64::MAX);
}
