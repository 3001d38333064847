use deathroll::number::{chars_of, parse_trimmed};
use deathroll::player::Seat;
use deathroll::text;

#[test]
fn decimal_writes_base_ten() {
    assert_eq!(text::decimal(0), "0");
    assert_eq!(text::decimal(7), "7");
    assert_eq!(text::decimal(10), "10");
    assert_eq!(text::decimal(1905), "1905");
    assert_eq!(text::decimal(u32::MAX), "4294967295");
}

#[test]
fn icons_of_the_seats() {
    assert_eq!(text::icon(Seat::One), "\u{1F9D9}\u{200D}\u{2642}\u{FE0F}");
    assert_eq!(text::icon(Seat::Two), "\u{1F9DF}");
}

#[test]
fn feed_lines() {
    assert_eq!(
        text::roll_line(Seat::Two, 42, 100),
        "\u{1F9DF} 42 \u{1F3B2} (1-100)"
    );
    assert_eq!(
        text::death_line(Seat::One, 5, 2, 3),
        "\u{1F9D9}\u{200D}\u{2642}\u{FE0F} 1 \u{1F480} (1-5) \u{1F9D9}\u{200D}\u{2642}\u{FE0F} \u{1F3C6} 2 \u{1F9DF} \u{1F3C6} 3"
    );
    assert_eq!(text::new_game_line(1000), "New Game \u{2694}\u{FE0F} 1000");
}

#[test]
fn status_lines() {
    assert_eq!(text::rolled(Seat::One, 9), "\u{1F9D9}\u{200D}\u{2642}\u{FE0F} \u{1F3B2} 9");
    assert_eq!(text::your_roll(Seat::Two), "\u{1F9DF} \u{1F3B2} It's your roll!");
    assert_eq!(text::defeat(Seat::Two), "\u{1F9DF} \u{1F480}");
    assert_eq!(text::victory(Seat::One), "\u{1F9D9}\u{200D}\u{2642}\u{FE0F} \u{1F3C6}");
    assert_eq!(text::roll_to_start(Seat::Two), "\u{1F9DF} \u{1F3B2} roll to start");
    assert_eq!(
        text::waiting(Seat::One),
        "\u{1F9D9}\u{200D}\u{2642}\u{FE0F} \u{1F3B2} waiting for \u{1F9DF} to roll"
    );
    assert_eq!(
        text::waiting(Seat::Two),
        "\u{1F9DF} \u{1F3B2} waiting for \u{1F9D9}\u{200D}\u{2642}\u{FE0F} to roll"
    );
    assert_eq!(text::seat_status(Seat::Two), "\u{1F9DF} \u{1F3B2}");
    assert_eq!(
        text::no_opponent(),
        "\u{1F9D9}\u{200D}\u{2642}\u{FE0F} \u{1F3B2} waiting for \u{1F9DF} to join"
    );
}

#[test]
fn chars_of_keeps_every_character() {
    assert_eq!(chars_of("a\u{1F9DF}/"), vec!['a', '\u{1F9DF}', '/']);
    assert!(chars_of("").is_empty());
}

#[test]
fn parse_reads_plain_numbers() {
    assert_eq!(parse_trimmed("0"), Some(0));
    assert_eq!(parse_trimmed("100"), Some(100));
    assert_eq!(parse_trimmed("007"), Some(7));
    assert_eq!(parse_trimmed("+5"), Some(5));
    assert_eq!(parse_trimmed("4294967295"), Some(u32::MAX));
}

#[test]
fn parse_drops_white_space_around() {
    assert_eq!(parse_trimmed("  12\n"), Some(12));
    assert_eq!(parse_trimmed("\t\u{A0}12\u{3000}\r\n"), Some(12));
    assert_eq!(parse_trimmed("\u{2003}3\u{85}"), Some(3));
}

#[test]
fn parse_refuses_what_is_no_number() {
    assert_eq!(parse_trimmed(""), None);
    assert_eq!(parse_trimmed("   "), None);
    assert_eq!(parse_trimmed("+"), None);
    assert_eq!(parse_trimmed("-"), None);
    assert_eq!(parse_trimmed("-5"), None);
    assert_eq!(parse_trimmed("++5"), None);
    assert_eq!(parse_trimmed("1 2"), None);
    assert_eq!(parse_trimmed("12a"), None);
    assert_eq!(parse_trimmed("1_000"), None);
    assert_eq!(parse_trimmed("1.5"), None);
    assert_eq!(parse_trimmed("\"5\""), None);
    assert_eq!(parse_trimmed("\u{0663}"), None);
    assert_eq!(parse_trimmed("4294967296"), None);
    assert_eq!(parse_trimmed("99999999999999999999"), None);
}

#[test]
fn parse_agrees_with_std() {
    let samples = [
        "0", "1", " 1", "1 ", "+1", "+ 1", "-1", "--1", "+-1", "00", "0x10", "١٢", "12\u{200B}",
        "\u{FEFF}12", "\u{1680}12\u{205F}", "4294967295", "4294967296", "42949672950", "+0",
        "+4294967295", "", " ", "+", "a", "1e3", "１２",
    ];
    for sample in samples {
        assert_eq!(parse_trimmed(sample), sample.trim().parse::<u32>().ok(), "{:?}", sample);
    }
}

#[test]
fn decimal_and_parse_are_inverse() {
    for n in [0u32, 1, 9, 10, 99, 100, 65535, 4294967295] {
        assert_eq!(parse_trimmed(&text::decimal(n)), Some(n));
        assert_eq!(text::decimal(n), n.to_string());
    }
}
