use weather_clock::weather::WeatherCondition;

#[test]
fn weather_code_ranges() {
    let cases: [(u8, WeatherCondition); 16] = [
        (0, WeatherCondition::Clear),
        (3, WeatherCondition::Clear),
        (44, WeatherCondition::Clear),
        (45, WeatherCondition::Rain),
        (61, WeatherCondition::Rain),
        (66, WeatherCondition::Rain),
        (67, WeatherCondition::Clear),
        (70, WeatherCondition::Clear),
        (71, WeatherCondition::Snow),
        (85, WeatherCondition::Snow),
        (86, WeatherCondition::Clear),
        (94, WeatherCondition::Clear),
        (95, WeatherCondition::Thunderstorm),
        (98, WeatherCondition::Thunderstorm),
        (99, WeatherCondition::Clear),
        (255, WeatherCondition::Clear),
    ];
    for (code, expected) in cases {
        assert_eq!(WeatherCondition::from_code(code), expected, "code {}", code);
        assert_eq!(WeatherCondition::from(code), expected, "code {}", code);
    }
}

#[test]
fn weather_code_from_matches_from_code_everywhere() {
    for code in 0..=255u8 {
        let via_from: WeatherCondition = code.into();
        assert_eq!(via_from, WeatherCondition::from_code(code));
    }
}

#[test]
fn weather_code_counts() {
    let mut counts = [0u32; 4];
    for code in 0..=255u8 {
        let i = match WeatherCondition::from_code(code) {
            WeatherCondition::Rain => 0,
            WeatherCondition::Snow => 1,
            WeatherCondition::Thunderstorm => 2,
            WeatherCondition::Clear => 3,
        };
        counts[i] += 1;
    }
    assert_eq!(counts, [22, 15, 4, 215]);
}
