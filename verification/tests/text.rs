use weather_clock::clock::ClockTime;

fn at(year: i32, month: u32, day: u32, hour: u32, minute: u32, second: u32) -> ClockTime {
    ClockTime { year, month, day, hour, minute, second }
}

#[test]
fn clock_text_pads_fields() {
    assert_eq!(at(2024, 3, 7, 9, 5, 3).clock_text(), "09:05:03");
    assert_eq!(at(2024, 3, 7, 23, 59, 59).clock_text(), "23:59:59");
    assert_eq!(at(2024, 3, 7, 0, 0, 0).clock_text(), "00:00:00");
    assert_eq!(at(2024, 3, 7, 12, 10, 0).clock_text(), "12:10:00");
}

#[test]
fn clock_text_matches_format() {
    for h in [0u32, 1, 9, 10, 23, 99, 100, 12345] {
        for m in [0u32, 7, 59] {
            let t = at(2000, 1, 1, h, m, 5);
            assert_eq!(t.clock_text(), format!("{:0>2}:{:0>2}:{:0>2}", h, m, 5));
        }
    }
}

#[test]
fn date_text_is_unpadded() {
    assert_eq!(at(1970, 1, 1, 0, 0, 0).date_text(), "1/1/1970");
    assert_eq!(at(2024, 12, 31, 0, 0, 0).date_text(), "31/12/2024");
    assert_eq!(at(-44, 3, 15, 0, 0, 0).date_text(), "15/3/-44");
    assert_eq!(at(0, 10, 9, 0, 0, 0).date_text(), "9/10/0");
}

#[test]
fn date_text_matches_format() {
    for year in [i32::MIN, -1, 0, 7, 1970, 2025, i32::MAX] {
        for day in [1u32, 10, 31, u32::MAX] {
            let t = at(year, 12, day, 0, 0, 0);
            assert_eq!(t.date_text(), format!("{}/{}/{}", day, 12, year));
        }
    }
}
