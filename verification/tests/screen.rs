use embedded_graphics::geometry::Dimensions;
use embedded_graphics::mono_font::ascii::{FONT_4X6, FONT_7X13, FONT_9X15_BOLD};
use embedded_graphics::mono_font::MonoTextStyle;
use embedded_graphics::pixelcolor::BinaryColor;
use embedded_graphics::prelude::{Angle, Point, Size, Transform};
use embedded_graphics::primitives::Arc;
use embedded_graphics::text::{Alignment, Baseline, Text, TextStyleBuilder};
use embedded_graphics::primitives::{Rectangle, Triangle};
use embedded_layout::align::{horizontal, vertical, Align};
use weather_clock::clock::ClockTime;
use weather_clock::geometry::{align, HAlign, Pos, Rect, VAlign};
use weather_clock::screen::{
    bar_top_row, fps_text, frame, rain_bar, rain_bars, text_layout, text_position, weather_icon,
    wifi_icon, FrameClock, Icon, ScreenLayout,
};
use weather_clock::state::ApplicationState;
use weather_clock::weather::WeatherCondition;

fn rect(r: Rectangle) -> Rect {
    Rect { x: r.top_left.x, y: r.top_left.y, width: r.size.width, height: r.size.height }
}

fn sized(w: u32, h: u32) -> Rectangle {
    Rectangle::new(Point::zero(), Size::new(w, h))
}

#[test]
fn layout_matches_layout_library() {
    let l = ScreenLayout::new();
    let screen = sized(128, 64);
    let weather_area = sized(52, 12).align_to(&screen, horizontal::Left, vertical::Center);
    let graph_area = sized((3 + 1) * 24 + 1, 16 + 1)
        .align_to(&screen, horizontal::Center, vertical::Bottom)
        .translate(Point::new(0, -3));
    assert_eq!(l.screen, rect(screen));
    assert_eq!(l.weather_area, rect(weather_area));
    assert_eq!(l.graph_area, rect(graph_area));
    assert_eq!(
        l.weather_icon,
        rect(sized(16, 16).align_to(&weather_area, horizontal::Left, vertical::Center))
    );
    assert_eq!(
        l.graph_left_icon,
        rect(sized(16, 16).align_to(&graph_area, horizontal::RightToLeft, vertical::Center))
    );
    assert_eq!(
        l.graph_right_icon,
        rect(sized(16, 16).align_to(&graph_area, horizontal::LeftToRight, vertical::Center))
    );
    assert_eq!(l.wifi_icon, rect(sized(16, 16).align_to(&screen, horizontal::Left, vertical::Top)));
    assert_eq!(l.logo, rect(sized(52, 16).align_to(&screen, horizontal::Right, vertical::Center)));
    assert_eq!(l.spinner, rect(sized(16, 16).align_to(&screen, horizontal::Right, vertical::Top)));
}

#[test]
fn layout_values() {
    let l = ScreenLayout::new();
    assert_eq!(l.weather_area, Rect { x: 0, y: 26, width: 52, height: 12 });
    assert_eq!(l.graph_area, Rect { x: 15, y: 44, width: 97, height: 17 });
    assert_eq!(l.graph_left_icon, Rect { x: -1, y: 45, width: 16, height: 16 });
    assert_eq!(l.graph_right_icon, Rect { x: 112, y: 45, width: 16, height: 16 });
    assert_eq!(l.logo, Rect { x: 76, y: 24, width: 52, height: 16 });
}

#[test]
fn align_moves_object() {
    let object = Rect { x: 3, y: 4, width: 10, height: 6 };
    let reference = Rect { x: 20, y: 30, width: 40, height: 20 };
    let moved = align(object, reference, HAlign::Right, VAlign::BottomToTop);
    assert_eq!(moved, Rect { x: 50, y: 24, width: 10, height: 6 });
    let centered = align(object, reference, HAlign::Center, VAlign::Center);
    assert_eq!(centered, Rect { x: 35, y: 37, width: 10, height: 6 });
}

#[test]
fn bar_top_matches_float_formula() {
    for p in 0..=255u8 {
        let expected = (16 as f32 * (1.0 - (p as f32 / 100f32))) as i32;
        assert_eq!(bar_top_row(p), expected, "p = {}", p);
    }
    assert_eq!(bar_top_row(0), 16);
    assert_eq!(bar_top_row(100), 0);
    assert_eq!(bar_top_row(10), 14);
}

#[test]
fn bars_match_graphics_library() {
    let graph = Rect { x: 15, y: 44, width: 97, height: 17 };
    let top_left = Point::new(15, 44);
    let chances: Vec<u8> = vec![10, 50, 100, 0, 255, 75];
    let hour = 4u32;
    let bars = rain_bars(graph, &chances, hour);
    assert_eq!(bars.len(), chances.len());
    for (ind, p) in chances.iter().enumerate() {
        let bar_x = (ind as u32) * 4;
        let bar_len = (16 as f32 * (1.0 - (*p as f32 / 100f32))) as i32;
        let corner1 = top_left + Point::new((bar_x + 1) as i32, 16);
        let corner2 = top_left + Point::new((bar_x + 3) as i32, bar_len);
        let expected = Rectangle::with_corners(corner1, corner2);
        assert_eq!(bars[ind].rect, rect(expected));
        assert_eq!(bars[ind], rain_bar(graph, ind as u32, *p, hour));
        if ind as u32 == hour {
            let t = Triangle::new(Point::new(-1, -2), Point::new(1, -2), Point::new(0, 1))
                .align_to(&expected, horizontal::Center, vertical::BottomToTop)
                .translate(Point::new(0, -1));
            let m = bars[ind].marker.expect("marker on the current hour");
            let [a, b, c] = t.vertices;
            assert_eq!(m.a, Pos { x: a.x, y: a.y });
            assert_eq!(m.b, Pos { x: b.x, y: b.y });
            assert_eq!(m.c, Pos { x: c.x, y: c.y });
        } else {
            assert!(bars[ind].marker.is_none());
        }
    }
}

#[test]
fn first_bar_position() {
    let graph = Rect { x: 15, y: 44, width: 97, height: 17 };
    let bar = rain_bar(graph, 0, 50, 0);
    assert_eq!(bar.rect, Rect { x: 16, y: 52, width: 3, height: 9 });
    let m = bar.marker.unwrap();
    assert_eq!(m.c, Pos { x: 17, y: 50 });
    assert_eq!(m.a, Pos { x: 16, y: 47 });
    assert_eq!(m.b, Pos { x: 18, y: 47 });
}

#[test]
fn fps_text_matches_float_formula() {
    for ms in 0..100_000u64 {
        let expected = format!("{:02}", (1000.0f32 / ms as f32).round());
        assert_eq!(fps_text(ms), expected, "ms = {}", ms);
    }
    assert_eq!(fps_text(0), "inf");
    assert_eq!(fps_text(16), "63");
    assert_eq!(fps_text(1), "1000");
    assert_eq!(fps_text(200), "05");
    assert_eq!(fps_text(u64::MAX), "00");
}

#[test]
fn frame_clock_refresh_and_wrap() {
    let mut c = FrameClock::new();
    assert!(c.tick());
    assert_eq!(c.frame, 1);
    assert_eq!(c.spinner_start_degrees(), 6);
    let mut refreshes = 0;
    for _ in 1..1000 {
        if c.tick() {
            refreshes += 1;
        }
    }
    assert_eq!(refreshes, 9);
    let mut w = FrameClock { frame: u16::MAX };
    assert!(!w.tick());
    assert_eq!(w.frame, 0);
    assert!(w.tick());
    let top = FrameClock { frame: u16::MAX };
    assert_eq!(top.spinner_start_degrees(), 393210);
}

#[test]
fn icons_for_state() {
    assert_eq!(weather_icon(WeatherCondition::Clear), Icon::Sun);
    assert_eq!(weather_icon(WeatherCondition::Rain), Icon::Rain);
    assert_eq!(weather_icon(WeatherCondition::Snow), Icon::Snow);
    assert_eq!(weather_icon(WeatherCondition::Thunderstorm), Icon::Wind);
    assert_eq!(wifi_icon(true), Icon::WifiOn);
    assert_eq!(wifi_icon(false), Icon::WifiOff);
    assert_eq!(Icon::Sun.sprite_region(), Rect { x: 0, y: 48, width: 16, height: 16 });
    assert_eq!(Icon::GraphRight.sprite_region(), Rect { x: 16, y: 112, width: 16, height: 16 });
    assert_eq!(Icon::Logo.sprite_region(), Rect { x: 16, y: 32, width: 52, height: 16 });
}

#[test]
fn default_frame_content() {
    let mut s = ApplicationState::default();
    s.time = ClockTime { year: 2024, month: 5, day: 9, hour: 7, minute: 3, second: 41 };
    let f = frame(&s);
    assert_eq!(f.clock_text, "07:03:41");
    assert_eq!(f.date_text, "9/5/2024");
    assert_eq!(f.temperature_cur_text, "+2");
    assert_eq!(f.temperature_min_text, "-10");
    assert_eq!(f.temperature_max_text, "+32");
    assert_eq!(f.weather_icon, Icon::Sun);
    assert_eq!(f.wifi_icon, Icon::WifiOff);
    assert_eq!(f.bars.len(), 24);
    for (i, b) in f.bars.iter().enumerate() {
        assert_eq!(b.marker.is_some(), i == 7);
    }
}

#[test]
fn temperature_text_matches_format() {
    for t in [i8::MIN, -10, -1, 0, 1, 2, 32, i8::MAX] {
        let mut s = ApplicationState::default();
        s.temperature_cur = t;
        assert_eq!(frame(&s).temperature_cur_text, format!("{:+}", t));
    }
}

#[test]
fn day_bars_stay_inside_graph() {
    let l = ScreenLayout::new();
    let g = l.graph_area;
    let chances: Vec<u8> = (0..24u8).map(|h| h * 4 + 8).chain([0u8, 100].into_iter()).take(24).collect();
    for p in [0u8, 1, 50, 99, 100] {
        let all = vec![p; 24];
        for b in rain_bars(g, &all, 99) {
            let r = b.rect;
            assert!(g.x <= r.x && r.x + r.width as i32 <= g.x + g.width as i32);
            assert!(g.y <= r.y && r.y + r.height as i32 <= g.y + g.height as i32);
        }
    }
    assert_eq!(rain_bars(g, &chances, 0).len(), 24);
}

#[test]
fn text_layout_matches_graphics_library() {

    let mut s = ApplicationState::default();
    s.time = ClockTime { year: 2024, month: 11, day: 17, hour: 21, minute: 8, second: 59 };
    s.temperature_cur = -7;
    let f = frame(&s);
    let l = ScreenLayout::new();
    let t = text_layout(&f, &l);

    let screen = sized(128, 64);
    let weather_area = sized(52, 12).align_to(&screen, horizontal::Left, vertical::Center);
    let centered = TextStyleBuilder::new().alignment(Alignment::Center).baseline(Baseline::Middle).build();
    let pos = |p: Point| Pos { x: p.x, y: p.y };

    let time_text = Text::with_text_style(
        f.clock_text.as_str(),
        Point::zero(),
        MonoTextStyle::new(&FONT_9X15_BOLD, BinaryColor::On),
        centered,
    )
    .align_to(&screen, horizontal::Center, vertical::Top);
    assert_eq!(t.clock, pos(time_text.position));
    let date_text = Text::with_text_style(
        f.date_text.as_str(),
        Point::zero(),
        MonoTextStyle::new(&FONT_4X6, BinaryColor::On),
        centered,
    )
    .align_to(&time_text.bounding_box(), horizontal::Center, vertical::TopToBottom);
    assert_eq!(t.date, pos(date_text.position));
    let cur = Text::new(
        f.temperature_cur_text.as_str(),
        Point::zero(),
        MonoTextStyle::new(&FONT_7X13, BinaryColor::On),
    )
    .align_to(&weather_area, horizontal::Center, vertical::Center);
    assert_eq!(t.temperature_cur, pos(cur.position));
    let min = Text::new(
        f.temperature_min_text.as_str(),
        Point::zero(),
        MonoTextStyle::new(&FONT_4X6, BinaryColor::On),
    )
    .align_to(&weather_area, horizontal::Right, vertical::Bottom);
    assert_eq!(t.temperature_min, pos(min.position));
    let max = Text::new(
        f.temperature_max_text.as_str(),
        Point::zero(),
        MonoTextStyle::new(&FONT_4X6, BinaryColor::On),
    )
    .align_to(&weather_area, horizontal::Right, vertical::Top);
    assert_eq!(t.temperature_max, pos(max.position));
    let arc = Arc::new(Point::zero(), 16, Angle::from_degrees(0.0), Angle::from_degrees(100.0))
        .align_to(&screen, horizontal::Right, vertical::Top);
    assert_eq!(t.fps, pos(arc.center()));
    assert_eq!(t.fps, Pos { x: 119, y: 7 });
}

#[test]
fn text_position_moves_box() {
    let b = Rect { x: -10, y: -3, width: 20, height: 7 };
    let reference = Rect { x: 0, y: 0, width: 128, height: 64 };
    assert_eq!(text_position(b, reference, HAlign::Center, VAlign::Top), Pos { x: 64, y: 3 });
    assert_eq!(text_position(b, reference, HAlign::Left, VAlign::TopToBottom), Pos { x: 10, y: 67 });
}

fn original_positions(f: &weather_clock::screen::Frame) -> [Pos; 5] {
    let screen = sized(128, 64);
    let weather_area = sized(52, 12).align_to(&screen, horizontal::Left, vertical::Center);
    let centered = TextStyleBuilder::new().alignment(Alignment::Center).baseline(Baseline::Middle).build();
    let time_text = Text::with_text_style(
        f.clock_text.as_str(),
        Point::zero(),
        MonoTextStyle::new(&FONT_9X15_BOLD, BinaryColor::On),
        centered,
    )
    .align_to(&screen, horizontal::Center, vertical::Top);
    let date_text = Text::with_text_style(
        f.date_text.as_str(),
        Point::zero(),
        MonoTextStyle::new(&FONT_4X6, BinaryColor::On),
        centered,
    )
    .align_to(&time_text.bounding_box(), horizontal::Center, vertical::TopToBottom);
    let cur = Text::new(f.temperature_cur_text.as_str(), Point::zero(), MonoTextStyle::new(&FONT_7X13, BinaryColor::On))
        .align_to(&weather_area, horizontal::Center, vertical::Center);
    let min = Text::new(f.temperature_min_text.as_str(), Point::zero(), MonoTextStyle::new(&FONT_4X6, BinaryColor::On))
        .align_to(&weather_area, horizontal::Right, vertical::Bottom);
    let max = Text::new(f.temperature_max_text.as_str(), Point::zero(), MonoTextStyle::new(&FONT_4X6, BinaryColor::On))
        .align_to(&weather_area, horizontal::Right, vertical::Top);
    let p = |q: Point| Pos { x: q.x, y: q.y };
    [p(time_text.position), p(date_text.position), p(cur.position), p(min.position), p(max.position)]
}

#[test]
fn text_layout_of_unusual_texts_matches_graphics_library() {
    let texts: [&str; 6] = ["", "7", "-128", "4294967295:4294967295:4294967295", "31/12/-2147483648", "ab cd"];
    let l = ScreenLayout::new();
    for a in texts {
        for b in texts {
            let f = weather_clock::screen::Frame {
                clock_text: a.to_string(),
                date_text: b.to_string(),
                temperature_cur_text: b.to_string(),
                temperature_min_text: a.to_string(),
                temperature_max_text: b.to_string(),
                weather_icon: Icon::Sun,
                wifi_icon: Icon::WifiOff,
                bars: Vec::new(),
            };
            let t = text_layout(&f, &l);
            let [c, d, cur, min, max] = original_positions(&f);
            assert_eq!((t.clock, t.date, t.temperature_cur, t.temperature_min, t.temperature_max), (c, d, cur, min, max), "{:?} {:?}", a, b);
        }
    }
}
