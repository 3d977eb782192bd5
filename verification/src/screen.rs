use vstd::prelude::*;

use crate::geometry::{
    align, rectangle_center, rectangle_with_corners, translate, triangle_bounding_box, HAlign, Pos,
    Rect, VAlign,
};
use embedded_graphics::mono_font::ascii::{FONT_4X6, FONT_7X13, FONT_9X15_BOLD};
use embedded_graphics::mono_font::MonoTextStyle;
use embedded_graphics::pixelcolor::BinaryColor;
use embedded_graphics::prelude::{Dimensions, Point};
use embedded_graphics::text::{Alignment, Baseline, Text, TextStyleBuilder};
use crate::state::ApplicationState;
use crate::text::{push_explicit_sign, push_padded2};
use crate::weather::WeatherCondition;

verus! {

/// Width of the screen in pixels.
pub const SCREEN_WIDTH: u32 = 128;
/// Height of the screen in pixels.
pub const SCREEN_HEIGHT: u32 = 64;
/// Width of one bar of the precipitation graph.
pub const BAR_WIDTH: u32 = 3;
/// Gap before each bar of the precipitation graph.
pub const BAR_MARGIN: u32 = 1;
/// Height of a bar that stands for no chance of precipitation.
pub const BAR_HEIGHT: u32 = 16;
/// Number of hours the precipitation graph is laid out for.
pub const GRAPH_HOURS: u32 = 24;
/// Side of a square icon of the sprite sheet.
pub const ICON_SIZE: u32 = 16;
/// Diameter of the spinning arc in the top right corner.
pub const SPINNER_DIAMETER: u32 = 16;
/// Angle the spinning arc covers, in degrees.
pub const SPINNER_SWEEP_DEGREES: u32 = 100;
/// Angle the spinning arc turns by from one frame to the next, in degrees.
pub const SPINNER_STEP_DEGREES: u32 = 6;
/// Every this many frames the screen takes over the shared state.
pub const STATE_REFRESH_PERIOD: u16 = 100;

/// The pictures of the sprite sheet.
#[derive(Clone, Copy, Debug, PartialEq, Eq, Structural)]
pub enum Icon {
    Rain,
    Snow,
    Sun,
    Wind,
    WifiOn,
    WifiOff,
    GraphLeft,
    GraphRight,
    Logo,
}

impl Icon {
    /// Where the picture lies on the sprite sheet.
    pub open spec fn region_spec(self) -> Rect {
        match self {
            Icon::Rain => Rect { x: 0, y: 0, width: 16, height: 16 },
            Icon::Snow => Rect { x: 0, y: 16, width: 16, height: 16 },
            Icon::Sun => Rect { x: 0, y: 48, width: 16, height: 16 },
            Icon::Wind => Rect { x: 0, y: 64, width: 16, height: 16 },
            Icon::WifiOn => Rect { x: 0, y: 80, width: 16, height: 16 },
            Icon::WifiOff => Rect { x: 0, y: 96, width: 16, height: 16 },
            Icon::GraphLeft => Rect { x: 0, y: 112, width: 16, height: 16 },
            Icon::GraphRight => Rect { x: 16, y: 112, width: 16, height: 16 },
            Icon::Logo => Rect { x: 16, y: 32, width: 52, height: 16 },
        }
    }

    /// Where the picture lies on the sprite sheet.
    pub fn sprite_region(self) -> (r: Rect)
        ensures
            r == self.region_spec(),
            self == Icon::Rain ==> r == (Rect { x: 0, y: 0, width: 16, height: 16 }),
            self == Icon::Snow ==> r == (Rect { x: 0, y: 16, width: 16, height: 16 }),
            self == Icon::Sun ==> r == (Rect { x: 0, y: 48, width: 16, height: 16 }),
            self == Icon::Wind ==> r == (Rect { x: 0, y: 64, width: 16, height: 16 }),
            self == Icon::WifiOn ==> r == (Rect { x: 0, y: 80, width: 16, height: 16 }),
            self == Icon::WifiOff ==> r == (Rect { x: 0, y: 96, width: 16, height: 16 }),
            self == Icon::GraphLeft ==> r == (Rect { x: 0, y: 112, width: 16, height: 16 }),
            self == Icon::GraphRight ==> r == (Rect { x: 16, y: 112, width: 16, height: 16 }),
            self == Icon::Logo ==> r == (Rect { x: 16, y: 32, width: 52, height: 16 }),
    {
        match self {
            Icon::Rain => Rect { x: 0, y: 0, width: 16, height: 16 },
            Icon::Snow => Rect { x: 0, y: 16, width: 16, height: 16 },
            Icon::Sun => Rect { x: 0, y: 48, width: 16, height: 16 },
            Icon::Wind => Rect { x: 0, y: 64, width: 16, height: 16 },
            Icon::WifiOn => Rect { x: 0, y: 80, width: 16, height: 16 },
            Icon::WifiOff => Rect { x: 0, y: 96, width: 16, height: 16 },
            Icon::GraphLeft => Rect { x: 0, y: 112, width: 16, height: 16 },
            Icon::GraphRight => Rect { x: 16, y: 112, width: 16, height: 16 },
            Icon::Logo => Rect { x: 16, y: 32, width: 52, height: 16 },
        }
    }
}

/// Each picture is its fixed cell of the sprite sheet: the 16-pixel column
/// at x 0 holds, from the top, rain, snow, (a free cell), sun, wind, network
/// on, network off and the graph's left end; the graph's right end is beside
/// the left one and the 52-pixel logo at (16, 32). The network pictures are
/// the sixth and seventh cell of the column.
pub proof fn lemma_sprite_cells()
    ensures
        Icon::Rain.region_spec() == (Rect { x: 0, y: 0, width: 16, height: 16 }),
        Icon::Snow.region_spec() == (Rect { x: 0, y: 16, width: 16, height: 16 }),
        Icon::Sun.region_spec() == (Rect { x: 0, y: 48, width: 16, height: 16 }),
        Icon::Wind.region_spec() == (Rect { x: 0, y: 64, width: 16, height: 16 }),
        Icon::WifiOn.region_spec() == (Rect { x: 0, y: 80, width: 16, height: 16 }),
        Icon::WifiOff.region_spec() == (Rect { x: 0, y: 96, width: 16, height: 16 }),
        Icon::GraphLeft.region_spec() == (Rect { x: 0, y: 112, width: 16, height: 16 }),
        Icon::GraphRight.region_spec() == (Rect { x: 16, y: 112, width: 16, height: 16 }),
        Icon::Logo.region_spec() == (Rect { x: 16, y: 32, width: 52, height: 16 }),
{
}

/// The picture for a kind of weather: the sun for clear weather, rain, snow,
/// and the wind picture for thunderstorms.
pub open spec fn weather_icon_spec(c: WeatherCondition) -> Icon {
    match c {
        WeatherCondition::Clear => Icon::Sun,
        WeatherCondition::Rain => Icon::Rain,
        WeatherCondition::Snow => Icon::Snow,
        WeatherCondition::Thunderstorm => Icon::Wind,
    }
}

/// The picture for a kind of weather.
pub fn weather_icon(c: WeatherCondition) -> (i: Icon)
    ensures
        i == weather_icon_spec(c),
{
    match c {
        WeatherCondition::Clear => Icon::Sun,
        WeatherCondition::Rain => Icon::Rain,
        WeatherCondition::Snow => Icon::Snow,
        WeatherCondition::Thunderstorm => Icon::Wind,
    }
}

/// The network status picture.
pub fn wifi_icon(connected: bool) -> (i: Icon)
    ensures
        i == (if connected { Icon::WifiOn } else { Icon::WifiOff }),
{
    if connected {
        Icon::WifiOn
    } else {
        Icon::WifiOff
    }
}

/// The whole screen.
pub open spec fn screen_rect() -> Rect {
    Rect { x: 0, y: 0, width: 128, height: 64 }
}

/// An icon drawn at the origin, before it is placed.
pub open spec fn icon_at_origin() -> Rect {
    Rect { x: 0, y: 0, width: 16, height: 16 }
}

/// Where each fixed element of the screen goes.
#[derive(Clone, Copy, Debug, PartialEq, Eq, Structural)]
pub struct ScreenLayout {
    /// The whole screen.
    pub screen: Rect,
    /// The block with the weather icon and the three temperatures.
    pub weather_area: Rect,
    /// The precipitation graph.
    pub graph_area: Rect,
    /// The weather icon.
    pub weather_icon: Rect,
    /// The picture left of the graph.
    pub graph_left_icon: Rect,
    /// The picture right of the graph.
    pub graph_right_icon: Rect,
    /// The network status picture.
    pub wifi_icon: Rect,
    /// The community logo.
    pub logo: Rect,
    /// The box of the spinning arc.
    pub spinner: Rect,
}

/// The weather block: 52 by 12 pixels at the left edge, centred vertically.
pub open spec fn weather_area_spec() -> Rect {
    crate::geometry::aligned(
        Rect { x: 0, y: 0, width: 52, height: 12 },
        screen_rect(),
        HAlign::Left,
        VAlign::Center,
    )
}

/// The graph: one 4-pixel column per hour of the day plus one, 17 pixels
/// high, centred horizontally at the bottom and lifted by 3 pixels.
pub open spec fn graph_area_spec() -> Rect {
    crate::geometry::aligned(
        Rect { x: 0, y: 0, width: 97, height: 17 },
        screen_rect(),
        HAlign::Center,
        VAlign::Bottom,
    ).moved(0, -3)
}

/// How the fixed elements are placed.
pub open spec fn layout_spec() -> ScreenLayout {
    let weather_area = weather_area_spec();
    let graph_area = graph_area_spec();
    ScreenLayout {
        screen: screen_rect(),
        weather_area,
        graph_area,
        weather_icon: crate::geometry::aligned(
            icon_at_origin(),
            weather_area,
            HAlign::Left,
            VAlign::Center,
        ),
        graph_left_icon: crate::geometry::aligned(
            icon_at_origin(),
            graph_area,
            HAlign::RightToLeft,
            VAlign::Center,
        ),
        graph_right_icon: crate::geometry::aligned(
            icon_at_origin(),
            graph_area,
            HAlign::LeftToRight,
            VAlign::Center,
        ),
        wifi_icon: crate::geometry::aligned(
            icon_at_origin(),
            screen_rect(),
            HAlign::Left,
            VAlign::Top,
        ),
        logo: crate::geometry::aligned(
            Rect { x: 0, y: 0, width: 52, height: 16 },
            screen_rect(),
            HAlign::Right,
            VAlign::Center,
        ),
        spinner: crate::geometry::aligned(
            Rect { x: 0, y: 0, width: 16, height: 16 },
            screen_rect(),
            HAlign::Right,
            VAlign::Top,
        ),
    }
}

/// The graph area.
fn graph_area() -> (r: Rect)
    ensures
        r == graph_area_spec(),
        r == (Rect { x: 15, y: 44, width: 97, height: 17 }),
{
    let screen = Rect { x: 0, y: 0, width: SCREEN_WIDTH, height: SCREEN_HEIGHT };
    let graph = Rect {
        x: 0,
        y: 0,
        width: (BAR_WIDTH + BAR_MARGIN) * GRAPH_HOURS + 1,
        height: BAR_HEIGHT + 1,
    };
    let placed = align(graph, screen, HAlign::Center, VAlign::Bottom);
    translate(placed, 0, -3)
}

impl ScreenLayout {
    /// Places the fixed elements of the screen.
    pub fn new() -> (l: ScreenLayout)
        ensures
            l == layout_spec(),
            l.weather_area == (Rect { x: 0, y: 26, width: 52, height: 12 }),
            l.graph_area == (Rect { x: 15, y: 44, width: 97, height: 17 }),
            l.weather_icon == (Rect { x: 0, y: 24, width: 16, height: 16 }),
            l.graph_left_icon == (Rect { x: -1i32, y: 45, width: 16, height: 16 }),
            l.graph_right_icon == (Rect { x: 112, y: 45, width: 16, height: 16 }),
            l.wifi_icon == (Rect { x: 0, y: 0, width: 16, height: 16 }),
            l.logo == (Rect { x: 76, y: 24, width: 52, height: 16 }),
            l.spinner == (Rect { x: 112, y: 0, width: 16, height: 16 }),
            layout_ok(l),
    {
        let screen = Rect { x: 0, y: 0, width: SCREEN_WIDTH, height: SCREEN_HEIGHT };
        let icon = Rect { x: 0, y: 0, width: ICON_SIZE, height: ICON_SIZE };
        let weather_area = align(
            Rect { x: 0, y: 0, width: 52, height: 12 },
            screen,
            HAlign::Left,
            VAlign::Center,
        );
        let graph_area = graph_area();
        ScreenLayout {
            screen,
            weather_area,
            graph_area,
            weather_icon: align(icon, weather_area, HAlign::Left, VAlign::Center),
            graph_left_icon: align(icon, graph_area, HAlign::RightToLeft, VAlign::Center),
            graph_right_icon: align(icon, graph_area, HAlign::LeftToRight, VAlign::Center),
            wifi_icon: align(icon, screen, HAlign::Left, VAlign::Top),
            logo: align(Rect { x: 0, y: 0, width: 52, height: 16 }, screen, HAlign::Right, VAlign::Center),
            spinner: align(
                Rect { x: 0, y: 0, width: SPINNER_DIAMETER, height: SPINNER_DIAMETER },
                screen,
                HAlign::Right,
                VAlign::Top,
            ),
        }
    }
}

/// The longest list of hourly chances the graph is laid out for; beyond it
/// the bar coordinates would leave the layout range.
pub const MAX_GRAPH_ENTRIES: usize = 0x0100_0000;

/// The row where the bar for a chance of `p` percent starts: sixteen pixels
/// times the chance that it stays dry, rounded towards zero; above 100
/// percent the bar reaches above the graph.
pub open spec fn bar_top(p: u8) -> int {
    if p <= 100 {
        (16 * (100 - p)) / 100
    } else {
        -((16 * (p - 100)) / 100)
    }
}

/// The row, relative to the graph, where the bar for a chance of `p` percent
/// starts.
pub fn bar_top_row(p: u8) -> (r: i32)
    ensures
        r == bar_top(p),
        -24 <= r <= 16,
{
    if p <= 100 {
        let dry: i32 = 100 - p as i32;
        (16 * dry) / 100
    } else {
        let over: i32 = p as i32 - 100;
        0 - (16 * over) / 100
    }
}

/// The triangle that marks the current hour.
#[derive(Clone, Copy, Debug, PartialEq, Eq, Structural)]
pub struct Marker {
    pub a: Pos,
    pub b: Pos,
    pub c: Pos,
}

/// One bar of the precipitation graph, with the marker when it is the bar
/// of the current hour.
#[derive(Clone, Copy, Debug, PartialEq, Eq, Structural)]
pub struct RainBar {
    pub rect: Rect,
    pub marker: Option<Marker>,
}

/// The marker triangle as drawn at the origin.
pub open spec fn marker_shape() -> Marker {
    Marker { a: Pos { x: -1i32, y: -2i32 }, b: Pos { x: 1, y: -2i32 }, c: Pos { x: 0, y: 1 } }
}

/// The marker above a bar: the triangle centred horizontally on the bar,
/// with its last row just above the bar's top row, and then one more pixel up.
pub open spec fn marker_spec(bar: Rect) -> Marker {
    let m = marker_shape();
    let bounds = crate::geometry::triangle_bounds_spec(m.a, m.b, m.c);
    let dx = crate::geometry::h_offset(bounds, bar, HAlign::Center);
    let dy = crate::geometry::v_offset(bounds, bar, VAlign::BottomToTop) - 1;
    Marker {
        a: Pos { x: (m.a.x + dx) as i32, y: (m.a.y + dy) as i32 },
        b: Pos { x: (m.b.x + dx) as i32, y: (m.b.y + dy) as i32 },
        c: Pos { x: (m.c.x + dx) as i32, y: (m.c.y + dy) as i32 },
    }
}

/// The bar for hour `index` of the graph at `graph` with a chance of `p`
/// percent: three pixels wide after a one-pixel gap, from the graph's row 16
/// up to `bar_top(p)`, both rows included; marked when `index` is the
/// current hour.
pub open spec fn bar_spec(graph: Rect, index: int, p: u8, hour: u32) -> RainBar {
    let bar_x = 4 * index;
    let rect = crate::geometry::spanned(
        Pos { x: (graph.x + bar_x + 1) as i32, y: (graph.y + 16) as i32 },
        Pos { x: (graph.x + bar_x + 3) as i32, y: (graph.y + bar_top(p)) as i32 },
    );
    RainBar { rect, marker: if hour == index { Some(marker_spec(rect)) } else { None } }
}

/// The bars for a list of hourly chances.
pub open spec fn bars_spec(graph: Rect, chances: Seq<u8>, hour: u32) -> Seq<RainBar> {
    Seq::new(chances.len(), |i: int| bar_spec(graph, i, chances[i], hour))
}

/// A graph position for which the bars stay in the layout range.
pub open spec fn graph_ok(graph: Rect) -> bool {
    &&& -0x0800_0000 <= graph.x <= 0x0800_0000
    &&& -0x0800_0000 <= graph.y <= 0x0800_0000
}

/// Bars shrink as the chance of precipitation grows: full height (row 0)
/// at 0 percent, nothing above the base row 16 at 100 percent.
pub proof fn lemma_bar_top_monotone(p: u8, q: u8)
    ensures
        bar_top(0) == 0 + 16,
        bar_top(100) == 0,
        p <= q ==> bar_top(q) <= bar_top(p),
        p <= 100 ==> 0 <= bar_top(p) <= 16,
{
    assert(p <= q ==> bar_top(q) <= bar_top(p)) by (nonlinear_arith);
    assert(p <= 100 ==> 0 <= bar_top(p) <= 16) by (nonlinear_arith);
}

/// For a day of hours and chances of at most 100 percent, each bar lies
/// inside the graph area.
pub proof fn lemma_day_bars_inside_graph(graph: Rect, index: int, p: u8, hour: u32)
    requires
        graph_ok(graph),
        graph.width == 97,
        graph.height == 17,
        0 <= index < 24,
        p <= 100,
    ensures
        ({
            let r = bar_spec(graph, index, p, hour).rect;
            &&& graph.x <= r.x
            &&& r.right_x() <= graph.right_x()
            &&& graph.y <= r.y
            &&& r.bottom_y() <= graph.bottom_y()
            &&& r.width == 3
            &&& r.height == 17 - bar_top(p)
        }),
{
    lemma_bar_top_monotone(p, p);
}

/// The marker's tip points at the centre column of its bar, two rows above
/// the bar's top row, and its base is one row above the tip's row less three.
pub proof fn lemma_marker_tip(bar: Rect)
    requires
        bar.fits(),
        bar.width == 3,
        bar.height >= 1,
    ensures
        marker_spec(bar).c == (Pos { x: (bar.x + 1) as i32, y: (bar.y - 2) as i32 }),
        marker_spec(bar).a.y == bar.y - 5,
        marker_spec(bar).b.y == bar.y - 5,
{
}

/// The bar of hour `index` covers columns `4 * index + 1` to `4 * index + 3`
/// of the graph, so bars of different hours never overlap and each hour lies
/// four pixels right of the one before; it reaches down to the graph's row
/// 16 and up to the row that the chance gives; the marker sits on exactly
/// the current hour's bar.
pub proof fn lemma_bar_columns(graph: Rect, index: int, p: u8, hour: u32)
    requires
        graph_ok(graph),
        0 <= index <= MAX_GRAPH_ENTRIES,
    ensures
        bar_spec(graph, index, p, hour).rect.x == graph.x + 4 * index + 1,
        bar_spec(graph, index, p, hour).rect.right_x() == graph.x + 4 * index + 3,
        bar_spec(graph, index, p, hour).rect.width == 3,
        bar_spec(graph, index, p, hour).rect.y == graph.y + bar_top(p),
        bar_spec(graph, index, p, hour).rect.bottom_y() == graph.y + 16,
        (bar_spec(graph, index, p, hour).marker is Some) == (hour == index),
{
}

/// Two bars of different hours share no column.
pub proof fn lemma_bars_apart(graph: Rect, i: int, j: int, p: u8, q: u8, hour: u32)
    requires
        graph_ok(graph),
        0 <= i < j <= MAX_GRAPH_ENTRIES,
    ensures
        bar_spec(graph, i, p, hour).rect.right_x() < bar_spec(graph, j, q, hour).rect.x,
        bar_spec(graph, j, q, hour).rect.x - bar_spec(graph, i, p, hour).rect.x == 4 * (j - i),
{
    lemma_bar_columns(graph, i, p, hour);
    lemma_bar_columns(graph, j, q, hour);
}

/// The bar's top row is sixteen times the chance that it stays dry, rounded
/// towards zero: for chances up to 100 percent `bar_top(p)` is the largest
/// row `r` with `100 * r <= 16 * (100 - p)`; above, the smallest `r` with
/// `100 * r >= 16 * (100 - p)`.
pub proof fn lemma_bar_top_rounding(p: u8)
    ensures
        p <= 100 ==> 100 * bar_top(p) <= 16 * (100 - p) < 100 * (bar_top(p) + 1),
        p > 100 ==> 100 * (bar_top(p) - 1) < 16 * (100 - p) <= 100 * bar_top(p),
{
}

/// The marker above `bar`.
fn marker_above(bar: Rect) -> (m: Marker)
    requires
        bar.fits(),
        -0x1000_0000 <= bar.x <= 0x1000_0000,
        -0x1000_0000 <= bar.y <= 0x1000_0000,
    ensures
        m == marker_spec(bar),
{
    let a = Pos { x: -1, y: -2 };
    let b = Pos { x: 1, y: -2 };
    let c = Pos { x: 0, y: 1 };
    let bounds = triangle_bounding_box(a, b, c);
    let placed = align(bounds, bar, HAlign::Center, VAlign::BottomToTop);
    let dx: i32 = placed.x - bounds.x;
    let dy: i32 = placed.y - bounds.y - 1;
    Marker {
        a: Pos { x: a.x + dx, y: a.y + dy },
        b: Pos { x: b.x + dx, y: b.y + dy },
        c: Pos { x: c.x + dx, y: c.y + dy },
    }
}

/// The bar for hour `index` of the graph.
pub fn rain_bar(graph: Rect, index: u32, p: u8, hour: u32) -> (b: RainBar)
    requires
        graph_ok(graph),
        index <= MAX_GRAPH_ENTRIES,
    ensures
        b == bar_spec(graph, index as int, p, hour),
        b.rect.x == graph.x + 4 * index + 1,
        b.rect.width == 3,
        b.rect.bottom_y() == graph.y + 16,
        (b.marker is Some) == (hour == index),
{
    proof { lemma_bar_columns(graph, index as int, p, hour); }
    let bar_x: i32 = 4 * (index as i32);
    let top: i32 = bar_top_row(p);
    let corner1 = Pos { x: graph.x + bar_x + 1, y: graph.y + 16 };
    let corner2 = Pos { x: graph.x + bar_x + 3, y: graph.y + top };
    let rect = rectangle_with_corners(corner1, corner2);
    let marker = if hour == index {
        Some(marker_above(rect))
    } else {
        None
    };
    RainBar { rect, marker }
}

/// The bars for a list of hourly chances.
pub fn rain_bars(graph: Rect, chances: &Vec<u8>, hour: u32) -> (bars: Vec<RainBar>)
    requires
        graph_ok(graph),
        chances@.len() <= MAX_GRAPH_ENTRIES,
    ensures
        bars@ == bars_spec(graph, chances@, hour),
{
    let mut bars: Vec<RainBar> = Vec::new();
    let n: usize = chances.len();
    let mut i: usize = 0;
    while i < n
        invariant
            n == chances@.len(),
            n <= MAX_GRAPH_ENTRIES,
            graph_ok(graph),
            i <= n,
            bars@.len() == i,
            forall|j: int| 0 <= j < i ==> bars@[j] == bar_spec(graph, j, chances@[j], hour),
        decreases n - i,
    {
        let bar = rain_bar(graph, i as u32, chances[i], hour);
        bars.push(bar);
        i = i + 1;
    }
    assert(bars@ =~= bars_spec(graph, chances@, hour));
    bars
}

/// What one frame shows, apart from the placement of its texts.
#[derive(Clone, Debug)]
pub struct Frame {
    /// `HH:MM:SS`.
    pub clock_text: String,
    /// `day/month/year`.
    pub date_text: String,
    /// The current temperature, with its sign.
    pub temperature_cur_text: String,
    /// Today's lowest temperature, with its sign.
    pub temperature_min_text: String,
    /// Today's highest temperature, with its sign.
    pub temperature_max_text: String,
    pub weather_icon: Icon,
    pub wifi_icon: Icon,
    /// One bar per hourly chance, in the order of the hours.
    pub bars: Vec<RainBar>,
}

/// The content of the frame for `state`.
pub fn frame(state: &ApplicationState) -> (f: Frame)
    requires
        state.rain_probability@.len() <= MAX_GRAPH_ENTRIES,
    ensures
        f.clock_text@ == state.time.clock_spec(),
        f.date_text@ == state.time.date_spec(),
        f.temperature_cur_text@ == crate::text::explicit_sign_decimal(state.temperature_cur as int),
        f.temperature_min_text@ == crate::text::explicit_sign_decimal(state.temperature_min as int),
        f.temperature_max_text@ == crate::text::explicit_sign_decimal(state.temperature_max as int),
        f.weather_icon == weather_icon_spec(state.weather_condition),
        f.wifi_icon == (if state.is_wifi_connected { Icon::WifiOn } else { Icon::WifiOff }),
        f.bars@ == bars_spec(graph_area_spec(), state.rain_probability@, state.time.hour),
        measurable(f.clock_text@),
        measurable(f.date_text@),
        measurable(f.temperature_cur_text@),
        measurable(f.temperature_min_text@),
        measurable(f.temperature_max_text@),
{
    proof {
        crate::clock::lemma_clock_lines_short(state.time);
        crate::text::lemma_number_texts_short(0, state.temperature_cur as int);
        crate::text::lemma_number_texts_short(0, state.temperature_min as int);
        crate::text::lemma_number_texts_short(0, state.temperature_max as int);
    }
    let mut temperature_cur_text = String::new();
    push_explicit_sign(&mut temperature_cur_text, state.temperature_cur as i32);
    let mut temperature_min_text = String::new();
    push_explicit_sign(&mut temperature_min_text, state.temperature_min as i32);
    let mut temperature_max_text = String::new();
    push_explicit_sign(&mut temperature_max_text, state.temperature_max as i32);
    let graph = graph_area();
    Frame {
        clock_text: state.time.clock_text(),
        date_text: state.time.date_text(),
        temperature_cur_text,
        temperature_min_text,
        temperature_max_text,
        weather_icon: weather_icon(state.weather_condition),
        wifi_icon: wifi_icon(state.is_wifi_connected),
        bars: rain_bars(graph, &state.rain_probability, state.time.hour),
    }
}

/// The fonts of the screen (`embedded_graphics`' `ascii` mono fonts).
#[derive(Clone, Copy, Debug, PartialEq, Eq, Structural)]
pub enum Font {
    /// 4 by 6 pixels: date, lowest and highest temperature, frame rate.
    Small,
    /// 7 by 13 pixels: current temperature.
    Medium,
    /// 9 by 15 pixels, bold: clock.
    LargeBold,
}

impl Font {
    /// Width of a character cell; the fonts put no space between cells.
    pub open spec fn char_width(self) -> int {
        match self {
            Font::Small => 4,
            Font::Medium => 7,
            Font::LargeBold => 9,
        }
    }

    /// Height of a character cell.
    pub open spec fn char_height(self) -> int {
        match self {
            Font::Small => 6,
            Font::Medium => 13,
            Font::LargeBold => 15,
        }
    }

    /// Rows from the top of a cell to the baseline.
    pub open spec fn baseline(self) -> int {
        match self {
            Font::Small => 4,
            Font::Medium => 10,
            Font::LargeBold => 11,
        }
    }
}

/// The longest text that is measured.
pub const MAX_TEXT_CHARS: usize = 0x0100_0000;

/// A text that the screen can measure: one line of at most
/// `MAX_TEXT_CHARS` characters.
pub open spec fn measurable(text: Seq<char>) -> bool {
    text.len() <= MAX_TEXT_CHARS && crate::text::single_line(text)
}

/// The bounding box of a one-line text of `n` characters in `font` drawn at
/// `(x, y)`. Centred text is centred on that point (the left half rounded
/// down) with its middle row (rounded up) on it; other text starts at that
/// point with its baseline on it. An empty text has an empty box at the point.
pub open spec fn line_box(n: int, font: Font, centered: bool, x: int, y: int) -> Rect {
    let w = n * font.char_width();
    let h = font.char_height();
    if n == 0 {
        Rect { x: x as i32, y: y as i32, width: 0, height: 0 }
    } else if centered {
        Rect { x: (x - (w - 1) / 2) as i32, y: (y - (h - 1) / 2) as i32, width: w as u32, height: h as u32 }
    } else {
        Rect { x: x as i32, y: (y - font.baseline()) as i32, width: w as u32, height: h as u32 }
    }
}

/// `embedded_graphics`' bounding box of a `Text` (`Dimensions::bounding_box`)
/// in one of the screen's `ascii` mono fonts without decorations, one line
/// long; with `centered` the text style is centre alignment on the middle
/// baseline, else the default style (left alignment on the alphabetic
/// baseline). The box follows from the font's cell size and baseline as
/// `line_box` states.
#[verifier::external_body]
fn text_box(text: &str, font: Font, centered: bool, x: i32, y: i32) -> (r: Rect)
    requires
        measurable(text@),
        crate::geometry::coord_ok(x as int),
        crate::geometry::coord_ok(y as int),
    ensures
        r == line_box(text@.len() as int, font, centered, x as int, y as int),
{
    let f = match font {
        Font::Small => &FONT_4X6,
        Font::Medium => &FONT_7X13,
        Font::LargeBold => &FONT_9X15_BOLD,
    };
    let style = if centered {
        TextStyleBuilder::new().alignment(Alignment::Center).baseline(Baseline::Middle).build()
    } else {
        TextStyleBuilder::new().build()
    };
    let b = Text::with_text_style(text, Point::new(x, y), MonoTextStyle::new(f, BinaryColor::On), style)
        .bounding_box();
    Rect { x: b.top_left.x, y: b.top_left.y, width: b.size.width, height: b.size.height }
}

/// The box of a measurable text lies in the layout range when it is drawn at
/// a position within half the range.
proof fn lemma_line_box_fits(n: int, font: Font, centered: bool, x: int, y: int)
    requires
        0 <= n <= MAX_TEXT_CHARS,
        -0x1000_0000 <= x <= 0x1000_0000,
        -0x1000_0000 <= y <= 0x1000_0000,
    ensures
        line_box(n, font, centered, x, y).fits(),
{
    assert(n * font.char_width() <= 9 * 0x0100_0000) by (nonlinear_arith)
        requires
            0 <= n <= MAX_TEXT_CHARS,
            font.char_width() <= 9,
            font.char_width() >= 4,
    ;
    assert(n * font.char_width() >= 0) by (nonlinear_arith)
        requires
            0 <= n,
            font.char_width() >= 4,
    ;
}

/// Where the texts of a frame are drawn (each text's drawing position).
#[derive(Clone, Copy, Debug, PartialEq, Eq, Structural)]
pub struct TextLayout {
    pub clock: Pos,
    pub date: Pos,
    pub temperature_cur: Pos,
    pub temperature_min: Pos,
    pub temperature_max: Pos,
    pub fps: Pos,
}

/// The drawing position that aligns a text whose box, drawn at the origin,
/// is `text_box`, to `reference`.
pub open spec fn text_position_spec(text_box: Rect, reference: Rect, h: HAlign, v: VAlign) -> Pos {
    Pos {
        x: crate::geometry::h_offset(text_box, reference, h) as i32,
        y: crate::geometry::v_offset(text_box, reference, v) as i32,
    }
}

/// The drawing position that aligns a text to `reference`, given the box of
/// the text drawn at the origin: the text moves by the two offsets, as
/// `embedded_layout`'s `align_to` moves it.
pub fn text_position(text_box: Rect, reference: Rect, h: HAlign, v: VAlign) -> (p: Pos)
    requires
        text_box.fits(),
        reference.fits(),
    ensures
        p == text_position_spec(text_box, reference, h, v),
{
    let placed = align(text_box, reference, h, v);
    Pos { x: placed.x - text_box.x, y: placed.y - text_box.y }
}

/// A layout whose screen, weather block and spinner stay well inside the
/// layout range.
pub open spec fn layout_ok(layout: ScreenLayout) -> bool {
    &&& layout.screen.fits()
    &&& layout.weather_area.fits()
    &&& layout.spinner.fits()
    &&& -0x0800_0000 <= layout.screen.x <= 0x0800_0000
    &&& -0x0800_0000 <= layout.screen.y <= 0x0800_0000
    &&& layout.screen.width <= 0x0800_0000
    &&& layout.screen.height <= 0x0800_0000
}

/// Where the texts go: the clock centred at the top of the screen, the date
/// centred just below the clock's box, the current temperature in the centre
/// of the weather block, the lowest at its bottom right, the highest at its
/// top right, and the frame rate centred on the spinner's centre.
pub open spec fn text_layout_spec(
    clock: Seq<char>,
    date: Seq<char>,
    cur: Seq<char>,
    min: Seq<char>,
    max: Seq<char>,
    layout: ScreenLayout,
) -> TextLayout {
    let clock_box0 = line_box(clock.len() as int, Font::LargeBold, true, 0, 0);
    let clock_pos = text_position_spec(clock_box0, layout.screen, HAlign::Center, VAlign::Top);
    let clock_box = line_box(clock.len() as int, Font::LargeBold, true, clock_pos.x as int, clock_pos.y as int);
    TextLayout {
        clock: clock_pos,
        date: text_position_spec(
            line_box(date.len() as int, Font::Small, true, 0, 0),
            clock_box,
            HAlign::Center,
            VAlign::TopToBottom,
        ),
        temperature_cur: text_position_spec(
            line_box(cur.len() as int, Font::Medium, false, 0, 0),
            layout.weather_area,
            HAlign::Center,
            VAlign::Center,
        ),
        temperature_min: text_position_spec(
            line_box(min.len() as int, Font::Small, false, 0, 0),
            layout.weather_area,
            HAlign::Right,
            VAlign::Bottom,
        ),
        temperature_max: text_position_spec(
            line_box(max.len() as int, Font::Small, false, 0, 0),
            layout.weather_area,
            HAlign::Right,
            VAlign::Top,
        ),
        fps: Pos { x: layout.spinner.center_x() as i32, y: layout.spinner.center_y() as i32 },
    }
}

/// A text's box moves with its drawing position.
proof fn lemma_line_box_moves(n: int, font: Font, centered: bool, x: int, y: int)
    requires
        0 <= n <= MAX_TEXT_CHARS,
        -0x4000_0000 <= x <= 0x4000_0000,
        -0x4000_0000 <= y <= 0x4000_0000,
    ensures
        line_box(n, font, centered, x, y).x == line_box(n, font, centered, 0, 0).x + x,
        line_box(n, font, centered, x, y).y == line_box(n, font, centered, 0, 0).y + y,
        line_box(n, font, centered, x, y).width == line_box(n, font, centered, 0, 0).width,
        line_box(n, font, centered, x, y).height == line_box(n, font, centered, 0, 0).height,
        line_box(n, font, centered, 0, 0).fits(),
{
    lemma_line_box_fits(n, font, centered, 0, 0);
    assert(n * font.char_width() <= 9 * 0x0100_0000) by (nonlinear_arith)
        requires
            0 <= n <= MAX_TEXT_CHARS,
            font.char_width() <= 9,
            font.char_width() >= 4,
    ;
    assert(n * font.char_width() >= 0) by (nonlinear_arith)
        requires
            0 <= n,
            font.char_width() >= 4,
    ;
}

/// Where the texts end up, stated by the boxes they cover when drawn at
/// their positions: the clock's box is centred on the screen's centre column
/// with its top on the screen's top row; the date's box is centred under the
/// clock's box and starts on the row below it; the current temperature's box
/// is centred on the weather block both ways; the lowest temperature's box
/// ends at the block's last column and last row, the highest's at its last
/// column and first row; the frame rate is drawn at the spinner's centre.
pub proof fn lemma_texts_placed(
    clock: Seq<char>,
    date: Seq<char>,
    cur: Seq<char>,
    min: Seq<char>,
    max: Seq<char>,
    layout: ScreenLayout,
)
    requires
        layout_ok(layout),
        measurable(clock),
        measurable(date),
        measurable(cur),
        measurable(min),
        measurable(max),
    ensures
        ({
            let t = text_layout_spec(clock, date, cur, min, max, layout);
            let area = layout.weather_area;
            let cb = line_box(clock.len() as int, Font::LargeBold, true, t.clock.x as int, t.clock.y as int);
            let db = line_box(date.len() as int, Font::Small, true, t.date.x as int, t.date.y as int);
            let tb = line_box(cur.len() as int, Font::Medium, false, t.temperature_cur.x as int, t.temperature_cur.y as int);
            let lb = line_box(min.len() as int, Font::Small, false, t.temperature_min.x as int, t.temperature_min.y as int);
            let hb = line_box(max.len() as int, Font::Small, false, t.temperature_max.x as int, t.temperature_max.y as int);
            &&& cb.center_x() == layout.screen.center_x()
            &&& cb.y == layout.screen.y
            &&& db.center_x() == cb.center_x()
            &&& (date.len() > 0 ==> db.y == cb.bottom_y() + 1)
            &&& tb.center_x() == area.center_x()
            &&& tb.center_y() == area.center_y()
            &&& lb.right_x() == area.right_x()
            &&& lb.bottom_y() == area.bottom_y()
            &&& hb.right_x() == area.right_x()
            &&& hb.y == area.y
            &&& t.fps == (Pos { x: layout.spinner.center_x() as i32, y: layout.spinner.center_y() as i32 })
        }),
{
    let t = text_layout_spec(clock, date, cur, min, max, layout);
    let cb0 = line_box(clock.len() as int, Font::LargeBold, true, 0, 0);
    lemma_line_box_moves(clock.len() as int, Font::LargeBold, true, t.clock.x as int, t.clock.y as int);
    let cb = line_box(clock.len() as int, Font::LargeBold, true, t.clock.x as int, t.clock.y as int);
    lemma_line_box_fits(clock.len() as int, Font::LargeBold, true, t.clock.x as int, t.clock.y as int);
    lemma_line_box_moves(date.len() as int, Font::Small, true, t.date.x as int, t.date.y as int);
    lemma_line_box_moves(cur.len() as int, Font::Medium, false, t.temperature_cur.x as int, t.temperature_cur.y as int);
    lemma_line_box_moves(min.len() as int, Font::Small, false, t.temperature_min.x as int, t.temperature_min.y as int);
    lemma_line_box_moves(max.len() as int, Font::Small, false, t.temperature_max.x as int, t.temperature_max.y as int);
}

/// Where the texts of `f` go on a screen laid out as `layout`.
pub fn text_layout(f: &Frame, layout: &ScreenLayout) -> (t: TextLayout)
    requires
        layout_ok(*layout),
        measurable(f.clock_text@),
        measurable(f.date_text@),
        measurable(f.temperature_cur_text@),
        measurable(f.temperature_min_text@),
        measurable(f.temperature_max_text@),
    ensures
        t == text_layout_spec(
            f.clock_text@,
            f.date_text@,
            f.temperature_cur_text@,
            f.temperature_min_text@,
            f.temperature_max_text@,
            *layout,
        ),
{
    proof {
        lemma_line_box_fits(f.clock_text@.len() as int, Font::LargeBold, true, 0, 0);
        lemma_line_box_fits(f.date_text@.len() as int, Font::Small, true, 0, 0);
        lemma_line_box_fits(f.temperature_cur_text@.len() as int, Font::Medium, false, 0, 0);
        lemma_line_box_fits(f.temperature_min_text@.len() as int, Font::Small, false, 0, 0);
        lemma_line_box_fits(f.temperature_max_text@.len() as int, Font::Small, false, 0, 0);
    }
    let clock_box0 = text_box(f.clock_text.as_str(), Font::LargeBold, true, 0, 0);
    let clock_pos = text_position(clock_box0, layout.screen, HAlign::Center, VAlign::Top);
    proof {
        let n = f.clock_text@.len() as int;
        assert(n * 9 <= 9 * 0x0100_0000) by (nonlinear_arith)
            requires
                0 <= n <= MAX_TEXT_CHARS,
        ;
        lemma_line_box_fits(n, Font::LargeBold, true, clock_pos.x as int, clock_pos.y as int);
    }
    let clock_box = text_box(f.clock_text.as_str(), Font::LargeBold, true, clock_pos.x, clock_pos.y);
    let date_box0 = text_box(f.date_text.as_str(), Font::Small, true, 0, 0);
    let cur_box0 = text_box(f.temperature_cur_text.as_str(), Font::Medium, false, 0, 0);
    let min_box0 = text_box(f.temperature_min_text.as_str(), Font::Small, false, 0, 0);
    let max_box0 = text_box(f.temperature_max_text.as_str(), Font::Small, false, 0, 0);
    TextLayout {
        clock: clock_pos,
        date: text_position(date_box0, clock_box, HAlign::Center, VAlign::TopToBottom),
        temperature_cur: text_position(cur_box0, layout.weather_area, HAlign::Center, VAlign::Center),
        temperature_min: text_position(min_box0, layout.weather_area, HAlign::Right, VAlign::Bottom),
        temperature_max: text_position(max_box0, layout.weather_area, HAlign::Right, VAlign::Top),
        fps: rectangle_center(layout.spinner),
    }
}

/// The frame counter of the drawing loop; it wraps around after 65535.
#[derive(Clone, Copy, Debug, PartialEq, Eq, Structural)]
pub struct FrameClock {
    pub frame: u16,
}

impl FrameClock {
    /// Starts at frame 0.
    pub fn new() -> (c: FrameClock)
        ensures
            c.frame == 0,
    {
        FrameClock { frame: 0 }
    }

    /// Moves on to the next frame and tells whether, before moving on, the
    /// shared state was due to be taken over: on every frame number that is
    /// a multiple of 100.
    pub fn tick(&mut self) -> (refresh: bool)
        ensures
            refresh == (old(self).frame % 100 == 0),
            final(self).frame == (if old(self).frame == u16::MAX { 0 } else { old(self).frame + 1 }),
    {
        let refresh = self.frame % STATE_REFRESH_PERIOD == 0;
        self.frame = self.frame.wrapping_add(1);
        refresh
    }

    /// Where the spinning arc starts, in degrees: six per frame.
    pub fn spinner_start_degrees(&self) -> (d: u32)
        ensures
            d == 6 * self.frame,
    {
        SPINNER_STEP_DEGREES * self.frame as u32
    }
}

/// The frame number `k` ticks after frame `f`.
pub open spec fn frame_after(f: u16, k: nat) -> int {
    (f + k) % 65536
}

/// Each tick moves one frame on: `k + 1` ticks after `f` is one tick after
/// `k` ticks after `f`.
pub proof fn lemma_tick_steps(f: u16, k: nat)
    ensures
        frame_after(f, k + 1) == (if frame_after(f, k) == u16::MAX as int { 0 } else {
            frame_after(f, k) + 1
        }),
{
}

/// The shared state is taken over once every hundred frames: after a frame
/// that takes it over, the next 99 do not and the hundredth does, as long as
/// the counter does not wrap around in between.
pub proof fn lemma_refresh_every_hundred_frames(f: u16)
    requires
        f % 100 == 0,
        f + 100 <= u16::MAX,
    ensures
        forall|k: nat| 1 <= k < 100 ==> #[trigger] frame_after(f, k) % 100 != 0,
        frame_after(f, 100) % 100 == 0,
{
}

/// Frames per second for a frame that took `millis` milliseconds, rounded
/// to the nearest whole number, halves up.
pub open spec fn frame_rate(millis: nat) -> nat {
    (2000 + millis) / (2 * millis)
}

/// The rate label: "inf" for a frame that took no whole millisecond, else
/// the rounded rate padded with '0' to two digits.
pub open spec fn fps_spec(millis: nat) -> Seq<char> {
    if millis == 0 {
        "inf"@
    } else {
        crate::text::padded2(frame_rate(millis))
    }
}

/// The rounded rate is the whole number nearest to 1000 / millis, halves
/// going up.
pub proof fn lemma_frame_rate_nearest(millis: nat)
    requires
        millis > 0,
    ensures
        2 * frame_rate(millis) * millis <= 2000 + millis,
        2000 + millis < 2 * frame_rate(millis) * millis + 2 * millis,
{
    let a: int = 2000 + millis as int;
    let d: int = 2 * millis as int;
    let q: int = frame_rate(millis) as int;
    assert(q == a / d);
    vstd::arithmetic::div_mod::lemma_fundamental_div_mod(a, d);
    vstd::arithmetic::div_mod::lemma_mod_pos_bound(a, d);
    assert(2 * q * millis == d * q) by (nonlinear_arith)
        requires
            d == 2 * millis,
    ;
}

/// The rate label for a frame that took `millis` milliseconds.
pub fn fps_text(millis: u64) -> (s: String)
    ensures
        s@ == fps_spec(millis as nat),
{
    let mut s = String::new();
    if millis == 0 {
        proof { reveal_strlit("inf"); }
        s.append("inf");
    } else if millis > 2000 {
        assert(frame_rate(millis as nat) == 0) by (nonlinear_arith)
            requires millis > 2000;
        push_padded2(&mut s, 0);
    } else {
        let rate: u64 = (2000 + millis) / (2 * millis);
        push_padded2(&mut s, rate);
    }
    s
}

} // verus!
