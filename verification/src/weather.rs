use vstd::prelude::*;

verus! {

/// The four kinds of weather the screen has an icon for.
#[derive(Clone, Copy, Debug, PartialEq, Eq, Structural, PartialOrd, Ord, Hash)]
pub enum WeatherCondition {
    Clear,
    Rain,
    Snow,
    Thunderstorm,
}

/// How a WMO weather code, as the forecast service reports it, is classified:
/// codes 45 to 66 are rain (fog and drizzle included), 71 to 85 snow,
/// 95 to 98 thunderstorm, and every other code is clear weather.
pub open spec fn condition_of_code(code: u8) -> WeatherCondition {
    if 45 <= code < 67 {
        WeatherCondition::Rain
    } else if 71 <= code < 86 {
        WeatherCondition::Snow
    } else if 95 <= code < 99 {
        WeatherCondition::Thunderstorm
    } else {
        WeatherCondition::Clear
    }
}

/// How many of the codes below `n` are classified as `k`.
pub open spec fn codes_below(k: WeatherCondition, n: nat) -> nat
    decreases n,
{
    if n == 0 {
        0
    } else {
        codes_below(k, (n - 1) as nat) + if condition_of_code((n - 1) as u8) == k { 1nat } else { 0nat }
    }
}

/// Over a run of codes that all are, or all are not, classified as `k`, the
/// count grows by the run's length, or not at all.
proof fn lemma_count_run(k: WeatherCondition, a: nat, b: nat, inside: bool)
    requires
        a <= b <= 256,
        forall|c: int| a <= c < b ==> (#[trigger] condition_of_code(c as u8) == k) == inside,
    ensures
        codes_below(k, b) == codes_below(k, a) + if inside { (b - a) as nat } else { 0nat },
    decreases b - a,
{
    if b > a {
        lemma_count_run(k, a, (b - 1) as nat, inside);
        assert((condition_of_code((b - 1) as u8) == k) == inside);
    }
}

/// Of the 256 codes, 22 are rain (45 to 66), 15 snow (71 to 85), 4
/// thunderstorm (95 to 98) and the other 215 clear weather.
pub proof fn lemma_code_counts()
    ensures
        codes_below(WeatherCondition::Rain, 256) == 22,
        codes_below(WeatherCondition::Snow, 256) == 15,
        codes_below(WeatherCondition::Thunderstorm, 256) == 4,
        codes_below(WeatherCondition::Clear, 256) == 215,
{
    let r = WeatherCondition::Rain;
    lemma_count_run(r, 0, 45, false);
    lemma_count_run(r, 45, 67, true);
    lemma_count_run(r, 67, 256, false);
    let s = WeatherCondition::Snow;
    lemma_count_run(s, 0, 71, false);
    lemma_count_run(s, 71, 86, true);
    lemma_count_run(s, 86, 256, false);
    let t = WeatherCondition::Thunderstorm;
    lemma_count_run(t, 0, 95, false);
    lemma_count_run(t, 95, 99, true);
    lemma_count_run(t, 99, 256, false);
    let c = WeatherCondition::Clear;
    lemma_count_run(c, 0, 45, true);
    lemma_count_run(c, 45, 67, false);
    lemma_count_run(c, 67, 71, true);
    lemma_count_run(c, 71, 86, false);
    lemma_count_run(c, 86, 95, true);
    lemma_count_run(c, 95, 99, false);
    lemma_count_run(c, 99, 256, true);
}

impl WeatherCondition {
    /// Classifies a WMO weather code.
    pub fn from_code(code: u8) -> (c: WeatherCondition)
        ensures
            c == condition_of_code(code),
    {
        if 45 <= code && code < 67 {
            WeatherCondition::Rain
        } else if 71 <= code && code < 86 {
            WeatherCondition::Snow
        } else if 95 <= code && code < 99 {
            WeatherCondition::Thunderstorm
        } else {
            WeatherCondition::Clear
        }
    }
}

impl From<u8> for WeatherCondition {
    fn from(value: u8) -> (c: WeatherCondition) {
        WeatherCondition::from_code(value)
    }
}

impl vstd::std_specs::convert::FromSpecImpl<u8> for WeatherCondition {
    open spec fn obeys_from_spec() -> bool {
        true
    }

    open spec fn from_spec(v: u8) -> WeatherCondition {
        condition_of_code(v)
    }
}

} // verus!
