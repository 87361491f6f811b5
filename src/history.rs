//! Historical candles: the request, its builder, and the decoding of candles.
use vstd::prelude::*;
use vstd::string::StringExecFns;
use crate::json::{f64_bits_of, field, i64_of, read_f64_bits, read_i64, read_u64, required, u64_of, JsonValue};
use crate::datetime::days_from_civil;
use crate::wire::{decimal, decimal_text};

verus! {

/// Candle timeframe used when requesting historical market data.
#[derive(Debug, Clone, Copy, PartialEq, Eq, Hash, Structural)]
pub enum CandleResolution {
    /// Daily candles, `D`.
    Day,
    /// 5-second candles, `5S`.
    Seconds5,
    /// 10-second candles, `10S`.
    Seconds10,
    /// 15-second candles, `15S`.
    Seconds15,
    /// 30-second candles, `30S`.
    Seconds30,
    /// 45-second candles, `45S`.
    Seconds45,
    /// 1-minute candles, `1`.
    Minute1,
    /// 2-minute candles, `2`.
    Minute2,
    /// 3-minute candles, `3`.
    Minute3,
    /// 5-minute candles, `5` (the most common).
    Minute5,
    /// 10-minute candles, `10`.
    Minute10,
    /// 15-minute candles, `15`.
    Minute15,
    /// 20-minute candles, `20`.
    Minute20,
    /// 30-minute candles, `30`.
    Minute30,
    /// 60-minute candles, `60`.
    Minute60,
    /// 120-minute candles, `120`.
    Minute120,
    /// 240-minute candles, `240`.
    Minute240,
}

/// The token that stands for a resolution on the wire.
pub open spec fn resolution_text(r: CandleResolution) -> Seq<char> {
    match r {
        CandleResolution::Day => "D"@,
        CandleResolution::Seconds5 => "5S"@,
        CandleResolution::Seconds10 => "10S"@,
        CandleResolution::Seconds15 => "15S"@,
        CandleResolution::Seconds30 => "30S"@,
        CandleResolution::Seconds45 => "45S"@,
        CandleResolution::Minute1 => "1"@,
        CandleResolution::Minute2 => "2"@,
        CandleResolution::Minute3 => "3"@,
        CandleResolution::Minute5 => "5"@,
        CandleResolution::Minute10 => "10"@,
        CandleResolution::Minute15 => "15"@,
        CandleResolution::Minute20 => "20"@,
        CandleResolution::Minute30 => "30"@,
        CandleResolution::Minute60 => "60"@,
        CandleResolution::Minute120 => "120"@,
        CandleResolution::Minute240 => "240"@,
    }
}

impl CandleResolution {
    /// The token sent for this resolution.
    pub fn as_str(&self) -> (r: &'static str)
        ensures
            r@ == resolution_text(*self),
    {
        match self {
            CandleResolution::Day => "D",
            CandleResolution::Seconds5 => "5S",
            CandleResolution::Seconds10 => "10S",
            CandleResolution::Seconds15 => "15S",
            CandleResolution::Seconds30 => "30S",
            CandleResolution::Seconds45 => "45S",
            CandleResolution::Minute1 => "1",
            CandleResolution::Minute2 => "2",
            CandleResolution::Minute3 => "3",
            CandleResolution::Minute5 => "5",
            CandleResolution::Minute10 => "10",
            CandleResolution::Minute15 => "15",
            CandleResolution::Minute20 => "20",
            CandleResolution::Minute30 => "30",
            CandleResolution::Minute60 => "60",
            CandleResolution::Minute120 => "120",
            CandleResolution::Minute240 => "240",
        }
    }
}

/// Builder of a [`HistoryRequest`].
///
/// Instants are Unix timestamps in seconds, UTC.
#[derive(Debug, Clone)]
pub struct HistoryBuilder {
    pub symbol: String,
    pub resolution: CandleResolution,
    pub from: i64,
    pub to: i64,
    pub include_oi: bool,
}

/// The request sent to the history endpoint, as query parameters.
#[derive(Debug, Clone)]
pub struct HistoryRequest {
    pub symbol: String,
    pub resolution: CandleResolution,
    pub range_from: String,
    pub range_to: String,
    pub include_oi: bool,
}

/// The query parameters of a history request: the range in Unix seconds,
/// the date-format discriminator fixed to `0`, the continuation flag fixed to
/// `1`, and the open-interest flag `1` only when open interest is asked for.
pub open spec fn history_query(
    symbol: Seq<char>,
    resolution: CandleResolution,
    range_from: Seq<char>,
    range_to: Seq<char>,
    include_oi: bool,
) -> Seq<(Seq<char>, Seq<char>)> {
    let fixed = seq![
        ("symbol"@, symbol),
        ("resolution"@, resolution_text(resolution)),
        ("date_format"@, "0"@),
        ("range_from"@, range_from),
        ("range_to"@, range_to),
        ("cont_flag"@, "1"@),
    ];
    if include_oi {
        fixed.push(("oi_flag"@, "1"@))
    } else {
        fixed
    }
}

/// The query parameters that the request built from `b` carries.
pub open spec fn builder_query(b: HistoryBuilder) -> Seq<(Seq<char>, Seq<char>)> {
    history_query(b.symbol@, b.resolution, decimal(b.from as int), decimal(b.to as int), b.include_oi)
}

/// The names and values of query parameters.
pub open spec fn pairs_view(pairs: Seq<(String, String)>) -> Seq<(Seq<char>, Seq<char>)> {
    pairs.map_values(|p: (String, String)| (p.0@, p.1@))
}

/// Whether some parameter is named `key`.
pub open spec fn has_param(pairs: Seq<(Seq<char>, Seq<char>)>, key: Seq<char>) -> bool {
    exists|i: int| 0 <= i < pairs.len() && #[trigger] pairs[i].0 == key
}

fn pair(key: &str, value: String) -> (r: (String, String))
    ensures
        r.0@ == key@,
        r.1@ == value@,
{
    (String::from_str(key), value)
}

impl HistoryBuilder {
    /// Creates a builder for five-minute candles without open interest.
    pub fn new(symbol: &str, from: i64, to: i64) -> (r: HistoryBuilder)
        ensures
            r.symbol@ == symbol@,
            r.from == from,
            r.to == to,
            r.resolution == CandleResolution::Minute5,
            !r.include_oi,
    {
        HistoryBuilder { symbol: String::from_str(symbol), resolution: CandleResolution::Minute5, from, to, include_oi: false }
    }

    /// Sets the candle resolution.
    pub fn resolution(self, resolution: CandleResolution) -> (r: HistoryBuilder)
        ensures
            r == (HistoryBuilder { resolution, ..self }),
    {
        HistoryBuilder { resolution, ..self }
    }

    /// Asks for open interest, which only futures and options have.
    pub fn include_oi(self, enabled: bool) -> (r: HistoryBuilder)
        ensures
            r == (HistoryBuilder { include_oi: enabled, ..self }),
    {
        HistoryBuilder { include_oi: enabled, ..self }
    }

    /// Returns the configured request.
    pub fn build(self) -> (r: HistoryRequest)
        ensures
            r.query() == builder_query(self),
    {
        HistoryRequest {
            symbol: self.symbol,
            resolution: self.resolution,
            range_from: decimal_text(self.from),
            range_to: decimal_text(self.to),
            include_oi: self.include_oi,
        }
    }
}

impl HistoryRequest {
    /// Creates a [`HistoryBuilder`]; the same as [`HistoryBuilder::new`].
    pub fn builder(symbol: &str, from: i64, to: i64) -> (r: HistoryBuilder)
        ensures
            r.symbol@ == symbol@,
            r.from == from,
            r.to == to,
            r.resolution == CandleResolution::Minute5,
            !r.include_oi,
    {
        HistoryBuilder::new(symbol, from, to)
    }

    /// The query parameters that this request carries.
    pub open spec fn query(&self) -> Seq<(Seq<char>, Seq<char>)> {
        history_query(self.symbol@, self.resolution, self.range_from@, self.range_to@, self.include_oi)
    }

    /// The query parameters of the request, in order.
    pub fn query_pairs(&self) -> (r: Vec<(String, String)>)
        ensures
            pairs_view(r@) == self.query(),
    {
        let mut r = vec![
            pair("symbol", self.symbol.clone()),
            pair("resolution", String::from_str(self.resolution.as_str())),
            pair("date_format", String::from_str("0")),
            pair("range_from", self.range_from.clone()),
            pair("range_to", self.range_to.clone()),
            pair("cont_flag", String::from_str("1")),
        ];
        if self.include_oi {
            r.push(pair("oi_flag", String::from_str("1")));
        }
        assert(pairs_view(r@) =~= self.query());
        r
    }
}

/// A history request built from `b` carries the open-interest parameter
/// exactly when `b` asks for open interest.
pub proof fn lemma_open_interest_param(b: HistoryBuilder)
    ensures
        has_param(builder_query(b), "oi_flag"@) <==> b.include_oi,
{
    let q = builder_query(b);
    reveal_strlit("oi_flag");
    reveal_strlit("symbol");
    reveal_strlit("resolution");
    reveal_strlit("date_format");
    reveal_strlit("range_from");
    reveal_strlit("range_to");
    reveal_strlit("cont_flag");
    if b.include_oi {
        assert(q[6].0 == "oi_flag"@);
    } else {
        assert forall|i: int| 0 <= i < q.len() implies #[trigger] q[i].0 != "oi_flag"@ by {
            assert(q[i].0.len() != 7 || q[i].0[0] != 'o');
        }
    }
}

/// Whether `secs` seconds after the Unix epoch is an instant that
/// `chrono::DateTime<Utc>` can represent: its day lies in a year from
/// -262143 to 262142.
pub open spec fn utc_representable(secs: i64) -> bool {
    days_from_civil(-262143, 1, 1) <= secs / 86400 <= days_from_civil(262142, 12, 31)
}

/// Relies on `chrono::DateTime::from_timestamp(secs, 0)`, which returns
/// `None` when the day of the instant lies outside chrono's years.
#[verifier::external_body]
fn timestamp_representable(secs: i64) -> (r: bool)
    ensures
        r == utc_representable(secs),
{
    chrono::DateTime::from_timestamp(secs, 0).is_some()
}

/// The positional form of a candle on the wire:
/// `[timestamp, open, high, low, close, volume, open_interest?]`.
///
/// Prices are bit patterns of `f64` values.
#[derive(Debug, Clone, Copy, PartialEq, Eq)]
pub struct RawCandle {
    pub timestamp: i64,
    pub open: u64,
    pub high: u64,
    pub low: u64,
    pub close: u64,
    pub volume: u64,
    pub open_interest: Option<u64>,
}

/// A single OHLCV candle.
///
/// `time` is the start of the interval in Unix seconds, UTC; prices are the
/// bit patterns of `f64` values (`f64::from_bits` gives the price).
/// `open_interest` is `None` unless the request asked for it.
#[derive(Debug, Clone, Copy, PartialEq, Eq)]
pub struct Candle {
    pub time: i64,
    pub open: u64,
    pub high: u64,
    pub low: u64,
    pub close: u64,
    pub volume: u64,
    pub open_interest: Option<u64>,
}

/// The optional seventh element of a candle: absent or `null` is `None`.
pub open spec fn open_interest_of(items: Seq<JsonValue>) -> Option<Option<u64>> {
    if items.len() == 6 {
        Some(None)
    } else if items[6] is Null {
        Some(None)
    } else {
        match f64_bits_of(items[6]) {
            Some(b) => Some(Some(b)),
            None => None,
        }
    }
}

/// `v` read as a positional candle: an array of six or seven elements, of
/// an integer timestamp, four prices, an unsigned volume and, optionally,
/// an open interest.
pub open spec fn raw_candle_of(v: JsonValue) -> Option<RawCandle> {
    match v {
        JsonValue::Array(items) => {
            let items = items@;
            if 6 <= items.len() <= 7 && i64_of(items[0]) is Some && f64_bits_of(items[1]) is Some
                && f64_bits_of(items[2]) is Some && f64_bits_of(items[3]) is Some && f64_bits_of(
                items[4],
            ) is Some && u64_of(items[5]) is Some && open_interest_of(items) is Some {
                Some(
                    RawCandle {
                        timestamp: i64_of(items[0]).unwrap(),
                        open: f64_bits_of(items[1]).unwrap(),
                        high: f64_bits_of(items[2]).unwrap(),
                        low: f64_bits_of(items[3]).unwrap(),
                        close: f64_bits_of(items[4]).unwrap(),
                        volume: u64_of(items[5]).unwrap(),
                        open_interest: open_interest_of(items).unwrap(),
                    },
                )
            } else {
                None
            }
        },
        _ => None,
    }
}

/// The candle of a positional candle, whose timestamp is representable.
pub open spec fn candle_from_raw(raw: RawCandle) -> Candle {
    Candle {
        time: raw.timestamp,
        open: raw.open,
        high: raw.high,
        low: raw.low,
        close: raw.close,
        volume: raw.volume,
        open_interest: raw.open_interest,
    }
}

/// `v` read as a candle.
pub open spec fn candle_of(v: JsonValue) -> Option<Candle> {
    match raw_candle_of(v) {
        Some(raw) => if utc_representable(raw.timestamp) {
            Some(candle_from_raw(raw))
        } else {
            None
        },
        None => None,
    }
}

impl RawCandle {
    /// Reads a positional candle.
    pub fn decode(v: &JsonValue) -> (r: Result<RawCandle, serde_json::Error>)
        ensures
            match raw_candle_of(*v) {
                Some(c) => r == Ok::<RawCandle, serde_json::Error>(c),
                None => r is Err,
            },
    {
        let items = match v {
            JsonValue::Array(items) => items,
            _ => {
                return Err(crate::json::shape_error("invalid type: expected a candle array"));
            },
        };
        if items.len() < 6 || items.len() > 7 {
            return Err(crate::json::shape_error("invalid length: expected 6 or 7 elements"));
        }
        let timestamp = read_i64(&items[0])?;
        let open = read_f64_bits(&items[1])?;
        let high = read_f64_bits(&items[2])?;
        let low = read_f64_bits(&items[3])?;
        let close = read_f64_bits(&items[4])?;
        let volume = read_u64(&items[5])?;
        let open_interest = if items.len() == 6 {
            None
        } else {
            match &items[6] {
                JsonValue::Null => None,
                other => Some(read_f64_bits(other)?),
            }
        };
        Ok(RawCandle { timestamp, open, high, low, close, volume, open_interest })
    }
}

impl Candle {
    /// The candle of a positional candle, given whether its timestamp is a
    /// representable instant.
    pub fn from_raw(raw: RawCandle, representable: bool) -> (r: Result<Candle, serde_json::Error>)
        ensures
            representable ==> r == Ok::<Candle, serde_json::Error>(candle_from_raw(raw)),
            !representable ==> r is Err,
    {
        if !representable {
            return Err(crate::json::shape_error("invalid timestamp"));
        }
        Ok(
            Candle {
                time: raw.timestamp,
                open: raw.open,
                high: raw.high,
                low: raw.low,
                close: raw.close,
                volume: raw.volume,
                open_interest: raw.open_interest,
            },
        )
    }

    /// Reads a candle from its positional form.
    pub fn decode(v: &JsonValue) -> (r: Result<Candle, serde_json::Error>)
        ensures
            match candle_of(*v) {
                Some(c) => r == Ok::<Candle, serde_json::Error>(c),
                None => r is Err,
            },
    {
        let raw = RawCandle::decode(v)?;
        let representable = timestamp_representable(raw.timestamp);
        Candle::from_raw(raw, representable)
    }
}

/// The candle array of a history response.
pub open spec fn candle_array_of(v: JsonValue) -> Option<Seq<JsonValue>> {
    match field(v, "candles"@) {
        Some(JsonValue::Array(items)) => Some(items@),
        _ => None,
    }
}

/// Whether `candles` are the candles of `items`, one for one and in order.
pub open spec fn decodes_to(items: Seq<JsonValue>, candles: Seq<Candle>) -> bool {
    &&& candles.len() == items.len()
    &&& forall|i: int| 0 <= i < items.len() ==> #[trigger] candle_of(items[i]) == Some(candles[i])
}

/// Whether every element of `items` is a candle.
pub open spec fn all_candles(items: Seq<JsonValue>) -> bool {
    forall|i: int| 0 <= i < items.len() ==> #[trigger] candle_of(items[i]) is Some
}

/// Reads the candles of a history response, oldest first as the broker sends them.
pub fn decode_candles(v: &JsonValue) -> (r: Result<Vec<Candle>, serde_json::Error>)
    ensures
        match candle_array_of(*v) {
            Some(items) => if all_candles(items) {
                r is Ok && decodes_to(items, r.unwrap()@)
            } else {
                r is Err
            },
            None => r is Err,
        },
{
    let f = required(v, "candles")?;
    let items = match f {
        JsonValue::Array(items) => items,
        _ => {
            return Err(crate::json::shape_error("invalid type: expected a sequence of candles"));
        },
    };
    assert(candle_array_of(*v) == Some(items@));
    let mut out: Vec<Candle> = Vec::new();
    let mut i: usize = 0;
    while i < items.len()
        invariant
            candle_array_of(*v) == Some(items@),
            i <= items.len(),
            out@.len() == i,
            forall|j: int| 0 <= j < i ==> #[trigger] candle_of(items@[j]) == Some(out@[j]),
        decreases items.len() - i,
    {
        match Candle::decode(&items[i]) {
            Ok(c) => out.push(c),
            Err(e) => {
                assert(candle_of(items@[i as int]) is None);
                assert(!all_candles(items@));
                return Err(e);
            },
        }
        i = i + 1;
    }
    Ok(out)
}

/// The timestamp element of a positional candle.
pub open spec fn element_timestamp(v: JsonValue) -> Option<i64> {
    match raw_candle_of(v) {
        Some(raw) => Some(raw.timestamp),
        None => None,
    }
}

/// Decoding keeps the broker's candles one for one and in order: the `i`-th
/// candle carries the values of the `i`-th element, so elements in
/// chronological order give candles in chronological order.
pub proof fn lemma_candles_keep_order(items: Seq<JsonValue>, candles: Seq<Candle>)
    requires
        decodes_to(items, candles),
    ensures
        candles.len() == items.len(),
        forall|i: int|
            0 <= i < items.len() ==> candle_from_raw(raw_candle_of(items[i]).unwrap()) == #[trigger] candles[i],
        forall|i: int, j: int|
            0 <= i < j < items.len() && element_timestamp(items[i]).unwrap() < element_timestamp(
                items[j],
            ).unwrap() ==> #[trigger] candles[i].time < #[trigger] candles[j].time,
{
    assert forall|i: int| 0 <= i < items.len() implies candle_from_raw(
        raw_candle_of(items[i]).unwrap(),
    ) == #[trigger] candles[i] by {
        assert(candle_of(items[i]) == Some(candles[i]));
    }
    assert forall|i: int, j: int|
        0 <= i < j < items.len() && element_timestamp(items[i]).unwrap() < element_timestamp(
            items[j],
        ).unwrap() implies #[trigger] candles[i].time < #[trigger] candles[j].time by {
        assert(candle_of(items[i]) == Some(candles[i]));
        assert(candle_of(items[j]) == Some(candles[j]));
    }
}

/// A positional candle of fewer than six elements is refused, and one of
/// exactly six has no open interest.
pub proof fn lemma_candle_arity(v: JsonValue)
    requires
        v is Array,
    ensures
        v->Array_0@.len() < 6 ==> candle_of(v) is None,
        v->Array_0@.len() == 6 && candle_of(v) is Some ==> candle_of(v).unwrap().open_interest is None,
{
}

} // verus!
