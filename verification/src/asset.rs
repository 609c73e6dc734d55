use vstd::prelude::*;
use vstd::string::StringExecFns;

verus! {

/// Number of seconds in the 365-day span the price-history request covers.
pub const SECONDS_PER_YEAR: u64 = 31536000;

/// Starting point of the minimum fold in [`get_range`]; prices above this
/// bound never lower the reported minimum.
pub const RANGE_MIN_START: u64 = 4294967295;

/// Historical close prices of one instrument, oldest first.
///
/// Prices are fixed-point integers: a price of `217.68` in the feed's unit
/// is stored as `217680` (thousandths).  The boundary code that talks to the
/// HTTP API converts; the core never handles fractional values directly.
pub struct Prices {
    pub close: Vec<u64>,
}

/// Spec-level image of [`Prices`]: the close prices as a sequence.
pub ghost struct PricesModel {
    pub close: Seq<u64>,
}

impl View for Prices {
    type V = PricesModel;

    open spec fn view(&self) -> PricesModel {
        PricesModel { close: self.close@ }
    }
}

/// A company profile as the profile endpoint reports it, with its attached
/// price history.  Market capitalization is held in whole currency units.
pub struct CompanyInfo {
    pub name: String,
    pub ticker: String,
    pub country: String,
    pub market_capitalization: u64,
    pub exchange: String,
    pub currency: String,
    pub industry: String,
    pub prices: Prices,
}

/// Spec-level image of [`CompanyInfo`].
#[verifier::ext_equal]
pub ghost struct CompanyInfoModel {
    pub name: Seq<char>,
    pub ticker: Seq<char>,
    pub country: Seq<char>,
    pub market_capitalization: u64,
    pub exchange: Seq<char>,
    pub currency: Seq<char>,
    pub industry: Seq<char>,
    pub close: Seq<u64>,
}

impl View for CompanyInfo {
    type V = CompanyInfoModel;

    open spec fn view(&self) -> CompanyInfoModel {
        CompanyInfoModel {
            name: self.name@,
            ticker: self.ticker@,
            country: self.country@,
            market_capitalization: self.market_capitalization,
            exchange: self.exchange@,
            currency: self.currency@,
            industry: self.industry@,
            close: self.prices.close@,
        }
    }
}

impl Clone for CompanyInfo {
    fn clone(&self) -> (res: Self)
        ensures
            res@ == self@,
    {
        let res = CompanyInfo {
            name: self.name.clone(),
            ticker: self.ticker.clone(),
            country: self.country.clone(),
            market_capitalization: self.market_capitalization,
            exchange: self.exchange.clone(),
            currency: self.currency.clone(),
            industry: self.industry.clone(),
            prices: Prices { close: self.prices.close.clone() },
        };
        assert(res@ =~= self@);
        res
    }
}

/// One decoded trade from the streaming feed.
///
/// `price` is a fixed-point integer in thousandths, like [`Prices::close`];
/// `volume` uses the same convention; `time` is a unix timestamp in
/// milliseconds, as the feed sends it.
pub struct LiveData {
    pub price: u64,
    pub symbol: String,
    pub time: u64,
    pub volume: u64,
}

/// Spec-level image of [`LiveData`].
#[verifier::ext_equal]
pub ghost struct LiveDataModel {
    pub price: u64,
    pub symbol: Seq<char>,
    pub time: u64,
    pub volume: u64,
}

impl View for LiveData {
    type V = LiveDataModel;

    open spec fn view(&self) -> LiveDataModel {
        LiveDataModel {
            price: self.price,
            symbol: self.symbol@,
            time: self.time,
            volume: self.volume,
        }
    }
}

impl DeepView for LiveData {
    type V = LiveDataModel;

    open spec fn deep_view(&self) -> LiveDataModel {
        self.view()
    }
}

impl Clone for LiveData {
    fn clone(&self) -> (res: Self)
        ensures
            res@ == self@,
    {
        let res = LiveData {
            price: self.price,
            symbol: self.symbol.clone(),
            time: self.time,
            volume: self.volume,
        };
        assert(res@ =~= self@);
        res
    }
}

/// One raw message from the streaming feed: an optional batch of trades and
/// the message type the feed labels it with (a trade or a ping).
pub struct Feed {
    pub data: Option<Vec<LiveData>>,
    pub message_type: String,
}

/// Spec-level image of [`Feed`].
pub ghost struct FeedModel {
    pub data: Option<Seq<LiveDataModel>>,
    pub message_type: Seq<char>,
}

impl View for Feed {
    type V = FeedModel;

    open spec fn view(&self) -> FeedModel {
        FeedModel {
            data: match self.data {
                Some(v) => Some(v.deep_view()),
                None => None,
            },
            message_type: self.message_type@,
        }
    }
}

/// A listed security, as the symbol endpoint reports it.  Two securities are
/// the same exactly when their canonical `symbol` is the same.
pub struct Stock {
    pub currency: String,
    pub description: String,
    pub display_symbol: String,
    pub symbol: String,
    pub security_type: String,
}

/// Spec-level image of [`Stock`].
#[verifier::ext_equal]
pub ghost struct StockModel {
    pub currency: Seq<char>,
    pub description: Seq<char>,
    pub display_symbol: Seq<char>,
    pub symbol: Seq<char>,
    pub security_type: Seq<char>,
}

impl View for Stock {
    type V = StockModel;

    open spec fn view(&self) -> StockModel {
        StockModel {
            currency: self.currency@,
            description: self.description@,
            display_symbol: self.display_symbol@,
            symbol: self.symbol@,
            security_type: self.security_type@,
        }
    }
}

impl DeepView for Stock {
    type V = StockModel;

    open spec fn deep_view(&self) -> StockModel {
        self.view()
    }
}

impl Clone for Stock {
    fn clone(&self) -> (res: Self)
        ensures
            res@ == self@,
    {
        let res = Stock {
            currency: self.currency.clone(),
            description: self.description.clone(),
            display_symbol: self.display_symbol.clone(),
            symbol: self.symbol.clone(),
            security_type: self.security_type.clone(),
        };
        assert(res@ =~= self@);
        res
    }
}

impl PartialEq for Stock {
    fn eq(&self, other: &Self) -> (r: bool) {
        self.symbol == other.symbol
    }
}

impl vstd::std_specs::cmp::PartialEqSpecImpl for Stock {
    open spec fn obeys_eq_spec() -> bool {
        true
    }

    open spec fn eq_spec(&self, other: &Self) -> bool {
        self.symbol@ == other.symbol@
    }
}

/// What the feed loop keeps from one raw message: the first trade of the
/// batch, or nothing when the message carries no trade (a ping, an empty
/// batch).  A malformed or empty message is dropped, never fatal.
pub fn feed_to_update(feed: Feed) -> (r: Option<LiveData>)
    ensures
        (feed@.data matches Some(d) && d.len() > 0) ==> (r matches Some(u) && u@ == feed@.data->0[0]),
        !(feed@.data matches Some(d) && d.len() > 0) ==> r is None,
{
    match feed.data {
        Some(mut v) => {
            if v.len() > 0 {
                let first = v.remove(0);
                Some(first)
            } else {
                None
            }
        },
        None => None,
    }
}

/// The control frame sent once after the feed connection opens, asking the
/// stream for one symbol's trades.
pub fn subscribe_message(symbol: &str) -> (r: String)
    ensures
        r@ == "{\"type\":\"subscribe\",\"symbol\":\""@ + symbol@ + "\"}"@,
{
    let mut r = String::from_str("{\"type\":\"subscribe\",\"symbol\":\"");
    r.append(symbol);
    r.append("\"}");
    r
}

/// The unix-second interval the price-history request asks for: from one
/// 365-day year before `now` (clamped at the epoch) up to `now` itself.
pub fn history_range(now: u64) -> (r: (u64, u64))
    ensures
        r.1 == now,
        now >= SECONDS_PER_YEAR ==> r.0 == now - SECONDS_PER_YEAR,
        now < SECONDS_PER_YEAR ==> r.0 == 0,
{
    let from = if now >= SECONDS_PER_YEAR {
        now - SECONDS_PER_YEAR
    } else {
        0
    };
    (from, now)
}

/// The minimum of a close-price series, folded from [`RANGE_MIN_START`].
pub open spec fn min_close(s: Seq<u64>) -> u64
    decreases s.len(),
{
    if s.len() == 0 {
        RANGE_MIN_START
    } else {
        let rest = min_close(s.drop_last());
        if s.last() < rest {
            s.last()
        } else {
            rest
        }
    }
}

/// The maximum of a close-price series, folded from zero.
pub open spec fn max_close(s: Seq<u64>) -> u64
    decreases s.len(),
{
    if s.len() == 0 {
        0u64
    } else {
        let rest = max_close(s.drop_last());
        if s.last() > rest {
            s.last()
        } else {
            rest
        }
    }
}

/// The bounds of the chart's price axis: the smallest and largest close
/// price of the series, folded from the fixed starting bounds.
pub fn get_range(prices: &Vec<u64>) -> (r: (u64, u64))
    ensures
        r.0 == min_close(prices@),
        r.1 == max_close(prices@),
{
    let mut min: u64 = RANGE_MIN_START;
    let mut max: u64 = 0;
    let mut i: usize = 0;
    while i < prices.len()
        invariant
            i <= prices@.len(),
            min == min_close(prices@.take(i as int)),
            max == max_close(prices@.take(i as int)),
        decreases prices@.len() - i,
    {
        let p = prices[i];
        assert(prices@.take(i as int + 1).drop_last() == prices@.take(i as int));
        if p > max {
            max = p;
        }
        if p < min {
            min = p;
        }
        i = i + 1;
    }
    assert(prices@.take(prices@.len() as int) == prices@);
    (min, max)
}

} // verus!
