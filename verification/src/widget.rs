//! The widget's state between frames and the decisions each frame takes:
//! when to ask for the balance, what the speech bubble shows and when it
//! goes, and what a received balance changes.
//!
//! The program around the library draws, keeps the clock and the network
//! connection, and computes with the balance amounts; it hands the library
//! what happened and carries out what the library answers.

use vstd::prelude::*;
use rand::seq::SliceRandom;
use crate::config::{Config, UsageMode};
use crate::ledger::Ledger;

verus! {

/// Where the account balance is asked for.
pub const BALANCE_URL: &'static str = "https://api.deepseek.com/user/balance";

/// The header that carries the key.
pub const AUTH_HEADER: &'static str = "Authorization";

/// The error shown when no key is set.
pub const MISSING_KEY_MESSAGE: &'static str = "❌ 请设置 API Key";

/// The bubble text before the first click.
pub const GREETING: &'static str = "你好！🐋";

/// The speech used where no speech could be picked.
pub const FALLBACK_SPEECH: &'static str = "你好！";

/// The currency shown beside the balance.
pub const CURRENCY: &'static str = "CNY";

/// How long a speech bubble stays, in seconds.
pub const BUBBLE_SECONDS: u64 = 4;

/// A time span: whole seconds and the nanoseconds beyond them.
#[derive(Clone, Copy, Debug)]
pub struct Elapsed {
    pub secs: u64,
    pub nanos: u32,
}

/// Whether the span `e` is longer than `limit` whole seconds.
pub open spec fn longer_than(e: Elapsed, limit: u64) -> bool {
    e.secs > limit || (e.secs == limit && e.nanos > 0)
}

/// Whether the span `e` is longer than `limit` whole seconds.
pub fn exceeds_seconds(e: Elapsed, limit: u64) -> (r: bool)
    ensures
        r == longer_than(e, limit),
{
    e.secs > limit || (e.secs == limit && e.nanos > 0)
}

/// A request for the account balance: the address and one header.
#[derive(Clone, Debug)]
pub struct BalanceRequest {
    pub url: String,
    pub header_name: String,
    pub header_value: String,
}

/// The request that asks for the balance with the key `key`.
pub open spec fn is_request_for(r: BalanceRequest, key: Seq<char>) -> bool {
    &&& r.url@ == BALANCE_URL@
    &&& r.header_name@ == AUTH_HEADER@
    &&& r.header_value@ == "Bearer "@ + key
}

/// The request that asks for the balance with the key `key`.
pub fn balance_request(key: &str) -> (r: BalanceRequest)
    ensures
        is_request_for(r, key@),
{
    let mut value = "Bearer ".to_owned();
    value.append(key);
    BalanceRequest { url: BALANCE_URL.to_owned(), header_name: AUTH_HEADER.to_owned(), header_value: value }
}

/// The speeches that a click may bring up.
pub open spec fn is_speech(s: Seq<char>) -> bool {
    ||| s == "你好呀！🐋"@
    ||| s == "今天也要加油！💪"@
    ||| s == "摸摸头～ ✨"@
    ||| s == "咕噜咕噜～ 🌊"@
    ||| s == "余额还够吗？💰"@
    ||| s == "深海宝藏等你发现！🗺️"@
    ||| s == "小鲸鱼永远陪着你！❤️"@
    ||| s == "今天的你也很棒！🌟"@
}

/// The speeches that a click may bring up, in their order.
pub fn speeches() -> (v: Vec<&'static str>)
    ensures
        v@ == seq![
            "你好呀！🐋",
            "今天也要加油！💪",
            "摸摸头～ ✨",
            "咕噜咕噜～ 🌊",
            "余额还够吗？💰",
            "深海宝藏等你发现！🗺️",
            "小鲸鱼永远陪着你！❤️",
            "今天的你也很棒！🌟",
        ],
{
    vec![
        "你好呀！🐋",
        "今天也要加油！💪",
        "摸摸头～ ✨",
        "咕噜咕噜～ 🌊",
        "余额还够吗？💰",
        "深海宝藏等你发现！🗺️",
        "小鲸鱼永远陪着你！❤️",
        "今天的你也很棒！🌟",
    ]
}

/// The speech shown for the draw `drawn`: the speech drawn, or the
/// fallback speech where nothing was drawn.
pub fn speech_from_draw(drawn: Option<&'static str>) -> (s: &'static str)
    ensures
        s@ == match drawn {
            Some(d) => d@,
            None => FALLBACK_SPEECH@,
        },
{
    match drawn {
        Some(d) => d,
        None => FALLBACK_SPEECH,
    }
}

/// The JSON field of the answer that holds the total balance.
pub const BALANCE_FIELD: &'static str = "totalBalance";

/// The bit pattern of the number that serde_json finds under `key` at the
/// top of the JSON text `body`, or `None` where `body` is no JSON, its top
/// has no such field, or the field is no number.
pub uninterp spec fn spec_json_top_number_bits(body: Seq<u8>, key: Seq<char>) -> Option<u64>;

/// Calls `serde_json::from_slice` on `body` into a `Value`, then `get` with
/// `key` and `as_f64`, and gives the number's bit pattern; `None` where
/// any step finds nothing. The result is named by
/// `spec_json_top_number_bits`.
#[verifier::external_body]
fn json_top_number_bits(body: &[u8], key: &str) -> (r: Option<u64>)
    ensures
        r == spec_json_top_number_bits(body@, key@),
{
    serde_json::from_slice::<serde_json::Value>(body)
        .ok()
        .and_then(|v| v.get(key).and_then(|n| n.as_f64()))
        .map(|x| x.to_bits())
}

/// The balance, as a bit pattern, that the answer `body` to a balance
/// request holds in its top-level total-balance field, if any.
pub fn balance_from_answer(body: &[u8]) -> (r: Option<u64>)
    ensures
        r == spec_json_top_number_bits(body@, BALANCE_FIELD@),
{
    json_top_number_bits(body, BALANCE_FIELD)
}

/// Calls `rand::seq::SliceRandom::choose` on `options` with the thread's
/// random generator: `None` exactly for no options, else one of them.
/// Which one depends on chance: nothing more is stated.
#[verifier::external_body]
fn choose_speech(options: &[&'static str]) -> (r: Option<&'static str>)
    ensures
        r is Some <==> options@.len() > 0,
        r matches Some(s) ==> options@.contains(s),
{
    options.choose(&mut rand::thread_rng()).copied()
}

/// The widget's state, but for the clock, the network and the amounts.
#[derive(Debug)]
pub struct WidgetState {
    pub config: Config,
    pub ledger: Ledger,
    pub currency: String,
    pub show_menu: bool,
    pub show_bubble: bool,
    pub bubble_text: String,
    pub last_error: Option<String>,
    pub is_loading: bool,
}

/// `b` is `a` but for the fields that asking for the balance sets:
/// whether a request is in flight and the error shown.
pub open spec fn same_but_fetch(a: WidgetState, b: WidgetState) -> bool {
    &&& b.config == a.config
    &&& b.ledger == a.ledger
    &&& b.currency == a.currency
    &&& b.show_menu == a.show_menu
    &&& b.show_bubble == a.show_bubble
    &&& b.bubble_text == a.bubble_text
}

/// Asking for the balance from state `a` leads to state `b` and gives `r`:
/// with no key, the error says so and nothing is asked; while a request is
/// in flight, nothing changes and nothing is asked; else a request with the
/// key goes out and is in flight.
pub open spec fn fetched(a: WidgetState, b: WidgetState, r: Option<BalanceRequest>) -> bool {
    &&& same_but_fetch(a, b)
    &&& if a.config.api_key@.len() == 0 {
        &&& r is None
        &&& b.last_error matches Some(e) && e@ == MISSING_KEY_MESSAGE@
        &&& b.is_loading == a.is_loading
    } else if a.is_loading {
        &&& r is None
        &&& b.last_error == a.last_error
        &&& b.is_loading
    } else {
        &&& r matches Some(req) && is_request_for(req, a.config.api_key@)
        &&& b.last_error == a.last_error
        &&& b.is_loading
    }
}

/// The state `a` with the settings menu opened or closed.
pub open spec fn menu_toggled(a: WidgetState) -> WidgetState {
    WidgetState { show_menu: !a.show_menu, ..a }
}

/// What one frame's clock check gives: whether the refresh interval had
/// passed, and the request to send, if any.
#[derive(Debug)]
pub struct RefreshStep {
    pub due: bool,
    pub request: Option<BalanceRequest>,
}

impl WidgetState {
    /// The state at start-up with the settings `config` and the ledger
    /// `ledger`: no menu, no bubble (its text the greeting), no error,
    /// nothing in flight.
    pub fn new(config: Config, ledger: Ledger) -> (w: WidgetState)
        ensures
            w.config == config,
            w.ledger == ledger,
            w.currency@ == CURRENCY@,
            !w.show_menu,
            !w.show_bubble,
            w.bubble_text@ == GREETING@,
            w.last_error is None,
            !w.is_loading,
    {
        WidgetState {
            config,
            ledger,
            currency: CURRENCY.to_owned(),
            show_menu: false,
            show_bubble: false,
            bubble_text: GREETING.to_owned(),
            last_error: None,
            is_loading: false,
        }
    }

    /// Asks for the balance, unless no key is set or a request is already
    /// in flight; gives the request to send.
    pub fn fetch_balance(&mut self) -> (r: Option<BalanceRequest>)
        ensures
            fetched(*old(self), *final(self), r),
    {
        if self.config.api_key.as_str().is_empty() {
            self.last_error = Some(MISSING_KEY_MESSAGE.to_owned());
            return None;
        }
        if self.is_loading {
            return None;
        }
        self.is_loading = true;
        Some(balance_request(self.config.api_key.as_str()))
    }

    /// Takes a received balance: nothing is in flight any more and no error
    /// is shown. Gives whether the ledger is to be brought up to date, which
    /// it is in ledger mode.
    pub fn balance_received(&mut self) -> (update_ledger: bool)
        ensures
            update_ledger == (old(self).config.usage_mode == UsageMode::Ledger),
            same_but_fetch(*old(self), *final(self)),
            !final(self).is_loading,
            final(self).last_error is None,
    {
        self.is_loading = false;
        self.last_error = None;
        self.config.usage_mode == UsageMode::Ledger
    }

    /// Takes a request that ended without a balance (it failed, or its
    /// answer held none): nothing is in flight any more, so the next click
    /// or refresh asks again. Nothing else changes.
    pub fn request_failed(&mut self)
        ensures
            *final(self) == (WidgetState { is_loading: false, ..*old(self) }),
    {
        self.is_loading = false;
    }

    /// Shows the speech bubble with `text`.
    pub fn show_bubble(&mut self, text: &str)
        ensures
            final(self).show_bubble,
            final(self).bubble_text@ == text@,
            final(self).config == old(self).config,
            final(self).ledger == old(self).ledger,
            final(self).currency == old(self).currency,
            final(self).show_menu == old(self).show_menu,
            final(self).last_error == old(self).last_error,
            final(self).is_loading == old(self).is_loading,
    {
        self.bubble_text = text.to_owned();
        self.show_bubble = true;
    }

    /// Picks one of the speeches at random.
    pub fn random_speech(&mut self) -> (s: &'static str)
        ensures
            is_speech(s@),
            *final(self) == *old(self),
    {
        let options = speeches();
        let drawn = choose_speech(options.as_slice());
        speech_from_draw(drawn)
    }

    /// A click on the widget once `speech` has been drawn: the bubble shows
    /// that speech and the balance is asked for.
    pub fn click_with_speech(&mut self, speech: &str) -> (r: Option<BalanceRequest>)
        ensures
            final(self).show_bubble,
            final(self).bubble_text@ == speech@,
            fetched(
                WidgetState {
                    show_bubble: true,
                    bubble_text: final(self).bubble_text,
                    ..*old(self)
                },
                *final(self),
                r,
            ),
    {
        self.show_bubble(speech);
        self.fetch_balance()
    }

    /// Hides the speech bubble once it has been shown for longer than the
    /// bubble's time; `shown_for` is how long ago it was shown, if ever.
    pub fn expire_bubble(&mut self, shown_for: Option<Elapsed>)
        ensures
            final(self).show_bubble == (old(self).show_bubble && !(shown_for matches Some(e)
                && longer_than(e, BUBBLE_SECONDS))),
            final(self).config == old(self).config,
            final(self).ledger == old(self).ledger,
            final(self).currency == old(self).currency,
            final(self).show_menu == old(self).show_menu,
            final(self).bubble_text == old(self).bubble_text,
            final(self).last_error == old(self).last_error,
            final(self).is_loading == old(self).is_loading,
    {
        if self.show_bubble {
            if let Some(e) = shown_for {
                if exceeds_seconds(e, BUBBLE_SECONDS) {
                    self.show_bubble = false;
                }
            }
        }
    }

    /// Whether the refresh interval has passed `since_refresh` after the
    /// last refresh.
    pub fn refresh_due(&self, since_refresh: Elapsed) -> (due: bool)
        ensures
            due == longer_than(since_refresh, self.config.auto_refresh_seconds),
    {
        exceeds_seconds(since_refresh, self.config.auto_refresh_seconds)
    }

    /// A frame's clock check: where the refresh interval has passed since
    /// the last refresh, asks for the balance. The caller counts the
    /// interval anew whenever the step is due.
    pub fn refresh_step(&mut self, since_refresh: Elapsed) -> (step: RefreshStep)
        ensures
            step.due == longer_than(since_refresh, old(self).config.auto_refresh_seconds),
            step.due ==> fetched(*old(self), *final(self), step.request),
            !step.due ==> step.request is None && *final(self) == *old(self),
    {
        if self.refresh_due(since_refresh) {
            let request = self.fetch_balance();
            RefreshStep { due: true, request }
        } else {
            RefreshStep { due: false, request: None }
        }
    }

    /// A click on the widget: a random speech shows in the bubble and the
    /// balance is asked for.
    pub fn on_click(&mut self) -> (r: Option<BalanceRequest>)
        ensures
            final(self).show_bubble,
            is_speech(final(self).bubble_text@),
            fetched(
                WidgetState {
                    show_bubble: true,
                    bubble_text: final(self).bubble_text,
                    ..*old(self)
                },
                *final(self),
                r,
            ),
    {
        let speech = self.random_speech();
        self.click_with_speech(speech)
    }

    /// A secondary click: the settings menu opens or closes.
    pub fn toggle_menu(&mut self)
        ensures
            *final(self) == menu_toggled(*old(self)),
    {
        self.show_menu = !self.show_menu;
    }

    /// Chooses how spending is followed.
    pub fn set_usage_mode(&mut self, mode: UsageMode)
        ensures
            final(self).config == (Config { usage_mode: mode, ..old(self).config }),
            final(self).ledger == old(self).ledger,
            final(self).currency == old(self).currency,
            final(self).show_menu == old(self).show_menu,
            final(self).show_bubble == old(self).show_bubble,
            final(self).bubble_text == old(self).bubble_text,
            final(self).last_error == old(self).last_error,
            final(self).is_loading == old(self).is_loading,
    {
        self.config.usage_mode = mode;
    }
}

/// At most one request is in flight: asking twice with no balance
/// received in between sends at most one request.
pub proof fn law_one_request_in_flight(
    a: WidgetState,
    b: WidgetState,
    c: WidgetState,
    r1: Option<BalanceRequest>,
    r2: Option<BalanceRequest>,
)
    requires
        fetched(a, b, r1),
        fetched(b, c, r2),
    ensures
        !(r1 is Some && r2 is Some),
{
}

/// With a key set, a received balance frees the widget to ask again: the
/// next request goes out.
pub proof fn law_received_balance_allows_next_request(
    a: WidgetState,
    b: WidgetState,
    r: Option<BalanceRequest>,
)
    requires
        a.config.api_key@.len() > 0,
        !a.is_loading,
        fetched(a, b, r),
    ensures
        r matches Some(req) && is_request_for(req, a.config.api_key@),
{
}

/// A failed request does not stop the widget: with a key set, the next
/// attempt after the failure sends a request.
pub proof fn law_failed_request_allows_retry(
    a: WidgetState,
    b: WidgetState,
    r: Option<BalanceRequest>,
)
    requires
        a.config.api_key@.len() > 0,
        fetched(WidgetState { is_loading: false, ..a }, b, r),
    ensures
        r matches Some(req) && is_request_for(req, a.config.api_key@),
{
}

/// Without a key nothing is ever asked for.
pub proof fn law_no_key_no_request(a: WidgetState, b: WidgetState, r: Option<BalanceRequest>)
    requires
        a.config.api_key@.len() == 0,
        fetched(a, b, r),
    ensures
        r is None,
        b.last_error is Some,
{
}

/// Opening and closing the menu gives back the state it started from.
pub proof fn law_menu_toggle_twice(a: WidgetState)
    ensures
        menu_toggled(menu_toggled(a)) == a,
{
}

/// The bubble never goes before its time: a span no longer than the
/// bubble's time leaves a shown bubble shown.
pub proof fn law_bubble_stays_its_time(e: Elapsed)
    requires
        e.secs < BUBBLE_SECONDS || (e.secs == BUBBLE_SECONDS && e.nanos == 0),
    ensures
        !longer_than(e, BUBBLE_SECONDS),
{
}

/// Span order: a span of whole seconds and nanoseconds (fewer than a
/// second's worth) is longer than `limit` seconds exactly when its length
/// in nanoseconds exceeds `limit` seconds' worth, whatever the limit.
pub proof fn law_longer_than_is_span_order(e: Elapsed, limit: u64)
    requires
        e.nanos < 1_000_000_000,
    ensures
        longer_than(e, limit) <==> e.secs * 1_000_000_000int + e.nanos > limit * 1_000_000_000int,
{
}

/// The speeches' texts, in their order.
pub open spec fn speech_texts() -> Seq<Seq<char>> {
    seq![
        "你好呀！🐋"@,
        "今天也要加油！💪"@,
        "摸摸头～ ✨"@,
        "咕噜咕噜～ 🌊"@,
        "余额还够吗？💰"@,
        "深海宝藏等你发现！🗺️"@,
        "小鲸鱼永远陪着你！❤️"@,
        "今天的你也很棒！🌟"@,
    ]
}

/// A click brings up one of eight different speeches, never the fallback,
/// and every one of them is what some draw over the speech list shows.
pub proof fn law_eight_distinct_speeches()
    ensures
        speech_texts().len() == 8,
        forall|i: int, j: int|
            0 <= i < j < 8 ==> #[trigger] speech_texts()[i] != #[trigger] speech_texts()[j],
        forall|s: Seq<char>| is_speech(s) <==> speech_texts().contains(s),
        !is_speech(FALLBACK_SPEECH@),
{
    reveal_strlit("你好呀！🐋");
    reveal_strlit("今天也要加油！💪");
    reveal_strlit("摸摸头～ ✨");
    reveal_strlit("咕噜咕噜～ 🌊");
    reveal_strlit("余额还够吗？💰");
    reveal_strlit("深海宝藏等你发现！🗺️");
    reveal_strlit("小鲸鱼永远陪着你！❤️");
    reveal_strlit("今天的你也很棒！🌟");
    reveal_strlit("你好！");
    let t = speech_texts();
    assert forall|s: Seq<char>| is_speech(s) <==> t.contains(s) by {
        if is_speech(s) {
            if s == t[0] { assert(t.contains(s)); }
            else if s == t[1] { assert(t[1] == s); }
            else if s == t[2] { assert(t[2] == s); }
            else if s == t[3] { assert(t[3] == s); }
            else if s == t[4] { assert(t[4] == s); }
            else if s == t[5] { assert(t[5] == s); }
            else if s == t[6] { assert(t[6] == s); }
            else { assert(t[7] == s); }
        }
    }
    assert forall|i: int, j: int| 0 <= i < j < 8 implies #[trigger] t[i] != #[trigger] t[j] by {
        assert(t[i][0] != t[j][0] || t[i][2] != t[j][2]);
    }
    assert(FALLBACK_SPEECH@.len() == 3);
    assert(!is_speech(FALLBACK_SPEECH@));
}

} // verus!
