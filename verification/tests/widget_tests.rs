use whale_widget::config::{Config, UsageMode};
use whale_widget::ledger::Ledger;
use whale_widget::widget::{
    balance_from_answer, exceeds_seconds, speech_from_draw, speeches, Elapsed, WidgetState, BALANCE_URL,
    BUBBLE_SECONDS,
};

const SPEECHES: [&str; 8] = [
    "你好呀！🐋",
    "今天也要加油！💪",
    "摸摸头～ ✨",
    "咕噜咕噜～ 🌊",
    "余额还够吗？💰",
    "深海宝藏等你发现！🗺️",
    "小鲸鱼永远陪着你！❤️",
    "今天的你也很棒！🌟",
];

fn state_with_key(key: &str) -> WidgetState {
    let mut c = Config::default();
    c.api_key = key.to_string();
    WidgetState::new(c, Ledger::new())
}

#[test]
fn initial_state() {
    let s = state_with_key("");
    assert!(!s.show_menu);
    assert!(!s.show_bubble);
    assert_eq!(s.bubble_text, "你好！🐋");
    assert_eq!(s.currency, "CNY");
    assert!(s.last_error.is_none());
    assert!(!s.is_loading);
}

#[test]
fn fetch_without_key_reports_error() {
    let mut s = state_with_key("");
    assert!(s.fetch_balance().is_none());
    assert_eq!(s.last_error.as_deref(), Some("❌ 请设置 API Key"));
    assert!(!s.is_loading);
}

#[test]
fn fetch_with_key_builds_request() {
    let mut s = state_with_key("sk-abc");
    let r = s.fetch_balance().unwrap();
    assert_eq!(r.url, BALANCE_URL);
    assert_eq!(r.url, "https://api.deepseek.com/user/balance");
    assert_eq!(r.header_name, "Authorization");
    assert_eq!(r.header_value, "Bearer sk-abc");
    assert!(s.is_loading);
}

#[test]
fn only_one_request_in_flight() {
    let mut s = state_with_key("sk-abc");
    assert!(s.fetch_balance().is_some());
    assert!(s.fetch_balance().is_none());
    assert!(s.is_loading);
    assert!(s.balance_received());
    assert!(!s.is_loading);
    assert!(s.fetch_balance().is_some());
}

#[test]
fn balance_received_clears_error_and_reports_mode() {
    let mut s = state_with_key("");
    s.fetch_balance();
    assert!(s.last_error.is_some());
    s.set_usage_mode(UsageMode::Realtime);
    assert!(!s.balance_received());
    assert!(s.last_error.is_none());
    assert_eq!(s.config.usage_mode, UsageMode::Realtime);
}

#[test]
fn speech_is_one_of_the_list() {
    let mut s = state_with_key("");
    for _ in 0..50 {
        assert!(SPEECHES.contains(&s.random_speech()));
    }
}

#[test]
fn click_shows_speech_and_fetches() {
    let mut s = state_with_key("sk-abc");
    let r = s.on_click();
    assert!(r.is_some());
    assert!(s.show_bubble);
    assert!(SPEECHES.contains(&s.bubble_text.as_str()));
    assert!(s.is_loading);
}

#[test]
fn click_without_key_shows_speech_and_error() {
    let mut s = state_with_key("");
    assert!(s.on_click().is_none());
    assert!(s.show_bubble);
    assert!(s.last_error.is_some());
}

#[test]
fn bubble_stays_four_seconds() {
    let mut s = state_with_key("");
    s.show_bubble("hi");
    assert_eq!(s.bubble_text, "hi");
    s.expire_bubble(Some(Elapsed { secs: BUBBLE_SECONDS, nanos: 0 }));
    assert!(s.show_bubble);
    s.expire_bubble(None);
    assert!(s.show_bubble);
    s.expire_bubble(Some(Elapsed { secs: 4, nanos: 1 }));
    assert!(!s.show_bubble);
}

#[test]
fn elapsed_comparison() {
    assert!(!exceeds_seconds(Elapsed { secs: 59, nanos: 999_999_999 }, 60));
    assert!(!exceeds_seconds(Elapsed { secs: 60, nanos: 0 }, 60));
    assert!(exceeds_seconds(Elapsed { secs: 60, nanos: 1 }, 60));
    assert!(exceeds_seconds(Elapsed { secs: 61, nanos: 0 }, 60));
}

#[test]
fn refresh_step_follows_interval() {
    let mut s = state_with_key("sk-abc");
    let step = s.refresh_step(Elapsed { secs: 30, nanos: 0 });
    assert!(!step.due);
    assert!(step.request.is_none());
    assert!(!s.is_loading);
    let step = s.refresh_step(Elapsed { secs: 61, nanos: 0 });
    assert!(step.due);
    assert!(step.request.is_some());
    let step = s.refresh_step(Elapsed { secs: 61, nanos: 0 });
    assert!(step.due);
    assert!(step.request.is_none());
}

#[test]
fn menu_toggles_back() {
    let mut s = state_with_key("");
    s.toggle_menu();
    assert!(s.show_menu);
    s.toggle_menu();
    assert!(!s.show_menu);
}

#[test]
fn failed_request_allows_retry() {
    let mut s = state_with_key("sk-abc");
    assert!(s.fetch_balance().is_some());
    assert!(s.on_click().is_none());
    s.request_failed();
    assert!(!s.is_loading);
    assert!(s.on_click().is_some());
}

#[test]
fn speech_list_is_the_eight() {
    assert_eq!(speeches(), SPEECHES.to_vec());
}

#[test]
fn drawn_speech_or_fallback() {
    assert_eq!(speech_from_draw(Some("摸摸头～ ✨")), "摸摸头～ ✨");
    assert_eq!(speech_from_draw(None), "你好！");
}

#[test]
fn click_shows_the_given_speech() {
    let mut s = state_with_key("sk-abc");
    let r = s.click_with_speech("余额还够吗？💰");
    assert_eq!(s.bubble_text, "余额还够吗？💰");
    assert!(s.show_bubble);
    assert_eq!(r.unwrap().header_value, "Bearer sk-abc");
}

#[test]
fn balance_read_from_answer() {
    let body = br#"{"totalBalance": 12.5, "currency": "CNY"}"#;
    assert_eq!(balance_from_answer(body).map(f64::from_bits), Some(12.5));
    assert_eq!(balance_from_answer(br#"{"totalBalance": 3}"#).map(f64::from_bits), Some(3.0));
}

#[test]
fn balance_missing_or_not_a_number() {
    assert_eq!(balance_from_answer(br#"{"is_available": true}"#), None);
    assert_eq!(balance_from_answer(br#"{"totalBalance": "12.5"}"#), None);
    assert_eq!(balance_from_answer(b"not json"), None);
    assert_eq!(balance_from_answer(br#"{"data": {"totalBalance": 1.0}}"#), None);
}
