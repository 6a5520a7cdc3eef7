use whale_widget::calendar::{cutoff_for_day, parse_ledger_date, retention_cutoff, today_text, LocalDay};
use whale_widget::ledger::{Ledger, UsageRecord};

fn rec(date: &str, amount: f64) -> UsageRecord {
    UsageRecord { date: date.to_string(), amount_bits: amount.to_bits() }
}

fn day(text: &str) -> i64 {
    parse_ledger_date(text).unwrap() as i64
}

#[test]
fn parse_known_dates() {
    assert_eq!(parse_ledger_date("0001-01-01"), Some(1));
    assert_eq!(parse_ledger_date("1970-01-01"), Some(719_163));
    assert_eq!(day("2024-03-01") - day("2024-02-28"), 2);
}

#[test]
fn parse_refuses_other_forms() {
    assert_eq!(parse_ledger_date("2024/03/01"), None);
    assert_eq!(parse_ledger_date("2015-09-31"), None);
    assert_eq!(parse_ledger_date(""), None);
}

#[test]
fn today_reads_back_and_cutoff_is_a_month_before() {
    let today = today_text();
    assert_eq!(today.len(), 10);
    let days = parse_ledger_date(&today).unwrap() as i64;
    let cutoff = retention_cutoff();
    assert!(days - cutoff == 30 || days - cutoff == 29);
}

#[test]
fn find_day_gives_first_match() {
    let l = Ledger::from_records(vec![rec("2024-01-01", 1.0), rec("2024-01-02", 2.0), rec("2024-01-02", 3.0)]);
    assert_eq!(l.find_day(&"2024-01-02".to_string()), Some(1));
    assert_eq!(l.find_day(&"2024-01-03".to_string()), None);
    assert_eq!(l.amount_on(&"2024-01-02".to_string()).map(f64::from_bits), Some(2.0));
}

#[test]
fn set_day_amount_appends_new_day() {
    let mut l = Ledger::new();
    l.set_day_amount("2024-05-01".to_string(), 1.25f64.to_bits());
    assert_eq!(l.records().len(), 1);
    assert_eq!(l.records()[0].date, "2024-05-01");
    assert_eq!(f64::from_bits(l.records()[0].amount_bits), 1.25);
}

#[test]
fn set_day_amount_updates_existing_day_in_place() {
    let mut l = Ledger::from_records(vec![rec("2024-05-01", 1.0), rec("2024-05-02", 2.0)]);
    l.set_day_amount("2024-05-01".to_string(), 4.5f64.to_bits());
    assert_eq!(l.records().len(), 2);
    assert_eq!(l.records()[0].date, "2024-05-01");
    assert_eq!(f64::from_bits(l.records()[0].amount_bits), 4.5);
    assert_eq!(f64::from_bits(l.records()[1].amount_bits), 2.0);
}

#[test]
fn recorded_amount_reads_back() {
    let mut l = Ledger::from_records(vec![rec("2024-05-01", 1.0)]);
    let today = "2024-05-02".to_string();
    let got = l.record_usage(today.clone(), 0.75f64.to_bits(), day("2024-04-02"));
    assert_eq!(f64::from_bits(got), 0.75);
    assert_eq!(l.amount_on(&today).map(f64::from_bits), Some(0.75));
    assert_eq!(l.amount_on(&"2024-05-01".to_string()).map(f64::from_bits), Some(1.0));
}

#[test]
fn prune_drops_old_and_unreadable_dates() {
    let mut l = Ledger::from_records(vec![
        rec("2024-03-01", 1.0),
        rec("not a date", 2.0),
        rec("2024-04-01", 3.0),
        rec("2024-04-02", 4.0),
    ]);
    l.prune(day("2024-04-01"));
    let dates: Vec<&str> = l.records().iter().map(|r| r.date.as_str()).collect();
    assert_eq!(dates, vec!["2024-04-01", "2024-04-02"]);
}

#[test]
fn prune_twice_is_prune_at_later_cutoff() {
    let records = vec![rec("2024-03-01", 1.0), rec("2024-03-15", 2.0), rec("2024-04-01", 3.0)];
    let mut a = Ledger::from_records(records.clone());
    a.prune(day("2024-03-10"));
    a.prune(day("2024-03-20"));
    let mut b = Ledger::from_records(records);
    b.prune(day("2024-03-20"));
    assert_eq!(a.records().len(), 1);
    assert_eq!(a.records()[0].date, b.records()[0].date);
    let before = a.records().len();
    a.prune(day("2024-03-20"));
    assert_eq!(a.records().len(), before);
}

#[test]
fn record_usage_prunes_records_older_than_cutoff() {
    let mut l = Ledger::from_records(vec![rec("2024-01-01", 9.0), rec("2024-05-01", 1.0)]);
    l.record_usage("2024-05-02".to_string(), 2.0f64.to_bits(), day("2024-04-02"));
    let dates: Vec<&str> = l.records().iter().map(|r| r.date.as_str()).collect();
    assert_eq!(dates, vec!["2024-05-01", "2024-05-02"]);
}

#[test]
fn record_usage_outside_retention_still_reports_amount() {
    let mut l = Ledger::new();
    let got = l.record_usage("2020-01-01".to_string(), 5.0f64.to_bits(), day("2024-04-02"));
    assert_eq!(f64::from_bits(got), 5.0);
    assert_eq!(l.records().len(), 0);
}

#[test]
fn record_usage_today_keeps_today() {
    let mut l = Ledger::from_records(vec![rec("2000-01-01", 9.0)]);
    let today = LocalDay::now();
    let got = l.record_usage_today(&today, 3.0f64.to_bits());
    assert_eq!(f64::from_bits(got), 3.0);
    assert_eq!(l.amount_on(today.text()).map(f64::from_bits), Some(3.0));
    assert_eq!(l.records().len(), 1);
    let got = l.record_usage_today(&today, 4.0f64.to_bits());
    assert_eq!(f64::from_bits(got), 4.0);
    assert_eq!(l.records().len(), 1);
}

#[test]
fn local_day_reads_back() {
    let today = LocalDay::now();
    let days = parse_ledger_date(today.text()).unwrap();
    assert_eq!(today.cutoff(), days as i64 - 30);
}

#[test]
fn cutoff_is_thirty_days_before() {
    assert_eq!(cutoff_for_day(day("2024-05-31") as i32), day("2024-05-01"));
    assert_eq!(cutoff_for_day(0), -30);
}

#[test]
fn load_without_file_is_empty() {
    assert_eq!(Ledger::load(None).records().len(), 0);
    assert_eq!(Ledger::load(Some(vec![rec("2024-01-01", 1.0)])).records().len(), 1);
}

#[test]
fn distinct_dates_after_repeated_recording() {
    let mut l = Ledger::new();
    l.set_day_amount("2024-05-01".to_string(), 1.0f64.to_bits());
    l.set_day_amount("2024-05-01".to_string(), 2.0f64.to_bits());
    l.set_day_amount("2024-05-02".to_string(), 3.0f64.to_bits());
    assert_eq!(l.records().len(), 2);
}
