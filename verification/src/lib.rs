//! A desktop balance widget's logic: where its files live, its settings,
//! the daily usage ledger and the state machine behind the widget's frames.

pub mod paths;
pub mod config;
pub mod calendar;
pub mod ledger;
pub mod widget;
