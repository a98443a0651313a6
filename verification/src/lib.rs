//! Liturgical calendars of the Roman rite: date rules, rank models of three editions,
//! and the day-by-day builder of a liturgical year.

pub mod calender;
pub mod csv_utils;
pub mod date;
pub mod date_calc;
pub mod date_rule;
pub mod date_rule_roundtrip;
pub mod date_rule_text;
pub mod day_type;
pub mod feast_rank;
pub mod feast_rule;
pub mod fuzzy_search;
pub mod generic_calendar;
pub mod liturgical_unit;
pub mod season_rule;
pub mod text;
pub mod web;
pub mod year_calendar;
pub mod year_calendar_builder;
