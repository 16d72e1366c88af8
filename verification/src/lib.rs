//! A payroll ledger: employees with a pay classification, a payment schedule,
//! a payment method and a union affiliation, driven by transactions that are
//! built directly or read from a script.
//!
//! Money, hours and rates are exact fixed-point quantities, dates are day
//! numbers of the proleptic Gregorian calendar, and every function carries a
//! contract over these models.
//!
//! - [`amount`], [`calendar`]: the quantities and dates that all else is made of.
//! - [`payroll_domain`], [`classification`], [`schedule`], [`method`],
//!   [`affiliation`]: the employee and the four capabilities.
//! - [`dao`], [`mock_db`]: what the transactions ask of a store, and a store
//!   in memory.
//! - [`abstract_tx`], [`tx_impl`]: the templates and the transactions.
//! - [`tx_app`], [`mock_tx_impl`], [`tx_factory_impl`], [`mock_app`]:
//!   transactions as values, and the driver that runs them.
//! - [`parser`], [`text_parser_tx_source`], [`text`]: the script language.
//! - [`semantics`], [`laws`]: what the commands do to a store, and what holds
//!   of that whatever the store holds.

pub mod abstract_tx;
pub mod affiliation;
pub mod amount;
pub mod calendar;
pub mod classification;
pub mod dao;
pub mod laws;
pub mod method;
pub mod mock_app;
pub mod mock_db;
pub mod mock_tx_impl;
pub mod parser;
pub mod payroll_domain;
pub mod schedule;
pub mod semantics;
pub mod text;
pub mod text_parser_tx_source;
pub mod tx_app;
pub mod tx_factory_impl;
pub mod tx_impl;
