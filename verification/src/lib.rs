//! lbsync reads the balance of a Bausparvertrag from the portal of the LBS and
//! writes it to InfluxDB or CouchDB.
//!
//! This crate is the part of the tool that decides and computes; it sends
//! nothing and prints nothing. A program around it posts the login, sends the
//! write, and prints what the crate tells it to print.
//!
//! - `config` settles the options of a run.
//! - `portal` says where and how to log in.
//! - `balance` reads the amount and the currency out of the page.
//! - `record` holds one reading and keeps it complete.
//! - `writer` lays a record out for either database and judges the answer.
//! - `run` joins the steps in the order in which a run takes them.
//! - `text` has the words and numerals that the others are stated in.
//!
//! The functions carry contracts that Verus proves. Four calls leave the crate
//! and are taken on trust, each behind a small function of its own: the
//! selection of the cells by `scraper`, the clock of `chrono`, the string
//! literals of `serde_json` and the identifiers of `uuid`. What `String::push`
//! does is taken on trust as well.

pub mod balance;
pub mod config;
pub mod portal;
pub mod record;
pub mod run;
pub mod text;
pub mod writer;
