//! Tokenx's verified core: the decisions behind its token-usage terminal
//! interface and command line.
//!
//! Text fitting by terminal cells, cache acceptance, key decoding, date
//! ranges, table windowing, achievement ranking, the presentation choices
//! of Subscription diagnostics and the checks of the locale catalogs live
//! here with their contracts. Terminal, file and network I/O, JSON encoding
//! and the locale lookups themselves stay outside.

use vstd::prelude::*;

pub mod achievements;
pub mod catalog;
pub mod cli;
pub mod date_display;
pub mod dates;
pub mod display_labels;
pub mod helpers;
pub mod hourly;
pub mod intent;
pub mod issue;
pub mod message;
pub mod order;
pub mod portraits;
pub mod pricing;
pub mod pricing_cache;
pub mod startup;
pub mod strings;
pub mod subscription_cache;
pub mod subscription_display;
pub mod subscription_panel;
pub mod text;

verus! {
}
