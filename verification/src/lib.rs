//! A verified core for a do-not-disturb bandwidth toggle.
//!
//! The library decides everything a small HTTP service needs in order to
//! flip a named client group's rate-limit policy on a remote network
//! controller between two configured presets, and to report the group's
//! current state by comparing its live rate to those presets.  The remote
//! calls themselves (login, group listing, group update) are performed by
//! an unverified driver; the library hands it the next action to take and
//! interprets every event it reports back.

pub mod error;
pub mod models;
pub mod toggle;
pub mod u_client;
