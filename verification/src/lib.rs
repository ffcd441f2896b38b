use vstd::prelude::*;

pub mod text;
pub mod adapters;
pub mod wmi;
pub mod discovering;
pub mod firewall;
pub mod session;
pub mod config;
pub mod prepare;
pub mod cli;

verus! {
} // verus!
