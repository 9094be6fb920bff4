//! Keyboard-over-network proxy: wire protocol, routing policy and receiver decisions.

use vstd::prelude::*;

pub mod burst;
pub mod display;
pub mod inject;
pub mod keys;
pub mod listener;
pub mod overlay;
pub mod proto;
pub mod receiver;
pub mod router;
pub mod sender;
pub mod target;
pub mod telem;
pub mod text;

verus! {
} // verus!
