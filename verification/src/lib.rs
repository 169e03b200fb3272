//! A runtime's own rules: proxy filters, fee splitting, transaction eras,
//! block-time constants and derived weight limits.
use vstd::prelude::*;

pub mod evm;
pub mod fees;
pub mod proxy;
pub mod time;
pub mod transaction;
pub mod upgrade;
pub mod weights;

verus! {

} // verus!
