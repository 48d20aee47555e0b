//! A verified model of the Intel PRO/1000 (e1000) network driver logic:
//! register layout, MAC/PHY/NVM programming sequences, descriptor ring
//! bookkeeping, plus the identifier-interpolation token rewriter.
#![allow(non_snake_case, non_camel_case_types, non_upper_case_globals)]

pub mod consts;
pub mod regs;
pub mod hw;
pub mod platform;
pub mod iflib;
pub mod rings;
pub mod adapter;
pub mod mac;
pub mod interp;
pub mod phy;
pub mod nvm;
pub mod link;
pub mod e8254x;
pub mod ops;
pub mod units;
pub mod stats;
pub mod txrx;
pub mod lifecycle;
pub mod attach;
pub mod headers;
