//! Board-construction and interrupt-dispatch core of an embedded, heap-free,
//! single-address-space kernel, modelled over plain values so that every rule
//! can be stated and proved.
//!
//! The crate has two halves:
//!
//! * construction: single-use [`storage::Slot`]s feed one-shot component
//!   builders ([`components`]) that wire drivers, bus multiplexers
//!   ([`mux::Mux`]) and per-process grant regions ([`grant::Kernel`]) into a
//!   registry whose entries, once written, never move or change identity;
//! * runtime: a cooperative dispatch loop ([`chip::Stm32f4xx`],
//!   [`dispatch`]) that drains software-deferred tasks before any pending
//!   hardware vector, services each exactly once per pass, and halts with a
//!   diagnostic on a vector nobody mapped.
//!
//! The CAN controller model ([`can`]) is the concrete driver surface both
//! halves meet: construction programs its registers and clock, the loop
//! dispatches into its interrupt handlers.

pub mod can;
pub mod chip;
pub mod components;
pub mod dispatch;
pub mod grant;
pub mod mux;
pub mod storage;
