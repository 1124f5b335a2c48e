#![allow(non_camel_case_types)]
//! Host-call boundary of a sandboxed smart-contract engine: bounds-checked
//! access to the sandbox's linear memory, gas pricing and charging, import
//! resolution, the host calls themselves and the invocation lifecycle.
pub mod memory;
pub mod gas;
pub mod fault;
pub mod context;
pub mod dispatch;
pub mod resolver;
pub mod invoke;
