//! Bridging engine of a gateway between a local publish/subscribe transport
//! and a SOME/IP network, with end-to-end protection per event.

pub mod adapter;
pub mod buffer;
pub mod codec;
pub mod e2e;
pub mod egress;
pub mod gateway;
pub mod ingress;
pub mod interface;
pub mod mapping;
pub mod profile;
pub mod rain;
pub mod service;
pub mod tunnel;
pub mod windows;
