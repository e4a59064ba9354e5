//! Request handling of a Secure VM Service Module (SVSM).
//!
//! An SVSM runs at the most privileged VM privilege level (VMPL) of a
//! confidential guest and serves the calls that the guest makes from VMPL1.
//! Serving a call alternates between decisions and work that only the platform
//! can do: changing page permissions, mapping guest memory, reading a register
//! image. This crate holds the decisions. Each handler is a
//! [`machine::Machine`]: it names the next platform action, takes the reply to
//! it and moves on, until it knows how the call is answered.

pub mod addr;
pub mod create_vcpu;
pub mod delete_vcpu;
pub mod guest_page;
pub mod machine;
pub mod platform;
pub mod protocol;
pub mod pvalidate;
pub mod pvalidate_request;
pub mod remap_ca;
pub mod request_loop;
pub mod vmpl_access;
pub mod vmsa_list;
