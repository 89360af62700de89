//! Plain-value model of the eRPC Rust binding: which calls into the eRPC C
//! interface each operation makes, with which arguments, and which objects
//! a drop destroys.
use vstd::prelude::*;

pub mod context;
pub mod cstr;
pub mod ffi;
pub mod msgbuffs;
pub mod nexus;
pub mod reqhandle;
pub mod rpc;
pub mod teardown;

verus! {

} // verus!
