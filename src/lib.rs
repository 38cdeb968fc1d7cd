//! A configurable HTTP request/response pipeline: a declarative description
//! of a call becomes a transport request (headers, encoded body, deadline),
//! and the transport's answer becomes a uniform envelope (status, headers,
//! decoded body, error). The transport itself stays outside: the library
//! decides, its caller performs.
use vstd::prelude::*;

pub mod body;
pub mod call;
pub mod decode;
pub mod error;
pub mod headers;
pub mod json;
pub mod kind;
pub mod profile;
pub mod state;
pub mod text;

verus! {

} // verus!
