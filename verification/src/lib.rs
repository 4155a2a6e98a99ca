//! layad: a local HTTP daemon that keeps one Laya decision model resident.
//!
//! * [`config`] and [`environment`]: the command line, the validated configuration, and what
//!   the worker process is given.
//! * [`frame`], [`reply`], [`session`], [`protocol`]: the line protocol of the resident
//!   worker, one worker lifetime as a state machine, and what holds of it.
//! * [`worker`], [`supervisor`]: what is known of the worker, admission of requests, startup
//!   and the orderly end.
//! * [`api`], [`predict`]: HTTP answers, request validation and the projection of replies.
//! * [`daemon`]: exit codes and the fail-fast policy.
//! * [`json`], [`codec`], [`text`], [`time`]: values that the others work on.
//!
//! The service is deliberately unauthenticated: it refuses to bind anywhere but loopback, so
//! only local callers can reach it.

use vstd::prelude::*;

pub mod api;
pub mod codec;
pub mod config;
pub mod daemon;
pub mod environment;
pub mod frame;
pub mod json;
pub mod predict;
pub mod protocol;
pub mod reply;
pub mod session;
pub mod supervisor;
pub mod text;
pub mod time;
pub mod worker;

use crate::text::join2;

verus! {

/// Exit code used when the daemon fails closed and wants a supervisor to restart it.
pub const FAIL_FAST_EXIT_CODE: i32 = 70;

/// Line the daemon logs once it is bound; scripts and tests read the port from it.
pub fn listening_line(addr: &str) -> (res: String)
    ensures
        res@ == "layad listening on http://"@ + addr@,
{
    join2("layad listening on http://", addr)
}

} // verus!
