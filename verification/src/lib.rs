//! A minimal kernel-style greeter: one entry point that hands a fixed,
//! NUL-terminated greeting line to the host's logging sink and reports
//! success, together with the fail-stop fault handler such a freestanding
//! component must supply.

pub mod fault;
pub mod greeter;
