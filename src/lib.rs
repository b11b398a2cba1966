//! Start-up state of a simulated BGP router, built from its command-line arguments.

pub mod decimal;
pub mod router;
pub mod arg_list_router;
