//! What holds of the library as a whole.

pub mod connect_calls;
pub mod connecting;
pub mod handles;
pub mod listener_calls;
pub mod listening;
pub mod messages;
pub mod random_ports;
pub mod requests;
pub mod runs;
pub mod transfer_calls;
pub mod transferring;
pub mod turns;
pub mod values;
