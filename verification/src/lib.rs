//! Controller for a four-way signalised junction with a pedestrian crossing.
pub mod clock;
pub mod console;
pub mod direction;
pub mod error;
pub mod fault;
pub mod installation;
pub mod pedestrian;
pub mod signal;
pub mod time;
pub mod junction;
