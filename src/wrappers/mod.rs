pub mod chrono;
