//! A property-keyed bridge between a host process and a transaction
//! execution engine: the host sets inputs by identifier, installs callbacks
//! that serve storage reads, runs the engine and reads the outputs back.
pub mod executor;
pub mod gateway;
pub mod host;
pub mod property;
pub mod records;
