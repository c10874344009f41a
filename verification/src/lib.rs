//! The decisions of a Spin trigger for AWS Kinesis: what the trigger asks of
//! Kinesis, when it waits, which shards it follows and what it hands to the
//! component, as verified state machines and functions on plain values.
pub mod component_macro;
pub mod config;
pub mod detector;
pub mod detector_laws;
pub mod guest;
pub mod processor;
pub mod processor_laws;
pub mod record;
pub mod record_processor;
pub mod text;
pub mod trigger;
pub mod trigger_laws;
