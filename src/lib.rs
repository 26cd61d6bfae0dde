//! Decoder for the tag-length-value telemetry payload of an environmental sensor.

pub mod uplink;

pub use uplink::{
    bin16_to_dec, close, verify_array_length, verify_pattern_matches, DecodeError, Decoder, Layout,
    Occupancy, Uplink, UplinkError,
};
