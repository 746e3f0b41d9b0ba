//! A plucked-string instrument core: the voice lifecycle that the audio
//! callback runs (pending triggers, a capped set of live voices, expiry in
//! samples) and the serial protocol of the MCP3004/MCP3008 converters that
//! sensor triggers are read from.

pub mod detector;
pub mod engine;
pub mod mcp3004;
pub mod mcp3008;
pub mod pending;
pub mod protocol;
pub mod voice;
