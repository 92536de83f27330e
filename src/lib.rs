//! Native side of a desktop editor for a guitar amplifier: the MIDI bridge
//! (endpoint listing, single-slot connections, inbound relay, outbound
//! sending), the hex wire format it speaks, and the small path and
//! directory-listing rules of the host commands.

pub mod codec;
pub mod error;
pub mod host;
pub mod midi;
pub mod window;
