//! Enumeration of the audio devices that an operating system's audio layer
//! exposes, written so that every decision is verified and no call to the
//! audio layer is made from here.
//!
//! The audio layer answers two primitive questions: how many bytes a property
//! of an object holds, and what those bytes are. Listing the devices takes both
//! (ask for the size, then fetch into a buffer of that size); naming one device
//! takes a single fetch into a buffer of fixed capacity. A driver outside this
//! library performs the calls; the library says which call comes next and what
//! each answer means.

pub mod devices;
pub mod names;
pub mod property;
pub mod report;
pub mod session;
