//! The vocabulary shared with the audio layer: objects, property addresses,
//! the two kinds of request and their answers.

use vstd::prelude::*;

verus! {

/// The status code with which the audio layer reports success.
pub const NO_ERROR: i32 = 0;

/// Handle that the audio layer assigns to an attached device. It has no
/// structure of its own: every `u32` is a well-formed identifier.
pub type DeviceId = u32;

/// Which property of an object is meant.
#[derive(Clone, Copy, Debug, PartialEq, Eq, Structural)]
pub enum Selector {
    /// The list of devices known to the audio system.
    Devices,
    /// The display name of one device.
    DeviceName,
}

/// The part of an object that a property belongs to.
#[derive(Clone, Copy, Debug, PartialEq, Eq, Structural)]
pub enum Scope {
    /// The object as a whole.
    Global,
}

/// The element of a scope that a property belongs to.
#[derive(Clone, Copy, Debug, PartialEq, Eq, Structural)]
pub enum Element {
    /// The master element.
    Master,
}

/// Address of one property: selector, scope and element.
#[derive(Clone, Copy, Debug, PartialEq, Eq, Structural)]
pub struct PropertyAddress {
    pub selector: Selector,
    pub scope: Scope,
    pub element: Element,
}

/// The object that a request is directed at.
#[derive(Clone, Copy, Debug, PartialEq, Eq, Structural)]
pub enum AudioObject {
    /// The singleton that stands for the audio system as a whole.
    System,
    /// One device, by its identifier.
    Device(DeviceId),
}

/// Request for the number of bytes that a property holds.
#[derive(Clone, Copy, Debug, PartialEq, Eq, Structural)]
pub struct SizeQuery {
    pub object: AudioObject,
    pub address: PropertyAddress,
}

/// Request for the data of a property.
#[derive(Clone, Copy, Debug, PartialEq, Eq, Structural)]
pub struct FetchRequest {
    pub object: AudioObject,
    pub address: PropertyAddress,
    /// Number of elements that the receiving buffer is allocated for.
    pub capacity: u32,
    /// Size in bytes that is declared to the audio layer for that buffer.
    pub declared_size: u32,
}

/// Answer to a [`SizeQuery`].
#[derive(Clone, Copy, Debug, PartialEq, Eq, Structural)]
pub struct SizeReply {
    pub status: i32,
    /// Bytes that the property holds; meaningful only on success.
    pub size: u32,
}

/// Answer to a [`FetchRequest`]: the status, the size that the audio layer
/// reports on return, and the receiving buffer as it stands after the call.
#[derive(Debug, PartialEq, Eq)]
pub struct FetchReply<T> {
    pub status: i32,
    pub size: u32,
    pub data: Vec<T>,
}

/// The one kind of error: a status code other than [`NO_ERROR`] that the audio
/// layer returned.
#[derive(Clone, Copy, Debug, PartialEq, Eq, Structural)]
pub struct OsStatusError {
    pub code: i32,
}

/// The address of a property of the object as a whole.
pub open spec fn global_address(selector: Selector) -> PropertyAddress {
    PropertyAddress { selector, scope: Scope::Global, element: Element::Master }
}

/// Builds the address of `selector` in the global scope, master element.
pub fn global(selector: Selector) -> (address: PropertyAddress)
    ensures
        address == global_address(selector),
{
    PropertyAddress { selector, scope: Scope::Global, element: Element::Master }
}

/// What a status code means: nothing on success, the code as an error
/// otherwise.
pub open spec fn status_error(status: i32) -> Option<OsStatusError> {
    if status == NO_ERROR {
        None
    } else {
        Some(OsStatusError { code: status })
    }
}

/// Turns a status code into a `Result`: `Ok` exactly for [`NO_ERROR`].
pub fn check_status(status: i32) -> (r: Result<(), OsStatusError>)
    ensures
        match r {
            Ok(_) => status_error(status) is None,
            Err(e) => status_error(status) == Some(e),
        },
{
    if status == NO_ERROR {
        Ok(())
    } else {
        Err(OsStatusError { code: status })
    }
}

} // verus!
