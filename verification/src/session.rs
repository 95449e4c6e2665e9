//! The course of one enumeration, as a sequence of stages.
//!
//! A stage names the request that is pending. The driver performs it and
//! hands the answer to the function of that stage, which returns the line to
//! write, if there is one, and the stage that follows. The devices are listed
//! first; then each is named, in the order of the list. A listing that fails
//! is reported in one line and ends the enumeration. A name that cannot be
//! resolved aborts it.

use vstd::prelude::*;
use crate::devices::{collect, collected, devices_query, plan_fetch, planned, size_query};
use crate::names::{decode_name, name_fetch, name_request, named, NameError};
use crate::property::{DeviceId, FetchReply, FetchRequest, SizeQuery, SizeReply, NO_ERROR};
use crate::report::{error_line, error_text};

verus! {

/// The stage in which the name of one listed device is pending.
#[derive(Debug)]
pub struct NameStage {
    devices: Vec<DeviceId>,
    position: usize,
}

/// Where an enumeration stands.
#[derive(Debug)]
pub enum Stage {
    /// The size query for the device list is pending.
    Size(SizeQuery),
    /// The fetch of the device list is pending.
    Devices(FetchRequest),
    /// The fetch of a device name is pending.
    Name(NameStage),
    /// Nothing is pending: the enumeration is complete.
    Done,
    /// Nothing is pending: a name could not be resolved, and the enumeration
    /// was given up.
    Aborted(NameError),
}

/// What the answer to a request leads to.
#[derive(Debug)]
pub struct Step {
    /// The line to write before going on.
    pub line: Option<String>,
    /// The stage that follows.
    pub next: Stage,
}

/// `stage` is the one in which the devices from `position` on are still to be
/// named: it awaits the name of the device at `position`, or is complete
/// where the list ends there.
pub open spec fn resumes_at(stage: Stage, devices: Seq<DeviceId>, position: int) -> bool {
    if position < devices.len() {
        &&& stage matches Stage::Name(pending)
        &&& pending.devices() == devices
        &&& pending.position() == position
    } else {
        stage is Done
    }
}

/// `line` holds exactly `text`.
pub open spec fn writes(line: Option<String>, text: Seq<char>) -> bool {
    line matches Some(written) && written@ == text
}

fn resume(devices: Vec<DeviceId>, position: usize) -> (stage: Stage)
    requires
        position <= devices@.len(),
    ensures
        resumes_at(stage, devices@, position as int),
{
    if position < devices.len() {
        Stage::Name(NameStage { devices, position })
    } else {
        Stage::Done
    }
}

impl NameStage {
    #[verifier::type_invariant]
    spec fn in_range(&self) -> bool {
        self.position < self.devices@.len()
    }

    /// The devices that were listed, in the order of the list.
    pub closed spec fn devices(&self) -> Seq<DeviceId> {
        self.devices@
    }

    /// Index in the list of the device whose name is pending.
    pub closed spec fn position(&self) -> int {
        self.position as int
    }

    /// The device whose name is pending.
    pub fn device(&self) -> (device: DeviceId)
        ensures
            0 <= self.position() < self.devices().len(),
            device == self.devices()[self.position()],
    {
        proof {
            use_type_invariant(self);
        }
        self.devices[self.position]
    }

    /// The request that is pending: the fetch of that device's name.
    pub fn request(&self) -> (request: FetchRequest)
        ensures
            0 <= self.position() < self.devices().len(),
            request == name_fetch(self.devices()[self.position()]),
    {
        name_request(self.device())
    }

    /// Reads the answer to the pending fetch. A name that resolves is the
    /// line to write, and the next device of the list is named next; after
    /// the last one the enumeration is complete. A name that does not
    /// resolve aborts the enumeration, and nothing is written.
    pub fn reply(self, reply: FetchReply<u8>) -> (step: Step)
        ensures
            match named(reply) {
                Ok(name) => writes(step.line, name) && resumes_at(
                    step.next,
                    self.devices(),
                    self.position() + 1,
                ),
                Err(error) => step.line is None && step.next == Stage::Aborted(error),
            },
    {
        proof {
            use_type_invariant(&self);
        }
        let listed = self.devices.len();
        match decode_name(reply) {
            Ok(name) => {
                assert(self.position < listed);
                Step { line: Some(name), next: resume(self.devices, self.position + 1) }
            },
            Err(error) => Step { line: None, next: Stage::Aborted(error) },
        }
    }
}

/// The stage in which every enumeration begins: the size query for the device
/// list is pending.
pub fn start() -> (stage: Stage)
    ensures
        stage == Stage::Size(devices_query()),
{
    Stage::Size(size_query())
}

/// Reads the answer to the size query. On success nothing is written and the
/// fetch of the device list is pending. On failure the line that reports the
/// status is written and the enumeration is complete: no fetch follows.
pub fn after_size(reply: SizeReply) -> (step: Step)
    ensures
        match planned(reply) {
            Ok(request) => step.line is None && step.next == Stage::Devices(request),
            Err(error) => writes(step.line, error_text(error.code)) && step.next is Done,
        },
        reply.status != NO_ERROR ==> writes(step.line, error_text(reply.status))
            && step.next is Done,
{
    match plan_fetch(reply) {
        Ok(request) => Step { line: None, next: Stage::Devices(request) },
        Err(error) => Step { line: Some(error_line(error)), next: Stage::Done },
    }
}

/// Reads the answer to the fetch that `request` asked for. On success nothing
/// is written and the first device of the list is named next; an empty list
/// completes the enumeration. On failure the line that reports the status is
/// written and the enumeration is complete: no device is named.
pub fn after_devices(request: FetchRequest, reply: FetchReply<DeviceId>) -> (step: Step)
    ensures
        match collected(request.capacity, reply) {
            Ok(devices) => step.line is None && resumes_at(step.next, devices, 0),
            Err(error) => writes(step.line, error_text(error.code)) && step.next is Done,
        },
        reply.status != NO_ERROR ==> writes(step.line, error_text(reply.status))
            && step.next is Done,
        reply.status == NO_ERROR && (request.capacity == 0 || reply.data@.len() == 0)
            ==> step.line is None && step.next is Done,
{
    match collect(request, reply) {
        Ok(devices) => Step { line: None, next: resume(devices, 0) },
        Err(error) => Step { line: Some(error_line(error)), next: Stage::Done },
    }
}

} // verus!
