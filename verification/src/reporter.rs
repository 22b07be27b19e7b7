//! The query sequence of a report, as a state machine.
//!
//! A [`Reporter`] never talks to a driver. It says which request it waits
//! for, takes the answer, and says what follows: the next request, a
//! finished block to emit, or the end of the run. Whoever owns the driver
//! performs the requests, one at a time and in the order asked.

use crate::device::{
    block_text, device_name, name_text, render_block, DeviceProperties, NAME_CAPACITY,
};
use vstd::prelude::*;

verus! {

/// The status with which a driver refuses a call.
#[derive(Clone, Copy, Debug, PartialEq, Eq, Structural)]
pub struct DriverError {
    /// The driver's own code for the failure.
    pub code: u32,
}

/// The attributes that a reporter asks for by name.
#[derive(Clone, Copy, Debug, PartialEq, Eq, Structural)]
pub enum Attribute {
    /// The number of threads in a warp.
    WarpSize,
}

/// A call to the driver.
#[derive(Clone, Copy, Debug, PartialEq, Eq, Structural)]
pub enum Query {
    /// How many devices there are.
    DeviceCount,
    /// The property record of a device.
    Properties { device: i32 },
    /// The name of a device, written to a buffer of
    /// [`NAME_CAPACITY`](crate::device::NAME_CAPACITY) bytes.
    Name { device: i32 },
    /// The total memory of a device, in bytes.
    TotalMemory { device: i32 },
    /// One named attribute of a device.
    Attribute { device: i32, attribute: Attribute },
}

/// What a reporter waits for.
#[derive(Clone, Copy, Debug, PartialEq, Eq, Structural)]
pub enum Request {
    /// A context of the compute runtime, to be held until the run ends.
    Context,
    /// The answer to a call to the driver.
    Query(Query),
}

/// Why a run ended early. Every failure is fatal.
#[derive(Clone, Copy, Debug, PartialEq, Eq, Structural)]
pub enum ReportError {
    /// The runtime did not hand out a context.
    AcquisitionFailure { error: DriverError },
    /// A call to the driver failed. `query` names the call and, where the
    /// call is about a device, the device.
    DriverCallFailure { query: Query, error: DriverError },
}

/// What came of a request.
#[derive(Clone, Copy, Debug, PartialEq, Eq)]
pub enum Answer {
    /// The context was acquired.
    Context,
    /// The number of devices.
    DeviceCount(i32),
    /// The property record of the device asked about.
    Properties(DeviceProperties),
    /// The name buffer of the device asked about, as the driver left it.
    Name([u8; NAME_CAPACITY]),
    /// The total memory of the device asked about, in bytes.
    TotalMemory(u64),
    /// The value of the attribute asked about.
    Attribute(i32),
    /// The request failed.
    Failure(DriverError),
}

/// Where a run stands: what it waits for, and what it has gathered of the
/// device at hand.
#[derive(Clone, Copy, Debug, PartialEq, Eq)]
pub enum Reporter {
    /// Nothing was asked yet; the context comes first.
    AwaitContext,
    /// The context is there; the number of devices is asked next.
    AwaitCount,
    /// Waits for the property record of `device`.
    AwaitProperties { count: i32, device: i32 },
    /// Waits for the name of `device`.
    AwaitName { count: i32, device: i32, properties: DeviceProperties },
    /// Waits for the total memory of `device`.
    AwaitTotalMemory {
        count: i32,
        device: i32,
        properties: DeviceProperties,
        name: [u8; NAME_CAPACITY],
    },
    /// Waits for the warp size of `device`, the last thing its block needs.
    AwaitWarpSize {
        count: i32,
        device: i32,
        properties: DeviceProperties,
        name: [u8; NAME_CAPACITY],
        total_memory: u64,
    },
    /// Every device was reported.
    Finished,
    /// The run was given up.
    Failed(ReportError),
}

/// The characters of a block, where one was emitted.
pub open spec fn emitted_text(block: Option<String>) -> Option<Seq<char>> {
    match block {
        Some(text) => Some(text@),
        None => None,
    }
}

/// The state that turns to the first of `count` devices, or ends the run
/// where there is none.
pub open spec fn first_device(count: i32) -> Reporter {
    if count > 0 {
        Reporter::AwaitProperties { count, device: 0 }
    } else {
        Reporter::Finished
    }
}

/// The state that turns to the device after `device`, or ends the run where
/// `device` was the last.
pub open spec fn next_device(count: i32, device: i32) -> Reporter {
    if device + 1 < count {
        Reporter::AwaitProperties { count, device: (device + 1) as i32 }
    } else {
        Reporter::Finished
    }
}

/// The end of a run at a query that failed.
pub open spec fn failed_at(query: Query, error: DriverError) -> Reporter {
    Reporter::Failed(ReportError::DriverCallFailure { query, error })
}

impl Reporter {
    /// What this state waits for; nothing once the run has ended.
    pub open spec fn awaits(self) -> Option<Request> {
        match self {
            Reporter::AwaitContext => Some(Request::Context),
            Reporter::AwaitCount => Some(Request::Query(Query::DeviceCount)),
            Reporter::AwaitProperties { device, .. } => Some(
                Request::Query(Query::Properties { device }),
            ),
            Reporter::AwaitName { device, .. } => Some(Request::Query(Query::Name { device })),
            Reporter::AwaitTotalMemory { device, .. } => Some(
                Request::Query(Query::TotalMemory { device }),
            ),
            Reporter::AwaitWarpSize { device, .. } => Some(
                Request::Query(Query::Attribute { device, attribute: Attribute::WarpSize }),
            ),
            Reporter::Finished => None,
            Reporter::Failed(_) => None,
        }
    }

    /// How the run ended, once it has.
    pub open spec fn ended(self) -> Option<Result<(), ReportError>> {
        match self {
            Reporter::Finished => Some(Ok(())),
            Reporter::Failed(error) => Some(Err(error)),
            _ => None,
        }
    }

    /// The state that follows this one on `answer`.
    ///
    /// An answer that fits the awaited request moves the run on: to the next
    /// query about the device at hand, and from its last query to the next
    /// device, or to the end after the last device. A failure ends the run,
    /// with the query that failed. Any other answer is no answer to what was
    /// asked and changes nothing, and a run that has ended stays as it is.
    pub open spec fn after(self, answer: Answer) -> Reporter {
        match (self, answer) {
            (Reporter::AwaitContext, Answer::Context) => Reporter::AwaitCount,
            (Reporter::AwaitContext, Answer::Failure(error)) => Reporter::Failed(
                ReportError::AcquisitionFailure { error },
            ),
            (Reporter::AwaitCount, Answer::DeviceCount(count)) => first_device(count),
            (Reporter::AwaitCount, Answer::Failure(error)) => failed_at(Query::DeviceCount, error),
            (
                Reporter::AwaitProperties { count, device },
                Answer::Properties(properties),
            ) => Reporter::AwaitName { count, device, properties },
            (Reporter::AwaitProperties { device, .. }, Answer::Failure(error)) => failed_at(
                Query::Properties { device },
                error,
            ),
            (
                Reporter::AwaitName { count, device, properties },
                Answer::Name(name),
            ) => Reporter::AwaitTotalMemory { count, device, properties, name },
            (Reporter::AwaitName { device, .. }, Answer::Failure(error)) => failed_at(
                Query::Name { device },
                error,
            ),
            (
                Reporter::AwaitTotalMemory { count, device, properties, name },
                Answer::TotalMemory(total_memory),
            ) => Reporter::AwaitWarpSize { count, device, properties, name, total_memory },
            (Reporter::AwaitTotalMemory { device, .. }, Answer::Failure(error)) => failed_at(
                Query::TotalMemory { device },
                error,
            ),
            (Reporter::AwaitWarpSize { count, device, .. }, Answer::Attribute(_)) => next_device(
                count,
                device,
            ),
            (Reporter::AwaitWarpSize { device, .. }, Answer::Failure(error)) => failed_at(
                Query::Attribute { device, attribute: Attribute::WarpSize },
                error,
            ),
            _ => self,
        }
    }

    /// The block that this state emits on `answer`: that of the device at
    /// hand, on the answer that completes it, and none on any other.
    pub open spec fn emits(self, answer: Answer) -> Option<Seq<char>> {
        match (self, answer) {
            (
                Reporter::AwaitWarpSize { device, properties, name, total_memory, .. },
                Answer::Attribute(warp_size),
            ) => Some(
                block_text(
                    device as int,
                    name_text(name@),
                    total_memory as int,
                    properties,
                    warp_size as int,
                ),
            ),
            _ => None,
        }
    }

    /// A run at its start: it waits for the context.
    pub fn new() -> (reporter: Reporter)
        ensures
            reporter == Reporter::AwaitContext,
    {
        Reporter::AwaitContext
    }

    /// The request to perform next, or `None` once the run has ended.
    pub fn request(&self) -> (request: Option<Request>)
        ensures
            request == self.awaits(),
    {
        match self {
            Reporter::AwaitContext => Some(Request::Context),
            Reporter::AwaitCount => Some(Request::Query(Query::DeviceCount)),
            Reporter::AwaitProperties { device, .. } => Some(
                Request::Query(Query::Properties { device: *device }),
            ),
            Reporter::AwaitName { device, .. } => Some(
                Request::Query(Query::Name { device: *device }),
            ),
            Reporter::AwaitTotalMemory { device, .. } => Some(
                Request::Query(Query::TotalMemory { device: *device }),
            ),
            Reporter::AwaitWarpSize { device, .. } => Some(
                Request::Query(
                    Query::Attribute { device: *device, attribute: Attribute::WarpSize },
                ),
            ),
            Reporter::Finished => None,
            Reporter::Failed(_) => None,
        }
    }

    /// How the run ended: `Ok` after the last device, the error after a
    /// failure, and `None` while the run goes on.
    pub fn outcome(&self) -> (outcome: Option<Result<(), ReportError>>)
        ensures
            outcome == self.ended(),
    {
        match self {
            Reporter::Finished => Some(Ok(())),
            Reporter::Failed(error) => Some(Err(*error)),
            _ => None,
        }
    }

    /// Takes the answer to the awaited request and moves on. Returns the
    /// state that follows and, where the answer completed a device, the
    /// block that reports it.
    pub fn step(self, answer: Answer) -> (next: (Reporter, Option<String>))
        ensures
            next.0 == self.after(answer),
            emitted_text(next.1) == self.emits(answer),
    {
        match (self, answer) {
            (Reporter::AwaitContext, Answer::Context) => (Reporter::AwaitCount, None),
            (Reporter::AwaitContext, Answer::Failure(error)) => (
                Reporter::Failed(ReportError::AcquisitionFailure { error }),
                None,
            ),
            (Reporter::AwaitCount, Answer::DeviceCount(count)) => {
                if count > 0 {
                    (Reporter::AwaitProperties { count, device: 0 }, None)
                } else {
                    (Reporter::Finished, None)
                }
            },
            (Reporter::AwaitCount, Answer::Failure(error)) => (
                fail(Query::DeviceCount, error),
                None,
            ),
            (Reporter::AwaitProperties { count, device }, Answer::Properties(properties)) => (
                Reporter::AwaitName { count, device, properties },
                None,
            ),
            (Reporter::AwaitProperties { device, .. }, Answer::Failure(error)) => (
                fail(Query::Properties { device }, error),
                None,
            ),
            (Reporter::AwaitName { count, device, properties }, Answer::Name(name)) => (
                Reporter::AwaitTotalMemory { count, device, properties, name },
                None,
            ),
            (Reporter::AwaitName { device, .. }, Answer::Failure(error)) => (
                fail(Query::Name { device }, error),
                None,
            ),
            (
                Reporter::AwaitTotalMemory { count, device, properties, name },
                Answer::TotalMemory(total_memory),
            ) => (Reporter::AwaitWarpSize { count, device, properties, name, total_memory }, None),
            (Reporter::AwaitTotalMemory { device, .. }, Answer::Failure(error)) => (
                fail(Query::TotalMemory { device }, error),
                None,
            ),
            (
                Reporter::AwaitWarpSize { count, device, properties, name, total_memory },
                Answer::Attribute(warp_size),
            ) => {
                let text = device_name(name.as_slice());
                let block = render_block(
                    device,
                    text.as_str(),
                    total_memory,
                    &properties,
                    warp_size,
                );
                if device < i32::MAX && device + 1 < count {
                    (Reporter::AwaitProperties { count, device: device + 1 }, Some(block))
                } else {
                    (Reporter::Finished, Some(block))
                }
            },
            (Reporter::AwaitWarpSize { device, .. }, Answer::Failure(error)) => (
                fail(Query::Attribute { device, attribute: Attribute::WarpSize }, error),
                None,
            ),
            (unchanged, _) => (unchanged, None),
        }
    }
}

fn fail(query: Query, error: DriverError) -> (reporter: Reporter)
    ensures
        reporter == failed_at(query, error),
{
    Reporter::Failed(ReportError::DriverCallFailure { query, error })
}

} // verus!
