//! Runs of a reporter against recorded answers.
//!
//! A [`Recording`] holds what a driver answered, or would answer, to every
//! request of a run. [`replay`] drives a [`Reporter`] through it and collects
//! what the run emits and how it ends.

use crate::device::{block_text, name_text, DeviceProperties, NAME_CAPACITY};
use crate::reporter::{
    emitted_text, Answer, Attribute, DriverError, Query, ReportError, Reporter, Request,
};
use vstd::prelude::*;

verus! {

/// The recorded answers about one device.
#[derive(Debug, PartialEq, Eq)]
pub struct DeviceRecord {
    /// The answer to the query for the property record.
    pub properties: Result<DeviceProperties, DriverError>,
    /// The answer to the query for the name: the buffer as the driver left it.
    pub name: Result<[u8; NAME_CAPACITY], DriverError>,
    /// The answer to the query for the total memory.
    pub total_memory: Result<u64, DriverError>,
    /// The answer to the query for the warp size.
    pub warp_size: Result<i32, DriverError>,
}

/// The recorded answers of a driver that exposes `devices.len()` devices.
#[derive(Debug, PartialEq, Eq)]
pub struct Recording {
    /// The failure with which the runtime refuses a context, if it does.
    pub context_failure: Option<DriverError>,
    /// The failure of the query for the number of devices, if it fails.
    pub count_failure: Option<DriverError>,
    /// The devices, by index.
    pub devices: Vec<DeviceRecord>,
}

/// What a run emitted, and how it ended.
#[derive(Debug, PartialEq, Eq)]
pub struct Report {
    /// The blocks, in the order in which the run emitted them.
    pub blocks: Vec<String>,
    /// `Ok` where the run reported every device, else the failure that ended
    /// it.
    pub outcome: Result<(), ReportError>,
}

impl DeviceRecord {
    /// Whether every query about the device is answered.
    pub open spec fn healthy(self) -> bool {
        &&& self.properties is Ok
        &&& self.name is Ok
        &&& self.total_memory is Ok
        &&& self.warp_size is Ok
    }

    /// The failure that ends a run at this device, known as `device` to the
    /// driver: that of the first query, in the order asked, that is not
    /// answered.
    pub open spec fn failure(self, device: i32) -> ReportError
        recommends
            !self.healthy(),
    {
        if let Err(error) = self.properties {
            ReportError::DriverCallFailure { query: Query::Properties { device }, error }
        } else if let Err(error) = self.name {
            ReportError::DriverCallFailure { query: Query::Name { device }, error }
        } else if let Err(error) = self.total_memory {
            ReportError::DriverCallFailure { query: Query::TotalMemory { device }, error }
        } else {
            ReportError::DriverCallFailure {
                query: Query::Attribute { device, attribute: Attribute::WarpSize },
                error: self.warp_size->Err_0,
            }
        }
    }

    /// The block that reports this device, known as `device` to the driver.
    pub open spec fn block(self, device: int) -> Seq<char>
        recommends
            self.healthy(),
    {
        block_text(
            device,
            name_text(self.name->Ok_0@),
            self.total_memory->Ok_0 as int,
            self.properties->Ok_0,
            self.warp_size->Ok_0 as int,
        )
    }
}

/// The index of the first device from `from` on that is not healthy, and the
/// number of devices where there is none.
pub open spec fn stops_at(devices: Seq<DeviceRecord>, from: int) -> int
    decreases devices.len() - from,
{
    if from < 0 || from >= devices.len() || !devices[from].healthy() {
        from
    } else {
        stops_at(devices, from + 1)
    }
}

impl Recording {
    /// Whether a driver can count the devices: it counts in 32 bits.
    pub open spec fn valid(self) -> bool {
        self.devices@.len() <= i32::MAX
    }

    /// How many devices a run reports before it ends.
    pub open spec fn reported(self) -> int {
        if self.context_failure is Some || self.count_failure is Some {
            0
        } else {
            stops_at(self.devices@, 0)
        }
    }

    /// The blocks that a run emits: those of the devices before the first
    /// that is not healthy, in ascending order of index.
    pub open spec fn blocks(self) -> Seq<Seq<char>> {
        Seq::new(self.reported() as nat, |i: int| self.devices@[i].block(i))
    }

    /// How a run ends: with the first failure that it meets, if any.
    pub open spec fn outcome(self) -> Result<(), ReportError> {
        if let Some(error) = self.context_failure {
            Err(ReportError::AcquisitionFailure { error })
        } else if let Some(error) = self.count_failure {
            Err(ReportError::DriverCallFailure { query: Query::DeviceCount, error })
        } else if self.reported() < self.devices@.len() {
            Err(self.devices@[self.reported()].failure(self.reported() as i32))
        } else {
            Ok(())
        }
    }

    /// The answer that the recording holds for `request`.
    spec fn recorded(self, request: Request) -> Answer {
        match request {
            Request::Context => match self.context_failure {
                Some(error) => Answer::Failure(error),
                None => Answer::Context,
            },
            Request::Query(Query::DeviceCount) => match self.count_failure {
                Some(error) => Answer::Failure(error),
                None => Answer::DeviceCount(self.devices@.len() as i32),
            },
            Request::Query(Query::Properties { device }) => {
                match self.devices@[device as int].properties {
                    Ok(properties) => Answer::Properties(properties),
                    Err(error) => Answer::Failure(error),
                }
            },
            Request::Query(Query::Name { device }) => {
                match self.devices@[device as int].name {
                    Ok(buffer) => Answer::Name(buffer),
                    Err(error) => Answer::Failure(error),
                }
            },
            Request::Query(Query::TotalMemory { device }) => {
                match self.devices@[device as int].total_memory {
                    Ok(total_memory) => Answer::TotalMemory(total_memory),
                    Err(error) => Answer::Failure(error),
                }
            },
            Request::Query(Query::Attribute { device, .. }) => {
                match self.devices@[device as int].warp_size {
                    Ok(warp_size) => Answer::Attribute(warp_size),
                    Err(error) => Answer::Failure(error),
                }
            },
        }
    }

    /// Whether the recording holds an answer to `request`: it does, unless
    /// the request is about a device that it does not have.
    spec fn covers(self, request: Request) -> bool {
        match request {
            Request::Context => true,
            Request::Query(Query::DeviceCount) => true,
            Request::Query(Query::Properties { device }) => 0 <= device < self.devices@.len(),
            Request::Query(Query::Name { device }) => 0 <= device < self.devices@.len(),
            Request::Query(Query::TotalMemory { device }) => 0 <= device < self.devices@.len(),
            Request::Query(Query::Attribute { device, .. }) => 0 <= device < self.devices@.len(),
        }
    }

    /// The recorded answer to `request`.
    fn answer(&self, request: Request) -> (answer: Answer)
        requires
            self.valid(),
            self.covers(request),
        ensures
            answer == self.recorded(request),
    {
        match request {
            Request::Context => match self.context_failure {
                Some(error) => Answer::Failure(error),
                None => Answer::Context,
            },
            Request::Query(Query::DeviceCount) => match self.count_failure {
                Some(error) => Answer::Failure(error),
                None => Answer::DeviceCount(self.devices.len() as i32),
            },
            Request::Query(Query::Properties { device }) => {
                match self.devices[device as usize].properties {
                    Ok(properties) => Answer::Properties(properties),
                    Err(error) => Answer::Failure(error),
                }
            },
            Request::Query(Query::Name { device }) => {
                match self.devices[device as usize].name {
                    Ok(buffer) => Answer::Name(buffer),
                    Err(error) => Answer::Failure(error),
                }
            },
            Request::Query(Query::TotalMemory { device }) => {
                match self.devices[device as usize].total_memory {
                    Ok(total_memory) => Answer::TotalMemory(total_memory),
                    Err(error) => Answer::Failure(error),
                }
            },
            Request::Query(Query::Attribute { device, attribute: _ }) => {
                match self.devices[device as usize].warp_size {
                    Ok(warp_size) => Answer::Attribute(warp_size),
                    Err(error) => Answer::Failure(error),
                }
            },
        }
    }
}

/// What holds of a run that has come to `device`: context and count were
/// answered, every device before it was healthy and is reported.
spec fn at_device(recording: Recording, count: i32, device: i32, blocks: Seq<String>) -> bool {
    let devices = recording.devices@;
    &&& recording.context_failure is None
    &&& recording.count_failure is None
    &&& count == devices.len()
    &&& 0 <= device < devices.len()
    &&& blocks.len() == device
    &&& stops_at(devices, 0) == stops_at(devices, device as int)
}

/// What holds of a run of `recording` that stands at `reporter` and has
/// emitted `blocks`.
spec fn on_track(recording: Recording, reporter: Reporter, blocks: Seq<String>) -> bool {
    let devices = recording.devices@;
    &&& blocks.len() <= devices.len()
    &&& forall|i: int| 0 <= i < blocks.len() ==> (#[trigger] blocks[i])@ == devices[i].block(i)
    &&& match reporter {
        Reporter::AwaitContext => blocks.len() == 0,
        Reporter::AwaitCount => blocks.len() == 0 && recording.context_failure is None,
        Reporter::AwaitProperties { count, device } => at_device(recording, count, device, blocks),
        Reporter::AwaitName { count, device, properties } => {
            let record = devices[device as int];
            &&& at_device(recording, count, device, blocks)
            &&& record.properties == Ok::<DeviceProperties, DriverError>(properties)
        },
        Reporter::AwaitTotalMemory { count, device, properties, name } => {
            let record = devices[device as int];
            &&& at_device(recording, count, device, blocks)
            &&& record.properties == Ok::<DeviceProperties, DriverError>(properties)
            &&& record.name == Ok::<[u8; NAME_CAPACITY], DriverError>(name)
        },
        Reporter::AwaitWarpSize { count, device, properties, name, total_memory } => {
            let record = devices[device as int];
            &&& at_device(recording, count, device, blocks)
            &&& record.properties == Ok::<DeviceProperties, DriverError>(properties)
            &&& record.name == Ok::<[u8; NAME_CAPACITY], DriverError>(name)
            &&& record.total_memory == Ok::<u64, DriverError>(total_memory)
        },
        Reporter::Finished => {
            &&& recording.outcome() == Ok::<(), ReportError>(())
            &&& blocks.len() == recording.reported()
        },
        Reporter::Failed(error) => {
            &&& recording.outcome() == Err::<(), ReportError>(error)
            &&& blocks.len() == recording.reported()
        },
    }
}

/// An upper bound on the requests that a run still makes.
spec fn remaining(devices: int, reporter: Reporter) -> int {
    match reporter {
        Reporter::AwaitContext => 4 * devices + 2,
        Reporter::AwaitCount => 4 * devices + 1,
        Reporter::AwaitProperties { device, .. } => 4 * (devices - device),
        Reporter::AwaitName { device, .. } => 4 * (devices - device) - 1,
        Reporter::AwaitTotalMemory { device, .. } => 4 * (devices - device) - 2,
        Reporter::AwaitWarpSize { device, .. } => 4 * (devices - device) - 3,
        Reporter::Finished => 0,
        Reporter::Failed(_) => 0,
    }
}

/// Runs a reporter from its start against `recording`: every request is
/// answered from the recording, until the run ends.
///
/// The run emits the blocks of the devices before the first that is not
/// healthy, in ascending order of index, and ends with the first failure
/// that it meets: nothing is emitted for the device at which it fails, and
/// no device after it is asked about.
pub fn replay(recording: &Recording) -> (report: Report)
    requires
        recording.valid(),
    ensures
        report.blocks.deep_view() == recording.blocks(),
        report.outcome == recording.outcome(),
{
    let mut reporter = Reporter::new();
    let mut blocks: Vec<String> = Vec::new();
    let mut request = reporter.request();
    while request.is_some()
        invariant
            recording.valid(),
            request == reporter.awaits(),
            on_track(*recording, reporter, blocks@),
        decreases remaining(recording.devices@.len() as int, reporter),
    {
        let answer = recording.answer(request.unwrap());
        let ghost before = reporter;
        let ghost emitted_before = blocks@;
        let (next, emitted) = reporter.step(answer);
        reporter = next;
        proof {
            lemma_step_keeps_track(*recording, before, answer, reporter, emitted, emitted_before);
        }
        if let Some(block) = emitted {
            blocks.push(block);
        }
        request = reporter.request();
    }
    // The loop ends on a state that awaits nothing, and such a state has an
    // outcome.
    let outcome = match reporter.outcome() {
        Some(outcome) => outcome,
        None => Ok(()),
    };
    Report { blocks, outcome }
}

/// The blocks emitted so far, after a step that emitted `emitted`.
spec fn with_emitted(blocks: Seq<String>, emitted: Option<String>) -> Seq<String> {
    match emitted {
        Some(block) => blocks.push(block),
        None => blocks,
    }
}

/// One step on the recorded answer keeps a run on track and brings it
/// nearer to its end.
proof fn lemma_step_keeps_track(
    recording: Recording,
    before: Reporter,
    answer: Answer,
    after: Reporter,
    emitted: Option<String>,
    blocks: Seq<String>,
)
    requires
        recording.valid(),
        on_track(recording, before, blocks),
        before.awaits() is Some,
        answer == recording.recorded(before.awaits()->Some_0),
        after == before.after(answer),
        emitted_text(emitted) == before.emits(answer),
    ensures
        on_track(recording, after, with_emitted(blocks, emitted)),
        remaining(recording.devices@.len() as int, after) < remaining(
            recording.devices@.len() as int,
            before,
        ),
        remaining(recording.devices@.len() as int, after) >= 0,
{
    let devices = recording.devices@;
    if let Reporter::AwaitWarpSize { device, .. } = before {
        if devices[device as int].warp_size is Ok && device + 1 >= devices.len() {
            assert(stops_at(devices, device + 1) == devices.len());
        }
    }
}

proof fn lemma_stops_at_end(devices: Seq<DeviceRecord>, from: int)
    requires
        0 <= from <= devices.len(),
        forall|i: int| from <= i < devices.len() ==> devices[i].healthy(),
    ensures
        stops_at(devices, from) == devices.len(),
    decreases devices.len() - from,
{
    if from < devices.len() {
        lemma_stops_at_end(devices, from + 1);
    }
}

proof fn lemma_stops_at_first_failure(devices: Seq<DeviceRecord>, from: int, at: int)
    requires
        0 <= from <= at < devices.len(),
        forall|i: int| from <= i < at ==> devices[i].healthy(),
        !devices[at].healthy(),
    ensures
        stops_at(devices, from) == at,
    decreases at - from,
{
    if from < at {
        lemma_stops_at_first_failure(devices, from + 1, at);
    }
}

/// Every device is reported, in order: where the context, the count and
/// every query about every device are answered, a run over `k` devices emits
/// exactly `k` blocks, the `i`-th of them the block of device `i`, and ends
/// well.
pub proof fn law_enumeration_order(recording: Recording)
    requires
        recording.valid(),
        recording.context_failure is None,
        recording.count_failure is None,
        forall|i: int| 0 <= i < recording.devices@.len() ==> recording.devices@[i].healthy(),
    ensures
        recording.blocks().len() == recording.devices@.len(),
        forall|i: int|
            0 <= i < recording.devices@.len() ==> recording.blocks()[i]
                == recording.devices@[i].block(i),
        recording.outcome() == Ok::<(), ReportError>(()),
{
    lemma_stops_at_end(recording.devices@, 0);
}

/// A failure is fatal: where device `at` is the first with a query that
/// fails, a run emits the blocks of the devices before `at` and no other,
/// and ends with the failure of the first query about `at` that fails. So
/// where it is the property query that fails, the run ends with the failure
/// of the property query for device `at`.
pub proof fn law_failure_is_fatal(recording: Recording, at: int)
    requires
        recording.valid(),
        recording.context_failure is None,
        recording.count_failure is None,
        0 <= at < recording.devices@.len(),
        forall|i: int| 0 <= i < at ==> recording.devices@[i].healthy(),
        !recording.devices@[at].healthy(),
    ensures
        recording.blocks().len() == at,
        forall|i: int| 0 <= i < at ==> recording.blocks()[i] == recording.devices@[i].block(i),
        recording.outcome() == Err::<(), ReportError>(
            recording.devices@[at].failure(at as i32),
        ),
        recording.devices@[at].properties is Err ==> recording.outcome() == Err::<
            (),
            ReportError,
        >(
            ReportError::DriverCallFailure {
                query: Query::Properties { device: at as i32 },
                error: recording.devices@[at].properties->Err_0,
            },
        ),
{
    lemma_stops_at_first_failure(recording.devices@, 0, at);
}

} // verus!
