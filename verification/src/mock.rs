//! Recording implementations of the capability traits, with optional fault
//! injection. They let the command stream, the waits and the pin levels a
//! routine produces be observed and compared, and let a failure be forced on
//! a chosen attempt.

use vstd::prelude::*;
use vstd::slice::slice_to_vec;
use crate::dcs::DcsOp;
use crate::interface::{CommandInterface, DelayProvider, ResetOutput};

verus! {

/// The error a recording capability reports on the attempt it was told to
/// fail.
#[derive(Clone, Copy, Debug, PartialEq, Eq, Structural)]
pub struct InjectedFault;

/// One recorded transport operation, the executable twin of [`DcsOp`].
#[derive(Debug, PartialEq, Eq)]
pub enum RecordedOp {
    Command { instruction: u8, params: Vec<u8> },
    Data { bytes: Vec<u8> },
}

impl View for RecordedOp {
    type V = DcsOp;

    open spec fn view(&self) -> DcsOp {
        match self {
            RecordedOp::Command { instruction, params } => DcsOp::Command {
                instruction: *instruction,
                params: params@,
            },
            RecordedOp::Data { bytes } => DcsOp::Data { bytes: bytes@ },
        }
    }
}

/// A transport that appends every completed operation to a log. When
/// `fail_at` is set, the attempt made while the log holds that many
/// operations fails with [`InjectedFault`] and records nothing.
pub struct RecordingInterface {
    /// The completed operations, oldest first.
    pub log: Vec<RecordedOp>,
    /// The log length at which the next attempt fails, if any.
    pub fail_at: Option<usize>,
}

impl RecordingInterface {
    /// A transport that records everything and never fails.
    pub fn new() -> (r: RecordingInterface)
        ensures
            r.ops() == Seq::<DcsOp>::empty(),
            r.fail_at == Option::<usize>::None,
    {
        let r = RecordingInterface { log: Vec::new(), fail_at: None };
        assert(r.ops() =~= Seq::<DcsOp>::empty());
        r
    }

    /// A transport that fails the attempt made once `n` operations have
    /// completed, and records and fails nothing afterwards.
    pub fn failing_at(n: usize) -> (r: RecordingInterface)
        ensures
            r.ops() == Seq::<DcsOp>::empty(),
            r.fail_at == Option::Some(n),
    {
        let r = RecordingInterface { log: Vec::new(), fail_at: Some(n) };
        assert(r.ops() =~= Seq::<DcsOp>::empty());
        r
    }

    fn should_fail(&self) -> (b: bool)
        ensures
            b == (self.fail_at matches Some(n) && self.log@.len() == n),
    {
        match self.fail_at {
            Some(n) => self.log.len() == n,
            None => false,
        }
    }
}

impl CommandInterface for RecordingInterface {
    type BusError = InjectedFault;

    open spec fn ops(&self) -> Seq<DcsOp> {
        self.log@.map_values(|op: RecordedOp| op@)
    }

    fn write_command(&mut self, instruction: u8, params: &[u8]) -> (r: Result<(), InjectedFault>) {
        if self.should_fail() {
            Err(InjectedFault)
        } else {
            let op = RecordedOp::Command { instruction, params: slice_to_vec(params) };
            self.log.push(op);
            proof {
                assert(self.ops() =~= old(self).ops().push(
                    DcsOp::Command { instruction, params: params@ },
                ));
            }
            Ok(())
        }
    }

    fn write_data(&mut self, data: &[u8]) -> (r: Result<(), InjectedFault>) {
        if self.should_fail() {
            Err(InjectedFault)
        } else {
            let op = RecordedOp::Data { bytes: slice_to_vec(data) };
            self.log.push(op);
            proof {
                assert(self.ops() =~= old(self).ops().push(DcsOp::Data { bytes: data@ }));
            }
            Ok(())
        }
    }
}

/// A reset pin that appends every completed drive to a log (`false` = low,
/// `true` = high). When `fail_at` is set, the attempt made while the log
/// holds that many levels fails with [`InjectedFault`].
pub struct RecordingPin {
    /// The driven levels, oldest first.
    pub log: Vec<bool>,
    /// The log length at which the next attempt fails, if any.
    pub fail_at: Option<usize>,
}

impl RecordingPin {
    /// A pin that records everything and never fails.
    pub fn new() -> (r: RecordingPin)
        ensures
            r.levels() == Seq::<bool>::empty(),
            r.fail_at == Option::<usize>::None,
    {
        let r = RecordingPin { log: Vec::new(), fail_at: None };
        assert(r.levels() =~= Seq::<bool>::empty());
        r
    }

    /// A pin that fails the attempt made once `n` drives have completed.
    pub fn failing_at(n: usize) -> (r: RecordingPin)
        ensures
            r.levels() == Seq::<bool>::empty(),
            r.fail_at == Option::Some(n),
    {
        let r = RecordingPin { log: Vec::new(), fail_at: Some(n) };
        assert(r.levels() =~= Seq::<bool>::empty());
        r
    }

    fn should_fail(&self) -> (b: bool)
        ensures
            b == (self.fail_at matches Some(n) && self.log@.len() == n),
    {
        match self.fail_at {
            Some(n) => self.log.len() == n,
            None => false,
        }
    }

    fn drive(&mut self, level: bool) -> (r: Result<(), InjectedFault>)
        ensures
            r is Ok ==> final(self).levels() == old(self).levels().push(level),
            r is Err ==> final(self).levels() == old(self).levels(),
            final(self).fail_at == old(self).fail_at,
    {
        if self.should_fail() {
            Err(InjectedFault)
        } else {
            self.log.push(level);
            Ok(())
        }
    }
}

impl ResetOutput for RecordingPin {
    type PinError = InjectedFault;

    open spec fn levels(&self) -> Seq<bool> {
        self.log@
    }

    fn set_low(&mut self) -> (r: Result<(), InjectedFault>) {
        self.drive(false)
    }

    fn set_high(&mut self) -> (r: Result<(), InjectedFault>) {
        self.drive(true)
    }
}

/// A delay source that performs no wait but appends every requested
/// duration to a log.
pub struct RecordingDelay {
    /// The requested waits in microseconds, oldest first.
    pub log: Vec<u32>,
}

impl RecordingDelay {
    /// A delay source with an empty log.
    pub fn new() -> (r: RecordingDelay)
        ensures
            r.waits() == Seq::<u32>::empty(),
    {
        RecordingDelay { log: Vec::new() }
    }
}

impl DelayProvider for RecordingDelay {
    open spec fn waits(&self) -> Seq<u32> {
        self.log@
    }

    fn delay_us(&mut self, us: u32) {
        self.log.push(us);
    }
}

} // verus!
