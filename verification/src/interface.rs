use vstd::prelude::*;
use crate::dcs::DcsOp;

verus! {

/// The write-only command/data transport capability a display sits behind.
///
/// An implementation carries a ghost log of the DCS-granularity operations it
/// has completed, in order. A successful write appends exactly one operation;
/// a failed write appends nothing (a partially transferred operation does not
/// count as completed). The core issues operations strictly sequentially and
/// never reorders or batches across this boundary, so the log is exactly what
/// the hardware was handed.
pub trait CommandInterface {
    /// The transport's own error type, propagated opaquely by the core.
    type BusError;

    /// The operations this transport has completed, oldest first.
    spec fn ops(&self) -> Seq<DcsOp>;

    /// Sends one command: an opcode followed by its parameter bytes.
    fn write_command(&mut self, instruction: u8, params: &[u8]) -> (r: Result<(), Self::BusError>)
        ensures
            r is Ok ==> final(self).ops() == old(self).ops().push(
                DcsOp::Command { instruction, params: params@ },
            ),
            r is Err ==> final(self).ops() == old(self).ops(),
    ;

    /// Sends one run of raw data bytes.
    fn write_data(&mut self, data: &[u8]) -> (r: Result<(), Self::BusError>)
        ensures
            r is Ok ==> final(self).ops() == old(self).ops().push(DcsOp::Data { bytes: data@ }),
            r is Err ==> final(self).ops() == old(self).ops(),
    ;
}

/// The digital output pin wired to the controller's reset line, used only
/// during initialization.
///
/// An implementation carries a ghost log of the levels it has driven, in
/// order (`false` = low, `true` = high). A successful drive appends its
/// level; a failed drive appends nothing.
pub trait ResetOutput {
    /// The pin's own error type (a drive fault), propagated opaquely.
    type PinError;

    /// The levels this pin has been driven to, oldest first.
    spec fn levels(&self) -> Seq<bool>;

    /// Drives the reset line low.
    fn set_low(&mut self) -> (r: Result<(), Self::PinError>)
        ensures
            r is Ok ==> final(self).levels() == old(self).levels().push(false),
            r is Err ==> final(self).levels() == old(self).levels(),
    ;

    /// Drives the reset line high.
    fn set_high(&mut self) -> (r: Result<(), Self::PinError>)
        ensures
            r is Ok ==> final(self).levels() == old(self).levels().push(true),
            r is Err ==> final(self).levels() == old(self).levels(),
    ;
}

/// The blocking wait capability for controller power-up and reset timing.
///
/// An implementation carries a ghost log of the waits it has performed, in
/// order. Waiting is infallible and always appends the requested duration.
pub trait DelayProvider {
    /// The microsecond waits performed so far, oldest first.
    spec fn waits(&self) -> Seq<u32>;

    /// Blocks for at least `us` microseconds.
    fn delay_us(&mut self, us: u32)
        ensures
            final(self).waits() == old(self).waits().push(us),
    ;
}

} // verus!
