//! The bring-up routine and pixel streaming shared by the ILI934x controller
//! family: the sibling controllers differ only in reset pulse shape, default
//! geometry and pixel byte width, so the ordered command sequence that brings
//! a controller from reset to a drawable state lives here once.

use vstd::prelude::*;
use crate::options::ModelOptions;
use crate::color::{Rgb565Color, Rgb666Color};
use crate::dcs::{
    DcsOp, PixelFormat, SetAddressMode, pixel_format_byte, spec_pixel_format_byte,
    ENTER_NORMAL_MODE, EXIT_SLEEP_MODE, SET_DISPLAY_ON, SET_PIXEL_FORMAT, SOFT_RESET,
};
use crate::error::Error;
use crate::interface::{CommandInterface, DelayProvider};

verus! {

/// Settle time after the exit-sleep command, in microseconds.
pub const SLEEP_OUT_SETTLE_US: u32 = 120_000;

/// Settle time after the display-on command, in microseconds.
pub const DISPLAY_ON_SETTLE_US: u32 = 10_000;

/// The ordered command sequence that brings an ILI934x controller from reset
/// to a drawable state: exit sleep, select the pixel format, enter normal
/// mode, display on. Options never change which commands run, only parameter
/// values inside them.
pub open spec fn bring_up_ops(format: PixelFormat) -> Seq<DcsOp> {
    seq![
        DcsOp::Command { instruction: EXIT_SLEEP_MODE, params: seq![] },
        DcsOp::Command { instruction: SET_PIXEL_FORMAT, params: seq![spec_pixel_format_byte(format)] },
        DcsOp::Command { instruction: ENTER_NORMAL_MODE, params: seq![] },
        DcsOp::Command { instruction: SET_DISPLAY_ON, params: seq![] },
    ]
}

/// The waits the bring-up sequence interleaves: the settle time after exit
/// sleep and the final settle time after display on.
pub open spec fn bring_up_waits() -> Seq<u32> {
    seq![SLEEP_OUT_SETTLE_US, DISPLAY_ON_SETTLE_US]
}

/// The soft-reset command, issued in place of a hardware pulse when no reset
/// pin is wired.
pub open spec fn soft_reset_op() -> DcsOp {
    DcsOp::Command { instruction: SOFT_RESET, params: seq![] }
}

/// Every command the transport observes during a whole initialization: the
/// bring-up sequence alone when a reset pin performed a hardware reset, or
/// one soft-reset command followed by the same bring-up sequence when not.
pub open spec fn init_ops(had_reset_pin: bool, format: PixelFormat) -> Seq<DcsOp> {
    if had_reset_pin {
        bring_up_ops(format)
    } else {
        seq![soft_reset_op()] + bring_up_ops(format)
    }
}

/// Every wait a whole initialization performs: the reset hold time first when
/// a reset pin performed a hardware reset, then the bring-up waits.
pub open spec fn init_waits(had_reset_pin: bool) -> Seq<u32> {
    if had_reset_pin {
        seq![crate::models::RESET_HOLD_US] + bring_up_waits()
    } else {
        bring_up_waits()
    }
}

/// Issues the shared bring-up sequence, interleaved with its mandated waits,
/// and produces the set-address-mode command value encoding the orientation
/// `options` asks for — the caller must still transmit it. Aborts on the
/// first transport failure, leaving the transport log a proper prefix of the
/// sequence.
pub fn init_common<DI, D>(
    di: &mut DI,
    delay: &mut D,
    options: &ModelOptions,
    format: PixelFormat,
) -> (r: Result<SetAddressMode, DI::BusError>)
    where
        DI: CommandInterface,
        D: DelayProvider,
    ensures
        r is Ok ==> {
            &&& r->Ok_0 == SetAddressMode::spec_from_options(*options)
            &&& final(di).ops() == old(di).ops() + bring_up_ops(format)
            &&& final(delay).waits() == old(delay).waits() + bring_up_waits()
        },
        r is Err ==> {
            &&& exists|k: int|
                0 <= k < bring_up_ops(format).len() && final(di).ops() == old(di).ops()
                    + #[trigger] bring_up_ops(format).take(k)
            &&& exists|w: int|
                0 <= w < bring_up_waits().len() && final(delay).waits() == old(delay).waits()
                    + #[trigger] bring_up_waits().take(w)
        },
{
    let empty: Vec<u8> = Vec::new();
    let madctl = SetAddressMode::from_options(options);

    match di.write_command(EXIT_SLEEP_MODE, empty.as_slice()) {
        Ok(()) => {},
        Err(e) => {
            assert(di.ops() =~= old(di).ops() + bring_up_ops(format).take(0));
            assert(delay.waits() =~= old(delay).waits() + bring_up_waits().take(0));
            return Err(e);
        },
    }
    delay.delay_us(SLEEP_OUT_SETTLE_US);

    let mut fmt_param: Vec<u8> = Vec::new();
    fmt_param.push(pixel_format_byte(format));
    match di.write_command(SET_PIXEL_FORMAT, fmt_param.as_slice()) {
        Ok(()) => {},
        Err(e) => {
            assert(di.ops() =~= old(di).ops() + bring_up_ops(format).take(1));
            assert(delay.waits() =~= old(delay).waits() + bring_up_waits().take(1));
            return Err(e);
        },
    }

    match di.write_command(ENTER_NORMAL_MODE, empty.as_slice()) {
        Ok(()) => {},
        Err(e) => {
            assert(di.ops() =~= old(di).ops() + bring_up_ops(format).take(2));
            assert(delay.waits() =~= old(delay).waits() + bring_up_waits().take(1));
            return Err(e);
        },
    }

    match di.write_command(SET_DISPLAY_ON, empty.as_slice()) {
        Ok(()) => {},
        Err(e) => {
            assert(di.ops() =~= old(di).ops() + bring_up_ops(format).take(3));
            assert(delay.waits() =~= old(delay).waits() + bring_up_waits().take(1));
            return Err(e);
        },
    }
    delay.delay_us(DISPLAY_ON_SETTLE_US);

    assert(di.ops() =~= old(di).ops() + bring_up_ops(format));
    assert(delay.waits() =~= old(delay).waits() + bring_up_waits());
    Ok(madctl)
}

/// The data operations a 16-bit pixel stream sends: one two-byte data
/// transmission per color, in input order.
pub open spec fn pixel_ops_rgb565(colors: Seq<Rgb565Color>) -> Seq<DcsOp> {
    colors.map(|i: int, c: Rgb565Color| DcsOp::Data { bytes: c.spec_encode() })
}

/// The data operations an 18-bit pixel stream sends: one three-byte data
/// transmission per color, in input order.
pub open spec fn pixel_ops_rgb666(colors: Seq<Rgb666Color>) -> Seq<DcsOp> {
    colors.map(|i: int, c: Rgb666Color| DcsOp::Data { bytes: c.spec_encode() })
}

/// Streams 16-bit colors: encodes each color to its two-byte 5-6-5 wire form
/// and forwards it as a single data transmission, preserving input order
/// exactly, with no reordering, dropping or duplication. An empty stream
/// writes nothing. The first transport failure aborts the remaining stream:
/// everything before the failing attempt has already been handed to the
/// transport, and the returned error wraps that attempt's failure.
pub fn write_pixels_rgb565<DI>(di: &mut DI, colors: &[Rgb565Color]) -> (r: Result<
    (),
    Error<DI::BusError>,
>)
    where
        DI: CommandInterface,
    requires
        forall|i: int| 0 <= i < colors@.len() ==> (#[trigger] colors@[i]).wf(),
    ensures
        r is Ok ==> final(di).ops() == old(di).ops() + pixel_ops_rgb565(colors@),
        r is Err ==> exists|k: int|
            0 <= k < colors@.len() && final(di).ops() == old(di).ops() + pixel_ops_rgb565(
                #[trigger] colors@.take(k),
            ),
{
    let mut i: usize = 0;
    while i < colors.len()
        invariant
            0 <= i <= colors@.len(),
            forall|j: int| 0 <= j < colors@.len() ==> (#[trigger] colors@[j]).wf(),
            di.ops() == old(di).ops() + pixel_ops_rgb565(colors@.take(i as int)),
        decreases colors@.len() - i,
    {
        let bytes = colors[i].encode();
        match di.write_data(bytes.as_slice()) {
            Ok(()) => {},
            Err(e) => {
                return Err(Error::Interface(e));
            },
        }
        proof {
            assert(colors@.take(i as int + 1) =~= colors@.take(i as int).push(colors@[i as int]));
            assert(pixel_ops_rgb565(colors@.take(i as int + 1)) =~= pixel_ops_rgb565(
                colors@.take(i as int),
            ).push(DcsOp::Data { bytes: colors@[i as int].spec_encode() }));
        }
        i = i + 1;
    }
    proof {
        assert(colors@.take(colors@.len() as int) =~= colors@);
    }
    Ok(())
}

/// Streams 18-bit colors: encodes each color to its three-byte wire form and
/// forwards it as a single data transmission, preserving input order exactly,
/// with no reordering, dropping or duplication. An empty stream writes
/// nothing. The first transport failure aborts the remaining stream:
/// everything before the failing attempt has already been handed to the
/// transport, and the returned error wraps that attempt's failure.
pub fn write_pixels_rgb666<DI>(di: &mut DI, colors: &[Rgb666Color]) -> (r: Result<
    (),
    Error<DI::BusError>,
>)
    where
        DI: CommandInterface,
    requires
        forall|i: int| 0 <= i < colors@.len() ==> (#[trigger] colors@[i]).wf(),
    ensures
        r is Ok ==> final(di).ops() == old(di).ops() + pixel_ops_rgb666(colors@),
        r is Err ==> exists|k: int|
            0 <= k < colors@.len() && final(di).ops() == old(di).ops() + pixel_ops_rgb666(
                #[trigger] colors@.take(k),
            ),
{
    let mut i: usize = 0;
    while i < colors.len()
        invariant
            0 <= i <= colors@.len(),
            forall|j: int| 0 <= j < colors@.len() ==> (#[trigger] colors@[j]).wf(),
            di.ops() == old(di).ops() + pixel_ops_rgb666(colors@.take(i as int)),
        decreases colors@.len() - i,
    {
        let bytes = colors[i].encode();
        match di.write_data(bytes.as_slice()) {
            Ok(()) => {},
            Err(e) => {
                return Err(Error::Interface(e));
            },
        }
        proof {
            assert(colors@.take(i as int + 1) =~= colors@.take(i as int).push(colors@[i as int]));
            assert(pixel_ops_rgb666(colors@.take(i as int + 1)) =~= pixel_ops_rgb666(
                colors@.take(i as int),
            ).push(DcsOp::Data { bytes: colors@[i as int].spec_encode() }));
        }
        i = i + 1;
    }
    proof {
        assert(colors@.take(colors@.len() as int) =~= colors@);
    }
    Ok(())
}

/// Law: the two reset paths agree after the reset phase. Without a reset pin
/// the transport sees exactly one soft-reset command and then the very
/// sequence it sees with one; with a pin it sees the bring-up sequence alone,
/// the reset itself being the single low-then-high pulse on the pin.
pub proof fn lemma_reset_paths_agree(format: PixelFormat)
    ensures
        init_ops(true, format) == bring_up_ops(format),
        init_ops(false, format) == seq![soft_reset_op()] + init_ops(true, format),
        init_ops(false, format).skip(1) == init_ops(true, format),
        crate::models::reset_pulse() == seq![false, true],
{
    assert(init_ops(false, format).skip(1) =~= init_ops(true, format));
}

} // verus!

use crate::error::InitError;
use crate::interface::ResetOutput;

verus! {

/// What a completed initialization did: the transport saw exactly the
/// initialization command sequence for the reset path taken, the delay
/// source performed exactly the mandated waits, and a reset pin, when one
/// was supplied, was pulsed exactly once (low, then high) and handed back.
pub open spec fn init_done<DI, D, R>(
    pre_di: DI,
    post_di: DI,
    pre_delay: D,
    post_delay: D,
    pre_rst: Option<R>,
    post_rst: Option<R>,
    format: PixelFormat,
) -> bool
    where
        DI: CommandInterface,
        D: DelayProvider,
        R: ResetOutput,
{
    let had_pin = pre_rst is Some;
    &&& post_di.ops() == pre_di.ops() + init_ops(had_pin, format)
    &&& post_delay.waits() == pre_delay.waits() + init_waits(had_pin)
    &&& had_pin ==> post_rst is Some && (post_rst->Some_0).levels() == (pre_rst->Some_0).levels()
        + crate::models::reset_pulse()
    &&& !had_pin ==> post_rst == pre_rst
}

/// What an aborted initialization left behind: a proper prefix of the
/// initialization command sequence on the transport, a prefix of the
/// mandated waits, and at most one partial or complete pulse on a supplied
/// reset pin. The error names the failing stage: a pin fault can only come
/// from a supplied pin and means no command was sent; a transport fault
/// after a hardware reset means the pulse had completed. With no pin
/// supplied, nothing but transport commands happened.
pub open spec fn init_aborted<DI, D, R>(
    pre_di: DI,
    post_di: DI,
    pre_delay: D,
    post_delay: D,
    pre_rst: Option<R>,
    post_rst: Option<R>,
    format: PixelFormat,
    pin_failed: bool,
) -> bool
    where
        DI: CommandInterface,
        D: DelayProvider,
        R: ResetOutput,
{
    let had_pin = pre_rst is Some;
    &&& pin_failed ==> had_pin && post_di.ops() == pre_di.ops()
    &&& !pin_failed && had_pin ==> (post_rst->Some_0).levels() == (pre_rst->Some_0).levels()
        + crate::models::reset_pulse()
    &&& exists|k: int|
        0 <= k < init_ops(had_pin, format).len() && post_di.ops() == pre_di.ops()
            + #[trigger] init_ops(had_pin, format).take(k)
    &&& exists|w: int|
        0 <= w <= init_waits(had_pin).len() && post_delay.waits() == pre_delay.waits()
            + #[trigger] init_waits(had_pin).take(w)
    &&& had_pin ==> post_rst is Some && exists|j: int|
        0 <= j <= crate::models::reset_pulse().len() && (post_rst->Some_0).levels() == (
        pre_rst->Some_0).levels() + #[trigger] crate::models::reset_pulse().take(j)
    &&& !had_pin ==> post_rst == pre_rst
}

/// Brings a controller from an unknown powered state to a drawable state:
/// one hardware reset pulse when a reset pin is supplied, one soft-reset
/// command when not, then the shared bring-up sequence. Returns the
/// set-address-mode command value the caller must still transmit. The first
/// capability failure aborts immediately and is carried in the error; a pin
/// failure can only arise when a pin was supplied.
pub fn init_model<DI, D, R>(
    di: &mut DI,
    delay: &mut D,
    options: &ModelOptions,
    rst: &mut Option<R>,
    format: PixelFormat,
) -> (r: Result<SetAddressMode, InitError<R::PinError, DI::BusError>>)
    where
        DI: CommandInterface,
        D: DelayProvider,
        R: ResetOutput,
    ensures
        r is Ok ==> r->Ok_0 == SetAddressMode::spec_from_options(*options) && init_done(
            *old(di),
            *final(di),
            *old(delay),
            *final(delay),
            *old(rst),
            *final(rst),
            format,
        ),
        r is Err ==> init_aborted(
            *old(di),
            *final(di),
            *old(delay),
            *final(delay),
            *old(rst),
            *final(rst),
            format,
            r->Err_0 is Pin,
        ),
{
    let ghost had_pin = (*rst) is Some;
    match rst {
        Some(pin) => {
            match crate::models::hard_reset(pin, delay) {
                Ok(()) => {},
                Err(e) => {
                    proof {
                        let pre_levels = ((*old(rst))->Some_0).levels();
                        assert(pre_levels + crate::models::reset_pulse().take(0) =~= pre_levels);
                        assert(pre_levels + crate::models::reset_pulse().take(1) =~= pre_levels.push(
                            false,
                        ));
                        assert(di.ops() =~= old(di).ops());
                        assert(di.ops() =~= old(di).ops() + init_ops(true, format).take(0));
                        assert(old(delay).waits() + init_waits(true).take(0) =~= old(
                            delay,
                        ).waits());
                        assert(old(delay).waits() + init_waits(true).take(1) =~= old(
                            delay,
                        ).waits().push(crate::models::RESET_HOLD_US));
                    }
                    return Err(InitError::Pin(e));
                },
            }
        },
        None => {
            let empty: Vec<u8> = Vec::new();
            match di.write_command(SOFT_RESET, empty.as_slice()) {
                Ok(()) => {},
                Err(e) => {
                    proof {
                        assert(di.ops() =~= old(di).ops() + init_ops(false, format).take(0));
                        assert(delay.waits() =~= old(delay).waits() + init_waits(false).take(0));
                    }
                    return Err(InitError::Interface(e));
                },
            }
        },
    }
    let ghost mid_ops = di.ops();
    let ghost mid_waits = delay.waits();
    proof {
        if had_pin {
            assert(mid_ops =~= old(di).ops());
            assert(mid_waits =~= old(delay).waits().push(crate::models::RESET_HOLD_US));
        } else {
            assert(mid_ops =~= old(di).ops().push(soft_reset_op()));
        }
    }
    match init_common(di, delay, options, format) {
        Ok(m) => {
            proof {
                assert(di.ops() =~= old(di).ops() + init_ops(had_pin, format));
                assert(delay.waits() =~= old(delay).waits() + init_waits(had_pin));
                if had_pin {
                    let pre_levels = ((*old(rst))->Some_0).levels();
                    assert(pre_levels + crate::models::reset_pulse().take(2) =~= pre_levels
                        + crate::models::reset_pulse());
                }
            }
            Ok(m)
        },
        Err(e) => {
            proof {
                let kk = choose|k: int|
                    0 <= k < bring_up_ops(format).len() && di.ops() == mid_ops
                        + #[trigger] bring_up_ops(format).take(k);
                let ww = choose|w: int|
                    0 <= w < bring_up_waits().len() && delay.waits() == mid_waits
                        + #[trigger] bring_up_waits().take(w);
                if had_pin {
                    assert(di.ops() =~= old(di).ops() + init_ops(true, format).take(kk));
                    assert(delay.waits() =~= old(delay).waits() + init_waits(true).take(ww + 1));
                    let pre_levels = ((*old(rst))->Some_0).levels();
                    assert(pre_levels + crate::models::reset_pulse().take(2) =~= pre_levels
                        + crate::models::reset_pulse());
                } else {
                    assert(di.ops() =~= old(di).ops() + init_ops(false, format).take(kk + 1));
                    assert(delay.waits() =~= old(delay).waits() + init_waits(false).take(ww));
                }
            }
            Err(InitError::Interface(e))
        },
    }
}

} // verus!

verus! {

/// The bytes one transport operation carries to the pixel memory: a data
/// run's bytes; a command carries none.
pub open spec fn op_data_bytes(op: DcsOp) -> Seq<u8> {
    match op {
        DcsOp::Data { bytes } => bytes,
        DcsOp::Command { instruction, params } => seq![],
    }
}

/// All data bytes a run of transport operations carries, in order.
pub open spec fn ops_data_bytes(ops: Seq<DcsOp>) -> Seq<u8>
    decreases ops.len(),
{
    if ops.len() == 0 {
        seq![]
    } else {
        op_data_bytes(ops[0]) + ops_data_bytes(ops.skip(1))
    }
}

/// The concatenation of the 5-6-5 encodings of a color sequence, in order.
pub open spec fn stream_bytes_rgb565(colors: Seq<Rgb565Color>) -> Seq<u8>
    decreases colors.len(),
{
    if colors.len() == 0 {
        seq![]
    } else {
        colors[0].spec_encode() + stream_bytes_rgb565(colors.skip(1))
    }
}

/// The concatenation of the 18-bit encodings of a color sequence, in order.
pub open spec fn stream_bytes_rgb666(colors: Seq<Rgb666Color>) -> Seq<u8>
    decreases colors.len(),
{
    if colors.len() == 0 {
        seq![]
    } else {
        colors[0].spec_encode() + stream_bytes_rgb666(colors.skip(1))
    }
}

/// Law: the bytes a 16-bit pixel stream hands the transport are exactly the
/// concatenation of each color's encoding, in input order, with nothing
/// reordered, dropped or duplicated — for every stream length, the empty
/// stream carrying no bytes.
pub proof fn lemma_stream_bytes_rgb565(colors: Seq<Rgb565Color>)
    ensures
        ops_data_bytes(pixel_ops_rgb565(colors)) == stream_bytes_rgb565(colors),
    decreases colors.len(),
{
    if colors.len() == 0 {
        assert(ops_data_bytes(pixel_ops_rgb565(colors)) =~= stream_bytes_rgb565(colors));
    } else {
        lemma_stream_bytes_rgb565(colors.skip(1));
        assert(pixel_ops_rgb565(colors).skip(1) =~= pixel_ops_rgb565(colors.skip(1)));
        assert(ops_data_bytes(pixel_ops_rgb565(colors)) =~= stream_bytes_rgb565(colors));
    }
}

/// Law: the bytes an 18-bit pixel stream hands the transport are exactly the
/// concatenation of each color's encoding, in input order, with nothing
/// reordered, dropped or duplicated — for every stream length, the empty
/// stream carrying no bytes.
pub proof fn lemma_stream_bytes_rgb666(colors: Seq<Rgb666Color>)
    ensures
        ops_data_bytes(pixel_ops_rgb666(colors)) == stream_bytes_rgb666(colors),
    decreases colors.len(),
{
    if colors.len() == 0 {
        assert(ops_data_bytes(pixel_ops_rgb666(colors)) =~= stream_bytes_rgb666(colors));
    } else {
        lemma_stream_bytes_rgb666(colors.skip(1));
        assert(pixel_ops_rgb666(colors).skip(1) =~= pixel_ops_rgb666(colors.skip(1)));
        assert(ops_data_bytes(pixel_ops_rgb666(colors)) =~= stream_bytes_rgb666(colors));
    }
}

} // verus!
