//! Bring-up of the front display: configuration and validation of the serial
//! bus channel, the ordered controller handshake, and the classification of
//! bring-up faults.
//!
//! The hardware actions themselves (pin drives, bus transactions, the
//! busy-wait reset pulse) are performed by the platform layer outside this
//! crate; their outcomes are handed in as a [`BringUpProbe`] and every
//! decision taken from them is made here.

use vstd::prelude::*;

use crate::consts::DISPLAY_HEIGHT;
use crate::consts::DISPLAY_WIDTH;
use crate::consts::ESP_ERR_INVALID_ARG;
use crate::consts::ESP_ERR_INVALID_STATE;
use crate::consts::FRONT_DISPLAY_CLOCK_HZ;
use crate::consts::PANEL_MAX_CLOCK_HZ;
use crate::types::AppError;
use crate::types::FrontDisplayBlock;
use crate::types::Pin;

verus! {

/// The four rotations the display controller supports.
#[derive(Clone, Copy, Debug, PartialEq, Eq, Structural)]
pub enum Rotation {
    Deg0,
    Deg90,
    Deg180,
    Deg270,
}

/// Whether `r` swaps the two axes of the panel.
pub open spec fn swaps_axes(r: Rotation) -> bool {
    r is Deg90 || r is Deg270
}

/// Width of the drawable area once `r` is applied to a panel of
/// `width` x `height` physical pixels.
pub open spec fn logical_width_spec(r: Rotation, width: u16, height: u16) -> u16 {
    if swaps_axes(r) {
        height
    } else {
        width
    }
}

/// Height of the drawable area once `r` is applied to a panel of
/// `width` x `height` physical pixels.
pub open spec fn logical_height_spec(r: Rotation, width: u16, height: u16) -> u16 {
    if swaps_axes(r) {
        width
    } else {
        height
    }
}

impl Rotation {
    /// Logical draw width under this rotation.
    pub fn logical_width(self, width: u16, height: u16) -> (w: u16)
        ensures
            w == logical_width_spec(self, width, height),
    {
        match self {
            Rotation::Deg90 | Rotation::Deg270 => height,
            Rotation::Deg0 | Rotation::Deg180 => width,
        }
    }

    /// Logical draw height under this rotation.
    pub fn logical_height(self, width: u16, height: u16) -> (h: u16)
        ensures
            h == logical_height_spec(self, width, height),
    {
        match self {
            Rotation::Deg90 | Rotation::Deg270 => width,
            Rotation::Deg0 | Rotation::Deg180 => height,
        }
    }
}

/// For every supported rotation, the logical draw area used for addressing
/// either preserves the physical axes (no turn or a half turn) or swaps
/// them (a quarter turn either way), consistently for width and height.
pub proof fn lemma_rotation_geometry(r: Rotation, width: u16, height: u16)
    ensures
        swaps_axes(r) <==> (r is Deg90 || r is Deg270),
        logical_width_spec(r, width, height) == if swaps_axes(r) {
            height
        } else {
            width
        },
        logical_height_spec(r, width, height) == if swaps_axes(r) {
            width
        } else {
            height
        },
{
}

/// Clock polarity and phase of the serial bus, numbered as usual: the panel
/// controller samples in mode 0 (clock idles low, data taken on the rising
/// edge).
#[derive(Clone, Copy, Debug, PartialEq, Eq, Structural)]
pub enum BusMode {
    Mode0,
    Mode1,
    Mode2,
    Mode3,
}

/// Configuration a bus channel is opened with. Immutable once applied.
#[derive(Clone, Copy, Debug, PartialEq, Eq, Structural)]
pub struct BusChannelConfig {
    /// Serial clock, in hertz.
    pub clock_hz: u32,
    /// Clock polarity and phase.
    pub mode: BusMode,
}

impl BusChannelConfig {
    /// A configuration the panel tolerates: the clock within the
    /// controller's maximum, and the controller's fixed polarity and phase.
    pub open spec fn valid(self) -> bool {
        &&& self.clock_hz <= PANEL_MAX_CLOCK_HZ
        &&& self.mode is Mode0
    }

    /// The configuration the front display is driven with.
    pub fn front_display() -> (c: BusChannelConfig)
        ensures
            c.valid(),
            c.clock_hz == FRONT_DISPLAY_CLOCK_HZ,
    {
        BusChannelConfig { clock_hz: FRONT_DISPLAY_CLOCK_HZ, mode: BusMode::Mode0 }
    }
}

/// An open serial bus channel to the panel, wrapped in the command/data
/// signaling adapter: every transaction first drives the data/command select
/// pin before the bytes go out.
#[derive(Clone, Copy, Debug, PartialEq, Eq, Structural)]
pub struct BusChannel {
    pub config: BusChannelConfig,
    /// Data/command select pin the adapter toggles per transaction.
    pub pin_dc: Pin,
    pub pin_clk: Pin,
    pub pin_mosi: Pin,
    pub pin_miso: Pin,
}

impl BusChannel {
    /// The channel carries a tolerated configuration and the capability's
    /// own pins.
    pub open spec fn wf(self) -> bool {
        self.config.valid()
    }

    /// Opens the channel over the capability's bus lines, after validating
    /// the configuration against the panel's tolerances. `bus_fault` is the
    /// outcome of the platform's channel setup: its fault code is surfaced
    /// unchanged. Failure is fatal to bring-up: no partial channel exists.
    pub fn open(p: &FrontDisplayBlock, config: &BusChannelConfig, bus_fault: Option<i32>) -> (r:
        Result<BusChannel, AppError>)
        ensures
            !config.valid() ==> r == Err::<BusChannel, AppError>(
                AppError::EspError(ESP_ERR_INVALID_ARG),
            ),
            config.valid() ==> (bus_fault matches Some(c) ==> r == Err::<BusChannel, AppError>(
                AppError::EspError(c),
            )),
            config.valid() && bus_fault is None ==> (r matches Ok(ch) && ch.wf() && ch.config
                == *config && ch.pin_dc == p.pin_dc && ch.pin_clk == p.pin_clk && ch.pin_mosi
                == p.pin_mosi && ch.pin_miso == p.pin_miso),
    {
        if !(config.clock_hz <= PANEL_MAX_CLOCK_HZ) || !matches!(config.mode, BusMode::Mode0) {
            return Err(AppError::EspError(ESP_ERR_INVALID_ARG));
        }
        match bus_fault {
            Some(c) => Err(AppError::EspError(c)),
            None => Ok(
                BusChannel {
                    config: *config,
                    pin_dc: p.pin_dc,
                    pin_clk: p.pin_clk,
                    pin_mosi: p.pin_mosi,
                    pin_miso: p.pin_miso,
                },
            ),
        }
    }
}

/// Outcome of each hardware action of the controller handshake, reported by
/// the platform layer in the order the handshake performs them.
#[derive(Clone, Copy, Debug, PartialEq, Eq, Structural)]
pub struct BringUpProbe {
    /// Driving the reset pin through its pulse; `Some` carries the pin-level
    /// fault code.
    pub reset_pulse_fault: Option<i32>,
    /// Whether the controller acknowledged its initialization command
    /// sequence. On failure no cause is observable at this boundary.
    pub init_commands_ok: bool,
    /// Driving the backlight-enable pin high; `Some` carries the pin-level
    /// fault code.
    pub backlight_fault: Option<i32>,
}

impl BringUpProbe {
    /// A handshake in which every hardware action succeeded.
    pub open spec fn all_clear(self) -> bool {
        &&& self.reset_pulse_fault is None
        &&& self.init_commands_ok
        &&& self.backlight_fault is None
    }

    /// The classified fault of the first handshake step that failed, in
    /// handshake order; `None` when the handshake ran clear.
    ///
    /// A pin-level fault is surfaced verbatim. A controller protocol fault
    /// collapses to the generic invalid-state code: the bus-level cause is
    /// not observable at this boundary, a deliberate information loss.
    pub open spec fn first_fault(self) -> Option<AppError> {
        match self.reset_pulse_fault {
            Some(c) => Some(AppError::EspError(c)),
            None => if !self.init_commands_ok {
                Some(AppError::EspError(ESP_ERR_INVALID_STATE))
            } else {
                match self.backlight_fault {
                    Some(c) => Some(AppError::EspError(c)),
                    None => None,
                }
            },
        }
    }
}

/// The live, initialized panel session: it owns the bus channel, the
/// data/command select pin inside it, and the reset pin, for its entire
/// lifetime. Draw operations borrow it mutably, so no two drawers overlap.
#[derive(Clone, Copy, Debug, PartialEq, Eq, Structural)]
pub struct DisplayHandle {
    pub bus: BusChannel,
    pub pin_reset: Pin,
    pub backlight_on: bool,
    pub rotation: Rotation,
    /// Logical draw width, in the rotated frame.
    pub width: u16,
    /// Logical draw height, in the rotated frame.
    pub height: u16,
}

impl DisplayHandle {
    /// A ready-to-draw handle: open channel, backlight lit, and the logical
    /// draw area consistent with the panel geometry under its rotation.
    pub open spec fn wf(self) -> bool {
        &&& self.bus.wf()
        &&& self.backlight_on
        &&& self.width == logical_width_spec(self.rotation, DISPLAY_HEIGHT, DISPLAY_WIDTH)
        &&& self.height == logical_height_spec(self.rotation, DISPLAY_HEIGHT, DISPLAY_WIDTH)
    }
}

/// Performs the decision half of the controller bring-up handshake over an
/// open channel, in the mandated order: reset pulse, initialization
/// commands, logical geometry and rotation, backlight enable. Each step is a
/// precondition for the next: the first fault wins and is classified by
/// [`BringUpProbe::first_fault`].
pub fn init_controller(
    bus: BusChannel,
    pin_reset: Pin,
    width: u16,
    height: u16,
    rotation: Rotation,
    probe: &BringUpProbe,
) -> (r: Result<DisplayHandle, AppError>)
    requires
        bus.wf(),
    ensures
        r is Ok <==> probe.all_clear(),
        r matches Err(e) ==> Some(e) == probe.first_fault(),
        r matches Ok(h) ==> h.bus == bus && h.pin_reset == pin_reset && h.backlight_on
            && h.rotation == rotation && h.width == logical_width_spec(rotation, width, height)
            && h.height == logical_height_spec(rotation, width, height),
{
    if let Some(c) = probe.reset_pulse_fault {
        return Err(AppError::EspError(c));
    }
    if !probe.init_commands_ok {
        return Err(AppError::EspError(ESP_ERR_INVALID_STATE));
    }
    let logical_w = rotation.logical_width(width, height);
    let logical_h = rotation.logical_height(width, height);
    if let Some(c) = probe.backlight_fault {
        return Err(AppError::EspError(c));
    }
    Ok(
        DisplayHandle {
            bus,
            pin_reset,
            backlight_on: true,
            rotation,
            width: logical_w,
            height: logical_h,
        },
    )
}

/// Brings the front display up from the peripheral capability: opens the
/// bus channel under the fixed front-display configuration, then runs the
/// controller handshake with the panel's geometry and a quarter-turn
/// rotation. Any stage fault is fatal and classified; on success the handle
/// is ready to draw with the logical area of the rotated panel.
pub fn init_front_display(
    p: &FrontDisplayBlock,
    bus_fault: Option<i32>,
    probe: &BringUpProbe,
) -> (r: Result<DisplayHandle, AppError>)
    ensures
        r is Ok <==> bus_fault is None && probe.all_clear(),
        bus_fault matches Some(c) ==> r == Err::<DisplayHandle, AppError>(AppError::EspError(c)),
        bus_fault is None ==> (r matches Err(e) ==> Some(e) == probe.first_fault()),
        r matches Ok(h) ==> h.wf() && h.rotation is Deg90 && h.width == DISPLAY_WIDTH && h.height
            == DISPLAY_HEIGHT && h.pin_reset == p.pin_reset && h.bus.pin_dc == p.pin_dc,
{
    let config = BusChannelConfig::front_display();
    let bus = match BusChannel::open(p, &config, bus_fault) {
        Ok(ch) => ch,
        Err(e) => {
            return Err(e);
        },
    };
    init_controller(bus, p.pin_reset, DISPLAY_HEIGHT, DISPLAY_WIDTH, Rotation::Deg90, probe)
}

} // verus!
