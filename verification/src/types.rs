//! Core data types of the device: the peripheral capability record, the
//! fault taxonomy, the device condition and sensor readings, and the static
//! application configuration.

use vstd::prelude::*;

use crate::consts::ESP_ERR_INVALID_STATE;

verus! {

/// Identity of one discrete electrical pin. Pin handles are hard-wired: the
/// capability record pins each electrical function to a fixed identity.
#[derive(Clone, Copy, Debug, PartialEq, Eq, Structural)]
pub struct Pin {
    pub id: u8,
}

/// Unit number of the serial bus the front display hangs off.
pub const FRONT_DISPLAY_BUS_UNIT: u8 = 2;

/// The singleton set of hardware peripherals the process starts with, as far
/// as this device wires them up: one serial bus unit and the discrete pins
/// around the front display.
#[derive(Debug)]
pub struct Peripherals {
    pub spi2: u8,
    pub gpio4: Pin,
    pub gpio9: Pin,
    pub gpio10: Pin,
    pub gpio11: Pin,
    pub gpio12: Pin,
    pub gpio13: Pin,
    pub gpio14: Pin,
}

impl Peripherals {
    /// Each handle names the physical resource it is wired to.
    pub open spec fn wf(self) -> bool {
        &&& self.spi2 == FRONT_DISPLAY_BUS_UNIT
        &&& self.gpio4.id == 4
        &&& self.gpio9.id == 9
        &&& self.gpio10.id == 10
        &&& self.gpio11.id == 11
        &&& self.gpio12.id == 12
        &&& self.gpio13.id == 13
        &&& self.gpio14.id == 14
    }
}

/// Process-wide source of the singleton [`Peripherals`] record. The set can
/// be consumed exactly once; a second take fails with the platform's
/// invalid-state fault and never yields a second usable capability.
#[derive(Debug)]
pub struct PeripheralSet {
    taken: bool,
}

impl PeripheralSet {
    /// Whether the singleton record has already been handed out.
    pub closed spec fn consumed(self) -> bool {
        self.taken
    }

    /// The state a process starts in: nothing handed out yet.
    pub fn new() -> (s: Self)
        ensures
            !s.consumed(),
    {
        PeripheralSet { taken: false }
    }

    /// Claims exclusive ownership of the peripheral set. Succeeds exactly
    /// once per process lifetime; every later attempt fails
    /// deterministically with the invalid-state fault.
    pub fn take(&mut self) -> (r: Result<Peripherals, AppError>)
        ensures
            final(self).consumed(),
            old(self).consumed() <==> r is Err,
            r matches Err(e) ==> e == AppError::EspError(ESP_ERR_INVALID_STATE),
            r matches Ok(p) ==> p.wf(),
    {
        if self.taken {
            Err(AppError::EspError(ESP_ERR_INVALID_STATE))
        } else {
            self.taken = true;
            Ok(Peripherals {
                spi2: FRONT_DISPLAY_BUS_UNIT,
                gpio4: Pin { id: 4 },
                gpio9: Pin { id: 9 },
                gpio10: Pin { id: 10 },
                gpio11: Pin { id: 11 },
                gpio12: Pin { id: 12 },
                gpio13: Pin { id: 13 },
                gpio14: Pin { id: 14 },
            })
        }
    }
}

/// The pins and bus channel that together drive the front display, each
/// mapped to its electrical function.
#[derive(Debug)]
pub struct FrontDisplayBlock {
    pub spi: u8,
    pub pin_cs: Pin,
    pub pin_reset: Pin,
    pub pin_dc: Pin,
    pub pin_mosi: Pin,
    pub pin_clk: Pin,
    pub pin_miso: Pin,
    pub pin_backlight: Pin,
}

impl FrontDisplayBlock {
    /// The hard-wired mapping of electrical functions to pin identities.
    pub open spec fn wf(self) -> bool {
        &&& self.spi == FRONT_DISPLAY_BUS_UNIT
        &&& self.pin_cs.id == 10
        &&& self.pin_reset.id == 9
        &&& self.pin_dc.id == 4
        &&& self.pin_mosi.id == 11
        &&& self.pin_clk.id == 12
        &&& self.pin_miso.id == 13
        &&& self.pin_backlight.id == 14
    }
}

/// The inbound capability record: every peripheral this device uses,
/// packaged by function. Produced once, from the singleton set.
#[derive(Debug)]
pub struct HBeePeripherals {
    pub front_display: FrontDisplayBlock,
}

impl HBeePeripherals {
    pub open spec fn wf(self) -> bool {
        self.front_display.wf()
    }
}

impl From<Peripherals> for HBeePeripherals {
    /// Packages the raw peripheral set into the capability record, assigning
    /// each electrical function its hard-wired pin.
    fn from(p: Peripherals) -> (r: HBeePeripherals) {
        let front_display = FrontDisplayBlock {
            spi: p.spi2,
            pin_cs: p.gpio10,
            pin_reset: p.gpio9,
            pin_dc: p.gpio4,
            pin_mosi: p.gpio11,
            pin_clk: p.gpio12,
            pin_miso: p.gpio13,
            pin_backlight: p.gpio14,
        };
        HBeePeripherals { front_display }
    }
}

impl vstd::std_specs::convert::FromSpecImpl<Peripherals> for HBeePeripherals {
    open spec fn obeys_from_spec() -> bool {
        true
    }

    open spec fn from_spec(p: Peripherals) -> HBeePeripherals {
        HBeePeripherals {
            front_display: FrontDisplayBlock {
                spi: p.spi2,
                pin_cs: p.gpio10,
                pin_reset: p.gpio9,
                pin_dc: p.gpio4,
                pin_mosi: p.gpio11,
                pin_clk: p.gpio12,
                pin_miso: p.gpio13,
                pin_backlight: p.gpio14,
            },
        }
    }
}

/// Classified device fault, consumed once by the supervisor.
///
/// A pin-level platform fault keeps its numeric cause code. A controller
/// protocol fault during bring-up carries no further detail: the bus-level
/// cause is not observable at that boundary, a deliberate information loss.
#[derive(Clone, Copy, Debug, PartialEq, Eq, Structural)]
pub enum AppError {
    /// Platform-level fault, with the platform's numeric cause code.
    EspError(i32),
    /// Fault raised by the display controller's draw path.
    DisplayError,
    /// Fault raised by the glyph renderer while drawing text.
    FontError,
    /// The UI toolkit failed to bring its platform up.
    PlatformError,
    /// The UI toolkit rejected the platform registration.
    SetPlatformError,
}

/// Fault while registering this device as the UI toolkit's platform.
/// Surfaced at startup only, and fatal.
#[derive(Clone, Copy, Debug, PartialEq, Eq, Structural)]
pub enum UIInitError {
    PlatformError,
    SetPlatformError,
}

/// The device-wide classification of a UI startup fault.
pub open spec fn app_error_of_ui(value: UIInitError) -> AppError {
    match value {
        UIInitError::PlatformError => AppError::PlatformError,
        UIInitError::SetPlatformError => AppError::SetPlatformError,
    }
}

impl From<UIInitError> for AppError {
    /// Re-classifies a UI startup fault under the device-wide taxonomy.
    fn from(value: UIInitError) -> (r: AppError) {
        match value {
            UIInitError::PlatformError => AppError::PlatformError,
            UIInitError::SetPlatformError => AppError::SetPlatformError,
        }
    }
}

impl vstd::std_specs::convert::FromSpecImpl<UIInitError> for AppError {
    open spec fn obeys_from_spec() -> bool {
        true
    }

    open spec fn from_spec(value: UIInitError) -> AppError {
        app_error_of_ui(value)
    }
}

/// Health readings of the device itself. Absent is a first-class value:
/// a missing reading is never reported as zero.
#[derive(Clone, Copy, Debug)]
pub struct DeviceCondition {
    pub gsm_signal_strength: Option<i16>,
    pub battery_level: Option<u8>,
}

impl Default for DeviceCondition {
    fn default() -> (r: DeviceCondition)
        ensures
            r.gsm_signal_strength is None,
            r.battery_level is None,
    {
        DeviceCondition { gsm_signal_strength: None, battery_level: None }
    }
}

/// Relies on `fastrand::u16`: draws a value uniformly from the given
/// half-open range; panics only when the range is empty.
#[verifier::external_body]
fn random_u16_in(lo: u16, hi: u16) -> (r: u16)
    requires
        lo < hi,
    ensures
        lo <= r < hi,
{
    fastrand::u16(lo..hi)
}

/// Relies on `fastrand::u8`: draws a value uniformly from the given
/// half-open range; panics only when the range is empty.
#[verifier::external_body]
fn random_u8_in(lo: u8, hi: u8) -> (r: u8)
    requires
        lo < hi,
    ensures
        lo <= r < hi,
{
    fastrand::u8(lo..hi)
}

/// One refresh tick's worth of solution readings. Every field is optional:
/// absent is a first-class value, distinct from zero, and the presence flag
/// stays authoritative all the way to the rendered and serialized forms.
///
/// Fractional readings are carried as scaled integers: `power_of_hydrogen`
/// and `solution_temperature` are in tenths of a pH unit and tenths of a
/// degree, the other fields in whole units.
#[derive(Clone, Copy, Debug)]
pub struct SensorDataMessage {
    /// Conductivity of the solution, in microsiemens per centimetre.
    pub electrical_conductivity: Option<u16>,
    /// Resistivity of the solution, in ohm-centimetres.
    pub electrical_resistivity: Option<u16>,
    /// Acidity, in tenths of a pH unit.
    pub power_of_hydrogen: Option<u8>,
    /// Solution temperature, in tenths of a degree Celsius.
    pub solution_temperature: Option<u16>,
    /// Total dissolved solids, in parts per million.
    pub total_dissolved_solids: Option<u16>,
    /// Salinity, in milligrams per litre.
    pub solution_salinity: Option<u16>,
}

impl Default for SensorDataMessage {
    fn default() -> (r: SensorDataMessage)
        ensures
            r.electrical_conductivity is None,
            r.electrical_resistivity is None,
            r.power_of_hydrogen is None,
            r.solution_temperature is None,
            r.total_dissolved_solids is None,
            r.solution_salinity is None,
    {
        SensorDataMessage {
            electrical_conductivity: None,
            electrical_resistivity: None,
            power_of_hydrogen: None,
            solution_temperature: None,
            total_dissolved_solids: None,
            solution_salinity: None,
        }
    }
}

impl SensorDataMessage {
    /// Every present reading lies inside its declared domain range.
    pub open spec fn wf(self) -> bool {
        &&& (self.electrical_conductivity matches Some(v) ==> 1000 <= v < 2000)
        &&& (self.power_of_hydrogen matches Some(v) ==> 40 <= v < 80)
        &&& (self.solution_temperature matches Some(v) ==> 200 <= v < 300)
        &&& (self.solution_salinity matches Some(v) ==> 1000 <= v < 2000)
    }

    /// The fields the randomized source populates: conductivity, salinity,
    /// acidity and temperature are present, the rest intentionally omitted.
    pub open spec fn randomized(self) -> bool {
        &&& self.electrical_conductivity is Some
        &&& self.power_of_hydrogen is Some
        &&& self.solution_temperature is Some
        &&& self.solution_salinity is Some
    }

    /// Draws a fresh message with every populated field inside its declared
    /// range; resistivity and total dissolved solids stay absent.
    pub fn new_random() -> (r: SensorDataMessage)
        ensures
            r.wf(),
            r.randomized(),
            r.electrical_resistivity is None,
            r.total_dissolved_solids is None,
    {
        let electrical_conductivity = Some(random_u16_in(1000, 2000));
        let solution_salinity = Some(random_u16_in(1000, 2000));
        let power_of_hydrogen = Some(random_u8_in(40, 80));
        let solution_temperature = Some(random_u16_in(200, 300));
        SensorDataMessage {
            electrical_conductivity,
            solution_salinity,
            power_of_hydrogen,
            solution_temperature,
            ..Default::default()
        }
    }

    /// Replaces the four randomized readings wholesale; the intentionally
    /// absent fields are left untouched.
    pub fn regen_random(&mut self)
        ensures
            final(self).wf(),
            final(self).randomized(),
            final(self).electrical_resistivity == old(self).electrical_resistivity,
            final(self).total_dissolved_solids == old(self).total_dissolved_solids,
    {
        self.electrical_conductivity = Some(random_u16_in(1000, 2000));
        self.solution_salinity = Some(random_u16_in(1000, 2000));
        self.power_of_hydrogen = Some(random_u8_in(40, 80));
        self.solution_temperature = Some(random_u16_in(200, 300));
    }
}

/// Static identity of this device.
#[derive(Clone, Debug)]
pub struct AppConfig {
    pub serial_number: String,
    pub farm_codename: String,
}

impl Default for AppConfig {
    fn default() -> (r: AppConfig)
        ensures
            r.serial_number@.len() == 0,
            r.farm_codename@.len() == 0,
    {
        AppConfig { serial_number: String::new(), farm_codename: String::new() }
    }
}

} // verus!
