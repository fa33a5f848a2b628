//! The intro screen: what the panel shows before the first sensor frame.
//!
//! Glyph rasterization belongs to the external font renderer; this module
//! fixes the background the frame is cleared to and the exact text the
//! renderer is handed.

use vstd::prelude::*;

use crate::types::AppConfig;
use crate::ui::PanelFrame;

verus! {

/// Packed 5-6-5 word of the intro screen's gray background.
pub const INTRO_BACKGROUND: u16 = 0x8410;

/// Packed 5-6-5 word of the intro text color, a full cyan.
pub const INTRO_TEXT_COLOR: u16 = 0x07ff;

/// The three intro lines: the device name, then the serial number and the
/// farm codename behind their labels.
pub fn intro_lines(config: &AppConfig) -> (lines: Vec<String>)
    ensures
        lines@.len() == 3,
        lines@[0]@ == "HBee"@,
        lines@[1]@ == "Số sê-ri: "@ + config.serial_number@,
        lines@[2]@ == "Trang trại: "@ + config.farm_codename@,
{
    let mut lines: Vec<String> = Vec::new();
    lines.push(String::from_str("HBee"));
    let mut serial = String::from_str("Số sê-ri: ");
    serial.append(config.serial_number.as_str());
    lines.push(serial);
    let mut farm = String::from_str("Trang trại: ");
    farm.append(config.farm_codename.as_str());
    lines.push(farm);
    lines
}

/// The intro lines joined to the one block of text the font renderer draws.
pub fn intro_text(config: &AppConfig) -> (text: String)
    ensures
        text@ == "HBee"@ + "\n"@ + "Số sê-ri: "@ + config.serial_number@ + "\n"@
            + "Trang trại: "@ + config.farm_codename@,
{
    let mut text = String::from_str("HBee");
    text.append("\n");
    text.append("Số sê-ri: ");
    text.append(config.serial_number.as_str());
    text.append("\n");
    text.append("Trang trại: ");
    text.append(config.farm_codename.as_str());
    proof {
        assert(text@ =~= "HBee"@ + "\n"@ + "Số sê-ri: "@ + config.serial_number@ + "\n"@
            + "Trang trại: "@ + config.farm_codename@);
    }
    text
}

/// Prepares the intro screen: clears the whole frame to the gray background
/// and hands back the text block the font renderer is to draw on it.
pub fn show_intro(frame: &mut PanelFrame, config: &AppConfig) -> (text: String)
    requires
        old(frame).wf(),
    ensures
        final(frame).wf(),
        final(frame).spec_width() == old(frame).spec_width(),
        final(frame).spec_height() == old(frame).spec_height(),
        forall|x: int, y: int|
            0 <= x < old(frame).spec_width() && 0 <= y < old(frame).spec_height()
                ==> final(frame).word_at(x, y) == INTRO_BACKGROUND,
        text@ == "HBee"@ + "\n"@ + "Số sê-ri: "@ + config.serial_number@ + "\n"@
            + "Trang trại: "@ + config.farm_codename@,
{
    frame.clear(INTRO_BACKGROUND);
    intro_text(config)
}

} // verus!
