//! The performance overlay drawn over the game.

use vstd::prelude::*;
use vstd::std_specs::convert::FromSpecImpl;
use vstd::std_specs::convert::TryFromSpecImpl;
use vstd::string::StringExecFns;

verus! {

/// Which overlay, if any, is shown.
#[derive(Clone, Copy, Debug, PartialEq, Eq, Structural)]
pub enum WineHUD {
    Off,
    DXVK,
    MangoHUD,
}

/// The number a choice of overlay is stored under.
pub open spec fn hud_index(hud: WineHUD) -> u32 {
    match hud {
        WineHUD::Off => 0,
        WineHUD::DXVK => 1,
        WineHUD::MangoHUD => 2,
    }
}

/// The choice of overlay a number stands for, if it stands for one.
pub open spec fn hud_from_index(index: u32) -> Option<WineHUD> {
    if index == 0 {
        Some(WineHUD::Off)
    } else if index == 1 {
        Some(WineHUD::DXVK)
    } else if index == 2 {
        Some(WineHUD::MangoHUD)
    } else {
        None
    }
}

impl Default for WineHUD {
    fn default() -> (hud: WineHUD)
        ensures
            hud == WineHUD::Off,
    {
        WineHUD::Off
    }
}

impl TryFrom<u32> for WineHUD {
    type Error = String;

    fn try_from(value: u32) -> (converted: Result<WineHUD, String>)
        ensures
            match converted {
                Ok(hud) => hud_from_index(value) == Some(hud),
                Err(message) => hud_from_index(value) is None
                    && message@ == "Failed to convert number to HUD enum"@,
            },
    {
        match value {
            0 => Ok(WineHUD::Off),
            1 => Ok(WineHUD::DXVK),
            2 => Ok(WineHUD::MangoHUD),
            _ => Err(String::from_str("Failed to convert number to HUD enum")),
        }
    }
}

/// A refusal is a `String`, and an equation between results would ask two
/// strings of the same text to be one value. So what `try_from` returns is
/// told by its own contract, over the text of the refusal, and not by an
/// equation.
impl TryFromSpecImpl<u32> for WineHUD {
    open spec fn obeys_try_from_spec() -> bool {
        false
    }

    open spec fn try_from_spec(value: u32) -> Result<WineHUD, String> {
        arbitrary()
    }
}

impl From<WineHUD> for u32 {
    fn from(hud: WineHUD) -> (index: u32)
        ensures
            index == hud_index(hud),
    {
        match hud {
            WineHUD::Off => 0,
            WineHUD::DXVK => 1,
            WineHUD::MangoHUD => 2,
        }
    }
}

impl FromSpecImpl<WineHUD> for u32 {
    open spec fn obeys_from_spec() -> bool {
        true
    }

    open spec fn from_spec(hud: WineHUD) -> u32 {
        hud_index(hud)
    }
}

/// Every choice is read back from the number it is stored under, and no
/// other number stands for a choice.
pub proof fn lemma_hud_index_round_trip(hud: WineHUD, index: u32)
    ensures
        hud_from_index(hud_index(hud)) == Some(hud),
        hud_from_index(index) == Some(hud) <==> index == hud_index(hud),
        hud_from_index(index) is Some <==> index <= 2,
{
}

} // verus!
