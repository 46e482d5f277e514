//! What the keys of the console do.
use vstd::prelude::*;

use crate::global_state::OperationMode;

verus! {

/// What a key asks for.
#[derive(Debug, Clone, Copy, PartialEq, Eq, Structural)]
pub struct KeyPress {
    /// The power converter is to be switched off first
    pub disable_pre: bool,
    /// The mode to ask for
    pub mode: OperationMode,
}

/// What a key asks for: `s` to stop, `d` for load matching, `c` for a charge,
/// `q` to quit. No other key does anything.
pub open spec fn key_meaning(key: u8) -> Option<KeyPress> {
    if key == 's' as u8 {
        Some(KeyPress { disable_pre: true, mode: OperationMode::Idle })
    } else if key == 'd' as u8 {
        Some(KeyPress { disable_pre: false, mode: OperationMode::V2h })
    } else if key == 'c' as u8 {
        Some(KeyPress { disable_pre: false, mode: OperationMode::Charge })
    } else if key == 'q' as u8 {
        Some(KeyPress { disable_pre: true, mode: OperationMode::Quit })
    } else {
        None
    }
}

/// What the key with the given code asks for.
pub fn scan_kb(key: u8) -> (r: Option<KeyPress>)
    ensures
        r == key_meaning(key),
{
    match key {
        115 => Some(KeyPress { disable_pre: true, mode: OperationMode::Idle }),
        100 => Some(KeyPress { disable_pre: false, mode: OperationMode::V2h }),
        99 => Some(KeyPress { disable_pre: false, mode: OperationMode::Charge }),
        113 => Some(KeyPress { disable_pre: true, mode: OperationMode::Quit }),
        _ => None,
    }
}

/// Every key that stops the charger switches the power converter off, and no
/// other key does.
pub proof fn law_stopping_disables_the_converter(key: u8)
    ensures
        key_meaning(key) matches Some(press) ==> (press.disable_pre <==> press.mode.inactive()),
{
}

/// Four keys do something, each another thing: `s` stops, `d` starts load
/// matching, `c` a charge, and `q` quits. Capital letters do nothing.
pub proof fn law_four_keys_do_something(key: u8, r: Option<KeyPress>)
    requires
        call_ensures(scan_kb, (key,), r),
    ensures
        key == 0x73 <==> (r matches Some(press) && press.mode
            == OperationMode::Idle),
        key == 0x64 <==> (r matches Some(press) && press.mode
            == OperationMode::V2h),
        key == 0x63 <==> (r matches Some(press) && press.mode
            == OperationMode::Charge),
        key == 0x71 <==> (r matches Some(press) && press.mode
            == OperationMode::Quit),
        r matches Some(press) ==> (press.disable_pre <==> press.mode == OperationMode::Idle
            || press.mode == OperationMode::Quit),
        r is Some <==> key == 0x73 || key == 0x64 || key == 0x63 || key == 0x71,
{
}

} // verus!
