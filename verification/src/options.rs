//! Telnet option codes used by MUD servers, and the names they go by.
use vstd::prelude::*;

verus! {

/// Telnet's terminal-type option (RFC 1091).
pub const TTYPE: u8 = 24;

pub const MSLP: u8 = 68;
pub const MSDP: u8 = 69;
pub const MSSP: u8 = 70;
pub const MCCP1: u8 = 85;
pub const MCCP2: u8 = 86;
pub const MCCP3: u8 = 87;
pub const MSP: u8 = 90;
pub const MXP: u8 = 91;
pub const AARDWOLF102: u8 = 102;
pub const ATCP: u8 = 200;
pub const GMCP: u8 = 201;

/// True of the option codes that `str_of_mud_option` can name.
pub open spec fn is_mud_option(b: u8) -> bool {
    b == MSLP || b == MSDP || b == MSSP || b == MCCP1 || b == MCCP2 || b == MCCP3 || b == MSP
        || b == MXP || b == AARDWOLF102 || b == ATCP || b == GMCP
}

/// The display name of a known MUD option code.
pub open spec fn spec_mud_option_name(b: u8) -> Seq<char> {
    if b == MSLP {
        "MSLP"@
    } else if b == MSDP {
        "MSDP"@
    } else if b == MSSP {
        "MSSP"@
    } else if b == MCCP1 {
        "MCCP1"@
    } else if b == MCCP2 {
        "MCCP2"@
    } else if b == MCCP3 {
        "MCCP3"@
    } else if b == MSP {
        "MSP"@
    } else if b == MXP {
        "MXP"@
    } else if b == AARDWOLF102 {
        "AARDWOLF's 102 channel"@
    } else if b == ATCP {
        "ATCP"@
    } else {
        "GMCP"@
    }
}

/// Names a MUD option code, or reports it unknown.
pub fn str_of_mud_option(b: u8) -> (r: Result<&'static str, crate::error::TnError>)
    ensures
        match r {
            Ok(name) => is_mud_option(b) && name@ == spec_mud_option_name(b),
            Err(e) => !is_mud_option(b) && e == crate::error::TnError::UnknownOption(b),
        },
{
    match b {
        MSLP => Ok("MSLP"),
        MSDP => Ok("MSDP"),
        MSSP => Ok("MSSP"),
        MCCP1 => Ok("MCCP1"),
        MCCP2 => Ok("MCCP2"),
        MCCP3 => Ok("MCCP3"),
        MSP => Ok("MSP"),
        MXP => Ok("MXP"),
        AARDWOLF102 => Ok("AARDWOLF's 102 channel"),
        ATCP => Ok("ATCP"),
        GMCP => Ok("GMCP"),
        _ => Err(crate::error::TnError::UnknownOption(b)),
    }
}

} // verus!
