use vstd::prelude::*;
use crate::error::ErrorCode;

verus! {

/// Daily reward rate, in percent, of each tier of the ladder; `None` off the ladder.
/// Tier 9 has no entry.
pub open spec fn ladder_rate(level: u8) -> Option<u8> {
    if level <= 8 {
        Some((level + 4) as u8)
    } else if level == 10 {
        Some(14u8)
    } else {
        None
    }
}

/// Display name of a tier; "Unknown" off the ladder.
pub open spec fn ladder_name(level: u8) -> Seq<char> {
    if level == 0 {
        "Earth"@
    } else if level == 1 {
        "Moon"@
    } else if level == 2 {
        "Mercury"@
    } else if level == 3 {
        "Venus"@
    } else if level == 4 {
        "Mars"@
    } else if level == 5 {
        "Jupiter"@
    } else if level == 6 {
        "Saturn"@
    } else if level == 7 {
        "Uranus"@
    } else if level == 8 {
        "Neptune"@
    } else if level == 10 {
        "Sun"@
    } else {
        "Unknown"@
    }
}

/// Daily reward rate of a tier, or `InvalidCompoundLevel` for a tier off the ladder.
pub fn get_reward_for_level(compound_level: u8) -> (r: Result<u8, ErrorCode>)
    ensures
        match ladder_rate(compound_level) {
            Some(rate) => r == Ok::<u8, ErrorCode>(rate),
            None => r == Err::<u8, ErrorCode>(ErrorCode::InvalidCompoundLevel),
        },
{
    match compound_level {
        0 => Ok(4),
        1 => Ok(5),
        2 => Ok(6),
        3 => Ok(7),
        4 => Ok(8),
        5 => Ok(9),
        6 => Ok(10),
        7 => Ok(11),
        8 => Ok(12),
        10 => Ok(14),
        _ => Err(ErrorCode::InvalidCompoundLevel),
    }
}

/// Display name of a tier.
pub fn get_planet_name_for_level(compound_level: u8) -> (r: String)
    ensures
        r@ == ladder_name(compound_level),
{
    match compound_level {
        0 => "Earth".to_string(),
        1 => "Moon".to_string(),
        2 => "Mercury".to_string(),
        3 => "Venus".to_string(),
        4 => "Mars".to_string(),
        5 => "Jupiter".to_string(),
        6 => "Saturn".to_string(),
        7 => "Uranus".to_string(),
        8 => "Neptune".to_string(),
        10 => "Sun".to_string(),
        _ => "Unknown".to_string(),
    }
}

} // verus!
