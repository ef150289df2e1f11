//! Bing wallpaper request parameters.
use vstd::prelude::*;
use crate::error::AppError;
use crate::text::{chars_of, string_of};

verus! {

/// Validates the wallpaper count `n` (1 when absent, 1..=8) and start index
/// `idx` (0 when absent, at most 7), in that order.
pub fn wallpaper_counts(n: Option<u8>, idx: Option<u8>) -> (res: Result<(u8, u8), AppError>)
    ensures
        ({
            let nn: u8 = match n {
                Some(x) => x,
                None => 1,
            };
            let ii: u8 = match idx {
                Some(x) => x,
                None => 0,
            };
            if !(1 <= nn <= 8) {
                res matches Err(AppError::BadRequest(m)) && m@ == "n must be between 1 and 8"@
            } else if ii > 7 {
                res matches Err(AppError::BadRequest(m)) && m@ == "idx must be between 0 and 7"@
            } else {
                res == Ok::<(u8, u8), AppError>((nn, ii))
            }
        }),
{
    let nn: u8 = match n {
        Some(x) => x,
        None => 1,
    };
    if !(1 <= nn && nn <= 8) {
        return Err(AppError::BadRequest(string_of(&chars_of("n must be between 1 and 8"))));
    }
    let ii: u8 = match idx {
        Some(x) => x,
        None => 0,
    };
    if ii > 7 {
        return Err(AppError::BadRequest(string_of(&chars_of("idx must be between 0 and 7"))));
    }
    Ok((nn, ii))
}

} // verus!
