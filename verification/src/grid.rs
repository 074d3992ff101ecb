//! Maidenhead locator naming: the letter and digit designations of grid
//! fields and squares. Drawing the grid itself is rendering work and stays
//! with the caller.

use vstd::prelude::*;

use crate::strfmt::{dec_digit, digit_str, push_char};

verus! {

/// Maidenhead grid renderer: names grid fields and squares.
pub struct MaidenheadGridRenderer;

/// The field letter for a coordinate index: `A` plus the index, eighteen
/// letters around in longitude, nine in latitude.
pub open spec fn spec_field_letter(index: u32, base: u32) -> char {
    ((65 + index % base) as u8) as char
}

impl MaidenheadGridRenderer {
    /// Letter designation of a field: longitude letter (A-R), latitude
    /// letter (A-I).
    pub fn field_to_string(lon_field: u32, lat_field: u32) -> (r: String)
        ensures
            r@ == seq![spec_field_letter(lon_field, 18), spec_field_letter(lat_field, 9)],
    {
        let mut r = String::new();
        push_char(&mut r, ((65 + lon_field % 18) as u8) as char);
        push_char(&mut r, ((65 + lat_field % 9) as u8) as char);
        proof {
            assert(r@ =~= seq![spec_field_letter(lon_field, 18), spec_field_letter(lat_field, 9)]);
        }
        r
    }

    /// Locator of a square: the field letters followed by the square
    /// digits (`JE35`).
    pub fn square_to_string(lon_field: u32, lat_field: u32, lon_square: u32, lat_square: u32) -> (r:
        String)
        ensures
            r@ == seq![
                spec_field_letter(lon_field, 18),
                spec_field_letter(lat_field, 9),
                dec_digit((lon_square % 10) as nat),
                dec_digit((lat_square % 10) as nat),
            ],
    {
        let mut r = Self::field_to_string(lon_field, lat_field);
        r.append(digit_str((lon_square % 10) as u64));
        r.append(digit_str((lat_square % 10) as u64));
        proof {
            assert(r@ =~= seq![
                spec_field_letter(lon_field, 18),
                spec_field_letter(lat_field, 9),
                dec_digit((lon_square % 10) as nat),
                dec_digit((lat_square % 10) as nat),
            ]);
        }
        r
    }
}

} // verus!
