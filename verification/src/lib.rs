pub mod direction;
pub mod grid;
pub mod laws;
pub mod snake;
pub mod spawn;
pub mod save;
pub mod world;

use vstd::prelude::*;

verus! {

/// Packs three 8-bit colour channels into one `0x00RRGGBB` word.
pub fn rgb(red: u8, green: u8, blue: u8) -> (colour: u32)
    ensures
        colour == red * 0x1_0000 + green * 0x100 + blue,
{
    let a = red as u32;
    let b: u32 = green as u32;
    let c = blue as u32;

    let new_red = a * 0x1_0000;
    let new_green = b * 0x100;

    new_red + new_green + c
}

} // verus!
