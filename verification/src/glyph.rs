//! Glyph codes of the terminal font.

use vstd::prelude::*;

verus! {

/// The code-page-437 code that the renderer's font table gives to a
/// character. The table has more than two hundred entries; it is not written
/// out here.
pub uninterp spec fn cp437_code(c: char) -> u8;

/// Code of the glyph at which the local player is drawn: the character `@`.
pub const PLAYER_GLYPH: u8 = 64;

/// Looks a character up in the renderer's font table.
///
/// Trusted: the body calls `rltk::to_cp437`, a pure table lookup that returns
/// 0 for a character without an entry. The contract only gives the result
/// its name.
#[verifier::external_body]
pub(crate) fn cp437(c: char) -> (code: u8)
    ensures
        code == cp437_code(c),
{
    rltk::to_cp437(c)
}

} // verus!
