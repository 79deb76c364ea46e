//! The textures and fonts of the game, and the choice of the interface font.

use vstd::prelude::*;

use macroquad::text::Font;
use macroquad::texture::Texture2D;

verus! {

/// A font loaded for the GPU by macroquad; opaque here, only carried around.
#[verifier::external_type_specification]
#[verifier::external_body]
pub struct ExFont(macroquad::text::Font);

/// A texture in GPU memory, from macroquad; opaque here, only carried around.
#[verifier::external_type_specification]
#[verifier::external_body]
pub struct ExTexture2D(macroquad::texture::Texture2D);

/// The sprite sheets and the four interface fonts.
pub struct Assets {
    pub player: Texture2D,
    pub enemy: Texture2D,
    pub phone: Texture2D,
    pub weapons: Texture2D,
    pub font_pixelify: Font,
    pub font_press_start_2p: Font,
    pub font_times_new_roman: Font,
    pub font_tiny5: Font,
}

/// The name under which font `idx` is listed in the settings: 1, 2 and 3
/// name the three optional fonts; every other index is the default, Tiny 5.
pub open spec fn font_name_of(idx: usize) -> Seq<char> {
    if idx == 1 {
        "PIXELIFY"@
    } else if idx == 2 {
        "PRESS START 2P"@
    } else if idx == 3 {
        "TIMES NEW ROMAN"@
    } else {
        "TINY 5"@
    }
}

impl Assets {
    /// The font with index `idx`: 1 Pixelify, 2 Press Start 2P, 3 Times New
    /// Roman; every other index gives the default font, Tiny 5.
    pub open spec fn font_of(&self, idx: usize) -> Font {
        if idx == 1 {
            self.font_pixelify
        } else if idx == 2 {
            self.font_press_start_2p
        } else if idx == 3 {
            self.font_times_new_roman
        } else {
            self.font_tiny5
        }
    }

    /// The interface font with index `idx` (see `font_of`).
    pub fn get_font(&self, idx: usize) -> (f: &Font)
        ensures
            *f == self.font_of(idx),
    {
        match idx {
            1 => &self.font_pixelify,
            2 => &self.font_press_start_2p,
            3 => &self.font_times_new_roman,
            _ => &self.font_tiny5,
        }
    }

    /// The name of font `idx` as the settings menu shows it (see `font_name_of`).
    pub fn get_font_name(&self, idx: usize) -> (name: &str)
        ensures
            name@ == font_name_of(idx),
    {
        match idx {
            1 => "PIXELIFY",
            2 => "PRESS START 2P",
            3 => "TIMES NEW ROMAN",
            _ => "TINY 5",
        }
    }
}

/// Indices 1, 2 and 3 name three different fonts, and every other index
/// names the default one, different from all three; the font of an index
/// is the one its name says.
pub proof fn lemma_font_choice(a: Assets, idx: usize)
    ensures
        idx != 1 && idx != 2 && idx != 3 ==> font_name_of(idx) == font_name_of(0) && a.font_of(idx)
            == a.font_tiny5,
        idx == 1 ==> a.font_of(idx) == a.font_pixelify,
        idx == 2 ==> a.font_of(idx) == a.font_press_start_2p,
        idx == 3 ==> a.font_of(idx) == a.font_times_new_roman,
        font_name_of(0).len() == 6,
        font_name_of(1).len() == 8,
        font_name_of(2).len() == 14,
        font_name_of(3).len() == 15,
{
    reveal_strlit("TINY 5");
    reveal_strlit("PIXELIFY");
    reveal_strlit("PRESS START 2P");
    reveal_strlit("TIMES NEW ROMAN");
}

} // verus!
