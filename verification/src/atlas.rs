//! The font atlas: the texture that holds the glyphs, as four bytes a pixel.
//!
//! A frame may bring new or changed textures. The first of them that can
//! serve as an atlas is converted to red, green, blue, alpha bytes, row by
//! row. A texture can serve if neither side is zero, both sides fit in 32
//! bits, and it holds exactly width times height pixels.

use vstd::prelude::*;
use crate::vertex::Rgba;

verus! {

/// A texture of one channel: how much of each pixel a glyph covers, from 0
/// (nothing) to 255 (all of it).
#[derive(Clone, Debug, PartialEq, Eq)]
pub struct FontImage {
    pub width: usize,
    pub height: usize,
    pub pixels: Vec<u8>,
}

/// A texture of four channels.
#[derive(Clone, Debug, PartialEq, Eq)]
pub struct ColorImage {
    pub width: usize,
    pub height: usize,
    pub pixels: Vec<Rgba>,
}

/// A texture that a frame brings.
#[derive(Clone, Debug, PartialEq, Eq)]
pub enum ImageData {
    Color(ColorImage),
    Font(FontImage),
}

/// What a font atlas holds: its sides, and four bytes for each pixel.
pub struct AtlasModel {
    pub width: u32,
    pub height: u32,
    pub pixels: Seq<u8>,
}

impl AtlasModel {
    /// The sides are not zero, and there are four bytes for each pixel.
    pub open spec fn complete(self) -> bool {
        &&& self.width > 0
        &&& self.height > 0
        &&& self.pixels.len() == 4 * (self.width * self.height)
    }
}

/// A texture of these sides and this many pixels can serve as an atlas.
pub open spec fn usable(width: usize, height: usize, count: nat) -> bool {
    &&& 0 < width <= u32::MAX
    &&& 0 < height <= u32::MAX
    &&& width * height == count
}

/// Coverage as pixel bytes: white, with the coverage as alpha.
pub open spec fn coverage_bytes(coverage: Seq<u8>) -> Seq<u8> {
    Seq::new(
        4 * coverage.len(),
        |k: int|
            if k % 4 == 3 {
                coverage[k / 4]
            } else {
                255u8
            },
    )
}

/// Channel `k` of a colour, counted red, green, blue, alpha.
pub open spec fn channel(color: Rgba, k: int) -> u8 {
    if k == 0 {
        color.r
    } else if k == 1 {
        color.g
    } else if k == 2 {
        color.b
    } else {
        color.a
    }
}

/// Colours as pixel bytes: the four channels of each, in their order.
pub open spec fn color_bytes(pixels: Seq<Rgba>) -> Seq<u8> {
    Seq::new(4 * pixels.len(), |k: int| channel(pixels[k / 4], k % 4))
}

impl ImageData {
    /// The atlas that this texture makes, if it can serve as one.
    pub open spec fn as_atlas(self) -> Option<AtlasModel> {
        match self {
            ImageData::Font(image) => if usable(image.width, image.height, image.pixels@.len()) {
                Some(
                    AtlasModel {
                        width: image.width as u32,
                        height: image.height as u32,
                        pixels: coverage_bytes(image.pixels@),
                    },
                )
            } else {
                None
            },
            ImageData::Color(image) => if usable(image.width, image.height, image.pixels@.len()) {
                Some(
                    AtlasModel {
                        width: image.width as u32,
                        height: image.height as u32,
                        pixels: color_bytes(image.pixels@),
                    },
                )
            } else {
                None
            },
        }
    }
}

/// The atlas of the first texture, from place `from` on, that can serve as
/// one.
pub open spec fn first_atlas_from(textures: Seq<ImageData>, from: nat) -> Option<AtlasModel>
    decreases textures.len() - from,
{
    if from >= textures.len() {
        None
    } else if textures[from as int].as_atlas().is_some() {
        textures[from as int].as_atlas()
    } else {
        first_atlas_from(textures, from + 1)
    }
}

/// The atlas of the first texture that can serve as one.
pub open spec fn first_atlas(textures: Seq<ImageData>) -> Option<AtlasModel> {
    first_atlas_from(textures, 0)
}

/// The atlas found is that of a texture before which none can serve, and
/// none is found only where no texture can serve. Every atlas found is
/// complete.
pub proof fn lemma_first_atlas_is_earliest(textures: Seq<ImageData>, from: nat)
    ensures
        match first_atlas_from(textures, from) {
            Some(atlas) => atlas.complete() && exists|i: int|
                from <= i < textures.len() && #[trigger] textures[i].as_atlas() == Some(atlas)
                    && forall|j: int| from <= j < i ==> (#[trigger] textures[j].as_atlas()).is_none(),
            None => forall|i: int|
                from <= i < textures.len() ==> (#[trigger] textures[i].as_atlas()).is_none(),
        },
    decreases textures.len() - from,
{
    if from < textures.len() {
        if textures[from as int].as_atlas().is_some() {
            lemma_as_atlas_complete(textures[from as int]);
        } else {
            lemma_first_atlas_is_earliest(textures, from + 1);
            match first_atlas_from(textures, from + 1) {
                Some(atlas) => {
                    let i = choose|i: int|
                        from + 1 <= i < textures.len() && #[trigger] textures[i].as_atlas() == Some(
                            atlas,
                        ) && forall|j: int|
                            from + 1 <= j < i ==> (#[trigger] textures[j].as_atlas()).is_none();
                    assert(from <= i < textures.len() && textures[i].as_atlas() == Some(atlas));
                },
                None => {},
            }
        }
    }
}

/// The atlas that a texture makes is complete.
pub proof fn lemma_as_atlas_complete(image: ImageData)
    ensures
        image.as_atlas().is_some() ==> image.as_atlas().unwrap().complete(),
{
}

/// A font atlas, once made, stays as it is.
pub struct FontAtlas {
    pixels: Vec<u8>,
    width: u32,
    height: u32,
}

impl View for FontAtlas {
    type V = AtlasModel;

    closed spec fn view(&self) -> AtlasModel {
        AtlasModel { width: self.width, height: self.height, pixels: self.pixels@ }
    }
}

impl FontAtlas {
    #[verifier::type_invariant]
    spec fn is_complete(self) -> bool {
        self@.complete()
    }

    /// The width in pixels, not zero.
    pub fn width(&self) -> (width: u32)
        ensures
            width == self@.width,
            self@.complete(),
    {
        proof {
            use_type_invariant(self);
        }
        self.width
    }

    /// The height in pixels, not zero.
    pub fn height(&self) -> (height: u32)
        ensures
            height == self@.height,
            self@.complete(),
    {
        proof {
            use_type_invariant(self);
        }
        self.height
    }

    /// The pixel bytes, row by row: four for each of width times height
    /// pixels.
    pub fn pixels(&self) -> (pixels: &Vec<u8>)
        ensures
            pixels@ == self@.pixels,
            self@.complete(),
    {
        proof {
            use_type_invariant(self);
        }
        &self.pixels
    }

    /// The atlas that a texture makes, if it can serve as one.
    pub fn from_image(image: &ImageData) -> (made: Option<FontAtlas>)
        ensures
            made.is_some() == image.as_atlas().is_some(),
            made.is_some() ==> made.unwrap()@ == image.as_atlas().unwrap(),
    {
        match image {
            ImageData::Font(font) => {
                if is_usable(font.width, font.height, font.pixels.len()) {
                    let pixels = expand_coverage(&font.pixels);
                    Some(FontAtlas { pixels, width: font.width as u32, height: font.height as u32 })
                } else {
                    None
                }
            },
            ImageData::Color(color) => {
                if is_usable(color.width, color.height, color.pixels.len()) {
                    let pixels = flatten_colors(&color.pixels);
                    Some(
                        FontAtlas { pixels, width: color.width as u32, height: color.height as u32 },
                    )
                } else {
                    None
                }
            },
        }
    }
}

/// Decides [`usable`].
pub fn is_usable(width: usize, height: usize, count: usize) -> (fits: bool)
    ensures
        fits == usable(width, height, count as nat),
{
    if width == 0 || height == 0 || width > 0xffff_ffff || height > 0xffff_ffff {
        return false;
    }
    let w: u64 = width as u64;
    let h: u64 = height as u64;
    assert(w * h <= 0xffff_ffff * 0xffff_ffff) by (nonlinear_arith)
        requires
            w <= 0xffff_ffff,
            h <= 0xffff_ffff,
    ;
    w * h == count as u64
}

/// Computes [`coverage_bytes`].
pub fn expand_coverage(coverage: &Vec<u8>) -> (bytes: Vec<u8>)
    ensures
        bytes@ == coverage_bytes(coverage@),
{
    let count: usize = coverage.len();
    let mut bytes: Vec<u8> = Vec::new();
    let mut i: usize = 0;
    while i < count
        invariant
            i <= count == coverage@.len(),
            bytes@.len() == 4 * i,
            forall|k: int| 0 <= k < 4 * i ==> #[trigger] bytes@[k] == coverage_bytes(coverage@)[k],
        decreases count - i,
    {
        let alpha: u8 = coverage[i];
        bytes.push(255);
        bytes.push(255);
        bytes.push(255);
        bytes.push(alpha);
        i = i + 1;
    }
    assert(bytes@ =~= coverage_bytes(coverage@));
    bytes
}

/// Computes [`color_bytes`].
pub fn flatten_colors(pixels: &Vec<Rgba>) -> (bytes: Vec<u8>)
    ensures
        bytes@ == color_bytes(pixels@),
{
    let count: usize = pixels.len();
    let mut bytes: Vec<u8> = Vec::new();
    let mut i: usize = 0;
    while i < count
        invariant
            i <= count == pixels@.len(),
            bytes@.len() == 4 * i,
            forall|k: int| 0 <= k < 4 * i ==> #[trigger] bytes@[k] == color_bytes(pixels@)[k],
        decreases count - i,
    {
        let color: Rgba = pixels[i];
        bytes.push(color.r);
        bytes.push(color.g);
        bytes.push(color.b);
        bytes.push(color.a);
        i = i + 1;
    }
    assert(bytes@ =~= color_bytes(pixels@));
    bytes
}

/// The atlas of the first texture that can serve as one: none where no
/// texture can serve, and otherwise the atlas of a texture before which none
/// can.
pub fn extract_font_atlas(textures: &Vec<ImageData>) -> (found: Option<FontAtlas>)
    ensures
        found.is_some() == first_atlas(textures@).is_some(),
        found.is_some() ==> found.unwrap()@ == first_atlas(textures@).unwrap(),
        match found {
            Some(atlas) => exists|i: int|
                0 <= i < textures@.len() && #[trigger] textures@[i].as_atlas() == Some(atlas@)
                    && forall|j: int| 0 <= j < i ==> (#[trigger] textures@[j].as_atlas()).is_none(),
            None => forall|i: int|
                0 <= i < textures@.len() ==> (#[trigger] textures@[i].as_atlas()).is_none(),
        },
{
    let count: usize = textures.len();
    let mut i: usize = 0;
    while i < count
        invariant
            i <= count == textures@.len(),
            first_atlas(textures@) == first_atlas_from(textures@, i as nat),
        decreases count - i,
    {
        let made = FontAtlas::from_image(&textures[i]);
        if made.is_some() {
            proof {
                lemma_first_atlas_is_earliest(textures@, 0);
            }
            return made;
        }
        i = i + 1;
    }
    proof {
        lemma_first_atlas_is_earliest(textures@, 0);
    }
    None
}

} // verus!
