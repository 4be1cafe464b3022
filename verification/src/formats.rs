//! Image container formats, the families of compressed textures, and the
//! choice of the families that a raster asset may later be compressed to.

use vstd::prelude::*;

verus! {

/// A container format of a bitmap.
#[derive(Clone, Copy, Debug, PartialEq, Eq, Structural)]
pub enum ImageFormat {
    Avif,
    Basis,
    Bmp,
    Dds,
    Farbfeld,
    Gif,
    OpenExr,
    Hdr,
    Ico,
    Jpeg,
    Ktx2,
    Png,
    Pnm,
    Tga,
    Tiff,
    WebP,
}

impl ImageFormat {
    /// Whether a file of this format can hold compressed textures. The three
    /// texture containers can; the plain bitmap formats cannot.
    pub open spec fn holds_compressed(self) -> bool {
        self == ImageFormat::Basis || self == ImageFormat::Dds || self == ImageFormat::Ktx2
    }

    /// Tells whether a file of this format can hold compressed textures.
    pub fn can_hold_compressed(&self) -> (b: bool)
        ensures
            b == self.holds_compressed(),
    {
        match self {
            ImageFormat::Basis | ImageFormat::Dds | ImageFormat::Ktx2 => true,
            _ => false,
        }
    }
}

/// How the format of a bitmap is to be found.
#[derive(Clone, Copy, Debug, PartialEq, Eq, Structural)]
pub enum ImageFormatSetting {
    /// By the extension of the file's name.
    FromExtension,
    /// It is the one given.
    Format(ImageFormat),
    /// By the first bytes of the file.
    Guess,
}

impl Default for ImageFormatSetting {
    fn default() -> (setting: Self)
        ensures
            setting == ImageFormatSetting::FromExtension,
    {
        ImageFormatSetting::FromExtension
    }
}

/// A family of compressed texture formats.
#[derive(Clone, Copy, Debug, PartialEq, Eq, Structural)]
pub enum CompressedFormat {
    AstcLdr,
    Bc,
    Etc2,
}

/// A set of families of compressed texture formats, one flag for each.
#[derive(Clone, Copy, Debug, PartialEq, Eq, Structural)]
pub struct CompressedImageFormats {
    pub astc_ldr: bool,
    pub bc: bool,
    pub etc2: bool,
}

impl View for CompressedImageFormats {
    type V = Set<CompressedFormat>;

    /// The families whose flags are set.
    open spec fn view(&self) -> Set<CompressedFormat> {
        Set::new(|family: CompressedFormat| self.has(family))
    }
}

impl CompressedImageFormats {
    /// Whether the flag of a family is set.
    pub open spec fn has(self, family: CompressedFormat) -> bool {
        match family {
            CompressedFormat::AstcLdr => self.astc_ldr,
            CompressedFormat::Bc => self.bc,
            CompressedFormat::Etc2 => self.etc2,
        }
    }

    /// The empty set.
    pub fn none() -> (formats: Self)
        ensures
            formats@ == Set::<CompressedFormat>::empty(),
            formats == (CompressedImageFormats { astc_ldr: false, bc: false, etc2: false }),
    {
        let formats = CompressedImageFormats { astc_ldr: false, bc: false, etc2: false };
        assert(formats@ =~= Set::<CompressedFormat>::empty());
        formats
    }

    /// The set of all three families.
    pub fn all() -> (formats: Self)
        ensures
            formats@ == Set::<CompressedFormat>::full(),
            formats == (CompressedImageFormats { astc_ldr: true, bc: true, etc2: true }),
    {
        let formats = CompressedImageFormats { astc_ldr: true, bc: true, etc2: true };
        assert(formats@ =~= Set::<CompressedFormat>::full());
        formats
    }

    /// The set that a device supports, from what it says of each family.
    pub fn from_features(astc_ldr: bool, bc: bool, etc2: bool) -> (formats: Self)
        ensures
            formats@.contains(CompressedFormat::AstcLdr) == astc_ldr,
            formats@.contains(CompressedFormat::Bc) == bc,
            formats@.contains(CompressedFormat::Etc2) == etc2,
    {
        CompressedImageFormats { astc_ldr, bc, etc2 }
    }

    /// Tells whether a family is in the set.
    pub fn contains(&self, family: CompressedFormat) -> (b: bool)
        ensures
            b == self@.contains(family),
    {
        match family {
            CompressedFormat::AstcLdr => self.astc_ldr,
            CompressedFormat::Bc => self.bc,
            CompressedFormat::Etc2 => self.etc2,
        }
    }

    /// Tells whether the set holds no family.
    pub fn is_empty(&self) -> (b: bool)
        ensures
            b == (self@ == Set::<CompressedFormat>::empty()),
    {
        let b = !self.astc_ldr && !self.bc && !self.etc2;
        proof {
            if b {
                assert(self@ =~= Set::<CompressedFormat>::empty());
            } else {
                assert(self@.contains(CompressedFormat::AstcLdr) || self@.contains(
                    CompressedFormat::Bc,
                ) || self@.contains(CompressedFormat::Etc2));
            }
        }
        b
    }

    /// The families that are in both sets.
    pub fn intersection(self, other: Self) -> (both: Self)
        ensures
            both@ == self@.intersect(other@),
    {
        let both = CompressedImageFormats {
            astc_ldr: self.astc_ldr && other.astc_ldr,
            bc: self.bc && other.bc,
            etc2: self.etc2 && other.etc2,
        };
        assert(both@ =~= self@.intersect(other@));
        both
    }
}

/// Two sets with the same families have the same flags.
pub proof fn lemma_formats_by_view(a: CompressedImageFormats, b: CompressedImageFormats)
    requires
        a@ == b@,
    ensures
        a == b,
{
    assert(a.astc_ldr == a@.contains(CompressedFormat::AstcLdr));
    assert(b.astc_ldr == b@.contains(CompressedFormat::AstcLdr));
    assert(a.bc == a@.contains(CompressedFormat::Bc));
    assert(b.bc == b@.contains(CompressedFormat::Bc));
    assert(a.etc2 == a@.contains(CompressedFormat::Etc2));
    assert(b.etc2 == b@.contains(CompressedFormat::Etc2));
}

/// The families that a format setting asks for. A setting that names a plain
/// bitmap format asks for none. One that names a texture container, or leaves
/// the format to be found later, asks for every family.
pub open spec fn requested_formats(setting: ImageFormatSetting) -> Set<CompressedFormat> {
    match setting {
        ImageFormatSetting::Format(format) => if format.holds_compressed() {
            Set::full()
        } else {
            Set::empty()
        },
        _ => Set::full(),
    }
}

/// The families that a raster asset may be compressed to: those that the
/// setting asks for and the device supports.
pub open spec fn negotiated_formats(
    setting: ImageFormatSetting,
    supported: Set<CompressedFormat>,
) -> Set<CompressedFormat> {
    requested_formats(setting).intersect(supported)
}

/// Chooses the families that a raster asset may be compressed to.
pub fn negotiate(setting: ImageFormatSetting, supported: CompressedImageFormats) -> (chosen:
    CompressedImageFormats)
    ensures
        chosen@ == negotiated_formats(setting, supported@),
{
    let requested = match setting {
        ImageFormatSetting::Format(format) => if format.can_hold_compressed() {
            CompressedImageFormats::all()
        } else {
            CompressedImageFormats::none()
        },
        _ => CompressedImageFormats::all(),
    };
    requested.intersection(supported)
}

/// What is chosen is supported, and nothing is chosen of a device that
/// supports nothing.
pub proof fn lemma_negotiated_within_supported(
    setting: ImageFormatSetting,
    supported: Set<CompressedFormat>,
)
    ensures
        negotiated_formats(setting, supported).subset_of(supported),
        supported == Set::<CompressedFormat>::empty() ==> negotiated_formats(setting, supported)
            == Set::<CompressedFormat>::empty(),
{
    assert(supported == Set::<CompressedFormat>::empty() ==> negotiated_formats(setting, supported)
        =~= Set::<CompressedFormat>::empty());
}

/// A setting that leaves the format open has every supported family chosen.
pub proof fn lemma_negotiated_by_default(supported: Set<CompressedFormat>)
    ensures
        negotiated_formats(ImageFormatSetting::FromExtension, supported) == supported,
        negotiated_formats(ImageFormatSetting::Guess, supported) == supported,
{
    assert(negotiated_formats(ImageFormatSetting::FromExtension, supported) =~= supported);
    assert(negotiated_formats(ImageFormatSetting::Guess, supported) =~= supported);
}

} // verus!
