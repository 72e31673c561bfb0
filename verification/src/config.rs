//! The raster formats the decoder knows, and the configuration that says which
//! of them are enabled in a given deployment. The set of extensions advertised
//! as handleable exactly matches the set of enabled codecs.

use vstd::prelude::*;

verus! {

/// A raster image format that the decoder can recognize.
#[derive(Clone, Copy, Debug, PartialEq, Eq, Structural)]
pub enum ImageFormat {
    Png,
    Jpeg,
    Gif,
    Bmp,
    Tga,
    Tiff,
    WebP,
}

/// Which codecs this deployment enables. The decoder rejects bytes of a
/// disabled format instead of attempting a partial decode.
#[derive(Clone, Copy, Debug, PartialEq, Eq, Structural)]
pub struct CodecConfig {
    pub png: bool,
    pub jpeg: bool,
    pub gif: bool,
    pub bmp: bool,
    pub tga: bool,
    pub tiff: bool,
    pub webp: bool,
}

impl CodecConfig {
    /// Whether the codec for `fmt` is enabled.
    pub open spec fn spec_enabled(self, fmt: ImageFormat) -> bool {
        match fmt {
            ImageFormat::Png => self.png,
            ImageFormat::Jpeg => self.jpeg,
            ImageFormat::Gif => self.gif,
            ImageFormat::Bmp => self.bmp,
            ImageFormat::Tga => self.tga,
            ImageFormat::Tiff => self.tiff,
            ImageFormat::WebP => self.webp,
        }
    }

    pub fn enabled(&self, fmt: ImageFormat) -> (r: bool)
        ensures
            r == self.spec_enabled(fmt),
    {
        match fmt {
            ImageFormat::Png => self.png,
            ImageFormat::Jpeg => self.jpeg,
            ImageFormat::Gif => self.gif,
            ImageFormat::Bmp => self.bmp,
            ImageFormat::Tga => self.tga,
            ImageFormat::Tiff => self.tiff,
            ImageFormat::WebP => self.webp,
        }
    }

    /// A configuration with every codec enabled.
    pub fn all_enabled() -> (r: CodecConfig)
        ensures
            forall|fmt: ImageFormat| r.spec_enabled(fmt),
    {
        CodecConfig { png: true, jpeg: true, gif: true, bmp: true, tga: true, tiff: true, webp: true }
    }

    /// A configuration with every codec disabled.
    pub fn none_enabled() -> (r: CodecConfig)
        ensures
            forall|fmt: ImageFormat| !r.spec_enabled(fmt),
    {
        CodecConfig { png: false, jpeg: false, gif: false, bmp: false, tga: false, tiff: false, webp: false }
    }

    /// The file extensions this configuration advertises as handleable, in a
    /// fixed order. A format's extensions appear exactly when its codec is
    /// enabled.
    pub open spec fn spec_extensions(self) -> Seq<Seq<char>> {
        (if self.gif { seq!["gif"@] } else { Seq::<Seq<char>>::empty() })
        + (if self.jpeg { seq!["jpeg"@, "jpg"@] } else { Seq::<Seq<char>>::empty() })
        + (if self.png { seq!["png"@] } else { Seq::<Seq<char>>::empty() })
        + (if self.tga { seq!["tga"@] } else { Seq::<Seq<char>>::empty() })
        + (if self.tiff { seq!["tiff"@] } else { Seq::<Seq<char>>::empty() })
        + (if self.webp { seq!["webp"@] } else { Seq::<Seq<char>>::empty() })
        + (if self.bmp { seq!["bmp"@] } else { Seq::<Seq<char>>::empty() })
    }

    /// The extensions of the enabled codecs, matching `spec_extensions`.
    #[verifier::rlimit(50)]
    pub fn extensions(&self) -> (r: Vec<&'static str>)
        ensures
            r@.map_values(|s: &'static str| s@) == self.spec_extensions(),
    {
        let mut r: Vec<&'static str> = Vec::new();
        if self.gif {
            r.push("gif");
        }
        if self.jpeg {
            r.push("jpeg");
            r.push("jpg");
        }
        if self.png {
            r.push("png");
        }
        if self.tga {
            r.push("tga");
        }
        if self.tiff {
            r.push("tiff");
        }
        if self.webp {
            r.push("webp");
        }
        if self.bmp {
            r.push("bmp");
        }
        proof {
            assert(r@.map_values(|s: &'static str| s@) =~= self.spec_extensions());
        }
        r
    }
}

} // verus!
