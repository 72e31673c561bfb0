use image_asset::{CodecConfig, ImageFormat};

#[test]
fn extensions_with_everything_enabled() {
    let exts = CodecConfig::all_enabled().extensions();
    assert_eq!(
        exts,
        vec!["gif", "jpeg", "jpg", "png", "tga", "tiff", "webp", "bmp"]
    );
}

#[test]
fn extensions_with_nothing_enabled() {
    assert_eq!(CodecConfig::none_enabled().extensions(), Vec::<&str>::new());
}

#[test]
fn extensions_match_enabled_subset() {
    let mut config = CodecConfig::none_enabled();
    config.png = true;
    config.jpeg = true;
    assert_eq!(config.extensions(), vec!["jpeg", "jpg", "png"]);
}

#[test]
fn enabled_reflects_each_field() {
    let mut config = CodecConfig::none_enabled();
    assert!(!config.enabled(ImageFormat::Tiff));
    config.tiff = true;
    assert!(config.enabled(ImageFormat::Tiff));
    assert!(!config.enabled(ImageFormat::Png));
    let all = CodecConfig::all_enabled();
    for fmt in [
        ImageFormat::Png,
        ImageFormat::Jpeg,
        ImageFormat::Gif,
        ImageFormat::Bmp,
        ImageFormat::Tga,
        ImageFormat::Tiff,
        ImageFormat::WebP,
    ] {
        assert!(all.enabled(fmt));
    }
}
