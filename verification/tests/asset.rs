use asphalt::asset::{extension_kind, is_supported_extension, Asset, ExtensionKind};
use asphalt::asset_type::{AssetType, AudioType, ImageType, ModelType, VideoType};
use asphalt::error::{AssetError, ModelError};
use asphalt::roblox_model::RobloxModelFormat;
use rbx_dom_weak::{InstanceBuilder, WeakDom};

fn binary_model(class: &str) -> Vec<u8> {
    let dom = WeakDom::new(InstanceBuilder::new(class));
    let mut output = Vec::new();
    rbx_binary::to_writer(&mut output, &dom, &[dom.root_ref()]).unwrap();
    output
}

#[test]
fn asset_type_names() {
    assert_eq!(AssetType::Model(ModelType::Fbx).asset_type(), "Model");
    assert_eq!(AssetType::Animation.asset_type(), "Animation");
    assert_eq!(AssetType::Image(ImageType::Tga).asset_type(), "Image");
    assert_eq!(AssetType::Audio(AudioType::Ogg).asset_type(), "Audio");
    assert_eq!(AssetType::Video(VideoType::Mov).asset_type(), "Video");
}

#[test]
fn file_types() {
    assert_eq!(AssetType::Animation.file_type(), "model/x-rbxm");
    assert_eq!(AssetType::Model(ModelType::Roblox).file_type(), "model/x-rbxm");
    assert_eq!(AssetType::Model(ModelType::Fbx).file_type(), "model/fbx");
    assert_eq!(AssetType::Model(ModelType::GltfJson).file_type(), "model/gltf+json");
    assert_eq!(AssetType::Model(ModelType::GltfBinary).file_type(), "model/gltf-binary");
    assert_eq!(AssetType::Image(ImageType::Png).file_type(), "image/png");
    assert_eq!(AssetType::Image(ImageType::Jpg).file_type(), "image/jpeg");
    assert_eq!(AssetType::Image(ImageType::Bmp).file_type(), "image/bmp");
    assert_eq!(AssetType::Image(ImageType::Tga).file_type(), "image/tga");
    assert_eq!(AssetType::Audio(AudioType::Mp3).file_type(), "audio/mpeg");
    assert_eq!(AssetType::Audio(AudioType::Ogg).file_type(), "audio/ogg");
    assert_eq!(AssetType::Audio(AudioType::Flac).file_type(), "audio/flac");
    assert_eq!(AssetType::Audio(AudioType::Wav).file_type(), "audio/wav");
    assert_eq!(AssetType::Video(VideoType::Mp4).file_type(), "video/mp4");
    assert_eq!(AssetType::Video(VideoType::Mov).file_type(), "video/mov");
}

#[test]
fn supported_extensions() {
    for ext in [
        "mp3", "ogg", "flac", "wav", "png", "svg", "jpg", "jpeg", "bmp", "tga", "fbx", "gltf",
        "glb", "rbxm", "rbxmx", "mp4", "mov",
    ] {
        assert!(is_supported_extension(ext), "{ext}");
    }
    for ext in ["", "txt", "PNG", "png ", "rbx", "gif"] {
        assert!(!is_supported_extension(ext), "{ext}");
    }
}

#[test]
fn extension_table_entries() {
    assert_eq!(extension_kind("jpeg"), Some(ExtensionKind::Fixed(AssetType::Image(ImageType::Jpg))));
    assert_eq!(extension_kind("svg"), Some(ExtensionKind::Fixed(AssetType::Image(ImageType::Png))));
    assert_eq!(extension_kind("glb"), Some(ExtensionKind::Fixed(AssetType::Model(ModelType::GltfBinary))));
    assert_eq!(extension_kind("rbxm"), Some(ExtensionKind::RobloxModel(RobloxModelFormat::Binary)));
    assert_eq!(extension_kind("rbxmx"), Some(ExtensionKind::RobloxModel(RobloxModelFormat::Xml)));
    assert_eq!(extension_kind("wav"), Some(ExtensionKind::Fixed(AssetType::Audio(AudioType::Wav))));
    assert_eq!(extension_kind("zip"), None);
}

#[test]
fn new_image_asset() {
    let asset = Asset::new("images/icon.png".to_string(), b"fake png".to_vec(), "h".to_string()).ok().unwrap();
    assert_eq!(asset.path, "images/icon.png");
    assert_eq!(asset.data, b"fake png".to_vec());
    assert_eq!(asset.ty, AssetType::Image(ImageType::Png));
    assert_eq!(asset.ext, "png");
    assert!(!asset.is_svg);
}

#[test]
fn svg_assets_become_png_images() {
    let asset = Asset::new("logo.svg".to_string(), b"<svg/>".to_vec(), "h".to_string()).ok().unwrap();
    assert_eq!(asset.ty, AssetType::Image(ImageType::Png));
    assert_eq!(asset.ext, "png");
    assert!(asset.is_svg);
    let plan = asset.process_plan(true);
    assert!(plan.convert_svg);
    assert!(plan.alpha_bleed);
    let plan = asset.process_plan(false);
    assert!(!plan.alpha_bleed);
}

#[test]
fn process_plan_for_non_images() {
    let asset = Asset::new("song.mp3".to_string(), vec![], "h".to_string()).ok().unwrap();
    let plan = asset.process_plan(true);
    assert!(!plan.convert_svg);
    assert!(!plan.alpha_bleed);
}

#[test]
fn paths_without_extension() {
    assert!(matches!(Asset::new("README".to_string(), vec![], "h".to_string()), Err(AssetError::NoExtension)));
    assert!(matches!(Asset::new(".rs".to_string(), vec![], "h".to_string()), Err(AssetError::NoExtension)));
    assert!(matches!(Asset::new("dir.d/..".to_string(), vec![], "h".to_string()), Err(AssetError::NoExtension)));
}

#[test]
fn unsupported_extension_is_unknown_file_type() {
    assert!(matches!(Asset::new("notes.txt".to_string(), vec![], "h".to_string()), Err(AssetError::UnknownFileType)));
    assert!(!is_supported_extension("txt"));
    assert!(is_supported_extension("rbxm"));
    assert!(matches!(
        Asset::new("broken.rbxm".to_string(), b"garbage".to_vec(), "h".to_string()),
        Err(AssetError::Model(ModelError::UnexpectedEof))
    ));
}

#[test]
fn extension_is_taken_from_the_last_component() {
    let asset = Asset::new("a.b/track.v2.ogg".to_string(), vec![], "h".to_string()).ok().unwrap();
    assert_eq!(asset.ty, AssetType::Audio(AudioType::Ogg));
    assert_eq!(asset.ext, "ogg");
}

#[test]
fn roblox_models_are_inspected() {
    let anim = Asset::new("walk.rbxm".to_string(), binary_model("KeyframeSequence"), "h".to_string()).ok().unwrap();
    assert_eq!(anim.ty, AssetType::Animation);
    assert_eq!(anim.ext, "rbxm");
    let model = Asset::new("tree.rbxm".to_string(), binary_model("Model"), "h".to_string()).ok().unwrap();
    assert_eq!(model.ty, AssetType::Model(ModelType::Roblox));
    assert!(matches!(
        Asset::new("bad.rbxm".to_string(), b"<roblox?".to_vec(), "h".to_string()),
        Err(AssetError::Model(ModelError::InvalidHeader))
    ));
    assert!(matches!(
        Asset::new("bad.rbxmx".to_string(), b"???".to_vec(), "h".to_string()),
        Err(AssetError::Model(ModelError::XmlDecode))
    ));
}

#[test]
fn from_extension_keeps_path_and_data() {
    let asset = Asset::from_extension("clip".to_string(), vec![7, 7], "c1ab".to_string(), "mp4".to_string()).ok().unwrap();
    assert_eq!(asset.path, "clip");
    assert_eq!(asset.data, vec![7, 7]);
    assert_eq!(asset.ty, AssetType::Video(VideoType::Mp4));
    assert_eq!(asset.ext, "mp4");
    assert_eq!(asset.hash, "c1ab");
}

#[test]
fn extension_of_odd_paths() {
    let ext = |p: &str| Asset::new(p.to_string(), vec![], "h".to_string()).ok().map(|a| a.ext);
    assert_eq!(ext("clip.mp4/."), Some("mp4".to_string()));
    assert_eq!(ext("a/b.ogg//"), Some("ogg".to_string()));
    assert_eq!(ext("./x/./y.wav/./"), Some("wav".to_string()));
    assert_eq!(ext(".hidden.png"), Some("png".to_string()));
    assert_eq!(ext("..png"), Some("png".to_string()));
    assert!(matches!(Asset::new("x/..".to_string(), vec![], "h".to_string()), Err(AssetError::NoExtension)));
    assert!(matches!(Asset::new("/".to_string(), vec![], "h".to_string()), Err(AssetError::NoExtension)));
    assert!(matches!(Asset::new("".to_string(), vec![], "h".to_string()), Err(AssetError::NoExtension)));
    assert!(matches!(Asset::new("a.".to_string(), vec![], "h".to_string()), Err(AssetError::UnknownFileType)));
    assert!(matches!(Asset::new("dir.png/file".to_string(), vec![], "h".to_string()), Err(AssetError::NoExtension)));
}
