use vstd::prelude::*;

verus! {

/// Kind of audio file.
#[derive(Debug, Clone, Copy, PartialEq, Eq, Structural)]
pub enum AudioType {
    Mp3,
    Ogg,
    Flac,
    Wav,
}

/// Kind of image file.
#[derive(Debug, Clone, Copy, PartialEq, Eq, Structural)]
pub enum ImageType {
    Png,
    Jpg,
    Bmp,
    Tga,
}

/// Kind of 3D model file.
#[derive(Debug, Clone, Copy, PartialEq, Eq, Structural)]
pub enum ModelType {
    Fbx,
    GltfJson,
    GltfBinary,
    Roblox,
}

/// Kind of video file.
#[derive(Debug, Clone, Copy, PartialEq, Eq, Structural)]
pub enum VideoType {
    Mp4,
    Mov,
}

/// What an asset is, as the upload service sees it.
#[derive(Debug, Clone, Copy, PartialEq, Eq, Structural)]
pub enum AssetType {
    Model(ModelType),
    Animation,
    Image(ImageType),
    Audio(AudioType),
    Video(VideoType),
}

/// The asset category name used by the upload service.
pub open spec fn spec_asset_type(t: AssetType) -> Seq<char> {
    match t {
        AssetType::Model(_) => "Model"@,
        AssetType::Animation => "Animation"@,
        AssetType::Image(_) => "Image"@,
        AssetType::Audio(_) => "Audio"@,
        AssetType::Video(_) => "Video"@,
    }
}

/// The MIME type under which an asset of this type is uploaded.
pub open spec fn spec_file_type(t: AssetType) -> Seq<char> {
    match t {
        AssetType::Animation => "model/x-rbxm"@,
        AssetType::Model(ModelType::Fbx) => "model/fbx"@,
        AssetType::Model(ModelType::GltfJson) => "model/gltf+json"@,
        AssetType::Model(ModelType::GltfBinary) => "model/gltf-binary"@,
        AssetType::Model(ModelType::Roblox) => "model/x-rbxm"@,
        AssetType::Image(ImageType::Png) => "image/png"@,
        AssetType::Image(ImageType::Jpg) => "image/jpeg"@,
        AssetType::Image(ImageType::Bmp) => "image/bmp"@,
        AssetType::Image(ImageType::Tga) => "image/tga"@,
        AssetType::Audio(AudioType::Mp3) => "audio/mpeg"@,
        AssetType::Audio(AudioType::Ogg) => "audio/ogg"@,
        AssetType::Audio(AudioType::Flac) => "audio/flac"@,
        AssetType::Audio(AudioType::Wav) => "audio/wav"@,
        AssetType::Video(VideoType::Mp4) => "video/mp4"@,
        AssetType::Video(VideoType::Mov) => "video/mov"@,
    }
}

impl AssetType {
    /// The asset category name, e.g. `"Image"`.
    pub fn asset_type(&self) -> (res: &'static str)
        ensures
            res@ == spec_asset_type(*self),
    {
        match self {
            AssetType::Model(_) => "Model",
            AssetType::Animation => "Animation",
            AssetType::Image(_) => "Image",
            AssetType::Audio(_) => "Audio",
            AssetType::Video(_) => "Video",
        }
    }

    /// The MIME type of the asset, e.g. `"image/png"`.
    pub fn file_type(&self) -> (res: &'static str)
        ensures
            res@ == spec_file_type(*self),
    {
        match self {
            AssetType::Animation => "model/x-rbxm",
            AssetType::Model(ModelType::Fbx) => "model/fbx",
            AssetType::Model(ModelType::GltfJson) => "model/gltf+json",
            AssetType::Model(ModelType::GltfBinary) => "model/gltf-binary",
            AssetType::Model(ModelType::Roblox) => "model/x-rbxm",
            AssetType::Image(ImageType::Png) => "image/png",
            AssetType::Image(ImageType::Jpg) => "image/jpeg",
            AssetType::Image(ImageType::Bmp) => "image/bmp",
            AssetType::Image(ImageType::Tga) => "image/tga",
            AssetType::Audio(AudioType::Mp3) => "audio/mpeg",
            AssetType::Audio(AudioType::Ogg) => "audio/ogg",
            AssetType::Audio(AudioType::Flac) => "audio/flac",
            AssetType::Audio(AudioType::Wav) => "audio/wav",
            AssetType::Video(VideoType::Mp4) => "video/mp4",
            AssetType::Video(VideoType::Mov) => "video/mov",
        }
    }
}

/// The category name depends on the variant alone, and tells it apart:
/// every model, whatever its kind, is uploaded as `Model`, only an animation
/// as `Animation`, and images, audio and video as `Image`, `Audio` and
/// `Video`.
pub proof fn asset_type_names_the_variant(t: AssetType)
    ensures
        spec_asset_type(t) == "Model"@ <==> t is Model,
        spec_asset_type(t) == "Animation"@ <==> t is Animation,
        spec_asset_type(t) == "Image"@ <==> t is Image,
        spec_asset_type(t) == "Audio"@ <==> t is Audio,
        spec_asset_type(t) == "Video"@ <==> t is Video,
{
    reveal_strlit("Model");
    reveal_strlit("Animation");
    reveal_strlit("Image");
    reveal_strlit("Audio");
    reveal_strlit("Video");
    assert("Model"@[0] == 'M' && "Animation"@[0] == 'A' && "Image"@[0] == 'I' && "Audio"@[0] == 'A' && "Video"@[0] == 'V');
    assert("Animation"@.len() == 9 && "Audio"@.len() == 5);
}

} // verus!
