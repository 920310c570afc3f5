use vstd::prelude::*;

use crate::asset_type::{AssetType, AudioType, ImageType, ModelType, VideoType};
use crate::binary_model::spec_first_binary_root_class;
use crate::error::{AssetError, ModelError};
use crate::rel_path::{path_extension, spec_path_extension};
use crate::roblox_model::{animation_result, is_animation, is_animation_outcome, xml_animation_result, RobloxModelFormat};
use crate::text::str_eq;
use crate::xml_model::{spec_xml_first_root_class, xml_decodes_to};


verus! {

/// How the type of a file with a supported extension is found: fixed by the
/// extension, or by looking inside a Roblox model.
#[derive(Debug, Clone, Copy, PartialEq, Eq, Structural)]
pub enum ExtensionKind {
    Fixed(AssetType),
    RobloxModel(RobloxModelFormat),
}

/// The table of supported file extensions.
pub open spec fn spec_extension_kind(ext: Seq<char>) -> Option<ExtensionKind> {
    if ext == "mp3"@ {
        Some(ExtensionKind::Fixed(AssetType::Audio(AudioType::Mp3)))
    } else if ext == "ogg"@ {
        Some(ExtensionKind::Fixed(AssetType::Audio(AudioType::Ogg)))
    } else if ext == "flac"@ {
        Some(ExtensionKind::Fixed(AssetType::Audio(AudioType::Flac)))
    } else if ext == "wav"@ {
        Some(ExtensionKind::Fixed(AssetType::Audio(AudioType::Wav)))
    } else if ext == "png"@ {
        Some(ExtensionKind::Fixed(AssetType::Image(ImageType::Png)))
    } else if ext == "svg"@ {
        Some(ExtensionKind::Fixed(AssetType::Image(ImageType::Png)))
    } else if ext == "jpg"@ {
        Some(ExtensionKind::Fixed(AssetType::Image(ImageType::Jpg)))
    } else if ext == "jpeg"@ {
        Some(ExtensionKind::Fixed(AssetType::Image(ImageType::Jpg)))
    } else if ext == "bmp"@ {
        Some(ExtensionKind::Fixed(AssetType::Image(ImageType::Bmp)))
    } else if ext == "tga"@ {
        Some(ExtensionKind::Fixed(AssetType::Image(ImageType::Tga)))
    } else if ext == "fbx"@ {
        Some(ExtensionKind::Fixed(AssetType::Model(ModelType::Fbx)))
    } else if ext == "gltf"@ {
        Some(ExtensionKind::Fixed(AssetType::Model(ModelType::GltfJson)))
    } else if ext == "glb"@ {
        Some(ExtensionKind::Fixed(AssetType::Model(ModelType::GltfBinary)))
    } else if ext == "rbxm"@ {
        Some(ExtensionKind::RobloxModel(RobloxModelFormat::Binary))
    } else if ext == "rbxmx"@ {
        Some(ExtensionKind::RobloxModel(RobloxModelFormat::Xml))
    } else if ext == "mp4"@ {
        Some(ExtensionKind::Fixed(AssetType::Video(VideoType::Mp4)))
    } else if ext == "mov"@ {
        Some(ExtensionKind::Fixed(AssetType::Video(VideoType::Mov)))
    } else {
        None
    }
}

/// Looks an extension up in the table of supported extensions.
pub fn extension_kind(ext: &str) -> (res: Option<ExtensionKind>)
    ensures
        res == spec_extension_kind(ext@),
{
    if str_eq(ext, "mp3") {
        return Some(ExtensionKind::Fixed(AssetType::Audio(AudioType::Mp3)));
    }
    if str_eq(ext, "ogg") {
        return Some(ExtensionKind::Fixed(AssetType::Audio(AudioType::Ogg)));
    }
    if str_eq(ext, "flac") {
        return Some(ExtensionKind::Fixed(AssetType::Audio(AudioType::Flac)));
    }
    if str_eq(ext, "wav") {
        return Some(ExtensionKind::Fixed(AssetType::Audio(AudioType::Wav)));
    }
    if str_eq(ext, "png") {
        return Some(ExtensionKind::Fixed(AssetType::Image(ImageType::Png)));
    }
    if str_eq(ext, "svg") {
        return Some(ExtensionKind::Fixed(AssetType::Image(ImageType::Png)));
    }
    if str_eq(ext, "jpg") {
        return Some(ExtensionKind::Fixed(AssetType::Image(ImageType::Jpg)));
    }
    if str_eq(ext, "jpeg") {
        return Some(ExtensionKind::Fixed(AssetType::Image(ImageType::Jpg)));
    }
    if str_eq(ext, "bmp") {
        return Some(ExtensionKind::Fixed(AssetType::Image(ImageType::Bmp)));
    }
    if str_eq(ext, "tga") {
        return Some(ExtensionKind::Fixed(AssetType::Image(ImageType::Tga)));
    }
    if str_eq(ext, "fbx") {
        return Some(ExtensionKind::Fixed(AssetType::Model(ModelType::Fbx)));
    }
    if str_eq(ext, "gltf") {
        return Some(ExtensionKind::Fixed(AssetType::Model(ModelType::GltfJson)));
    }
    if str_eq(ext, "glb") {
        return Some(ExtensionKind::Fixed(AssetType::Model(ModelType::GltfBinary)));
    }
    if str_eq(ext, "rbxm") {
        return Some(ExtensionKind::RobloxModel(RobloxModelFormat::Binary));
    }
    if str_eq(ext, "rbxmx") {
        return Some(ExtensionKind::RobloxModel(RobloxModelFormat::Xml));
    }
    if str_eq(ext, "mp4") {
        return Some(ExtensionKind::Fixed(AssetType::Video(VideoType::Mp4)));
    }
    if str_eq(ext, "mov") {
        return Some(ExtensionKind::Fixed(AssetType::Video(VideoType::Mov)));
    }
    None
}

/// The supported extensions are exactly `mp3`, `ogg`, `flac`, `wav`, `png`,
/// `svg`, `jpg`, `jpeg`, `bmp`, `tga`, `fbx`, `gltf`, `glb`, `rbxm`, `rbxmx`,
/// `mp4` and `mov`, and each has its own entry: the audio, image, 3D model and
/// video types its files hold, with SVG images converted to PNG and the two
/// Roblox model formats looked inside.
pub proof fn supported_extensions_are_the_listed_ones(ext: Seq<char>)
    ensures
        spec_extension_kind(ext) is Some <==> (ext == "mp3"@
            || ext == "ogg"@
            || ext == "flac"@
            || ext == "wav"@
            || ext == "png"@
            || ext == "svg"@
            || ext == "jpg"@
            || ext == "jpeg"@
            || ext == "bmp"@
            || ext == "tga"@
            || ext == "fbx"@
            || ext == "gltf"@
            || ext == "glb"@
            || ext == "rbxm"@
            || ext == "rbxmx"@
            || ext == "mp4"@
            || ext == "mov"@
        ),
        ext == "mp3"@ ==> spec_extension_kind(ext) == Some(ExtensionKind::Fixed(AssetType::Audio(AudioType::Mp3))),
        ext == "ogg"@ ==> spec_extension_kind(ext) == Some(ExtensionKind::Fixed(AssetType::Audio(AudioType::Ogg))),
        ext == "flac"@ ==> spec_extension_kind(ext) == Some(ExtensionKind::Fixed(AssetType::Audio(AudioType::Flac))),
        ext == "wav"@ ==> spec_extension_kind(ext) == Some(ExtensionKind::Fixed(AssetType::Audio(AudioType::Wav))),
        ext == "png"@ ==> spec_extension_kind(ext) == Some(ExtensionKind::Fixed(AssetType::Image(ImageType::Png))),
        ext == "svg"@ ==> spec_extension_kind(ext) == Some(ExtensionKind::Fixed(AssetType::Image(ImageType::Png))),
        ext == "jpg"@ ==> spec_extension_kind(ext) == Some(ExtensionKind::Fixed(AssetType::Image(ImageType::Jpg))),
        ext == "jpeg"@ ==> spec_extension_kind(ext) == Some(ExtensionKind::Fixed(AssetType::Image(ImageType::Jpg))),
        ext == "bmp"@ ==> spec_extension_kind(ext) == Some(ExtensionKind::Fixed(AssetType::Image(ImageType::Bmp))),
        ext == "tga"@ ==> spec_extension_kind(ext) == Some(ExtensionKind::Fixed(AssetType::Image(ImageType::Tga))),
        ext == "fbx"@ ==> spec_extension_kind(ext) == Some(ExtensionKind::Fixed(AssetType::Model(ModelType::Fbx))),
        ext == "gltf"@ ==> spec_extension_kind(ext) == Some(ExtensionKind::Fixed(AssetType::Model(ModelType::GltfJson))),
        ext == "glb"@ ==> spec_extension_kind(ext) == Some(ExtensionKind::Fixed(AssetType::Model(ModelType::GltfBinary))),
        ext == "rbxm"@ ==> spec_extension_kind(ext) == Some(ExtensionKind::RobloxModel(RobloxModelFormat::Binary)),
        ext == "rbxmx"@ ==> spec_extension_kind(ext) == Some(ExtensionKind::RobloxModel(RobloxModelFormat::Xml)),
        ext == "mp4"@ ==> spec_extension_kind(ext) == Some(ExtensionKind::Fixed(AssetType::Video(VideoType::Mp4))),
        ext == "mov"@ ==> spec_extension_kind(ext) == Some(ExtensionKind::Fixed(AssetType::Video(VideoType::Mov))),
{
    reveal_strlit("mp3");
    reveal_strlit("ogg");
    reveal_strlit("flac");
    reveal_strlit("wav");
    reveal_strlit("png");
    reveal_strlit("svg");
    reveal_strlit("jpg");
    reveal_strlit("jpeg");
    reveal_strlit("bmp");
    reveal_strlit("tga");
    reveal_strlit("fbx");
    reveal_strlit("gltf");
    reveal_strlit("glb");
    reveal_strlit("rbxm");
    reveal_strlit("rbxmx");
    reveal_strlit("mp4");
    reveal_strlit("mov");
    assert("mp3"@[0] == 'm' && "mp3"@[1] == 'p' && "mp3"@[2] == '3');
    assert("ogg"@[0] == 'o' && "ogg"@[1] == 'g' && "ogg"@[2] == 'g');
    assert("flac"@[0] == 'f' && "flac"@[1] == 'l' && "flac"@[2] == 'a' && "flac"@[3] == 'c');
    assert("wav"@[0] == 'w' && "wav"@[1] == 'a' && "wav"@[2] == 'v');
    assert("png"@[0] == 'p' && "png"@[1] == 'n' && "png"@[2] == 'g');
    assert("svg"@[0] == 's' && "svg"@[1] == 'v' && "svg"@[2] == 'g');
    assert("jpg"@[0] == 'j' && "jpg"@[1] == 'p' && "jpg"@[2] == 'g');
    assert("jpeg"@[0] == 'j' && "jpeg"@[1] == 'p' && "jpeg"@[2] == 'e' && "jpeg"@[3] == 'g');
    assert("bmp"@[0] == 'b' && "bmp"@[1] == 'm' && "bmp"@[2] == 'p');
    assert("tga"@[0] == 't' && "tga"@[1] == 'g' && "tga"@[2] == 'a');
    assert("fbx"@[0] == 'f' && "fbx"@[1] == 'b' && "fbx"@[2] == 'x');
    assert("gltf"@[0] == 'g' && "gltf"@[1] == 'l' && "gltf"@[2] == 't' && "gltf"@[3] == 'f');
    assert("glb"@[0] == 'g' && "glb"@[1] == 'l' && "glb"@[2] == 'b');
    assert("rbxm"@[0] == 'r' && "rbxm"@[1] == 'b' && "rbxm"@[2] == 'x' && "rbxm"@[3] == 'm');
    if ext == "rbxmx"@ {
        assert(ext.len() == 5);
        assert(ext != "rbxm"@);
    }
    assert("rbxmx"@[0] == 'r' && "rbxmx"@[1] == 'b' && "rbxmx"@[2] == 'x' && "rbxmx"@[3] == 'm' && "rbxmx"@[4] == 'x');
    assert("mp4"@[0] == 'm' && "mp4"@[1] == 'p' && "mp4"@[2] == '4');
    assert("mov"@[0] == 'm' && "mov"@[1] == 'o' && "mov"@[2] == 'v');
}

/// Whether files with this extension can become assets.
pub fn is_supported_extension(ext: &str) -> (res: bool)
    ensures
        res == spec_extension_kind(ext@) is Some,
{
    extension_kind(ext).is_some()
}

/// The conversions that processing an asset takes.
pub struct ProcessPlan {
    /// Render the SVG data to PNG.
    pub convert_svg: bool,
    /// Bleed the colours of opaque pixels into transparent ones.
    pub alpha_bleed: bool,
}

/// A file read from the input directory, classified and ready to upload.
pub struct Asset {
    /// Relative to the input prefix.
    pub path: String,
    pub data: Vec<u8>,
    pub ty: AssetType,
    pub ext: String,
    /// The hash of the data before processing, as the caller computed it.
    pub hash: String,
    /// Whether the data is SVG that still has to be converted to PNG.
    pub is_svg: bool,
}

/// The type an asset gets from its extension's table entry and, for Roblox
/// models, from the root class found in the file (or the error met there).
pub open spec fn spec_asset_type_for(kind: Option<ExtensionKind>, root: Result<Seq<char>, ModelError>) -> Result<AssetType, AssetError> {
    match kind {
        None => Err(AssetError::UnknownFileType),
        Some(ExtensionKind::Fixed(t)) => Ok(t),
        Some(ExtensionKind::RobloxModel(_)) => spec_type_from_inspection(animation_result(root)),
    }
}

/// The type a Roblox model gets from the answer to whether it is an
/// animation.
pub open spec fn spec_type_from_inspection(is_animation: Result<bool, ModelError>) -> Result<AssetType, AssetError> {
    match is_animation {
        Ok(true) => Ok(AssetType::Animation),
        Ok(false) => Ok(AssetType::Model(ModelType::Roblox)),
        Err(e) => Err(AssetError::Model(e)),
    }
}

/// The extension an asset keeps: SVG files are converted, so they keep `png`.
pub open spec fn spec_stored_extension(ext: Seq<char>) -> Seq<char> {
    if ext == "svg"@ {
        "png"@
    } else {
        ext
    }
}

pub open spec fn asset_type_of(res: Result<Asset, AssetError>) -> Result<AssetType, AssetError> {
    match res {
        Ok(a) => Ok(a.ty),
        Err(e) => Err(e),
    }
}

/// What building an asset from `path`, `data`, the hash `hash` of the data
/// and the extension `ext` gives.
/// Decoding an XML model depends on the reflection database installed on the
/// machine, so for it the type is the one that some outcome of decoding its
/// bytes gives: from the root children, or the decoding error.
pub open spec fn asset_built(res: Result<Asset, AssetError>, path: Seq<char>, data: Seq<u8>, hash: Seq<char>, ext: Seq<char>) -> bool {
    let kind = spec_extension_kind(ext);
    &&& kind == Some(ExtensionKind::RobloxModel(RobloxModelFormat::Xml)) ==> exists|outcome: Option<Seq<Option<Seq<char>>>>|
        #[trigger] xml_decodes_to(data, outcome) && asset_type_of(res) == spec_type_from_inspection(xml_animation_result(outcome))
    &&& kind != Some(ExtensionKind::RobloxModel(RobloxModelFormat::Xml)) ==> asset_type_of(res) == spec_asset_type_for(kind, spec_first_binary_root_class(data))
    &&& res matches Ok(a) ==> {
        &&& a.path@ == path
        &&& a.data@ == data
        &&& a.hash@ == hash
        &&& a.ext@ == spec_stored_extension(ext)
        &&& a.is_svg == (ext == "svg"@)
    }
}

impl Asset {
    /// Classifies the file at `path` by its extension. `hash` is the hash of
    /// `data` as read, which the asset keeps.
    pub fn new(path: String, data: Vec<u8>, hash: String) -> (res: Result<Asset, AssetError>)
        ensures
            match spec_path_extension(path@) {
                None => res == Err::<Asset, AssetError>(AssetError::NoExtension),
                Some(ext) => asset_built(res, path@, data@, hash@, ext),
            },
    {
        let ext = match path_extension(path.as_str()) {
            Some(ext) => ext,
            None => return Err(AssetError::NoExtension),
        };
        Asset::from_extension(path, data, hash, ext)
    }

    /// Classifies a file whose extension is `ext`.
    pub fn from_extension(path: String, data: Vec<u8>, hash: String, ext: String) -> (res: Result<Asset, AssetError>)
        ensures
            asset_built(res, path@, data@, hash@, ext@),
    {
        let ty = match extension_kind(ext.as_str()) {
            None => return Err(AssetError::UnknownFileType),
            Some(ExtensionKind::Fixed(t)) => t,
            Some(ExtensionKind::RobloxModel(format)) => match is_animation(data.as_slice(), &format) {
                Ok(true) => AssetType::Animation,
                Ok(false) => AssetType::Model(ModelType::Roblox),
                Err(e) => return Err(AssetError::Model(e)),
            },
        };
        let is_svg = str_eq(ext.as_str(), "svg");
        let ext = if is_svg {
            "png".to_owned()
        } else {
            ext
        };
        Ok(Asset { path, data, ty, ext, hash, is_svg })
    }

    /// Which conversions processing the asset takes: SVG data is rendered to
    /// PNG, and images are alpha-bled when `bleed` is asked for.
    pub fn process_plan(&self, bleed: bool) -> (res: ProcessPlan)
        ensures
            res.convert_svg == self.is_svg,
            res.alpha_bleed == (bleed && self.ty is Image),
    {
        ProcessPlan { convert_svg: self.is_svg, alpha_bleed: bleed && matches!(self.ty, AssetType::Image(_)) }
    }
}

proof fn lemma_svg_extension_kind(ext: Seq<char>)
    ensures
        ext == "svg"@ ==> spec_extension_kind(ext) == Some(ExtensionKind::Fixed(AssetType::Image(ImageType::Png))),
{
    if ext == "svg"@ {
        reveal_strlit("svg");
        reveal_strlit("mp3");
        reveal_strlit("ogg");
        reveal_strlit("flac");
        reveal_strlit("wav");
        reveal_strlit("png");
        assert(ext[0] == 's');
        assert("mp3"@[0] == 'm' && "ogg"@[0] == 'o' && "flac"@[0] == 'f' && "wav"@[0] == 'w' && "png"@[0] == 'p');
        assert(ext != "mp3"@ && ext != "ogg"@ && ext != "flac"@ && ext != "wav"@ && ext != "png"@);
        assert(spec_extension_kind(ext) == Some(ExtensionKind::Fixed(AssetType::Image(ImageType::Png))));
    }
}

/// A file is refused as of unknown type exactly when its extension is not
/// a supported one: inspecting a Roblox model may fail, but never that way.
pub proof fn unknown_type_iff_unsupported_extension(res: Result<Asset, AssetError>, path: Seq<char>, data: Seq<u8>, hash: Seq<char>, ext: Seq<char>)
    requires
        asset_built(res, path, data, hash, ext),
    ensures
        (res == Err::<Asset, AssetError>(AssetError::UnknownFileType)) <==> !(spec_extension_kind(ext) is Some),
{
    if res == Err::<Asset, AssetError>(AssetError::UnknownFileType) {
        assert(asset_type_of(res) == Err::<AssetType, AssetError>(AssetError::UnknownFileType));
    }
}

/// An asset read from an SVG file is a PNG image with the extension `png`.
pub proof fn svg_assets_are_png_images(res: Result<Asset, AssetError>, path: Seq<char>, data: Seq<u8>, hash: Seq<char>, ext: Seq<char>)
    requires
        asset_built(res, path, data, hash, ext),
    ensures
        res matches Ok(a) ==> (a.is_svg ==> a.ty == AssetType::Image(ImageType::Png) && a.ext@ == "png"@),
{
    lemma_svg_extension_kind(ext);
}

/// A Roblox model file becomes an animation when inspecting it says it is
/// one, a Roblox model when it says it is not, and fails with the inspection's
/// error otherwise; it keeps its extension. For a binary model the inspection
/// is the one of its bytes; for an XML model it is the one that some outcome
/// of decoding its bytes gives.
pub proof fn roblox_model_assets_follow_inspection(res: Result<Asset, AssetError>, path: Seq<char>, data: Seq<u8>, hash: Seq<char>, ext: Seq<char>)
    requires
        asset_built(res, path, data, hash, ext),
    ensures
        spec_extension_kind(ext) == Some(ExtensionKind::RobloxModel(RobloxModelFormat::Binary)) ==>
            asset_type_of(res) == spec_type_from_inspection(animation_result(spec_first_binary_root_class(data))),
        spec_extension_kind(ext) == Some(ExtensionKind::RobloxModel(RobloxModelFormat::Xml)) ==> exists|outcome: Option<Seq<Option<Seq<char>>>>|
            #[trigger] xml_decodes_to(data, outcome) && asset_type_of(res) == spec_type_from_inspection(xml_animation_result(outcome)),
        spec_extension_kind(ext) matches Some(ExtensionKind::RobloxModel(_)) ==> (res matches Ok(a) ==> a.ext@ == ext),
{
    lemma_svg_extension_kind(ext);
}

/// A Roblox model file (`rbxm` or `rbxmx`) becomes an asset whose type is
/// the answer that checking it for an animation can give, mapped as
/// `Ok(true)` to `Animation`, `Ok(false)` to a Roblox model and an error to
/// that error; the asset keeps the extension.
pub proof fn roblox_model_type_is_animation_answer(res: Result<Asset, AssetError>, path: Seq<char>, data: Seq<u8>, hash: Seq<char>, ext: Seq<char>, format: RobloxModelFormat)
    requires
        asset_built(res, path, data, hash, ext),
        spec_extension_kind(ext) == Some(ExtensionKind::RobloxModel(format)),
    ensures
        exists|r: Result<bool, ModelError>| #[trigger] is_animation_outcome(data, format, r) && match r {
            Ok(true) => res matches Ok(a) && a.ty == AssetType::Animation,
            Ok(false) => res matches Ok(a) && a.ty == AssetType::Model(ModelType::Roblox),
            Err(e) => res == Err::<Asset, AssetError>(AssetError::Model(e)),
        },
        res matches Ok(a) ==> a.ext@ == ext,
{
    lemma_svg_extension_kind(ext);
    match format {
        RobloxModelFormat::Binary => {
            let r = animation_result(spec_first_binary_root_class(data));
            assert(is_animation_outcome(data, format, r));
        },
        RobloxModelFormat::Xml => {
            let outcome = choose|outcome: Option<Seq<Option<Seq<char>>>>|
                #[trigger] xml_decodes_to(data, outcome) && asset_type_of(res) == spec_type_from_inspection(xml_animation_result(outcome));
            let r = xml_animation_result(outcome);
            assert(is_animation_outcome(data, format, r));
        },
    }
}

/// Where checking a Roblox model file for an animation can give only one
/// answer (always for a binary file; for an XML file when decoding its bytes
/// has one outcome), the asset built from it has exactly the type that
/// answer maps to: `Animation` for `Ok(true)`, a Roblox model for
/// `Ok(false)`, and the error for an error.
pub proof fn roblox_model_type_agrees_with_is_animation(res: Result<Asset, AssetError>, path: Seq<char>, data: Seq<u8>, hash: Seq<char>, ext: Seq<char>, format: RobloxModelFormat, r: Result<bool, ModelError>)
    requires
        asset_built(res, path, data, hash, ext),
        spec_extension_kind(ext) == Some(ExtensionKind::RobloxModel(format)),
        is_animation_outcome(data, format, r),
        format == RobloxModelFormat::Xml ==> forall|o1: Option<Seq<Option<Seq<char>>>>, o2: Option<Seq<Option<Seq<char>>>>|
            #[trigger] xml_decodes_to(data, o1) && #[trigger] xml_decodes_to(data, o2) ==> o1 == o2,
    ensures
        match r {
            Ok(true) => res matches Ok(a) && a.ty == AssetType::Animation,
            Ok(false) => res matches Ok(a) && a.ty == AssetType::Model(ModelType::Roblox),
            Err(e) => res == Err::<Asset, AssetError>(AssetError::Model(e)),
        },
{
    lemma_svg_extension_kind(ext);
    if format == RobloxModelFormat::Xml {
        let o1 = choose|outcome: Option<Seq<Option<Seq<char>>>>|
            #[trigger] xml_decodes_to(data, outcome) && asset_type_of(res) == spec_type_from_inspection(xml_animation_result(outcome));
        let o2 = choose|outcome: Option<Seq<Option<Seq<char>>>>|
            #[trigger] xml_decodes_to(data, outcome) && r == xml_animation_result(outcome);
        assert(o1 == o2);
    }
}

/// Building an asset from an XML model file fails with `XmlDecode` only
/// where decoding its bytes can fail.
pub proof fn xml_decode_error_needs_failed_decoding(res: Result<Asset, AssetError>, path: Seq<char>, data: Seq<u8>, hash: Seq<char>, ext: Seq<char>)
    requires
        asset_built(res, path, data, hash, ext),
        ext == "rbxmx"@,
        res == Err::<Asset, AssetError>(AssetError::Model(ModelError::XmlDecode)),
    ensures
        xml_decodes_to(data, None),
{
    supported_extensions_are_the_listed_ones(ext);
    let outcome = choose|outcome: Option<Seq<Option<Seq<char>>>>|
        #[trigger] xml_decodes_to(data, outcome) && asset_type_of(res) == spec_type_from_inspection(xml_animation_result(outcome));
    if let Some(classes) = outcome {
        assert(spec_xml_first_root_class(classes) != Err::<Seq<char>, ModelError>(ModelError::XmlDecode));
    }
}

} // verus!
