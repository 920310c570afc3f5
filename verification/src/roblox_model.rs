use vstd::prelude::*;

use crate::binary_model::{first_binary_root_class, spec_first_binary_root_class};
use crate::error::ModelError;
use crate::text::str_eq;
use crate::xml_model::{child_classes_view, decode_outcome_view, decode_xml_root_children, spec_xml_first_root_class, xml_decodes_to, xml_first_root_class};

verus! {

/// The two encodings of a Roblox model file.
#[derive(Debug, Clone, Copy, PartialEq, Eq, Structural)]
pub enum RobloxModelFormat {
    Binary,
    Xml,
}

/// Whether a class name is one of the animation classes.
pub open spec fn spec_is_animation_class(class: Seq<char>) -> bool {
    class == "KeyframeSequence"@ || class == "CurveAnimation"@
}

/// Whether the root class found (or the error met) makes the model an
/// animation.
pub open spec fn animation_result(r: Result<Seq<char>, ModelError>) -> Result<bool, ModelError> {
    match r {
        Ok(class) => Ok(spec_is_animation_class(class)),
        Err(e) => Err(e),
    }
}

/// What the animation check gives for an outcome of decoding an XML model:
/// the decoding error, or the answer for its first root child.
pub open spec fn xml_animation_result(outcome: Option<Seq<Option<Seq<char>>>>) -> Result<bool, ModelError> {
    match outcome {
        None => Err(ModelError::XmlDecode),
        Some(classes) => animation_result(spec_xml_first_root_class(classes)),
    }
}

/// Whether `r` is an answer that checking the model file `data` of format
/// `format` for an animation can give: for a binary file the one its bytes
/// determine, for an XML file the one for some outcome of decoding it.
pub open spec fn is_animation_outcome(data: Seq<u8>, format: RobloxModelFormat, r: Result<bool, ModelError>) -> bool {
    match format {
        RobloxModelFormat::Binary => r == animation_result(spec_first_binary_root_class(data)),
        RobloxModelFormat::Xml => exists|outcome: Option<Seq<Option<Seq<char>>>>|
            #[trigger] xml_decodes_to(data, outcome) && r == xml_animation_result(outcome),
    }
}

/// Whether a class name is `KeyframeSequence` or `CurveAnimation`.
pub fn is_animation_class(class: &str) -> (res: bool)
    ensures
        res == spec_is_animation_class(class@),
{
    str_eq(class, "KeyframeSequence") || str_eq(class, "CurveAnimation")
}

/// Whether a decoded XML model is an animation, given the class names of its
/// root's children: the first child is of an animation class.
pub fn is_animation_xml(root_child_classes: &Vec<Option<String>>) -> (res: Result<bool, ModelError>)
    ensures
        res == animation_result(spec_xml_first_root_class(child_classes_view(root_child_classes@))),
{
    let class = xml_first_root_class(root_child_classes)?;
    Ok(is_animation_class(class.as_str()))
}

/// Whether a Roblox model file is an animation: its first root instance is
/// of an animation class.
pub fn is_animation(data: &[u8], format: &RobloxModelFormat) -> (res: Result<bool, ModelError>)
    ensures
        *format == RobloxModelFormat::Binary ==> res == animation_result(spec_first_binary_root_class(data@)),
        *format == RobloxModelFormat::Xml ==> exists|outcome: Option<Seq<Option<Seq<char>>>>|
            #[trigger] xml_decodes_to(data@, outcome) && res == xml_animation_result(outcome),
        is_animation_outcome(data@, *format, res),
{
    match format {
        RobloxModelFormat::Binary => {
            let class = first_binary_root_class(data)?;
            Ok(is_animation_class(class.as_str()))
        },
        RobloxModelFormat::Xml => {
            let decoded = decode_xml_root_children(data);
            let ghost outcome = decode_outcome_view(decoded);
            let classes = match decoded {
                Some(classes) => classes,
                None => {
                    assert(xml_decodes_to(data@, outcome));
                    return Err(ModelError::XmlDecode);
                },
            };
            let res = is_animation_xml(&classes);
            assert(xml_decodes_to(data@, outcome));
            res
        },
    }
}

/// A model is an animation exactly when the class of its first root
/// instance is `KeyframeSequence` or `CurveAnimation`: every other class
/// gives `Ok(false)`, and a failure to find the class is passed on unchanged.
pub proof fn only_animation_classes_make_animations(root: Result<Seq<char>, ModelError>)
    ensures
        root matches Ok(class) ==> (animation_result(root) == Ok::<bool, ModelError>(true)
            <==> class == "KeyframeSequence"@ || class == "CurveAnimation"@),
        root matches Ok(class) ==> (animation_result(root) == Ok::<bool, ModelError>(false)
            <==> class != "KeyframeSequence"@ && class != "CurveAnimation"@),
        root matches Err(e) ==> animation_result(root) == Err::<bool, ModelError>(e),
{
}

/// A binary model file is an animation exactly when its first root instance
/// is a `KeyframeSequence` or a `CurveAnimation`, is not one when that
/// instance has any other class, and the check fails exactly when reading
/// the first root class fails, with the same error.
pub proof fn binary_animation_iff_animation_root(data: Seq<u8>, r: Result<bool, ModelError>)
    requires
        is_animation_outcome(data, RobloxModelFormat::Binary, r),
    ensures
        r == Ok::<bool, ModelError>(true) <==> (spec_first_binary_root_class(data) matches Ok(class)
            && (class == "KeyframeSequence"@ || class == "CurveAnimation"@)),
        r == Ok::<bool, ModelError>(false) <==> (spec_first_binary_root_class(data) matches Ok(class)
            && class != "KeyframeSequence"@ && class != "CurveAnimation"@),
        r is Err <==> spec_first_binary_root_class(data) is Err,
        r matches Err(e) ==> spec_first_binary_root_class(data) == Err::<Seq<char>, ModelError>(e),
{
}

/// An XML model file is reported an animation only for a decoding whose
/// first root child is a `KeyframeSequence` or a `CurveAnimation`, and a
/// Roblox model only for one whose first root child has another class; it
/// fails with `XmlDecode` only where decoding its bytes can fail.
pub proof fn xml_animation_iff_animation_root(data: Seq<u8>, r: Result<bool, ModelError>)
    requires
        is_animation_outcome(data, RobloxModelFormat::Xml, r),
    ensures
        r == Ok::<bool, ModelError>(true) ==> exists|classes: Seq<Option<Seq<char>>>|
            #[trigger] xml_decodes_to(data, Some(classes)) && (spec_xml_first_root_class(classes) matches Ok(class)
            && (class == "KeyframeSequence"@ || class == "CurveAnimation"@)),
        r == Ok::<bool, ModelError>(false) ==> exists|classes: Seq<Option<Seq<char>>>|
            #[trigger] xml_decodes_to(data, Some(classes)) && (spec_xml_first_root_class(classes) matches Ok(class)
            && class != "KeyframeSequence"@ && class != "CurveAnimation"@),
        r == Err::<bool, ModelError>(ModelError::XmlDecode) ==> xml_decodes_to(data, None),
{
    let outcome = choose|outcome: Option<Seq<Option<Seq<char>>>>|
        #[trigger] xml_decodes_to(data, outcome) && r == xml_animation_result(outcome);
    if let Some(classes) = outcome {
        assert(xml_decodes_to(data, Some(classes)));
    }
}

} // verus!
