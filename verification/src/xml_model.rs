use vstd::prelude::*;

use crate::error::ModelError;

verus! {

/// The root children of an XML model, as what the logic reads of them: the
/// class name of each child instance, in order, or `None` where the tree
/// holds no instance for a child's referent.
pub open spec fn child_classes_view(v: Seq<Option<String>>) -> Seq<Option<Seq<char>>> {
    Seq::new(
        v.len(),
        |i: int|
            match v[i] {
                Some(s) => Some(s@),
                None => None,
            },
    )
}

/// Whether `outcome` is what reading the bytes `data` as an XML model can
/// give on some machine: the class names of the root children of a tree that
/// `rbx_xml::from_reader` returns for them, or `None` where decoding fails,
/// with the machine's reflection database or for want of a readable one.
pub uninterp spec fn xml_decodes_to(data: Seq<u8>, outcome: Option<Seq<Option<Seq<char>>>>) -> bool;

/// What the decoding wrapper's result says of the root children.
pub open spec fn decode_outcome_view(r: Option<Vec<Option<String>>>) -> Option<Seq<Option<Seq<char>>>> {
    match r {
        Some(v) => Some(child_classes_view(v@)),
        None => None,
    }
}

/// Calls `rbx_reflection_database::get`, then `rbx_xml::from_reader` with the
/// default decode options, and converts the tree it returns into the class
/// names of the root's children (`WeakDom::root`, `Instance::children`,
/// `WeakDom::get_by_ref`, `Instance::class`), one entry per child.
///
/// `get` reads a reflection database installed on the machine, if there is
/// one, and fails when that file cannot be read or decoded; the default
/// options unwrap that same result, so the wrapper asks first and returns
/// `None` instead of letting the unwrap panic. The crate caches the result of
/// `get` for the life of the process, so the second call cannot fail where
/// the first succeeded. `WeakDom::root` unwraps the lookup of the root
/// referent, which a tree always holds.
///
/// The contract claims that the result, the classes or the failure, is an
/// outcome of decoding `data`, named `xml_decodes_to`. Which outcome is not
/// stated: the installed database may differ between machines.
#[verifier::external_body]
pub(crate) fn decode_xml_root_children(data: &[u8]) -> (res: Option<Vec<Option<String>>>)
    ensures
        xml_decodes_to(data@, decode_outcome_view(res)),
{
    if rbx_reflection_database::get().is_err() {
        return None;
    }
    let dom = rbx_xml::from_reader(data, rbx_xml::DecodeOptions::default()).ok()?;
    let root = dom.root();
    Some(root.children().iter().map(|r| dom.get_by_ref(*r).map(|i| i.class.to_string())).collect())
}

/// The class of the first child of the root of a decoded XML model.
pub open spec fn spec_xml_first_root_class(root_child_classes: Seq<Option<Seq<char>>>) -> Result<Seq<char>, ModelError> {
    if root_child_classes.len() == 0 {
        Err(ModelError::NoChildren)
    } else {
        match root_child_classes[0] {
            None => Err(ModelError::MissingFirstChild),
            Some(class) => Ok(class),
        }
    }
}

/// The class of the first child of the root of a decoded XML model, given
/// the class names of the root's children.
pub fn xml_first_root_class(root_child_classes: &Vec<Option<String>>) -> (res: Result<String, ModelError>)
    ensures
        match res {
            Ok(s) => spec_xml_first_root_class(child_classes_view(root_child_classes@)) == Ok::<Seq<char>, ModelError>(s@),
            Err(e) => spec_xml_first_root_class(child_classes_view(root_child_classes@)) == Err::<Seq<char>, ModelError>(e),
        },
{
    if root_child_classes.len() == 0 {
        return Err(ModelError::NoChildren);
    }
    match &root_child_classes[0] {
        Some(class) => Ok(class.clone()),
        None => Err(ModelError::MissingFirstChild),
    }
}

} // verus!
