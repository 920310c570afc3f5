use asphalt::binary_model::{
    first_binary_root_class, read_binary_chunk, read_binary_header, read_le_u16, read_le_u32,
    read_referent_array, read_string, read_u8, untransform_i32, BinaryChunk,
};
use asphalt::error::ModelError;
use asphalt::roblox_model::{is_animation, is_animation_class, is_animation_xml, RobloxModelFormat};
use asphalt::xml_model::xml_first_root_class;
use rbx_dom_weak::{
    types::{Color3uint8, Tags},
    InstanceBuilder, WeakDom,
};

fn serialize_binary_model(root: InstanceBuilder) -> Vec<u8> {
    let dom = WeakDom::new(root);
    let database = rbx_reflection::ReflectionDatabase::new();
    let mut output = Vec::new();

    rbx_binary::Serializer::new()
        .reflection_database(&database)
        .serialize(&mut output, &dom, &[dom.root_ref()])
        .unwrap();

    output
}

fn serialize_xml_model(root: InstanceBuilder) -> Vec<u8> {
    let dom = WeakDom::new(root);
    let mut output = Vec::new();
    rbx_xml::to_writer_default(&mut output, &dom, &[dom.root_ref()]).unwrap();
    output
}

fn header() -> Vec<u8> {
    let mut v = b"<roblox!".to_vec();
    v.extend_from_slice(&[0x89, 0xff, 0x0d, 0x0a, 0x1a, 0x0a]);
    v.extend_from_slice(&0u16.to_le_bytes());
    v.extend_from_slice(&1u32.to_le_bytes());
    v.extend_from_slice(&1u32.to_le_bytes());
    v.extend_from_slice(&[0; 8]);
    v
}

fn chunk(name: &[u8; 4], payload: &[u8]) -> Vec<u8> {
    let mut v = name.to_vec();
    v.extend_from_slice(&0u32.to_le_bytes());
    v.extend_from_slice(&(payload.len() as u32).to_le_bytes());
    v.extend_from_slice(&0u32.to_le_bytes());
    v.extend_from_slice(payload);
    v
}

fn compressed_chunk(name: &[u8; 4], compressed: &[u8], len: u32) -> Vec<u8> {
    let mut v = name.to_vec();
    v.extend_from_slice(&(compressed.len() as u32).to_le_bytes());
    v.extend_from_slice(&len.to_le_bytes());
    v.extend_from_slice(&0u32.to_le_bytes());
    v.extend_from_slice(compressed);
    v
}

fn referents(refs: &[i32]) -> Vec<u8> {
    let n = refs.len();
    let mut out = vec![0u8; 4 * n];
    let mut last = 0i32;
    for (i, r) in refs.iter().enumerate() {
        let delta = r.wrapping_sub(last);
        last = *r;
        let code = ((delta << 1) ^ (delta >> 31)) as u32;
        let bytes = code.to_be_bytes();
        for k in 0..4 {
            out[i + k * n] = bytes[k];
        }
    }
    out
}

fn inst(class: &str, refs: &[i32]) -> Vec<u8> {
    let mut v = 0u32.to_le_bytes().to_vec();
    v.extend_from_slice(&(class.len() as u32).to_le_bytes());
    v.extend_from_slice(class.as_bytes());
    v.push(0);
    v.extend_from_slice(&(refs.len() as u32).to_le_bytes());
    v.extend_from_slice(&referents(refs));
    v
}

fn prnt(pairs: &[(i32, i32)]) -> Vec<u8> {
    let mut v = vec![0u8];
    v.extend_from_slice(&(pairs.len() as u32).to_le_bytes());
    let subjects: Vec<i32> = pairs.iter().map(|p| p.0).collect();
    let parents: Vec<i32> = pairs.iter().map(|p| p.1).collect();
    v.extend_from_slice(&referents(&subjects));
    v.extend_from_slice(&referents(&parents));
    v
}

fn model(chunks: &[Vec<u8>]) -> Vec<u8> {
    let mut v = header();
    for c in chunks {
        v.extend_from_slice(c);
    }
    v
}

#[test]
fn detects_binary_animation_with_tags_property() {
    let mut tags = Tags::new();
    tags.push("lava");

    let data = serialize_binary_model(
        InstanceBuilder::new("KeyframeSequence")
            .with_child(InstanceBuilder::new("Animation").with_property("Tags", tags)),
    );

    assert!(is_animation(&data, &RobloxModelFormat::Binary).unwrap());
}

#[test]
fn detects_binary_model_with_color3uint8_property() {
    let data = serialize_binary_model(
        InstanceBuilder::new("Model").with_child(
            InstanceBuilder::new("MeshPart")
                .with_property("Color3uint8", Color3uint8::new(255, 128, 0)),
        ),
    );

    assert!(!is_animation(&data, &RobloxModelFormat::Binary).unwrap());
}

#[test]
fn binary_root_class_of_serialized_model() {
    let data = serialize_binary_model(
        InstanceBuilder::new("CurveAnimation").with_child(InstanceBuilder::new("Folder")),
    );
    assert_eq!(first_binary_root_class(&data).unwrap(), "CurveAnimation");
    assert!(is_animation(&data, &RobloxModelFormat::Binary).unwrap());
}

#[test]
fn detects_xml_animation() {
    let data = serialize_xml_model(InstanceBuilder::new("KeyframeSequence"));
    assert!(is_animation(&data, &RobloxModelFormat::Xml).unwrap());
}

#[test]
fn detects_xml_model() {
    let data = serialize_xml_model(
        InstanceBuilder::new("Model").with_child(InstanceBuilder::new("Part")),
    );
    assert!(!is_animation(&data, &RobloxModelFormat::Xml).unwrap());
}

#[test]
fn xml_model_without_instances_has_no_children() {
    let data = br#"<roblox version="4"></roblox>"#;
    assert_eq!(
        is_animation(data, &RobloxModelFormat::Xml),
        Err(ModelError::NoChildren)
    );
}

#[test]
fn xml_garbage_is_a_decode_error() {
    assert_eq!(
        is_animation(b"not a model", &RobloxModelFormat::Xml),
        Err(ModelError::XmlDecode)
    );
}

#[test]
fn animation_classes() {
    assert!(is_animation_class("KeyframeSequence"));
    assert!(is_animation_class("CurveAnimation"));
    assert!(!is_animation_class("Model"));
    assert!(!is_animation_class("keyframesequence"));
    assert!(!is_animation_class(""));
}

#[test]
fn header_errors() {
    assert_eq!(read_binary_header(b"<robl"), Err(ModelError::UnexpectedEof));
    assert_eq!(read_binary_header(b"<roblix!xxxxxxxx"), Err(ModelError::InvalidHeader));
    let mut bad_sig = header();
    bad_sig[9] = 0;
    assert_eq!(read_binary_header(&bad_sig), Err(ModelError::InvalidSignature));
    let mut bad_version = header();
    bad_version[14] = 2;
    assert_eq!(read_binary_header(&bad_version), Err(ModelError::UnknownVersion(2)));
    let mut bad_reserved = header();
    bad_reserved[31] = 1;
    assert_eq!(read_binary_header(&bad_reserved), Err(ModelError::InvalidReservedHeader));
    assert_eq!(read_binary_header(&header()[..31]), Err(ModelError::UnexpectedEof));
    assert_eq!(read_binary_header(&header()), Ok(32));
}

#[test]
fn little_endian_readers() {
    let data = [0x34, 0x12, 0x78, 0x56, 0xff];
    assert_eq!(read_u8(&data, 4), Ok((0xff, 5)));
    assert_eq!(read_u8(&data, 5), Err(ModelError::UnexpectedEof));
    assert_eq!(read_le_u16(&data, 0), Ok((0x1234, 2)));
    assert_eq!(read_le_u32(&data, 0), Ok((0x5678_1234, 4)));
    assert_eq!(read_le_u32(&data, 2), Err(ModelError::UnexpectedEof));
    assert_eq!(read_le_u32(&data, 9), Err(ModelError::UnexpectedEof));
}

#[test]
fn strings_are_length_prefixed_utf8() {
    let text = "h\u{e9}llo";
    let mut data = (text.len() as u32).to_le_bytes().to_vec();
    data.extend_from_slice(text.as_bytes());
    assert_eq!(read_string(&data, 0), Ok((text.to_string(), 4 + text.len())));
    let invalid = [1u8, 0, 0, 0, 0xff];
    assert_eq!(read_string(&invalid, 0), Err(ModelError::InvalidUtf8));
    assert_eq!(read_string(&data[..7], 0), Err(ModelError::UnexpectedEof));
    assert_eq!(read_string(&data[..3], 0), Err(ModelError::UnexpectedEof));
}

#[test]
fn untransform_values() {
    assert_eq!(untransform_i32(0), 0);
    assert_eq!(untransform_i32(1), -1);
    assert_eq!(untransform_i32(2), 1);
    assert_eq!(untransform_i32(3), -2);
    assert_eq!(untransform_i32(-2), i32::MAX);
    assert_eq!(untransform_i32(-1), i32::MIN);
}

#[test]
fn referent_arrays_are_interleaved_and_accumulated() {
    let refs = [5, 3, -7, 100000];
    let bytes = referents(&refs);
    assert_eq!(read_referent_array(&bytes, 0, 4), Ok((refs.to_vec(), 16)));
    assert_eq!(read_referent_array(&bytes, 0, 0), Ok((vec![], 0)));
    assert_eq!(read_referent_array(&bytes, 1, 4), Err(ModelError::UnexpectedEof));
    // Deltas wrap at the bounds of i32.
    let wrapping = [i32::MAX, i32::MIN];
    assert_eq!(read_referent_array(&referents(&wrapping), 0, 2), Ok((wrapping.to_vec(), 8)));
    // 0x00000002 then 0x00000002: both deltas +1.
    let raw = [0, 0, 0, 0, 0, 0, 2, 2];
    assert_eq!(read_referent_array(&raw, 0, 2), Ok((vec![1, 2], 8)));
}

#[test]
fn referent_array_too_large() {
    assert_eq!(
        read_referent_array(&[], 0, usize::MAX / 2),
        Err(ModelError::ReferentArrayTooLarge)
    );
}

#[test]
fn chunk_errors() {
    let mut reserved = chunk(b"INST", &[1, 2]);
    reserved[12] = 1;
    assert!(matches!(read_binary_chunk(&reserved, 0), Err(ModelError::InvalidChunkReserved)));
    let short = chunk(b"INST", &[1, 2, 3]);
    assert!(matches!(read_binary_chunk(&short[..18], 0), Err(ModelError::UnexpectedEof)));
    assert!(matches!(read_binary_chunk(&short[..10], 0), Err(ModelError::UnexpectedEof)));
    let lz4_garbage = compressed_chunk(b"INST", &[0xf0], 20);
    assert!(matches!(read_binary_chunk(&lz4_garbage, 0), Err(ModelError::Lz4Decompression)));
    let zstd_garbage = compressed_chunk(b"INST", &[0x28, 0xb5, 0x2f, 0xfd, 0, 0], 20);
    assert!(matches!(read_binary_chunk(&zstd_garbage, 0), Err(ModelError::ZstdDecompression)));
}

#[test]
fn chunk_payloads_are_decompressed() {
    let payload: Vec<u8> = (0..200u32).map(|i| (i % 7) as u8).collect();
    let lz4 = lz4_flex::block::compress(&payload);
    let data = compressed_chunk(b"PROP", &lz4, payload.len() as u32);
    let (c, end) = read_binary_chunk(&data, 0).ok().unwrap();
    assert_eq!(c.name, b"PROP".to_vec());
    assert_eq!(c.data, payload);
    assert_eq!(end, data.len());

    let zstd = zstd::bulk::compress(&payload, 3).unwrap();
    let data = compressed_chunk(b"PROP", &zstd, payload.len() as u32);
    let (c, _) = read_binary_chunk(&data, 0).ok().unwrap();
    assert_eq!(c.data, payload);

    // A payload that decompresses to fewer bytes than announced is refused.
    let data = compressed_chunk(b"PROP", &lz4, payload.len() as u32 + 1);
    assert!(matches!(read_binary_chunk(&data, 0), Err(ModelError::InvalidChunkLength)));
}

#[test]
fn chunk_length_must_match() {
    assert!(matches!(
        BinaryChunk::from_decompressed(b"INST".to_vec(), vec![1, 2, 3], 4),
        Err(ModelError::InvalidChunkLength)
    ));
    let c = BinaryChunk::from_decompressed(b"INST".to_vec(), vec![1, 2, 3], 3).ok().unwrap();
    assert_eq!(c.data, vec![1, 2, 3]);
}

#[test]
fn handmade_model_root_class() {
    let data = model(&[
        chunk(b"META", &[0, 0, 0, 0]),
        chunk(b"INST", &inst("Folder", &[1, 2])),
        chunk(b"INST", &inst("KeyframeSequence", &[0])),
        chunk(b"PRNT", &prnt(&[(1, 0), (0, -1), (2, -1)])),
        chunk(b"END\0", b"</roblox>"),
    ]);
    assert_eq!(first_binary_root_class(&data).unwrap(), "KeyframeSequence");
    assert!(is_animation(&data, &RobloxModelFormat::Binary).unwrap());
}

#[test]
fn later_instance_chunks_override_classes() {
    let data = model(&[
        chunk(b"INST", &inst("Model", &[4])),
        chunk(b"INST", &inst("CurveAnimation", &[4])),
        chunk(b"PRNT", &prnt(&[(4, -1)])),
    ]);
    assert_eq!(first_binary_root_class(&data).unwrap(), "CurveAnimation");
}

#[test]
fn parent_chunk_without_root_is_skipped() {
    let data = model(&[
        chunk(b"INST", &inst("Part", &[1, 2])),
        chunk(b"PRNT", &prnt(&[(1, 2)])),
        chunk(b"PRNT", &prnt(&[(2, -1)])),
    ]);
    assert_eq!(first_binary_root_class(&data).unwrap(), "Part");
}

#[test]
fn model_errors() {
    let no_root = model(&[chunk(b"INST", &inst("Part", &[1])), chunk(b"END\0", &[])]);
    assert_eq!(first_binary_root_class(&no_root), Err(ModelError::NoChildren));

    let undeclared = model(&[chunk(b"PRNT", &prnt(&[(9, -1)]))]);
    assert_eq!(first_binary_root_class(&undeclared), Err(ModelError::UndeclaredRoot(9)));

    let mut bad_version = prnt(&[(1, -1)]);
    bad_version[0] = 3;
    let bad_parent = model(&[chunk(b"PRNT", &bad_version)]);
    assert_eq!(first_binary_root_class(&bad_parent), Err(ModelError::UnknownParentVersion(3)));

    let mut bad_name = inst("ab", &[1]);
    bad_name[8] = 0xff;
    let bad_utf8 = model(&[chunk(b"INST", &bad_name)]);
    assert_eq!(first_binary_root_class(&bad_utf8), Err(ModelError::InvalidUtf8));

    let truncated = model(&[chunk(b"INST", &inst("Part", &[1]))]);
    assert_eq!(first_binary_root_class(&truncated), Err(ModelError::UnexpectedEof));

    let short_inst = model(&[chunk(b"INST", &[0, 0, 0])]);
    assert_eq!(first_binary_root_class(&short_inst), Err(ModelError::UnexpectedEof));

    assert_eq!(first_binary_root_class(b"<roblox "), Err(ModelError::InvalidHeader));
    assert_eq!(
        is_animation(b"<roblox ", &RobloxModelFormat::Binary),
        Err(ModelError::InvalidHeader)
    );
}

#[test]
fn trailing_bytes_do_not_change_the_outcome() {
    let data = model(&[
        chunk(b"INST", &inst("Model", &[1])),
        chunk(b"PRNT", &prnt(&[(1, -1)])),
    ]);
    let mut longer = data.clone();
    longer.extend_from_slice(b"anything at all");
    assert_eq!(first_binary_root_class(&data), first_binary_root_class(&longer));

    let no_root = model(&[chunk(b"END\0", &[])]);
    let mut longer = no_root.clone();
    longer.extend_from_slice(&chunk(b"PRNT", &prnt(&[(1, -1)])));
    assert_eq!(first_binary_root_class(&no_root), first_binary_root_class(&longer));
}

#[test]
fn other_chunks_do_not_change_the_root_class() {
    let base = model(&[
        chunk(b"INST", &inst("KeyframeSequence", &[1])),
        chunk(b"PRNT", &prnt(&[(1, -1)])),
        chunk(b"END\0", &[]),
    ]);
    let payload: Vec<u8> = (0..64u8).collect();
    let lz4 = lz4_flex::block::compress(&payload);
    let with_others = model(&[
        chunk(b"META", &[1, 2, 3]),
        chunk(b"INST", &inst("KeyframeSequence", &[1])),
        compressed_chunk(b"PROP", &lz4, payload.len() as u32),
        chunk(b"SSTR", &[]),
        chunk(b"PRNT", &prnt(&[(1, -1)])),
        chunk(b"END\0", &[]),
    ]);
    assert_eq!(first_binary_root_class(&base), first_binary_root_class(&with_others));
    assert_eq!(first_binary_root_class(&base).unwrap(), "KeyframeSequence");
}

#[test]
fn xml_root_class_from_child_classes() {
    let classes = vec![Some("KeyframeSequence".to_string()), Some("Model".to_string())];
    assert_eq!(xml_first_root_class(&classes), Ok("KeyframeSequence".to_string()));
    assert_eq!(is_animation_xml(&classes), Ok(true));
    let classes = vec![Some("Model".to_string())];
    assert_eq!(is_animation_xml(&classes), Ok(false));
    assert_eq!(xml_first_root_class(&vec![]), Err(ModelError::NoChildren));
    assert_eq!(xml_first_root_class(&vec![None, Some("Model".to_string())]), Err(ModelError::MissingFirstChild));
    assert_eq!(is_animation_xml(&vec![]), Err(ModelError::NoChildren));
}

#[test]
fn xml_first_root_child_decides() {
    let data = serialize_xml_model(
        InstanceBuilder::new("CurveAnimation").with_child(InstanceBuilder::new("Model")),
    );
    assert!(is_animation(&data, &RobloxModelFormat::Xml).unwrap());
}
