use asphalt::asset::Asset;
use asphalt::asset_ref::AssetRef;
use asphalt::studio::{identifier_for_directory, is_whitespace, join_words, Studio, SyncError, SyncStep};

fn asset(path: &str, data: &[u8], hash: &str) -> Asset {
    Asset::new(path.to_string(), data.to_vec(), hash.to_string()).ok().unwrap()
}

#[test]
fn sync_generates_single_rbxasset_uri() {
    let asset = asset("image.png", b"fake png", "9f86d081884c7d65");
    let studio = Studio { identifier: ".asphalt-test".to_string(), can_upload: false };

    let expected = format!("rbxasset://.asphalt-test/{}.png", asset.hash);
    match studio.sync(&asset, None) {
        SyncStep::WriteFile { target, asset_ref } => {
            assert_eq!(target, format!("{}.png", asset.hash));
            assert_eq!(asset_ref.to_display_string(), expected);
        }
        _ => panic!("an image is written to the sync folder"),
    }
}

#[test]
fn sync_uploads_missing_models_when_api_key_is_available() {
    let asset = asset("model.fbx", b"fake fbx", "77aa");
    let studio = Studio { identifier: ".asphalt-test".to_string(), can_upload: true };
    assert!(matches!(studio.sync(&asset, None), SyncStep::Upload));
    let expected_id = 1234567890u64;
    let asset_ref = Studio::finish_upload(Ok(expected_id)).unwrap().unwrap();
    assert_eq!(asset_ref.to_display_string(), format!("rbxassetid://{expected_id}"));
}

#[test]
fn failed_uploads_fail_the_sync() {
    assert_eq!(Studio::finish_upload(Err(())).err(), Some(SyncError::UploadFailed));
    assert!(matches!(Studio::finish_upload(Ok(9)), Ok(Some(AssetRef::Cloud(9)))));
}

#[test]
fn models_without_api_key_are_skipped() {
    let studio = Studio { identifier: ".asphalt-x".to_string(), can_upload: false };
    let model = asset("m.glb", b"", "h");
    assert!(matches!(studio.sync(&model, None), SyncStep::Resolved(None)));
    let animation = Asset {
        path: "a.rbxm".to_string(),
        data: vec![],
        ty: asphalt::asset_type::AssetType::Animation,
        ext: "rbxm".to_string(),
        hash: "h".to_string(),
        is_svg: false,
    };
    assert!(matches!(studio.sync(&animation, None), SyncStep::Resolved(None)));
}

#[test]
fn models_in_lockfile_reuse_their_cloud_id() {
    let model = asset("tree.fbx", b"", "h");
    for can_upload in [false, true] {
        let studio = Studio { identifier: ".asphalt-x".to_string(), can_upload };
        match studio.sync(&model, Some(42)) {
            SyncStep::Resolved(Some(AssetRef::Cloud(id))) => assert_eq!(id, 42),
            _ => panic!("a recorded id is reused"),
        }
    }
}

#[test]
fn images_are_written_even_with_lockfile_entry() {
    let studio = Studio { identifier: ".asphalt-p".to_string(), can_upload: true };
    let image = asset("photo.jpeg", b"", "hash");
    match studio.sync(&image, Some(5)) {
        SyncStep::WriteFile { target, asset_ref } => {
            assert_eq!(target, "hash.jpeg");
            assert_eq!(asset_ref.to_display_string(), "rbxasset://.asphalt-p/hash.jpeg");
        }
        _ => panic!("an image is written"),
    }
    let svg = asset("icon.svg", b"<svg/>", "abc");
    match studio.sync(&svg, None) {
        SyncStep::WriteFile { target, .. } => assert_eq!(target, "abc.png"),
        _ => panic!("an image is written"),
    }
}

#[test]
fn identifier_from_directory_name() {
    assert_eq!(identifier_for_directory("My Cool  Game"), ".asphalt-my-cool-game");
    assert_eq!(identifier_for_directory("  Spaced\tOut \n"), ".asphalt-spaced-out");
    assert_eq!(identifier_for_directory("plain"), ".asphalt-plain");
    assert_eq!(identifier_for_directory("ÄBC Déf"), ".asphalt-äbc-déf");
    assert_eq!(identifier_for_directory(""), ".asphalt-");
    assert_eq!(identifier_for_directory("a\u{3000}b\u{2003}c"), ".asphalt-a-b-c");
    let studio = Studio::for_directory("Some Project", true);
    assert_eq!(studio.identifier, ".asphalt-some-project");
    assert!(studio.can_upload);
}

#[test]
fn whitespace_matches_the_standard_library() {
    for u in 0..=0x10ffffu32 {
        if let Some(c) = char::from_u32(u) {
            assert_eq!(is_whitespace(c), c.is_whitespace(), "U+{u:04X}");
        }
    }
}

#[test]
fn project_names_hold_no_whitespace() {
    for name in ["a b", "\u{3000}wide\u{3000}space", "tab\tsep", "x - y", "\u{85}next\u{2028}line"] {
        let id = identifier_for_directory(name);
        assert!(!id.chars().any(char::is_whitespace), "{id}");
    }
}

#[test]
fn join_words_collapses_whitespace() {
    assert_eq!(join_words("  a  bc d ", '-'), "a-bc-d");
    assert_eq!(join_words("", '_'), "");
    assert_eq!(join_words("   ", '_'), "");
    assert_eq!(join_words("one", '+'), "one");
    // The result must agree with the standard library's split and join.
    for s in ["x\u{a0}y", " lead", "trail\r\n", "a\u{1680}b\u{205f}c"] {
        assert_eq!(join_words(s, '-'), s.split_whitespace().collect::<Vec<_>>().join("-"));
    }
}

#[test]
fn asset_ref_strings() {
    assert_eq!(AssetRef::Cloud(0).to_display_string(), "rbxassetid://0");
    assert_eq!(AssetRef::Cloud(u64::MAX).to_display_string(), format!("rbxassetid://{}", u64::MAX));
    assert_eq!(AssetRef::Studio("dir/x.png".to_string()).to_display_string(), "rbxasset://dir/x.png");
}

#[test]
fn sync_target_replaces_any_extension_of_the_hash() {
    let studio = Studio { identifier: ".asphalt-q".to_string(), can_upload: false };
    let target = |hash: &str| {
        let a = asset("x.png", b"", hash);
        match studio.sync(&a, None) {
            SyncStep::WriteFile { target, .. } => target,
            _ => panic!("an image is written"),
        }
    };
    assert_eq!(target("ab.cd"), "ab.png");
    assert_eq!(target(".ab"), ".ab.png");
    assert_eq!(target("ab/"), "ab.png");
    assert_eq!(target("ab/."), "ab.png");
    assert_eq!(target(""), "");
    assert_eq!(target(".."), "..");
}
