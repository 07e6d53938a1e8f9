use cat_recycle_bin::model::{
    check_read_size, is_glb_extension, load_failure_reason, model_display_name, read_active_model, take_chars,
    validate_glb, GlbError, MAX_MODEL_BYTES,
};

fn glb(json: &str) -> Vec<u8> {
    let mut body = json.as_bytes().to_vec();
    while body.len() % 4 != 0 {
        body.push(b' ');
    }
    let total = 20 + body.len();
    let mut out = Vec::new();
    out.extend_from_slice(b"glTF");
    out.extend_from_slice(&2u32.to_le_bytes());
    out.extend_from_slice(&(total as u32).to_le_bytes());
    out.extend_from_slice(&(body.len() as u32).to_le_bytes());
    out.extend_from_slice(b"JSON");
    out.extend_from_slice(&body);
    out
}

#[test]
fn rejects_non_glb_data() {
    assert!(validate_glb(b"not a glb").is_err());
}

#[test]
fn accepts_a_self_contained_model() {
    assert_eq!(validate_glb(&glb(r#"{"asset":{"version":"2.0"}}"#)), Ok(()));
    let embedded = r#"{"asset":{"version":"2.0"},"buffers":[{"byteLength":4,"uri":"data:application/octet-stream;base64,AAAAAA=="}],"images":[{"bufferView":0},{"uri":"data:image/png;base64,iVBO"}]}"#;
    assert_eq!(validate_glb(&glb(embedded)), Ok(()));
}

#[test]
fn rejects_models_that_need_outside_files() {
    let buffer = r#"{"asset":{"version":"2.0"},"buffers":[{"byteLength":4,"uri":"mesh.bin"}]}"#;
    assert_eq!(validate_glb(&glb(buffer)), Err(GlbError::ExternalResource));
    let image = r#"{"images":[{"uri":"data:image/png;base64,AA"},{"uri":"texture.png"}]}"#;
    assert_eq!(validate_glb(&glb(image)), Err(GlbError::ExternalResource));
    assert_eq!(GlbError::ExternalResource.message(), "请使用已打包纹理和数据的独立 GLB 文件");
}

#[test]
fn ignores_uris_that_are_not_strings_or_lists_that_are_not_arrays() {
    assert_eq!(validate_glb(&glb(r#"{"buffers":{"uri":"mesh.bin"}}"#)), Ok(()));
    assert_eq!(validate_glb(&glb(r#"{"buffers":[{"uri":7}, "mesh.bin"]}"#)), Ok(()));
    assert_eq!(validate_glb(&glb(r#"[{"buffers":[{"uri":"mesh.bin"}]}]"#)), Ok(()));
}

#[test]
fn header_errors() {
    assert_eq!(validate_glb(&[0u8; 19]), Err(GlbError::SizeOutOfRange));
    assert_eq!(GlbError::SizeOutOfRange.message(), "GLB 模型大小需在 20 字节至 25 MB 之间");
    let good = glb(r#"{"asset":{"version":"2.0"}}"#);
    let mut magic = good.clone();
    magic[0] = b'G';
    assert_eq!(validate_glb(&magic), Err(GlbError::NotGltf2));
    let mut version = good.clone();
    version[4] = 1;
    assert_eq!(validate_glb(&version), Err(GlbError::NotGltf2));
    let mut longer = good.clone();
    longer.push(0);
    assert_eq!(validate_glb(&longer), Err(GlbError::LengthMismatch));
    let mut tag = good.clone();
    tag[16] = b'B';
    assert_eq!(validate_glb(&tag), Err(GlbError::MissingJsonChunk));
    let mut too_long = good.clone();
    too_long[12] = 200;
    assert_eq!(validate_glb(&too_long), Err(GlbError::MissingJsonChunk));
    assert_eq!(validate_glb(&glb("{not json")), Err(GlbError::InvalidJson));
    assert_eq!(GlbError::InvalidJson.message(), "GLB 模型数据无效");
}

#[test]
fn size_limit() {
    assert_eq!(MAX_MODEL_BYTES, 25 * 1024 * 1024);
    assert_eq!(check_read_size(&vec![0u8; 10]), Ok(()));
    assert_eq!(check_read_size(&vec![0u8; MAX_MODEL_BYTES + 1]), Err(GlbError::TooLarge));
    assert_eq!(GlbError::TooLarge.message(), "GLB 模型不能超过 25 MB");
}

#[test]
fn extension_check_ignores_ascii_case() {
    assert!(is_glb_extension(Some("glb")));
    assert!(is_glb_extension(Some("GLB")));
    assert!(is_glb_extension(Some("gLb")));
    assert!(!is_glb_extension(Some("gltf")));
    assert!(!is_glb_extension(Some("glbx")));
    assert!(!is_glb_extension(None));
}

#[test]
fn names_are_cut_to_their_limits() {
    assert_eq!(take_chars("猫咪回收站", 2), "猫咪");
    assert_eq!(take_chars("cat", 10), "cat");
    let long: String = "é".repeat(100);
    assert_eq!(model_display_name(&long).chars().count(), 80);
    assert_eq!(model_display_name("cube.glb"), "cube.glb");
    let reason: String = "x".repeat(250);
    assert_eq!(load_failure_reason(&reason), "x".repeat(200));
}

#[test]
fn active_model_is_sent_as_base64() {
    let bytes = glb(r#"{"asset":{"version":"2.0"}}"#);
    let text = read_active_model(true, &bytes).unwrap();
    assert!(text.starts_with("Z2xURg"));
    assert_eq!(text.len(), 4 * ((bytes.len() + 2) / 3));
    assert_eq!(text, base64::Engine::encode(&base64::engine::general_purpose::STANDARD, &bytes));
    assert_eq!(read_active_model(false, &bytes), Err(GlbError::NoModelChosen));
    assert_eq!(read_active_model(true, b"not a glb"), Err(GlbError::SizeOutOfRange));
    assert_eq!(GlbError::NoModelChosen.message(), "尚未选择自定义模型");
}
