use imgcat::inline_image_builder::InlineImageBuilder;

#[test]
fn all_default_builder_serializes_to_bare_sequence() {
    let builder = InlineImageBuilder::new();
    let out = builder.serialize();
    assert_eq!(out, b"\x1b]1337;File=preserveAspectRatio=1;inline=0;:\x07".to_vec());
}

#[test]
fn concrete_scenario_cat_png() {
    let mut builder = InlineImageBuilder::new();
    builder.set_name("cat.png".to_string());
    builder.set_size(12345);
    builder.set_inline(true);
    builder.set_data(vec![0xFF, 0xD8]);
    let out = builder.serialize();
    assert_eq!(
        out,
        b"\x1b]1337;File=name=Y2F0LnBuZw==;size=12345;preserveAspectRatio=1;inline=1;:/9g=\x07"
            .to_vec()
    );
}

#[test]
fn serializing_twice_is_byte_identical() {
    let mut builder = InlineImageBuilder::new();
    builder.set_name("img".to_string());
    builder.set_width("50%".to_string());
    builder.set_data(vec![1, 2, 3, 4, 5]);
    let first = builder.serialize();
    let second = builder.serialize();
    assert_eq!(first, second);
}

#[test]
fn empty_name_and_zero_size_are_omitted() {
    let mut builder = InlineImageBuilder::new();
    builder.set_name(String::new());
    builder.set_size(0);
    let out = builder.serialize();
    assert_eq!(out, b"\x1b]1337;File=preserveAspectRatio=1;inline=0;:\x07".to_vec());
}

#[test]
fn width_and_height_pass_through_verbatim() {
    let mut builder = InlineImageBuilder::new();
    builder.set_width("auto".to_string());
    builder.set_height("50px".to_string());
    let out = builder.serialize();
    assert_eq!(
        out,
        b"\x1b]1337;File=width=auto;height=50px;preserveAspectRatio=1;inline=0;:\x07".to_vec()
    );
}

#[test]
fn preserve_aspect_ratio_false_emits_zero() {
    let mut builder = InlineImageBuilder::new();
    builder.set_preserve_aspect_ratio(false);
    let out = builder.serialize();
    assert_eq!(out, b"\x1b]1337;File=preserveAspectRatio=0;inline=0;:\x07".to_vec());
}

#[test]
fn all_fields_present_in_fixed_order() {
    let mut builder = InlineImageBuilder::new();
    builder.set_name("a".to_string());
    builder.set_size(7);
    builder.set_width("1".to_string());
    builder.set_height("2".to_string());
    builder.set_preserve_aspect_ratio(false);
    builder.set_inline(true);
    builder.set_data(vec![0x00]);
    let out = builder.serialize();
    assert_eq!(
        out,
        b"\x1b]1337;File=name=YQ==;size=7;width=1;height=2;preserveAspectRatio=0;inline=1;:AA==\x07"
            .to_vec()
    );
}

#[test]
fn large_size_uses_full_decimal_digits() {
    let mut builder = InlineImageBuilder::new();
    builder.set_size(usize::MAX);
    let out = builder.serialize();
    let expected_prefix = format!("\x1b]1337;File=size={};", usize::MAX);
    assert!(out.starts_with(expected_prefix.as_bytes()));
}

#[test]
fn name_segment_decodes_back_to_name_bytes() {
    let mut builder = InlineImageBuilder::new();
    builder.set_name("hello.png".to_string());
    let out = builder.serialize();
    let text: Vec<u8> = out.clone();
    let start = b"\x1b]1337;File=name=".len();
    let end = text[start..].iter().position(|&b| b == b';').unwrap() + start;
    let decoded = base64::decode(&text[start..end]).unwrap();
    assert_eq!(decoded, b"hello.png".to_vec());
}

#[test]
fn data_segment_decodes_back_to_payload() {
    let payload = vec![0u8, 1, 2, 3, 250, 251, 252, 253, 254, 255, 42];
    let mut builder = InlineImageBuilder::new();
    builder.set_data(payload.clone());
    let out = builder.serialize();
    let colon = out.iter().position(|&b| b == b':').unwrap();
    assert_eq!(*out.last().unwrap(), 0x07);
    let encoded = &out[colon + 1..out.len() - 1];
    let decoded = base64::decode(encoded).unwrap();
    assert_eq!(decoded, payload);
}

#[test]
fn payload_lengths_cover_every_padding_shape() {
    for len in 0..9usize {
        let payload: Vec<u8> = (0..len as u8).map(|b| b.wrapping_mul(37).wrapping_add(11)).collect();
        let mut builder = InlineImageBuilder::new();
        builder.set_data(payload.clone());
        let out = builder.serialize();
        let colon = out.iter().position(|&b| b == b':').unwrap();
        let encoded = &out[colon + 1..out.len() - 1];
        assert_eq!(encoded, base64::encode(&payload).as_bytes());
        assert_eq!(base64::decode(encoded).unwrap(), payload);
    }
}

#[test]
fn setters_overwrite_previous_values() {
    let mut builder = InlineImageBuilder::new();
    builder.set_size(5);
    builder.set_size(6);
    builder.set_name("first".to_string());
    builder.set_name(String::new());
    let out = builder.serialize();
    assert_eq!(out, b"\x1b]1337;File=size=6;preserveAspectRatio=1;inline=0;:\x07".to_vec());
}
