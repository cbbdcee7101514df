use novelseek::images::{
    character_portrait_template, cover_prompt_template, generate_image_url, image_data_url,
    scene_illustration_template, social_media_poster_template, test_image_url,
    ImageGenerationParams,
};

fn full_params(prompt: &str) -> ImageGenerationParams {
    ImageGenerationParams {
        prompt: prompt.to_string(),
        width: Some(1200),
        height: Some(400),
        seed: Some(-1),
        model: Some("zimage".to_string()),
        nologo: Some(true),
        enhance: Some(false),
    }
}

#[test]
fn image_url_carries_all_query_parts_in_order() {
    let url = generate_image_url("https://gen.pollinations.ai", &full_params("a cat"));
    assert_eq!(
        url,
        "https://gen.pollinations.ai/image/a%20cat?model=zimage&width=1200&height=400&seed=-1&nologo=true"
    );
}

#[test]
fn prompt_is_percent_encoded_like_the_encoder() {
    let prompt = "星空 under stars, 50%";
    let url = generate_image_url("http://b", &full_params(prompt));
    let expected_path = urlencoding::encode(prompt);
    assert!(url.starts_with(&format!("http://b/image/{}?", expected_path)));
}

#[test]
fn absent_options_leave_no_query() {
    let p = ImageGenerationParams {
        prompt: "x".to_string(),
        width: None,
        height: None,
        seed: None,
        model: None,
        nologo: None,
        enhance: None,
    };
    assert_eq!(generate_image_url("http://b", &p), "http://b/image/x");
}

#[test]
fn false_flags_are_omitted_and_enhance_appears_when_true() {
    let mut p = full_params("x");
    p.nologo = Some(false);
    p.enhance = Some(true);
    p.seed = Some(7);
    let url = generate_image_url("http://b", &p);
    assert_eq!(url, "http://b/image/x?model=zimage&width=1200&height=400&seed=7&enhance=true");
}

#[test]
fn defaults_match_the_documented_shape() {
    let d = ImageGenerationParams::default();
    assert_eq!(d.prompt, "");
    assert_eq!(d.width, Some(1024));
    assert_eq!(d.height, Some(1024));
    assert_eq!(d.seed, Some(-1));
    assert_eq!(d.model.as_deref(), Some("zimage"));
    assert_eq!(d.nologo, Some(true));
    assert_eq!(d.enhance, Some(false));
}

#[test]
fn data_url_wraps_standard_base64() {
    assert_eq!(image_data_url(&[0, 1, 2]), "data:image/png;base64,AAEC");
    assert_eq!(image_data_url(&[]), "data:image/png;base64,");
    let bytes: Vec<u8> = (0..=255u8).collect();
    let expected = base64::Engine::encode(&base64::engine::general_purpose::STANDARD, &bytes);
    assert_eq!(image_data_url(&bytes), format!("data:image/png;base64,{}", expected));
    // Padding of a final short group.
    assert_eq!(image_data_url(b"ab"), "data:image/png;base64,YWI=");
    assert_eq!(image_data_url(b"a"), "data:image/png;base64,YQ==");
}

#[test]
fn probe_url() {
    assert_eq!(
        test_image_url("https://gen.pollinations.ai"),
        "https://gen.pollinations.ai/image/test?width=64&height=64&model=zimage"
    );
}

#[test]
fn templates_match_their_shapes() {
    assert_eq!(
        cover_prompt_template("星海", "sci-fi", "somber"),
        format!(
            "Book cover design for '{}', {} genre, {} mood, professional illustration, high quality, detailed, cinematic lighting, trending on artstation",
            "星海", "sci-fi", "somber"
        )
    );
    assert_eq!(
        character_portrait_template("Ada", "tall, sharp-eyed", "ink"),
        format!(
            "Character portrait of {}, {}, {} art style, detailed face, professional digital art, high quality",
            "Ada", "tall, sharp-eyed", "ink"
        )
    );
    assert_eq!(
        scene_illustration_template("a drowned city", "eerie", "watercolor"),
        format!(
            "{}, {} atmosphere, {} art style, detailed illustration, cinematic composition, professional quality",
            "a drowned city", "eerie", "watercolor"
        )
    );
    assert_eq!(
        social_media_poster_template("she lied", "rain, neon"),
        format!(
            "Social media poster: '{}', {}, eye-catching design, modern layout, high contrast, professional graphics",
            "she lied", "rain, neon"
        )
    );
}
