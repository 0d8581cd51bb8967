use anthropic_tools::common::encode::to_base64;
use anthropic_tools::common::json::{put, put_optional, Json};
use anthropic_tools::messages::request::content::{DocumentSource, ImageSource, MediaType};
use anthropic_tools::messages::request::picture::{
    read_picture, write_picture, PictureError, PictureFormat,
};
use base64::Engine;

#[test]
fn parse_reads_every_kind_of_value() {
    let json = Json::parse(r#" {"z":null,"a":[true,false,0,18446744073709551615,-9223372036854775808,1.5,-0.25,1e3,"s\né"],"m":{"k":{}}} "#).unwrap();
    let expected = Json::Object(vec![
        (
            "a".to_string(),
            Json::Array(vec![
                Json::Bool(true),
                Json::Bool(false),
                Json::Unsigned(0),
                Json::Unsigned(u64::MAX),
                Json::Signed(i64::MIN),
                Json::Real("1.5".to_string()),
                Json::Real("-0.25".to_string()),
                Json::Real("1000.0".to_string()),
                Json::Str("s\n\u{e9}".to_string()),
            ]),
        ),
        ("m".to_string(), Json::Object(vec![("k".to_string(), Json::Object(vec![]))])),
        ("z".to_string(), Json::Null),
    ]);
    assert_eq!(json, expected);
    assert_eq!(json.clone(), expected);
}

#[test]
fn parse_rejects_what_is_no_json() {
    for text in ["", " ", "{", "[1,]", "{\"a\":}", "nul", "'x'", "{\"a\":1} x", "01", "\"unterminated"] {
        assert!(Json::parse(text).is_err(), "{:?}", text);
    }
    for text in ["null", " 1 ", "\"x\"", "[]", "{}", "\t{\"a\" : [ ]}\r\n"] {
        assert!(Json::parse(text).is_ok(), "{:?}", text);
    }
}

#[test]
fn print_and_parse_agree() {
    let json = Json::Object(vec![
        ("b".to_string(), Json::Array(vec![Json::Unsigned(1), Json::Signed(-2), Json::Real("2.5".to_string())])),
        ("a".to_string(), Json::Str("q\"uote".to_string())),
        ("c".to_string(), Json::Object(vec![("n".to_string(), Json::Null), ("t".to_string(), Json::Bool(true))])),
    ]);
    let text = json.to_text().unwrap();
    assert_eq!(text, r#"{"a":"q\"uote","b":[1,-2,2.5],"c":{"n":null,"t":true}}"#);
    let pretty = json.to_text_pretty().unwrap();
    assert_eq!(
        pretty,
        "{\n  \"a\": \"q\\\"uote\",\n  \"b\": [\n    1,\n    -2,\n    2.5\n  ],\n  \"c\": {\n    \"n\": null,\n    \"t\": true\n  }\n}"
    );
    assert_eq!(Json::parse(&text).unwrap(), Json::parse(&pretty).unwrap());
    assert_eq!(Json::parse(&text).unwrap().to_text().unwrap(), text);
}

#[test]
fn printing_takes_the_later_of_two_members_and_nulls_bad_numbers() {
    let json = Json::Object(vec![
        ("k".to_string(), Json::Unsigned(1)),
        ("k".to_string(), Json::Unsigned(2)),
        ("n".to_string(), Json::Real("not a number".to_string())),
    ]);
    assert_eq!(json.to_text().unwrap(), r#"{"k":2,"n":null}"#);
    assert_eq!(json.member("k"), Some(&Json::Unsigned(1)));
}

#[test]
fn member_lookup() {
    let json = Json::parse(r#"{"s":"x","n":7,"neg":-7,"big":18446744073709551615,"f":1.0,"b":true,"nil":null,"arr":[1],"obj":{}}"#).unwrap();
    assert_eq!(json.member("s"), Some(&Json::Str("x".to_string())));
    assert_eq!(json.member("missing"), None);
    assert_eq!(json.member("S"), None);
    assert_eq!(json.member("nil"), Some(&Json::Null));
    assert_eq!(json.optional_member("nil"), None);
    assert_eq!(json.optional_member("missing"), None);
    assert_eq!(json.optional_member("n"), Some(&Json::Unsigned(7)));
    assert_eq!(json.string_member("s"), Some("x".to_string()));
    assert_eq!(json.string_member("n"), None);
    assert_eq!(json.string_member("nil"), None);
    assert_eq!(json.string_member("missing"), None);
    assert_eq!(json.usize_member("n"), Some(7));
    assert_eq!(json.usize_member("neg"), None);
    assert_eq!(json.usize_member("f"), None);
    assert_eq!(json.usize_member("s"), None);
    assert_eq!(json.usize_member("big"), usize::try_from(u64::MAX).ok());
    assert_eq!(json.optional_string_member("s"), Some(Some("x".to_string())));
    assert_eq!(json.optional_string_member("nil"), Some(None));
    assert_eq!(json.optional_string_member("missing"), Some(None));
    assert_eq!(json.optional_string_member("n"), None);
    assert_eq!(json.optional_usize_member("n"), Some(Some(7)));
    assert_eq!(json.optional_usize_member("nil"), Some(None));
    assert_eq!(json.optional_usize_member("s"), None);
    assert_eq!(json.optional_bool_member("b"), Some(Some(true)));
    assert_eq!(json.optional_bool_member("missing"), Some(None));
    assert_eq!(json.optional_bool_member("n"), None);
    assert_eq!(json.member("arr").unwrap().as_array().map(|items| items.len()), Some(1));
    assert_eq!(json.member("obj").unwrap().as_array(), None);
    assert_eq!(json.member("s").unwrap().as_str(), Some("x"));
    assert_eq!(json.member("b").unwrap().as_bool(), Some(true));
    assert_eq!(json.member("n").unwrap().as_bool(), None);
    assert_eq!(json.member("n").unwrap().as_usize(), Some(7));
    assert_eq!(Json::Null.member("s"), None);
    assert_eq!(Json::Array(vec![]).member("s"), None);
}

#[test]
fn builders_make_what_they_say() {
    let mut members = Vec::new();
    put(&mut members, "a", Json::number(3));
    put_optional(&mut members, "b", None);
    put_optional(&mut members, "c", Some(Json::string("x")));
    put(&mut members, "d", Json::string_array(&vec!["p".to_string(), "q".to_string()]));
    put_optional(&mut members, "e", Json::optional_string(&Some("y".to_string())));
    put_optional(&mut members, "f", Json::optional_string(&None));
    put(&mut members, "g", Json::array(vec![Json::Null]));
    let json = Json::object(members);
    assert_eq!(
        json,
        Json::Object(vec![
            ("a".to_string(), Json::Unsigned(3)),
            ("c".to_string(), Json::Str("x".to_string())),
            ("d".to_string(), Json::Array(vec![Json::Str("p".to_string()), Json::Str("q".to_string())])),
            ("e".to_string(), Json::Str("y".to_string())),
            ("g".to_string(), Json::Array(vec![Json::Null])),
        ])
    );
}

#[test]
fn base64_of_known_bytes() {
    assert_eq!(to_base64(b"").as_deref(), Some(""));
    assert_eq!(to_base64(b"f").as_deref(), Some("Zg=="));
    assert_eq!(to_base64(b"fo").as_deref(), Some("Zm8="));
    assert_eq!(to_base64(b"foo").as_deref(), Some("Zm9v"));
    assert_eq!(to_base64(b"foobar").as_deref(), Some("Zm9vYmFy"));
    assert_eq!(to_base64(b"\xFF\xEC\x20\x55\0").as_deref(), Some("/+wgVQA="));
    assert_eq!(to_base64(b"hello world~").as_deref(), Some("aGVsbG8gd29ybGR+"));
}

#[test]
fn document_from_bytes_is_inline_base64() {
    let source = DocumentSource::from_bytes(b"%PDF-1.4").unwrap();
    assert_eq!(source.kind, "base64");
    assert_eq!(source.media_type.as_deref(), Some("application/pdf"));
    assert_eq!(source.data.as_deref(), Some("JVBERi0xLjQ="));
    assert!(source.url.is_none());
}

fn tiny_picture() -> image::DynamicImage {
    let mut picture = image::RgbImage::new(2, 1);
    picture.put_pixel(0, 0, image::Rgb([255, 0, 0]));
    picture.put_pixel(1, 0, image::Rgb([0, 0, 255]));
    image::DynamicImage::ImageRgb8(picture)
}

fn file_of(picture: &image::DynamicImage, format: image::ImageFormat) -> Vec<u8> {
    let mut buffer = std::io::Cursor::new(Vec::new());
    picture.write_to(&mut buffer, format).unwrap();
    buffer.into_inner()
}

#[test]
fn picture_formats_by_extension() {
    assert_eq!(PictureFormat::from_extension("png"), Some(PictureFormat::Png));
    assert_eq!(PictureFormat::from_extension("jpg"), Some(PictureFormat::Jpeg));
    assert_eq!(PictureFormat::from_extension("jpeg"), Some(PictureFormat::Jpeg));
    assert_eq!(PictureFormat::from_extension("gif"), Some(PictureFormat::Gif));
    assert_eq!(PictureFormat::from_extension("webp"), Some(PictureFormat::WebP));
    assert_eq!(PictureFormat::from_extension("PNG"), None);
    assert_eq!(PictureFormat::from_extension("bmp"), None);
    assert_eq!(PictureFormat::from_extension(""), None);
}

#[test]
fn reading_and_writing_a_picture_keeps_its_pixels() {
    let picture = tiny_picture();
    let formats = [
        ("png", PictureFormat::Png, image::ImageFormat::Png),
        ("gif", PictureFormat::Gif, image::ImageFormat::Gif),
        ("webp", PictureFormat::WebP, image::ImageFormat::WebP),
    ];
    for (extension, format, outside) in formats {
        let file = file_of(&picture, outside);
        let read = read_picture(extension, &file).unwrap();
        assert_eq!(read.to_rgb8(), picture.to_rgb8(), "{:?}", format);
        let written = write_picture(&read, format).unwrap();
        assert_eq!(written, file_of(&read, outside));
        let back = image::load_from_memory_with_format(&written, outside).unwrap();
        assert_eq!(back.to_rgb8(), picture.to_rgb8(), "{:?}", format);
    }
    let jpeg = file_of(&picture, image::ImageFormat::Jpeg);
    let read = read_picture("jpg", &jpeg).unwrap();
    assert_eq!((read.width(), read.height()), (2, 1));
    assert_eq!(
        write_picture(&read, PictureFormat::Jpeg).unwrap(),
        file_of(&read, image::ImageFormat::Jpeg)
    );
}

#[test]
fn the_extension_says_how_a_file_is_read() {
    let picture = tiny_picture();
    let png = file_of(&picture, image::ImageFormat::Png);
    let jpeg = file_of(&picture, image::ImageFormat::Jpeg);
    for extension in ["png", "PNG", "Png", "apng", "APNG"] {
        assert!(read_picture(extension, &png).is_some(), "{}", extension);
        assert!(read_picture(extension, &jpeg).is_none(), "{}", extension);
    }
    for extension in ["jpg", "jpeg", "jfif", "JPG", "JpEg"] {
        assert!(read_picture(extension, &jpeg).is_some(), "{}", extension);
        assert!(read_picture(extension, &png).is_none(), "{}", extension);
    }
    assert!(read_picture("gif", &file_of(&picture, image::ImageFormat::Gif)).is_some());
    assert!(read_picture("WEBP", &file_of(&picture, image::ImageFormat::WebP)).is_some());
    for extension in ["", "bmp", "tiff", "ico", "txt", "pn", "pngg", "p\u{f1}g", "\u{212a}"] {
        assert!(read_picture(extension, &png).is_none(), "{:?}", extension);
    }
    assert!(read_picture("png", b"not a picture").is_none());
    assert!(read_picture("gif", b"").is_none());
}

#[test]
fn image_source_from_a_file() {
    let picture = tiny_picture();
    let png = file_of(&picture, image::ImageFormat::Png);
    let source = ImageSource::from_file(MediaType::Png, Some("png"), &png).unwrap();
    assert_eq!(source.kind, "base64");
    assert_eq!(source.media_type.as_deref(), Some("image/png"));
    assert!(source.url.is_none());
    let data = base64::prelude::BASE64_STANDARD.decode(source.data.unwrap()).unwrap();
    let read = image::load_from_memory_with_format(&png, image::ImageFormat::Png).unwrap();
    assert_eq!(data, file_of(&read, image::ImageFormat::Png));
    let back = image::load_from_memory_with_format(&data, image::ImageFormat::Png).unwrap();
    assert_eq!(back.to_rgb8(), picture.to_rgb8());

    let jpeg = file_of(&picture, image::ImageFormat::Jpeg);
    let source = ImageSource::from_file(MediaType::Jpeg, Some("jpeg"), &jpeg).unwrap();
    assert_eq!(source.media_type.as_deref(), Some("image/jpeg"));
    let data = base64::prelude::BASE64_STANDARD.decode(source.data.unwrap()).unwrap();
    assert_eq!(image::guess_format(&data).unwrap(), image::ImageFormat::Jpeg);
}

#[test]
fn image_source_from_a_file_fails_in_order() {
    let picture = tiny_picture();
    let png = file_of(&picture, image::ImageFormat::Png);
    let jpeg = file_of(&picture, image::ImageFormat::Jpeg);
    let fail = |extension: Option<&str>, bytes: &[u8]| {
        ImageSource::from_file(MediaType::Png, extension, bytes).unwrap_err()
    };
    assert_eq!(fail(None, &png), PictureError::Decode);
    assert_eq!(fail(Some(""), &png), PictureError::Decode);
    assert_eq!(fail(Some("png"), b"junk"), PictureError::Decode);
    assert_eq!(fail(Some("jpg"), &png), PictureError::Decode);
    assert_eq!(fail(Some("bmp"), &png), PictureError::Decode);
    assert_eq!(fail(Some("xyz"), &png), PictureError::Decode);
    assert_eq!(fail(Some("PNG"), b"junk"), PictureError::Decode);
    assert_eq!(fail(Some("PNG"), &png), PictureError::Unsupported);
    assert_eq!(fail(Some("apng"), &png), PictureError::Unsupported);
    assert_eq!(fail(Some("jfif"), &jpeg), PictureError::Unsupported);
}

#[test]
fn image_source_from_fetched_bytes_is_png() {
    let picture = tiny_picture();
    let gif = file_of(&picture, image::ImageFormat::Gif);
    let source = ImageSource::from_fetched(MediaType::Gif, &gif).unwrap();
    assert_eq!(source.kind, "base64");
    assert_eq!(source.media_type.as_deref(), Some("image/gif"));
    let data = base64::prelude::BASE64_STANDARD.decode(source.data.unwrap()).unwrap();
    assert_eq!(image::guess_format(&data).unwrap(), image::ImageFormat::Png);
    let back = image::load_from_memory(&data).unwrap();
    assert_eq!(back.to_rgb8(), picture.to_rgb8());
    assert_eq!(ImageSource::from_fetched(MediaType::Png, b"junk").unwrap_err(), PictureError::Decode);
    let direct = ImageSource::from_picture(MediaType::Png, &picture, PictureFormat::Png).unwrap();
    assert_eq!(
        direct.data.as_deref(),
        to_base64(&file_of(&picture, image::ImageFormat::Png)).as_deref()
    );
}

#[test]
fn a_picture_too_wide_for_gif_cannot_be_written() {
    let wide = image::DynamicImage::ImageRgb8(image::RgbImage::new(70_000, 1));
    assert_eq!(write_picture(&wide, PictureFormat::Gif), Err(PictureError::Encode));
    assert_eq!(
        ImageSource::from_picture(MediaType::Gif, &wide, PictureFormat::Gif).unwrap_err(),
        PictureError::Encode
    );
    assert!(write_picture(&wide, PictureFormat::Png).is_ok());
}
