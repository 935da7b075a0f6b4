use headers::Header;
use std::hash::Hasher;
use std::io::Cursor;

use zpi::error::AppError;
use zpi::format::{Probe, SupportedFormat};
use zpi::handlers::image::{
    etag_matches, etag_of, file_modified_etag, header_shows, negotiate, placeholder_etag, plain, resolve, Fetch, GetImageQuery, ImageHandler, Metadata, ModTime,
    Negotiation, Removal, UploadPlan,
};
use zpi::image::{
    center_crop, CropRect, DataImage, ImageConfig, Opened, ProfileImage, ResponseImage,
    IMAGE_SAVE_TYPE, MAX_RESOLUTION,
};

fn standard() -> ImageConfig {
    ImageConfig::standard()
}

fn profile_of(user_id: u32) -> ProfileImage {
    ProfileImage::new(user_id, &standard())
}

fn stored(name: &str) -> ResponseImage {
    ResponseImage::File { name: name.to_string(), format: SupportedFormat::Webp }
}

fn fetch(
    params: GetImageQuery,
    user_id: u32,
    if_none_match: Option<&str>,
    metadata: Metadata,
    opened: Opened,
) -> Result<Fetch, AppError> {
    ImageHandler::get(&params, user_id, if_none_match, metadata, opened, &standard())
}

fn encoded(width: u32, height: u32, format: image::ImageFormat) -> Vec<u8> {
    let picture = image::DynamicImage::ImageRgb8(image::RgbImage::new(width, height));
    let mut bytes = Vec::new();
    picture.write_to(&mut Cursor::new(&mut bytes), format).unwrap();
    bytes
}

fn query(placeholder: Option<bool>, size: Option<u32>) -> GetImageQuery {
    GetImageQuery { placeholder, size }
}

fn status(result: &Result<Fetch, AppError>) -> u16 {
    match result {
        Ok(Fetch::NotModified) => 304,
        Ok(Fetch::Image { .. }) => 200,
        Err(e) => e.error_page().0,
    }
}

fn written_at(secs: u64) -> ModTime {
    ModTime { secs, nanos: 500 }
}

fn quoted_digest(text: &str) -> String {
    let mut hasher = std::collections::hash_map::DefaultHasher::new();
    hasher.write(text.as_bytes());
    format!("\"{}\"", hasher.finish())
}

#[test]
fn get_image_default() {
    let response = fetch(query(None, None), 1, None, Metadata::Missing, Opened::Missing);
    assert_eq!(status(&response), 200);
    assert_eq!(
        response,
        Ok(Fetch::Image { image: ResponseImage::Placeholder(1), etag: quoted_digest("1") })
    );
}

#[test]
fn get_image_placeholder() {
    let response =
        fetch(query(Some(true), None), 1, None, Metadata::Missing, Opened::Missing);
    assert_eq!(status(&response), 200);
}

#[test]
fn get_image_no_placeholder_404() {
    let response =
        fetch(query(Some(false), None), 1, None, Metadata::Missing, Opened::Missing);
    assert_eq!(status(&response), 404);
    assert_eq!(response, Err(AppError::NotFound));
}

#[test]
fn get_image_no_placeholder() {
    let modified = written_at(1_700_000_000);
    let response = fetch(query(Some(false), None),
        2,
        None,
        Metadata::Modified(modified),
        Opened::File,
    );
    assert_eq!(status(&response), 200);
    assert_eq!(
        response,
        Ok(Fetch::Image {
            image: stored("2.512.webp"),
            etag: etag_of(modified),
        })
    );
}

#[test]
fn never_uploaded_key_without_and_with_placeholder() {
    let without =
        fetch(query(Some(false), Some(64)), 99, None, Metadata::Missing, Opened::Missing);
    assert_eq!(status(&without), 404);
    let with =
        fetch(query(Some(true), Some(64)), 99, None, Metadata::Missing, Opened::Missing);
    assert_eq!(status(&with), 200);
    match with {
        Ok(Fetch::Image { image, etag }) => {
            assert_eq!(image, ResponseImage::Placeholder(99));
            assert_eq!(image.content_type(), "image/svg+xml");
            assert_eq!(etag, quoted_digest("99"));
        }
        other => panic!("unexpected answer {:?}", other),
    }
}

#[test]
fn placeholder_validator_is_the_quoted_digest_of_the_id() {
    assert_eq!(placeholder_etag(99), quoted_digest("99"));
    assert_eq!(placeholder_etag(0), quoted_digest("0"));
    assert_eq!(placeholder_etag(u32::MAX), quoted_digest("4294967295"));
    assert_eq!(placeholder_etag(7), placeholder_etag(7));
    assert_ne!(placeholder_etag(7), placeholder_etag(8));
    assert!(plain(&placeholder_etag(7)));
}

#[test]
fn second_fetch_of_a_placeholder_is_not_modified() {
    let params = query(None, Some(64));
    let first = fetch(params, 99, None, Metadata::Missing, Opened::Missing);
    let etag = match first {
        Ok(Fetch::Image { image: ResponseImage::Placeholder(99), etag }) => etag,
        other => panic!("unexpected answer {:?}", other),
    };
    // the validator is the same whatever size is asked for
    let other_size = fetch(query(Some(true), Some(512)), 99, None, Metadata::Missing, Opened::Missing);
    assert_eq!(
        other_size,
        Ok(Fetch::Image { image: ResponseImage::Placeholder(99), etag: etag.clone() })
    );

    let second = fetch(params, 99, Some(etag.as_str()), Metadata::Missing, Opened::Missing);
    assert_eq!(second, Ok(Fetch::NotModified));
    assert_eq!(status(&second), 304);

    // another user's placeholder is another picture
    let other_user = fetch(params, 98, Some(etag.as_str()), Metadata::Missing, Opened::Missing);
    assert_eq!(
        other_user,
        Ok(Fetch::Image { image: ResponseImage::Placeholder(98), etag: quoted_digest("98") })
    );

    // a request that declines the placeholder is not served from the cache either
    let declined =
        fetch(query(Some(false), Some(64)), 99, Some(etag.as_str()), Metadata::Missing, Opened::Missing);
    assert_eq!(declined, Err(AppError::NotFound));

    // once a file is there, the placeholder's validator no longer holds
    let modified = written_at(1_700_000_000);
    let uploaded = fetch(params, 99, Some(etag.as_str()), Metadata::Modified(modified), Opened::File);
    assert_eq!(
        uploaded,
        Ok(Fetch::Image { image: stored("99.128.webp"), etag: etag_of(modified) })
    );
}

#[test]
fn metadata_decides_whether_there_is_a_file() {
    let params = query(None, None);
    let placeholder =
        Ok(Fetch::Image { image: ResponseImage::Placeholder(4), etag: placeholder_etag(4) });
    assert_eq!(fetch(params, 4, None, Metadata::Missing, Opened::File), placeholder);
    assert_eq!(
        fetch(params, 4, None, Metadata::Missing, Opened::Failed("busy".to_string())),
        placeholder
    );
    // a file that is gone by the time it is opened
    let modified = written_at(3);
    assert_eq!(fetch(params, 4, None, Metadata::Modified(modified), Opened::Missing), placeholder);
    assert_eq!(
        fetch(query(Some(false), None), 4, None, Metadata::Modified(modified), Opened::Missing),
        Err(AppError::NotFound)
    );
    assert_eq!(
        fetch(params, 4, None, Metadata::Modified(modified), Opened::Failed("busy".to_string())),
        Err(AppError::Io("busy".to_string()))
    );
}

#[test]
fn texts_with_a_blank_inside_quotes_are_not_plain() {
    assert!(plain(""));
    assert!(plain("*"));
    assert!(plain("\"a\", \"b\""));
    assert!(plain("W/\"a\" ,\t\"b\""));
    assert!(plain("no tag"));
    assert!(!plain("\"a b\""));
    assert!(!plain("\"a\tb\""));
    assert!(!plain("\"a\", \"b c\""));
    assert!(!plain("\"unclosed "));
    assert!(plain("\"\u{e9}\""));
    assert!(plain("\u{e9} \"\u{e9}\""));
    assert!(!plain("\"\u{e9} \""));
}

#[test]
fn a_header_shows_the_validator_that_one_of_its_tags_is() {
    let current = "\"1\"";
    assert!(header_shows("\"1\"", current));
    assert!(header_shows("W/\"1\"", current));
    assert!(header_shows("\"0\", \"1\"", current));
    assert!(header_shows("\"1\",\"0\"", current));
    assert!(header_shows("\"0\" , W/\"1\"\t,\"2\"", current));
    assert!(header_shows("  \"1\"\t", current));
    assert!(header_shows("\"a,\", \"1\"", current));
    assert!(header_shows(",, \"1\",", current));

    assert!(!header_shows("", current));
    assert!(!header_shows(",", current));
    assert!(!header_shows("\"0\"", current));
    assert!(!header_shows("\"0\", \"2\"", current));
    assert!(!header_shows("\"11\"", current));
    assert!(!header_shows("1", current));
    assert!(!header_shows("w/\"1\"", current));
    assert!(!header_shows("\"1,2\"", current));
    assert!(!header_shows("\"0, \"1\"", current));
}

#[test]
fn a_tag_that_cannot_be_compared_hides_no_other() {
    let current = "\"1\"";
    assert!(!header_shows("\"a b\"", current));
    assert!(header_shows("\"1\", \"a b\"", current));
    assert!(header_shows("\"a b\", \"1\"", current));
    assert!(header_shows("\"a\tb\",W/\"1\"", current));
    assert!(header_shows("\"1\", \"\u{e9}\"", current));
    assert!(header_shows("\"\u{e9} \", \"1\"", current));
    assert!(header_shows("\"1\", bad\nvalue", current));
    assert!(header_shows("\"1\", \"unclosed", current));
    assert!(!header_shows("\"unclosed, \"1\"", current));

    // a validator that is not plain is shown by nothing
    assert!(!header_shows("\"a b\"", "\"a b\""));
    assert!(!header_shows("*", "\"a b\""));
    assert!(!header_shows("\"\u{e9}\"", "\"\u{e9}\""));

    let modified = written_at(55);
    let etag = etag_of(modified);
    assert_eq!(negotiate(Some(modified), Some("\"a b\"")), Negotiation::Serve(etag.clone()));
    let beside = format!("\"a b\", {}", etag);
    assert_eq!(negotiate(Some(modified), Some(beside.as_str())), Negotiation::NotModified);
    let behind = format!("{}, \"a b\"", etag);
    assert_eq!(negotiate(Some(modified), Some(behind.as_str())), Negotiation::NotModified);
    let blank = Some("\"a b\"".to_string());
    assert!(!etag_matches(blank.as_deref(), &blank));
    let sent = fetch(query(None, None), 2, Some("\"a b\""), Metadata::Modified(modified), Opened::File);
    assert_eq!(sent, Ok(Fetch::Image { image: stored("2.512.webp"), etag }));
    let held =
        fetch(query(None, None), 2, Some(behind.as_str()), Metadata::Modified(modified), Opened::File);
    assert_eq!(held, Ok(Fetch::NotModified));
}

fn crate_answer(header: &str, etag: &str) -> bool {
    let value = match headers::HeaderValue::from_str(header) {
        Ok(value) => value,
        Err(_) => return false,
    };
    let decoded = match headers::IfNoneMatch::decode(&mut std::iter::once(&value)) {
        Ok(decoded) => decoded,
        Err(_) => return false,
    };
    match etag.parse::<headers::ETag>() {
        Ok(tag) => !decoded.precondition_passes(&tag),
        Err(_) => false,
    }
}

#[test]
fn plain_headers_are_answered_as_a_whole_header_is() {
    let headers = [
        "",
        ",",
        "*",
        " *",
        "**",
        "\"0\", *",
        "*, \"1\"",
        "\"1\"",
        "W/\"1\"",
        "w/\"1\"",
        "\"0\"",
        "\"11\"",
        "1",
        "\"0\", \"1\"",
        "\"1\",\"0\"",
        "\"0\" , W/\"1\"\t,\"2\"",
        "  \"1\"\t",
        "\"a,\", \"1\"",
        "\"1,2\"",
        ",, \"1\",",
        "\"1\", \"unclosed",
        "\"xyzzy\", \"r2d2xxxx\", \"c3piozzzz\"",
        "W/\"xyzzy\", W/\"r2d2xxxx\", W/\"c3piozzzz\"",
    ];
    let etags = ["\"1\"", "W/\"1\"", "\"0\"", "\"r2d2xxxx\"", "\"\"", "no tag", "\"1"];
    for header in headers {
        for etag in etags {
            assert_eq!(
                header_shows(header, etag),
                crate_answer(header, etag),
                "header {:?} against {:?}",
                header,
                etag
            );
        }
    }
}

#[test]
fn a_star_stands_for_any_tag_only_as_the_whole_header() {
    let current = "\"1\"";
    assert!(header_shows("*", current));
    assert!(header_shows("*", "W/\"1\""));
    assert!(header_shows("*", "\"\u{e9}\""));
    assert!(!header_shows("*", "no tag"));
    assert!(!header_shows(" *", current));
    assert!(!header_shows("* ", current));
    assert!(!header_shows("**", current));
    assert!(!header_shows("\"0\", *", current));
    assert!(!header_shows("*, \"0\"", current));
    assert!(header_shows("*, \"1\"", current));
}

#[test]
fn resolver_picks_the_next_larger_size() {
    let available = [64, 128, 256, 512];
    assert_eq!(resolve(100, &available), Some(128));
    assert_eq!(resolve(0, &available), Some(64));
    assert_eq!(resolve(64, &available), Some(128));
    assert_eq!(resolve(63, &available), Some(64));
    assert_eq!(resolve(511, &available), Some(512));
}

#[test]
fn resolver_serves_the_largest_size_to_larger_requests() {
    let available = [64, 128, 256, 512];
    assert_eq!(resolve(600, &available), Some(512));
    assert_eq!(resolve(512, &available), Some(512));
    assert_eq!(resolve(u32::MAX, &available), Some(512));
}

#[test]
fn resolver_does_not_depend_on_the_order_of_the_sizes() {
    assert_eq!(resolve(100, &[512, 64, 256, 128]), Some(128));
    assert_eq!(resolve(600, &[512, 64, 256, 128]), Some(512));
    assert_eq!(resolve(5, &[7]), Some(7));
    assert_eq!(resolve(9, &[7]), Some(7));
}

#[test]
fn resolver_has_nothing_to_pick_from_no_sizes() {
    assert_eq!(resolve(100, &[]), None);
}

#[test]
fn configured_sizes_are_the_four_standard_ones() {
    let config = standard();
    assert_eq!(config.sizes, vec![64, 128, 256, 512]);
    assert_eq!(config.max_resolution, 10000);
    assert_eq!(config.save_type, SupportedFormat::Webp);
    assert_eq!(ImageHandler::size(&query(None, None), &config), 512);
    assert_eq!(ImageHandler::size(&query(None, Some(100)), &config), 128);
    assert_eq!(ImageHandler::size(&query(None, Some(4000)), &config), 512);
    assert_eq!(ImageHandler::target(&query(None, Some(1)), 7, &config), "7.64.webp");
}

#[test]
fn file_names_are_built_from_id_size_and_extension() {
    let profile = profile_of(42);
    assert_eq!(profile.path_orig(), "42");
    assert_eq!(profile.path(64), "42.64.webp");
    assert_eq!(profile.path(128), "42.128.webp");
    assert_eq!(profile_of(0).path(0), "0.0.webp");
    assert_eq!(
        profile_of(u32::MAX).path(u32::MAX),
        "4294967295.4294967295.webp"
    );
    assert_eq!(IMAGE_SAVE_TYPE, SupportedFormat::Webp);
}

#[test]
fn file_names_of_different_users_and_sizes_differ() {
    let mut names = Vec::new();
    for user in [1u32, 11, 111, 2] {
        let profile = profile_of(user);
        names.push(profile.path_orig());
        for size in [1u32, 11, 64, 128] {
            names.push(profile.path(size));
        }
    }
    for i in 0..names.len() {
        for j in 0..i {
            assert_ne!(names[i], names[j]);
        }
    }
}

#[test]
fn crop_is_the_centered_square() {
    assert_eq!(center_crop(300, 200), CropRect { x: 50, y: 0, side: 200 });
    assert_eq!(center_crop(200, 300), CropRect { x: 0, y: 50, side: 200 });
    assert_eq!(center_crop(64, 64), CropRect { x: 0, y: 0, side: 64 });
    assert_eq!(center_crop(5, 2), CropRect { x: 1, y: 0, side: 2 });
    assert_eq!(center_crop(0, 9), CropRect { x: 0, y: 4, side: 0 });
}

#[test]
fn upload_of_a_300_by_200_jpeg_for_key_42() {
    let data = encoded(300, 200, image::ImageFormat::Jpeg);
    let config = ImageConfig::new(vec![64, 128], 10000, SupportedFormat::Webp).unwrap();
    let image = ProfileImage::new(42, &config).with_data(&data).unwrap();
    assert_eq!(
        image,
        DataImage {
            profile: ProfileImage::new(42, &config),
            format: SupportedFormat::Jpeg,
            width: 300,
            height: 200,
        }
    );
    assert_eq!(image.crop(), CropRect { x: 50, y: 0, side: 200 });

    let plan = ImageHandler::post(42, &data, &config).unwrap();
    assert_eq!(plan.original, "42");
    let jobs = image.save_sizes(&config.sizes);
    assert_eq!(jobs, plan.jobs);
    assert_eq!(jobs.len(), 2);
    assert_eq!((jobs[0].size, jobs[0].width, jobs[0].height), (64, 64, 64));
    assert_eq!((jobs[1].size, jobs[1].width, jobs[1].height), (128, 128, 128));
    assert_eq!(jobs[0].target, "42.64.webp");
    assert_eq!(jobs[1].target, "42.128.webp");
    for job in &jobs {
        assert_eq!(job.source, "42");
        assert_eq!(job.crop, CropRect { x: 50, y: 0, side: 200 });
    }
    assert_eq!(
        jobs[0].arguments,
        vec![
            "42", "-coalesce", "-crop", "200x200+50+0", "+repage", "-filter", "Robidoux",
            "-resize", "64x64!", "42.64.webp",
        ]
    );
    assert_eq!(jobs[1].arguments[8], "128x128!");
    assert_eq!(jobs[1].arguments[9], "42.128.webp");
}

#[test]
fn upload_plan_covers_every_configured_size() {
    let data = encoded(40, 70, image::ImageFormat::Png);
    let plan: UploadPlan = ImageHandler::post(5, &data, &standard()).unwrap();
    assert_eq!(plan.original, "5");
    let targets: Vec<&str> = plan.jobs.iter().map(|job| job.target.as_str()).collect();
    assert_eq!(targets, vec!["5.64.webp", "5.128.webp", "5.256.webp", "5.512.webp"]);
    for (job, size) in plan.jobs.iter().zip([64u32, 128, 256, 512]) {
        assert_eq!(job.size, size);
        assert_eq!(job.width, size);
        assert_eq!(job.height, size);
        assert_eq!(job.crop, CropRect { x: 0, y: 15, side: 40 });
    }
}

#[test]
fn webp_uploads_are_taken() {
    let data = encoded(3, 9, image::ImageFormat::WebP);
    let image = profile_of(1).with_data(&data).unwrap();
    assert_eq!((image.format, image.width, image.height), (SupportedFormat::Webp, 3, 9));
}

#[test]
fn too_large_an_image_is_refused_before_anything_is_planned() {
    let wide = encoded(MAX_RESOLUTION + 1, 1, image::ImageFormat::Png);
    assert_eq!(profile_of(3).with_data(&wide), Err(AppError::ImageResTooLarge));
    assert_eq!(ImageHandler::post(3, &wide, &standard()), Err(AppError::ImageResTooLarge));
    assert_eq!(AppError::ImageResTooLarge.error_page().0, 413);

    let tall = encoded(1, MAX_RESOLUTION + 1, image::ImageFormat::Png);
    assert_eq!(ImageHandler::post(3, &tall, &standard()), Err(AppError::ImageResTooLarge));

    let largest = encoded(MAX_RESOLUTION, 1, image::ImageFormat::Png);
    assert!(ImageHandler::post(3, &largest, &standard()).is_ok());
}

fn crc32(bytes: &[u8]) -> u32 {
    let mut crc = 0xffff_ffffu32;
    for &byte in bytes {
        crc ^= u32::from(byte);
        for _ in 0..8 {
            crc = if crc & 1 == 1 { (crc >> 1) ^ 0xedb8_8320 } else { crc >> 1 };
        }
    }
    !crc
}

/// The signature and the header chunk of a PNG file, with nothing behind them.
fn png_header(width: u32, height: u32, bit_depth: u8, color_type: u8) -> Vec<u8> {
    let mut chunk = b"IHDR".to_vec();
    chunk.extend_from_slice(&width.to_be_bytes());
    chunk.extend_from_slice(&height.to_be_bytes());
    chunk.extend_from_slice(&[bit_depth, color_type, 0, 0, 0]);
    let mut bytes = vec![0x89u8, 0x50, 0x4e, 0x47, 0x0d, 0x0a, 0x1a, 0x0a];
    bytes.extend_from_slice(&13u32.to_be_bytes());
    bytes.extend_from_slice(&chunk);
    bytes.extend_from_slice(&crc32(&chunk).to_be_bytes());
    bytes
}

#[test]
fn an_image_beyond_what_the_decoder_takes_in_is_too_large() {
    // two thousand million pixels each way, eight bytes each: more than any memory holds
    let huge = png_header(0x7fff_ffff, 0x7fff_ffff, 16, 6);
    assert_eq!(SupportedFormat::guess(&huge), Ok(SupportedFormat::Png));
    assert_eq!(profile_of(3).with_data(&huge), Err(AppError::ImageResTooLarge));
    assert_eq!(ImageHandler::post(3, &huge, &standard()), Err(AppError::ImageResTooLarge));

    // a header that ends too early says nothing of a size
    let cut = png_header(0x7fff_ffff, 0x7fff_ffff, 16, 6);
    assert_eq!(ImageHandler::post(3, &cut[..20], &standard()), Err(AppError::WrongFileType));
    // nor does one whose check sum is wrong
    let mut spoilt = png_header(0x7fff_ffff, 0x7fff_ffff, 16, 6);
    spoilt[20] ^= 1;
    assert_eq!(ImageHandler::post(3, &spoilt, &standard()), Err(AppError::WrongFileType));
    // and a small image of which only the header is there is no image
    let small = png_header(5, 5, 8, 6);
    assert_eq!(ImageHandler::post(3, &small, &standard()), Err(AppError::WrongFileType));

    assert_eq!(
        DataImage::from_decoded(profile_of(1), Ok(SupportedFormat::Png), Probe::TooLarge),
        Err(AppError::ImageResTooLarge)
    );
    assert_eq!(
        DataImage::from_decoded(profile_of(1), Err(AppError::WrongFileType), Probe::TooLarge),
        Err(AppError::WrongFileType)
    );
}

#[test]
fn decoded_size_counts_and_not_the_size_of_the_data() {
    assert_eq!(
        DataImage::from_decoded(profile_of(1), Ok(SupportedFormat::Png), Probe::Size(10001, 5)),
        Err(AppError::ImageResTooLarge)
    );
    assert_eq!(
        DataImage::from_decoded(profile_of(1), Ok(SupportedFormat::Png), Probe::Size(5, 10001)),
        Err(AppError::ImageResTooLarge)
    );
    assert_eq!(
        DataImage::from_decoded(profile_of(1), Ok(SupportedFormat::Png), Probe::Unreadable),
        Err(AppError::WrongFileType)
    );
    assert_eq!(
        DataImage::from_decoded(profile_of(1), Err(AppError::WrongFileType), Probe::Size(5, 5)),
        Err(AppError::WrongFileType)
    );
    assert_eq!(
        DataImage::from_decoded(profile_of(1), Ok(SupportedFormat::Jpeg), Probe::Size(10000, 10000)),
        Ok(DataImage {
            profile: profile_of(1),
            format: SupportedFormat::Jpeg,
            width: 10000,
            height: 10000,
        })
    );
}

#[test]
fn wrong_and_broken_files_are_refused() {
    assert_eq!(ImageHandler::post(1, b"not an image at all", &standard()), Err(AppError::WrongFileType));
    assert_eq!(ImageHandler::post(1, b"", &standard()), Err(AppError::WrongFileType));
    let gif = encoded_gif_header();
    assert_eq!(ImageHandler::post(1, &gif, &standard()), Err(AppError::WrongFileType));
    // the signature of a PNG file with nothing behind it
    let truncated = [0x89u8, 0x50, 0x4e, 0x47, 0x0d, 0x0a, 0x1a, 0x0a];
    assert_eq!(SupportedFormat::guess(&truncated), Ok(SupportedFormat::Png));
    assert_eq!(ImageHandler::post(1, &truncated, &standard()), Err(AppError::WrongFileType));
    assert_eq!(AppError::WrongFileType.error_page().0, 400);
}

fn encoded_gif_header() -> Vec<u8> {
    let mut bytes = b"GIF89a".to_vec();
    bytes.extend_from_slice(&[1, 0, 1, 0, 0, 0, 0]);
    bytes
}

#[test]
fn formats_are_told_apart_by_their_first_bytes() {
    assert_eq!(
        SupportedFormat::guess(&encoded(2, 2, image::ImageFormat::Png)),
        Ok(SupportedFormat::Png)
    );
    assert_eq!(
        SupportedFormat::guess(&encoded(2, 2, image::ImageFormat::Jpeg)),
        Ok(SupportedFormat::Jpeg)
    );
    assert_eq!(
        SupportedFormat::guess(&encoded(2, 2, image::ImageFormat::WebP)),
        Ok(SupportedFormat::Webp)
    );
    assert_eq!(SupportedFormat::guess(&[0xff, 0xd8, 0xff]), Ok(SupportedFormat::Jpeg));
    assert_eq!(SupportedFormat::guess(&[0xff, 0xd8]), Err(AppError::WrongFileType));
    assert_eq!(SupportedFormat::guess(b"RIFF\x01\x02\x03\x04WEBP"), Ok(SupportedFormat::Webp));
    assert_eq!(SupportedFormat::guess(b"RIFF\x01\x02\x03\x04WEBQ"), Err(AppError::WrongFileType));
    assert_eq!(SupportedFormat::guess(b"RIFF\x01\x02\x03\x04WEB"), Err(AppError::WrongFileType));
    assert_eq!(SupportedFormat::guess(b"RIFF\x01\x02\x03\x04WAVE"), Err(AppError::WrongFileType));
    assert_eq!(SupportedFormat::guess(&encoded_gif_header()), Err(AppError::WrongFileType));
    assert_eq!(SupportedFormat::guess(b"BM123456"), Err(AppError::WrongFileType));
}

#[test]
fn extensions_and_media_types() {
    assert_eq!(SupportedFormat::Jpeg.extension(), "jpg");
    assert_eq!(SupportedFormat::Png.extension(), "png");
    assert_eq!(SupportedFormat::Webp.extension(), "webp");
    assert_eq!(SupportedFormat::Jpeg.mime_type(), "image/jpeg");
    assert_eq!(SupportedFormat::Png.mime_type(), "image/png");
    assert_eq!(SupportedFormat::Webp.mime_type(), "image/webp");
    assert_eq!(stored("1.64.webp").content_type(), "image/webp");
}

#[test]
fn resizer_runs_settle_to_the_first_failure() {
    assert_eq!(DataImage::resizer_result(true, b"ignored"), Ok(()));
    assert_eq!(
        DataImage::resizer_result(false, b"magick: no decode delegate"),
        Err(AppError::Magick("magick: no decode delegate".to_string()))
    );
    assert_eq!(
        DataImage::resizer_result(false, &[0xff, 0xfe]),
        Err(AppError::Internal("utf8".to_string()))
    );
    assert_eq!(DataImage::settle(vec![]), Ok(()));
    assert_eq!(DataImage::settle(vec![Ok(()), Ok(())]), Ok(()));
    assert_eq!(
        DataImage::settle(vec![
            Ok(()),
            Err(AppError::Magick("first".to_string())),
            Ok(()),
            Err(AppError::Io("second".to_string())),
        ]),
        Err(AppError::Magick("first".to_string()))
    );
    assert_eq!(ImageHandler::uploaded(vec![Ok(()), Ok(())]), Ok(204));
    assert_eq!(
        ImageHandler::uploaded(vec![Ok(()), Err(AppError::Io("disk full".to_string()))]),
        Err(AppError::Io("disk full".to_string()))
    );
    assert_eq!(AppError::Magick("x".to_string()).error_page().0, 500);
}

#[test]
fn opening_a_file_decides_what_is_served() {
    let profile = profile_of(8);
    assert_eq!(
        profile.get(128, Opened::File),
        Ok(stored("8.128.webp"))
    );
    assert_eq!(profile.get(128, Opened::Missing), Err(AppError::NotFound));
    assert_eq!(
        profile.get(128, Opened::Failed("permission denied".to_string())),
        Err(AppError::Io("permission denied".to_string()))
    );
    assert_eq!(
        profile.get_with_placeholder(128, Opened::Missing),
        Ok(ResponseImage::Placeholder(8))
    );
    assert_eq!(
        profile.get_with_placeholder(128, Opened::File),
        Ok(stored("8.128.webp"))
    );
    assert_eq!(
        profile.get_with_placeholder(128, Opened::Failed("busy".to_string())),
        Err(AppError::Io("busy".to_string()))
    );
}

#[test]
fn validator_is_the_quoted_digest_of_the_time() {
    let mut hasher = std::collections::hash_map::DefaultHasher::new();
    hasher.write(b"1700000000.500");
    let expected = format!("\"{}\"", hasher.finish());
    assert_eq!(etag_of(written_at(1_700_000_000)), expected);
    assert_eq!(etag_of(written_at(1_700_000_000)), etag_of(written_at(1_700_000_000)));
    assert_ne!(etag_of(written_at(1_700_000_000)), etag_of(written_at(1_700_000_001)));
    assert_ne!(
        etag_of(ModTime { secs: 12, nanos: 3 }),
        etag_of(ModTime { secs: 1, nanos: 23 })
    );
}

#[test]
fn metadata_decides_the_validator() {
    let modified = written_at(77);
    assert_eq!(file_modified_etag(Metadata::Modified(modified)), Ok(Some(etag_of(modified))));
    assert_eq!(file_modified_etag(Metadata::Missing), Ok(None));
    assert_eq!(
        file_modified_etag(Metadata::Failed("bad disk".to_string())),
        Err(AppError::Io("bad disk".to_string()))
    );
}

#[test]
fn second_fetch_with_the_first_validator_is_not_modified() {
    let modified = written_at(1_700_000_123);
    let params = query(None, Some(100));
    let first = fetch(params, 2, None, Metadata::Modified(modified), Opened::File);
    assert_eq!(status(&first), 200);
    let etag = match first {
        Ok(Fetch::Image { image: ResponseImage::File { name, format }, etag }) => {
            assert_eq!(name, "2.128.webp");
            assert_eq!(format, SupportedFormat::Webp);
            etag
        }
        other => panic!("unexpected answer {:?}", other),
    };
    let second = fetch(
        params,
        2,
        Some(etag.as_str()),
        Metadata::Modified(modified),
        Opened::File,
    );
    assert_eq!(second, Ok(Fetch::NotModified));
    assert_eq!(status(&second), 304);

    // once the file was written again, the old validator no longer holds
    let third = fetch(
        params,
        2,
        Some(etag.as_str()),
        Metadata::Modified(written_at(1_700_000_999)),
        Opened::File,
    );
    assert_eq!(status(&third), 200);
}

#[test]
fn negotiation_follows_the_if_none_match_header() {
    let modified = written_at(55);
    let etag = etag_of(modified);
    assert_eq!(negotiate(None, None), Negotiation::Absent);
    assert_eq!(negotiate(None, Some(etag.as_str())), Negotiation::Absent);
    assert_eq!(negotiate(Some(modified), None), Negotiation::Serve(etag.clone()));
    assert_eq!(negotiate(Some(modified), Some(etag.as_str())), Negotiation::NotModified);
    assert_eq!(negotiate(Some(modified), Some("\"another\"")), Negotiation::Serve(etag.clone()));
    assert_eq!(negotiate(Some(modified), Some("*")), Negotiation::NotModified);
    let weak = format!("W/{}", etag);
    assert_eq!(negotiate(Some(modified), Some(weak.as_str())), Negotiation::NotModified);
    let list = format!("\"a\", {}, \"b\"", etag);
    assert_eq!(negotiate(Some(modified), Some(list.as_str())), Negotiation::NotModified);
    assert_eq!(negotiate(Some(modified), Some("no tag")), Negotiation::Serve(etag.clone()));
    assert_eq!(negotiate(Some(modified), Some("bad\nvalue")), Negotiation::Serve(etag.clone()));
}

#[test]
fn header_and_validator_match_only_where_both_are_there() {
    let etag = Some(etag_of(written_at(9)));
    assert!(etag_matches(etag.as_deref(), &etag));
    assert!(!etag_matches(None, &etag));
    assert!(!etag_matches(etag.as_deref(), &None));
    assert!(!etag_matches(Some("\"x\""), &etag));
    assert!(!etag_matches(Some("\"x\""), &Some("not a tag".to_string())));
}

#[test]
fn failing_metadata_fails_the_fetch() {
    let response = fetch(query(None, None),
        1,
        None,
        Metadata::Failed("io".to_string()),
        Opened::File,
    );
    assert_eq!(response, Err(AppError::Io("io".to_string())));
    assert_eq!(status(&response), 500);
}

#[test]
fn delete_names_every_size_and_the_original() {
    assert_eq!(
        ImageHandler::delete(42, &standard()),
        vec!["42.64.webp", "42.128.webp", "42.256.webp", "42.512.webp", "42"]
    );
}

#[test]
fn deleting_twice_does_not_fail_the_second_time() {
    let first = vec![
        Removal::Removed,
        Removal::Removed,
        Removal::Missing,
        Removal::Removed,
        Removal::Removed,
    ];
    assert_eq!(ImageHandler::deleted(first), Ok(204));
    let second = vec![Removal::Missing; 5];
    assert_eq!(ImageHandler::deleted(second), Ok(204));
    assert_eq!(ImageHandler::removed(Removal::Missing), Ok(()));
    assert_eq!(ImageHandler::removed(Removal::Removed), Ok(()));
}

#[test]
fn a_failing_disk_fails_the_deletion() {
    assert_eq!(
        ImageHandler::removed(Removal::Failed("read-only".to_string())),
        Err(AppError::Io("read-only".to_string()))
    );
    assert_eq!(
        ImageHandler::deleted(vec![
            Removal::Removed,
            Removal::Failed("one".to_string()),
            Removal::Failed("two".to_string()),
        ]),
        Err(AppError::Io("one".to_string()))
    );
    assert_eq!(ImageHandler::deleted(vec![]), Ok(204));
}

#[test]
fn settings_need_ascending_sizes() {
    let webp = SupportedFormat::Webp;
    assert!(ImageConfig::new(vec![], 10000, webp).is_none());
    assert!(ImageConfig::new(vec![64, 64], 10000, webp).is_none());
    assert!(ImageConfig::new(vec![128, 64], 10000, webp).is_none());
    assert!(ImageConfig::new(vec![64, 128, 127], 10000, webp).is_none());
    assert_eq!(
        ImageConfig::new(vec![7], 5, SupportedFormat::Png),
        Some(ImageConfig { sizes: vec![7], max_resolution: 5, save_type: SupportedFormat::Png })
    );
    assert_eq!(ImageConfig::new(vec![64, 128, 256, 512], 10000, webp), Some(standard()));
}

#[test]
fn settings_decide_names_ceiling_and_sizes() {
    let config = ImageConfig::new(vec![10, 20], 50, SupportedFormat::Png).unwrap();
    let profile = ProfileImage::new(3, &config);
    assert_eq!(profile.path(10), "3.10.png");
    assert_eq!(
        profile.get(10, Opened::File),
        Ok(ResponseImage::File { name: "3.10.png".to_string(), format: SupportedFormat::Png })
    );
    assert_eq!(profile.get(10, Opened::File).unwrap().content_type(), "image/png");
    assert_eq!(ImageHandler::delete(3, &config), vec!["3.10.png", "3.20.png", "3"]);
    assert_eq!(ImageHandler::size(&query(None, None), &config), 20);
    assert_eq!(ImageHandler::size(&query(None, Some(9)), &config), 10);

    let small = encoded(50, 50, image::ImageFormat::Jpeg);
    let plan = ImageHandler::post(3, &small, &config).unwrap();
    let targets: Vec<&str> = plan.jobs.iter().map(|job| job.target.as_str()).collect();
    assert_eq!(targets, vec!["3.10.png", "3.20.png"]);
    let large = encoded(51, 50, image::ImageFormat::Jpeg);
    assert_eq!(ImageHandler::post(3, &large, &config), Err(AppError::ImageResTooLarge));
}
