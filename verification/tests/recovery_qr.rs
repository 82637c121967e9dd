use image::codecs::jpeg::JpegEncoder;
use image::codecs::png::PngEncoder;
use image::imageops::replace;
use image::{ColorType, GrayImage, ImageEncoder, Luma};
use kilogram_cli::recovery_link::{
    HISTORY_RECOVERY_LINK_PREFIX, MAX_HISTORY_RECOVERY_LINK_TEXT_BYTES,
};
use kilogram_cli::recovery_qr::{
    accept_qr_reading, check_image_size, decode_bounded_ascii_qr_image,
    decode_recovery_link_qr_image, decoder_input, read_decoded, render_bounded_ascii_qr_png,
    render_recovery_link_qr_png, report_render, validate_payload_shape, ImageKind, QrDrawing,
    QrFault, QrReading, MAX_QR_IMAGE_ALLOC_BYTES, MAX_QR_IMAGE_DIMENSION, MAX_QR_IMAGE_FILE_BYTES,
};

fn fault<T>(result: Result<T, QrFault>) -> QrFault {
    match result {
        Ok(_) => panic!("unexpectedly accepted"),
        Err(fault) => fault,
    }
}

fn link(filler: &str, count: usize) -> String {
    format!("{HISTORY_RECOVERY_LINK_PREFIX}{}", filler.repeat(count))
}

#[test]
fn recovery_qr_round_trips_and_is_noclobber() {
    let payload = link("A", 1_100);
    let rendered = match render_recovery_link_qr_png(&payload) {
        Ok(rendered) => rendered,
        Err(fault) => panic!("{fault:?}"),
    };
    assert!(rendered.report.qr_version > 0);
    assert!(rendered.report.module_count > 0);
    assert!(rendered.report.png_bytes > 0);
    assert_eq!(rendered.report.png_bytes, rendered.png.len());

    let decoded = match decode_recovery_link_qr_image(&rendered.png) {
        Ok(decoded) => decoded,
        Err(fault) => panic!("{fault:?}"),
    };
    assert_eq!(decoded.payload, payload);
    assert_eq!(decoded.image_format, "png");
    assert_eq!(decoded.image_width, rendered.report.pixel_width);
    assert_eq!(decoded.image_height, rendered.report.pixel_height);
    assert_eq!(decoded.image_bytes, rendered.png.len() as u64);
}

#[test]
fn recovery_qr_rejects_wrong_prefix_and_oversized_payload() {
    assert_eq!(
        fault(render_recovery_link_qr_png("https://example.com")),
        QrFault::UnsupportedPrefix
    );
    let oversized = link("A", MAX_HISTORY_RECOVERY_LINK_TEXT_BYTES);
    assert_eq!(
        fault(render_recovery_link_qr_png(&oversized)),
        QrFault::PayloadTooLong
    );
}

#[test]
fn maximum_recovery_link_fits_one_qr_and_decodes() {
    let payload = link(
        "a",
        MAX_HISTORY_RECOVERY_LINK_TEXT_BYTES - HISTORY_RECOVERY_LINK_PREFIX.len(),
    );
    assert_eq!(payload.len(), MAX_HISTORY_RECOVERY_LINK_TEXT_BYTES);
    let rendered = match render_recovery_link_qr_png(&payload) {
        Ok(rendered) => rendered,
        Err(fault) => panic!("{fault:?}"),
    };
    assert_eq!(rendered.report.qr_version, 40);
    assert_eq!(rendered.report.module_count, 177);
    assert_eq!(rendered.report.pixel_width, 740);
    assert_eq!(rendered.report.pixel_height, 740);
    match decode_recovery_link_qr_image(&rendered.png) {
        Ok(decoded) => assert_eq!(decoded.payload, payload),
        Err(fault) => panic!("{fault:?}"),
    }
}

#[test]
fn recovery_qr_decoder_enforces_file_and_dimension_bounds() {
    let large = vec![0_u8; MAX_QR_IMAGE_FILE_BYTES as usize + 1];
    assert_eq!(
        fault(decode_recovery_link_qr_image(&large)),
        QrFault::ImageTooLarge
    );

    let pixels = vec![255_u8; (MAX_QR_IMAGE_DIMENSION + 1) as usize];
    let mut png = Vec::new();
    let written = PngEncoder::new(&mut png).write_image(
        &pixels,
        MAX_QR_IMAGE_DIMENSION + 1,
        1,
        ColorType::L8.into(),
    );
    assert!(written.is_ok());
    assert_eq!(
        fault(decode_recovery_link_qr_image(&png)),
        QrFault::ImageRefused
    );
}

#[test]
fn recovery_qr_accepts_jpeg_and_rejects_ambiguous_images() {
    let payload = link("a", 800);
    let rendered = match render_recovery_link_qr_png(&payload) {
        Ok(rendered) => rendered,
        Err(fault) => panic!("{fault:?}"),
    };
    let first = match image::load_from_memory(&rendered.png) {
        Ok(image) => image.to_luma8(),
        Err(error) => panic!("{error}"),
    };
    let second = first.clone();

    let mut jpeg = Vec::new();
    assert!(JpegEncoder::new_with_quality(&mut jpeg, 95)
        .encode_image(&first)
        .is_ok());
    match decode_recovery_link_qr_image(&jpeg) {
        Ok(decoded) => {
            assert_eq!(decoded.image_format, "jpeg");
            assert_eq!(decoded.payload, payload);
        }
        Err(fault) => panic!("{fault:?}"),
    }

    let gap = 32;
    let mut ambiguous = GrayImage::from_pixel(
        first.width() + gap + second.width(),
        first.height().max(second.height()),
        Luma([255]),
    );
    replace(&mut ambiguous, &first, 0, 0);
    replace(&mut ambiguous, &second, i64::from(first.width() + gap), 0);
    let mut png = Vec::new();
    let written = PngEncoder::new(&mut png).write_image(
        ambiguous.as_raw(),
        ambiguous.width(),
        ambiguous.height(),
        ColorType::L8.into(),
    );
    assert!(written.is_ok());
    assert_eq!(
        fault(decode_recovery_link_qr_image(&png)),
        QrFault::NotOneSymbol { detected: 2 }
    );
}

#[test]
fn rendered_pixels_show_quiet_zone_and_modules() {
    let rendered = match render_bounded_ascii_qr_png("test:1", "test:", 64) {
        Ok(rendered) => rendered,
        Err(fault) => panic!("{fault:?}"),
    };
    assert_eq!(rendered.report.qr_version, 1);
    assert_eq!(rendered.report.module_count, 21);
    assert_eq!(rendered.report.pixel_width, (21 + 8) * 4);
    let image = match image::load_from_memory(&rendered.png) {
        Ok(image) => image.to_luma8(),
        Err(error) => panic!("{error}"),
    };
    assert_eq!(image.get_pixel(0, 0).0[0], 255);
    assert_eq!(image.get_pixel(15, 16).0[0], 255);
    assert_eq!(image.get_pixel(16, 16).0[0], 0);
    assert_eq!(image.get_pixel(43, 16).0[0], 0);
    assert_eq!(image.get_pixel(20, 20).0[0], 255);
}

#[test]
fn image_bytes_are_told_by_their_signature() {
    assert_eq!(fault(decode_recovery_link_qr_image(&[])), QrFault::EmptyImage);
    assert_eq!(
        fault(decode_recovery_link_qr_image(b"GIF89a....")),
        QrFault::UnsupportedFormat
    );
    assert_eq!(
        fault(decode_recovery_link_qr_image(b"no image at all")),
        QrFault::UnknownFormat
    );
    assert_eq!(
        fault(decode_recovery_link_qr_image(b"\x89PNG\r\n\x1a\n broken")),
        QrFault::ImageRefused
    );
    assert_eq!(
        fault(decode_recovery_link_qr_image(b"\xff\xd8\xff broken")),
        QrFault::ImageRefused
    );
    let blank = vec![255_u8; 64 * 64];
    let mut png = Vec::new();
    assert!(PngEncoder::new(&mut png)
        .write_image(&blank, 64, 64, ColorType::L8.into())
        .is_ok());
    assert_eq!(
        fault(decode_bounded_ascii_qr_image(&png, "test:", 64)),
        QrFault::NotOneSymbol { detected: 0 }
    );
    assert_eq!(check_image_size(0), Err(QrFault::EmptyImage));
    assert_eq!(check_image_size(MAX_QR_IMAGE_FILE_BYTES), Ok(()));
}

#[test]
fn decoders_get_the_format_and_the_limits() {
    let limits = (MAX_QR_IMAGE_DIMENSION, MAX_QR_IMAGE_ALLOC_BYTES);
    assert_eq!(
        decoder_input(b"\x89PNG\r\n\x1a\n"),
        Ok((ImageKind::Png, limits.0, limits.1))
    );
    assert_eq!(
        decoder_input(b"\xff\xd8\xff"),
        Ok((ImageKind::Jpeg, limits.0, limits.1))
    );
    assert_eq!(decoder_input(&[]), Err(QrFault::EmptyImage));
    assert_eq!(decoder_input(b"GIF89a"), Err(QrFault::UnsupportedFormat));
    assert_eq!(decoder_input(b"text"), Err(QrFault::UnknownFormat));
}

fn decoded(image: GrayImage) -> Option<kilogram_cli::recovery_qr::GrayImage> {
    Some(kilogram_cli::recovery_qr::GrayImage {
        width: image.width(),
        height: image.height(),
        pixels: image.into_raw(),
    })
}

#[test]
fn decoded_images_are_read() {
    let rendered = match render_bounded_ascii_qr_png("test:1", "test:", 64) {
        Ok(rendered) => rendered,
        Err(fault) => panic!("{fault:?}"),
    };
    let image = match image::load_from_memory(&rendered.png) {
        Ok(image) => image.to_luma8(),
        Err(error) => panic!("{error}"),
    };
    let side = rendered.report.pixel_width;
    assert_eq!(
        read_decoded(decoded(image.clone()), "test:", 64),
        Ok(("test:1".to_owned(), side, side))
    );
    assert_eq!(
        read_decoded(decoded(image), "other:", 64),
        Err(QrFault::UnsupportedPrefix)
    );
    assert_eq!(
        read_decoded(None, "test:", 64),
        Err(QrFault::ImageRefused)
    );
    assert_eq!(
        read_decoded(decoded(GrayImage::from_pixel(1, 1, Luma([0]))), "test:", 64),
        Err(QrFault::NotOneSymbol { detected: 0 })
    );
}

#[test]
fn images_are_read_from_asynchronous_code() {
    let runtime = match tokio::runtime::Builder::new_current_thread().build() {
        Ok(runtime) => runtime,
        Err(error) => panic!("{error}"),
    };
    let read = runtime.block_on(async {
        let rendered = render_recovery_link_qr_png(&link("A", 10))?;
        decode_recovery_link_qr_image(&rendered.png)
    });
    match read {
        Ok(report) => assert_eq!(report.payload, link("A", 10)),
        Err(fault) => panic!("{fault:?}"),
    }
}

fn finder_pattern(image: &mut GrayImage, left: u32, top: u32) {
    for y in 0..7_u32 {
        for x in 0..7_u32 {
            let ring = x.min(y).min(6 - x).min(6 - y);
            if ring != 1 {
                image.put_pixel(left + x, top + y, Luma([0]));
            }
        }
    }
}

#[test]
fn a_detector_that_stops_is_a_fault() {
    let mut image = GrayImage::from_pixel(60, 60, Luma([255]));
    let (left, top) = (10, 26);
    finder_pattern(&mut image, left, top);
    finder_pattern(&mut image, left + 3, top - 21);
    finder_pattern(&mut image, left + 23, top - 21);
    for y in (top - 3..top).chain(top + 7..top + 31) {
        image.put_pixel(left + 6, y, Luma([0]));
    }
    for x in left - 4..left {
        image.put_pixel(x, top, Luma([0]));
    }
    assert_eq!(
        read_decoded(decoded(image), "test:", 64),
        Err(QrFault::DetectorStopped)
    );
}

#[test]
fn payload_shape_is_checked_in_order() {
    assert_eq!(validate_payload_shape("test:1", "test:", 6), Ok(()));
    assert_eq!(
        validate_payload_shape("t\u{e9}st:1", "other:", 1),
        Err(QrFault::PayloadNotAscii)
    );
    assert_eq!(
        validate_payload_shape("test:1", "other:", 5),
        Err(QrFault::PayloadTooLong)
    );
    assert_eq!(
        validate_payload_shape("test:1", "other:", 6),
        Err(QrFault::UnsupportedPrefix)
    );
}

#[test]
fn readings_are_accepted_only_as_one_expected_payload() {
    let reading = |detected: usize, first: Option<&str>| QrReading {
        detected,
        first: first.map(str::to_owned),
    };
    assert_eq!(
        accept_qr_reading(reading(1, Some("test:1")), "test:", 64),
        Ok("test:1".to_owned())
    );
    assert_eq!(
        accept_qr_reading(reading(2, Some("test:1")), "test:", 64),
        Err(QrFault::NotOneSymbol { detected: 2 })
    );
    assert_eq!(
        accept_qr_reading(reading(1, None), "test:", 64),
        Err(QrFault::SymbolUnreadable)
    );
    assert_eq!(
        accept_qr_reading(reading(1, Some("other")), "test:", 64),
        Err(QrFault::UnsupportedPrefix)
    );
}

#[test]
fn too_long_symbols_and_images_are_refused() {
    let long = format!("test:{}", "a".repeat(4_000));
    assert_eq!(
        fault(render_bounded_ascii_qr_png(&long, "test:", 5_000)),
        QrFault::SymbolRefused
    );
    let drawing = QrDrawing {
        version: 2,
        module_count: 25,
        width: 132,
        height: 132,
        pixels: Vec::new(),
    };
    match report_render(&drawing, vec![0; 10]) {
        Ok(rendered) => {
            assert_eq!(rendered.report.qr_version, 2);
            assert_eq!(rendered.report.png_bytes, 10);
        }
        Err(fault) => panic!("{fault:?}"),
    }
    let png = vec![0; MAX_QR_IMAGE_FILE_BYTES as usize + 1];
    assert_eq!(fault(report_render(&drawing, png)), QrFault::PngTooLarge);
}
