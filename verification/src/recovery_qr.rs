//! Carrying a bounded ASCII payload in one QR code: rendering it as a PNG image and reading it
//! back from a PNG or JPEG image.

use crate::recovery_link::{HISTORY_RECOVERY_LINK_PREFIX, MAX_HISTORY_RECOVERY_LINK_TEXT_BYTES};
use crate::text::{begins_with, starts_with};
use image::{ImageEncoder, ImageFormat, ImageReader, Limits};
use std::io::Cursor;
use std::sync::mpsc::channel;
use tokio::runtime::Builder;
use vstd::prelude::*;

verus! {

/// The pixels on each side of a rendered module.
pub const QR_MODULE_PIXELS: u32 = 4;

/// The light modules around a rendered symbol.
pub const QR_QUIET_ZONE_MODULES: u32 = 4;

/// The most bytes that an image may have.
pub const MAX_QR_IMAGE_FILE_BYTES: u64 = 16 * 1024 * 1024;

/// The most pixels that a side of an image may have.
pub const MAX_QR_IMAGE_DIMENSION: u32 = 4_096;

/// The most bytes that decoding an image may allocate.
pub const MAX_QR_IMAGE_ALLOC_BYTES: u64 = 64 * 1024 * 1024;

/// Why a payload is not rendered, or an image not read.
#[derive(Clone, Copy, Debug, PartialEq, Eq, Structural)]
pub enum QrFault {
    PayloadNotAscii,
    PayloadTooLong,
    UnsupportedPrefix,
    SymbolRefused,
    PngRefused,
    PngTooLarge,
    EmptyImage,
    ImageTooLarge,
    UnsupportedFormat,
    UnknownFormat,
    ImageRefused,
    DetectorStopped,
    NotOneSymbol { detected: usize },
    SymbolUnreadable,
}

/// The first rule of a payload that a text breaks.
pub open spec fn shape_fault(payload: Seq<char>, expected_prefix: Seq<char>, max_payload_bytes: nat) -> Option<
    QrFault,
> {
    if !vstd::utf8::is_ascii_chars(payload) {
        Some(QrFault::PayloadNotAscii)
    } else if vstd::utf8::encode_utf8(payload).len() > max_payload_bytes {
        Some(QrFault::PayloadTooLong)
    } else if !begins_with(payload, expected_prefix) {
        Some(QrFault::UnsupportedPrefix)
    } else {
        None
    }
}

/// Tests that a payload is ASCII, within its limit and of the expected kind.
pub fn validate_payload_shape(payload: &str, expected_prefix: &str, max_payload_bytes: usize) -> (r:
    Result<(), QrFault>)
    ensures
        match shape_fault(payload@, expected_prefix@, max_payload_bytes as nat) {
            None => r is Ok,
            Some(fault) => r == Err::<(), QrFault>(fault),
        },
{
    if !payload.is_ascii() {
        return Err(QrFault::PayloadNotAscii);
    }
    if payload.as_bytes().len() > max_payload_bytes {
        return Err(QrFault::PayloadTooLong);
    }
    if !starts_with(payload, expected_prefix) {
        return Err(QrFault::UnsupportedPrefix);
    }
    Ok(())
}

/// The reason for which data was not encoded as a QR code.
#[verifier::external_type_specification]
#[verifier::external_body]
pub struct ExQrError(qrcode::types::QrError);

/// The reason for which an image was not encoded or decoded.
#[verifier::external_type_specification]
#[verifier::external_body]
pub struct ExImageError(image::ImageError);

/// Names the symbol that `qrcode::QrCode::with_error_correction_level` makes of bytes at level
/// L: its version and, row by row, which modules are dark; `None` where it reports an error.
pub uninterp spec fn qr_symbol(data: Seq<u8>) -> Option<(i16, Seq<bool>)>;

/// The version of the symbol of some data.
pub open spec fn symbol_version(data: Seq<u8>) -> i16 {
    match qr_symbol(data) {
        Some((version, _)) => version,
        None => 0,
    }
}

/// A drawn symbol: its version, its modules on a side, and its image in shades of gray.
pub struct QrDrawing {
    pub version: i16,
    pub module_count: usize,
    pub width: u32,
    pub height: u32,
    pub pixels: Vec<u8>,
}

/// The shade of a pixel of a drawn symbol: black in a dark module, white elsewhere.
pub open spec fn drawn_pixel(
    dark: Seq<bool>,
    module_count: int,
    module_pixels: int,
    x: int,
    y: int,
) -> u8 {
    let column = x / module_pixels - QR_QUIET_ZONE_MODULES;
    let row = y / module_pixels - QR_QUIET_ZONE_MODULES;
    if 0 <= column < module_count && 0 <= row < module_count && dark[row * module_count + column] {
        0
    } else {
        255
    }
}

impl QrDrawing {
    /// The drawing is of the symbol of some data: the symbol is a square of 4v + 17 modules for
    /// its version v, the image has a quiet zone around it, and each pixel shows its module.
    pub open spec fn draws(self, data: Seq<u8>, module_pixels: int) -> bool {
        &&& qr_symbol(data) is Some
        &&& ({
            let (version, dark) = qr_symbol(data)->0;
            &&& self.version == version
            &&& 1 <= version <= 40
            &&& self.module_count == 4 * version + 17
            &&& dark.len() == self.module_count * self.module_count
            &&& self.width == (self.module_count + 2 * QR_QUIET_ZONE_MODULES) * module_pixels
            &&& self.height == self.width
            &&& self.pixels@.len() == self.width * self.height
            &&& forall|x: int, y: int|
                0 <= x < self.width && 0 <= y < self.height ==> #[trigger] self.pixels@[y
                    * self.width + x] == drawn_pixel(
                    dark,
                    self.module_count as int,
                    module_pixels,
                    x,
                    y,
                )
        })
    }
}

/// Calls `qrcode::QrCode::with_error_correction_level` with `EcLevel::L`, and on the code that it
/// gives `version`, `width` and `render`, the renderer with a quiet zone and with
/// `module_pixels` pixels for a module. The symbol is a function of the data. It is never a
/// Micro QR code, so its version is from 1 to 40 and gives its width, and the renderer draws a
/// normal code's quiet zone of four modules, dark modules black and all else white. For which
/// data the encoding succeeds is not stated.
#[verifier::external_body]
fn draw_qr(data: &[u8], module_pixels: u32) -> (r: Result<QrDrawing, qrcode::types::QrError>)
    requires
        1 <= module_pixels <= 16,
    ensures
        match r {
            Ok(drawing) => drawing.draws(data@, module_pixels as int),
            Err(_) => qr_symbol(data@) is None,
        },
{
    let code = qrcode::QrCode::with_error_correction_level(data, qrcode::EcLevel::L)?;
    let version = match code.version() {
        qrcode::Version::Normal(version) => version,
        qrcode::Version::Micro(version) => version,
    };
    let image = code
        .render::<image::Luma<u8>>()
        .quiet_zone(true)
        .module_dimensions(module_pixels, module_pixels)
        .build();
    let (width, height) = image.dimensions();
    Ok(QrDrawing { version, module_count: code.width(), width, height, pixels: image.into_raw() })
}

/// Names the PNG image that `image::codecs::png::PngEncoder` writes for an 8-bit gray image of a
/// width and height; `None` where it reports an error.
pub uninterp spec fn png_of_gray(pixels: Seq<u8>, width: u32, height: u32) -> Option<Seq<u8>>;

/// The bytes that a PNG image begins with.
pub open spec fn png_signature() -> Seq<u8> {
    seq![0x89, 0x50, 0x4e, 0x47, 0x0d, 0x0a, 0x1a, 0x0a]
}

/// Names the image that an `image::ImageReader` decodes from a PNG image and `to_luma8` turns to
/// shades of gray, under a limit on each side and one on the memory taken: width, height and
/// pixels; `None` where the decoder reports an error.
pub uninterp spec fn png_decoding(bytes: Seq<u8>, max_side: u32, max_alloc: u64) -> Option<
    (u32, u32, Seq<u8>),
>;

/// The largest limit on a side under which every machine decodes alike.
pub const MAX_PORTABLE_SIDE: u32 = 65_535;

/// The largest limit on memory under which every machine decodes alike.
pub const MAX_PORTABLE_ALLOC: u64 = 4_294_967_295;

/// Calls `write_image` of `image::codecs::png::PngEncoder` with `ColorType::L8`: what it writes is
/// a function of the image and begins as a PNG image, and the decoder gives the same pixels back
/// under every limit that the image is within. The number of pixels is fixed because the encoder
/// panics on another one. For which images it succeeds is not stated.
#[verifier::external_body]
fn encode_png(pixels: &[u8], width: u32, height: u32) -> (r: Result<Vec<u8>, image::ImageError>)
    requires
        pixels@.len() == width * height,
    ensures
        match r {
            Ok(png) => {
                &&& png_of_gray(pixels@, width, height) == Some(png@)
                &&& png_signature().is_prefix_of(png@)
                &&& forall|max_side: u32, max_alloc: u64|
                    width <= max_side <= MAX_PORTABLE_SIDE && height <= max_side && width * height
                        <= max_alloc <= MAX_PORTABLE_ALLOC ==> #[trigger] png_decoding(
                        png@,
                        max_side,
                        max_alloc,
                    ) == Some((width, height, pixels@))
            },
            Err(_) => png_of_gray(pixels@, width, height) is None,
        },
{
    let mut png: Vec<u8> = Vec::new();
    image::codecs::png::PngEncoder::new(&mut png).write_image(
        pixels,
        width,
        height,
        image::ColorType::L8.into(),
    )?;
    Ok(png)
}

/// What is reported of a rendered code.
#[derive(Clone, Copy, Debug, PartialEq, Eq, Structural)]
pub struct RecoveryQrRenderReport {
    pub qr_version: i16,
    pub module_count: usize,
    pub pixel_width: u32,
    pub pixel_height: u32,
    pub png_bytes: usize,
}

/// A rendered code: its image and what is reported of it.
pub struct RenderedQr {
    pub png: Vec<u8>,
    pub report: RecoveryQrRenderReport,
}

/// The report on a drawn symbol of a version, rendered as a PNG image.
pub open spec fn render_report(version: i16, png_bytes: nat) -> RecoveryQrRenderReport {
    RecoveryQrRenderReport {
        qr_version: version,
        module_count: (4 * version + 17) as usize,
        pixel_width: ((4 * version + 17 + 2 * QR_QUIET_ZONE_MODULES) * QR_MODULE_PIXELS) as u32,
        pixel_height: ((4 * version + 17 + 2 * QR_QUIET_ZONE_MODULES) * QR_MODULE_PIXELS) as u32,
        png_bytes: png_bytes as usize,
    }
}

/// Reports on an image that was rendered, unless the image is too large.
pub fn report_render(drawing: &QrDrawing, png: Vec<u8>) -> (r: Result<RenderedQr, QrFault>)
    ensures
        match r {
            Ok(rendered) => png@.len() <= MAX_QR_IMAGE_FILE_BYTES && rendered.png@ == png@
                && rendered.report == (RecoveryQrRenderReport {
                qr_version: drawing.version,
                module_count: drawing.module_count,
                pixel_width: drawing.width,
                pixel_height: drawing.height,
                png_bytes: png@.len() as usize,
            }),
            Err(fault) => fault == QrFault::PngTooLarge && png@.len() > MAX_QR_IMAGE_FILE_BYTES,
        },
{
    if png.len() as u64 > MAX_QR_IMAGE_FILE_BYTES {
        return Err(QrFault::PngTooLarge);
    }
    let report = RecoveryQrRenderReport {
        qr_version: drawing.version,
        module_count: drawing.module_count,
        pixel_width: drawing.width,
        pixel_height: drawing.height,
        png_bytes: png.len(),
    };
    Ok(RenderedQr { png, report })
}

/// A drawing of some data, of which one exists wherever the data has a symbol.
pub open spec fn gray_drawing(data: Seq<u8>) -> (Seq<u8>, u32) {
    let (version, dark) = qr_symbol(data)->0;
    let modules = 4 * version + 17;
    let side = (modules + 2 * QR_QUIET_ZONE_MODULES) * QR_MODULE_PIXELS;
    (
        Seq::new(
            (side * side) as nat,
            |i: int| drawn_pixel(dark, modules, QR_MODULE_PIXELS as int, i % side, i / side),
        ),
        side as u32,
    )
}

proof fn lemma_gray_drawing(drawing: QrDrawing, data: Seq<u8>)
    requires
        drawing.draws(data, QR_MODULE_PIXELS as int),
    ensures
        gray_drawing(data) == (drawing.pixels@, drawing.width),
        drawing.width <= 740,
{
    let (pixels, side) = gray_drawing(data);
    let (version, dark) = qr_symbol(data)->0;
    assert(drawing.width == (drawing.module_count + 8) * 4);
    assert(side == drawing.width);
    let w = drawing.width as int;
    assert(pixels.len() == w * w);
    assert forall|i: int| 0 <= i < w * w implies pixels[i] == drawing.pixels@[i] by {
        let x = i % w;
        let y = i / w;
        assert(0 <= x < w && 0 <= y < w && i == y * w + x) by (nonlinear_arith)
            requires
                w > 0,
                0 <= i < w * w,
                x == i % w,
                y == i / w,
        ;
        assert(drawing.pixels@[y * w + x] == drawn_pixel(
            dark,
            drawing.module_count as int,
            QR_MODULE_PIXELS as int,
            x,
            y,
        ));
    }
    assert(pixels =~= drawing.pixels@);
}

/// The decoder finds a square image in a PNG image.
pub open spec fn decodes_to(png: Seq<u8>, pixels: Seq<u8>, side: u32) -> bool {
    png_decoding(png, MAX_QR_IMAGE_DIMENSION, MAX_QR_IMAGE_ALLOC_BYTES) == Some(
        (side, side, pixels),
    )
}

/// The outcome of rendering a payload.
pub open spec fn render_fault(payload: Seq<char>, expected_prefix: Seq<char>, max_payload_bytes: nat) -> Option<
    QrFault,
> {
    let data = vstd::utf8::encode_utf8(payload);
    let (pixels, side) = gray_drawing(data);
    match shape_fault(payload, expected_prefix, max_payload_bytes) {
        Some(fault) => Some(fault),
        None => if qr_symbol(data) is None {
            Some(QrFault::SymbolRefused)
        } else if png_of_gray(pixels, side, side) is None {
            Some(QrFault::PngRefused)
        } else if png_of_gray(pixels, side, side)->0.len() > MAX_QR_IMAGE_FILE_BYTES {
            Some(QrFault::PngTooLarge)
        } else {
            None
        },
    }
}

/// Renders a payload as one QR code in a PNG image.
pub fn render_bounded_ascii_qr_png(
    payload: &str,
    expected_prefix: &str,
    max_payload_bytes: usize,
) -> (r: Result<RenderedQr, QrFault>)
    ensures
        match r {
            Ok(rendered) => {
                let data = vstd::utf8::encode_utf8(payload@);
                let (pixels, side) = gray_drawing(data);
                &&& render_fault(payload@, expected_prefix@, max_payload_bytes as nat) is None
                &&& png_of_gray(pixels, side, side) == Some(rendered.png@)
                &&& png_signature().is_prefix_of(rendered.png@)
                &&& decodes_to(rendered.png@, pixels, side)
                &&& 1 <= symbol_version(data) <= 40
                &&& rendered.report == render_report(symbol_version(data), rendered.png@.len())
                &&& rendered.report.pixel_width <= MAX_QR_IMAGE_DIMENSION
                &&& rendered.report.pixel_height <= MAX_QR_IMAGE_DIMENSION
            },
            Err(fault) => render_fault(payload@, expected_prefix@, max_payload_bytes as nat)
                == Some(fault),
        },
{
    if let Err(fault) = validate_payload_shape(payload, expected_prefix, max_payload_bytes) {
        return Err(fault);
    }
    let drawing = match draw_qr(payload.as_bytes(), QR_MODULE_PIXELS) {
        Ok(drawing) => drawing,
        Err(_) => return Err(QrFault::SymbolRefused),
    };
    proof {
        lemma_gray_drawing(drawing, vstd::utf8::encode_utf8(payload@));
    }
    let png = match encode_png(drawing.pixels.as_slice(), drawing.width, drawing.height) {
        Ok(png) => png,
        Err(_) => return Err(QrFault::PngRefused),
    };
    proof {
        let side = drawing.width as int;
        assert(side * side <= 740 * 740) by (nonlinear_arith)
            requires
                0 <= side <= 740,
        ;
    }
    report_render(&drawing, png)
}

/// Renders a recovery link as one QR code in a PNG image.
pub fn render_recovery_link_qr_png(payload: &str) -> (r: Result<RenderedQr, QrFault>)
    ensures
        match r {
            Ok(rendered) => {
                let data = vstd::utf8::encode_utf8(payload@);
                let (pixels, side) = gray_drawing(data);
                &&& render_fault(
                    payload@,
                    HISTORY_RECOVERY_LINK_PREFIX@,
                    MAX_HISTORY_RECOVERY_LINK_TEXT_BYTES as nat,
                ) is None
                &&& png_of_gray(pixels, side, side) == Some(rendered.png@)
                &&& png_signature().is_prefix_of(rendered.png@)
                &&& decodes_to(rendered.png@, pixels, side)
                &&& rendered.report == render_report(symbol_version(data), rendered.png@.len())
            },
            Err(fault) => render_fault(
                payload@,
                HISTORY_RECOVERY_LINK_PREFIX@,
                MAX_HISTORY_RECOVERY_LINK_TEXT_BYTES as nat,
            ) == Some(fault),
        },
{
    render_bounded_ascii_qr_png(
        payload,
        HISTORY_RECOVERY_LINK_PREFIX,
        MAX_HISTORY_RECOVERY_LINK_TEXT_BYTES,
    )
}

/// The format of an image.
#[derive(Clone, Copy, Debug, PartialEq, Eq, Structural)]
pub enum ImageKind {
    Png,
    Jpeg,
}

impl ImageKind {
    /// The name of the format.
    pub open spec fn label(self) -> Seq<char> {
        match self {
            ImageKind::Png => "png"@,
            ImageKind::Jpeg => "jpeg"@,
        }
    }

    /// The name of the format.
    pub fn as_str(self) -> (r: &'static str)
        ensures
            r@ == self.label(),
    {
        match self {
            ImageKind::Png => "png",
            ImageKind::Jpeg => "jpeg",
        }
    }
}

/// The bytes that a JPEG image begins with.
pub open spec fn jpeg_signature() -> Seq<u8> {
    seq![0xff, 0xd8, 0xff]
}

/// Names whether `image::guess_format` recognizes the format of bytes.
pub uninterp spec fn recognized_format(bytes: Seq<u8>) -> bool;

/// Calls `image::guess_format`: it tells a PNG and a JPEG image by their first bytes. `None` is
/// for bytes of no known format, and the inner `None` for one of another format.
#[verifier::external_body]
fn guess_format(bytes: &[u8]) -> (r: Option<Option<ImageKind>>)
    ensures
        r is Some <==> recognized_format(bytes@),
        r == Some(Some(ImageKind::Png)) <==> png_signature().is_prefix_of(bytes@),
        r == Some(Some(ImageKind::Jpeg)) <==> jpeg_signature().is_prefix_of(bytes@),
{
    match image::guess_format(bytes) {
        Ok(ImageFormat::Png) => Some(Some(ImageKind::Png)),
        Ok(ImageFormat::Jpeg) => Some(Some(ImageKind::Jpeg)),
        Ok(_) => Some(None),
        Err(_) => None,
    }
}

/// A decoded image in shades of gray.
pub struct GrayImage {
    pub width: u32,
    pub height: u32,
    pub pixels: Vec<u8>,
}

impl View for GrayImage {
    type V = (u32, u32, Seq<u8>);

    open spec fn view(&self) -> (u32, u32, Seq<u8>) {
        (self.width, self.height, self.pixels@)
    }
}

impl GrayImage {
    /// The image has a pixel for each of its places, at least one, and is within the limit on its
    /// sides.
    pub open spec fn readable(self) -> bool {
        &&& self.pixels@.len() == self.width * self.height
        &&& 0 < self.width <= MAX_QR_IMAGE_DIMENSION
        &&& 0 < self.height <= MAX_QR_IMAGE_DIMENSION
    }
}

/// Calls `decode` of an `image::ImageReader` with limits, and `to_luma8` on the image that it
/// gives: the image is not empty and within the limits, and for a PNG image all of it, and
/// whether there is one, is a function of the bytes and the limits. The call is made by
/// `spawn_blocking` of a tokio runtime of its own, so that a decoder that panics leaves `None` as
/// one that reports an error does, in a program that unwinds. A runtime without drivers is always
/// built; a system that refuses it a thread stops the call, as one that is out of memory does. What
/// a JPEG image gives, and which ones give anything, is not stated, because its decoder computes
/// with the vector instructions that the machine offers. The limits are bounded so that they mean
/// the same on machines of every word size.
#[verifier::external_body]
fn decode_gray(bytes: &[u8], kind: ImageKind, max_side: u32, max_alloc: u64) -> (r: Option<
    GrayImage,
>)
    requires
        max_side <= MAX_PORTABLE_SIDE,
        max_alloc <= MAX_PORTABLE_ALLOC,
    ensures
        match r {
            Some(image) => {
                &&& image.pixels@.len() == image.width * image.height
                &&& 0 < image.width <= max_side
                &&& 0 < image.height <= max_side
                &&& kind == ImageKind::Png ==> png_decoding(bytes@, max_side, max_alloc) == Some(
                    image@,
                )
            },
            None => kind == ImageKind::Png ==> png_decoding(bytes@, max_side, max_alloc) is None,
        },
{
    let format = match kind { ImageKind::Png => ImageFormat::Png, ImageKind::Jpeg => ImageFormat::Jpeg };
    let mut reader = ImageReader::with_format(Cursor::new(bytes.to_vec()), format);
    let mut limits = Limits::default();
    limits.max_image_width = Some(max_side);
    limits.max_image_height = limits.max_image_width;
    limits.max_alloc = Some(max_alloc);
    reader.limits(limits);
    let (done, result) = channel();
    let runtime = Builder::new_current_thread().build().ok()?;
    runtime.spawn_blocking(move || reader.decode().map(|image| done.send(image.to_luma8())));
    let gray = result.recv().ok();
    runtime.shutdown_background();
    gray.map(|gray| GrayImage { width: gray.width(), height: gray.height(), pixels: gray.into_raw() })
}

/// Names what `rqrr` finds in a gray image: the number of codes that `detect_grids` gives and
/// what `decode` reads from the first, where it can be read; `None` where one of them panics. How
/// the crate is compiled fixes whether a sum of coordinates that overflows panics or wraps.
pub uninterp spec fn qr_reading(pixels: Seq<u8>, width: u32, height: u32) -> Option<
    (usize, Option<Seq<char>>),
>;

/// One code is found in an image, and it holds a payload.
pub open spec fn reads_as(pixels: Seq<u8>, width: u32, height: u32, payload: Seq<char>) -> bool {
    qr_reading(pixels, width, height) == Some((1usize, Some(payload)))
}

/// What was found in an image: how many codes, and what the first holds.
pub struct QrReading {
    pub detected: usize,
    pub first: Option<String>,
}

impl View for QrReading {
    type V = (usize, Option<Seq<char>>);

    open spec fn view(&self) -> (usize, Option<Seq<char>>) {
        (
            self.detected,
            match self.first {
                Some(text) => Some(text@),
                None => None,
            },
        )
    }
}

/// Calls `rqrr::PreparedImage::prepare`, `detect_grids`, and `decode` on the first code: what they
/// give is a function of the image. They panic on some images, where the places that they compute
/// do not fit 32-bit coordinates, the corners of a finder pattern lie on one line, or a timing
/// pattern has no length. So they are called by `spawn_blocking` of a tokio runtime of its own,
/// and a panic leaves `None`, in a program that unwinds. A runtime without drivers is always
/// built; a system that refuses it a thread stops the call, as one that is out of memory does.
#[verifier::external_body]
fn read_qr(image: GrayImage) -> (r: Option<QrReading>)
    requires
        image.readable(),
    ensures
        match r {
            Some(reading) => qr_reading(image.pixels@, image.width, image.height) == Some(reading@),
            None => qr_reading(image.pixels@, image.width, image.height) is None,
        },
{
    let pixels = image::GrayImage::from_raw(image.width, image.height, image.pixels)?;
    let (done, result) = channel();
    let runtime = Builder::new_current_thread().build().ok()?;
    runtime.spawn_blocking(
        move || {
            let mut prepared = rqrr::PreparedImage::prepare(pixels);
            let grids = prepared.detect_grids();
            let first = grids.first().and_then(|grid| grid.decode().ok());
            done.send(QrReading { detected: grids.len(), first: first.map(|decoded| decoded.1) })
        },
    );
    let reading = result.recv().ok();
    runtime.shutdown_background();
    reading
}

/// What is reported of a code that was read.
pub struct RecoveryQrDecodeReport {
    pub payload: String,
    pub image_width: u32,
    pub image_height: u32,
    pub image_bytes: u64,
    pub image_format: &'static str,
}

/// Tests the size of an image before it is read.
pub fn check_image_size(bytes: u64) -> (r: Result<(), QrFault>)
    ensures
        r == if bytes == 0 {
            Err(QrFault::EmptyImage)
        } else if bytes > MAX_QR_IMAGE_FILE_BYTES {
            Err(QrFault::ImageTooLarge)
        } else {
            Ok::<(), QrFault>(())
        },
{
    if bytes == 0 {
        Err(QrFault::EmptyImage)
    } else if bytes > MAX_QR_IMAGE_FILE_BYTES {
        Err(QrFault::ImageTooLarge)
    } else {
        Ok(())
    }
}

/// The first reason for which what was found in an image is not a payload.
pub open spec fn reading_fault(
    reading: (usize, Option<Seq<char>>),
    expected_prefix: Seq<char>,
    max_payload_bytes: nat,
) -> Option<QrFault> {
    if reading.0 != 1 {
        Some(QrFault::NotOneSymbol { detected: reading.0 })
    } else {
        match reading.1 {
            None => Some(QrFault::SymbolUnreadable),
            Some(payload) => shape_fault(payload, expected_prefix, max_payload_bytes),
        }
    }
}

/// Takes the payload out of what was found in an image: exactly one code, which can be read and
/// holds a payload of the expected shape.
pub fn accept_qr_reading(reading: QrReading, expected_prefix: &str, max_payload_bytes: usize) -> (r:
    Result<String, QrFault>)
    ensures
        match r {
            Ok(payload) => reading_fault(reading@, expected_prefix@, max_payload_bytes as nat)
                is None && reading@.1 == Some(payload@),
            Err(fault) => reading_fault(reading@, expected_prefix@, max_payload_bytes as nat)
                == Some(fault),
        },
{
    if reading.detected != 1 {
        return Err(QrFault::NotOneSymbol { detected: reading.detected });
    }
    match reading.first {
        None => Err(QrFault::SymbolUnreadable),
        Some(payload) => {
            match validate_payload_shape(payload.as_str(), expected_prefix, max_payload_bytes) {
                Ok(()) => Ok(payload),
                Err(fault) => Err(fault),
            }
        },
    }
}

/// The first reason for which bytes are not an image that may hold a code.
pub open spec fn image_fault(bytes: Seq<u8>) -> Option<QrFault> {
    if bytes.len() == 0 {
        Some(QrFault::EmptyImage)
    } else if bytes.len() > MAX_QR_IMAGE_FILE_BYTES {
        Some(QrFault::ImageTooLarge)
    } else if png_signature().is_prefix_of(bytes) || jpeg_signature().is_prefix_of(bytes) {
        None
    } else if recognized_format(bytes) {
        Some(QrFault::UnsupportedFormat)
    } else {
        Some(QrFault::UnknownFormat)
    }
}

/// The format of bytes that begin as a PNG or a JPEG image.
pub open spec fn image_kind(bytes: Seq<u8>) -> ImageKind {
    if png_signature().is_prefix_of(bytes) {
        ImageKind::Png
    } else {
        ImageKind::Jpeg
    }
}

/// What reading an image comes to: the payload, with the width and the height of the image, or
/// the reason for which there is none.
pub enum ImageReading {
    Read { payload: Seq<char>, width: u32, height: u32 },
    Refused { fault: QrFault },
}

/// What reading a decoded image comes to, given what the decoder gave: where it gave nothing, the
/// image is refused, and else what is found in the image decides.
pub open spec fn decoded_reading(
    image: Option<(u32, u32, Seq<u8>)>,
    expected_prefix: Seq<char>,
    max_payload_bytes: nat,
) -> ImageReading {
    match image {
        None => ImageReading::Refused { fault: QrFault::ImageRefused },
        Some((width, height, pixels)) => match qr_reading(pixels, width, height) {
            None => ImageReading::Refused { fault: QrFault::DetectorStopped },
            Some(reading) => match reading_fault(reading, expected_prefix, max_payload_bytes) {
                Some(fault) => ImageReading::Refused { fault },
                None => ImageReading::Read { payload: reading.1->0, width, height },
            },
        },
    }
}

/// The decoder may give this of an image that is read: nothing, or an image that is not empty and
/// within the limits.
pub open spec fn decodable(image: Option<(u32, u32, Seq<u8>)>) -> bool {
    image matches Some((width, height, pixels)) ==> {
        &&& pixels.len() == width * height
        &&& 0 < width <= MAX_QR_IMAGE_DIMENSION
        &&& 0 < height <= MAX_QR_IMAGE_DIMENSION
    }
}

/// What reading a PNG image comes to: the decoder decides whether there is an image, and what is
/// found in that image decides the rest.
pub open spec fn png_reading(
    bytes: Seq<u8>,
    expected_prefix: Seq<char>,
    max_payload_bytes: nat,
) -> ImageReading {
    decoded_reading(
        png_decoding(bytes, MAX_QR_IMAGE_DIMENSION, MAX_QR_IMAGE_ALLOC_BYTES),
        expected_prefix,
        max_payload_bytes,
    )
}

/// What reading a JPEG image can come to: what the decoder gives of it decides, whatever that is.
pub open spec fn jpeg_may_read(
    expected_prefix: Seq<char>,
    max_payload_bytes: nat,
    r: ImageReading,
) -> bool {
    exists|image: Option<(u32, u32, Seq<u8>)>| #[trigger]
        decodable(image) && r == decoded_reading(image, expected_prefix, max_payload_bytes)
}

/// What reading an image comes to: an image that is refused before it is decoded gives the
/// reason, and any other is read by its format, within the limits.
pub open spec fn image_reads(
    bytes: Seq<u8>,
    expected_prefix: Seq<char>,
    max_payload_bytes: nat,
    r: ImageReading,
) -> bool {
    match image_fault(bytes) {
        Some(fault) => r == (ImageReading::Refused { fault }),
        None => {
            &&& match image_kind(bytes) {
                ImageKind::Png => r == png_reading(bytes, expected_prefix, max_payload_bytes),
                ImageKind::Jpeg => jpeg_may_read(expected_prefix, max_payload_bytes, r),
            }
            &&& r matches ImageReading::Read { payload, width, height } ==> {
                &&& shape_fault(payload, expected_prefix, max_payload_bytes) is None
                &&& 0 < width <= MAX_QR_IMAGE_DIMENSION
                &&& 0 < height <= MAX_QR_IMAGE_DIMENSION
            }
        },
    }
}

/// What a report says was read.
pub open spec fn reported(r: Result<RecoveryQrDecodeReport, QrFault>) -> ImageReading {
    match r {
        Ok(report) => ImageReading::Read {
            payload: report.payload@,
            width: report.image_width,
            height: report.image_height,
        },
        Err(fault) => ImageReading::Refused { fault },
    }
}

/// What the decoder is given of an image that may hold a code, beside its bytes: the format that
/// they begin as, and the limits on the sides and on the memory.
pub fn decoder_input(bytes: &[u8]) -> (r: Result<(ImageKind, u32, u64), QrFault>)
    ensures
        r == match image_fault(bytes@) {
            Some(fault) => Err(fault),
            None => Ok(
                (image_kind(bytes@), MAX_QR_IMAGE_DIMENSION, MAX_QR_IMAGE_ALLOC_BYTES),
            ),
        },
{
    if let Err(fault) = check_image_size(bytes.len() as u64) {
        return Err(fault);
    }
    proof {
        lemma_signatures_differ(bytes@);
    }
    match guess_format(bytes) {
        Some(Some(kind)) => Ok((kind, MAX_QR_IMAGE_DIMENSION, MAX_QR_IMAGE_ALLOC_BYTES)),
        Some(None) => Err(QrFault::UnsupportedFormat),
        None => Err(QrFault::UnknownFormat),
    }
}

/// What an optional image shows.
pub open spec fn shown(image: Option<GrayImage>) -> Option<(u32, u32, Seq<u8>)> {
    match image {
        Some(image) => Some(image@),
        None => None,
    }
}

/// Reads the payload of the only QR code in an image that the decoder gave, if it gave one, with
/// the width and the height of the image.
pub fn read_decoded(image: Option<GrayImage>, expected_prefix: &str, max_payload_bytes: usize) -> (r:
    Result<(String, u32, u32), QrFault>)
    requires
        image matches Some(given) ==> given.readable(),
    ensures
        decoded_reading(shown(image), expected_prefix@, max_payload_bytes as nat) == match r {
            Ok((payload, width, height)) => ImageReading::Read { payload: payload@, width, height },
            Err(fault) => ImageReading::Refused { fault },
        },
{
    let image = match image {
        Some(image) => image,
        None => return Err(QrFault::ImageRefused),
    };
    let width: u32 = image.width;
    let height: u32 = image.height;
    match read_qr(image) {
        None => Err(QrFault::DetectorStopped),
        Some(reading) => match accept_qr_reading(reading, expected_prefix, max_payload_bytes) {
            Ok(payload) => Ok((payload, width, height)),
            Err(fault) => Err(fault),
        },
    }
}

/// Reads the payload of the only QR code in a PNG or JPEG image.
pub fn decode_bounded_ascii_qr_image(
    bytes: &[u8],
    expected_prefix: &str,
    max_payload_bytes: usize,
) -> (r: Result<RecoveryQrDecodeReport, QrFault>)
    ensures
        image_reads(bytes@, expected_prefix@, max_payload_bytes as nat, reported(r)),
        r matches Ok(report) ==> report.image_bytes == bytes@.len() && report.image_format@
            == image_kind(bytes@).label(),
{
    let (kind, max_side, max_alloc) = match decoder_input(bytes) {
        Ok(input) => input,
        Err(fault) => return Err(fault),
    };
    let image = decode_gray(bytes, kind, max_side, max_alloc);
    assert(decodable(shown(image)));
    match read_decoded(image, expected_prefix, max_payload_bytes) {
        Err(fault) => Err(fault),
        Ok((payload, image_width, image_height)) => Ok(
            RecoveryQrDecodeReport {
                payload,
                image_width,
                image_height,
                image_bytes: bytes.len() as u64,
                image_format: kind.as_str(),
            },
        ),
    }
}

proof fn lemma_signatures_differ(bytes: Seq<u8>)
    ensures
        !(png_signature().is_prefix_of(bytes) && jpeg_signature().is_prefix_of(bytes)),
{
    if png_signature().is_prefix_of(bytes) && jpeg_signature().is_prefix_of(bytes) {
        assert(png_signature()[0] == bytes[0]);
        assert(jpeg_signature()[0] == bytes[0]);
    }
}

/// Reads the recovery link of the only QR code in a PNG or JPEG image.
pub fn decode_recovery_link_qr_image(bytes: &[u8]) -> (r: Result<RecoveryQrDecodeReport, QrFault>)
    ensures
        image_reads(
            bytes@,
            HISTORY_RECOVERY_LINK_PREFIX@,
            MAX_HISTORY_RECOVERY_LINK_TEXT_BYTES as nat,
            reported(r),
        ),
        r matches Ok(report) ==> report.image_bytes == bytes@.len() && report.image_format@
            == image_kind(bytes@).label(),
{
    decode_bounded_ascii_qr_image(
        bytes,
        HISTORY_RECOVERY_LINK_PREFIX,
        MAX_HISTORY_RECOVERY_LINK_TEXT_BYTES,
    )
}

/// A rendered image is never refused by its size, its format or the decoder: what is read from
/// it is what is found in the drawing of its payload. So where the one code that was drawn is
/// found there with what it holds, reading the image gives the payload back, with the size that
/// rendering reported.
pub proof fn rendered_payload_is_read_back(
    payload: Seq<char>,
    expected_prefix: Seq<char>,
    max_payload_bytes: nat,
    png: Seq<u8>,
    r: ImageReading,
)
    ensures
        ({
            let data = vstd::utf8::encode_utf8(payload);
            let (pixels, side) = gray_drawing(data);
            &&& render_fault(payload, expected_prefix, max_payload_bytes) is None
            &&& png_of_gray(pixels, side, side) == Some(png)
            &&& png_signature().is_prefix_of(png)
            &&& decodes_to(png, pixels, side)
            &&& image_reads(png, expected_prefix, max_payload_bytes, r)
        }) ==> ({
            let (pixels, side) = gray_drawing(vstd::utf8::encode_utf8(payload));
            let report = render_report(symbol_version(vstd::utf8::encode_utf8(payload)), png.len());
            &&& image_fault(png) is None
            &&& image_kind(png) == ImageKind::Png
            &&& r == decoded_reading(
                Some((side, side, pixels)),
                expected_prefix,
                max_payload_bytes,
            )
            &&& reads_as(pixels, side, side, payload) ==> r == (ImageReading::Read {
                payload,
                width: report.pixel_width,
                height: report.pixel_height,
            })
        }),
{
    assert(png_signature().len() == 8);
}

/// Each label names one value and no other.
pub proof fn image_kind_labels_are_distinct(value: ImageKind)
    ensures
        value.label() == "png"@ <==> value is Png,
        value.label() == "jpeg"@ <==> value is Jpeg,
{
    reveal_strlit("png");
    reveal_strlit("jpeg");
    assert("png"@.len() != "jpeg"@.len());
}

/// A payload has the shape of a code exactly where it is ASCII, fits and begins with the expected
/// prefix. The first of these that fails names the error.
pub proof fn shaped_payload_meets_every_condition(
    payload: Seq<char>,
    expected_prefix: Seq<char>,
    max_payload_bytes: nat,
)
    ensures
        ({
            let fault = shape_fault(payload, expected_prefix, max_payload_bytes);
            let ascii = vstd::utf8::is_ascii_chars(payload);
            let fits = vstd::utf8::encode_utf8(payload).len() <= max_payload_bytes;
            let prefixed = begins_with(payload, expected_prefix);
            &&& fault == Some(QrFault::PayloadNotAscii) <==> !ascii
            &&& fault == Some(QrFault::PayloadTooLong) <==> ascii && !fits
            &&& fault == Some(QrFault::UnsupportedPrefix) <==> ascii && fits && !prefixed
            &&& fault is None <==> ascii && fits && prefixed
        }),
{
}

/// A module is drawn as a square of pixels behind a quiet zone of four modules, black where it is
/// dark and white where it is light.
pub proof fn module_is_drawn_as_a_square(
    dark: Seq<bool>,
    module_count: int,
    module_pixels: int,
    row: int,
    column: int,
    down: int,
    right: int,
)
    requires
        0 <= row < module_count,
        0 <= column < module_count,
        0 <= down < module_pixels,
        0 <= right < module_pixels,
    ensures
        drawn_pixel(
            dark,
            module_count,
            module_pixels,
            (column + 4) * module_pixels + right,
            (row + 4) * module_pixels + down,
        ) == if dark[row * module_count + column] {
            0u8
        } else {
            255u8
        },
{
    let x = (column + 4) * module_pixels + right;
    let y = (row + 4) * module_pixels + down;
    vstd::arithmetic::div_mod::lemma_fundamental_div_mod_converse(
        x,
        module_pixels,
        column + 4,
        right,
    );
    vstd::arithmetic::div_mod::lemma_fundamental_div_mod_converse(y, module_pixels, row + 4, down);
}

/// The quiet zone around the modules is white.
pub proof fn quiet_zone_is_white(
    dark: Seq<bool>,
    module_count: int,
    module_pixels: int,
    x: int,
    y: int,
)
    requires
        module_pixels > 0,
        x < 4 * module_pixels || y < 4 * module_pixels || x >= (module_count + 4) * module_pixels
            || y >= (module_count + 4) * module_pixels,
    ensures
        drawn_pixel(dark, module_count, module_pixels, x, y) == 255,
{
    vstd::arithmetic::div_mod::lemma_fundamental_div_mod(x, module_pixels);
    vstd::arithmetic::div_mod::lemma_fundamental_div_mod(y, module_pixels);
    let (across, along) = (x / module_pixels, y / module_pixels);
    let (right, down) = (x % module_pixels, y % module_pixels);
    assert(0 <= right < module_pixels && 0 <= down < module_pixels);
    assert(x < 4 * module_pixels ==> across < 4) by (nonlinear_arith)
        requires
            x == module_pixels * across + right,
            0 <= right,
            module_pixels > 0,
    ;
    assert(y < 4 * module_pixels ==> along < 4) by (nonlinear_arith)
        requires
            y == module_pixels * along + down,
            0 <= down,
            module_pixels > 0,
    ;
    assert(x >= (module_count + 4) * module_pixels ==> across >= module_count + 4)
        by (nonlinear_arith)
        requires
            x == module_pixels * across + right,
            right < module_pixels,
            module_pixels > 0,
    ;
    assert(y >= (module_count + 4) * module_pixels ==> along >= module_count + 4)
        by (nonlinear_arith)
        requires
            y == module_pixels * along + down,
            down < module_pixels,
            module_pixels > 0,
    ;
}

/// A drawing is a square of the symbol's modules and the quiet zone around them, four modules wide,
/// and each version has four modules more on a side than the one before.
pub proof fn drawing_has_its_size(drawing: QrDrawing, data: Seq<u8>, module_pixels: int)
    requires
        drawing.draws(data, module_pixels),
    ensures
        qr_symbol(data) matches Some((version, dark)) && version == drawing.version && dark.len()
            == drawing.module_count * drawing.module_count,
        drawing.version == symbol_version(data),
        1 <= drawing.version <= 40,
        drawing.module_count == 21 + 4 * (drawing.version - 1),
        drawing.width == drawing.height == (drawing.module_count + 8) * module_pixels,
        drawing.pixels@.len() == drawing.width * drawing.height,
{
}

/// The report of a rendered code tells the size that it was drawn with, four pixels for each
/// module, and the size of the image.
pub proof fn render_report_tells_the_size(version: i16, png_bytes: nat)
    requires
        1 <= version <= 40,
        png_bytes <= usize::MAX,
    ensures
        ({
            let report = render_report(version, png_bytes);
            &&& report.qr_version == version
            &&& report.module_count == 21 + 4 * (version - 1)
            &&& report.pixel_width == 4 * (report.module_count + 8)
            &&& report.pixel_height == report.pixel_width
            &&& report.png_bytes == png_bytes
        }),
{
}

/// A payload is rendered exactly where it has the shape of a code, a symbol holds it, and the image
/// can be written and is no larger than sixteen megabytes.
pub proof fn rendered_payload_meets_every_condition(
    payload: Seq<char>,
    expected_prefix: Seq<char>,
    max_payload_bytes: nat,
)
    ensures
        ({
            let shaped = shape_fault(payload, expected_prefix, max_payload_bytes) is None;
            let data = vstd::utf8::encode_utf8(payload);
            let (pixels, side) = gray_drawing(data);
            let fault = render_fault(payload, expected_prefix, max_payload_bytes);
            let drawn = qr_symbol(data) is Some;
            let written = png_of_gray(pixels, side, side) is Some;
            let small = png_of_gray(pixels, side, side)->0.len() <= 16_777_216;
            &&& shaped ==> (fault == Some(QrFault::SymbolRefused) <==> !drawn)
            &&& shaped ==> (fault == Some(QrFault::PngRefused) <==> drawn && !written)
            &&& shaped ==> (fault == Some(QrFault::PngTooLarge) <==> drawn && written && !small)
            &&& shaped ==> (fault is None <==> drawn && written && small)
            &&& !shaped ==> fault == shape_fault(payload, expected_prefix, max_payload_bytes)
        }),
{
}

/// A reading is a payload exactly where one symbol was found, it could be read, and what it holds
/// has the shape of a code.
pub proof fn reading_is_one_shaped_payload(
    reading: (usize, Option<Seq<char>>),
    expected_prefix: Seq<char>,
    max_payload_bytes: nat,
)
    ensures
        ({
            let fault = reading_fault(reading, expected_prefix, max_payload_bytes);
            &&& reading.0 != 1 ==> fault == Some(QrFault::NotOneSymbol { detected: reading.0 })
            &&& fault is Some && fault->0 is NotOneSymbol ==> reading.0 != 1
            &&& fault == Some(QrFault::SymbolUnreadable) <==> reading.0 == 1 && reading.1 is None
            &&& reading.0 == 1 && reading.1 is Some ==> fault == shape_fault(
                reading.1->0,
                expected_prefix,
                max_payload_bytes,
            )
        }),
{
}

/// An image is looked at exactly where it is not empty, is no larger than sixteen megabytes, and
/// begins with the bytes of one of the two formats. One of another format is told from what has no
/// known format.
pub proof fn image_begins_as_its_format(bytes: Seq<u8>)
    ensures
        ({
            let png = bytes.len() >= 8 && bytes[0] == 0x89 && bytes[1] == 0x50 && bytes[2] == 0x4e
                && bytes[3] == 0x47 && bytes[4] == 0x0d && bytes[5] == 0x0a && bytes[6] == 0x1a
                && bytes[7] == 0x0a;
            let jpeg = bytes.len() >= 3 && bytes[0] == 0xff && bytes[1] == 0xd8 && bytes[2] == 0xff;
            let fault = image_fault(bytes);
            let some = bytes.len() > 0;
            let small = bytes.len() <= 16_777_216;
            &&& fault == Some(QrFault::EmptyImage) <==> !some
            &&& fault == Some(QrFault::ImageTooLarge) <==> some && !small
            &&& fault == Some(QrFault::UnsupportedFormat) <==> some && small && !png && !jpeg
                && recognized_format(bytes)
            &&& fault == Some(QrFault::UnknownFormat) <==> some && small && !png && !jpeg
                && !recognized_format(bytes)
            &&& fault is None <==> small && (png || jpeg)
            &&& image_kind(bytes) == ImageKind::Png <==> png
        }),
{
    let (png, jpeg) = (png_signature(), jpeg_signature());
    if bytes.len() >= 8 {
        let start = bytes.take(8);
        if png.is_prefix_of(bytes) {
            assert(forall|i: int| 0 <= i < 8 ==> #[trigger] png[i] == bytes[i]);
        }
        if start =~= png {
            assert(png.is_prefix_of(bytes));
        }
    }
    if bytes.len() >= 3 {
        let start = bytes.take(3);
        if jpeg.is_prefix_of(bytes) {
            assert(forall|i: int| 0 <= i < 3 ==> #[trigger] jpeg[i] == bytes[i]);
        }
        if start =~= jpeg {
            assert(jpeg.is_prefix_of(bytes));
        }
    }
}

/// A decoded image is read as the payload of its one symbol, with its size, exactly where the
/// detector gives one that has the shape of a code; else it is refused for the first reason.
pub proof fn decoded_image_is_read_as_its_payload(
    image: Option<(u32, u32, Seq<u8>)>,
    expected_prefix: Seq<char>,
    max_payload_bytes: nat,
)
    ensures
        ({
            let r = decoded_reading(image, expected_prefix, max_payload_bytes);
            let (width, height, pixels) = image->0;
            let reading = qr_reading(pixels, width, height);
            &&& image is None ==> r == (ImageReading::Refused { fault: QrFault::ImageRefused })
            &&& image is Some && reading is None ==> r == (ImageReading::Refused {
                fault: QrFault::DetectorStopped,
            })
            &&& image is Some && reading is Some ==> {
                let fault = reading_fault(reading->0, expected_prefix, max_payload_bytes);
                &&& r is Read <==> fault is None
                &&& fault is Some ==> r == (ImageReading::Refused { fault: fault->0 })
                &&& r matches ImageReading::Read { payload, width: w, height: h }
                    ==> reading == Some(
                    (1usize, Some(payload)),
                ) && w == width && h == height
            }
        }),
{
}

/// A drawing shows the symbol of its data: each pixel of a module is black exactly where the module
/// is dark, and so is each pixel of what is written as an image.
pub proof fn drawing_shows_the_symbol(
    drawing: QrDrawing,
    data: Seq<u8>,
    module_pixels: int,
    row: int,
    column: int,
    down: int,
    right: int,
)
    requires
        drawing.draws(data, module_pixels),
        0 <= row < drawing.module_count,
        0 <= column < drawing.module_count,
        0 <= down < module_pixels,
        0 <= right < module_pixels,
    ensures
        ({
            let (_, dark) = qr_symbol(data)->0;
            let x = (column + 4) * module_pixels + right;
            let y = (row + 4) * module_pixels + down;
            let pixel = drawing.pixels@[y * drawing.width + x];
            &&& pixel == 0 <==> dark[row * drawing.module_count + column]
            &&& pixel == 0 || pixel == 255
        }),
        module_pixels == 4 ==> gray_drawing(data) == (drawing.pixels@, drawing.width),
{
    let (_, dark) = qr_symbol(data)->0;
    let modules = drawing.module_count as int;
    let x = (column + 4) * module_pixels + right;
    let y = (row + 4) * module_pixels + down;
    assert(0 <= x < (modules + 8) * module_pixels && 0 <= y < (modules + 8) * module_pixels)
        by (nonlinear_arith)
        requires
            x == (column + 4) * module_pixels + right,
            y == (row + 4) * module_pixels + down,
            0 <= row < modules,
            0 <= column < modules,
            0 <= down < module_pixels,
            0 <= right < module_pixels,
    ;
    module_is_drawn_as_a_square(dark, modules, module_pixels, row, column, down, right);
    assert(drawing.pixels@[y * drawing.width + x] == drawn_pixel(
        dark,
        modules,
        module_pixels,
        x,
        y,
    ));
    if module_pixels == 4 {
        lemma_gray_drawing(drawing, data);
    }
}

/// The detector found one symbol in an image of this size, and it holds the payload.
pub open spec fn found_in_image(payload: Seq<char>, width: u32, height: u32) -> bool {
    exists|pixels: Seq<u8>| #[trigger]
        qr_reading(pixels, width, height) == Some((1usize, Some(payload)))
}

/// An image is read only where it is not refused; what is read of it is the one symbol that the
/// detector found in it, with the size of the image, which is at most four thousand and ninety-six
/// pixels on a side, and has the shape of a code. A PNG image is read as what it decodes to.
pub proof fn read_image_holds_its_payload(
    bytes: Seq<u8>,
    expected_prefix: Seq<char>,
    max_payload_bytes: nat,
    r: ImageReading,
)
    requires
        image_reads(bytes, expected_prefix, max_payload_bytes, r),
    ensures
        image_fault(bytes) matches Some(fault) ==> r == (ImageReading::Refused { fault }),
        r matches ImageReading::Read { payload, width, height } ==> {
            &&& image_fault(bytes) is None
            &&& shape_fault(payload, expected_prefix, max_payload_bytes) is None
            &&& 1 <= width <= 4_096
            &&& 1 <= height <= 4_096
            &&& found_in_image(payload, width, height)
        },
        image_fault(bytes) is None && image_kind(bytes) == ImageKind::Png ==> r == decoded_reading(
            png_decoding(bytes, 4_096, 67_108_864),
            expected_prefix,
            max_payload_bytes,
        ),
{
    if image_fault(bytes) is None && r is Read {
        if image_kind(bytes) == ImageKind::Png {
            let image = png_decoding(bytes, MAX_QR_IMAGE_DIMENSION, MAX_QR_IMAGE_ALLOC_BYTES);
            let (width, height, pixels) = image->0;
            assert(qr_reading(pixels, width, height) == Some((1usize, Some(r->payload))));
        } else {
            let image = choose|image: Option<(u32, u32, Seq<u8>)>| #[trigger]
                decodable(image) && r == decoded_reading(image, expected_prefix, max_payload_bytes);
            let (width, height, pixels) = image->0;
            assert(qr_reading(pixels, width, height) == Some((1usize, Some(r->payload))));
        }
    }
}

/// Only images whose pixels are all there, one for each place, and whose sides are at most four
/// thousand and ninety-six pixels and not empty, are taken for decoded.
pub proof fn decoded_images_are_bounded(image: GrayImage)
    ensures
        image.readable() <==> image.pixels@.len() == image.width * image.height && 1 <= image.width
            <= 4_096 && 1 <= image.height <= 4_096,
        decodable(Some(image@)) <==> image.readable(),
        decodable(None),
{
}

} // verus!
