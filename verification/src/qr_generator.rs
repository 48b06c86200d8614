//! QR codes as PNG data links: the `qrcode` crate draws the code as text, each character of
//! which becomes a 4×4 block of a grey image, which `png` encodes and `base64` writes out.

use crate::text::{char_utf8_width, split_chars, split_pieces, string_of, utf8_len, utf8_width};
use vstd::arithmetic::div_mod::{lemma_fundamental_div_mod_converse_div, lemma_fundamental_div_mod_converse_mod};
use vstd::prelude::*;

verus! {

/// Pixels per character of the drawn code, in each direction.
pub const MODULE_SIZE: u32 = 4;

/// The text that `qrcode` draws for `data` (quiet zone on, modules 10×10 characters), if it
/// can encode `data`.
pub uninterp spec fn qr_char_art(data: Seq<char>) -> Option<Seq<char>>;

/// Calls `qrcode::QrCode::new` and renders the code as characters with a quiet zone and
/// modules of 10×10 characters. Claims: it succeeds exactly when `qr_char_art` names a text,
/// and gives that text; on failure the `QrError` message is handed back.
#[verifier::external_body]
fn render_qr_chars(data: &str) -> (r: Result<String, String>)
    ensures
        (r is Ok) == (qr_char_art(data@) is Some),
        r matches Ok(s) ==> qr_char_art(data@) == Some(s@),
{
    match qrcode::QrCode::new(data) {
        Ok(code) => Ok(code.render::<char>().quiet_zone(true).module_dimensions(10, 10).build()),
        Err(e) => Err(e.to_string()),
    }
}

/// A grey image of `image`, held behind its methods.
#[verifier::external_body]
pub(crate) struct GrayCanvas {
    image: image::GrayImage,
}

/// The pixels of a canvas, row by row.
pub uninterp spec fn canvas_pixels(c: GrayCanvas) -> Seq<u8>;

/// The width and height a canvas was made with.
pub uninterp spec fn canvas_size(c: GrayCanvas) -> (u32, u32);

impl GrayCanvas {
    /// Calls `image::ImageBuffer::new`: a black image (every pixel 0) of the given size. It
    /// panics when `width * height` overflows `usize`, which `requires` rules out.
    #[verifier::external_body]
    pub(crate) fn new(width: u32, height: u32) -> (r: GrayCanvas)
        requires
            width as int * height as int <= usize::MAX,
        ensures
            canvas_size(r) == (width, height),
            canvas_pixels(r) == Seq::new((width as int * height as int) as nat, |i: int| 0u8),
    {
        GrayCanvas { image: image::GrayImage::new(width, height) }
    }

    /// Calls `ImageBuffer::put_pixel`, which sets pixel `(x, y)` (index `y * width + x`) and
    /// panics outside the image, which `requires` rules out.
    #[verifier::external_body]
    pub(crate) fn put_pixel(&mut self, x: u32, y: u32, value: u8)
        requires
            x < canvas_size(*old(self)).0,
            y < canvas_size(*old(self)).1,
        ensures
            canvas_size(*final(self)) == canvas_size(*old(self)),
            canvas_pixels(*final(self)) == canvas_pixels(*old(self)).update(
                y as int * canvas_size(*old(self)).0 as int + x as int,
                value,
            ),
    {
        self.image.put_pixel(x, y, image::Luma([value]));
    }

    /// Calls `ImageBuffer::as_raw` and copies the pixels out.
    #[verifier::external_body]
    pub(crate) fn raw_pixels(&self) -> (r: Vec<u8>)
        ensures
            r@ == canvas_pixels(*self),
    {
        self.image.as_raw().clone()
    }
}

/// The PNG that `png` writes for an 8-bit grey image of the given size and pixels, if it
/// writes one.
pub uninterp spec fn png_gray8(width: u32, height: u32, pixels: Seq<u8>) -> Option<Seq<u8>>;

/// Calls `png::Encoder` (grey, 8 bits) with `write_header` and `write_image_data`. Claims:
/// it succeeds exactly when `png_gray8` names bytes, and gives those bytes; on failure the
/// encoder's message is handed back.
#[verifier::external_body]
fn encode_png_gray(width: u32, height: u32, pixels: &[u8]) -> (r: Result<Vec<u8>, String>)
    ensures
        (r is Ok) == (png_gray8(width, height, pixels@) is Some),
        r matches Ok(b) ==> png_gray8(width, height, pixels@) == Some(b@),
{
    let mut data = Vec::new();
    let written = {
        let mut encoder = png::Encoder::new(&mut data, width, height);
        encoder.set_color(png::ColorType::Grayscale);
        encoder.set_depth(png::BitDepth::Eight);
        encoder.write_header().and_then(|mut writer| writer.write_image_data(pixels))
    };
    match written {
        Ok(()) => Ok(data),
        Err(e) => Err(e.to_string()),
    }
}

/// The standard Base64 alphabet.
pub open spec fn base64_alphabet() -> Seq<char> {
    "ABCDEFGHIJKLMNOPQRSTUVWXYZabcdefghijklmnopqrstuvwxyz0123456789+/"@
}

/// The standard Base64 text of some bytes, with `=` padding (RFC 4648, section 4).
pub open spec fn base64_standard(b: Seq<u8>) -> Seq<char>
    decreases b.len(),
{
    let a = base64_alphabet();
    let b0 = if b.len() > 0 { b[0] as int } else { 0 };
    let b1 = if b.len() > 1 { b[1] as int } else { 0 };
    let b2 = if b.len() > 2 { b[2] as int } else { 0 };
    if b.len() == 0 {
        Seq::empty()
    } else if b.len() == 1 {
        seq![a[b0 / 4], a[(b0 % 4) * 16], '=', '=']
    } else if b.len() == 2 {
        seq![a[b0 / 4], a[(b0 % 4) * 16 + b1 / 16], a[(b1 % 16) * 4], '=']
    } else {
        seq![a[b0 / 4], a[(b0 % 4) * 16 + b1 / 16], a[(b1 % 16) * 4 + b2 / 64], a[b2 % 64]]
            + base64_standard(b.skip(3))
    }
}

/// Calls `base64::engine::general_purpose::STANDARD.encode`: the standard alphabet with padding.
#[verifier::external_body]
fn base64_encode(bytes: &[u8]) -> (r: String)
    ensures
        r@ == base64_standard(bytes@),
{
    base64::Engine::encode(&base64::engine::general_purpose::STANDARD, bytes)
}

/// The lines of the drawn code.
pub open spec fn art_lines(art: Seq<char>) -> Seq<Seq<char>> {
    split_pieces(art, '\n')
}

/// The image's width: four pixels per byte of the first line.
pub open spec fn art_width(art: Seq<char>) -> int {
    utf8_len(art_lines(art)[0]) as int * 4
}

/// The image's height: four pixels per line.
pub open spec fn art_height(art: Seq<char>) -> int {
    art_lines(art).len() as int * 4
}

/// Pixel `(x, y)`: black under a character other than a space, white under a space, and
/// black where a line has no character (the image is as wide as the first line has bytes).
pub open spec fn art_pixel(lines: Seq<Seq<char>>, x: int, y: int) -> u8 {
    let line = lines[y / 4];
    if x / 4 < line.len() {
        if line[x / 4] != ' ' { 0u8 } else { 255u8 }
    } else {
        0u8
    }
}

/// The pixels of the image of a drawn code, row by row.
pub open spec fn art_pixels(art: Seq<char>) -> Seq<u8> {
    let w = art_width(art);
    Seq::new((w * art_height(art)) as nat, |i: int| art_pixel(art_lines(art), i % w, i / w))
}

/// The largest image the code is drawn on.
pub open spec fn fits_image(art: Seq<char>) -> bool {
    art_width(art) <= u32::MAX && art_height(art) <= u32::MAX
        && art_width(art) * art_height(art) <= usize::MAX
}

/// The number of bytes of `v` in UTF-8, if it is at most `cap`.
fn utf8_len_up_to(v: &Vec<char>, cap: u64) -> (r: Option<u64>)
    ensures
        match r {
            Some(n) => n == utf8_len(v@) && n <= cap,
            None => utf8_len(v@) > cap,
        },
{
    let mut total: u64 = 0;
    let mut i: usize = 0;
    while i < v.len()
        invariant
            i <= v.len(),
            total <= cap,
            total == utf8_len(v@.subrange(0, i as int)),
        decreases v.len() - i,
    {
        let w = char_utf8_width(v[i]) as u64;
        assert(v@.subrange(0, i + 1).drop_last() == v@.subrange(0, i as int));
        if w > cap - total {
            proof {
                crate::text::lemma_utf8_len_prefix(v@, i + 1);
            }
            return None;
        }
        total = total + w;
        i = i + 1;
    }
    assert(v@.subrange(0, v.len() as int) == v@);
    Some(total)
}

/// Pixel `(x, y)` of the image of the lines.
fn pixel_at(lines: &Vec<Vec<char>>, x: u32, y: u32) -> (r: u8)
    requires
        (y / 4) < lines@.len(),
    ensures
        r == art_pixel(Seq::new(lines@.len(), |k: int| lines@[k]@), x as int, y as int),
{
    let line = &lines[(y / 4) as usize];
    let cx = (x / 4) as usize;
    if cx < line.len() {
        if line[cx] != ' ' { 0 } else { 255 }
    } else {
        0
    }
}

/// Draws the image of the lines of a code, `width` by `height` pixels.
fn draw_art(lines: &Vec<Vec<char>>, width: u32, height: u32) -> (r: GrayCanvas)
    requires
        width as int * height as int <= usize::MAX,
        height as int == lines@.len() * 4,
        width > 0,
    ensures
        canvas_size(r) == (width, height),
        canvas_pixels(r) == Seq::new((width as int * height as int) as nat,
            |i: int| art_pixel(Seq::new(lines@.len(), |k: int| lines@[k]@), i % (width as int), i / (width as int))),
{
    let ghost ls = Seq::new(lines@.len(), |k: int| lines@[k]@);
    let ghost w = width as int;
    let ghost total = (width as int * height as int) as nat;
    let mut canvas = GrayCanvas::new(width, height);
    let mut y: u32 = 0;
    while y < height
        invariant
            width as int * height as int <= usize::MAX,
            height as int == lines@.len() * 4,
            width > 0,
            w == width as int,
            ls == Seq::new(lines@.len(), |k: int| lines@[k]@),
            total == (width as int * height as int) as nat,
            y <= height,
            canvas_size(canvas) == (width, height),
            canvas_pixels(canvas).len() == total,
            forall|i: int| 0 <= i < y as int * w ==> #[trigger] canvas_pixels(canvas)[i] == art_pixel(ls, i % w, i / w),
            forall|i: int| y as int * w <= i < total ==> #[trigger] canvas_pixels(canvas)[i] == 0u8,
        decreases height - y,
    {
        let mut x: u32 = 0;
        while x < width
            invariant
                width as int * height as int <= usize::MAX,
                height as int == lines@.len() * 4,
                width > 0,
                w == width as int,
                ls == Seq::new(lines@.len(), |k: int| lines@[k]@),
                total == (width as int * height as int) as nat,
                y < height,
                x <= width,
                canvas_size(canvas) == (width, height),
                canvas_pixels(canvas).len() == total,
                forall|i: int| 0 <= i < y as int * w + x as int ==> #[trigger] canvas_pixels(canvas)[i] == art_pixel(ls, i % w, i / w),
                forall|i: int| y as int * w + x as int <= i < total ==> #[trigger] canvas_pixels(canvas)[i] == 0u8,
            decreases width - x,
        {
            assert((y / 4) < lines@.len());
            let v = pixel_at(lines, x, y);
            let ghost idx = y as int * w + x as int;
            proof {
                lemma_fundamental_div_mod_converse_div(idx, w, y as int, x as int);
                lemma_fundamental_div_mod_converse_mod(idx, w, y as int, x as int);
                assert(idx < total) by (nonlinear_arith)
                    requires idx == y as int * w + x as int, y < height, x < w, total == w * height as int;
            }
            canvas.put_pixel(x, y, v);
            x = x + 1;
        }
        assert(y as int * w + w == (y + 1) as int * w) by (nonlinear_arith);
        y = y + 1;
    }
    assert(y as int * w == total) by (nonlinear_arith)
        requires y == height, total == w * height as int;
    assert(canvas_pixels(canvas) =~= Seq::new(total, |i: int| art_pixel(ls, i % w, i / w)));
    canvas
}

/// The PNG data link of the QR code of `data`: `data:image/png;base64,` and the Base64 of
/// the PNG of the image of the drawn code; none when the code cannot be made, its image is
/// empty or would not fit in memory, or the PNG cannot be written.
pub open spec fn qr_data_url(data: Seq<char>) -> Option<Seq<char>> {
    match qr_char_art(data) {
        None => None,
        Some(art) => {
            let png = png_gray8(art_width(art) as u32, art_height(art) as u32, art_pixels(art));
            if art_width(art) > 0 && fits_image(art) && png is Some {
                Some("data:image/png;base64,"@ + base64_standard(png->0))
            } else {
                None
            }
        },
    }
}

/// The PNG data link of the QR code of `url`, as `qr_data_url` describes it; an error
/// message when there is none.
pub fn generate_qr_data_url(url: &str) -> (r: Result<String, String>)
    ensures
        match r {
            Ok(link) => qr_data_url(url@) == Some(link@),
            Err(_) => qr_data_url(url@) is None,
        },
{
    let art = match render_qr_chars(url) {
        Ok(a) => a,
        Err(e) => return Err(e),
    };
    let chars = crate::text::chars_of(art.as_str());
    let lines = split_chars(&chars, '\n');
    proof {
        crate::text::lemma_split_pieces_nonempty(art@, '\n');
    }
    let ghost ls = Seq::new(lines@.len(), |k: int| lines@[k]@);
    assert(ls =~= art_lines(art@));
    let first_bytes = match utf8_len_up_to(&lines[0], 0x3fff_ffff) {
        Some(n) => n,
        None => return Err(String::from_str("QR code too large for an image")),
    };
    if lines.len() > 0x3fff_ffff || first_bytes == 0 {
        return Err(String::from_str("QR code too large for an image"));
    }
    let width: u32 = (first_bytes * 4) as u32;
    let height: u32 = (lines.len() * 4) as u32;
    assert((width as u64) * (height as u64) <= 0xffff_ffff_ffff_ffffu64) by (nonlinear_arith)
        requires width <= 0xffff_ffffu32, height <= 0xffff_ffffu32;
    if (width as u64) * (height as u64) > usize::MAX as u64 {
        return Err(String::from_str("QR code too large for an image"));
    }
    let canvas = draw_art(&lines, width, height);
    assert(canvas_pixels(canvas) =~= art_pixels(art@));
    let pixels = canvas.raw_pixels();
    let png = match encode_png_gray(width, height, pixels.as_slice()) {
        Ok(b) => b,
        Err(e) => return Err(e),
    };
    let encoded = base64_encode(png.as_slice());
    let mut link = String::from_str("data:image/png;base64,");
    link.append(encoded.as_str());
    Ok(link)
}

/// In the image of a drawn code, the pixel at column `x` and row `y` lies in the 4×4
/// block of character `x / 4` of line `y / 4`: it is black (0) under a character other
/// than a space, white (255) under a space, and black where the line has no character.
pub proof fn lemma_art_pixel_colours(art: Seq<char>, x: int, y: int)
    requires
        0 <= x < art_width(art),
        0 <= y < art_height(art),
    ensures
        ({
            let line = art_lines(art)[y / 4];
            let px = art_pixels(art);
            &&& px.len() == art_width(art) * art_height(art)
            &&& y * art_width(art) + x < px.len()
            &&& px[y * art_width(art) + x] == if x / 4 < line.len() {
                if line[x / 4] != ' ' { 0u8 } else { 255u8 }
            } else {
                0u8
            }
        }),
{
    let w = art_width(art);
    let h = art_height(art);
    let i = y * w + x;
    assert(w * h >= 0) by (nonlinear_arith)
        requires w > 0, h > 0;
    assert(i < w * h) by (nonlinear_arith)
        requires i == y * w + x, 0 <= x < w, 0 <= y < h;
    lemma_fundamental_div_mod_converse_div(i, w, y, x);
    lemma_fundamental_div_mod_converse_mod(i, w, y, x);
}

/// The PNG in a QR data link is that of an image as wide as four pixels per byte of the
/// drawn code's first line and four pixels high per line, whose pixels are black (0)
/// under the code's dark characters (those other than a space) and white (255) under its
/// spaces.
pub proof fn lemma_qr_link_pixels(url: Seq<char>)
    requires
        qr_data_url(url) is Some,
    ensures
        ({
            let art = qr_char_art(url)->0;
            let w = art_width(art);
            let h = art_height(art);
            let px = art_pixels(art);
            &&& qr_data_url(url) == Some("data:image/png;base64,"@ + base64_standard(png_gray8(w as u32, h as u32, px)->0))
            &&& px.len() == w * h
            &&& forall|x: int, y: int| 0 <= x < w && 0 <= y < h && x / 4 < art_lines(art)[y / 4].len() ==>
                (art_lines(art)[y / 4][x / 4] != ' ' ==> #[trigger] px[y * w + x] == 0u8)
                && (art_lines(art)[y / 4][x / 4] == ' ' ==> px[y * w + x] == 255u8)
        }),
{
    let art = qr_char_art(url)->0;
    let w = art_width(art);
    let h = art_height(art);
    crate::text::lemma_split_pieces_nonempty(art, '\n');
    lemma_art_pixel_colours(art, 0, 0);
    assert forall|x: int, y: int| 0 <= x < w && 0 <= y < h && x / 4 < art_lines(art)[y / 4].len() implies
        (art_lines(art)[y / 4][x / 4] != ' ' ==> #[trigger] art_pixels(art)[y * w + x] == 0u8)
        && (art_lines(art)[y / 4][x / 4] == ' ' ==> art_pixels(art)[y * w + x] == 255u8) by {
        lemma_art_pixel_colours(art, x, y);
    }
}

} // verus!
