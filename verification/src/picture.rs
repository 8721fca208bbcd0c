//! The still pictures kept of a render: the first frame without its alpha channel, and a
//! thumbnail of it.

use vstd::prelude::*;

verus! {

/// The side of a thumbnail, in pixels.
pub const THUMBNAIL_SIDE: u32 = 100;

/// How a picture is sampled when its size changes.
#[derive(Clone, Copy, PartialEq, Eq, Structural, Debug)]
pub enum Sampling {
    Lanczos3,
}

/// A picture of `width` by `height` pixels, three bytes for each, row by row.
pub struct RgbPicture {
    pub width: u32,
    pub height: u32,
    pub data: Vec<u8>,
}

impl RgbPicture {
    /// The data holds three bytes for every pixel and nothing else.
    pub open spec fn wf(&self) -> bool {
        self.data@.len() == 3 * (self.width as nat * self.height as nat)
    }
}

/// The first `pixels` pixels of four bytes in `rgba`, each without its fourth byte.
pub open spec fn without_alpha(rgba: Seq<u8>, pixels: nat) -> Seq<u8> {
    Seq::new(3 * pixels, |i: int| rgba[4 * (i / 3) + i % 3])
}

/// `len` bytes are enough for a frame of four bytes per pixel, and a row of it can be addressed.
pub open spec fn frame_fits(width: u32, height: u32, len: nat) -> bool {
    4 * width as nat <= usize::MAX && 4 * (width as nat * height as nat) <= len
}

/// Channel `c` of every pixel of three bytes has the same value.
pub open spec fn even_channel(data: Seq<u8>, c: int, value: u8) -> bool {
    forall|i: int| 0 <= i < data.len() && i % 3 == c ==> data[i] == value
}

/// Every pixel of three bytes has the same color.
pub open spec fn one_color(data: Seq<u8>, rgb: Seq<u8>) -> bool {
    forall|i: int| 0 <= i < data.len() ==> data[i] == rgb[i % 3]
}

/// A side of a picture so short that resampling it stays well within half a step of a channel.
pub open spec fn is_short(side: u32) -> bool {
    0 < side <= 32768
}

/// The red, green and blue of the pixel at (`x`, `y`) of a buffer of four bytes per pixel.
pub open spec fn rgb_at(rgba: Seq<u8>, width: u32, x: u32, y: u32) -> Seq<u8> {
    rgba.subrange(4 * (y * width + x), 4 * (y * width + x) + 3)
}

proof fn lemma_pixel_in_bounds(width: int, height: int, x: int, y: int)
    by (nonlinear_arith)
    requires
        0 <= x < width,
        0 <= y < height,
    ensures
        0 <= y * width,
        0 <= y * width + x < width * height,
{
}

/// The red, green and blue of one pixel of a buffer of four bytes per pixel.
pub fn pixel_rgb(rgba: &Vec<u8>, width: u32, height: u32, x: u32, y: u32) -> (rgb: [u8; 3])
    requires
        x < width,
        y < height,
        4 * (width as nat * height as nat) <= rgba@.len(),
    ensures
        rgb@ == rgb_at(rgba@, width, x, y),
{
    proof {
        lemma_pixel_in_bounds(width as int, height as int, x as int, y as int);
        assert(rgba@.len() == rgba.len());
    }
    let at: usize = 4 * (y as usize * width as usize + x as usize);
    let rgb: [u8; 3] = [rgba[at], rgba[at + 1], rgba[at + 2]];
    assert(rgb@ =~= rgb_at(rgba@, width, x, y));
    rgb
}

/// `image::ImageBuffer::from_raw` for pixels of four bytes: it takes the buffer, unchanged,
/// exactly when the buffer is at least as long as the picture needs. The length of a row is
/// worked out first, so that a row has to be addressable even in a picture without rows.
#[verifier::external_body]
fn rgba_buffer(width: u32, height: u32, data: Vec<u8>) -> (taken: Option<Vec<u8>>)
    ensures
        taken is Some <==> frame_fits(width, height, data@.len()),
        taken matches Some(buffer) ==> buffer@ == data@,
{
    image::ImageBuffer::<image::Rgba<u8>, Vec<u8>>::from_raw(width, height, data)
        .map(|buffer| buffer.into_raw())
}

/// `image::ImageBuffer::from_fn` for pixels of three bytes: the picture whose pixel at each
/// (x, y) is what the given function returns for it, here `pixel_rgb` of the given buffer. A
/// vector never holds more than `isize::MAX` bytes, so the smaller picture always has room. The
/// length of a row is worked out first, and the call panics where it cannot be addressed.
#[verifier::external_body]
fn rgb_from_fn(width: u32, height: u32, rgba: &Vec<u8>) -> (data: Vec<u8>)
    requires
        frame_fits(width, height, rgba@.len()),
    ensures
        data@.len() == 3 * (width as nat * height as nat),
        forall|x: u32, y: u32, c: int|
            #![trigger rgb_at(rgba@, width, x, y)[c]]
            x < width && y < height && 0 <= c < 3 ==> data@[3 * (y * width + x) + c] == rgb_at(
                rgba@,
                width,
                x,
                y,
            )[c],
{
    image::ImageBuffer::from_fn(
        width,
        height,
        |x, y| image::Rgb(pixel_rgb(rgba, width, height, x, y)),
    ).into_raw()
}

/// `image::imageops::resize`, on a picture of `width` by `height` pixels with these bytes, can give
/// a picture of `new_width` by `new_height` pixels with the bytes `resized`. It may be able to give
/// more than one, since the sine behind it differs between platforms.
pub uninterp spec fn resize_gives(
    width: u32,
    height: u32,
    data: Seq<u8>,
    new_width: u32,
    new_height: u32,
    sampling: Sampling,
    resized: Seq<u8>,
) -> bool;

/// `image::imageops::resize`, to the size of a thumbnail. The outcome is one that the call can
/// give for this picture, this size and this sampling. A picture without pixels gives a black
/// one, and a picture that has the wanted size already is copied. Otherwise each channel is
/// resampled by itself in floating point, with weights that are divided by their own sum: a
/// channel that is the same all over the picture stays so, as long as the sides are short enough
/// for the rounding errors to stay below one half. The weights come from a sine whose precision
/// differs between platforms, so no more is said of how the pixels come about. The intermediate
/// picture takes sixteen bytes for each of `width` times `new_height` pixels, which bounds `width`
/// where addresses are short. For other sizes than that of a thumbnail the sum of the weights can
/// be zero, on which the call panics.
#[verifier::external_body]
fn resize(
    width: u32,
    height: u32,
    data: Vec<u8>,
    new_width: u32,
    new_height: u32,
    sampling: Sampling,
) -> (resized: Vec<u8>)
    requires
        data@.len() == 3 * (width as nat * height as nat),
        new_width == THUMBNAIL_SIDE,
        new_height == THUMBNAIL_SIDE,
        16 * (width as nat * new_height as nat) <= isize::MAX,
    ensures
        resize_gives(width, height, data@, new_width, new_height, sampling, resized@),
        resized@.len() == 3 * (new_width as nat * new_height as nat),
        width == 0 || height == 0 ==> (forall|i: int|
            0 <= i < resized@.len() ==> resized@[i] == 0),
        width == new_width && height == new_height ==> resized@ == data@,
        forall|c: int, value: u8|
            is_short(width) && is_short(height) && 0 <= c < 3 && #[trigger] even_channel(
                data@,
                c,
                value,
            ) ==> even_channel(resized@, c, value),
{
    let filter = match sampling {
        Sampling::Lanczos3 => image::imageops::FilterType::Lanczos3,
    };
    let picture = image::ImageBuffer::<image::Rgb<u8>, Vec<u8>>::from_raw(width, height, data);
    image::imageops::resize(&picture.unwrap(), new_width, new_height, filter).into_raw()
}

/// The picture of a frame of four bytes per pixel, without the alpha channel. There is none
/// exactly when the frame is too short for its size, or a row of it too long to be addressed.
pub fn screenshot(width: u32, height: u32, frame: Vec<u8>) -> (picture: Option<RgbPicture>)
    ensures
        picture is Some <==> frame_fits(width, height, frame@.len()),
        picture matches Some(p) ==> {
            &&& p.wf()
            &&& p.width == width
            &&& p.height == height
            &&& p.data@ == without_alpha(frame@, width as nat * height as nat)
        },
{
    match rgba_buffer(width, height, frame) {
        None => None,
        Some(rgba) => {
            let data: Vec<u8> = rgb_from_fn(width, height, &rgba);
            proof {
                lemma_rows(width, height, rgba@, data@);
            }
            Some(RgbPicture { width, height, data })
        },
    }
}

/// A buffer that agrees with another pixel by pixel holds that one's bytes without the alpha.
proof fn lemma_rows(width: u32, height: u32, rgba: Seq<u8>, data: Seq<u8>)
    requires
        4 * (width as nat * height as nat) <= rgba.len(),
        data.len() == 3 * (width as nat * height as nat),
        forall|x: u32, y: u32, c: int|
            #![trigger rgb_at(rgba, width, x, y)[c]]
            x < width && y < height && 0 <= c < 3 ==> data[3 * (y * width + x) + c] == rgb_at(
                rgba,
                width,
                x,
                y,
            )[c],
    ensures
        data == without_alpha(rgba, width as nat * height as nat),
{
    let pixels = width as nat * height as nat;
    assert forall|i: int| 0 <= i < data.len() implies data[i] == rgba[4 * (i / 3) + i % 3] by {
        let at = i / 3;
        let c = i % 3;
        assert(0 <= at < pixels);
        let w = width as int;
        let h = height as int;
        assert(w > 0) by (nonlinear_arith)
            requires
                0 <= at < w * h,
                0 <= w,
        ;
        let row = at / w;
        let column = at % w;
        assert(0 <= column < w && at == row * w + column && 0 <= row < h) by (nonlinear_arith)
            requires
                0 <= at < w * h,
                w > 0,
                row == at / w,
                column == at % w,
        ;
        let x = column as u32;
        let y = row as u32;
        lemma_pixel_in_bounds(w, h, column, row);
        assert(rgb_at(rgba, width, x, y)[c] == rgba[4 * (y * width + x) + c]);
        assert(data[3 * (y * width + x) + c] == rgb_at(rgba, width, x, y)[c]);
    }
    assert(data =~= without_alpha(rgba, pixels));
}

/// The thumbnail of a picture: the picture, resized. It is black if the picture is empty, and the
/// picture itself if that has the size of a thumbnail. A channel that is the same all over the
/// picture is the same all over the thumbnail, so that a picture of one color has a thumbnail of
/// that color.
pub fn thumbnail(picture: RgbPicture) -> (small: RgbPicture)
    requires
        picture.wf(),
        16 * (picture.width as nat * THUMBNAIL_SIDE as nat) <= isize::MAX,
    ensures
        small.wf(),
        small.width == THUMBNAIL_SIDE,
        small.height == THUMBNAIL_SIDE,
        resize_gives(
            picture.width,
            picture.height,
            picture.data@,
            THUMBNAIL_SIDE,
            THUMBNAIL_SIDE,
            Sampling::Lanczos3,
            small.data@,
        ),
        picture.width == 0 || picture.height == 0 ==> (forall|i: int|
            0 <= i < small.data@.len() ==> small.data@[i] == 0),
        picture.width == THUMBNAIL_SIDE && picture.height == THUMBNAIL_SIDE ==> small.data@
            == picture.data@,
        forall|c: int, value: u8|
            is_short(picture.width) && is_short(picture.height) && 0 <= c < 3
                && #[trigger] even_channel(picture.data@, c, value) ==> even_channel(
                small.data@,
                c,
                value,
            ),
        forall|rgb: Seq<u8>|
            is_short(picture.width) && is_short(picture.height) && rgb.len() == 3
                && #[trigger] one_color(picture.data@, rgb) ==> one_color(small.data@, rgb),
{
    let ghost before = picture.data@;
    let data: Vec<u8> = resize(
        picture.width,
        picture.height,
        picture.data,
        THUMBNAIL_SIDE,
        THUMBNAIL_SIDE,
        Sampling::Lanczos3,
    );
    proof {
        assert forall|rgb: Seq<u8>|
            is_short(picture.width) && is_short(picture.height) && rgb.len() == 3
                && #[trigger] one_color(before, rgb) implies one_color(data@, rgb) by {
            assert(even_channel(before, 0, rgb[0]));
            assert(even_channel(before, 1, rgb[1]));
            assert(even_channel(before, 2, rgb[2]));
        }
    }
    RgbPicture { width: THUMBNAIL_SIDE, height: THUMBNAIL_SIDE, data }
}

/// Every pixel of a screenshot keeps its color: channel `c` of the pixel at (`x`, `y`) is that
/// of the frame.
pub proof fn law_screenshot_keeps_colors(
    width: u32,
    height: u32,
    frame: Seq<u8>,
    x: u32,
    y: u32,
    c: int,
)
    requires
        x < width,
        y < height,
        0 <= c < 3,
        4 * (width as nat * height as nat) <= frame.len(),
    ensures
        without_alpha(frame, width as nat * height as nat)[3 * (y * width + x) + c] == frame[4 * (y
            * width + x) + c],
{
    lemma_pixel_in_bounds(width as int, height as int, x as int, y as int);
}

/// A frame of just the right length fits, and so does every longer one; a shorter one does not.
pub proof fn law_frame_fits_from_its_length_on(width: u32, height: u32, len: nat)
    requires
        4 * width as nat <= usize::MAX,
    ensures
        frame_fits(width, height, 4 * (width as nat * height as nat) + len),
        len < 4 * (width as nat * height as nat) ==> !frame_fits(width, height, len),
{
}

/// A screenshot has three bytes for every pixel, and what follows the pixels of a frame makes no
/// difference to it.
pub proof fn law_screenshot_ignores_what_follows(frame: Seq<u8>, more: Seq<u8>, pixels: nat)
    requires
        4 * pixels <= frame.len(),
    ensures
        without_alpha(frame, pixels).len() == 3 * pixels,
        without_alpha(frame + more, pixels) == without_alpha(frame, pixels),
{
    assert(without_alpha(frame + more, pixels) =~= without_alpha(frame, pixels));
}

} // verus!
