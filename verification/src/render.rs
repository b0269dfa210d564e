//! Canonical, deterministic CPU compositing of card images: PNG layers are decoded, blended
//! source-over onto a solid canvas at integer offsets, and the canvas is encoded as PNG.
use vstd::arithmetic::div_mod::lemma_fundamental_div_mod_converse;
use vstd::prelude::*;

verus! {

/// Why a composition failed; each carries the codec's own message.
#[derive(Debug)]
pub enum RenderError {
    Decode(String),
    Encode(String),
}

/// The display text of a render error.
pub open spec fn render_error_text(e: RenderError) -> Seq<char> {
    match e {
        RenderError::Decode(m) => "decode error: "@ + m@,
        RenderError::Encode(m) => "encode error: "@ + m@,
    }
}

impl RenderError {
    /// The human-readable message (`decode error: ...` / `encode error: ...`).
    pub fn message(&self) -> (s: String)
        ensures
            s@ == render_error_text(*self),
    {
        match self {
            RenderError::Decode(m) => {
                let mut s = String::from_str("decode error: ");
                s.append(m.as_str());
                s
            },
            RenderError::Encode(m) => {
                let mut s = String::from_str("encode error: ");
                s.append(m.as_str());
                s
            },
        }
    }
}

/// A PNG layer to composite onto the canvas at an integer offset.
pub struct Layer<'a> {
    pub png: &'a [u8],
    pub x: i64,
    pub y: i64,
}

/// A decoded RGBA image: `width * height` pixels of four bytes, row-major.
pub struct RgbaPixels {
    pub width: u32,
    pub height: u32,
    pub data: Vec<u8>,
}

// ---------------------------------------------------------------------------------------
// Codec boundary
// ---------------------------------------------------------------------------------------

/// What `image::load_from_memory` followed by `to_rgba8` yields for `bytes`: the width, the
/// height and the raw RGBA buffer, or the text of the decoding error.
pub uninterp spec fn png_decoding(bytes: Seq<u8>) -> Result<(u32, u32, Seq<u8>), Seq<char>>;

/// What encoding a `width` x `height` RGBA buffer as PNG with the `image` crate yields: the
/// encoded bytes, or the text of the encoding error.
pub uninterp spec fn png_encoding(width: u32, height: u32, rgba: Seq<u8>) -> Result<
    Seq<u8>,
    Seq<char>,
>;

/// Decodes an image with `image::load_from_memory` (format guessed from the bytes) and
/// converts it to RGBA with `to_rgba8`. The result is a function of the bytes alone; an
/// `ImageBuffer` always holds at least `4 * width * height` bytes (`from_raw` refuses a
/// shorter buffer), which is the one fact stated beside the name.
#[verifier::external_body]
pub(crate) fn decode_png(bytes: &[u8]) -> (r: Result<RgbaPixels, String>)
    ensures
        match r {
            Ok(img) => png_decoding(bytes@) == Ok::<(u32, u32, Seq<u8>), Seq<char>>(
                (img.width, img.height, img.data@),
            ) && 4 * img.width * img.height <= img.data@.len(),
            Err(e) => png_decoding(bytes@) == Err::<(u32, u32, Seq<u8>), Seq<char>>(e@),
        },
{
    match image::load_from_memory(bytes) {
        Ok(img) => {
            let rgba = img.to_rgba8();
            let (width, height) = rgba.dimensions();
            Ok(RgbaPixels { width, height, data: rgba.into_raw() })
        },
        Err(e) => Err(e.to_string()),
    }
}

/// Encodes a `width` x `height` RGBA buffer as PNG (`RgbaImage::from_raw`, then
/// `DynamicImage::write_to` with `ImageFormat::Png`). `from_raw` accepts the buffer because
/// its length is exactly `4 * width * height`; the encoded result is a function of the
/// arguments alone. The png encoder refuses only a zero width or height here (an 8-bit RGBA
/// image written to an in-memory buffer), so a non-empty image always encodes.
#[verifier::external_body]
pub(crate) fn encode_png(width: u32, height: u32, rgba: Vec<u8>) -> (r: Result<Vec<u8>, String>)
    requires
        rgba@.len() == 4 * width * height,
    ensures
        match r {
            Ok(b) => png_encoding(width, height, rgba@) == Ok::<Seq<u8>, Seq<char>>(b@),
            Err(e) => png_encoding(width, height, rgba@) == Err::<Seq<u8>, Seq<char>>(e@),
        },
        width > 0 && height > 0 ==> r is Ok,
{
    let img = image::RgbaImage::from_raw(width, height, rgba).unwrap();
    let mut buf = std::io::Cursor::new(Vec::new());
    match image::DynamicImage::ImageRgba8(img).write_to(&mut buf, image::ImageFormat::Png) {
        Ok(()) => Ok(buf.into_inner()),
        Err(e) => Err(e.to_string()),
    }
}

// ---------------------------------------------------------------------------------------
// Pixel model
// ---------------------------------------------------------------------------------------

/// Byte offset of channel `c` of pixel `(x, y)` in a row-major RGBA buffer `w` pixels wide.
pub open spec fn at(w: int, x: int, y: int, c: int) -> int {
    4 * (y * w + x) + c
}

/// A solid `w` x `h` canvas of colour `bg`.
pub open spec fn solid(w: nat, h: nat, bg: Seq<u8>) -> Seq<u8> {
    Seq::new(4 * w * h, |i: int| bg[i % 4])
}

/// Source-over blend of one channel: `(s * a + d * (255 - a)) / 255`.
pub open spec fn blend(s: u8, d: u8, a: u8) -> u8 {
    ((s * a + d * (255 - a)) / 255) as u8
}

/// Canvas pixel `(x, y)` lies under top pixel `(x - ox, y - oy)` of a `tw` x `th` image.
pub open spec fn covered(tw: int, th: int, ox: int, oy: int, x: int, y: int) -> bool {
    0 <= x - ox < tw && 0 <= y - oy < th
}

/// Channel `c` of canvas pixel `(x, y)` after the top image is laid over it at `(ox, oy)`:
/// untouched where the top image does not reach or is fully transparent, otherwise the
/// colour channels are blended by the top pixel's alpha and the alpha becomes opaque.
pub open spec fn overlay_value(
    canvas: Seq<u8>,
    cw: int,
    top: Seq<u8>,
    tw: int,
    th: int,
    ox: int,
    oy: int,
    x: int,
    y: int,
    c: int,
) -> u8 {
    let below = canvas[at(cw, x, y, c)];
    if covered(tw, th, ox, oy, x, y) {
        let a = top[at(tw, x - ox, y - oy, 3)];
        if a == 0 {
            below
        } else if c == 3 {
            255
        } else {
            blend(top[at(tw, x - ox, y - oy, c)], below, a)
        }
    } else {
        below
    }
}

/// The whole canvas after laying the top image over it at `(ox, oy)`.
pub open spec fn overlay_spec(
    canvas: Seq<u8>,
    cw: int,
    top: Seq<u8>,
    tw: int,
    th: int,
    ox: int,
    oy: int,
) -> Seq<u8> {
    Seq::new(
        canvas.len(),
        |i: int| overlay_value(canvas, cw, top, tw, th, ox, oy, (i / 4) % cw, (i / 4) / cw, i % 4),
    )
}

/// The canvas after each layer in turn is decoded and laid over it, or the message of the
/// first layer that fails to decode.
pub open spec fn canvas_after(
    cw: u32,
    ch: u32,
    bg: Seq<u8>,
    layers: Seq<(Seq<u8>, i64, i64)>,
) -> Result<Seq<u8>, Seq<char>>
    decreases layers.len(),
{
    if layers.len() == 0 {
        Ok(solid(cw as nat, ch as nat, bg))
    } else {
        match canvas_after(cw, ch, bg, layers.drop_last()) {
            Ok(canvas) => match png_decoding(layers.last().0) {
                Ok(img) => Ok(
                    overlay_spec(
                        canvas,
                        cw as int,
                        img.2,
                        img.0 as int,
                        img.1 as int,
                        layers.last().1 as int,
                        layers.last().2 as int,
                    ),
                ),
                Err(m) => Err(m),
            },
            Err(m) => Err(m),
        }
    }
}

/// The layers as plain values: bytes and offset.
pub open spec fn layer_views(layers: Seq<Layer>) -> Seq<(Seq<u8>, i64, i64)> {
    layers.map_values(|l: Layer| (l.png@, l.x, l.y))
}

// ---------------------------------------------------------------------------------------
// Arithmetic facts
// ---------------------------------------------------------------------------------------

proof fn lemma_at_bounds(w: int, h: int, x: int, y: int, c: int)
    requires
        0 <= x < w,
        0 <= y < h,
        0 <= c < 4,
    ensures
        0 <= at(w, x, y, c) < 4 * w * h,
        0 <= y * w + x < w * h,
{
    assert(0 <= y * w) by (nonlinear_arith)
        requires
            0 <= y,
            0 <= w,
    ;
    assert(y * w + x < w * h) by (nonlinear_arith)
        requires
            0 <= x < w,
            0 <= y < h,
    ;
    assert(4 * (y * w + x) + c < 4 * w * h) by (nonlinear_arith)
        requires
            y * w + x < w * h,
            0 <= c < 4,
    ;
}

proof fn lemma_at_injective(w: int, x1: int, y1: int, c1: int, x2: int, y2: int, c2: int)
    requires
        0 <= x1 < w,
        0 <= x2 < w,
        0 <= y1,
        0 <= y2,
        0 <= c1 < 4,
        0 <= c2 < 4,
        at(w, x1, y1, c1) == at(w, x2, y2, c2),
    ensures
        x1 == x2,
        y1 == y2,
        c1 == c2,
{
    let i = at(w, x1, y1, c1);
    lemma_fundamental_div_mod_converse(i, 4, y1 * w + x1, c1);
    lemma_fundamental_div_mod_converse(i, 4, y2 * w + x2, c2);
    let p = y1 * w + x1;
    assert(p == y1 * w + x1);
    assert(p == y2 * w + x2);
    lemma_fundamental_div_mod_converse(p, w, y1, x1);
    lemma_fundamental_div_mod_converse(p, w, y2, x2);
}

proof fn lemma_decompose(i: int, w: int, h: int)
    requires
        0 <= i < 4 * w * h,
        w > 0,
    ensures
        0 <= (i / 4) % w < w,
        0 <= (i / 4) / w < h,
        0 <= i % 4 < 4,
        i == at(w, (i / 4) % w, (i / 4) / w, i % 4),
{
    let p = i / 4;
    assert(i == 4 * p + i % 4);
    assert(p == w * (p / w) + p % w) by (nonlinear_arith)
        requires
            w > 0,
    ;
    assert(0 <= p % w < w) by (nonlinear_arith)
        requires
            w > 0,
    ;
    assert(p < w * h) by (nonlinear_arith)
        requires
            i < 4 * w * h,
            p == i / 4,
            0 <= i,
    ;
    assert(0 <= p / w < h) by (nonlinear_arith)
        requires
            0 <= p < w * h,
            w > 0,
    ;
    assert(p == (p / w) * w + p % w) by (nonlinear_arith)
        requires
            p == w * (p / w) + p % w,
    ;
}

proof fn lemma_blend_fits(s: u8, d: u8, a: u8)
    ensures
        s * a + d * (255 - a) <= 255 * 255,
        (s * a + d * (255 - a)) / 255 <= 255,
{
    assert(s * a + d * (255 - a) <= 255 * 255) by (nonlinear_arith)
        requires
            0 <= s <= 255,
            0 <= d <= 255,
            0 <= a <= 255,
    ;
}

/// An opaque top pixel replaces what lies below it: its colour channels are copied exactly
/// and the result is opaque. Canvas pixels the top image does not reach are unchanged.
pub proof fn lemma_opaque_pixel_covers(
    canvas: Seq<u8>,
    cw: int,
    top: Seq<u8>,
    tw: int,
    th: int,
    ox: int,
    oy: int,
    x: int,
    y: int,
    c: int,
)
    requires
        0 <= c < 4,
    ensures
        covered(tw, th, ox, oy, x, y) && top[at(tw, x - ox, y - oy, 3)] == 255 ==> overlay_value(
            canvas,
            cw,
            top,
            tw,
            th,
            ox,
            oy,
            x,
            y,
            c,
        ) == (if c == 3 {
            255u8
        } else {
            top[at(tw, x - ox, y - oy, c)]
        }),
        !covered(tw, th, ox, oy, x, y) ==> overlay_value(canvas, cw, top, tw, th, ox, oy, x, y, c)
            == canvas[at(cw, x, y, c)],
{
    if covered(tw, th, ox, oy, x, y) && top[at(tw, x - ox, y - oy, 3)] == 255 && c < 3 {
        let s = top[at(tw, x - ox, y - oy, c)];
        let d = canvas[at(cw, x, y, c)];
        assert(s * 255 + d * (255 - 255) == s * 255) by (nonlinear_arith);
        assert((s * 255) / 255 == s) by (nonlinear_arith);
    }
}

// ---------------------------------------------------------------------------------------
// Executable compositing
// ---------------------------------------------------------------------------------------

/// A solid `w` x `h` canvas of colour `bg`.
pub(crate) fn solid_canvas(w: u32, h: u32, bg: [u8; 4]) -> (v: Vec<u8>)
    requires
        4 * w * h <= usize::MAX,
    ensures
        v@ == solid(w as nat, h as nat, bg@),
{
    assert(w * h <= usize::MAX && 4 * (w * h) == 4 * w * h) by (nonlinear_arith)
        requires
            4 * w * h <= usize::MAX,
    ;
    let n: usize = (w as usize) * (h as usize);
    let mut v: Vec<u8> = Vec::with_capacity(4 * n);
    for p in 0..n
        invariant
            n == w * h,
            4 * n <= usize::MAX,
            4 * n == 4 * w * h,
            v@ == solid(w as nat, h as nat, bg@).take(4 * p as int),
    {
        let ghost s = solid(w as nat, h as nat, bg@);
        v.push(bg[0]);
        v.push(bg[1]);
        v.push(bg[2]);
        v.push(bg[3]);
        assert(v@ == s.take(4 * p + 4)) by {
            assert(s.len() == 4 * n);
            assert forall|k: int| 0 <= k < 4 * p + 4 implies v@[k] == s[k] by {
                if k >= 4 * p {
                    assert(k % 4 == k - 4 * p);
                }
            }
        }
    }
    assert(solid(w as nat, h as nat, bg@).len() == 4 * n);
    assert(solid(w as nat, h as nat, bg@).take(4 * n as int) == solid(w as nat, h as nat, bg@));
    v
}

/// Simple source-over alpha blend of `top` onto `canvas` at `(ox, oy)`; pixels of the top
/// image that fall outside the canvas are clipped.
fn overlay(canvas: &mut Vec<u8>, cw: u32, ch: u32, top: &RgbaPixels, ox: i64, oy: i64)
    requires
        old(canvas)@.len() == 4 * cw * ch,
        4 * top.width * top.height <= top.data@.len(),
    ensures
        final(canvas)@ == overlay_spec(
            old(canvas)@,
            cw as int,
            top.data@,
            top.width as int,
            top.height as int,
            ox as int,
            oy as int,
        ),
{
    let ghost orig = old(canvas)@;
    let tw = top.width;
    let th = top.height;
    let ghost tws = tw as int;
    let ghost ths = th as int;
    for ty in 0..th
        invariant
            tw == top.width,
            tws == tw,
            ths == th,
            th == top.height,
            4 * tw * th <= top.data@.len(),
            canvas@.len() == orig.len(),
            orig.len() == 4 * cw * ch,
            forall|x: int, y: int, c: int|
                #![trigger canvas@[at(cw as int, x, y, c)]]
                0 <= x < cw && 0 <= y < ch && 0 <= c < 4 ==> canvas@[at(cw as int, x, y, c)] == (
                if covered(tws, ths, ox as int, oy as int, x, y) && y - oy < ty {
                    overlay_value(orig, cw as int, top.data@, tws, ths, ox as int, oy as int, x, y, c)
                } else {
                    orig[at(cw as int, x, y, c)]
                }),
    {
        for tx in 0..tw
            invariant
                tw == top.width,
                tws == tw,
                ths == th,
                th == top.height,
                ty < th,
                4 * tw * th <= top.data@.len(),
                canvas@.len() == orig.len(),
                orig.len() == 4 * cw * ch,
                forall|x: int, y: int, c: int|
                    #![trigger canvas@[at(cw as int, x, y, c)]]
                    0 <= x < cw && 0 <= y < ch && 0 <= c < 4 ==> canvas@[at(cw as int, x, y, c)]
                        == (if covered(tws, ths, ox as int, oy as int, x, y) && (y - oy < ty || (y
                        - oy == ty && x - ox < tx)) {
                        overlay_value(
                            orig,
                            cw as int,
                            top.data@,
                            tws,
                            ths,
                            ox as int,
                            oy as int,
                            x,
                            y,
                            c,
                        )
                    } else {
                        orig[at(cw as int, x, y, c)]
                    }),
        {
            let px: i128 = ox as i128 + tx as i128;
            let py: i128 = oy as i128 + ty as i128;
            proof {
                lemma_at_bounds(tws, ths, tx as int, ty as int, 3);
            }
            assert(4 * ((ty as int) * (tw as int) + (tx as int)) + 3 < top.data.len());
            assert((ty as int) * (tw as int) <= (ty as int) * (tw as int) + (tx as int));
            let ti: usize = 4 * ((ty as usize) * (tw as usize) + (tx as usize));
            let a = top.data[ti + 3];
            if px < 0 || py < 0 || px >= cw as i128 || py >= ch as i128 || a == 0 {
                // Nothing to draw here: outside the canvas, or fully transparent.
                assert forall|x: int, y: int, c: int|
                    0 <= x < cw && 0 <= y < ch && 0 <= c < 4 implies #[trigger] canvas@[at(
                    cw as int,
                    x,
                    y,
                    c,
                )] == (if covered(tws, ths, ox as int, oy as int, x, y) && (y - oy < ty || (y - oy
                    == ty && x - ox < tx + 1)) {
                    overlay_value(orig, cw as int, top.data@, tws, ths, ox as int, oy as int, x, y, c)
                } else {
                    orig[at(cw as int, x, y, c)]
                }) by {
                    if x == px && y == py {
                        assert(at(tws, x - ox, y - oy, 3) == ti + 3);
                    }
                }
            } else {
                let pxu = px as usize;
                let pyu = py as usize;
                proof {
                    lemma_at_bounds(cw as int, ch as int, pxu as int, pyu as int, 3);
                }
                assert(4 * ((pyu as int) * (cw as int) + (pxu as int)) + 3 < canvas.len());
                assert((pyu as int) * (cw as int) <= (pyu as int) * (cw as int) + (pxu as int));
                let di: usize = 4 * (pyu * (cw as usize) + pxu);
                let ghost before = canvas@;
                for c in 0..3usize
                    invariant
                        di + 3 < canvas.len(),
                        ti + 3 < top.data.len(),
                        di + 3 < canvas@.len(),
                        canvas@.len() == before.len(),
                        ti + 3 < top.data@.len(),
                        forall|k: int|
                            0 <= k < canvas@.len() && (k < di || k >= di + c) ==> canvas@[k]
                                == before[k],
                        forall|k: int|
                            di <= k < di + c ==> #[trigger] canvas@[k] == blend(
                                top.data@[ti + (k - di)],
                                before[k],
                                a,
                            ),
                {
                    let s = top.data[ti + c] as u32;
                    let d = canvas[di + c] as u32;
                    let au = a as u32;
                    proof {
                        lemma_blend_fits(top.data@[ti + c], canvas@[di + c], a);
                    }
                    let v = ((s * au + d * (255 - au)) / 255) as u8;
                    canvas.set(di + c, v);
                }
                canvas.set(di + 3, 255);
                assert forall|x: int, y: int, c: int|
                    0 <= x < cw && 0 <= y < ch && 0 <= c < 4 implies #[trigger] canvas@[at(
                    cw as int,
                    x,
                    y,
                    c,
                )] == (if covered(tws, ths, ox as int, oy as int, x, y) && (y - oy < ty || (y - oy
                    == ty && x - ox < tx + 1)) {
                    overlay_value(orig, cw as int, top.data@, tws, ths, ox as int, oy as int, x, y, c)
                } else {
                    orig[at(cw as int, x, y, c)]
                }) by {
                    lemma_at_bounds(cw as int, ch as int, x, y, c);
                    if x == px && y == py {
                        assert(at(cw as int, x, y, c) == di + c);
                        assert(at(tws, x - ox, y - oy, 3) == ti + 3);
                        assert(at(tws, x - ox, y - oy, c) == ti + c);
                        assert(before[at(cw as int, x, y, c)] == orig[at(cw as int, x, y, c)]);
                    } else {
                        let k = at(cw as int, x, y, c);
                        if di <= k < di + 4 {
                            lemma_at_injective(cw as int, x, y, c, pxu as int, pyu as int, k - di);
                        }
                        assert(canvas@[k] == before[k]);
                    }
                }
            }
        }
        assert forall|x: int, y: int, c: int|
            0 <= x < cw && 0 <= y < ch && 0 <= c < 4 implies #[trigger] canvas@[at(
            cw as int,
            x,
            y,
            c,
        )] == (if covered(tws, ths, ox as int, oy as int, x, y) && y - oy < ty + 1 {
            overlay_value(orig, cw as int, top.data@, tws, ths, ox as int, oy as int, x, y, c)
        } else {
            orig[at(cw as int, x, y, c)]
        }) by {}
    }
    assert(canvas@ == overlay_spec(orig, cw as int, top.data@, tws, ths, ox as int, oy as int)) by {
        assert forall|i: int| 0 <= i < canvas@.len() implies canvas@[i] == overlay_spec(
            orig,
            cw as int,
            top.data@,
            tws,
            ths,
            ox as int,
            oy as int,
        )[i] by {
            assert(cw > 0) by (nonlinear_arith)
                requires
                    0 <= i < 4 * (cw as int) * (ch as int),
            ;
            lemma_decompose(i, cw as int, ch as int);
            let x = (i / 4) % (cw as int);
            let y = (i / 4) / (cw as int);
            assert(canvas@[at(cw as int, x, y, i % 4)] == canvas@[i]);
        }
    }
}

/// Canonical, deterministic CPU compositing: a `width` x `height` canvas of `background`,
/// each layer decoded and blended over it in order, the result encoded as PNG. The same
/// inputs always give the same bytes.
pub fn compose(width: u32, height: u32, background: [u8; 4], layers: &[Layer]) -> (r: Result<
    Vec<u8>,
    RenderError,
>)
    requires
        4 * width * height <= usize::MAX,
    ensures
        match r {
            Ok(bytes) => match canvas_after(width, height, background@, layer_views(layers@)) {
                Ok(canvas) => png_encoding(width, height, canvas) == Ok::<Seq<u8>, Seq<char>>(
                    bytes@,
                ),
                Err(_) => false,
            },
            Err(RenderError::Decode(m)) => canvas_after(
                width,
                height,
                background@,
                layer_views(layers@),
            ) == Err::<Seq<u8>, Seq<char>>(m@),
            Err(RenderError::Encode(m)) => match canvas_after(
                width,
                height,
                background@,
                layer_views(layers@),
            ) {
                Ok(canvas) => png_encoding(width, height, canvas) == Err::<Seq<u8>, Seq<char>>(
                    m@,
                ),
                Err(_) => false,
            },
        },
{
    let mut canvas = solid_canvas(width, height, background);
    let n = layers.len();
    for i in 0..n
        invariant
            n == layers@.len(),
            canvas@.len() == 4 * width * height,
            canvas_after(width, height, background@, layer_views(layers@).take(i as int)) == Ok::<
                Seq<u8>,
                Seq<char>,
            >(canvas@),
    {
        let layer = &layers[i];
        assert(layer_views(layers@).take(i + 1).drop_last() == layer_views(layers@).take(
            i as int,
        ));
        match decode_png(layer.png) {
            Ok(top) => {
                overlay(&mut canvas, width, height, &top, layer.x, layer.y);
            },
            Err(e) => {
                proof {
                    lemma_first_failure_stops(
                        width,
                        height,
                        background@,
                        layer_views(layers@),
                        i as int,
                    );
                }
                return Err(RenderError::Decode(e));
            },
        }
    }
    assert(layer_views(layers@).take(n as int) == layer_views(layers@));
    match encode_png(width, height, canvas) {
        Ok(bytes) => Ok(bytes),
        Err(e) => Err(RenderError::Encode(e)),
    }
}

/// Once a layer fails to decode, the composition reports that layer's message whatever
/// follows it.
proof fn lemma_first_failure_stops(
    cw: u32,
    ch: u32,
    bg: Seq<u8>,
    layers: Seq<(Seq<u8>, i64, i64)>,
    i: int,
)
    requires
        0 <= i < layers.len(),
        canvas_after(cw, ch, bg, layers.take(i)) is Ok,
        png_decoding(layers[i].0) is Err,
    ensures
        canvas_after(cw, ch, bg, layers) == Err::<Seq<u8>, Seq<char>>(
            png_decoding(layers[i].0)->Err_0,
        ),
    decreases layers.len(),
{
    if i == layers.len() - 1 {
        assert(layers.drop_last() == layers.take(i));
    } else {
        assert(layers.drop_last().take(i) == layers.take(i));
        lemma_first_failure_stops(cw, ch, bg, layers.drop_last(), i);
    }
}

} // verus!
