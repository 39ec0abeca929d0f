use vstd::prelude::*;
use vstd::arithmetic::div_mod::{lemma_fundamental_div_mod, lemma_fundamental_div_mod_converse};
use vstd::arithmetic::mul::lemma_mul_inequality;
use vstd::arithmetic::power2::{lemma2_to64, lemma_pow2_strictly_increases, pow2};
use vstd::bits::{lemma_u32_pow2_no_overflow, lemma_u32_shl_is_mul};

use crate::color::{combinable, rgba_of, ColorSpace};
use crate::error::DecodeError;

verus! {

/// The maximum number of components used in any pixel encoding.
pub const MAX_COMPONENTS: usize = 4;

/// `a` divided by 2 to the power of `b`, rounded upwards.
pub open spec fn ceil_div_pow2_spec(a: nat, b: nat) -> int {
    (a + pow2(b) - 1) / (pow2(b) as int)
}

proof fn lemma_ceil_div(a: int, p: int)
    requires
        a >= 0,
        p > 0,
    ensures
        (a + p - 1) / p == a / p + if a % p == 0 {
            0int
        } else {
            1int
        },
        a / p >= 0,
{
    lemma_fundamental_div_mod(a, p);
    let q = a / p;
    let r = a % p;
    assert(q >= 0) by (nonlinear_arith)
        requires
            a >= 0,
            p > 0,
            a == p * q + r,
            0 <= r < p,
    ;
    if r == 0 {
        assert(a + p - 1 == q * p + (p - 1)) by (nonlinear_arith)
            requires
                a == p * q + r,
                r == 0,
        ;
        lemma_fundamental_div_mod_converse(a + p - 1, p, q, p - 1);
    } else {
        assert(a + p - 1 == (q + 1) * p + (r - 1)) by (nonlinear_arith)
            requires
                a == p * q + r,
        ;
        lemma_fundamental_div_mod_converse(a + p - 1, p, q + 1, r - 1);
    }
}

/// Divide by 2 to the power of b and round upwards.
pub fn ceil_div_pow2(a: u32, b: u32) -> (r: u32)
    ensures
        r == ceil_div_pow2_spec(a as nat, b as nat),
{
    if b >= 32 {
        proof {
            lemma2_to64();
            if b > 32 {
                lemma_pow2_strictly_increases(32, b as nat);
            }
            let p = pow2(b as nat) as int;
            if a == 0 {
                lemma_fundamental_div_mod_converse(p - 1, p, 0, p - 1);
            } else {
                lemma_fundamental_div_mod_converse(a + p - 1, p, 1, a - 1);
            }
        }
        if a == 0 {
            0
        } else {
            1
        }
    } else {
        proof {
            lemma_u32_pow2_no_overflow(b as nat);
            lemma_u32_shl_is_mul(1, b);
        }
        let p: u32 = 1u32 << b;
        let q: u32 = a / p;
        let rem: u32 = a % p;
        proof {
            lemma_ceil_div(a as int, p as int);
            lemma_fundamental_div_mod(a as int, p as int);
            assert(rem > 0 ==> q < u32::MAX) by (nonlinear_arith)
                requires
                    p >= 1,
                    q >= 0,
                    a == p * q + rem,
                    a <= u32::MAX,
            ;
        }
        if rem == 0 {
            q
        } else {
            q + 1
        }
    }
}

/// One decoded component: a grid of samples stored row by row.
#[derive(Clone, Debug)]
pub struct ComponentPlane {
    /// Samples in each stored row.
    pub width: u32,
    /// Number of stored rows.
    pub height: u32,
    /// How many resolution levels the engine dropped for this component.
    pub factor: u32,
    /// The samples, row-major.
    pub data: Vec<u8>,
}

/// The sample of a plane at a pixel, found through the plane's own row width.
pub open spec fn sample_of(p: ComponentPlane, x: int, y: int) -> u8 {
    p.data@[y * p.width + x]
}

/// Lane `i` of the samples gathered for a pixel: the sample of plane `i`
/// where there is one, else 0 for a colour lane and 255 for alpha.
pub open spec fn lane_of(planes: Seq<ComponentPlane>, i: int, x: int, y: int) -> u8 {
    if i < planes.len() {
        sample_of(planes[i], x, y)
    } else if i == 3 {
        255u8
    } else {
        0u8
    }
}

/// The four samples gathered for a pixel, one per lane.
pub open spec fn gathered_of(planes: Seq<ComponentPlane>, x: int, y: int) -> [u8; 4] {
    [lane_of(planes, 0, x, y), lane_of(planes, 1, x, y), lane_of(planes, 2, x, y), lane_of(planes, 3, x, y)]
}

/// The RGBA bytes of the pixel at `(x, y)`.
pub open spec fn pixel_of(planes: Seq<ComponentPlane>, c: ColorSpace, x: int, y: int) -> Seq<u8> {
    let p = rgba_of(c, gathered_of(planes, x, y)).unwrap();
    seq![p[0], p[1], p[2], p[3]]
}

/// The bytes of the first `n` pixels of row `y`.
pub open spec fn row_bytes(planes: Seq<ComponentPlane>, c: ColorSpace, y: int, n: nat) -> Seq<u8>
    decreases n,
{
    if n == 0 {
        Seq::empty()
    } else {
        row_bytes(planes, c, y, (n - 1) as nat) + pixel_of(planes, c, n - 1, y)
    }
}

/// The bytes of the first `h` rows of a bitmap `w` pixels wide.
pub open spec fn image_bytes(planes: Seq<ComponentPlane>, c: ColorSpace, w: nat, h: nat) -> Seq<u8>
    decreases h,
{
    if h == 0 {
        Seq::empty()
    } else {
        image_bytes(planes, c, w, (h - 1) as nat) + row_bytes(planes, c, h - 1, w)
    }
}

/// Whether a plane holds a sample for every pixel of a `w` by `h` bitmap.
pub open spec fn covers(p: ComponentPlane, w: nat, h: nat) -> bool {
    w == 0 || h == 0 || (h - 1) * p.width + w <= p.data@.len()
}

/// Whether every plane holds a sample for every pixel of a `w` by `h` bitmap.
pub open spec fn all_cover(planes: Seq<ComponentPlane>, w: nat, h: nat) -> bool {
    forall|i: int| 0 <= i < planes.len() ==> #[trigger] covers(planes[i], w, h)
}

/// Message of the error for a plane with fewer samples than the bitmap needs.
pub const SHORT_PLANE: &'static str = "a component plane is smaller than the image";

/// The error, if any, of assembling `planes` into a `w` by `h` bitmap.
pub open spec fn assemble_error(planes: Seq<ComponentPlane>, c: ColorSpace, w: nat, h: nat) -> Option<
    DecodeError,
> {
    if planes.len() > MAX_COMPONENTS {
        Some(DecodeError::TooManyComponents(planes.len() as usize))
    } else if !combinable(c) {
        Some(DecodeError::UnsupportedColorSpace)
    } else if !all_cover(planes, w, h) {
        Some(DecodeError::FfiError(SHORT_PLANE))
    } else {
        None
    }
}

proof fn lemma_row_bytes(planes: Seq<ComponentPlane>, c: ColorSpace, y: int, n: nat)
    ensures
        row_bytes(planes, c, y, n).len() == 4 * n,
        forall|x: int, k: int|
            0 <= x < n && 0 <= k < 4 ==> row_bytes(planes, c, y, n)[4 * x + k]
                == #[trigger] pixel_of(planes, c, x, y)[k],
    decreases n,
{
    if n > 0 {
        lemma_row_bytes(planes, c, y, (n - 1) as nat);
    }
}

proof fn lemma_image_bytes(planes: Seq<ComponentPlane>, c: ColorSpace, w: nat, h: nat)
    ensures
        image_bytes(planes, c, w, h).len() == 4 * w * h,
        forall|x: int, y: int, k: int|
            0 <= x < w && 0 <= y < h && 0 <= k < 4 ==> image_bytes(planes, c, w, h)[4 * (y * w
                + x) + k] == #[trigger] pixel_of(planes, c, x, y)[k],
    decreases h,
{
    if h == 0 {
        assert(4 * w * h == 0) by (nonlinear_arith)
            requires
                h == 0,
        ;
    } else {
        let hp = (h - 1) as nat;
        lemma_image_bytes(planes, c, w, hp);
        lemma_row_bytes(planes, c, hp as int, w);
        assert(4 * w * hp + 4 * w == 4 * w * h) by (nonlinear_arith)
            requires
                hp + 1 == h,
        ;
        assert forall|x: int, y: int, k: int|
            0 <= x < w && 0 <= y < h && 0 <= k < 4 implies image_bytes(planes, c, w, h)[4 * (y
                * w + x) + k] == #[trigger] pixel_of(planes, c, x, y)[k] by {
            if y < hp {
                assert(4 * (y * w + x) + k < 4 * w * hp) by (nonlinear_arith)
                    requires
                        0 <= x < w,
                        0 <= y < hp,
                        0 <= k < 4,
                ;
            } else {
                assert(4 * (y * w + x) + k == 4 * w * hp + (4 * x + k)) by (nonlinear_arith)
                    requires
                        y == hp,
                ;
            }
        }
    }
}

/// An image as interleaved RGBA bytes, row by row from the top.
pub struct Bitmap {
    width: u32,
    height: u32,
    pixels: Vec<u8>,
}

impl Bitmap {
    pub closed spec fn width_spec(&self) -> nat {
        self.width as nat
    }

    pub closed spec fn height_spec(&self) -> nat {
        self.height as nat
    }

    pub closed spec fn bytes_spec(&self) -> Seq<u8> {
        self.pixels@
    }

    /// Four bytes for each pixel.
    pub open spec fn wf(&self) -> bool {
        self.bytes_spec().len() == 4 * self.width_spec() * self.height_spec()
    }

    /// The RGBA bytes of the pixel at `(x, y)`.
    pub open spec fn pixel_spec(&self, x: int, y: int) -> Seq<u8> {
        let i = 4 * (y * self.width_spec() + x);
        self.bytes_spec().subrange(i, i + 4)
    }

    /// Width in pixels.
    pub fn width(&self) -> (r: u32)
        ensures
            r == self.width_spec(),
    {
        self.width
    }

    /// Height in pixels.
    pub fn height(&self) -> (r: u32)
        ensures
            r == self.height_spec(),
    {
        self.height
    }

    /// The RGBA bytes, row-major.
    pub fn pixels(&self) -> (r: &Vec<u8>)
        ensures
            r@ == self.bytes_spec(),
    {
        &self.pixels
    }

    /// Gives up the bitmap for its RGBA bytes, row-major.
    pub fn into_pixels(self) -> (r: Vec<u8>)
        ensures
            r@ == self.bytes_spec(),
    {
        self.pixels
    }

    /// The RGBA value of the pixel at `(x, y)`.
    pub fn pixel(&self, x: u32, y: u32) -> (r: [u8; 4])
        requires
            self.wf(),
            x < self.width_spec(),
            y < self.height_spec(),
        ensures
            r@ == self.pixel_spec(x as int, y as int),
    {
        let w = self.width as usize;
        let n: usize = self.pixels.len();
        proof {
            let h = self.height as int;
            assert(y * w + x < w * h && 4 * (y * w + x) + 4 <= 4 * w * h) by (nonlinear_arith)
                requires
                    x < w,
                    y < h,
            ;
            assert(y * w <= y * w + x);
        }
        let i: usize = 4 * (y as usize * w + x as usize);
        let r = [self.pixels[i], self.pixels[i + 1], self.pixels[i + 2], self.pixels[i + 3]];
        assert(r@ =~= self.pixel_spec(x as int, y as int));
        r
    }
}

/// Whether a plane holds a sample for every pixel of a `width` by `height` bitmap.
fn plane_covers(p: &ComponentPlane, width: u32, height: u32) -> (r: bool)
    ensures
        r == covers(*p, width as nat, height as nat),
{
    if width == 0 || height == 0 {
        return true;
    }
    let len: usize = p.data.len();
    let rows: usize = (height - 1) as usize;
    match rows.checked_mul(p.width as usize) {
        Some(m) => match m.checked_add(width as usize) {
            Some(need) => need <= len,
            None => false,
        },
        None => {
            assert((height - 1) * p.width + width > len) by (nonlinear_arith)
                requires
                    rows * p.width > usize::MAX,
                    rows == height - 1,
                    len <= usize::MAX,
            ;
            false
        },
    }
}

/// Lane `i` of the samples for the pixel at `(x, y)`.
fn lane(planes: &Vec<ComponentPlane>, i: usize, x: u32, y: u32, width: u32, height: u32) -> (r: u8)
    requires
        i < 4,
        x < width,
        y < height,
        all_cover(planes@, width as nat, height as nat),
    ensures
        r == lane_of(planes@, i as int, x as int, y as int),
{
    if i < planes.len() {
        let p = &planes[i];
        assert(covers(planes@[i as int], width as nat, height as nat));
        let len: usize = p.data.len();
        proof {
            lemma_mul_inequality(y as int, height - 1, p.width as int);
        }
        let idx: usize = y as usize * p.width as usize + x as usize;
        p.data[idx]
    } else if i == 3 {
        255
    } else {
        0
    }
}

/// Reassembles component planes into an RGBA bitmap of `width` by `height`
/// pixels in colour space `color_space`.
///
/// Lane `i` of the pixel at `(x, y)` is the sample of plane `i` at index
/// `y * plane.width + x`; lanes without a plane are 0, and alpha 255. The
/// colour space then combines the four lanes.
pub fn assemble(planes: &Vec<ComponentPlane>, color_space: ColorSpace, width: u32, height: u32) -> (r:
    Result<Bitmap, DecodeError>)
    ensures
        match r {
            Ok(b) => {
                &&& assemble_error(planes@, color_space, width as nat, height as nat) is None
                &&& b.wf()
                &&& b.width_spec() == width
                &&& b.height_spec() == height
                &&& b.bytes_spec() == image_bytes(planes@, color_space, width as nat, height as nat)
                &&& forall|x: int, y: int|
                    0 <= x < width && 0 <= y < height ==> #[trigger] b.pixel_spec(x, y) == pixel_of(
                        planes@,
                        color_space,
                        x,
                        y,
                    )
            },
            Err(e) => assemble_error(planes@, color_space, width as nat, height as nat) == Some(e),
        },
{
    if planes.len() > MAX_COMPONENTS {
        return Err(DecodeError::TooManyComponents(planes.len()));
    }
    if !color_space.is_combinable() {
        return Err(DecodeError::UnsupportedColorSpace);
    }
    let mut j: usize = 0;
    while j < planes.len()
        invariant
            j <= planes@.len(),
            planes@.len() <= MAX_COMPONENTS,
            combinable(color_space),
            forall|i: int| 0 <= i < j ==> #[trigger] covers(planes@[i], width as nat, height as nat),
        decreases planes@.len() - j,
    {
        if !plane_covers(&planes[j], width, height) {
            assert(!covers(planes@[j as int], width as nat, height as nat));
            return Err(DecodeError::FfiError(SHORT_PLANE));
        }
        j = j + 1;
    }
    let ghost ps = planes@;
    let mut pixels: Vec<u8> = Vec::new();
    let mut y: u32 = 0;
    while y < height
        invariant
            y <= height,
            planes@.len() <= MAX_COMPONENTS,
            combinable(color_space),
            all_cover(planes@, width as nat, height as nat),
            pixels@ == image_bytes(planes@, color_space, width as nat, y as nat),
        decreases height - y,
    {
        let mut x: u32 = 0;
        while x < width
            invariant
                x <= width,
                y < height,
                planes@.len() <= MAX_COMPONENTS,
                combinable(color_space),
                all_cover(planes@, width as nat, height as nat),
                pixels@ == image_bytes(planes@, color_space, width as nat, y as nat) + row_bytes(
                    planes@,
                    color_space,
                    y as int,
                    x as nat,
                ),
            decreases width - x,
        {
            let values: [u8; 4] = [
                lane(planes, 0, x, y, width, height),
                lane(planes, 1, x, y, width, height),
                lane(planes, 2, x, y, width, height),
                lane(planes, 3, x, y, width, height),
            ];
            assert(values =~= gathered_of(planes@, x as int, y as int));
            let p = match color_space.convert_to_rgba(values) {
                Ok(p) => p,
                Err(e) => return Err(e),
            };
            pixels.push(p[0]);
            pixels.push(p[1]);
            pixels.push(p[2]);
            pixels.push(p[3]);
            x = x + 1;
            assert(pixels@ =~= image_bytes(planes@, color_space, width as nat, y as nat) + row_bytes(
                planes@,
                color_space,
                y as int,
                x as nat,
            ));
        }
        y = y + 1;
        assert(pixels@ =~= image_bytes(planes@, color_space, width as nat, y as nat));
    }
    let b = Bitmap { width, height, pixels };
    proof {
        lemma_image_bytes(ps, color_space, width as nat, height as nat);
        assert forall|x: int, y: int|
            0 <= x < width && 0 <= y < height implies #[trigger] b.pixel_spec(x, y) == pixel_of(
            ps,
            color_space,
            x,
            y,
        ) by {
            assert(4 * (y * width + x) + 4 <= 4 * width * height) by (nonlinear_arith)
                requires
                    0 <= x < width,
                    0 <= y < height,
            ;
            assert(b.pixel_spec(x, y) =~= pixel_of(ps, color_space, x, y));
        }
    }
    Ok(b)
}

} // verus!
