use vstd::prelude::*;
use vstd::arithmetic::power2::pow2;
use vstd::arithmetic::power2::lemma2_to64;
use crate::register::AccessPattern;
use crate::register::ControlRegister;
use crate::register::FrameRate;
use crate::register::Resolution;
use crate::register::Subpage;

verus! {

/// The two members of the camera family.
#[derive(Clone, Copy, Debug, PartialEq, Eq, Structural)]
pub enum CameraModel {
    /// 32 by 24 pixels.
    Mlx90640,
    /// 16 by 12 pixels.
    Mlx90641,
}

impl CameraModel {
    pub open spec fn spec_height(self) -> usize {
        match self {
            CameraModel::Mlx90640 => 24,
            CameraModel::Mlx90641 => 12,
        }
    }

    pub open spec fn spec_width(self) -> usize {
        match self {
            CameraModel::Mlx90640 => 32,
            CameraModel::Mlx90641 => 16,
        }
    }

    /// The height of the thermal image, in pixels.
    pub fn height(&self) -> (h: usize)
        ensures
            h == self.spec_height(),
    {
        match self {
            CameraModel::Mlx90640 => 24,
            CameraModel::Mlx90641 => 12,
        }
    }

    /// The width of the thermal image, in pixels.
    pub fn width(&self) -> (w: usize)
        ensures
            w == self.spec_width(),
    {
        match self {
            CameraModel::Mlx90640 => 32,
            CameraModel::Mlx90641 => 16,
        }
    }

    /// The number of pixels in a full image.
    pub fn num_pixels(&self) -> (n: usize)
        ensures
            n == self.spec_height() * self.spec_width(),
    {
        self.height() * self.width()
    }

    /// The size of the buffer that holds one frame of raw pixel data: two bytes per pixel.
    pub fn pixel_buffer_len(&self) -> (n: usize)
        ensures
            n == 2 * self.spec_height() * self.spec_width(),
    {
        2 * self.height() * self.width()
    }
}

impl CameraModel {
    /// The subpage that the access pattern assigns pixel `index` (row-major,
    /// from 0) to. In the interleaved pattern even rows go to subpage zero and
    /// odd rows to subpage one; in the chess pattern a pixel goes to subpage zero
    /// when its row and column are both even or both odd.
    pub open spec fn spec_pixel_subpage(self, pattern: AccessPattern, index: int) -> Subpage {
        let row = index / (self.spec_width() as int);
        let col = index % (self.spec_width() as int);
        let parity = match pattern {
            AccessPattern::Interleave => row % 2,
            AccessPattern::Chess => (row + col) % 2,
        };
        if parity == 0 { Subpage::Zero } else { Subpage::One }
    }

    /// Whether reading `subpage` yields a fresh value for pixel `index`. The
    /// MLX90640 updates only the pixels its access pattern assigns to the
    /// subpage; the MLX90641 delivers every pixel with each subpage.
    pub open spec fn spec_pixel_in_subpage(self, pattern: AccessPattern, subpage: Subpage, index: int) -> bool {
        match self {
            CameraModel::Mlx90640 => self.spec_pixel_subpage(pattern, index) == subpage,
            CameraModel::Mlx90641 => true,
        }
    }

    /// The subpage the access pattern `pattern` assigns pixel `index` to.
    pub fn pixel_subpage(&self, pattern: AccessPattern, index: usize) -> (s: Subpage)
        requires
            index < self.spec_height() * self.spec_width(),
        ensures
            s == self.spec_pixel_subpage(pattern, index as int),
            (s == Subpage::Zero) == (match pattern {
                AccessPattern::Interleave => (index / self.spec_width()) % 2 == 0,
                AccessPattern::Chess => ((index / self.spec_width()) + (index % self.spec_width())) % 2 == 0,
            }),
    {
        let width = self.width();
        let row = index / width;
        let col = index % width;
        let parity = match pattern {
            AccessPattern::Interleave => row % 2,
            AccessPattern::Chess => (row + col) % 2,
        };
        if parity == 0 { Subpage::Zero } else { Subpage::One }
    }

    /// For every pixel, in row-major order, whether reading `subpage` under the
    /// access pattern `pattern` yields a fresh value for it.
    pub fn pixels_in_subpage(&self, subpage: Subpage, pattern: AccessPattern) -> (valid: Vec<bool>)
        ensures
            valid.len() == self.spec_height() * self.spec_width(),
            forall|i: int| 0 <= i < valid.len() ==>
                #[trigger] valid[i] == self.spec_pixel_in_subpage(pattern, subpage, i),
            *self == CameraModel::Mlx90640 ==> forall|i: int| 0 <= i < valid.len() ==>
                #[trigger] valid[i] == ((subpage == Subpage::Zero) == (match pattern {
                    AccessPattern::Interleave => (i / 32) % 2 == 0,
                    AccessPattern::Chess => ((i / 32) + (i % 32)) % 2 == 0,
                })),
            *self == CameraModel::Mlx90641 ==> forall|i: int| 0 <= i < valid.len() ==> #[trigger] valid[i],
    {
        let n = self.num_pixels();
        let mut valid: Vec<bool> = Vec::new();
        let mut i: usize = 0;
        while i < n
            invariant
                n == self.spec_height() * self.spec_width(),
                i <= n,
                valid.len() == i,
                forall|j: int| 0 <= j < i ==>
                    #[trigger] valid[j] == self.spec_pixel_in_subpage(pattern, subpage, j),
            decreases n - i,
        {
            let fresh = match self {
                CameraModel::Mlx90640 => self.pixel_subpage(pattern, i) == subpage,
                CameraModel::Mlx90641 => true,
            };
            valid.push(fresh);
            i = i + 1;
        }
        proof {
            assert forall|i: int| 0 <= i < valid.len() implies
                #[trigger] valid[i] == self.spec_pixel_in_subpage(pattern, subpage, i) by {
                law_pixels_in_subpage(*self, pattern, subpage, i);
            }
        }
        valid
    }

    /// The control register word the camera holds after power-on: subpages
    /// used, data hold and subpage repeat off, subpage zero selected, 2 FPS,
    /// 18-bit resolution, and the chess pattern on the MLX90640 or the
    /// interleaved pattern on the MLX90641.
    pub open spec fn spec_default_control_register(self) -> ControlRegister {
        match self {
            CameraModel::Mlx90640 => ControlRegister { raw: 0x1901 },
            CameraModel::Mlx90641 => ControlRegister { raw: 0x0901 },
        }
    }

    pub fn default_control_register(&self) -> (r: ControlRegister)
        ensures
            r == self.spec_default_control_register(),
    {
        match self {
            CameraModel::Mlx90640 => ControlRegister { raw: 0x1901 },
            CameraModel::Mlx90641 => ControlRegister { raw: 0x0901 },
        }
    }

    /// Whether an image of `height` rows and a raw pixel buffer of `buffer_len`
    /// bytes fit this camera.
    pub fn fits_buffers(&self, height: usize, buffer_len: usize) -> (b: bool)
        ensures
            b == (height == self.spec_height() && buffer_len == 2 * self.spec_height() * self.spec_width()),
    {
        height == self.height() && buffer_len == self.pixel_buffer_len()
    }
}

/// Which pixels reading a subpage refreshes, in terms of the pixel's row and
/// column (row-major, 32 columns on the MLX90640): in the interleaved pattern
/// subpage zero holds the even rows and subpage one the odd rows; in the chess
/// pattern subpage zero holds the pixels whose row and column add up to an even
/// number and subpage one the others. The MLX90641 refreshes every pixel with
/// either subpage.
pub proof fn law_pixels_in_subpage(model: CameraModel, pattern: AccessPattern, subpage: Subpage, i: int)
    requires
        0 <= i,
    ensures
        model == CameraModel::Mlx90640 ==> model.spec_pixel_in_subpage(pattern, subpage, i)
            == ((subpage == Subpage::Zero) == (match pattern {
                AccessPattern::Interleave => (i / 32) % 2 == 0,
                AccessPattern::Chess => ((i / 32) + (i % 32)) % 2 == 0,
            })),
        model == CameraModel::Mlx90641 ==> model.spec_pixel_in_subpage(pattern, subpage, i),
{
}


/// The power-on control register decodes to the documented defaults.
pub proof fn law_power_on_defaults(model: CameraModel)
    ensures
        model.spec_default_control_register().spec_use_subpages(),
        !model.spec_default_control_register().spec_data_hold(),
        !model.spec_default_control_register().spec_subpage_repeat(),
        model.spec_default_control_register().spec_subpage() == Subpage::Zero,
        model.spec_default_control_register().spec_frame_rate() == FrameRate::Two,
        model.spec_default_control_register().spec_resolution() == Resolution::Eighteen,
        model.spec_default_control_register().spec_access_pattern() == (match model {
            CameraModel::Mlx90640 => AccessPattern::Chess,
            CameraModel::Mlx90641 => AccessPattern::Interleave,
        }),
{
    assert(0x1901u16 & 0x0001u16 != 0 && 0x1901u16 & 0x0004u16 == 0 && 0x1901u16 & 0x0008u16 == 0
        && (0x1901u16 & 0x0070u16) >> 4u16 == 0 && (0x1901u16 & 0x0380u16) >> 7u16 == 2
        && (0x1901u16 & 0x0c00u16) >> 10u16 == 2 && (0x1901u16 & 0x1000u16) >> 12u16 == 1) by (bit_vector);
    assert(0x0901u16 & 0x0001u16 != 0 && 0x0901u16 & 0x0004u16 == 0 && 0x0901u16 & 0x0008u16 == 0
        && (0x0901u16 & 0x0070u16) >> 4u16 == 0 && (0x0901u16 & 0x0380u16) >> 7u16 == 2
        && (0x0901u16 & 0x0c00u16) >> 10u16 == 2 && (0x0901u16 & 0x1000u16) >> 12u16 == 0) by (bit_vector);
}

/// On the MLX90640 every pixel is fresh in exactly one of the two subpages. In
/// the chess pattern horizontally neighbouring pixels belong to different
/// subpages; in the interleaved pattern they belong to the same one, and
/// vertically neighbouring pixels belong to different subpages in both
/// patterns. On the MLX90641 every pixel is fresh in both subpages.
pub proof fn law_subpages_split_pixels(model: CameraModel, pattern: AccessPattern, index: int)
    requires
        0 <= index,
    ensures
        model == CameraModel::Mlx90640 ==> (model.spec_pixel_in_subpage(pattern, Subpage::Zero, index)
            != model.spec_pixel_in_subpage(pattern, Subpage::One, index)),
        model == CameraModel::Mlx90641 ==> (model.spec_pixel_in_subpage(pattern, Subpage::Zero, index)
            && model.spec_pixel_in_subpage(pattern, Subpage::One, index)),
        (index + 1) % (model.spec_width() as int) != 0 ==> (
            (pattern == AccessPattern::Chess) <==> (model.spec_pixel_subpage(pattern, index)
                != model.spec_pixel_subpage(pattern, index + 1))),
        model.spec_pixel_subpage(pattern, index)
            != model.spec_pixel_subpage(pattern, index + model.spec_width() as int),
{
    let w = model.spec_width() as int;
    assert(w == 32 || w == 16);
    assert((index + 1) % w != 0 ==> ((index + 1) / w == index / w && (index + 1) % w == index % w + 1));
    assert((index + w) / w == index / w + 1 && (index + w) % w == index % w);
}

/// The factor by which a reading taken at ADC resolution `current` is scaled to
/// match calibration data taken at resolution `calibrated`:
/// 2^calibrated / 2^current, given as its numerator and denominator.
pub fn resolution_correction(calibrated: Resolution, current: Resolution) -> (ratio: (u32, u32))
    ensures
        ratio.0 as nat == pow2(calibrated.code() as nat),
        ratio.1 as nat == pow2(current.code() as nat),
{
    proof {
        lemma2_to64();
    }
    let c = calibrated.to_code();
    let r = current.to_code();
    let num: u32 = if c == 0 { 1 } else if c == 1 { 2 } else if c == 2 { 4 } else { 8 };
    let den: u32 = if r == 0 { 1 } else if r == 1 { 2 } else if r == 2 { 4 } else { 8 };
    (num, den)
}

/// No correction is applied exactly when the ADC runs at the calibrated
/// resolution; a coarser ADC setting scales readings up, a finer one down.
pub proof fn lemma_resolution_correction(calibrated: Resolution, current: Resolution)
    ensures
        (pow2(calibrated.code() as nat) == pow2(current.code() as nat)) <==> (calibrated == current),
        (pow2(calibrated.code() as nat) > pow2(current.code() as nat)) <==> (calibrated.code() > current.code()),
{
    lemma2_to64();
}

} // verus!
