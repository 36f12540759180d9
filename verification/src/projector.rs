//! The waveform projector: maps a window of samples to the polyline that is
//! drawn for it.

use crate::geometry::{CanvasDimensions, Dyadic, PixelPoint, Ratio};
use crate::sample::Sample;
use vstd::arithmetic::power2::{lemma2_to64, lemma_pow2_adds, pow2};
use vstd::prelude::*;

verus! {

/// Base-two logarithm of the amplitude that counts as full scale (128).
pub const FULL_SCALE_BITS: i32 = 7;

/// Horizontal position of sample `index` in a window of `len` samples: the
/// samples are spread `width / len` pixels apart, the first at the left edge.
pub open spec fn abscissa_spec(index: int, len: int, width: u32) -> Ratio {
    Ratio { numerator: (index * width) as u64, denominator: len as u32 }
}

/// Vertical offset of a sample: the amplitude over full scale, times half the
/// height of the canvas. No centre line is added to it.
pub open spec fn ordinate_spec(sample: Sample, height: u32) -> Dyadic {
    Dyadic {
        mantissa: (sample.mantissa * height) as i64,
        exponent: (sample.exponent - FULL_SCALE_BITS - 1) as i32,
    }
}

/// The point that closes the trace: the right edge, at half the height.
pub open spec fn terminal_spec(dims: CanvasDimensions) -> PixelPoint {
    PixelPoint {
        x: Ratio { numerator: dims.width as u64, denominator: 1 },
        y: Dyadic { mantissa: dims.height as i64, exponent: -1i32 },
    }
}

/// Point `index` of the trace of `buffer`.
pub open spec fn point_spec(buffer: Seq<Sample>, dims: CanvasDimensions, index: int) -> PixelPoint {
    if index < buffer.len() {
        PixelPoint {
            x: abscissa_spec(index, buffer.len() as int, dims.width),
            y: ordinate_spec(buffer[index], dims.height),
        }
    } else {
        terminal_spec(dims)
    }
}

/// The trace of `buffer`: one point for each sample, in the order of the
/// samples, and the closing point after them.
pub open spec fn project_spec(buffer: Seq<Sample>, dims: CanvasDimensions) -> Seq<PixelPoint> {
    Seq::new(buffer.len() + 1, |index: int| point_spec(buffer, dims, index))
}

/// The numerator of an abscissa within the window fits its field.
proof fn lemma_numerator_fits(index: int, len: int, width: int)
    requires
        0 <= index < len <= u32::MAX,
        0 <= width <= u32::MAX,
    ensures
        0 <= index * width <= u64::MAX,
{
    assert(0 <= index * width <= 0xffff_ffff * 0xffff_ffff) by (nonlinear_arith)
        requires
            0 <= index <= 0xffff_ffff,
            0 <= width <= 0xffff_ffff,
    ;
}

/// The abscissas of a trace start at the left edge and lie a step apart,
/// the step being the width of the canvas over the length of the window.
pub proof fn lemma_abscissas_step(buffer: Seq<Sample>, dims: CanvasDimensions)
    requires
        0 < buffer.len() <= u32::MAX,
    ensures
        project_spec(buffer, dims)[0].x.is_integer(0),
        forall|i: int|
            0 <= i < buffer.len() ==> {
                &&& (#[trigger] project_spec(buffer, dims)[i]).x.denominator == buffer.len()
                &&& project_spec(buffer, dims)[i].x.numerator == i * dims.width
            },
        forall|i: int|
            0 < i < buffer.len() ==> (#[trigger] project_spec(buffer, dims)[i]).x.numerator
                == project_spec(buffer, dims)[i - 1].x.numerator + dims.width,
{
    let len = buffer.len() as int;
    let width = dims.width as int;
    assert forall|i: int| 0 <= i < len implies (#[trigger] project_spec(
        buffer,
        dims,
    )[i]).x.numerator == i * width by {
        lemma_numerator_fits(i, len, width);
    }
    assert forall|i: int| 0 < i < len implies (#[trigger] project_spec(
        buffer,
        dims,
    )[i]).x.numerator == project_spec(buffer, dims)[i - 1].x.numerator + width by {
        assert(i * width == (i - 1) * width + width) by (nonlinear_arith);
    }
}

/// No abscissa of a trace is right of a later one, and the last is the
/// width of the canvas.
pub proof fn lemma_abscissas_ascend(buffer: Seq<Sample>, dims: CanvasDimensions)
    requires
        0 < buffer.len() <= u32::MAX,
    ensures
        forall|i: int|
            0 <= i <= buffer.len() ==> (#[trigger] project_spec(buffer, dims)[i]).x.wf(),
        forall|i: int, j: int|
            0 <= i <= j <= buffer.len() ==> (#[trigger] project_spec(buffer, dims)[i]).x.le(
                (#[trigger] project_spec(buffer, dims)[j]).x,
            ),
        project_spec(buffer, dims).last().x.is_integer(dims.width as int),
{
    let len = buffer.len() as int;
    let width = dims.width as int;
    lemma_abscissas_step(buffer, dims);
    assert(project_spec(buffer, dims).last() == terminal_spec(dims));
    assert forall|i: int, j: int| 0 <= i <= j <= len implies (#[trigger] project_spec(
        buffer,
        dims,
    )[i]).x.le((#[trigger] project_spec(buffer, dims)[j]).x) by {
        if j < len {
            assert((i * width) * len <= (j * width) * len) by (nonlinear_arith)
                requires
                    0 <= i <= j,
                    0 <= width,
                    0 < len,
            ;
        } else if i < len {
            assert((i * width) * 1 <= width * len) by (nonlinear_arith)
                requires
                    0 <= i < len,
                    0 <= width,
            ;
        }
    }
}

/// The ordinate of a sample is its amplitude times the height of the canvas,
/// over twice the full scale: at every precision that makes both whole,
/// `256 * ordinate == height * amplitude`.
pub proof fn lemma_ordinate_scales_amplitude(sample: Sample, height: u32, precision: int)
    requires
        sample.exponent - FULL_SCALE_BITS - 1 + precision >= 0,
    ensures
        256 * ordinate_spec(sample, height).scaled(precision) == height * sample.scaled(precision),
{
    let low = (sample.exponent - FULL_SCALE_BITS - 1 + precision) as nat;
    let unit = pow2(low) as int;
    let mantissa = sample.mantissa as int;
    let tall = height as int;
    assert(pow2(low + 8) == unit * 256) by {
        lemma_pow2_adds(low, 8);
        lemma2_to64();
    }
    assert(-0x8000_0000 * 0x1_0000_0000 <= mantissa * tall < 0x8000_0000 * 0x1_0000_0000)
        by (nonlinear_arith)
        requires
            -0x8000_0000 <= mantissa < 0x8000_0000,
            0 <= tall < 0x1_0000_0000,
    ;
    assert(256 * ((mantissa * tall) * unit) == tall * (mantissa * (unit * 256)))
        by (nonlinear_arith);
}

/// A silent window is drawn along the zero line, whatever the height of the
/// canvas: every ordinate but the last is zero, and twice the last is the
/// height.
pub proof fn lemma_silence_is_flat(buffer: Seq<Sample>, dims: CanvasDimensions)
    requires
        0 < buffer.len() <= u32::MAX,
        forall|i: int| 0 <= i < buffer.len() ==> (#[trigger] buffer[i]).is_zero(),
    ensures
        forall|i: int|
            0 <= i < buffer.len() ==> (#[trigger] project_spec(buffer, dims)[i]).y.is_zero(),
        project_spec(buffer, dims).last().y.scaled(1) == dims.height,
{
    assert forall|i: int| 0 <= i < buffer.len() implies (#[trigger] project_spec(
        buffer,
        dims,
    )[i]).y.is_zero() by {
        assert(buffer[i].is_zero());
    }
    let last = project_spec(buffer, dims).last().y;
    assert(last == terminal_spec(dims).y);
    assert(pow2(0) == 1) by {
        lemma2_to64();
    }
    assert(last.scaled(1) == last.mantissa * pow2(0));
}

/// A window that holds one amplitude throughout is drawn level: every
/// ordinate but the last is that of the amplitude, which is the amplitude
/// over full scale times half the height.
pub proof fn lemma_constant_signal_is_level(
    buffer: Seq<Sample>,
    dims: CanvasDimensions,
    level: Sample,
    precision: int,
)
    requires
        0 < buffer.len() <= u32::MAX,
        forall|i: int| 0 <= i < buffer.len() ==> #[trigger] buffer[i] == level,
        level.exponent - FULL_SCALE_BITS - 1 + precision >= 0,
    ensures
        forall|i: int|
            0 <= i < buffer.len() ==> {
                &&& (#[trigger] project_spec(buffer, dims)[i]).y == ordinate_spec(
                    level,
                    dims.height,
                )
                &&& 256 * project_spec(buffer, dims)[i].y.scaled(precision) == dims.height
                    * level.scaled(precision)
            },
{
    lemma_ordinate_scales_amplitude(level, dims.height, precision);
    assert forall|i: int| 0 <= i < buffer.len() implies {
        &&& (#[trigger] project_spec(buffer, dims)[i]).y == ordinate_spec(level, dims.height)
        &&& 256 * project_spec(buffer, dims)[i].y.scaled(precision) == dims.height * level.scaled(
            precision,
        )
    } by {
        assert(buffer[i] == level);
    }
}

/// Maps an amplitude to its vertical offset on a canvas `height` pixels
/// high.
pub fn ordinate(sample: Sample, height: u32) -> (y: Dyadic)
    ensures
        y == ordinate_spec(sample, height),
        y.mantissa == sample.mantissa * height,
        y.exponent == sample.exponent - FULL_SCALE_BITS - 1,
        sample.is_zero() ==> y.is_zero(),
{
    assert(-0x8000_0000 * 0x1_0000_0000 <= sample.mantissa * height < 0x8000_0000
        * 0x1_0000_0000) by (nonlinear_arith)
        requires
            -0x8000_0000 <= sample.mantissa < 0x8000_0000,
            0 <= height < 0x1_0000_0000,
    ;
    assert(sample.is_zero() ==> sample.mantissa * height == 0) by (nonlinear_arith);
    Dyadic {
        mantissa: (sample.mantissa as i64) * (height as i64),
        exponent: (sample.exponent as i32) - FULL_SCALE_BITS - 1,
    }
}

/// The point that closes a trace on a canvas of size `dims`.
pub fn terminal(dims: CanvasDimensions) -> (point: PixelPoint)
    ensures
        point == terminal_spec(dims),
        point.x.is_integer(dims.width as int),
{
    PixelPoint {
        x: Ratio { numerator: dims.width as u64, denominator: 1 },
        y: Dyadic { mantissa: dims.height as i64, exponent: -1 },
    }
}

/// Projects a window of samples onto a canvas of the given size.
///
/// The window must hold a sample; its length is the denominator of every
/// abscissa but the last. A canvas without width or height is projected
/// onto like any other: the trace collapses onto its left or upper edge.
pub fn project(buffer: &Vec<Sample>, dims: CanvasDimensions) -> (points: Vec<PixelPoint>)
    requires
        0 < buffer.len() <= u32::MAX,
    ensures
        points@ == project_spec(buffer@, dims),
        points.len() == buffer.len() + 1,
        forall|i: int| 0 <= i < points.len() ==> (#[trigger] points[i]).x.wf(),
        forall|i: int, j: int|
            0 <= i <= j < points.len() ==> (#[trigger] points[i]).x.le((#[trigger] points[j]).x),
        points@.last().x.is_integer(dims.width as int),
        points@.last() == terminal_spec(dims),
        forall|i: int|
            0 <= i < buffer.len() && buffer[i].is_zero() ==> (#[trigger] points[i]).y.is_zero(),
        forall|i: int, j: int|
            0 <= i < buffer.len() && 0 <= j < buffer.len() && buffer[i] == buffer[j] ==> (
            #[trigger] points[i]).y == (#[trigger] points[j]).y,
{
    let len: usize = buffer.len();
    let mut points: Vec<PixelPoint> = Vec::new();
    let mut numerator: u64 = 0;
    let mut index: usize = 0;
    while index < len
        invariant
            len == buffer.len(),
            0 < len <= u32::MAX,
            index <= len,
            numerator == index * dims.width,
            points.len() == index,
            forall|k: int| 0 <= k < index ==> #[trigger] points[k] == point_spec(buffer@, dims, k),
        decreases len - index,
    {
        let x = Ratio { numerator, denominator: len as u32 };
        let y = ordinate(buffer[index], dims.height);
        points.push(PixelPoint { x, y });
        assert((index + 1) * dims.width == index * dims.width + dims.width <= 0xffff_ffff
            * 0xffff_ffff) by (nonlinear_arith)
            requires
                0 <= index < 0xffff_ffff,
                0 <= dims.width <= 0xffff_ffff,
        ;
        numerator = numerator + dims.width as u64;
        index = index + 1;
    }
    points.push(terminal(dims));
    proof {
        assert(points@ =~= project_spec(buffer@, dims));
        lemma_abscissas_ascend(buffer@, dims);
    }
    points
}

} // verus!
