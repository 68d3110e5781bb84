//! The picture of a pyramid, seen from above, as lines of runs of cells.
//!
//! A pyramid of height `h` is drawn on lines of `2 * h` cells. A straight
//! pyramid shows a solid flank on both sides of a shaded middle; the flank
//! widens towards the middle line and narrows again. An angled pyramid shows
//! a solid and a shaded flank side by side between two margins. Smaller
//! pyramids are pushed down by lines that hold one blank cell.

use vstd::prelude::*;
use crate::symbol::{PyramidType, SymbolSize};

verus! {

/// What a cell of a picture is filled with.
#[derive(Clone, Copy, Debug, PartialEq, Eq, Structural)]
pub enum Fill {
    Blank,
    Solid,
    Shade,
}

/// A run of `count` cells with the same fill.
#[derive(Clone, Copy, Debug, PartialEq, Eq, Structural)]
pub struct Run {
    pub fill: Fill,
    pub count: usize,
}

/// The height of a pyramid of the given size.
pub open spec fn height_of(size: SymbolSize) -> int {
    match size {
        SymbolSize::Small => 4,
        SymbolSize::Medium => 6,
        SymbolSize::Large => 8,
    }
}

/// The number of lines that push a pyramid of the given size down.
pub open spec fn padding_of(size: SymbolSize) -> int {
    match size {
        SymbolSize::Small => 2,
        SymbolSize::Medium => 1,
        SymbolSize::Large => 0,
    }
}

/// The number of cells in a line of runs.
pub open spec fn width_of(line: Seq<Run>) -> int
    decreases line.len(),
{
    if line.len() == 0 {
        0
    } else {
        width_of(line.drop_last()) + line.last().count
    }
}

/// The width of the flank on line `k` of a pyramid of height `h`: 1 on the
/// first line, two more on each line down to the middle, two less on each
/// line after it.
pub open spec fn flank(h: int, k: int) -> int {
    if k < h / 2 {
        1 + 2 * k
    } else {
        2 * h - 3 - 2 * k
    }
}

/// A line that holds one blank cell.
pub open spec fn padding_line() -> Seq<Run> {
    seq![Run { fill: Fill::Blank, count: 1 }]
}

/// Line `k` of a straight pyramid of height `h`.
pub open spec fn straight_line(h: int, k: int) -> Seq<Run> {
    let solid = flank(h, k);
    seq![
        Run { fill: Fill::Solid, count: solid as usize },
        Run { fill: Fill::Shade, count: (2 * (h - solid)) as usize },
        Run { fill: Fill::Solid, count: solid as usize },
    ]
}

/// Line `k` of an angled pyramid of height `h`. Above the middle the solid
/// flank stands on the left, below it on the right.
pub open spec fn angled_line(h: int, k: int) -> Seq<Run> {
    if k < h / 2 {
        let side = 1 + 2 * k;
        let margin = h - side;
        seq![
            Run { fill: Fill::Blank, count: margin as usize },
            Run { fill: Fill::Solid, count: side as usize },
            Run { fill: Fill::Shade, count: side as usize },
            Run { fill: Fill::Blank, count: margin as usize },
        ]
    } else {
        let margin = 1 + 2 * (k - h / 2);
        let side = h - margin;
        seq![
            Run { fill: Fill::Blank, count: margin as usize },
            Run { fill: Fill::Shade, count: side as usize },
            Run { fill: Fill::Solid, count: side as usize },
            Run { fill: Fill::Blank, count: margin as usize },
        ]
    }
}

/// The number of lines of the picture of a pyramid, padding included.
pub open spec fn line_count(shape: PyramidType, size: SymbolSize) -> int {
    match shape {
        PyramidType::Straight => padding_of(size) + height_of(size) - 1,
        PyramidType::Angled => padding_of(size) + height_of(size),
    }
}

/// Line `k` of the picture of a pyramid, padding included.
pub open spec fn line_of(shape: PyramidType, size: SymbolSize, k: int) -> Seq<Run> {
    if k < padding_of(size) {
        padding_line()
    } else {
        match shape {
            PyramidType::Straight => straight_line(height_of(size), k - padding_of(size)),
            PyramidType::Angled => angled_line(height_of(size), k - padding_of(size)),
        }
    }
}

/// The height of a pyramid of the given size.
pub fn pyramid_height(size: SymbolSize) -> (r: usize)
    ensures
        r == height_of(size),
{
    match size {
        SymbolSize::Small => 4,
        SymbolSize::Medium => 6,
        SymbolSize::Large => 8,
    }
}

/// The number of lines that push a pyramid of the given size down.
pub fn padding_lines(size: SymbolSize) -> (r: usize)
    ensures
        r == padding_of(size),
{
    match size {
        SymbolSize::Small => 2,
        SymbolSize::Medium => 1,
        SymbolSize::Large => 0,
    }
}

/// The picture of a pyramid of the given shape and size, line by line from
/// the top.
pub fn pyramid_lines(shape: PyramidType, size: SymbolSize) -> (r: Vec<Vec<Run>>)
    ensures
        r@.len() == line_count(shape, size),
        forall|k: int| 0 <= k < r@.len() ==> (#[trigger] r@[k])@ == line_of(shape, size, k),
{
    let height = pyramid_height(size);
    let padding = padding_lines(size);
    let half = height / 2;
    let mut lines: Vec<Vec<Run>> = Vec::new();
    let mut i: usize = 0;
    while i < padding
        invariant
            i <= padding,
            padding == padding_of(size),
            lines@.len() == i,
            forall|k: int| 0 <= k < lines@.len() ==> (#[trigger] lines@[k])@ == line_of(
                shape,
                size,
                k,
            ),
        decreases padding - i,
    {
        let line = vec![Run { fill: Fill::Blank, count: 1 }];
        assert(line@ =~= padding_line());
        lines.push(line);
        i = i + 1;
    }
    match shape {
        PyramidType::Straight => {
            let mut k: usize = 0;
            while k < half
                invariant
                    k <= half,
                    half == height / 2,
                    height == height_of(size),
                    padding == padding_of(size),
                    shape == PyramidType::Straight,
                    lines@.len() == padding + k,
                    forall|j: int| 0 <= j < lines@.len() ==> (#[trigger] lines@[j])@ == line_of(
                        shape,
                        size,
                        j,
                    ),
                decreases half - k,
            {
                let solid = 1 + 2 * k;
                let shade = height - solid;
                let line = vec![
                    Run { fill: Fill::Solid, count: solid },
                    Run { fill: Fill::Shade, count: 2 * shade },
                    Run { fill: Fill::Solid, count: solid },
                ];
                assert(line@ =~= straight_line(height as int, k as int));
                lines.push(line);
                k = k + 1;
            }
            let mut k: usize = 1;
            while k < half
                invariant
                    1 <= k <= half,
                    half == height / 2,
                    height == height_of(size),
                    padding == padding_of(size),
                    shape == PyramidType::Straight,
                    lines@.len() == padding + half + k - 1,
                    forall|j: int| 0 <= j < lines@.len() ==> (#[trigger] lines@[j])@ == line_of(
                        shape,
                        size,
                        j,
                    ),
                decreases half - k,
            {
                let solid = height - 1 - 2 * k;
                let shade = height - solid;
                let line = vec![
                    Run { fill: Fill::Solid, count: solid },
                    Run { fill: Fill::Shade, count: 2 * shade },
                    Run { fill: Fill::Solid, count: solid },
                ];
                assert(line@ =~= straight_line(height as int, half + k - 1));
                lines.push(line);
                k = k + 1;
            }
        },
        PyramidType::Angled => {
            let mut k: usize = 0;
            while k < half
                invariant
                    k <= half,
                    half == height / 2,
                    height == height_of(size),
                    padding == padding_of(size),
                    shape == PyramidType::Angled,
                    lines@.len() == padding + k,
                    forall|j: int| 0 <= j < lines@.len() ==> (#[trigger] lines@[j])@ == line_of(
                        shape,
                        size,
                        j,
                    ),
                decreases half - k,
            {
                let side = 1 + 2 * k;
                let margin = height - 1 - 2 * k;
                let line = vec![
                    Run { fill: Fill::Blank, count: margin },
                    Run { fill: Fill::Solid, count: side },
                    Run { fill: Fill::Shade, count: side },
                    Run { fill: Fill::Blank, count: margin },
                ];
                assert(line@ =~= angled_line(height as int, k as int));
                lines.push(line);
                k = k + 1;
            }
            let mut k: usize = 0;
            while k < half
                invariant
                    k <= half,
                    half == height / 2,
                    height == height_of(size),
                    padding == padding_of(size),
                    shape == PyramidType::Angled,
                    lines@.len() == padding + half + k,
                    forall|j: int| 0 <= j < lines@.len() ==> (#[trigger] lines@[j])@ == line_of(
                        shape,
                        size,
                        j,
                    ),
                decreases half - k,
            {
                let side = height - 1 - 2 * k;
                let margin = 1 + 2 * k;
                let line = vec![
                    Run { fill: Fill::Blank, count: margin },
                    Run { fill: Fill::Shade, count: side },
                    Run { fill: Fill::Solid, count: side },
                    Run { fill: Fill::Blank, count: margin },
                ];
                assert(line@ =~= angled_line(height as int, half + k));
                lines.push(line);
                k = k + 1;
            }
        },
    }
    lines
}

/// Every line of a pyramid, below the padding, is twice as wide as the
/// pyramid is high, and its flanks are at least one cell wide.
pub proof fn lemma_line_width(shape: PyramidType, size: SymbolSize, k: int)
    requires
        padding_of(size) <= k < line_count(shape, size),
    ensures
        width_of(line_of(shape, size, k)) == 2 * height_of(size),
        forall|i: int|
            0 <= i < line_of(shape, size, k).len() ==> 1 <= (#[trigger] line_of(
                shape,
                size,
                k,
            )[i]).count < 2 * height_of(size),
{
    let line = line_of(shape, size, k);
    reveal_with_fuel(width_of, 5);
    assert(line.drop_last().len() == line.len() - 1);
    match shape {
        PyramidType::Straight => {
            assert(line.drop_last().drop_last().drop_last() =~= Seq::<Run>::empty());
        },
        PyramidType::Angled => {
            assert(line.drop_last().drop_last().drop_last().drop_last() =~= Seq::<Run>::empty());
        },
    }
}

} // verus!
