//! Choosing the contour that is most like an open palm.
//!
//! What is measured of a contour comes from outside: its area, the length of
//! its outline and the upright box around it. Areas are in thousandths of a
//! square pixel, lengths in thousandths of a pixel, the sides of the box in
//! whole pixels; shares and scores are in thousandths.

use vstd::prelude::*;
use vstd::arithmetic::div_mod::lemma_fundamental_div_mod;
use vstd::arithmetic::div_mod::lemma_mod_bound;

verus! {

/// Four times pi, in millionths.
pub const FOUR_PI: i64 = 12_566_371;

/// The thresholds of the search.
#[derive(Clone, Copy, Debug, PartialEq, Eq, Structural)]
pub struct DetectionConfig {
    /// Smallest and largest area, in thousandths of a square pixel.
    pub min_contour_area: i64,
    pub max_contour_area: i64,
    /// Smallest circularity, solidity and normalised aspect, in thousandths.
    pub min_circularity: i64,
    pub min_solidity: i64,
    pub min_aspect_ratio: i64,
}

/// The shape of a contour in numbers.
#[derive(Clone, Copy, Debug, PartialEq, Eq, Structural)]
pub struct ShapeMetrics {
    /// Area, in thousandths of a square pixel.
    pub area: i64,
    /// How round the contour is: `1000` for a circle, less for anything else.
    pub circularity: i64,
    /// The share of the box that the contour fills.
    pub solidity: i64,
    /// The shorter side of the box over the longer.
    pub normalized_aspect: i64,
}

/// Circularity: four pi times the area over the square of the outline's
/// length, rounded down and held to what sixty-three bits can say; zero for
/// an outline without length.
pub open spec fn circularity_of(area: int, outline: int) -> int {
    if outline > 0 && area >= 0 {
        let ratio = (12_566_371 * area) / (outline * outline);
        if ratio > i64::MAX {
            i64::MAX as int
        } else {
            ratio
        }
    } else {
        0
    }
}

/// Solidity: the area over the area of the box, rounded down; zero for a
/// box without area.
pub open spec fn solidity_of(area: int, width: int, height: int) -> int {
    if width > 0 && height > 0 && area >= 0 {
        area / (width * height)
    } else {
        0
    }
}

/// Normalised aspect: the shorter side of the box over the longer, rounded
/// down; zero for a box without area.
pub open spec fn aspect_of(width: int, height: int) -> int {
    if width > 0 && height > 0 {
        if width <= height {
            (1000 * width) / height
        } else {
            (1000 * height) / width
        }
    } else {
        0
    }
}

/// The score of a shape, in millionths: four tenths of its circularity and
/// three tenths each of its solidity and its normalised aspect.
pub open spec fn palm_score(metrics: ShapeMetrics) -> int {
    400 * metrics.circularity + 300 * metrics.solidity + 300 * metrics.normalized_aspect
}

/// Whether a shape is within the thresholds.
pub open spec fn qualifies(metrics: ShapeMetrics, config: DetectionConfig) -> bool {
    &&& config.min_contour_area <= metrics.area <= config.max_contour_area
    &&& metrics.circularity >= config.min_circularity
    &&& metrics.solidity >= config.min_solidity
    &&& metrics.normalized_aspect >= config.min_aspect_ratio
}

/// Whether a shape can be chosen at all: it is within the thresholds and
/// scores above zero.
pub open spec fn eligible(metrics: ShapeMetrics, config: DetectionConfig) -> bool {
    qualifies(metrics, config) && palm_score(metrics) > 0
}

/// Whether `best` is the place of the shape to choose among the first
/// `count` shapes: it is eligible, none of them that is eligible scores
/// higher, and none before it scores as high.
pub open spec fn is_best_among(
    shapes: Seq<ShapeMetrics>,
    config: DetectionConfig,
    count: int,
    best: int,
) -> bool {
    &&& 0 <= best < count <= shapes.len()
    &&& eligible(shapes[best], config)
    &&& forall|j: int|
        0 <= j < count && eligible(#[trigger] shapes[j], config) ==> palm_score(shapes[j])
            <= palm_score(shapes[best])
    &&& forall|j: int|
        0 <= j < best && eligible(#[trigger] shapes[j], config) ==> palm_score(shapes[j])
            < palm_score(shapes[best])
}

/// Whether `best` is the place of the shape to choose among all the shapes.
pub open spec fn is_best_palm(shapes: Seq<ShapeMetrics>, config: DetectionConfig, best: int) -> bool {
    is_best_among(shapes, config, shapes.len() as int, best)
}

/// Measures the shape of a contour from its area, the length of its outline
/// and the sides of the box around it.
pub fn calculate_shape_metrics(area: i64, outline: i64, width: i32, height: i32) -> (metrics:
    ShapeMetrics)
    ensures
        metrics.area == area,
        metrics.circularity as int == circularity_of(area as int, outline as int),
        metrics.solidity as int == solidity_of(area as int, width as int, height as int),
        metrics.normalized_aspect as int == aspect_of(width as int, height as int),
{
    let circularity: i64 = if outline > 0 && area >= 0 {
        assert(0 <= (12_566_371 * area) <= 12_566_371 * 0x7FFF_FFFF_FFFF_FFFF);
        assert(0 < (outline as int) * (outline as int) <= 0x7FFF_FFFF_FFFF_FFFF
            * 0x7FFF_FFFF_FFFF_FFFF) by (nonlinear_arith)
            requires
                0 < outline as int <= 0x7FFF_FFFF_FFFF_FFFF,
        ;
        let above: u128 = (FOUR_PI as u128) * (area as u128);
        let below: u128 = (outline as u128) * (outline as u128);
        let ratio: u128 = above / below;
        if ratio > i64::MAX as u128 {
            i64::MAX
        } else {
            ratio as i64
        }
    } else {
        0
    };
    let (solidity, normalized_aspect): (i64, i64) = if width > 0 && height > 0 {
        assert(0 < (width as int) * (height as int) <= 0x7FFF_FFFF * 0x7FFF_FFFF)
            by (nonlinear_arith)
            requires
                0 < width as int <= 0x7FFF_FFFF,
                0 < height as int <= 0x7FFF_FFFF,
        ;
        let box_area: i64 = (width as i64) * (height as i64);
        let filled: i64 = if area >= 0 {
            proof {
                lemma_fundamental_div_mod(area as int, box_area as int);
                lemma_mod_bound(area as int, box_area as int);
                assert(0 <= (area as int) / (box_area as int) <= area) by (nonlinear_arith)
                    requires
                        area as int == (box_area as int) * ((area as int) / (box_area as int)) + (
                        area as int) % (box_area as int),
                        0 <= (area as int) % (box_area as int) < box_area as int,
                        box_area >= 1,
                        area >= 0,
                ;
            }
            area / box_area
        } else {
            0
        };
        let aspect: i64 = if width <= height {
            (1000 * (width as i64)) / (height as i64)
        } else {
            (1000 * (height as i64)) / (width as i64)
        };
        (filled, aspect)
    } else {
        (0, 0)
    };
    ShapeMetrics { area, circularity, solidity, normalized_aspect }
}

/// The score of a shape, in millionths.
pub fn calculate_palm_score(metrics: &ShapeMetrics) -> (score: i128)
    ensures
        score as int == palm_score(*metrics),
{
    400 * (metrics.circularity as i128) + 300 * (metrics.solidity as i128) + 300 * (
    metrics.normalized_aspect as i128)
}

/// Whether a shape is within the thresholds.
pub fn shape_qualifies(metrics: &ShapeMetrics, config: &DetectionConfig) -> (ok: bool)
    ensures
        ok == qualifies(*metrics, *config),
{
    config.min_contour_area <= metrics.area && metrics.area <= config.max_contour_area
        && metrics.circularity >= config.min_circularity && metrics.solidity
        >= config.min_solidity && metrics.normalized_aspect >= config.min_aspect_ratio
}

/// The place of the shape that is most like a palm: the first of those with
/// the highest score among the shapes that are within the thresholds and
/// score above zero. `None` where no shape is eligible.
pub fn detect_best_palm(shapes: &Vec<ShapeMetrics>, config: &DetectionConfig) -> (best: Option<
    usize,
>)
    ensures
        best is None <==> forall|j: int|
            0 <= j < shapes@.len() ==> !eligible(#[trigger] shapes@[j], *config),
        best is Some ==> is_best_palm(shapes@, *config, best->0 as int),
{
    let mut best: Option<usize> = None;
    let mut best_score: i128 = 0;
    let mut i: usize = 0;
    while i < shapes.len()
        invariant
            i <= shapes.len(),
            best is None ==> best_score == 0,
            best is None <==> forall|j: int|
                0 <= j < i ==> !eligible(#[trigger] shapes@[j], *config),
            best is Some ==> best_score as int == palm_score(shapes@[best->0 as int])
                && is_best_among(shapes@, *config, i as int, best->0 as int),
        decreases shapes.len() - i,
    {
        let score = calculate_palm_score(&shapes[i]);
        if shape_qualifies(&shapes[i], config) && score > best_score {
            best = Some(i);
            best_score = score;
        }
        i += 1;
    }
    best
}

} // verus!
