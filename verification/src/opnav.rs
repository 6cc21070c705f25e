//! Camera and altimeter availability.

use crate::scalar::{lemma_powers_of_two, lit, Scalar};
use vstd::prelude::*;

verus! {

/// Pixels per axis of the rendered patch.
pub const RENDER_N: usize = 64;

/// Largest range of the altimeter, 5 km.
pub const LIDAR_MAX_RANGE_M: u64 = 0x40B3_8800_0000_0000;

/// Mean photon count below which a pixel stays dark, 1e-9.
pub const MIN_PHOTONS: u64 = 0x3E11_2E0B_E826_D695;

/// Flux below which the disk gives no centroid, 1.
pub const MIN_FLUX: u64 = 0x3FF0_0000_0000_0000;

/// Whether a disk image can be taken.
#[derive(Clone, Copy, Debug, PartialEq, Eq, Structural)]
pub enum DiskImage {
    Available,
    /// The body is outside the field of view.
    OutOfFov,
    /// The Sun is in the exclusion zone.
    SunExcluded,
}

/// Can a disk image be taken? The body must be inside the field of view and
/// the Sun outside the exclusion zone; all angles are given by their cosines.
pub fn measure(body_cos: Scalar, cos_fov: Scalar, sun_cos: Scalar, cos_exclusion: Scalar) -> (r: DiskImage)
    ensures
        r == (if body_cos.below(cos_fov) {
            DiskImage::OutOfFov
        } else if cos_exclusion.below(sun_cos) {
            DiskImage::SunExcluded
        } else {
            DiskImage::Available
        }),
{
    if body_cos.lt(cos_fov) {
        return DiskImage::OutOfFov;
    }
    if sun_cos.gt(cos_exclusion) {
        return DiskImage::SunExcluded;
    }
    DiskImage::Available
}

/// Is the surface within reach of the altimeter?
pub fn lidar_measure(range: Scalar) -> (r: bool)
    ensures
        r == !lit(LIDAR_MAX_RANGE_M).below(range),
{
    !range.gt(Scalar::from_bits(LIDAR_MAX_RANGE_M))
}

/// Does a pixel lie on the disk? Both sides are squared angles.
pub fn pixel_on_disk(angle_sq: Scalar, radius_sq: Scalar) -> (r: bool)
    ensures
        r == !radius_sq.at_most(angle_sq),
{
    !angle_sq.ge(radius_sq)
}

/// Does a pixel with this mean count receive photons?
pub fn pixel_is_lit(mean: Scalar) -> (r: bool)
    ensures
        r == !mean.below(lit(MIN_PHOTONS)),
{
    !mean.lt(Scalar::from_bits(MIN_PHOTONS))
}

/// Does the image give a centroid?
pub fn centroid_exists(total_flux: Scalar) -> (r: bool)
    ensures
        r == !total_flux.below(lit(MIN_FLUX)),
{
    !total_flux.lt(Scalar::from_bits(MIN_FLUX))
}

/// A disk image needs the body in view and the Sun out of the way. A body that is out
/// of view is the reason given, wherever the Sun is.
pub proof fn image_needs_body_and_no_sun(
    body_cos: Scalar,
    cos_fov: Scalar,
    sun_cos: Scalar,
    cos_exclusion: Scalar,
    r: DiskImage,
)
    requires
        call_ensures(measure, (body_cos, cos_fov, sun_cos, cos_exclusion), r),
    ensures
        r == DiskImage::OutOfFov <==> body_cos.below(cos_fov),
        r == DiskImage::Available <==> !body_cos.below(cos_fov) && !cos_exclusion.below(sun_cos),
        r == DiskImage::SunExcluded ==> cos_exclusion.below(sun_cos),
{
}

/// The altimeter reaches up to its range and no further.
pub proof fn altimeter_reaches_its_range(range: Scalar, r: bool)
    requires
        call_ensures(lidar_measure, (range,), r),
    ensures
        range.at_most(lit(LIDAR_MAX_RANGE_M)) ==> r,
        lit(LIDAR_MAX_RANGE_M).below(range) ==> !r,
{
}

/// A pixel counts where it lies on the disk and expects photons, and an image where it
/// collected some.
pub proof fn only_lit_pixels_count(
    angle_sq: Scalar,
    radius_sq: Scalar,
    mean: Scalar,
    flux: Scalar,
    on_disk: bool,
    is_lit: bool,
    has_centroid: bool,
)
    requires
        call_ensures(pixel_on_disk, (angle_sq, radius_sq), on_disk),
        call_ensures(pixel_is_lit, (mean,), is_lit),
        call_ensures(centroid_exists, (flux,), has_centroid),
    ensures
        angle_sq.below(radius_sq) ==> on_disk,
        radius_sq.at_most(angle_sq) ==> !on_disk,
        lit(MIN_PHOTONS).at_most(mean) ==> is_lit,
        mean.below(lit(MIN_PHOTONS)) ==> !is_lit,
        lit(MIN_FLUX).at_most(flux) ==> has_centroid,
        flux.below(lit(MIN_FLUX)) ==> !has_centroid,
{
}

/// The numbers that decisions are taken by, in decimal notation.
pub proof fn numbers_are_as_documented()
    ensures
        lit(LIDAR_MAX_RANGE_M).is_about(5_000, 1),
        lit(MIN_PHOTONS).is_about(1, 1_000_000_000),
        lit(MIN_FLUX).is_about(1, 1),
{
    lemma_powers_of_two();
}

} // verus!
