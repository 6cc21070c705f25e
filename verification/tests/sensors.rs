use autonomous_navigation::landmark::{classify, observe, trackable, LandmarkGeometry, LmState, N_LANDMARKS};
use autonomous_navigation::opnav::{
    centroid_exists, lidar_measure, measure, pixel_is_lit, pixel_on_disk, DiskImage, LIDAR_MAX_RANGE_M, MIN_FLUX,
    MIN_PHOTONS, RENDER_N,
};
use autonomous_navigation::pointing::{desired_quaternion, AttitudeFrame, PointingMode};
use autonomous_navigation::scalar::Scalar;

fn s(x: f64) -> Scalar {
    Scalar::from_bits(x.to_bits())
}

fn mark(id: usize, facing: f64, sunward: f64, boresight: f64) -> LandmarkGeometry {
    LandmarkGeometry { id, facing: s(facing), sunward: s(sunward), boresight: s(boresight) }
}

#[test]
fn landmarks_are_classified() {
    let fov = s(0.9);
    assert_eq!(classify(&mark(0, -0.5, 0.5, 0.95), fov), LmState::Trackable);
    assert_eq!(classify(&mark(0, -0.5, 0.5, 0.9), fov), LmState::Trackable);
    assert_eq!(classify(&mark(0, -0.5, 0.5, 0.5), fov), LmState::VisibleOutOfFov);
    assert_eq!(classify(&mark(0, -0.5, 0.0, 0.95), fov), LmState::Dark);
    assert_eq!(classify(&mark(0, 0.0, 0.5, 0.95), fov), LmState::FarSide);
    assert_eq!(N_LANDMARKS, 150);
    let codes: Vec<u8> = [LmState::Trackable, LmState::VisibleOutOfFov, LmState::Dark, LmState::FarSide]
        .iter()
        .map(|m| m.code())
        .collect();
    assert_eq!(codes, vec![3, 2, 1, 0]);
}

#[test]
fn observations_follow_the_catalogue() {
    let cat = vec![mark(7, -1.0, 1.0, 1.0), mark(8, 1.0, 1.0, 1.0), mark(9, -1.0, 1.0, 1.0)];
    let obs = observe(&cat, s(0.9));
    assert_eq!(obs.iter().map(|o| o.id).collect::<Vec<_>>(), vec![7, 8, 9]);
    assert_eq!(obs[1].state, LmState::FarSide);
    assert_eq!(trackable(&obs), vec![0, 2]);
}

#[test]
fn disk_images_need_body_and_no_sun() {
    assert_eq!(measure(s(0.99), s(0.97), s(0.1), s(0.7)), DiskImage::Available);
    assert_eq!(measure(s(0.90), s(0.97), s(0.1), s(0.7)), DiskImage::OutOfFov);
    assert_eq!(measure(s(0.99), s(0.97), s(0.8), s(0.7)), DiskImage::SunExcluded);
    assert_eq!(measure(s(0.97), s(0.97), s(0.7), s(0.7)), DiskImage::Available);
}

#[test]
fn pixels_and_ranges() {
    assert_eq!(f64::from_bits(LIDAR_MAX_RANGE_M), 5_000.0);
    assert_eq!(f64::from_bits(MIN_PHOTONS), 1e-9);
    assert_eq!(f64::from_bits(MIN_FLUX), 1.0);
    assert_eq!(RENDER_N, 64);
    assert!(lidar_measure(s(5_000.0)) && !lidar_measure(s(5_000.5)));
    assert!(pixel_on_disk(s(0.5), s(1.0)) && !pixel_on_disk(s(1.0), s(1.0)));
    assert!(pixel_is_lit(s(1e-9)) && !pixel_is_lit(s(1e-10)));
    assert!(centroid_exists(s(1.0)) && !centroid_exists(s(0.5)));
}

#[test]
fn pointing_modes_have_frames() {
    assert_eq!(desired_quaternion(PointingMode::Nadir), AttitudeFrame::NadirOrbitNormal);
    assert_eq!(desired_quaternion(PointingMode::VelocityAligned), AttitudeFrame::VelocityAligned);
    assert_eq!(PointingMode::default(), PointingMode::Nadir);
}
