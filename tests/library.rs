use raytrace_core::config::{ConfigError, RenderSettings};
use raytrace_core::framebuffer::image_bytes;
use raytrace_core::integrator::{depth_exhausted, path_step, PathStep, SurfaceEvent};
use raytrace_core::scatter::{
    dielectric_bend, diffuse_direction, ratio_choice, Bend, DiffuseDirection, RatioChoice,
};
use raytrace_core::surface::{choose_root, closest_hit, facing, Facing, Root};

#[test]
fn settings_accept_reference_configuration() {
    let s = RenderSettings::new(400, 225, 50, 40).unwrap();
    assert_eq!(s.image_width, 400);
    assert_eq!(s.image_height, 225);
    assert_eq!(s.pixel_count(), 90_000);
    assert_eq!(s.total_samples(), 4_500_000);
}

#[test]
fn settings_reject_zero_width() {
    assert_eq!(RenderSettings::new(0, 0, 0, 5), Err(ConfigError::ZeroWidth));
}

#[test]
fn settings_reject_zero_height() {
    assert_eq!(RenderSettings::new(3, 0, 0, 5), Err(ConfigError::ZeroHeight));
}

#[test]
fn settings_reject_zero_samples() {
    assert_eq!(RenderSettings::new(3, 2, 0, 5), Err(ConfigError::ZeroSamples));
}

#[test]
fn settings_reject_oversized_images() {
    assert_eq!(
        RenderSettings::new(u32::MAX as usize + 1, 1, 1, 5),
        Err(ConfigError::TooLarge)
    );
    assert_eq!(
        RenderSettings::new(1 << 20, 1 << 20, usize::MAX, 5),
        Err(ConfigError::TooLarge)
    );
}

#[test]
fn settings_allow_zero_depth() {
    let s = RenderSettings::new(1, 1, 1, 0).unwrap();
    assert_eq!(s.max_depth, 0);
    assert_eq!(s.total_samples(), 1);
}

#[test]
fn scan_is_row_major() {
    let s = RenderSettings::new(4, 3, 2, 1).unwrap();
    assert_eq!(s.pixel_at(0), (0, 0));
    assert_eq!(s.pixel_at(3), (3, 0));
    assert_eq!(s.pixel_at(4), (0, 1));
    assert_eq!(s.pixel_at(11), (3, 2));
    assert_eq!(s.pixel_index(2, 1), 6);
}

#[test]
fn scan_visits_every_pixel_once() {
    let s = RenderSettings::new(5, 3, 1, 1).unwrap();
    let mut seen = vec![false; 15];
    for i in 0..s.pixel_count() {
        let (x, y) = s.pixel_at(i);
        let k = s.pixel_index(x, y);
        assert_eq!(k, i);
        assert!(!seen[k]);
        seen[k] = true;
    }
    assert!(seen.iter().all(|b| *b));
}

#[test]
fn progress_counts_each_sample() {
    let s = RenderSettings::new(4, 3, 5, 1).unwrap();
    assert_eq!(s.progress_after(0, 0), 1);
    assert_eq!(s.progress_after(0, 4), 5);
    assert_eq!(s.progress_after(1, 0), 6);
    assert_eq!(s.progress_after(11, 4), s.total_samples());
}

#[test]
fn image_bytes_follow_scan_order() {
    let s = RenderSettings::new(2, 2, 1, 1).unwrap();
    let colors = vec![(1, 2, 3), (4, 5, 6), (7, 8, 9), (10, 11, 12)];
    let bytes = image_bytes(&s, &colors);
    assert_eq!(bytes, vec![1, 2, 3, 4, 5, 6, 7, 8, 9, 10, 11, 12]);
}

#[test]
fn image_bytes_of_single_pixel() {
    let s = RenderSettings::new(1, 1, 1, 1).unwrap();
    let bytes = image_bytes(&s, &vec![(255, 0, 128)]);
    assert_eq!(bytes, vec![255, 0, 128]);
}

#[test]
fn zero_depth_limit_gives_black() {
    assert!(depth_exhausted(0, 0));
    for event in [
        SurfaceEvent::Missed,
        SurfaceEvent::Absorbed,
        SurfaceEvent::Scattered,
    ] {
        assert_eq!(path_step(0, 0, event), PathStep::Black);
    }
}

#[test]
fn path_steps_below_limit() {
    assert!(!depth_exhausted(2, 40));
    assert_eq!(path_step(2, 40, SurfaceEvent::Missed), PathStep::Sky);
    assert_eq!(path_step(2, 40, SurfaceEvent::Absorbed), PathStep::Black);
    assert_eq!(path_step(2, 40, SurfaceEvent::Scattered), PathStep::Bounce(3));
    assert_eq!(path_step(39, 40, SurfaceEvent::Scattered), PathStep::Bounce(40));
    assert_eq!(path_step(40, 40, SurfaceEvent::Missed), PathStep::Black);
}

#[test]
fn path_of_scattering_events_ends_at_limit() {
    let max_depth = 5;
    let mut depth = 0;
    let mut bounces = 0;
    loop {
        if depth_exhausted(depth, max_depth) {
            break;
        }
        match path_step(depth, max_depth, SurfaceEvent::Scattered) {
            PathStep::Bounce(d) => {
                bounces += 1;
                depth = d;
            }
            _ => unreachable!(),
        }
    }
    assert_eq!(bounces, max_depth);
}

#[test]
fn closest_hit_takes_smallest_parameter() {
    let keys = vec![
        Some(2.5f64.to_bits()),
        None,
        Some(0.5f64.to_bits()),
        Some(1.0f64.to_bits()),
    ];
    assert_eq!(closest_hit(&keys), Some(2));
}

#[test]
fn closest_hit_breaks_ties_by_scene_order() {
    let keys = vec![None, Some(7), Some(3), Some(3)];
    assert_eq!(closest_hit(&keys), Some(2));
}

#[test]
fn closest_hit_of_no_hits() {
    assert_eq!(closest_hit(&vec![None, None]), None);
    assert_eq!(closest_hit(&vec![]), None);
}

#[test]
fn root_prefers_near() {
    assert_eq!(choose_root(true, true), Some(Root::Near));
    assert_eq!(choose_root(true, false), Some(Root::Near));
    assert_eq!(choose_root(false, true), Some(Root::Far));
    assert_eq!(choose_root(false, false), None);
}

#[test]
fn facing_flips_from_inside() {
    assert_eq!(facing(false), Facing::Front);
    assert_eq!(facing(true), Facing::Back);
}

#[test]
fn diffuse_falls_back_to_normal() {
    assert_eq!(diffuse_direction(true), DiffuseDirection::Normal);
    assert_eq!(diffuse_direction(false), DiffuseDirection::Jittered);
}

#[test]
fn dielectric_ratio_by_side() {
    assert_eq!(ratio_choice(Facing::Front), RatioChoice::Entering);
    assert_eq!(ratio_choice(Facing::Back), RatioChoice::Leaving);
}

#[test]
fn total_internal_reflection_always_reflects() {
    assert_eq!(dielectric_bend(true, false), Bend::Reflect);
    assert_eq!(dielectric_bend(true, true), Bend::Reflect);
    assert_eq!(dielectric_bend(false, true), Bend::Reflect);
    assert_eq!(dielectric_bend(false, false), Bend::Refract);
}
