use ray_tracer::render::{
    blit_indices, blit_vertices, enabled, flag, preferred_format_index, recovery_action,
    workgroup_counts, workgroups, BlitVertex, RecoveryAction, SurfaceErrorKind,
};

#[test]
fn workgroups_cover_exact_multiples() {
    assert_eq!(workgroup_counts(800, 600), (100, 75));
    assert_eq!(workgroup_counts(8, 8), (1, 1));
}

#[test]
fn workgroups_cover_remainders() {
    assert_eq!(workgroup_counts(801, 601), (101, 76));
    assert_eq!(workgroups(1), 1);
    assert_eq!(workgroups(7), 1);
    assert_eq!(workgroups(9), 2);
    assert_eq!(workgroups(0), 0);
}

#[test]
fn error_policy() {
    assert_eq!(recovery_action(SurfaceErrorKind::Lost), RecoveryAction::ResizeAndRetry);
    assert_eq!(recovery_action(SurfaceErrorKind::Outdated), RecoveryAction::ResizeAndRetry);
    assert_eq!(recovery_action(SurfaceErrorKind::OutOfMemory), RecoveryAction::Exit);
    assert_eq!(recovery_action(SurfaceErrorKind::Timeout), RecoveryAction::SkipFrame);
}

#[test]
fn format_preference_picks_first_srgb() {
    assert_eq!(preferred_format_index(&vec![false, true, true]), 1);
    assert_eq!(preferred_format_index(&vec![true, false]), 0);
}

#[test]
fn format_preference_falls_back_to_first() {
    assert_eq!(preferred_format_index(&vec![false, false, false]), 0);
}

#[test]
fn blit_quad_geometry() {
    let verts = blit_vertices();
    assert_eq!(verts.len(), 4);
    assert_eq!(verts[0], BlitVertex { x: -1, y: -1, u: 1, v: 0 });
    assert_eq!(verts[1], BlitVertex { x: 1, y: -1, u: 0, v: 0 });
    assert_eq!(verts[2], BlitVertex { x: 1, y: 1, u: 0, v: 1 });
    assert_eq!(verts[3], BlitVertex { x: -1, y: 1, u: 1, v: 1 });
    assert_eq!(blit_indices(), vec![0u16, 1, 2, 2, 3, 0]);
}

#[test]
fn shader_flags_round_trip() {
    assert_eq!(flag(true), 1);
    assert_eq!(flag(false), 0);
    assert!(enabled(1));
    assert!(enabled(-1));
    assert!(!enabled(0));
    assert!(enabled(flag(true)));
    assert!(!enabled(flag(false)));
}
