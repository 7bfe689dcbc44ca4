//! Camera sync: every tick, each portal camera is placed where the main
//! camera would stand behind the paired portal, and its oblique near
//! plane is refreshed from the *other* portal's current plane.

use vstd::prelude::*;

use crate::geometry::{
    get_portal_plane, plane_to_camera_space, portal_to_portal, spec_plane_to_camera,
    spec_portal_plane, spec_portal_to_portal,
};
use crate::lifecycle::PortalSlots;
use crate::params::{DERIVED_ROT_LIMIT, DERIVED_TRANS_LIMIT, POSE_ROT_LIMIT, POSE_TRANS_LIMIT};
use crate::projection::PortalCameraProjection;
use crate::xform::{XF, Xform, xform_compose};

verus! {

/// The placement a portal camera must take: the main camera's pose mapped
/// through the portal pair.
pub open spec fn spec_camera_pose(this_portal: XF, other_portal: XF, main_cam: XF) -> XF {
    spec_portal_to_portal(this_portal, other_portal).compose(main_cam)
}

/// Recomputes both portal cameras' placements and oblique near planes
/// from the current portal and main-camera placements. Each camera's near
/// plane comes from the plane of the portal it renders through — the
/// other one — transferred into that camera's own frame, never from a
/// stale pairing.
pub fn sync_portal_cameras(
    trf_a: &Xform,
    trf_b: &Xform,
    main_cam: &Xform,
    cam_a: &mut Xform,
    cam_b: &mut Xform,
    proj_a: &mut PortalCameraProjection,
    proj_b: &mut PortalCameraProjection,
)
    requires
        trf_a@.wf(),
        trf_b@.wf(),
        main_cam@.wf(),
        trf_a@.bounded(POSE_ROT_LIMIT as int, POSE_TRANS_LIMIT as int),
        trf_b@.bounded(POSE_ROT_LIMIT as int, POSE_TRANS_LIMIT as int),
        main_cam@.bounded(POSE_ROT_LIMIT as int, POSE_TRANS_LIMIT as int),
    ensures
        final(cam_a)@ == spec_camera_pose(trf_a@, trf_b@, main_cam@),
        final(cam_b)@ == spec_camera_pose(trf_b@, trf_a@, main_cam@),
        final(cam_a)@.wf(),
        final(cam_b)@.wf(),
        final(cam_a)@.bounded(DERIVED_ROT_LIMIT as int, DERIVED_TRANS_LIMIT as int),
        final(cam_b)@.bounded(DERIVED_ROT_LIMIT as int, DERIVED_TRANS_LIMIT as int),
        *final(proj_a) == (PortalCameraProjection {
            near: final(proj_a).near,
            ..*old(proj_a)
        }),
        *final(proj_b) == (PortalCameraProjection {
            near: final(proj_b).near,
            ..*old(proj_b)
        }),
        final(proj_a).near@ == spec_plane_to_camera(
            spec_camera_pose(trf_a@, trf_b@, main_cam@),
            spec_portal_plane(trf_b@),
        ),
        final(proj_b).near@ == spec_plane_to_camera(
            spec_camera_pose(trf_b@, trf_a@, main_cam@),
            spec_portal_plane(trf_a@),
        ),
{
    let map_a = portal_to_portal(&trf_a, &trf_b);
    let map_b = portal_to_portal(&trf_b, &trf_a);
    let new_cam_a = xform_compose(&map_a, &main_cam, Ghost(0x2_0000), Ghost(0x100_0000_0000),
        Ghost(32), Ghost(0x100_0000));
    let new_cam_b = xform_compose(&map_b, &main_cam, Ghost(0x2_0000), Ghost(0x100_0000_0000),
        Ghost(32), Ghost(0x100_0000));
    proof {
        crate::xform::lemma_compose_wf(map_a@, main_cam@);
        crate::xform::lemma_compose_wf(map_b@, main_cam@);
    }
    let plane_a = get_portal_plane(&trf_a);
    let plane_b = get_portal_plane(&trf_b);
    let near_a = plane_to_camera_space(&new_cam_a, &plane_b);
    let near_b = plane_to_camera_space(&new_cam_b, &plane_a);
    *cam_a = new_cam_a;
    *cam_b = new_cam_b;
    proj_a.near = near_a;
    proj_b.near = near_b;
}

/// Per-tick camera sync against the slot state: when either portal is
/// missing, or the main camera is not yet known, no camera state changes
/// — the expected steady state before a second portal is fired, not an
/// error.
pub fn sync_tick(
    slots: &PortalSlots,
    main_cam: Option<&Xform>,
    cam_a: &mut Xform,
    cam_b: &mut Xform,
    proj_a: &mut PortalCameraProjection,
    proj_b: &mut PortalCameraProjection,
)
    requires
        slots.wf(),
        slots.a is Some ==> slots.a->0.pose@.wf(),
        slots.b is Some ==> slots.b->0.pose@.wf(),
        main_cam is Some ==> (main_cam->0@.wf() && main_cam->0@.bounded(
            POSE_ROT_LIMIT as int,
            POSE_TRANS_LIMIT as int,
        )),
    ensures
        match (slots.a, slots.b, main_cam) {
            (Some(pa), Some(pb), Some(mc)) => {
                &&& final(cam_a)@ == spec_camera_pose(pa.pose@, pb.pose@, mc@)
                &&& final(cam_b)@ == spec_camera_pose(pb.pose@, pa.pose@, mc@)
                &&& final(proj_a).near@ == spec_plane_to_camera(
                    spec_camera_pose(pa.pose@, pb.pose@, mc@),
                    spec_portal_plane(pb.pose@),
                )
                &&& final(proj_b).near@ == spec_plane_to_camera(
                    spec_camera_pose(pb.pose@, pa.pose@, mc@),
                    spec_portal_plane(pa.pose@),
                )
            },
            _ => {
                &&& *final(cam_a) == *old(cam_a)
                &&& *final(cam_b) == *old(cam_b)
                &&& *final(proj_a) == *old(proj_a)
                &&& *final(proj_b) == *old(proj_b)
            },
        },
{
    match (&slots.a, &slots.b, main_cam) {
        (Some(pa), Some(pb), Some(mc)) => {
            sync_portal_cameras(&pa.pose, &pb.pose, mc, cam_a, cam_b, proj_a, proj_b);
        },
        _ => {},
    }
}

} // verus!
