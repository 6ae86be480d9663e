//! The sub-passes of the point shadow pass.

use vstd::prelude::*;

use crate::graphics::frame::filters::{lemma_filter_keeps_none, lemma_filter_one};
use crate::graphics::frame::{
    begin, draw, point_shadow_caster_commands, point_shadow_commands, point_shadow_face_commands,
};
use crate::graphics::passes::{
    Command, DrawData, Drawer, Pass, PassData, PointShadowData, NUMBER_OF_CUBE_FACES,
};

verus! {

/// Whether a command opens a render pass.
pub open spec fn is_begin(command: Command) -> bool {
    command is BeginRenderPass
}

/// `is_begin` as a value.
pub open spec fn begins() -> spec_fn(Command) -> bool {
    |command: Command| is_begin(command)
}

/// Where the sub-pass for a face of a light's shadow cube starts among the
/// commands of the point shadow pass.
pub open spec fn sub_pass_start(shadow_caster_index: int, face_index: int) -> int {
    5 * (NUMBER_OF_CUBE_FACES * shadow_caster_index + face_index)
}

proof fn lemma_caster_sub_passes(shadow_caster_index: usize, faces: nat)
    requires
        faces <= NUMBER_OF_CUBE_FACES,
    ensures
        point_shadow_caster_commands(shadow_caster_index, faces).len() == 5 * faces,
        forall|face_index: int|
            0 <= face_index < faces ==> (#[trigger] point_shadow_caster_commands(
                shadow_caster_index,
                faces,
            ).subrange(5 * face_index, 5 * face_index + 5)) == point_shadow_face_commands(
                PointShadowData { shadow_caster_index, face_index: face_index as u32 },
            ),
    decreases faces,
{
    if faces > 0 {
        let before = point_shadow_caster_commands(shadow_caster_index, (faces - 1) as nat);
        let face = point_shadow_face_commands(
            PointShadowData { shadow_caster_index, face_index: (faces - 1) as u32 },
        );
        lemma_caster_sub_passes(shadow_caster_index, (faces - 1) as nat);
        assert forall|face_index: int| 0 <= face_index < faces implies (#[trigger] point_shadow_caster_commands(
            shadow_caster_index,
            faces,
        ).subrange(5 * face_index, 5 * face_index + 5)) == point_shadow_face_commands(
            PointShadowData { shadow_caster_index, face_index: face_index as u32 },
        ) by {
            if face_index < faces - 1 {
                assert((before + face).subrange(5 * face_index, 5 * face_index + 5) =~= before.subrange(
                    5 * face_index,
                    5 * face_index + 5,
                ));
            } else {
                assert((before + face).subrange(5 * face_index, 5 * face_index + 5) =~= face);
            }
        }
    }
}

/// The point shadow pass is made of one sub-pass for each face of the shadow
/// cube of each light, and of nothing else: six sub-passes per light, light
/// by light and face by face, each of which opens the pass for its face,
/// draws models, entities and the indicator, and closes the pass.
pub proof fn lemma_point_shadow_sub_passes(casters: nat)
    requires
        casters <= usize::MAX,
    ensures
        point_shadow_commands(casters).len() == 5 * NUMBER_OF_CUBE_FACES * casters,
        forall|shadow_caster_index: int, face_index: int|
            0 <= shadow_caster_index < casters && 0 <= face_index < NUMBER_OF_CUBE_FACES ==> point_shadow_commands(
                casters,
            ).subrange(
                #[trigger] sub_pass_start(shadow_caster_index, face_index),
                sub_pass_start(shadow_caster_index, face_index) + 5,
            ) == point_shadow_face_commands(
                PointShadowData {
                    shadow_caster_index: shadow_caster_index as usize,
                    face_index: face_index as u32,
                },
            ),
    decreases casters,
{
    if casters > 0 {
        let last = (casters - 1) as usize;
        let before = point_shadow_commands((casters - 1) as nat);
        let cube = point_shadow_caster_commands(last, NUMBER_OF_CUBE_FACES as nat);
        lemma_point_shadow_sub_passes((casters - 1) as nat);
        lemma_caster_sub_passes(last, NUMBER_OF_CUBE_FACES as nat);
        assert forall|shadow_caster_index: int, face_index: int|
            0 <= shadow_caster_index < casters && 0 <= face_index < NUMBER_OF_CUBE_FACES implies point_shadow_commands(
            casters,
        ).subrange(
            #[trigger] sub_pass_start(shadow_caster_index, face_index),
            sub_pass_start(shadow_caster_index, face_index) + 5,
        ) == point_shadow_face_commands(
            PointShadowData { shadow_caster_index: shadow_caster_index as usize, face_index: face_index as u32 },
        ) by {
            let start = sub_pass_start(shadow_caster_index, face_index);
            if shadow_caster_index < casters - 1 {
                assert((before + cube).subrange(start, start + 5) =~= before.subrange(start, start + 5));
            } else {
                assert(start == before.len() + 5 * face_index);
                assert((before + cube).subrange(start, start + 5) =~= cube.subrange(
                    5 * face_index,
                    5 * face_index + 5,
                ));
            }
        }
    }
}

proof fn lemma_face_opens_one_pass(data: PointShadowData)
    ensures
        point_shadow_face_commands(data).filter(begins()).len() == 1,
{
    let opening = seq![begin(Pass::PointShadow, PassData::PointShadow(data))];
    let rest = seq![
        draw(Drawer::PointShadowModel, DrawData::PointShadowModels(data)),
        draw(Drawer::PointShadowEntity, DrawData::PointShadowEntities(data)),
        draw(Drawer::PointShadowIndicator, DrawData::Indicator),
        Command::EndRenderPass,
    ];
    assert(point_shadow_face_commands(data) =~= opening + rest);
    lemma_filter_one(begin(Pass::PointShadow, PassData::PointShadow(data)), begins());
    lemma_filter_keeps_none(rest, begins());
    Seq::filter_distributes_over_add(opening, rest, begins());
}

proof fn lemma_cube_opens_a_pass_per_face(shadow_caster_index: usize, faces: nat)
    ensures
        point_shadow_caster_commands(shadow_caster_index, faces).filter(begins()).len() == faces,
    decreases faces,
{
    if faces > 0 {
        let face = point_shadow_face_commands(
            PointShadowData { shadow_caster_index, face_index: (faces - 1) as u32 },
        );
        lemma_cube_opens_a_pass_per_face(shadow_caster_index, (faces - 1) as nat);
        lemma_face_opens_one_pass(PointShadowData { shadow_caster_index, face_index: (faces - 1) as u32 });
        Seq::filter_distributes_over_add(
            point_shadow_caster_commands(shadow_caster_index, (faces - 1) as nat),
            face,
            begins(),
        );
    }
}

/// The point shadow pass opens six sub-passes for each light that casts a
/// shadow.
pub proof fn lemma_point_shadow_pass_opens_six_passes_per_light(casters: nat)
    ensures
        point_shadow_commands(casters).filter(begins()).len() == NUMBER_OF_CUBE_FACES * casters,
    decreases casters,
{
    if casters > 0 {
        lemma_point_shadow_pass_opens_six_passes_per_light((casters - 1) as nat);
        lemma_cube_opens_a_pass_per_face((casters - 1) as usize, NUMBER_OF_CUBE_FACES as nat);
        Seq::filter_distributes_over_add(
            point_shadow_commands((casters - 1) as nat),
            point_shadow_caster_commands((casters - 1) as usize, NUMBER_OF_CUBE_FACES as nat),
            begins(),
        );
    }
}

} // verus!
