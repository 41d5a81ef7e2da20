//! The bytes of a well-formed file determine the model they describe.

use vstd::prelude::*;

use crate::layout::{
    comment_at, comment_list_at, comments_end, comment_section_at, comments_pos, group_at, group_section_at,
    groups_pos, joint_at, joint_ex_info_at, joint_ex_pos, joint_section_at, joints_pos,
    key_frame_data_at, key_frame_pos_at, key_frame_rot_at, material_at, materials_at,
    materials_pos, model_at, model_ex_info_at, model_ex_pos, model_ok, triangle_at, triangles_at,
    triangles_pos, u16_le, vertex_at, vertex_ex_info_at, vertex_ex_pos, vertices_at,
};
use crate::model::{
    Comment, Comments, Group, Joint, KeyFramePos, KeyFrameRot, Material, Model, Triangle, Vertex,
    VertexExInfo,
};

verus! {

pub open spec fn same_vertex(a: Vertex, b: Vertex) -> bool {
    a.flags == b.flags && a.vertex@ == b.vertex@ && a.bone_id == b.bone_id && a.reference_count
        == b.reference_count
}

pub open spec fn same_triangle(a: Triangle, b: Triangle) -> bool {
    &&& a.flags == b.flags
    &&& a.vertex_indices@ == b.vertex_indices@
    &&& forall|i: int| 0 <= i < 3 ==> #[trigger] a.vertex_normals@[i]@ == b.vertex_normals@[i]@
    &&& a.s@ == b.s@
    &&& a.t@ == b.t@
    &&& a.smoothing_group == b.smoothing_group
    &&& a.group_index == b.group_index
}

pub open spec fn same_group(a: Group, b: Group) -> bool {
    &&& a.flags == b.flags
    &&& a.name@ == b.name@
    &&& a.triangle_indices@ == b.triangle_indices@
    &&& a.material_index == b.material_index
}

pub open spec fn same_material(a: Material, b: Material) -> bool {
    &&& a.name@ == b.name@
    &&& a.ambient@ == b.ambient@
    &&& a.diffuse@ == b.diffuse@
    &&& a.specular@ == b.specular@
    &&& a.emissive@ == b.emissive@
    &&& a.shininess == b.shininess
    &&& a.transparency == b.transparency
    &&& a.mode == b.mode
    &&& a.texture@ == b.texture@
    &&& a.alphamap@ == b.alphamap@
}

pub open spec fn same_key_frame_rot(a: KeyFrameRot, b: KeyFrameRot) -> bool {
    a.time == b.time && a.rotation@ == b.rotation@
}

pub open spec fn same_key_frame_pos(a: KeyFramePos, b: KeyFramePos) -> bool {
    a.time == b.time && a.position@ == b.position@
}

pub open spec fn same_joint(a: Joint, b: Joint) -> bool {
    &&& a.flags == b.flags
    &&& a.name@ == b.name@
    &&& a.parent_name@ == b.parent_name@
    &&& a.rotation@ == b.rotation@
    &&& a.position@ == b.position@
    &&& a.key_frames_rot@.len() == b.key_frames_rot@.len()
    &&& (forall|i: int|
        0 <= i < a.key_frames_rot@.len() ==> same_key_frame_rot(
            #[trigger] a.key_frames_rot@[i],
            b.key_frames_rot@[i],
        ))
    &&& a.key_frames_trans@.len() == b.key_frames_trans@.len()
    &&& forall|i: int|
        0 <= i < a.key_frames_trans@.len() ==> same_key_frame_pos(
            #[trigger] a.key_frames_trans@[i],
            b.key_frames_trans@[i],
        )
}

pub open spec fn same_comment(a: Comment, b: Comment) -> bool {
    a.index == b.index && a.comment@ == b.comment@
}

pub open spec fn same_comment_list(a: Seq<Comment>, b: Seq<Comment>) -> bool {
    a.len() == b.len() && forall|i: int| 0 <= i < a.len() ==> same_comment(#[trigger] a[i], b[i])
}

pub open spec fn same_comments(a: Comments, b: Comments) -> bool {
    &&& a.sub_version == b.sub_version
    &&& same_comment_list(a.group_comments@, b.group_comments@)
    &&& same_comment_list(a.material_comments@, b.material_comments@)
    &&& same_comment_list(a.joint_comments@, b.joint_comments@)
    &&& match (a.model_comment, b.model_comment) {
        (None, None) => true,
        (Some(x), Some(y)) => same_comment(x, y),
        _ => false,
    }
}

pub open spec fn same_vertex_ex_info(a: VertexExInfo, b: VertexExInfo) -> bool {
    match (a, b) {
        (VertexExInfo::Absent, VertexExInfo::Absent) => true,
        (VertexExInfo::SubVersion1(x), VertexExInfo::SubVersion1(y)) => x@.len() == y@.len()
            && forall|i: int|
            0 <= i < x@.len() ==> #[trigger] x@[i].bone_ids@ == y@[i].bone_ids@ && x@[i].weights@
                == y@[i].weights@,
        (VertexExInfo::SubVersion2(x), VertexExInfo::SubVersion2(y)) => x@.len() == y@.len()
            && forall|i: int|
            0 <= i < x@.len() ==> #[trigger] x@[i].bone_ids@ == y@[i].bone_ids@ && x@[i].weights@
                == y@[i].weights@ && x@[i].extra == y@[i].extra,
        (VertexExInfo::SubVersion3(x), VertexExInfo::SubVersion3(y)) => x@.len() == y@.len()
            && forall|i: int|
            0 <= i < x@.len() ==> #[trigger] x@[i].bone_ids@ == y@[i].bone_ids@ && x@[i].weights@
                == y@[i].weights@ && x@[i].extra@ == y@[i].extra@,
        _ => false,
    }
}

/// Two models hold the same values, field by field.
pub open spec fn same_model(a: Model, b: Model) -> bool {
    &&& a.header == b.header
    &&& a.vertices@.len() == b.vertices@.len()
    &&& (forall|i: int|
        0 <= i < a.vertices@.len() ==> same_vertex(#[trigger] a.vertices@[i], b.vertices@[i]))
    &&& a.triangles@.len() == b.triangles@.len()
    &&& (forall|i: int|
        0 <= i < a.triangles@.len() ==> same_triangle(#[trigger] a.triangles@[i], b.triangles@[i]))
    &&& a.groups@.len() == b.groups@.len()
    &&& (forall|i: int|
        0 <= i < a.groups@.len() ==> same_group(#[trigger] a.groups@[i], b.groups@[i]))
    &&& a.materials@.len() == b.materials@.len()
    &&& (forall|i: int|
        0 <= i < a.materials@.len() ==> same_material(#[trigger] a.materials@[i], b.materials@[i]))
    &&& a.key_frame_data == b.key_frame_data
    &&& a.joints@.len() == b.joints@.len()
    &&& (forall|i: int|
        0 <= i < a.joints@.len() ==> same_joint(#[trigger] a.joints@[i], b.joints@[i]))
    &&& same_comments(a.comments, b.comments)
    &&& same_vertex_ex_info(a.vertex_ex_info, b.vertex_ex_info)
    &&& a.joint_ex_info.sub_version == b.joint_ex_info.sub_version
    &&& a.joint_ex_info.joint_ex@.len() == b.joint_ex_info.joint_ex@.len()
    &&& (forall|i: int|
        0 <= i < a.joint_ex_info.joint_ex@.len() ==> #[trigger] a.joint_ex_info.joint_ex@[i].color@
            == b.joint_ex_info.joint_ex@[i].color@)
    &&& a.model_ex_info == b.model_ex_info
}

proof fn lemma_same_comment_list(d: Seq<u8>, p: int, n: nat, a: Seq<Comment>, b: Seq<Comment>)
    requires
        comment_list_at(d, p, n, a),
        comment_list_at(d, p, n, b),
    ensures
        same_comment_list(a, b),
{
    assert forall|i: int| 0 <= i < a.len() implies same_comment(#[trigger] a[i], b[i]) by {
        assert(comment_at(d, comments_end(d, p, i as nat), a[i]));
        assert(comment_at(d, comments_end(d, p, i as nat), b[i]));
    }
}

/// Decoding is a function of the bytes: two models that the same
/// well-formed bytes lay out hold the same values. So bytes that lay out a
/// model by the file layout decode back to that very model.
pub proof fn lemma_round_trip(d: Seq<u8>, m: Model, decoded: Model)
    requires
        model_ok(d),
        model_at(d, m),
        model_at(d, decoded),
    ensures
        same_model(m, decoded),
{
    let p: int = 14;
    assert forall|i: int| 0 <= i < m.vertices@.len() implies same_vertex(
        #[trigger] m.vertices@[i],
        decoded.vertices@[i],
    ) by {
        assert(vertex_at(d, p + 2 + 15 * i, m.vertices@[i]));
        assert(vertex_at(d, p + 2 + 15 * i, decoded.vertices@[i]));
        assert(m.vertices@[i].vertex@ =~= decoded.vertices@[i].vertex@);
    }
    let p = triangles_pos(d);
    assert forall|i: int| 0 <= i < m.triangles@.len() implies same_triangle(
        #[trigger] m.triangles@[i],
        decoded.triangles@[i],
    ) by {
        let (a, b) = (m.triangles@[i], decoded.triangles@[i]);
        assert(triangle_at(d, p + 2 + 70 * i, a));
        assert(triangle_at(d, p + 2 + 70 * i, b));
        assert(a.vertex_indices@ =~= b.vertex_indices@);
        assert forall|j: int| 0 <= j < 3 implies #[trigger] a.vertex_normals@[j]@
            == b.vertex_normals@[j]@ by {
            assert(a.vertex_normals@[j]@ =~= b.vertex_normals@[j]@);
        }
        assert(a.s@ =~= b.s@);
        assert(a.t@ =~= b.t@);
    }
    let p = groups_pos(d);
    assert forall|i: int| 0 <= i < m.groups@.len() implies same_group(
        #[trigger] m.groups@[i],
        decoded.groups@[i],
    ) by {
        let (a, b) = (m.groups@[i], decoded.groups@[i]);
        let q = crate::layout::groups_end(d, p + 2, i as nat);
        assert(group_at(d, q, a));
        assert(group_at(d, q, b));
        assert(a.triangle_indices@ =~= b.triangle_indices@);
    }
    let p = materials_pos(d);
    assert forall|i: int| 0 <= i < m.materials@.len() implies same_material(
        #[trigger] m.materials@[i],
        decoded.materials@[i],
    ) by {
        let (a, b) = (m.materials@[i], decoded.materials@[i]);
        assert(material_at(d, p + 2 + 361 * i, a));
        assert(material_at(d, p + 2 + 361 * i, b));
        assert(a.ambient@ =~= b.ambient@);
        assert(a.diffuse@ =~= b.diffuse@);
        assert(a.specular@ =~= b.specular@);
        assert(a.emissive@ =~= b.emissive@);
    }
    let p = joints_pos(d);
    assert forall|i: int| 0 <= i < m.joints@.len() implies same_joint(
        #[trigger] m.joints@[i],
        decoded.joints@[i],
    ) by {
        let (a, b) = (m.joints@[i], decoded.joints@[i]);
        let q = crate::layout::joints_end(d, p + 2, i as nat);
        assert(joint_at(d, q, a));
        assert(joint_at(d, q, b));
        assert(a.rotation@ =~= b.rotation@);
        assert(a.position@ =~= b.position@);
        let nr = crate::layout::joint_rot_count(d, q);
        assert forall|j: int| 0 <= j < a.key_frames_rot@.len() implies same_key_frame_rot(
            #[trigger] a.key_frames_rot@[j],
            b.key_frames_rot@[j],
        ) by {
            assert(key_frame_rot_at(d, q + 93 + 16 * j, a.key_frames_rot@[j]));
            assert(key_frame_rot_at(d, q + 93 + 16 * j, b.key_frames_rot@[j]));
            assert(a.key_frames_rot@[j].rotation@ =~= b.key_frames_rot@[j].rotation@);
        }
        assert forall|j: int| 0 <= j < a.key_frames_trans@.len() implies same_key_frame_pos(
            #[trigger] a.key_frames_trans@[j],
            b.key_frames_trans@[j],
        ) by {
            assert(key_frame_pos_at(d, q + 93 + 16 * nr + 16 * j, a.key_frames_trans@[j]));
            assert(key_frame_pos_at(d, q + 93 + 16 * nr + 16 * j, b.key_frames_trans@[j]));
            assert(a.key_frames_trans@[j].position@ =~= b.key_frames_trans@[j].position@);
        }
    }
    let cp = comments_pos(d);
    let mp = crate::layout::material_comments_pos(d, cp);
    let jp = crate::layout::joint_comments_pos(d, cp);
    lemma_same_comment_list(
        d,
        cp + 8,
        crate::layout::u32_le(d, cp + 4) as nat,
        m.comments.group_comments@,
        decoded.comments.group_comments@,
    );
    lemma_same_comment_list(
        d,
        mp + 4,
        crate::layout::i32_le(d, mp) as nat,
        m.comments.material_comments@,
        decoded.comments.material_comments@,
    );
    lemma_same_comment_list(
        d,
        jp + 4,
        crate::layout::i32_le(d, jp) as nat,
        m.comments.joint_comments@,
        decoded.comments.joint_comments@,
    );
    let vp = vertex_ex_pos(d);
    match (m.vertex_ex_info, decoded.vertex_ex_info) {
        (VertexExInfo::SubVersion1(x), VertexExInfo::SubVersion1(y)) => {
            assert forall|i: int| 0 <= i < x@.len() implies #[trigger] x@[i].bone_ids@
                == y@[i].bone_ids@ && x@[i].weights@ == y@[i].weights@ by {
                assert(crate::layout::vertex_ex_1_at(d, vp + 4 + 6 * i, x@[i]));
                assert(crate::layout::vertex_ex_1_at(d, vp + 4 + 6 * i, y@[i]));
                assert(x@[i].bone_ids@ =~= y@[i].bone_ids@);
                assert(x@[i].weights@ =~= y@[i].weights@);
            }
        },
        (VertexExInfo::SubVersion2(x), VertexExInfo::SubVersion2(y)) => {
            assert forall|i: int| 0 <= i < x@.len() implies #[trigger] x@[i].bone_ids@
                == y@[i].bone_ids@ && x@[i].weights@ == y@[i].weights@ && x@[i].extra
                == y@[i].extra by {
                assert(crate::layout::vertex_ex_2_at(d, vp + 4 + 10 * i, x@[i]));
                assert(crate::layout::vertex_ex_2_at(d, vp + 4 + 10 * i, y@[i]));
                assert(x@[i].bone_ids@ =~= y@[i].bone_ids@);
                assert(x@[i].weights@ =~= y@[i].weights@);
            }
        },
        (VertexExInfo::SubVersion3(x), VertexExInfo::SubVersion3(y)) => {
            assert forall|i: int| 0 <= i < x@.len() implies #[trigger] x@[i].bone_ids@
                == y@[i].bone_ids@ && x@[i].weights@ == y@[i].weights@ && x@[i].extra@
                == y@[i].extra@ by {
                assert(crate::layout::vertex_ex_3_at(d, vp + 4 + 14 * i, x@[i]));
                assert(crate::layout::vertex_ex_3_at(d, vp + 4 + 14 * i, y@[i]));
                assert(x@[i].bone_ids@ =~= y@[i].bone_ids@);
                assert(x@[i].weights@ =~= y@[i].weights@);
                assert(x@[i].extra@ =~= y@[i].extra@);
            }
        },
        _ => {},
    }
    let jx = joint_ex_pos(d);
    let (a, b) = (m.joint_ex_info.joint_ex@, decoded.joint_ex_info.joint_ex@);
    assert forall|i: int| 0 <= i < a.len() implies #[trigger] a[i].color@ == b[i].color@ by {
        assert(crate::layout::joint_ex_at(d, jx + 4 + 12 * i, a[i]));
        assert(crate::layout::joint_ex_at(d, jx + 4 + 12 * i, b[i]));
        assert(a[i].color@ =~= b[i].color@);
    }
}

} // verus!
