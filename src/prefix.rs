//! The mandatory sections of a file read only the bytes before its
//! extensions: what follows from that for files that are cut short.

use vstd::prelude::*;

use crate::layout::{
    comment_len, comment_ok, comment_section_ok, comments_pos, field_text, group_len, group_ok,
    group_section_ok, groups_pos, header_ok, i32_le, joint_comments_pos, joint_len, joint_ok,
    joint_section_ok, joints_pos, key_frame_data_pos, material_comments_pos, material_ok,
    materials_ok, materials_pos, model_at, model_comment_pos, model_ok, run_end, run_ok,
    triangle_ok, triangles_ok, triangles_pos, u16_le, u32_le, vertex_ex_pos, vertex_ok, vertices_ok,
};
use crate::model::Model;

verus! {

/// `a` and `b` hold the same first `k` bytes.
pub open spec fn agree(a: Seq<u8>, b: Seq<u8>, k: int) -> bool {
    &&& 0 <= k <= a.len()
    &&& k <= b.len()
    &&& forall|i: int| 0 <= i < k ==> a[i] == b[i]
}

/// The sections every file must hold, up to the comment block.
pub open spec fn core_ok(d: Seq<u8>) -> bool {
    &&& header_ok(d)
    &&& vertices_ok(d, 14)
    &&& triangles_ok(d, triangles_pos(d))
    &&& group_section_ok(d, groups_pos(d))
    &&& materials_ok(d, materials_pos(d))
    &&& key_frame_data_pos(d) + 12 <= d.len()
    &&& joint_section_ok(d, joints_pos(d))
    &&& comment_section_ok(d, comments_pos(d))
}

proof fn lemma_field_agree(a: Seq<u8>, b: Seq<u8>, k: int, p: int, w: int)
    requires
        agree(a, b, k),
        0 <= p,
        0 <= w,
        p + w <= k,
    ensures
        field_text(a, p, w) == field_text(b, p, w),
        a.subrange(p, p + w) == b.subrange(p, p + w),
{
    assert(a.subrange(p, p + w) =~= b.subrange(p, p + w));
}

/// A run of well-formed records that ends by `k` reads the same from any
/// data that agrees with `a` below `k`.
proof fn lemma_run_agree(
    a: Seq<u8>,
    b: Seq<u8>,
    k: int,
    p: int,
    n: nat,
    ok: spec_fn(Seq<u8>, int) -> bool,
    len: spec_fn(Seq<u8>, int) -> int,
)
    requires
        run_ok(a, p, n, ok, len),
        run_end(a, p, n, len) <= k,
        forall|q: int| #[trigger] ok(a, q) ==> len(a, q) >= 0,
        forall|q: int|
            #[trigger] ok(a, q) && q + len(a, q) <= k ==> len(b, q) == len(a, q) && ok(b, q),
    ensures
        run_ok(b, p, n, ok, len),
        run_end(b, p, n, len) == run_end(a, p, n, len),
    decreases n,
{
    if n > 0 {
        let q = run_end(a, p, (n - 1) as nat, len);
        assert(ok(a, q));
        lemma_run_agree(a, b, k, p, (n - 1) as nat, ok, len);
    }
}

/// A run of well-formed records ends no earlier than it starts and within
/// the data.
proof fn lemma_run_bounds(
    a: Seq<u8>,
    p: int,
    n: nat,
    ok: spec_fn(Seq<u8>, int) -> bool,
    len: spec_fn(Seq<u8>, int) -> int,
)
    requires
        run_ok(a, p, n, ok, len),
        p <= a.len(),
        forall|q: int| #[trigger] ok(a, q) ==> len(a, q) >= 0 && q + len(a, q) <= a.len(),
    ensures
        p <= run_end(a, p, n, len) <= a.len(),
    decreases n,
{
    if n > 0 {
        let q = run_end(a, p, (n - 1) as nat, len);
        assert(ok(a, q));
        lemma_run_bounds(a, p, (n - 1) as nat, ok, len);
    }
}

proof fn lemma_group_facts(a: Seq<u8>, b: Seq<u8>, k: int)
    requires
        agree(a, b, k),
    ensures
        forall|q: int| #[trigger] group_ok(a, q) ==> group_len(a, q) >= 0 && q + group_len(a, q) <= a.len(),
        forall|q: int|
            #[trigger] group_ok(a, q) && q + group_len(a, q) <= k ==> group_len(b, q) == group_len(
                a,
                q,
            ) && group_ok(b, q),
{
    assert forall|q: int| #[trigger] group_ok(a, q) && q + group_len(a, q) <= k implies group_len(
        b,
        q,
    ) == group_len(a, q) && group_ok(b, q) by {
        lemma_field_agree(a, b, k, q + 1, 32);
    }
}

proof fn lemma_joint_facts(a: Seq<u8>, b: Seq<u8>, k: int)
    requires
        agree(a, b, k),
    ensures
        forall|q: int| #[trigger] joint_ok(a, q) ==> joint_len(a, q) >= 0 && q + joint_len(a, q) <= a.len(),
        forall|q: int|
            #[trigger] joint_ok(a, q) && q + joint_len(a, q) <= k ==> joint_len(b, q) == joint_len(
                a,
                q,
            ) && joint_ok(b, q),
{
    assert forall|q: int| #[trigger] joint_ok(a, q) && q + joint_len(a, q) <= k implies joint_len(
        b,
        q,
    ) == joint_len(a, q) && joint_ok(b, q) by {
        lemma_field_agree(a, b, k, q + 1, 32);
        lemma_field_agree(a, b, k, q + 33, 32);
    }
}

proof fn lemma_comment_facts(a: Seq<u8>, b: Seq<u8>, k: int)
    requires
        agree(a, b, k),
    ensures
        forall|q: int| #[trigger] comment_ok(a, q) ==> comment_len(a, q) >= 0 && q + comment_len(a, q) <= a.len(),
        forall|q: int|
            #[trigger] comment_ok(a, q) && q + comment_len(a, q) <= k ==> comment_len(b, q)
                == comment_len(a, q) && comment_ok(b, q),
{
    assert forall|q: int| #[trigger] comment_ok(a, q) && q + comment_len(a, q) <= k implies comment_len(
        b,
        q,
    ) == comment_len(a, q) && comment_ok(b, q) by {
        lemma_field_agree(a, b, k, q + 8, comment_len(a, q) - 8);
    }
}

/// The offsets of the mandatory sections of a well-formed file follow one
/// another and stay within the data.
proof fn lemma_core_bounds(a: Seq<u8>)
    requires
        core_ok(a),
    ensures
        groups_pos(a) + 2 <= materials_pos(a),
        joints_pos(a) + 2 <= comments_pos(a),
        comments_pos(a) + 8 <= material_comments_pos(a, comments_pos(a)),
        material_comments_pos(a, comments_pos(a)) + 4 <= joint_comments_pos(a, comments_pos(a)),
        joint_comments_pos(a, comments_pos(a)) + 4 <= model_comment_pos(a, comments_pos(a)),
        model_comment_pos(a, comments_pos(a)) + 4 <= vertex_ex_pos(a) <= a.len(),
{
    lemma_group_facts(a, a, 0);
    lemma_joint_facts(a, a, 0);
    lemma_comment_facts(a, a, 0);
    let gp = groups_pos(a);
    lemma_run_bounds(a, gp + 2, u16_le(a, gp) as nat, |d: Seq<u8>, q: int| group_ok(d, q),
        |d: Seq<u8>, q: int| group_len(d, q));
    let jp = joints_pos(a);
    lemma_run_bounds(a, jp + 2, u16_le(a, jp) as nat, |d: Seq<u8>, q: int| joint_ok(d, q),
        |d: Seq<u8>, q: int| joint_len(d, q));
    let cp = comments_pos(a);
    lemma_run_bounds(a, cp + 8, u32_le(a, cp + 4) as nat, |d: Seq<u8>, q: int| comment_ok(d, q),
        |d: Seq<u8>, q: int| comment_len(d, q));
    let mp = material_comments_pos(a, cp);
    lemma_run_bounds(a, mp + 4, i32_le(a, mp) as nat, |d: Seq<u8>, q: int| comment_ok(d, q),
        |d: Seq<u8>, q: int| comment_len(d, q));
    let jcp = joint_comments_pos(a, cp);
    lemma_run_bounds(a, jcp + 4, i32_le(a, jcp) as nat, |d: Seq<u8>, q: int| comment_ok(d, q),
        |d: Seq<u8>, q: int| comment_len(d, q));
}

/// The mandatory sections read only bytes before the vertex extension: any
/// data that agrees with a well-formed one below that point is well formed
/// there too, with the same offsets.
proof fn lemma_core_agree(a: Seq<u8>, b: Seq<u8>, k: int)
    requires
        core_ok(a),
        vertex_ex_pos(a) <= k,
        agree(a, b, k),
    ensures
        core_ok(b),
        vertex_ex_pos(b) == vertex_ex_pos(a),
{
    lemma_core_bounds(a);
    lemma_group_facts(a, b, k);
    lemma_joint_facts(a, b, k);
    lemma_comment_facts(a, b, k);
    // header
    lemma_field_agree(a, b, k, 0, 10);
    // vertices
    let p: int = 14;
    assert forall|i: int| 0 <= i < u16_le(b, p) implies #[trigger] vertex_ok(b, p + 2 + 15 * i) by {
        assert(vertex_ok(a, p + 2 + 15 * i));
    }
    // triangles
    let p = triangles_pos(a);
    assert(triangles_pos(b) == p);
    assert forall|i: int| 0 <= i < u16_le(b, p) implies #[trigger] triangle_ok(b, p + 2 + 70 * i) by {
        assert(triangle_ok(a, p + 2 + 70 * i));
    }
    // groups
    let p = groups_pos(a);
    assert(groups_pos(b) == p);
    lemma_run_agree(a, b, k, p + 2, u16_le(a, p) as nat, |d: Seq<u8>, q: int| group_ok(d, q),
        |d: Seq<u8>, q: int| group_len(d, q));
    // materials
    let p = materials_pos(a);
    assert(materials_pos(b) == p);
    assert forall|i: int| 0 <= i < u16_le(b, p) implies #[trigger] material_ok(b, p + 2 + 361 * i) by {
        let x = p + 2 + 361 * i;
        assert(material_ok(a, x));
        lemma_field_agree(a, b, k, x, 32);
        lemma_field_agree(a, b, k, x + 105, 128);
        lemma_field_agree(a, b, k, x + 233, 128);
    }
    // joints
    let p = joints_pos(a);
    assert(joints_pos(b) == p);
    lemma_run_agree(a, b, k, p + 2, u16_le(a, p) as nat, |d: Seq<u8>, q: int| joint_ok(d, q),
        |d: Seq<u8>, q: int| joint_len(d, q));
    // comments
    let cp = comments_pos(a);
    assert(comments_pos(b) == cp);
    lemma_run_agree(a, b, k, cp + 8, u32_le(a, cp + 4) as nat, |d: Seq<u8>, q: int| comment_ok(d, q),
        |d: Seq<u8>, q: int| comment_len(d, q));
    let mp = material_comments_pos(a, cp);
    assert(material_comments_pos(b, cp) == mp);
    lemma_run_agree(a, b, k, mp + 4, i32_le(a, mp) as nat, |d: Seq<u8>, q: int| comment_ok(d, q),
        |d: Seq<u8>, q: int| comment_len(d, q));
    let jcp = joint_comments_pos(a, cp);
    assert(joint_comments_pos(b, cp) == jcp);
    lemma_run_agree(a, b, k, jcp + 4, i32_le(a, jcp) as nat, |d: Seq<u8>, q: int| comment_ok(d, q),
        |d: Seq<u8>, q: int| comment_len(d, q));
    let m = model_comment_pos(a, cp);
    assert(model_comment_pos(b, cp) == m);
    if i32_le(a, m) == 1 {
        assert(comment_ok(a, m + 4));
    }
}

/// Cutting a well-formed file right before its vertex extension leaves a
/// well-formed file whose three extensions all decode as absent.
pub proof fn lemma_truncated_before_extensions(d: Seq<u8>)
    requires
        model_ok(d),
    ensures
        ({
            let t = d.subrange(0, vertex_ex_pos(d));
            &&& model_ok(t)
            &&& forall|m: Model|
                #[trigger] model_at(t, m) ==> m.vertex_ex_info is Absent && m.joint_ex_info.sub_version
                    == 0 && m.joint_ex_info.joint_ex@.len() == 0 && m.model_ex_info.sub_version == 0
        }),
{
    lemma_core_bounds(d);
    let k = vertex_ex_pos(d);
    let t = d.subrange(0, k);
    lemma_core_agree(d, t, k);
}

/// Cutting a well-formed file anywhere before its vertex extension leaves
/// data that is not a well-formed file.
pub proof fn lemma_truncated_core_fails(d: Seq<u8>, k: int)
    requires
        model_ok(d),
        0 <= k < vertex_ex_pos(d),
    ensures
        !model_ok(d.subrange(0, k)),
{
    lemma_core_bounds(d);
    let t = d.subrange(0, k);
    if model_ok(t) {
        lemma_core_bounds(t);
        lemma_core_agree(t, d, k);
    }
}

} // verus!
