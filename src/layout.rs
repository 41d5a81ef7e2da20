//! The file layout, stated as spec functions over the bytes of a file: for
//! each record, when the bytes at an offset hold a well-formed one (`*_ok`),
//! how long it is, and which decoded value they describe (`*_at`).

use crate::model::{
    Comment, Comments, Group, Joint, JointEx, JointExInfo, KeyFrameData, KeyFramePos, KeyFrameRot,
    Material, Model, ModelEx, ModelExInfo, Triangle, Vertex, VertexEx1, VertexEx2, VertexEx3,
    VertexExInfo, ALL_FLAGS, GROUP_ALLOWED_FLAGS, JOINT_ALLOWED_FLAGS, TRIANGLE_ALLOWED_FLAGS,
    VERTEX_ALLOWED_FLAGS,
};
use vstd::prelude::*;

verus! {

/// Widths in bytes of the fixed-size records.
pub const HEADER_SIZE: usize = 14;
pub const VERTEX_SIZE: usize = 15;
pub const TRIANGLE_SIZE: usize = 70;
pub const GROUP_PREFIX_SIZE: usize = 35;
pub const MATERIAL_SIZE: usize = 361;
pub const KEY_FRAME_DATA_SIZE: usize = 12;
pub const KEY_FRAME_ROT_SIZE: usize = 16;
pub const KEY_FRAME_POS_SIZE: usize = 16;
pub const JOINT_PREFIX_SIZE: usize = 93;
pub const COMMENT_PREFIX_SIZE: usize = 8;
pub const VERTEX_EX_1_SIZE: usize = 6;
pub const VERTEX_EX_2_SIZE: usize = 10;
pub const VERTEX_EX_3_SIZE: usize = 14;
pub const JOINT_EX_SIZE: usize = 12;
pub const MODEL_EX_SIZE: usize = 12;

/// The byte at `p`, read as a signed value.
pub open spec fn i8_le(d: Seq<u8>, p: int) -> int {
    if d[p] < 128 { d[p] as int } else { d[p] as int - 256 }
}

/// The little-endian `u16` stored at `p`.
pub open spec fn u16_le(d: Seq<u8>, p: int) -> int {
    d[p] as int + d[p + 1] as int * 0x100
}

/// The little-endian `u32` stored at `p`.
pub open spec fn u32_le(d: Seq<u8>, p: int) -> int {
    d[p] as int + d[p + 1] as int * 0x100 + d[p + 2] as int * 0x1_0000 + d[p + 3] as int
        * 0x100_0000
}

/// The little-endian two's-complement `i32` stored at `p`.
pub open spec fn i32_le(d: Seq<u8>, p: int) -> int {
    let u = u32_le(d, p);
    if u < 0x8000_0000 { u } else { u - 0x1_0000_0000 }
}

/// What `std::str::from_utf8` makes of `b`: the characters when `b` is
/// valid UTF-8, `None` otherwise.
pub uninterp spec fn utf8_text(b: Seq<u8>) -> Option<Seq<char>>;

/// A flags byte that names only flags, all of them within `allowed`.
pub open spec fn flags_ok(b: u8, allowed: u8) -> bool {
    b & !ALL_FLAGS == 0 && b & !allowed == 0
}

/// The bytes of `s` before its first zero byte; all of `s` when it has none.
pub open spec fn cstr(s: Seq<u8>) -> Seq<u8>
    decreases s.len(),
{
    if s.len() == 0 {
        s
    } else if s[0] == 0 {
        Seq::empty()
    } else {
        seq![s[0]] + cstr(s.drop_first())
    }
}

/// `cstr` stops at the first zero byte.
pub proof fn lemma_cstr_stop(s: Seq<u8>, i: int)
    requires
        0 <= i <= s.len(),
        forall|j: int| 0 <= j < i ==> s[j] != 0,
        i == s.len() || s[i] == 0,
    ensures
        cstr(s) == s.subrange(0, i),
    decreases s.len(),
{
    if s.len() == 0 {
        assert(s.subrange(0, i) =~= s);
    } else if i == 0 {
        assert(s.subrange(0, i) =~= Seq::<u8>::empty());
    } else {
        lemma_cstr_stop(s.drop_first(), i - 1);
        assert(cstr(s) =~= s.subrange(0, i));
    }
}

/// A text field with no zero byte is read over its whole width; one with a
/// zero byte is read only up to the first one.
pub proof fn lemma_field_width(s: Seq<u8>, i: int)
    ensures
        (forall|j: int| 0 <= j < s.len() ==> s[j] != 0) ==> cstr(s) == s,
        (0 <= i < s.len() && s[i] == 0 && forall|j: int| 0 <= j < i ==> s[j] != 0) ==> cstr(s)
            == s.subrange(0, i),
{
    if forall|j: int| 0 <= j < s.len() ==> s[j] != 0 {
        lemma_cstr_stop(s, s.len() as int);
        assert(s.subrange(0, s.len() as int) =~= s);
    }
    if 0 <= i < s.len() && s[i] == 0 && forall|j: int| 0 <= j < i ==> s[j] != 0 {
        lemma_cstr_stop(s, i);
    }
}

/// The text of the fixed-width, optionally zero-terminated field of `w`
/// bytes at `p`.
pub open spec fn field_text(d: Seq<u8>, p: int, w: int) -> Option<Seq<char>> {
    utf8_text(cstr(d.subrange(p, p + w)))
}

/// `a` holds the little-endian `u32`s stored one after another from `p`.
pub open spec fn u32s_at(d: Seq<u8>, p: int, a: Seq<u32>) -> bool {
    forall|i: int| 0 <= i < a.len() ==> #[trigger] a[i] == u32_le(d, p + 4 * i)
}

pub open spec fn header_ok(d: Seq<u8>) -> bool {
    14 <= d.len() && d.subrange(0, 10) == magic() && i32_le(d, 10) == 4
}

/// The identifier every file starts with.
pub open spec fn magic() -> Seq<u8> {
    seq![0x4du8, 0x53, 0x33, 0x44, 0x30, 0x30, 0x30, 0x30, 0x30, 0x30]
}

pub open spec fn vertex_ok(d: Seq<u8>, p: int) -> bool {
    0 <= p && p + 15 <= d.len() && flags_ok(d[p], VERTEX_ALLOWED_FLAGS)
}

pub open spec fn vertex_at(d: Seq<u8>, p: int, v: Vertex) -> bool {
    &&& v.flags.bits == d[p]
    &&& u32s_at(d, p + 1, v.vertex@)
    &&& v.bone_id == i8_le(d, p + 13)
    &&& v.reference_count == d[p + 14]
}

/// Only the low byte of a triangle's 16-bit flags field is checked and kept.
pub open spec fn triangle_ok(d: Seq<u8>, p: int) -> bool {
    0 <= p && p + 70 <= d.len() && flags_ok(d[p], TRIANGLE_ALLOWED_FLAGS)
}

pub open spec fn triangle_at(d: Seq<u8>, p: int, t: Triangle) -> bool {
    &&& t.flags.bits == d[p]
    &&& (forall|i: int| 0 <= i < 3 ==> #[trigger] t.vertex_indices@[i] == u16_le(d, p + 2 + 2 * i))
    &&& (forall|i: int| 0 <= i < 3 ==> u32s_at(d, p + 8 + 12 * i, #[trigger] t.vertex_normals@[i]@))
    &&& u32s_at(d, p + 44, t.s@)
    &&& u32s_at(d, p + 56, t.t@)
    &&& t.smoothing_group == d[p + 68]
    &&& t.group_index == d[p + 69]
}

pub open spec fn group_count(d: Seq<u8>, p: int) -> int {
    u16_le(d, p + 33)
}

pub open spec fn group_len(d: Seq<u8>, p: int) -> int {
    36 + 2 * group_count(d, p)
}

pub open spec fn group_ok(d: Seq<u8>, p: int) -> bool {
    &&& 0 <= p
    &&& p + 35 <= d.len()
    &&& flags_ok(d[p], GROUP_ALLOWED_FLAGS)
    &&& field_text(d, p + 1, 32) is Some
    &&& p + group_len(d, p) <= d.len()
}

pub open spec fn group_at(d: Seq<u8>, p: int, g: Group) -> bool {
    &&& g.flags.bits == d[p]
    &&& g.name@ == field_text(d, p + 1, 32).unwrap()
    &&& g.triangle_indices@.len() == group_count(d, p)
    &&& forall|i: int|
        0 <= i < g.triangle_indices@.len() ==> #[trigger] g.triangle_indices@[i] == u16_le(
            d,
            p + 35 + 2 * i,
        )
    &&& g.material_index == i8_le(d, p + 35 + 2 * group_count(d, p))
}

pub open spec fn material_ok(d: Seq<u8>, p: int) -> bool {
    &&& 0 <= p
    &&& p + 361 <= d.len()
    &&& field_text(d, p, 32) is Some
    &&& field_text(d, p + 105, 128) is Some
    &&& field_text(d, p + 233, 128) is Some
}

pub open spec fn material_at(d: Seq<u8>, p: int, m: Material) -> bool {
    &&& m.name@ == field_text(d, p, 32).unwrap()
    &&& u32s_at(d, p + 32, m.ambient@)
    &&& u32s_at(d, p + 48, m.diffuse@)
    &&& u32s_at(d, p + 64, m.specular@)
    &&& u32s_at(d, p + 80, m.emissive@)
    &&& m.shininess == u32_le(d, p + 96)
    &&& m.transparency == u32_le(d, p + 100)
    &&& m.mode == d[p + 104]
    &&& m.texture@ == field_text(d, p + 105, 128).unwrap()
    &&& m.alphamap@ == field_text(d, p + 233, 128).unwrap()
}

pub open spec fn key_frame_data_at(d: Seq<u8>, p: int, k: KeyFrameData) -> bool {
    &&& k.animation_fps == u32_le(d, p)
    &&& k.current_time == u32_le(d, p + 4)
    &&& k.total_frames == i32_le(d, p + 8)
}

pub open spec fn key_frame_rot_at(d: Seq<u8>, p: int, k: KeyFrameRot) -> bool {
    k.time == u32_le(d, p) && u32s_at(d, p + 4, k.rotation@)
}

pub open spec fn key_frame_pos_at(d: Seq<u8>, p: int, k: KeyFramePos) -> bool {
    k.time == u32_le(d, p) && u32s_at(d, p + 4, k.position@)
}

pub open spec fn joint_rot_count(d: Seq<u8>, p: int) -> int {
    u16_le(d, p + 89)
}

pub open spec fn joint_pos_count(d: Seq<u8>, p: int) -> int {
    u16_le(d, p + 91)
}

pub open spec fn joint_len(d: Seq<u8>, p: int) -> int {
    93 + 16 * (joint_rot_count(d, p) + joint_pos_count(d, p))
}

pub open spec fn joint_ok(d: Seq<u8>, p: int) -> bool {
    &&& 0 <= p
    &&& p + 93 <= d.len()
    &&& flags_ok(d[p], JOINT_ALLOWED_FLAGS)
    &&& field_text(d, p + 1, 32) is Some
    &&& field_text(d, p + 33, 32) is Some
    &&& p + joint_len(d, p) <= d.len()
}

pub open spec fn joint_at(d: Seq<u8>, p: int, j: Joint) -> bool {
    let nr = joint_rot_count(d, p);
    &&& j.flags.bits == d[p]
    &&& j.name@ == field_text(d, p + 1, 32).unwrap()
    &&& j.parent_name@ == field_text(d, p + 33, 32).unwrap()
    &&& u32s_at(d, p + 65, j.rotation@)
    &&& u32s_at(d, p + 77, j.position@)
    &&& j.key_frames_rot@.len() == nr
    &&& (forall|i: int|
        0 <= i < nr ==> key_frame_rot_at(d, p + 93 + 16 * i, #[trigger] j.key_frames_rot@[i]))
    &&& j.key_frames_trans@.len() == joint_pos_count(d, p)
    &&& forall|i: int|
        0 <= i < j.key_frames_trans@.len() ==> key_frame_pos_at(
            d,
            p + 93 + 16 * nr + 16 * i,
            #[trigger] j.key_frames_trans@[i],
        )
}

pub open spec fn comment_text_len(d: Seq<u8>, p: int) -> int {
    i32_le(d, p + 4)
}

pub open spec fn comment_len(d: Seq<u8>, p: int) -> int {
    8 + comment_text_len(d, p)
}

pub open spec fn comment_ok(d: Seq<u8>, p: int) -> bool {
    &&& 0 <= p
    &&& p + 8 <= d.len()
    &&& comment_text_len(d, p) >= 0
    &&& p + comment_len(d, p) <= d.len()
    &&& utf8_text(d.subrange(p + 8, p + comment_len(d, p))) is Some
}

pub open spec fn comment_at(d: Seq<u8>, p: int, c: Comment) -> bool {
    &&& c.index == i32_le(d, p)
    &&& c.comment@ == utf8_text(d.subrange(p + 8, p + comment_len(d, p))).unwrap()
}

/// Where a run of `n` records starting at `p` ends, each record's length
/// given by `len` at its own start.
pub open spec fn run_end(d: Seq<u8>, p: int, n: nat, len: spec_fn(Seq<u8>, int) -> int) -> int
    decreases n,
{
    if n == 0 {
        p
    } else {
        let q = run_end(d, p, (n - 1) as nat, len);
        q + len(d, q)
    }
}

/// Every record of the run of `n` starting at `p` is well formed.
pub open spec fn run_ok(
    d: Seq<u8>,
    p: int,
    n: nat,
    ok: spec_fn(Seq<u8>, int) -> bool,
    len: spec_fn(Seq<u8>, int) -> int,
) -> bool
    decreases n,
{
    if n == 0 {
        true
    } else {
        run_ok(d, p, (n - 1) as nat, ok, len) && ok(d, run_end(d, p, (n - 1) as nat, len))
    }
}

pub proof fn lemma_run_ok_prefix(
    d: Seq<u8>,
    p: int,
    n: nat,
    m: nat,
    ok: spec_fn(Seq<u8>, int) -> bool,
    len: spec_fn(Seq<u8>, int) -> int,
)
    requires
        run_ok(d, p, n, ok, len),
        m <= n,
    ensures
        run_ok(d, p, m, ok, len),
    decreases n,
{
    if m < n {
        lemma_run_ok_prefix(d, p, (n - 1) as nat, m, ok, len);
    }
}

pub open spec fn groups_end(d: Seq<u8>, p: int, n: nat) -> int {
    run_end(d, p, n, |d: Seq<u8>, q: int| group_len(d, q))
}

pub open spec fn groups_ok(d: Seq<u8>, p: int, n: nat) -> bool {
    run_ok(d, p, n, |d: Seq<u8>, q: int| group_ok(d, q), |d: Seq<u8>, q: int| group_len(d, q))
}

pub open spec fn joints_end(d: Seq<u8>, p: int, n: nat) -> int {
    run_end(d, p, n, |d: Seq<u8>, q: int| joint_len(d, q))
}

pub open spec fn joints_ok(d: Seq<u8>, p: int, n: nat) -> bool {
    run_ok(d, p, n, |d: Seq<u8>, q: int| joint_ok(d, q), |d: Seq<u8>, q: int| joint_len(d, q))
}

pub open spec fn comments_end(d: Seq<u8>, p: int, n: nat) -> int {
    run_end(d, p, n, |d: Seq<u8>, q: int| comment_len(d, q))
}

pub open spec fn comments_ok(d: Seq<u8>, p: int, n: nat) -> bool {
    run_ok(
        d,
        p,
        n,
        |d: Seq<u8>, q: int| comment_ok(d, q),
        |d: Seq<u8>, q: int| comment_len(d, q),
    )
}

pub open spec fn vertex_ex_1_at(d: Seq<u8>, p: int, v: VertexEx1) -> bool {
    &&& forall|i: int| 0 <= i < 3 ==> #[trigger] v.bone_ids@[i] == i8_le(d, p + i)
    &&& forall|i: int| 0 <= i < 3 ==> #[trigger] v.weights@[i] == d[p + 3 + i]
}

pub open spec fn vertex_ex_2_at(d: Seq<u8>, p: int, v: VertexEx2) -> bool {
    &&& forall|i: int| 0 <= i < 3 ==> #[trigger] v.bone_ids@[i] == i8_le(d, p + i)
    &&& forall|i: int| 0 <= i < 3 ==> #[trigger] v.weights@[i] == d[p + 3 + i]
    &&& v.extra == u32_le(d, p + 6)
}

pub open spec fn vertex_ex_3_at(d: Seq<u8>, p: int, v: VertexEx3) -> bool {
    &&& forall|i: int| 0 <= i < 3 ==> #[trigger] v.bone_ids@[i] == i8_le(d, p + i)
    &&& forall|i: int| 0 <= i < 3 ==> #[trigger] v.weights@[i] == d[p + 3 + i]
    &&& u32s_at(d, p + 6, v.extra@)
}

pub open spec fn joint_ex_at(d: Seq<u8>, p: int, j: JointEx) -> bool {
    u32s_at(d, p, j.color@)
}

pub open spec fn model_ex_at(d: Seq<u8>, p: int, m: ModelEx) -> bool {
    &&& m.joint_size == u32_le(d, p)
    &&& m.transparency_mode == i32_le(d, p + 4)
    &&& m.alpha_ref == u32_le(d, p + 8)
}

pub open spec fn vertices_ok(d: Seq<u8>, p: int) -> bool {
    &&& p + 2 <= d.len()
    &&& forall|i: int| 0 <= i < u16_le(d, p) ==> #[trigger] vertex_ok(d, p + 2 + 15 * i)
}

pub open spec fn vertices_at(d: Seq<u8>, p: int, v: Seq<Vertex>) -> bool {
    &&& v.len() == u16_le(d, p)
    &&& forall|i: int| 0 <= i < v.len() ==> vertex_at(d, p + 2 + 15 * i, #[trigger] v[i])
}

pub open spec fn vertices_end(d: Seq<u8>, p: int) -> int {
    p + 2 + 15 * u16_le(d, p)
}

pub open spec fn triangles_ok(d: Seq<u8>, p: int) -> bool {
    &&& p + 2 <= d.len()
    &&& forall|i: int| 0 <= i < u16_le(d, p) ==> #[trigger] triangle_ok(d, p + 2 + 70 * i)
}

pub open spec fn triangles_at(d: Seq<u8>, p: int, t: Seq<Triangle>) -> bool {
    &&& t.len() == u16_le(d, p)
    &&& forall|i: int| 0 <= i < t.len() ==> triangle_at(d, p + 2 + 70 * i, #[trigger] t[i])
}

pub open spec fn triangles_end(d: Seq<u8>, p: int) -> int {
    p + 2 + 70 * u16_le(d, p)
}

pub open spec fn materials_ok(d: Seq<u8>, p: int) -> bool {
    &&& p + 2 <= d.len()
    &&& forall|i: int| 0 <= i < u16_le(d, p) ==> #[trigger] material_ok(d, p + 2 + 361 * i)
}

pub open spec fn materials_at(d: Seq<u8>, p: int, m: Seq<Material>) -> bool {
    &&& m.len() == u16_le(d, p)
    &&& forall|i: int| 0 <= i < m.len() ==> material_at(d, p + 2 + 361 * i, #[trigger] m[i])
}

pub open spec fn materials_end(d: Seq<u8>, p: int) -> int {
    p + 2 + 361 * u16_le(d, p)
}

pub open spec fn group_section_ok(d: Seq<u8>, p: int) -> bool {
    p + 2 <= d.len() && groups_ok(d, p + 2, u16_le(d, p) as nat)
}

pub open spec fn group_section_at(d: Seq<u8>, p: int, g: Seq<Group>) -> bool {
    &&& g.len() == u16_le(d, p)
    &&& forall|i: int|
        0 <= i < g.len() ==> group_at(d, groups_end(d, p + 2, i as nat), #[trigger] g[i])
}

pub open spec fn group_section_end(d: Seq<u8>, p: int) -> int {
    groups_end(d, p + 2, u16_le(d, p) as nat)
}

pub open spec fn joint_section_ok(d: Seq<u8>, p: int) -> bool {
    p + 2 <= d.len() && joints_ok(d, p + 2, u16_le(d, p) as nat)
}

pub open spec fn joint_section_at(d: Seq<u8>, p: int, j: Seq<Joint>) -> bool {
    &&& j.len() == u16_le(d, p)
    &&& forall|i: int|
        0 <= i < j.len() ==> joint_at(d, joints_end(d, p + 2, i as nat), #[trigger] j[i])
}

pub open spec fn joint_section_end(d: Seq<u8>, p: int) -> int {
    joints_end(d, p + 2, u16_le(d, p) as nat)
}

/// The `n` comments from `p` are the records of `c`, in order.
pub open spec fn comment_list_at(d: Seq<u8>, p: int, n: nat, c: Seq<Comment>) -> bool {
    &&& c.len() == n
    &&& forall|i: int|
        0 <= i < c.len() ==> comment_at(d, comments_end(d, p, i as nat), #[trigger] c[i])
}

/// A comment list whose count is a signed 32-bit field at `p`.
pub open spec fn signed_list_ok(d: Seq<u8>, p: int) -> bool {
    p + 4 <= d.len() && i32_le(d, p) >= 0 && comments_ok(d, p + 4, i32_le(d, p) as nat)
}

pub open spec fn signed_list_end(d: Seq<u8>, p: int) -> int {
    comments_end(d, p + 4, i32_le(d, p) as nat)
}

/// Start of the material, joint and model comment counts of the comment
/// block at `p`.
pub open spec fn material_comments_pos(d: Seq<u8>, p: int) -> int {
    comments_end(d, p + 8, u32_le(d, p + 4) as nat)
}

pub open spec fn joint_comments_pos(d: Seq<u8>, p: int) -> int {
    signed_list_end(d, material_comments_pos(d, p))
}

pub open spec fn model_comment_pos(d: Seq<u8>, p: int) -> int {
    signed_list_end(d, joint_comments_pos(d, p))
}

pub open spec fn comment_section_ok(d: Seq<u8>, p: int) -> bool {
    let m = model_comment_pos(d, p);
    &&& p + 8 <= d.len()
    &&& i32_le(d, p) == 1
    &&& comments_ok(d, p + 8, u32_le(d, p + 4) as nat)
    &&& signed_list_ok(d, material_comments_pos(d, p))
    &&& signed_list_ok(d, joint_comments_pos(d, p))
    &&& m + 4 <= d.len()
    &&& (i32_le(d, m) == 0 || (i32_le(d, m) == 1 && comment_ok(d, m + 4)))
}

pub open spec fn comment_section_at(d: Seq<u8>, p: int, c: Comments) -> bool {
    let mp = material_comments_pos(d, p);
    let jp = joint_comments_pos(d, p);
    let m = model_comment_pos(d, p);
    &&& c.sub_version == 1
    &&& comment_list_at(d, p + 8, u32_le(d, p + 4) as nat, c.group_comments@)
    &&& comment_list_at(d, mp + 4, i32_le(d, mp) as nat, c.material_comments@)
    &&& comment_list_at(d, jp + 4, i32_le(d, jp) as nat, c.joint_comments@)
    &&& match c.model_comment {
        None => i32_le(d, m) == 0,
        Some(mc) => i32_le(d, m) == 1 && comment_at(d, m + 4, mc),
    }
}

pub open spec fn comment_section_end(d: Seq<u8>, p: int) -> int {
    let m = model_comment_pos(d, p);
    if i32_le(d, m) == 1 {
        m + 4 + comment_len(d, m + 4)
    } else {
        m + 4
    }
}

/// Record width of each vertex extension sub-version.
pub open spec fn vertex_ex_width(sub_version: int) -> int {
    if sub_version == 1 {
        6
    } else if sub_version == 2 {
        10
    } else {
        14
    }
}

/// The optional vertex extension at `p` for `n` vertices: absent when the
/// data ends at `p`.
pub open spec fn vertex_ex_ok(d: Seq<u8>, p: int, n: int) -> bool {
    p == d.len() || (p + 4 <= d.len() && 1 <= i32_le(d, p) <= 3 && p + 4 + vertex_ex_width(
        i32_le(d, p),
    ) * n <= d.len())
}

pub open spec fn vertex_ex_end(d: Seq<u8>, p: int, n: int) -> int {
    if p == d.len() {
        p
    } else {
        p + 4 + vertex_ex_width(i32_le(d, p)) * n
    }
}

pub open spec fn vertex_ex_info_at(d: Seq<u8>, p: int, n: int, info: VertexExInfo) -> bool {
    match info {
        VertexExInfo::Absent => p == d.len(),
        VertexExInfo::SubVersion1(v) => p < d.len() && i32_le(d, p) == 1 && v@.len() == n && (
        forall|i: int| 0 <= i < n ==> vertex_ex_1_at(d, p + 4 + 6 * i, #[trigger] v@[i])),
        VertexExInfo::SubVersion2(v) => p < d.len() && i32_le(d, p) == 2 && v@.len() == n && (
        forall|i: int| 0 <= i < n ==> vertex_ex_2_at(d, p + 4 + 10 * i, #[trigger] v@[i])),
        VertexExInfo::SubVersion3(v) => p < d.len() && i32_le(d, p) == 3 && v@.len() == n && (
        forall|i: int| 0 <= i < n ==> vertex_ex_3_at(d, p + 4 + 14 * i, #[trigger] v@[i])),
    }
}

pub open spec fn joint_ex_ok(d: Seq<u8>, p: int, n: int) -> bool {
    p == d.len() || (p + 4 <= d.len() && i32_le(d, p) == 1 && p + 4 + 12 * n <= d.len())
}

pub open spec fn joint_ex_end(d: Seq<u8>, p: int, n: int) -> int {
    if p == d.len() {
        p
    } else {
        p + 4 + 12 * n
    }
}

pub open spec fn joint_ex_info_at(d: Seq<u8>, p: int, n: int, info: JointExInfo) -> bool {
    if p == d.len() {
        info.sub_version == 0 && info.joint_ex@.len() == 0
    } else {
        &&& info.sub_version == 1
        &&& info.joint_ex@.len() == n
        &&& forall|i: int|
            0 <= i < n ==> joint_ex_at(d, p + 4 + 12 * i, #[trigger] info.joint_ex@[i])
    }
}

pub open spec fn model_ex_ok(d: Seq<u8>, p: int) -> bool {
    p == d.len() || (p + 4 <= d.len() && i32_le(d, p) == 1 && p + 16 <= d.len())
}

pub open spec fn model_ex_info_at(d: Seq<u8>, p: int, info: ModelExInfo) -> bool {
    if p == d.len() {
        &&& info.sub_version == 0
        &&& info.model_ex.joint_size == 0
        &&& info.model_ex.transparency_mode == 0
        &&& info.model_ex.alpha_ref == 0
    } else {
        info.sub_version == 1 && model_ex_at(d, p + 4, info.model_ex)
    }
}

/// Offsets of the sections of a file, each following from those before it.
pub open spec fn triangles_pos(d: Seq<u8>) -> int {
    vertices_end(d, 14)
}

pub open spec fn groups_pos(d: Seq<u8>) -> int {
    triangles_end(d, triangles_pos(d))
}

pub open spec fn materials_pos(d: Seq<u8>) -> int {
    group_section_end(d, groups_pos(d))
}

pub open spec fn key_frame_data_pos(d: Seq<u8>) -> int {
    materials_end(d, materials_pos(d))
}

pub open spec fn joints_pos(d: Seq<u8>) -> int {
    key_frame_data_pos(d) + 12
}

pub open spec fn comments_pos(d: Seq<u8>) -> int {
    joint_section_end(d, joints_pos(d))
}

pub open spec fn vertex_ex_pos(d: Seq<u8>) -> int {
    comment_section_end(d, comments_pos(d))
}

pub open spec fn joint_ex_pos(d: Seq<u8>) -> int {
    vertex_ex_end(d, vertex_ex_pos(d), u16_le(d, 14))
}

pub open spec fn model_ex_pos(d: Seq<u8>) -> int {
    joint_ex_end(d, joint_ex_pos(d), u16_le(d, joints_pos(d)))
}

/// `d` starts with a well-formed model file.
pub open spec fn model_ok(d: Seq<u8>) -> bool {
    &&& header_ok(d)
    &&& vertices_ok(d, 14)
    &&& triangles_ok(d, triangles_pos(d))
    &&& group_section_ok(d, groups_pos(d))
    &&& materials_ok(d, materials_pos(d))
    &&& key_frame_data_pos(d) + 12 <= d.len()
    &&& joint_section_ok(d, joints_pos(d))
    &&& comment_section_ok(d, comments_pos(d))
    &&& vertex_ex_ok(d, vertex_ex_pos(d), u16_le(d, 14))
    &&& joint_ex_ok(d, joint_ex_pos(d), u16_le(d, joints_pos(d)))
    &&& model_ex_ok(d, model_ex_pos(d))
}

/// `m` is what the file at the start of `d` holds.
pub open spec fn model_at(d: Seq<u8>, m: Model) -> bool {
    &&& m.header.version == 4
    &&& vertices_at(d, 14, m.vertices@)
    &&& triangles_at(d, triangles_pos(d), m.triangles@)
    &&& group_section_at(d, groups_pos(d), m.groups@)
    &&& materials_at(d, materials_pos(d), m.materials@)
    &&& key_frame_data_at(d, key_frame_data_pos(d), m.key_frame_data)
    &&& joint_section_at(d, joints_pos(d), m.joints@)
    &&& comment_section_at(d, comments_pos(d), m.comments)
    &&& vertex_ex_info_at(d, vertex_ex_pos(d), u16_le(d, 14), m.vertex_ex_info)
    &&& joint_ex_info_at(d, joint_ex_pos(d), u16_le(d, joints_pos(d)), m.joint_ex_info)
    &&& model_ex_info_at(d, model_ex_pos(d), m.model_ex_info)
}

/// The model comment count decides the model comment: any count but 0 or 1
/// makes the comment block malformed; 0 yields no model comment and 1
/// yields exactly one.
pub proof fn lemma_model_comment_count(d: Seq<u8>, p: int, c: Comments)
    ensures
        ({
            let n = i32_le(d, model_comment_pos(d, p));
            n != 0 && n != 1
        }) ==> !comment_section_ok(d, p),
        comment_section_at(d, p, c) ==> (c.model_comment is None <==> i32_le(
            d,
            model_comment_pos(d, p),
        ) == 0),
        comment_section_at(d, p, c) ==> (c.model_comment is Some <==> i32_le(
            d,
            model_comment_pos(d, p),
        ) == 1),
{
}

} // verus!
