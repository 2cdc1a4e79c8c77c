//! Mesh data: vertices with position, normal and texture coordinates, plus
//! triangle indices, as a model file provides them.

use vstd::prelude::*;

use crate::scalar::parse_bits;
use crate::scalar::F_ZERO;
use crate::vector2::Vector2;
use crate::vector3::Vector3;

verus! {

/// One vertex: a position, a normal and a texture coordinate.
#[derive(Clone, Copy, Debug)]
pub struct Vertex {
    pub position: Vector3,
    pub normal: Vector3,
    pub texcoord: Vector2,
}

impl Vertex {
    /// A vertex at the given position, with the normal and the texture
    /// coordinate zeroed.
    pub fn new(position: Vector3) -> (r: Self)
        ensures
            r == (Vertex {
                position,
                normal: Vector3 { x: F_ZERO, y: F_ZERO, z: F_ZERO },
                texcoord: Vector2 { x: F_ZERO, y: F_ZERO },
            }),
    {
        Self {
            position,
            normal: Vector3 { x: F_ZERO, y: F_ZERO, z: F_ZERO },
            texcoord: Vector2 { x: F_ZERO, y: F_ZERO },
        }
    }
}

/// One splitting step: a separator starts a new empty piece, any other byte
/// extends the last piece.
pub open spec fn split_step(acc: Seq<Seq<u8>>, c: u8, sep: u8) -> Seq<Seq<u8>>
    recommends
        acc.len() > 0,
{
    if c == sep {
        acc.push(seq![])
    } else {
        acc.update(acc.len() - 1, acc.last().push(c))
    }
}

/// The pieces of the first `n` bytes of `s`, split on the separator with
/// empty pieces kept: the empty text is one empty piece, and each separator
/// ends a piece.
pub open spec fn split_prefix(s: Seq<u8>, sep: u8, n: int) -> Seq<Seq<u8>>
    decreases n,
{
    if n <= 0 {
        seq![Seq::<u8>::empty()]
    } else {
        split_step(split_prefix(s, sep, n - 1), s[n - 1], sep)
    }
}

/// The pieces of `s` split on the separator, empty pieces kept, exactly as a
/// single-character text split yields them.
pub open spec fn split_bytes(s: Seq<u8>, sep: u8) -> Seq<Seq<u8>> {
    split_prefix(s, sep, s.len() as int)
}

/// A split has at least one piece.
pub proof fn lemma_split_prefix_len(s: Seq<u8>, sep: u8, n: int)
    ensures
        split_prefix(s, sep, n).len() > 0,
    decreases n,
{
    if n > 0 {
        lemma_split_prefix_len(s, sep, n - 1);
    }
}

/// Splits the bytes on the separator, keeping empty pieces.
pub fn split_bytes_exec(s: &Vec<u8>, sep: u8) -> (r: Vec<Vec<u8>>)
    ensures
        r.deep_view() == split_bytes(s@, sep),
{
    let mut out: Vec<Vec<u8>> = Vec::new();
    let mut cur: Vec<u8> = Vec::new();
    let n = s.len();
    for i in 0..n
        invariant
            n == s@.len(),
            out.deep_view().push(cur@) =~~= split_prefix(s@, sep, i as int),
    {
        proof {
            lemma_split_prefix_len(s@, sep, i as int);
        }
        let ghost prev = out.deep_view().push(cur@);
        if s[i] == sep {
            out.push(cur);
            cur = Vec::new();
            proof {
                assert(out.deep_view().push(cur@) =~~= prev.push(seq![]));
            }
        } else {
            cur.push(s[i]);
            proof {
                assert(out.deep_view().push(cur@) =~~= split_step(prev, s@[i as int], sep));
            }
        }
    }
    let ghost prev = out.deep_view().push(cur@);
    out.push(cur);
    proof {
        assert(out.deep_view() =~~= prev);
    }
    out
}

/// Whether the byte is a decimal digit.
pub open spec fn is_digit(b: u8) -> bool {
    48 <= b <= 57
}

/// Whether every byte is a decimal digit.
pub open spec fn all_digits(s: Seq<u8>) -> bool {
    forall|i: int| 0 <= i < s.len() ==> is_digit(s[i])
}

/// The number the digits denote, most significant first.
pub open spec fn digits_val(s: Seq<u8>) -> int
    decreases s.len(),
{
    if s.len() == 0 {
        0
    } else {
        digits_val(s.drop_last()) * 10 + (s.last() - 48)
    }
}

/// The text with one leading plus sign, if any, taken off.
pub open spec fn unsigned_body(s: Seq<u8>) -> Seq<u8> {
    if s.len() > 0 && s[0] == 43 {
        s.subrange(1, s.len() as int)
    } else {
        s
    }
}

/// The number an unsigned decimal literal denotes: an optional plus sign,
/// then at least one digit, with a value that fits; anything else, overflow
/// included, is no number.
pub open spec fn parse_u32_spec(s: Seq<u8>) -> Option<u32> {
    if unsigned_body(s).len() > 0 && all_digits(unsigned_body(s)) && digits_val(unsigned_body(s))
        <= u32::MAX {
        Some(digits_val(unsigned_body(s)) as u32)
    } else {
        None
    }
}

/// Digits denote a number that is not negative.
pub proof fn lemma_digits_val_nonneg(s: Seq<u8>)
    requires
        all_digits(s),
    ensures
        digits_val(s) >= 0,
    decreases s.len(),
{
    if s.len() > 0 {
        assert(all_digits(s.drop_last()));
        lemma_digits_val_nonneg(s.drop_last());
    }
}

/// A prefix of a digit string denotes no more than the whole string.
pub proof fn lemma_digits_val_take_le(s: Seq<u8>, i: int)
    requires
        all_digits(s),
        0 <= i <= s.len(),
    ensures
        digits_val(s.take(i)) <= digits_val(s),
    decreases s.len(),
{
    if i == s.len() {
        assert(s.take(i) =~= s);
    } else {
        assert(all_digits(s.drop_last()));
        assert(s.take(i) =~= s.drop_last().take(i));
        lemma_digits_val_take_le(s.drop_last(), i);
        lemma_digits_val_nonneg(s.drop_last());
    }
}

/// Parses an unsigned decimal literal: an optional plus sign, then at least
/// one digit; `None` on any other byte and on a value that does not fit.
pub fn parse_u32(s: &Vec<u8>) -> (r: Option<u32>)
    ensures
        r == parse_u32_spec(s@),
{
    let n = s.len();
    let start: usize = if n > 0 && s[0] == 43 {
        1
    } else {
        0
    };
    let ghost body = unsigned_body(s@);
    proof {
        assert(body =~= s@.subrange(start as int, n as int));
    }
    if n == start {
        return None;
    }
    let mut acc: u64 = 0;
    for i in start..n
        invariant
            start <= i <= n,
            n == s@.len(),
            start == 1 ==> n > 0 && s@[0] == 43,
            start == 0 ==> !(s@.len() > 0 && s@[0] == 43),
            body == unsigned_body(s@),
            body == s@.subrange(start as int, n as int),
            all_digits(body.take(i - start)),
            acc == digits_val(body.take(i - start)),
            acc <= u32::MAX,
    {
        let b = s[i];
        if b < 48 || b > 57 {
            proof {
                assert(body[i - start] == s@[i as int]);
                assert(!is_digit(body[i - start]));
                assert(!all_digits(body));
            }
            return None;
        }
        proof {
            assert(body.take(i + 1 - start).drop_last() =~= body.take(i - start));
            assert(body.take(i + 1 - start).last() == s@[i as int]);
        }
        acc = acc * 10 + (b - 48) as u64;
        if acc > 0xFFFF_FFFF {
            proof {
                if all_digits(body) {
                    lemma_digits_val_take_le(body, i + 1 - start);
                    assert(!(digits_val(body) <= u32::MAX));
                }
            }
            return None;
        }
    }
    proof {
        assert(body.take(n - start) =~= body);
    }
    Some(acc as u32)
}

/// One line of a model file, classified: a vertex position, a texture
/// coordinate, a normal, a triangle face of one-based vertex indices, a line
/// to ignore, or a malformed line of a known kind.
#[derive(Clone, Copy, Debug)]
pub enum ObjLine {
    Position(u32, u32, u32),
    TexCoord(u32, u32),
    Normal(u32, u32, u32),
    Face(u32, u32, u32),
    Skip,
    Malformed,
}

/// How one line of a model file reads, from its first space-separated token:
/// `v` with at least three numbers is a position, `vt` with two a texture
/// coordinate, `vn` with three a normal, `f` with three unsigned integers a
/// face, any other first token is ignored, and a known tag whose fields are
/// missing or unparseable is malformed.
pub open spec fn obj_line_of(line: Seq<u8>) -> ObjLine {
    let toks = split_bytes(line, 32);
    if toks[0] == seq![118u8] {
        if toks.len() >= 4 && parse_bits(toks[1]) is Some && parse_bits(toks[2]) is Some
            && parse_bits(toks[3]) is Some {
            ObjLine::Position(
                parse_bits(toks[1])->Some_0,
                parse_bits(toks[2])->Some_0,
                parse_bits(toks[3])->Some_0,
            )
        } else {
            ObjLine::Malformed
        }
    } else if toks[0] == seq![118u8, 116u8] {
        if toks.len() >= 3 && parse_bits(toks[1]) is Some && parse_bits(toks[2]) is Some {
            ObjLine::TexCoord(parse_bits(toks[1])->Some_0, parse_bits(toks[2])->Some_0)
        } else {
            ObjLine::Malformed
        }
    } else if toks[0] == seq![118u8, 110u8] {
        if toks.len() >= 4 && parse_bits(toks[1]) is Some && parse_bits(toks[2]) is Some
            && parse_bits(toks[3]) is Some {
            ObjLine::Normal(
                parse_bits(toks[1])->Some_0,
                parse_bits(toks[2])->Some_0,
                parse_bits(toks[3])->Some_0,
            )
        } else {
            ObjLine::Malformed
        }
    } else if toks[0] == seq![102u8] {
        if toks.len() >= 4 && parse_u32_spec(toks[1]) is Some && parse_u32_spec(toks[2]) is Some
            && parse_u32_spec(toks[3]) is Some {
            ObjLine::Face(
                parse_u32_spec(toks[1])->Some_0,
                parse_u32_spec(toks[2])->Some_0,
                parse_u32_spec(toks[3])->Some_0,
            )
        } else {
            ObjLine::Malformed
        }
    } else {
        ObjLine::Skip
    }
}

/// Classifies one line of a model file.
pub fn parse_obj_line(line: &Vec<u8>) -> (r: ObjLine)
    ensures
        r == obj_line_of(line@),
{
    let toks = split_bytes_exec(line, 32);
    let ghost stoks = split_bytes(line@, 32);
    proof {
        lemma_split_prefix_len(line@, 32, line@.len() as int);
        assert(toks@.len() == stoks.len());
        assert forall|i: int| 0 <= i < toks@.len() implies toks@[i]@ == stoks[i] by {
            assert(toks@[i]@ =~= stoks[i]);
        }
    }
    let t0 = &toks[0];
    if t0.len() == 1 && t0[0] == 118 {
        proof {
            assert(stoks[0] =~= seq![118u8]);
        }
        if toks.len() >= 4 {
            let p1 = crate::scalar::parse32(toks[1].as_slice());
            let p2 = crate::scalar::parse32(toks[2].as_slice());
            let p3 = crate::scalar::parse32(toks[3].as_slice());
            match (p1, p2, p3) {
                (Some(x), Some(y), Some(z)) => ObjLine::Position(x, y, z),
                _ => ObjLine::Malformed,
            }
        } else {
            ObjLine::Malformed
        }
    } else if t0.len() == 2 && t0[0] == 118 && t0[1] == 116 {
        proof {
            assert(stoks[0] =~= seq![118u8, 116u8]);
        }
        if toks.len() >= 3 {
            let p1 = crate::scalar::parse32(toks[1].as_slice());
            let p2 = crate::scalar::parse32(toks[2].as_slice());
            match (p1, p2) {
                (Some(u), Some(v)) => ObjLine::TexCoord(u, v),
                _ => ObjLine::Malformed,
            }
        } else {
            ObjLine::Malformed
        }
    } else if t0.len() == 2 && t0[0] == 118 && t0[1] == 110 {
        proof {
            assert(stoks[0] =~= seq![118u8, 110u8]);
        }
        if toks.len() >= 4 {
            let p1 = crate::scalar::parse32(toks[1].as_slice());
            let p2 = crate::scalar::parse32(toks[2].as_slice());
            let p3 = crate::scalar::parse32(toks[3].as_slice());
            match (p1, p2, p3) {
                (Some(x), Some(y), Some(z)) => ObjLine::Normal(x, y, z),
                _ => ObjLine::Malformed,
            }
        } else {
            ObjLine::Malformed
        }
    } else if t0.len() == 1 && t0[0] == 102 {
        proof {
            assert(stoks[0] =~= seq![102u8]);
        }
        if toks.len() >= 4 {
            let p1 = parse_u32(&toks[1]);
            let p2 = parse_u32(&toks[2]);
            let p3 = parse_u32(&toks[3]);
            match (p1, p2, p3) {
                (Some(a), Some(b), Some(c)) => ObjLine::Face(a, b, c),
                _ => ObjLine::Malformed,
            }
        } else {
            ObjLine::Malformed
        }
    } else {
        ObjLine::Skip
    }
}

/// Whether a classified line can be assembled into mesh data: not malformed,
/// and a face only carries one-based indices.
pub open spec fn obj_line_ok(l: ObjLine) -> bool {
    match l {
        ObjLine::Malformed => false,
        ObjLine::Face(a, b, c) => a >= 1 && b >= 1 && c >= 1,
        _ => true,
    }
}

/// Whether every line of the file can be assembled into mesh data.
pub open spec fn obj_lines_ok(lines: Seq<Seq<u8>>) -> bool {
    forall|i: int| 0 <= i < lines.len() ==> obj_line_ok(#[trigger] obj_line_of(lines[i]))
}

/// The vertex positions the file's lines declare, in order.
pub open spec fn obj_positions(lines: Seq<Seq<u8>>) -> Seq<Vector3>
    decreases lines.len(),
{
    if lines.len() == 0 {
        seq![]
    } else {
        let rest = obj_positions(lines.drop_last());
        match obj_line_of(lines.last()) {
            ObjLine::Position(x, y, z) => rest.push(Vector3 { x, y, z }),
            _ => rest,
        }
    }
}

/// The triangle indices the file's faces declare, in order, each taken from
/// one-based to zero-based.
pub open spec fn obj_indices(lines: Seq<Seq<u8>>) -> Seq<u32>
    decreases lines.len(),
{
    if lines.len() == 0 {
        seq![]
    } else {
        let rest = obj_indices(lines.drop_last());
        match obj_line_of(lines.last()) {
            ObjLine::Face(a, b, c) => rest + seq![
                (a - 1) as u32,
                (b - 1) as u32,
                (c - 1) as u32,
            ],
            _ => rest,
        }
    }
}

/// The vertices the file's lines declare: one per position, in order, with
/// the normal and the texture coordinate zeroed.
pub open spec fn obj_vertices(lines: Seq<Seq<u8>>) -> Seq<Vertex> {
    obj_positions(lines).map_values(
        |p: Vector3|
            Vertex {
                position: p,
                normal: Vector3 { x: F_ZERO, y: F_ZERO, z: F_ZERO },
                texcoord: Vector2 { x: F_ZERO, y: F_ZERO },
            },
    )
}

/// Mesh data: the vertices and the triangle indices into them.
pub struct Mesh {
    pub vertices: Vec<Vertex>,
    pub indices: Vec<u32>,
}

impl Mesh {
    /// Builds the mesh that holds exactly the given vertices and indices.
    pub fn new(vertices: Vec<Vertex>, indices: Vec<u32>) -> (r: Self)
        ensures
            r.vertices == vertices,
            r.indices == indices,
    {
        Self { vertices, indices }
    }

    /// Assembles mesh data from the lines of a model file: one vertex per
    /// position line, the faces' indices taken to zero-based, texture
    /// coordinates and normals read but not kept. A malformed line is a
    /// caller bug, as the original loader halts on one: callers rule them
    /// out, or go through `try_from_file` to test at run time.
    pub fn from_file(lines: &Vec<Vec<u8>>) -> (r: Mesh)
        requires
            obj_lines_ok(lines.deep_view()),
        ensures
            r.vertices@ == obj_vertices(lines.deep_view()),
            r.indices@ == obj_indices(lines.deep_view()),
    {
        let ghost ls = lines.deep_view();
        let mut temp_vertices: Vec<Vector3> = Vec::new();
        let mut indices: Vec<u32> = Vec::new();
        let n = lines.len();
        proof {
            assert(ls.take(0) =~= Seq::<Seq<u8>>::empty());
        }
        for i in 0..n
            invariant
                n == lines@.len(),
                ls == lines.deep_view(),
                ls.len() == n,
                obj_lines_ok(ls),
                temp_vertices@ == obj_positions(ls.take(i as int)),
                indices@ == obj_indices(ls.take(i as int)),
        {
            proof {
                assert(lines@[i as int]@ =~= ls[i as int]);
                assert(ls.take(i + 1).drop_last() =~= ls.take(i as int));
                assert(ls.take(i + 1).last() == ls[i as int]);
                assert(obj_line_ok(obj_line_of(ls[i as int])));
            }
            match parse_obj_line(&lines[i]) {
                ObjLine::Position(x, y, z) => {
                    temp_vertices.push(Vector3 { x, y, z });
                },
                ObjLine::Face(a, b, c) => {
                    indices.push(a - 1);
                    indices.push(b - 1);
                    indices.push(c - 1);
                    proof {
                        assert(indices@ =~= obj_indices(ls.take(i + 1)));
                    }
                },
                ObjLine::TexCoord(_u, _v) => {},
                ObjLine::Normal(_x, _y, _z) => {},
                ObjLine::Skip => {},
                ObjLine::Malformed => {
                    // The precondition rules this arm out; an unverified
                    // caller that breaks it halts here, as the original
                    // loader halts on a malformed line.
                    vstd::pervasive::unreached()
                },
            }
        }
        proof {
            assert(ls.take(n as int) =~= ls);
        }
        let mut vertices: Vec<Vertex> = Vec::new();
        let m = temp_vertices.len();
        for i in 0..m
            invariant
                m == temp_vertices@.len(),
                temp_vertices@ == obj_positions(ls),
                vertices@ == obj_vertices(ls).take(i as int),
        {
            vertices.push(Vertex::new(temp_vertices[i]));
            proof {
                assert(vertices@ =~= obj_vertices(ls).take(i + 1));
            }
        }
        proof {
            assert(obj_vertices(ls).take(m as int) =~= obj_vertices(ls));
        }
        Mesh { vertices, indices }
    }

    /// `from_file` behind a run-time test of every line: `None` exactly when
    /// some line is malformed or a face index is zero, the assembled mesh
    /// otherwise.
    pub fn try_from_file(lines: &Vec<Vec<u8>>) -> (r: Option<Mesh>)
        ensures
            match r {
                Some(m) => obj_lines_ok(lines.deep_view()) && m.vertices@ == obj_vertices(
                    lines.deep_view(),
                ) && m.indices@ == obj_indices(lines.deep_view()),
                None => !obj_lines_ok(lines.deep_view()),
            },
    {
        let ghost ls = lines.deep_view();
        let n = lines.len();
        for i in 0..n
            invariant
                n == lines@.len(),
                ls == lines.deep_view(),
                ls.len() == n,
                forall|j: int| 0 <= j < i ==> obj_line_ok(#[trigger] obj_line_of(ls[j])),
        {
            proof {
                assert(lines@[i as int]@ =~= ls[i as int]);
            }
            let ok = match parse_obj_line(&lines[i]) {
                ObjLine::Malformed => false,
                ObjLine::Face(a, b, c) => a >= 1 && b >= 1 && c >= 1,
                _ => true,
            };
            if !ok {
                return None;
            }
        }
        Some(Self::from_file(lines))
    }
}

} // verus!
