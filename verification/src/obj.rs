//! A parser for the subset of the Wavefront OBJ format that the demos use:
//! `v` and `vn` lines carrying three coordinates, and `f` lines carrying
//! triangles whose corners are written `index//index` with equal vertex and
//! normal indices.
//!
//! Coordinates are kept as their validated numeric tokens, so that a caller
//! may convert them to its preferred floating-point type; a token is
//! accepted exactly when it matches the grammar that `f32::from_str`
//! documents. Face indices are converted from the file's 1-based convention
//! to 0-based buffer indices, wrapping around at zero.

use vstd::prelude::*;
use vstd::string::StringExecFns;

use crate::text::{
    is_float_token, split_sep_at, split_ws_at, u16_token, lines_at, float_token, parse_u16_token,
    split_lines, split_sep_parts, split_ws_tokens, str_len,
};

verus! {

/// A parsed model: vertex coordinates, normal coordinates, and flattened
/// triangle indices.
#[derive(Debug)]
pub struct Obj {
    pub vertices: Vec<[String; 3]>,
    pub normals: Vec<[String; 3]>,
    pub indices: Vec<u16>,
}

/// The mathematical content of an `Obj`.
#[verifier::ext_equal]
pub struct ObjModel {
    pub vertices: Seq<Seq<Seq<char>>>,
    pub normals: Seq<Seq<Seq<char>>>,
    pub indices: Seq<u16>,
}

impl View for Obj {
    type V = ObjModel;

    open spec fn view(&self) -> ObjModel {
        ObjModel {
            vertices: self.vertices.deep_view(),
            normals: self.normals.deep_view(),
            indices: self.indices@,
        }
    }
}

/// What can go wrong while reading a model: a failure of the input channel,
/// a line that does not parse, or a construct the format subset leaves out.
#[derive(Debug)]
pub enum ObjError {
    Io(String),
    SyntaxError(String),
    NotSupported,
}

/// The mathematical content of an `ObjError`.
pub enum ObjErrorModel {
    Io(Seq<char>),
    SyntaxError(Seq<char>),
    NotSupported,
}

impl View for ObjError {
    type V = ObjErrorModel;

    open spec fn view(&self) -> ObjErrorModel {
        match self {
            ObjError::Io(s) => ObjErrorModel::Io(s@),
            ObjError::SyntaxError(s) => ObjErrorModel::SyntaxError(s@),
            ObjError::NotSupported => ObjErrorModel::NotSupported,
        }
    }
}

impl ObjError {
    /// The one-line rendering of the error.
    pub fn display_message(&self) -> (r: String)
        ensures
            r@ == (match self@ {
                ObjErrorModel::Io(s) => "IO error: "@ + s,
                ObjErrorModel::SyntaxError(s) => "Syntax Error in "@ + s,
                ObjErrorModel::NotSupported => "Feature not supported"@,
            }),
    {
        match self {
            ObjError::Io(err) => {
                let mut r = String::from_str("IO error: ");
                r.append(err.as_str());
                r
            },
            ObjError::SyntaxError(s) => {
                let mut r = String::from_str("Syntax Error in ");
                r.append(s.as_str());
                r
            },
            ObjError::NotSupported => String::from_str("Feature not supported"),
        }
    }

    /// The short description of the error's kind.
    pub fn description(&self) -> (r: &str)
        ensures
            r@ == (match self@ {
                ObjErrorModel::Io(s) => s,
                ObjErrorModel::SyntaxError(_) => "Syntax Error"@,
                ObjErrorModel::NotSupported => "Feature not supported"@,
            }),
    {
        match self {
            ObjError::Io(err) => err.as_str(),
            ObjError::SyntaxError(_) => "Syntax Error",
            ObjError::NotSupported => "Feature not supported",
        }
    }
}

/// A face index is converted from the OBJ file's 1-based convention to the
/// 0-based convention of vertex buffers, wrapping around at zero.
pub open spec fn dec_index(v: u16) -> u16 {
    if v == 0 {
        0xffff
    } else {
        (v - 1) as u16
    }
}

/// One-based face indices become zero-based buffer indices.
pub fn to_buffer_index(v: u16) -> (r: u16)
    ensures
        r == dec_index(v),
{
    if v == 0 {
        0xffff
    } else {
        v - 1
    }
}

/// A line opening with the given keyword character and a space.
pub open spec fn starts_kw1(l: Seq<char>, c: char) -> bool {
    l.len() >= 2 && l[0] == c && l[1] == ' '
}

/// A line opening with `vn` and a space.
pub open spec fn starts_vn(l: Seq<char>) -> bool {
    l.len() >= 3 && l[0] == 'v' && l[1] == 'n' && l[2] == ' '
}

fn line_starts_kw1(l: &str, n: usize, c: char) -> (r: bool)
    requires
        n == l@.len(),
    ensures
        r == starts_kw1(l@, c),
{
    n >= 2 && l.get_char(0) == c && l.get_char(1) == ' '
}

fn line_starts_vn(l: &str, n: usize) -> (r: bool)
    requires
        n == l@.len(),
    ensures
        r == starts_vn(l@),
{
    n >= 3 && l.get_char(0) == 'v' && l.get_char(1) == 'n' && l.get_char(2) == ' '
}

/// The three coordinate tokens of a `v` or `vn` line, if the line has
/// exactly three tokens after the keyword and each is a floating-point
/// token.
pub open spec fn vec3_tokens(l: Seq<char>) -> Option<Seq<Seq<char>>> {
    let all = split_ws_at(l, 0);
    if all.len() < 1 {
        None
    } else {
        let toks = all.skip(1);
        if toks.len() == 3 && is_float_token(toks[0]) && is_float_token(toks[1]) && is_float_token(
            toks[2],
        ) {
            Some(toks)
        } else {
            None
        }
    }
}

/// What `parse_vec` returns on a given line.
pub open spec fn vec3_value(l: Seq<char>) -> Result<Seq<Seq<char>>, ObjErrorModel> {
    match vec3_tokens(l) {
        Some(t) => Ok(t),
        None => Err(ObjErrorModel::SyntaxError(l)),
    }
}

/// What `parse_index` returns on a given corner token: the pieces around
/// `//` must be exactly two equal decimal indices; the shared index is
/// returned 0-based.
pub open spec fn index_value(t: Seq<char>) -> Result<u16, ObjErrorModel> {
    let parts = split_sep_at(t, 0);
    if exists|k: int| 0 <= k < parts.len() && u16_token(#[trigger] parts[k]) is None {
        Err(ObjErrorModel::SyntaxError(t))
    } else if parts.len() != 2 {
        Err(ObjErrorModel::SyntaxError(t))
    } else if u16_token(parts[0]) != u16_token(parts[1]) {
        Err(ObjErrorModel::NotSupported)
    } else {
        Ok(dec_index(u16_token(parts[0])->Some_0))
    }
}

/// The corner indices of a face line's tokens, stopping at the first bad
/// token.
pub open spec fn face_indices(toks: Seq<Seq<char>>) -> Result<Seq<u16>, ObjErrorModel>
    decreases toks.len(),
{
    if toks.len() == 0 {
        Ok(seq![])
    } else {
        match index_value(toks[0]) {
            Ok(v) => match face_indices(toks.skip(1)) {
                Ok(rest) => Ok(seq![v] + rest),
                Err(e) => Err(e),
            },
            Err(e) => Err(e),
        }
    }
}

/// What `parse_face` returns on a given line: the three corner indices of a
/// triangle.
pub open spec fn face_value(l: Seq<char>) -> Result<Seq<u16>, ObjErrorModel> {
    let all = split_ws_at(l, 0);
    if all.len() < 1 {
        Err(ObjErrorModel::SyntaxError(l))
    } else {
        match face_indices(all.skip(1)) {
            Ok(vs) => if vs.len() == 3 {
                Ok(vs)
            } else {
                Err(ObjErrorModel::SyntaxError(l))
            },
            Err(e) => Err(e),
        }
    }
}

pub open spec fn empty_model() -> ObjModel {
    ObjModel { vertices: seq![], normals: seq![], indices: seq![] }
}

/// How one line extends the model read so far: `v` and `vn` lines add a
/// coordinate triple, `f` lines add three indices, other lines are ignored.
pub open spec fn line_step(m: ObjModel, l: Seq<char>) -> Result<ObjModel, ObjErrorModel> {
    if starts_kw1(l, 'v') {
        match vec3_value(l) {
            Ok(t) => Ok(ObjModel { vertices: m.vertices + seq![t], ..m }),
            Err(e) => Err(e),
        }
    } else if starts_vn(l) {
        match vec3_value(l) {
            Ok(t) => Ok(ObjModel { normals: m.normals + seq![t], ..m }),
            Err(e) => Err(e),
        }
    } else if starts_kw1(l, 'f') {
        match face_value(l) {
            Ok(vs) => Ok(ObjModel { indices: m.indices + vs, ..m }),
            Err(e) => Err(e),
        }
    } else {
        Ok(m)
    }
}

/// The model read from a sequence of lines, stopping at the first bad line.
pub open spec fn parse_from(ls: Seq<Seq<char>>, m: ObjModel) -> Result<ObjModel, ObjErrorModel>
    decreases ls.len(),
{
    if ls.len() == 0 {
        Ok(m)
    } else {
        match line_step(m, ls[0]) {
            Ok(m2) => parse_from(ls.skip(1), m2),
            Err(e) => Err(e),
        }
    }
}

/// The model a whole input denotes.
pub open spec fn parse_spec(s: Seq<char>) -> Result<ObjModel, ObjErrorModel> {
    parse_from(lines_at(s, 0), empty_model())
}

pub open spec fn index_result_view(r: Result<u16, ObjError>) -> Result<u16, ObjErrorModel> {
    match r {
        Ok(v) => Ok(v),
        Err(e) => Err(e@),
    }
}

/// Reads one face corner such as `7//7`: two equal 1-based indices around a
/// double slash, returned 0-based.
pub fn parse_index(s: &str) -> (r: Result<u16, ObjError>)
    ensures
        index_result_view(r) == index_value(s@),
{
    let parts = split_sep_parts(s);
    let ghost pmodel = split_sep_at(s@, 0);
    let mut vals: Vec<u16> = Vec::new();
    let mut k: usize = 0;
    while k < parts.len()
        invariant
            parts.deep_view() == pmodel,
            pmodel == split_sep_at(s@, 0),
            k <= parts.len(),
            vals@.len() == k,
            forall|i: int|
                0 <= i < k ==> u16_token(#[trigger] pmodel[i]) is Some && vals@[i] == dec_index(
                    u16_token(pmodel[i])->Some_0,
                ),
        decreases parts.len() - k,
    {
        proof {
            assert(parts.deep_view()[k as int] == parts@[k as int]@);
        }
        match parse_u16_token(parts[k].as_str()) {
            Some(v) => {
                vals.push(to_buffer_index(v));
            },
            None => {
                return Err(ObjError::SyntaxError(s.to_owned()));
            },
        }
        k = k + 1;
    }
    if parts.len() != 2 {
        return Err(ObjError::SyntaxError(s.to_owned()));
    }
    let a = vals[0];
    let b = vals[1];
    if a != b {
        proof {
            let ra = u16_token(pmodel[0])->Some_0;
            let rb = u16_token(pmodel[1])->Some_0;
            assert(dec_index(ra) != dec_index(rb) ==> ra != rb);
        }
        return Err(ObjError::NotSupported);
    }
    proof {
        let ra = u16_token(pmodel[0])->Some_0;
        let rb = u16_token(pmodel[1])->Some_0;
        assert(dec_index(ra) == dec_index(rb) ==> ra == rb);
    }
    Ok(a)
}

pub open spec fn face_result_view(r: Result<Vec<u16>, ObjError>) -> Result<
    Seq<u16>,
    ObjErrorModel,
> {
    match r {
        Ok(v) => Ok(v@),
        Err(e) => Err(e@),
    }
}

/// Reads one `f` line: exactly three corners, each a pair of equal indices.
pub fn parse_face(line: &str) -> (r: Result<Vec<u16>, ObjError>)
    ensures
        face_result_view(r) == face_value(line@),
{
    let toks = split_ws_tokens(line);
    let ghost all = split_ws_at(line@, 0);
    if toks.len() == 0 {
        return Err(ObjError::SyntaxError(line.to_owned()));
    }
    let mut vals: Vec<u16> = Vec::new();
    let mut k: usize = 1;
    while k < toks.len()
        invariant
            toks.deep_view() == all,
            all == split_ws_at(line@, 0),
            all.len() >= 1,
            1 <= k <= toks.len(),
            vals@.len() == k - 1,
            face_indices(all.skip(1)) == (match face_indices(all.skip(k as int)) {
                Ok(rest) => Ok::<Seq<u16>, ObjErrorModel>(vals@ + rest),
                Err(e) => Err::<Seq<u16>, ObjErrorModel>(e),
            }),
        decreases toks.len() - k,
    {
        proof {
            assert(toks.deep_view()[k as int] == toks@[k as int]@);
            assert(all.skip(k as int)[0] == all[k as int]);
            assert(all.skip(k as int).skip(1) =~= all.skip(k + 1));
        }
        match parse_index(toks[k].as_str()) {
            Ok(v) => {
                let ghost old_vals = vals@;
                vals.push(v);
                proof {
                    if face_indices(all.skip(k + 1)) is Ok {
                        let rest = face_indices(all.skip(k + 1))->Ok_0;
                        assert(old_vals + (seq![v] + rest) =~= vals@ + rest);
                    }
                }
            },
            Err(e) => {
                return Err(e);
            },
        }
        k = k + 1;
    }
    proof {
        assert(all.skip(toks.len() as int).len() == 0);
        assert(vals@ + seq![] =~= vals@);
    }
    if vals.len() != 3 {
        return Err(ObjError::SyntaxError(line.to_owned()));
    }
    Ok(vals)
}

pub open spec fn vec3_result_view(r: Result<[String; 3], ObjError>) -> Result<
    Seq<Seq<char>>,
    ObjErrorModel,
> {
    match r {
        Ok(a) => Ok(a.deep_view()),
        Err(e) => Err(e@),
    }
}

/// Reads one `v` or `vn` line: exactly three coordinate tokens after the
/// keyword, each a floating-point token.
pub fn parse_vec(line: &str) -> (r: Result<[String; 3], ObjError>)
    ensures
        vec3_result_view(r) == vec3_value(line@),
{
    let mut toks = split_ws_tokens(line);
    let ghost all = split_ws_at(line@, 0);
    if toks.len() != 4 {
        return Err(ObjError::SyntaxError(line.to_owned()));
    }
    proof {
        assert(toks.deep_view()[1] == toks@[1]@);
        assert(toks.deep_view()[2] == toks@[2]@);
        assert(toks.deep_view()[3] == toks@[3]@);
        assert(all.skip(1)[0] == all[1]);
        assert(all.skip(1)[1] == all[2]);
        assert(all.skip(1)[2] == all[3]);
    }
    if !float_token(toks[1].as_str()) || !float_token(toks[2].as_str()) || !float_token(
        toks[3].as_str(),
    ) {
        return Err(ObjError::SyntaxError(line.to_owned()));
    }
    let z = toks.remove(3);
    let y = toks.remove(2);
    let x = toks.remove(1);
    let arr = [x, y, z];
    proof {
        assert(arr.deep_view() =~= all.skip(1));
    }
    Ok(arr)
}

pub open spec fn parse_result_view(r: Result<Obj, ObjError>) -> Result<ObjModel, ObjErrorModel> {
    match r {
        Ok(o) => Ok(o@),
        Err(e) => Err(e@),
    }
}

/// Reads a whole OBJ text: `v`, `vn` and `f` lines in any order, other
/// lines ignored, stopping at the first line that does not parse.
pub fn parse(data: &str) -> (r: Result<Obj, ObjError>)
    ensures
        parse_result_view(r) == parse_spec(data@),
{
    let lines = split_lines(data);
    let ghost lmodel = lines_at(data@, 0);
    let mut result = Obj { vertices: Vec::new(), normals: Vec::new(), indices: Vec::new() };
    proof {
        assert(result@ =~~= empty_model());
        assert(lmodel.skip(0) =~= lmodel);
    }
    let mut k: usize = 0;
    while k < lines.len()
        invariant
            lines.deep_view() == lmodel,
            lmodel == lines_at(data@, 0),
            k <= lines.len(),
            parse_from(lmodel, empty_model()) == parse_from(lmodel.skip(k as int), result@),
        decreases lines.len() - k,
    {
        proof {
            assert(lines.deep_view()[k as int] == lines@[k as int]@);
            assert(lmodel.skip(k as int)[0] == lmodel[k as int]);
            assert(lmodel.skip(k as int).skip(1) =~= lmodel.skip(k + 1));
        }
        let line = lines[k].as_str();
        let n = str_len(line);
        let ghost pre = result@;
        if line_starts_kw1(line, n, 'v') {
            match parse_vec(line) {
                Ok(t) => {
                    result.vertices.push(t);
                    proof {
                        assert(result@.vertices =~= pre.vertices + seq![t.deep_view()]);
                    }
                },
                Err(e) => {
                    return Err(e);
                },
            }
        } else if line_starts_vn(line, n) {
            match parse_vec(line) {
                Ok(t) => {
                    result.normals.push(t);
                    proof {
                        assert(result@.normals =~= pre.normals + seq![t.deep_view()]);
                    }
                },
                Err(e) => {
                    return Err(e);
                },
            }
        } else if line_starts_kw1(line, n, 'f') {
            match parse_face(line) {
                Ok(vs) => {
                    let ghost vsm = vs@;
                    let mut vi: usize = 0;
                    let ghost pre_idx = result.indices@;
                    while vi < vs.len()
                        invariant
                            vi <= vs.len(),
                            vs@ == vsm,
                            result.vertices.deep_view() == pre.vertices,
                            result.normals.deep_view() == pre.normals,
                            pre_idx == pre.indices,
                            result.indices@ == pre_idx + vsm.take(vi as int),
                        decreases vs.len() - vi,
                    {
                        result.indices.push(vs[vi]);
                        proof {
                            assert(pre_idx + vsm.take(vi as int) + seq![vsm[vi as int]] =~= pre_idx
                                + vsm.take(vi + 1));
                        }
                        vi = vi + 1;
                    }
                    proof {
                        assert(vsm.take(vs@.len() as int) =~= vsm);
                    }
                },
                Err(e) => {
                    return Err(e);
                },
            }
        }
        k = k + 1;
    }
    proof {
        assert(lmodel.skip(lines@.len() as int).len() == 0);
    }
    Ok(result)
}

} // verus!
