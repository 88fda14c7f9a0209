//! Path templates and their resolution.
//!
//! An operation's path is a fixed alternation of literal segments and
//! named placeholders; each placeholder is replaced by the literal value
//! of the required path parameter of the same name. Path parameters are
//! opaque resource identifiers and are substituted without any escaping.

use vstd::prelude::*;

use crate::util::append_bytes;

verus! {

/// A required path parameter: a placeholder name and the value to put in
/// its place.
pub struct PathParam {
    pub name: Vec<u8>,
    pub value: Vec<u8>,
}

/// One piece of a path template: literal text, or a named placeholder.
pub enum PathPiece {
    Lit(Vec<u8>),
    Param(Vec<u8>),
}

/// The value of the first parameter called `name`, if any.
pub open spec fn lookup_param(params: Seq<PathParam>, name: Seq<u8>) -> Option<Seq<u8>>
    decreases params.len(),
{
    if params.len() == 0 {
        Option::None
    } else if params[0].name@ == name {
        Option::Some(params[0].value@)
    } else {
        lookup_param(params.drop_first(), name)
    }
}

/// Whether every placeholder of the template has a parameter to fill it.
pub open spec fn path_resolvable(pieces: Seq<PathPiece>, params: Seq<PathParam>) -> bool {
    forall|i: int|
        0 <= i < pieces.len() ==> match #[trigger] pieces[i] {
            PathPiece::Lit(_) => true,
            PathPiece::Param(n) => lookup_param(params, n@) is Some,
        }
}

/// The text one piece contributes to the resolved path.
pub open spec fn piece_text(piece: PathPiece, params: Seq<PathParam>) -> Seq<u8> {
    match piece {
        PathPiece::Lit(t) => t@,
        PathPiece::Param(n) => match lookup_param(params, n@) {
            Option::Some(v) => v,
            Option::None => seq![],
        },
    }
}

/// The resolved path: each literal kept, each placeholder substituted.
pub open spec fn resolved_path(pieces: Seq<PathPiece>, params: Seq<PathParam>) -> Seq<u8>
    decreases pieces.len(),
{
    if pieces.len() == 0 {
        seq![]
    } else {
        piece_text(pieces[0], params) + resolved_path(pieces.drop_first(), params)
    }
}

/// The resolved path grows one piece at a time.
pub proof fn lemma_resolved_path_snoc(pieces: Seq<PathPiece>, p: PathPiece, params: Seq<PathParam>)
    ensures
        resolved_path(pieces.push(p), params) == resolved_path(pieces, params) + piece_text(
            p,
            params,
        ),
    decreases pieces.len(),
{
    if pieces.len() == 0 {
        assert(pieces.push(p).drop_first() =~= Seq::<PathPiece>::empty());
        assert(pieces.push(p)[0] == p);
        assert(resolved_path(pieces.push(p), params) == piece_text(p, params) + resolved_path(
            Seq::<PathPiece>::empty(),
            params,
        ));
        assert(resolved_path(pieces.push(p), params) =~= resolved_path(pieces, params)
            + piece_text(p, params));
    } else {
        assert(pieces.push(p).drop_first() =~= pieces.drop_first().push(p));
        lemma_resolved_path_snoc(pieces.drop_first(), p, params);
        assert(resolved_path(pieces.push(p), params) =~= resolved_path(pieces, params)
            + piece_text(p, params));
    }
}

/// Find the value of the path parameter called `name`.
pub fn find_param<'a>(params: &'a Vec<PathParam>, name: &[u8]) -> (r: Option<&'a Vec<u8>>)
    ensures
        match r {
            Option::Some(v) => lookup_param(params@, name@) == Option::Some(v@),
            Option::None => lookup_param(params@, name@) is None,
        },
{
    let mut i: usize = 0;
    proof {
        assert(params@.skip(0) =~= params@);
    }
    while i < params.len()
        invariant
            i <= params@.len(),
            lookup_param(params@, name@) == lookup_param(params@.skip(i as int), name@),
        decreases params@.len() - i,
    {
        proof {
            assert(params@.skip(i as int)[0] == params@[i as int]);
        }
        if crate::util::bytes_eq(params[i].name.as_slice(), name) {
            return Some(&params[i].value);
        }
        proof {
            assert(params@.skip(i as int).drop_first() =~= params@.skip(i + 1 as int));
        }
        i = i + 1;
    }
    proof {
        assert(params@.skip(params@.len() as int).len() == 0);
    }
    None
}

/// Resolve a path template against a parameter list. Returns `None`
/// exactly when some placeholder has no parameter of its name — a
/// violation of the descriptor invariant that is checked here, at
/// construction time, rather than trusted.
pub fn resolve_path(pieces: &Vec<PathPiece>, params: &Vec<PathParam>) -> (r: Option<Vec<u8>>)
    ensures
        r is Some <==> path_resolvable(pieces@, params@),
        r matches Some(v) ==> v@ == resolved_path(pieces@, params@),
{
    let mut out: Vec<u8> = Vec::new();
    let mut i: usize = 0;
    proof {
        assert(out@ == resolved_path(pieces@.subrange(0, 0), params@));
    }
    while i < pieces.len()
        invariant
            i <= pieces@.len(),
            out@ == resolved_path(pieces@.subrange(0, i as int), params@),
            forall|j: int|
                0 <= j < i ==> match #[trigger] pieces@[j] {
                    PathPiece::Lit(_) => true,
                    PathPiece::Param(n) => lookup_param(params@, n@) is Some,
                },
        decreases pieces@.len() - i,
    {
        match &pieces[i] {
            PathPiece::Lit(t) => {
                append_bytes(&mut out, t.as_slice());
            },
            PathPiece::Param(n) => {
                match find_param(params, n.as_slice()) {
                    Option::Some(v) => {
                        append_bytes(&mut out, v.as_slice());
                    },
                    Option::None => {
                        return None;
                    },
                }
            },
        }
        proof {
            lemma_resolved_path_snoc(pieces@.subrange(0, i as int), pieces@[i as int], params@);
            assert(pieces@.subrange(0, i as int).push(pieces@[i as int]) =~= pieces@.subrange(
                0,
                i + 1 as int,
            ));
        }
        i = i + 1;
    }
    proof {
        assert(pieces@.subrange(0, pieces@.len() as int) =~= pieces@);
    }
    Some(out)
}

} // verus!
