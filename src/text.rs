//! Joining pieces of generated text.
use vstd::prelude::*;
use crate::model::{Param, ParamView, params_view};

verus! {

/// The pieces one after the other, with `sep` between each two neighbours.
pub open spec fn join(parts: Seq<Seq<char>>, sep: Seq<char>) -> Seq<char>
    decreases parts.len(),
{
    if parts.len() == 0 {
        Seq::empty()
    } else if parts.len() == 1 {
        parts[0]
    } else {
        join(parts.drop_last(), sep) + sep + parts.last()
    }
}

pub open spec fn strings_view(parts: Seq<String>) -> Seq<Seq<char>> {
    parts.map_values(|s: String| s@)
}

/// Joins `parts` with `sep` between each two neighbours.
pub fn join_with(parts: &Vec<String>, sep: &str) -> (r: String)
    ensures
        r@ == join(strings_view(parts@), sep@),
{
    let ghost v = strings_view(parts@);
    let mut out = String::new();
    let mut i: usize = 0;
    while i < parts.len()
        invariant
            i <= parts.len(),
            v == strings_view(parts@),
            out@ == join(v.take(i as int), sep@),
        decreases parts.len() - i,
    {
        proof {
            assert(v.take(i + 1).drop_last() =~= v.take(i as int));
            assert(v.take(i + 1).last() == parts@[i as int]@);
        }
        if i > 0 {
            out.append(sep);
        } else {
            assert(out@ =~= Seq::<char>::empty());
        }
        out.append(parts[i].as_str());
        i += 1;
        assert(out@ =~= join(v.take(i as int), sep@));
    }
    assert(v.take(i as int) =~= v);
    out
}

/// `name: type`, as a parameter stands in a signature or a variant.
pub open spec fn param_text(p: ParamView) -> Seq<char> {
    p.name + ": "@ + p.ty
}

/// The typed parameters, separated by commas.
pub open spec fn params_text(ps: Seq<ParamView>) -> Seq<char> {
    join(ps.map_values(|p: ParamView| param_text(p)), ", "@)
}

/// The parameter names alone, separated by commas.
pub open spec fn names_text(ps: Seq<ParamView>) -> Seq<char> {
    join(ps.map_values(|p: ParamView| p.name), ", "@)
}

/// Renders the typed parameters `ps` as `a: A, b: B`.
pub fn render_params(ps: &Vec<Param>) -> (r: String)
    ensures
        r@ == params_text(params_view(ps@)),
{
    let mut parts: Vec<String> = Vec::new();
    let mut i: usize = 0;
    while i < ps.len()
        invariant
            i <= ps.len(),
            strings_view(parts@) =~= params_view(ps@.take(i as int)).map_values(
                |p: ParamView| param_text(p),
            ),
        decreases ps.len() - i,
    {
        let mut s = ps[i].name.clone();
        s.append(": ");
        s.append(ps[i].ty.as_str());
        let ghost before = parts@;
        parts.push(s);
        proof {
            assert(strings_view(before.push(s)) =~= strings_view(before).push(s@));
            assert(params_view(ps@.take(i + 1)) =~= params_view(ps@.take(i as int)).push(
                ps@[i as int]@,
            ));
        }
        i += 1;
        assert(strings_view(parts@) =~= params_view(ps@.take(i as int)).map_values(
            |p: ParamView| param_text(p),
        ));
    }
    assert(ps@.take(i as int) =~= ps@);
    join_with(&parts, ", ")
}

/// Renders the names of the parameters `ps` as `a, b`.
pub fn render_names(ps: &Vec<Param>) -> (r: String)
    ensures
        r@ == names_text(params_view(ps@)),
{
    let mut parts: Vec<String> = Vec::new();
    let mut i: usize = 0;
    while i < ps.len()
        invariant
            i <= ps.len(),
            strings_view(parts@) =~= params_view(ps@.take(i as int)).map_values(
                |p: ParamView| p.name,
            ),
        decreases ps.len() - i,
    {
        let ghost before = parts@;
        let s = ps[i].name.clone();
        parts.push(s);
        proof {
            assert(strings_view(before.push(s)) =~= strings_view(before).push(s@));
            assert(params_view(ps@.take(i + 1)) =~= params_view(ps@.take(i as int)).push(
                ps@[i as int]@,
            ));
        }
        i += 1;
        assert(strings_view(parts@) =~= params_view(ps@.take(i as int)).map_values(
            |p: ParamView| p.name,
        ));
    }
    assert(ps@.take(i as int) =~= ps@);
    join_with(&parts, ", ")
}

} // verus!
