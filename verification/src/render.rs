//! The textual form of the generated fragment.
//!
//! The fragment's structured blocks are spelled out here as source text,
//! one independent implementation block per handler:
//! `impl <generics> ::std::convert::From<message_type> for self_type
//! where ... { fn from(...) -> ... { ... } }`, one line per block.  The
//! token bridge only has to hand the text to the host toolchain's
//! tokenizer.

use vstd::prelude::*;

use crate::model::GeneratedFragment;
use crate::model::GeneratedImpl;
use crate::model::GeneratedImplView;
use crate::model::Param;
use crate::model::ParamView;

verus! {

broadcast use vstd::string::group_string_axioms;

/// The items joined by the separator, in order.
pub open spec fn spec_join(items: Seq<Seq<char>>, sep: Seq<char>) -> Seq<char>
    decreases items.len(),
{
    if items.len() == 0 {
        Seq::empty()
    } else if items.len() == 1 {
        items[0]
    } else {
        spec_join(items.drop_last(), sep) + sep + items.last()
    }
}

/// The text of one rendered parameter.
pub open spec fn spec_render_param(p: ParamView) -> Seq<char> {
    match p {
        ParamView::Typed { pat, ty, .. } => pat + ": "@ + ty,
        ParamView::Receiver { .. } => "self"@,
        ParamView::Untyped { .. } => "_"@,
    }
}

/// The texts of all rendered parameters, in order.
pub open spec fn spec_rendered_params(params: Seq<ParamView>) -> Seq<Seq<char>> {
    params.map_values(|p: ParamView| spec_render_param(p))
}

/// The generic-parameter list of an impl block's head: empty where the
/// block binds no parameter, `<...> ` otherwise.
pub open spec fn spec_generics_prefix(params: Seq<Seq<char>>) -> Seq<char> {
    if params.len() == 0 {
        Seq::empty()
    } else {
        "<"@ + spec_join(params, ", "@) + "> "@
    }
}

/// The `where`-clause of an impl block's head, where it has one.
pub open spec fn spec_where_suffix(w: Option<Seq<char>>) -> Seq<char> {
    match w {
        Option::Some(p) => " where "@ + p,
        Option::None => Seq::empty(),
    }
}

/// The declared return type of the embedded method, where it has one.
pub open spec fn spec_ret_suffix(r: Option<Seq<char>>) -> Seq<char> {
    match r {
        Option::Some(t) => " -> "@ + t,
        Option::None => Seq::empty(),
    }
}

/// The text of one rendered implementation block.
pub open spec fn spec_render_impl(g: GeneratedImplView) -> Seq<char> {
    "impl "@ + spec_generics_prefix(g.generics.params) + "::std::convert::From<"@
        + g.message_type + "> for "@ + g.self_type + spec_where_suffix(g.generics.where_clause)
        + " { fn "@ + g.method.name + "("@ + spec_join(spec_rendered_params(g.method.params), ", "@)
        + ")"@ + spec_ret_suffix(g.method.ret) + " "@ + g.method.body + " }"@
}

/// The text of a whole fragment: each block's text, in order, each
/// followed by a line break.
pub open spec fn spec_render_fragment(impls: Seq<GeneratedImplView>) -> Seq<char>
    decreases impls.len(),
{
    if impls.len() == 0 {
        Seq::empty()
    } else {
        spec_render_fragment(impls.drop_last()) + spec_render_impl(impls.last()) + "\n"@
    }
}

fn join_strings(items: &Vec<String>, sep: &str) -> (r: String)
    ensures
        r@ == spec_join(items.deep_view(), sep@),
{
    let mut out = String::new();
    let mut k: usize = 0;
    while k < items.len()
        invariant
            k <= items.len(),
            out@ == spec_join(items.deep_view().take(k as int), sep@),
        decreases items.len() - k,
    {
        if k > 0 {
            out.append(sep);
        }
        out.append(items[k].as_str());
        k = k + 1;
        proof {
            let dv = items.deep_view();
            assert(dv.take(k as int).drop_last() =~= dv.take(k as int - 1));
            assert(dv.take(k as int).last() == dv[k as int - 1]);
            assert(dv[k as int - 1] == items@[k as int - 1]@);
        }
    }
    proof {
        assert(items.deep_view().take(items@.len() as int) =~= items.deep_view());
    }
    out
}

fn render_params(params: &Vec<Param>) -> (r: Vec<String>)
    ensures
        r.deep_view() == spec_rendered_params(params.deep_view()),
{
    let mut out: Vec<String> = Vec::new();
    let mut k: usize = 0;
    while k < params.len()
        invariant
            k <= params.len(),
            out.deep_view() =~= spec_rendered_params(params.deep_view().take(k as int)),
        decreases params.len() - k,
    {
        let text = match &params[k] {
            Param::Typed { pat, ty, .. } => {
                let mut s = pat.clone();
                s.append(": ");
                s.append(ty.as_str());
                s
            },
            Param::Receiver { .. } => "self".to_string(),
            Param::Untyped { .. } => "_".to_string(),
        };
        out.push(text);
        k = k + 1;
        proof {
            let dv = params.deep_view();
            assert(dv.take(k as int).drop_last() =~= dv.take(k as int - 1));
            assert(spec_rendered_params(dv.take(k as int)) =~= spec_rendered_params(
                dv.take(k as int - 1),
            ).push(spec_render_param(dv[k as int - 1])));
        }
    }
    proof {
        assert(params.deep_view().take(params@.len() as int) =~= params.deep_view());
    }
    out
}

/// The source text of one generated implementation block.
pub fn render_impl(g: &GeneratedImpl) -> (r: String)
    ensures
        r@ == spec_render_impl(g@),
{
    let mut out = "impl ".to_string();
    if g.generics.params.len() > 0 {
        out.append("<");
        let joined = join_strings(&g.generics.params, ", ");
        out.append(joined.as_str());
        out.append("> ");
        proof {
            assert(out@ == "impl "@ + spec_generics_prefix(g@.generics.params));
        }
    } else {
        proof {
            assert(out@ =~= "impl "@ + spec_generics_prefix(g@.generics.params));
        }
    }
    out.append("::std::convert::From<");
    out.append(g.message_type.as_str());
    out.append("> for ");
    out.append(g.self_type.as_str());
    match &g.generics.where_clause {
        Option::Some(w) => {
            out.append(" where ");
            out.append(w.as_str());
        },
        Option::None => {},
    }
    out.append(" { fn ");
    out.append(g.method.name.as_str());
    out.append("(");
    let rendered = render_params(&g.method.params);
    let joined = join_strings(&rendered, ", ");
    out.append(joined.as_str());
    out.append(")");
    match &g.method.ret {
        Option::Some(t) => {
            out.append(" -> ");
            out.append(t.as_str());
        },
        Option::None => {},
    }
    out.append(" ");
    out.append(g.method.body.as_str());
    out.append(" }");
    proof {
        assert(out@ =~= spec_render_impl(g@));
    }
    out
}

/// The source text of a whole generated fragment, one implementation
/// block per line, in declaration order.
pub fn render_fragment(frag: &GeneratedFragment) -> (r: String)
    ensures
        r@ == spec_render_fragment(frag@.impls),
{
    let mut out = String::new();
    let mut k: usize = 0;
    while k < frag.impls.len()
        invariant
            k <= frag.impls.len(),
            out@ == spec_render_fragment(frag.impls.deep_view().take(k as int)),
        decreases frag.impls.len() - k,
    {
        let text = render_impl(&frag.impls[k]);
        out.append(text.as_str());
        out.append("\n");
        k = k + 1;
        proof {
            let dv = frag.impls.deep_view();
            assert(dv.take(k as int).drop_last() =~= dv.take(k as int - 1));
            assert(dv.take(k as int).last() == dv[k as int - 1]);
        }
    }
    proof {
        assert(frag.impls.deep_view().take(frag.impls@.len() as int) =~= frag.impls.deep_view());
    }
    out
}

} // verus!
