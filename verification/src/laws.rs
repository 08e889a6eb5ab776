//! Properties of the pipeline, proved from its ghost mirror.
//!
//! Each law is stated over [`spec_process_attribute`] (or the stage mirror
//! it concerns) and so holds of the executable pipeline through the
//! stages' own contracts.

use vstd::prelude::*;

use crate::errors::MacroError;
use crate::model::AnnotatedBlockView;
use crate::model::GeneratedFragmentView;
use crate::model::ImplMemberView;
use crate::model::MethodView;
use crate::model::ParamView;
use crate::model::ParsedFromHandlerView;
use crate::model::ProcessedFromHandlerView;
use crate::model::TraitPathView;
use crate::pipeline::spec_from_name;
use crate::pipeline::spec_generate_output;
use crate::pipeline::spec_impl_of;
use crate::pipeline::spec_interpret_from_fn;
use crate::pipeline::spec_member;
use crate::pipeline::spec_parse_impl_block;
use crate::pipeline::spec_parse_members;
use crate::pipeline::spec_process_attribute;

verus! {

/// On a successful member list, every member was accepted, one processed
/// handler stands for each, and they stand in declaration order.
pub proof fn lemma_parse_members_ok(items: Seq<ImplMemberView>, hs: Seq<ProcessedFromHandlerView>)
    requires
        spec_parse_members(items) == Result::Ok::<Seq<ProcessedFromHandlerView>, MacroError>(hs),
    ensures
        hs.len() == items.len(),
        forall|i: int|
            0 <= i < items.len() ==> spec_member(items[i]) == Result::Ok::<
                ProcessedFromHandlerView,
                MacroError,
            >(hs[i]),
    decreases items.len(),
{
    if items.len() == 0 {
    } else {
        match spec_member(items[0]) {
            Result::Ok(h) => {
                match spec_parse_members(items.drop_first()) {
                    Result::Ok(rest) => {
                        lemma_parse_members_ok(items.drop_first(), rest);
                        assert(hs == seq![h] + rest);
                        assert forall|i: int| 0 <= i < items.len() implies spec_member(items[i])
                            == Result::Ok::<ProcessedFromHandlerView, MacroError>(hs[i]) by {
                            if i == 0 {
                                assert(hs[0] == h);
                            } else {
                                assert(items.drop_first()[i - 1] == items[i]);
                                assert(rest[i - 1] == hs[i]);
                            }
                        }
                    },
                    Result::Err(_) => {
                        assert(false);
                    },
                }
            },
            Result::Err(_) => {
                assert(false);
            },
        }
    }
}

/// Fail-fast: where the first failing member fails with `e`, the whole
/// member list fails with `e`, whatever stands after it.
pub proof fn lemma_first_error_wins(items: Seq<ImplMemberView>, i: int, e: MacroError)
    requires
        0 <= i < items.len(),
        forall|j: int| 0 <= j < i ==> spec_member(items[j]) is Ok,
        spec_member(items[i]) == Result::Err::<ProcessedFromHandlerView, MacroError>(e),
    ensures
        spec_parse_members(items) == Result::Err::<Seq<ProcessedFromHandlerView>, MacroError>(e),
    decreases i,
{
    if i == 0 {
    } else {
        assert(spec_member(items[0]) is Ok);
        assert forall|j: int| 0 <= j < i - 1 implies spec_member(items.drop_first()[j]) is Ok by {
            assert(items.drop_first()[j] == items[j + 1]);
        }
        assert(items.drop_first()[i - 1] == items[i]);
        lemma_first_error_wins(items.drop_first(), i - 1, e);
    }
}

/// A well-formed annotated block with `N` members yields exactly `N`
/// independent implementation blocks, one per handler, in declaration
/// order.
pub proof fn lemma_one_impl_per_handler(b: AnnotatedBlockView, frag: GeneratedFragmentView)
    requires
        spec_process_attribute(b) == Result::Ok::<GeneratedFragmentView, MacroError>(frag),
    ensures
        frag.impls.len() == b.members.len(),
        forall|i: int|
            0 <= i < b.members.len() ==> (#[trigger] spec_member(b.members[i]) matches Result::Ok(
                h,
            ) && frag.impls[i] == spec_impl_of(h, b.self_type)),
{
    match spec_parse_impl_block(b) {
        Result::Ok(ib) => {
            match spec_parse_members(b.members) {
                Result::Ok(fs) => {
                    lemma_parse_members_ok(b.members, fs);
                    assert(frag == spec_generate_output(ib));
                    assert(frag.impls.len() == fs.len());
                    assert forall|i: int| 0 <= i < b.members.len() implies (
                    #[trigger] spec_member(b.members[i]) matches Result::Ok(h) && frag.impls[i]
                        == spec_impl_of(h, b.self_type)) by {
                        assert(spec_member(b.members[i]) == Result::Ok::<
                            ProcessedFromHandlerView,
                            MacroError,
                        >(fs[i]));
                        assert(frag.impls[i] == spec_impl_of(fs[i], b.self_type));
                    }
                },
                Result::Err(_) => {
                    assert(false);
                },
            }
        },
        Result::Err(_) => {
            assert(false);
        },
    }
}

/// In every generated implementation block, the block's generic-parameter
/// list (and `where`-clause) equals the handler's original one, and the
/// embedded method's own generic binding sites are empty.
pub proof fn lemma_generics_hoisted(b: AnnotatedBlockView, frag: GeneratedFragmentView)
    requires
        spec_process_attribute(b) == Result::Ok::<GeneratedFragmentView, MacroError>(frag),
    ensures
        forall|i: int|
            0 <= i < b.members.len() ==> (#[trigger] b.members[i] matches ImplMemberView::Method(
                m,
            ) && frag.impls[i].generics == m.generics
                && frag.impls[i].method.generics.params.len() == 0
                && frag.impls[i].method.generics.where_clause is None),
{
    lemma_one_impl_per_handler(b, frag);
    assert forall|i: int| 0 <= i < b.members.len() implies (#[trigger] b.members[i] matches
    ImplMemberView::Method(m) && frag.impls[i].generics == m.generics
        && frag.impls[i].method.generics.params.len() == 0
        && frag.impls[i].method.generics.where_clause is None) by {
        assert(spec_member(b.members[i]) is Ok);
        match b.members[i] {
            ImplMemberView::Method(m) => {
                match spec_interpret_from_fn(m) {
                    Result::Ok(p) => {
                        assert(p.original_method == m);
                    },
                    Result::Err(_) => {
                        assert(false);
                    },
                }
            },
            ImplMemberView::Other { .. } => {
                assert(false);
            },
        }
    }
}

/// In every generated implementation block, the bound source type is the
/// type of the handler's sole declared parameter and the bound target type
/// is the block's self type.
pub proof fn lemma_source_and_target_types(b: AnnotatedBlockView, frag: GeneratedFragmentView)
    requires
        spec_process_attribute(b) == Result::Ok::<GeneratedFragmentView, MacroError>(frag),
    ensures
        forall|i: int|
            0 <= i < b.members.len() ==> (#[trigger] b.members[i] matches ImplMemberView::Method(
                m,
            ) && m.params.len() == 1 && (m.params[0] matches ParamView::Typed { ty, .. }
                && frag.impls[i].message_type == ty
                && frag.impls[i].self_type == b.self_type)),
{
    lemma_one_impl_per_handler(b, frag);
    assert forall|i: int| 0 <= i < b.members.len() implies (#[trigger] b.members[i] matches
    ImplMemberView::Method(m) && m.params.len() == 1 && (m.params[0] matches ParamView::Typed {
        ty,
        ..
    } && frag.impls[i].message_type == ty && frag.impls[i].self_type == b.self_type)) by {
        assert(spec_member(b.members[i]) is Ok);
        match b.members[i] {
            ImplMemberView::Method(m) => {
                match spec_interpret_from_fn(m) {
                    Result::Ok(p) => {
                        match m.params[0] {
                            ParamView::Typed { .. } => {},
                            ParamView::Receiver { .. } => {
                                assert(false);
                            },
                            ParamView::Untyped { .. } => {
                                assert(false);
                            },
                        }
                    },
                    Result::Err(_) => {
                        assert(false);
                    },
                }
            },
            ImplMemberView::Other { .. } => {
                assert(false);
            },
        }
    }
}

/// Every generated implementation block embeds the handler it came from
/// unchanged but for canonicalization: the method keeps its parameters,
/// return type and body, under the conversion trait's required name.
pub proof fn lemma_method_embedded_unchanged(b: AnnotatedBlockView, frag: GeneratedFragmentView)
    requires
        spec_process_attribute(b) == Result::Ok::<GeneratedFragmentView, MacroError>(frag),
    ensures
        forall|i: int|
            0 <= i < b.members.len() ==> (#[trigger] b.members[i] matches ImplMemberView::Method(
                m,
            ) && frag.impls[i].method.name == spec_from_name()
                && frag.impls[i].method.params == m.params
                && frag.impls[i].method.ret == m.ret
                && frag.impls[i].method.body == m.body),
{
    lemma_one_impl_per_handler(b, frag);
    assert forall|i: int| 0 <= i < b.members.len() implies (#[trigger] b.members[i] matches
    ImplMemberView::Method(m) && frag.impls[i].method.name == spec_from_name()
        && frag.impls[i].method.params == m.params && frag.impls[i].method.ret == m.ret
        && frag.impls[i].method.body == m.body) by {
        assert(spec_member(b.members[i]) is Ok);
        match b.members[i] {
            ImplMemberView::Method(m) => {
                match spec_interpret_from_fn(m) {
                    Result::Ok(p) => {
                        assert(p.original_method == m);
                    },
                    Result::Err(_) => {
                        assert(false);
                    },
                }
            },
            ImplMemberView::Other { .. } => {
                assert(false);
            },
        }
    }
}

/// A block written with an unsafe qualifier always fails with the
/// disallowed-qualifier error at that qualifier, whatever else it holds.
pub proof fn lemma_unsafe_block_rejected(b: AnnotatedBlockView, span: usize)
    requires
        b.unsafety == Option::Some(span),
    ensures
        spec_process_attribute(b) == Result::Err::<GeneratedFragmentView, MacroError>(
            MacroError::DisallowedQualifier { span },
        ),
{
}

/// A block (not itself marked unsafe) that declares a named trait always
/// fails with the disallowed-trait-form error at the trait path.
pub proof fn lemma_trait_block_rejected(b: AnnotatedBlockView, t: TraitPathView)
    requires
        b.unsafety is None,
        b.trait_path == Option::Some(t),
    ensures
        spec_process_attribute(b) == Result::Err::<GeneratedFragmentView, MacroError>(
            MacroError::DisallowedTraitForm { span: t.span },
        ),
{
}

/// A handler whose parameter list does not have exactly one entry always
/// fails interpretation with the wrong-arity error at the parameter list.
pub proof fn lemma_wrong_arity_rejected(m: MethodView)
    requires
        m.params.len() != 1,
    ensures
        spec_interpret_from_fn(m) == Result::Err::<ParsedFromHandlerView, MacroError>(
            MacroError::WrongArity { span: m.params_span },
        ),
{
}

/// A handler whose sole parameter is receiver-style, or carries no
/// explicit type, always fails interpretation with the
/// untyped-or-receiver-parameter error at that parameter.
pub proof fn lemma_receiver_or_untyped_param_rejected(m: MethodView, span: usize)
    requires
        m.params.len() == 1,
        m.params[0] == (ParamView::Receiver { span }) || m.params[0] == (ParamView::Untyped {
            span,
        }),
    ensures
        spec_interpret_from_fn(m) == Result::Err::<ParsedFromHandlerView, MacroError>(
            MacroError::UntypedOrReceiverParam { span },
        ),
{
}

} // verus!

