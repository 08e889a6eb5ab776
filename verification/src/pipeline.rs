//! The transformation pipeline: validate the annotated block's shape,
//! extract per-handler metadata and assemble the generated fragment.
//!
//! Each executable stage is specified against a ghost mirror function over
//! the model's views; the mirrors compose into [`spec_process_attribute`],
//! the full meaning of one invocation.  The pipeline is fail-fast: the
//! first validation error found aborts the whole block, and no output is
//! produced for it.

use vstd::prelude::*;

use crate::errors::MacroError;
use crate::model::AnnotatedBlock;
use crate::model::AnnotatedBlockView;
use crate::model::FromImplBlock;
use crate::model::FromImplBlockView;
use crate::model::GeneratedFragment;
use crate::model::GeneratedFragmentView;
use crate::model::GeneratedImpl;
use crate::model::GeneratedImplView;
use crate::model::Generics;
use crate::model::GenericsView;
use crate::model::ImplMember;
use crate::model::ImplMemberView;
use crate::model::Method;
use crate::model::MethodView;
use crate::model::Param;
use crate::model::ParamView;
use crate::model::ParsedFromHandler;
use crate::model::ParsedFromHandlerView;
use crate::model::ProcessedFromHandler;
use crate::model::ProcessedFromHandlerView;

verus! {

broadcast use vstd::string::group_string_axioms;

/// The view of a pipeline result: the payload's view on success, the error
/// itself (it is plain data) on failure.
pub open spec fn res_view<T: View>(r: Result<T, MacroError>) -> Result<T::V, MacroError> {
    match r {
        Result::Ok(v) => Result::Ok(v@),
        Result::Err(e) => Result::Err(e),
    }
}

/// The token text of the canonical empty/unit value type.
pub open spec fn spec_unit_type() -> Seq<char> {
    "()"@
}

/// The required method name of the conversion trait.
pub open spec fn spec_from_name() -> Seq<char> {
    "from"@
}

/// What [`get_fn_arg_type`] extracts: the declared type of a plain typed
/// parameter; anything receiver-style or untyped is rejected.
pub open spec fn spec_get_fn_arg_type(arg: ParamView) -> Result<Seq<char>, MacroError> {
    match arg {
        ParamView::Typed { ty, .. } => Result::Ok(ty),
        ParamView::Receiver { span } => Result::Err(MacroError::UntypedOrReceiverParam { span }),
        ParamView::Untyped { span } => Result::Err(MacroError::UntypedOrReceiverParam { span }),
    }
}

/// What [`get_fn_return_type`] yields: the declared return type, or the
/// unit type where the signature declares none.
pub open spec fn spec_get_fn_return_type(ret: Option<Seq<char>>) -> Seq<char> {
    match ret {
        Option::Some(t) => t,
        Option::None => spec_unit_type(),
    }
}

/// What [`interpret_from_fn`] yields: the handler's message type where its
/// parameter list has exactly one plain typed entry, the located error
/// otherwise.
pub open spec fn spec_interpret_from_fn(m: MethodView) -> Result<ParsedFromHandlerView, MacroError> {
    if m.params.len() != 1 {
        Result::Err(MacroError::WrongArity { span: m.params_span })
    } else {
        match spec_get_fn_arg_type(m.params[0]) {
            Result::Ok(ty) => Result::Ok(
                ParsedFromHandlerView { message_type: ty, original_method: m },
            ),
            Result::Err(e) => Result::Err(e),
        }
    }
}

/// What [`process_from_handler`] yields: the handler's generics hoisted
/// into a separate descriptor, its method renamed to the conversion trait's
/// required name, and the method's own generic binding sites cleared.
pub open spec fn spec_process_from_handler(p: ParsedFromHandlerView) -> ProcessedFromHandlerView {
    ProcessedFromHandlerView {
        message_type: p.message_type,
        generics: p.original_method.generics,
        recv_method: MethodView {
            name: spec_from_name(),
            generics: GenericsView { params: Seq::empty(), where_clause: Option::None },
            params: p.original_method.params,
            params_span: p.original_method.params_span,
            ret: p.original_method.ret,
            body: p.original_method.body,
        },
    }
}

/// The fate of one block member: a function-like member is interpreted and
/// processed; any other item kind is rejected where it stands.
pub open spec fn spec_member(m: ImplMemberView) -> Result<ProcessedFromHandlerView, MacroError> {
    match m {
        ImplMemberView::Method(meth) => match spec_interpret_from_fn(meth) {
            Result::Ok(p) => Result::Ok(spec_process_from_handler(p)),
            Result::Err(e) => Result::Err(e),
        },
        ImplMemberView::Other { span } => Result::Err(MacroError::UnsupportedItem { span }),
    }
}

/// The processed handlers of a member list, in declaration order, or the
/// first member's error.
pub open spec fn spec_parse_members(items: Seq<ImplMemberView>) -> Result<
    Seq<ProcessedFromHandlerView>,
    MacroError,
>
    decreases items.len(),
{
    if items.len() == 0 {
        Result::Ok(Seq::empty())
    } else {
        match spec_member(items[0]) {
            Result::Err(e) => Result::Err(e),
            Result::Ok(h) => match spec_parse_members(items.drop_first()) {
                Result::Err(e) => Result::Err(e),
                Result::Ok(rest) => Result::Ok(seq![h] + rest),
            },
        }
    }
}

/// What [`parse_impl_block`] yields: the validated block, or the first
/// located error among (in this order) the unsafe qualifier, the declared
/// trait path, and the members checked in declaration order.
pub open spec fn spec_parse_impl_block(b: AnnotatedBlockView) -> Result<
    FromImplBlockView,
    MacroError,
> {
    match b.unsafety {
        Option::Some(span) => Result::Err(MacroError::DisallowedQualifier { span }),
        Option::None => match b.trait_path {
            Option::Some(t) => Result::Err(MacroError::DisallowedTraitForm { span: t.span }),
            Option::None => match spec_parse_members(b.members) {
                Result::Ok(fs) => Result::Ok(
                    FromImplBlockView { self_type: b.self_type, functions: fs },
                ),
                Result::Err(e) => Result::Err(e),
            },
        },
    }
}

/// The one implementation block generated for one processed handler.
pub open spec fn spec_impl_of(h: ProcessedFromHandlerView, self_type: Seq<char>) -> GeneratedImplView {
    GeneratedImplView {
        generics: h.generics,
        message_type: h.message_type,
        self_type: self_type,
        method: h.recv_method,
    }
}

/// What [`generate_output`] yields: one implementation block per handler,
/// in declaration order.
pub open spec fn spec_generate_output(b: FromImplBlockView) -> GeneratedFragmentView {
    GeneratedFragmentView {
        impls: b.functions.map_values(|h: ProcessedFromHandlerView| spec_impl_of(h, b.self_type)),
    }
}

/// The meaning of one whole invocation on one annotated block.
pub open spec fn spec_process_attribute(b: AnnotatedBlockView) -> Result<
    GeneratedFragmentView,
    MacroError,
> {
    match spec_parse_impl_block(b) {
        Result::Ok(ib) => Result::Ok(spec_generate_output(ib)),
        Result::Err(e) => Result::Err(e),
    }
}

/// The token text of the canonical empty/unit value type.
pub fn unit_type() -> (r: String)
    ensures
        r@ == spec_unit_type(),
{
    "()".to_string()
}

/// Extracts the declared type of one parameter; a receiver-style or
/// untyped parameter is a located validation error.
pub fn get_fn_arg_type(arg: &Param) -> (r: Result<String, MacroError>)
    ensures
        res_view(r) == spec_get_fn_arg_type(arg@),
{
    match arg {
        Param::Typed { ty, .. } => Result::Ok(ty.clone()),
        Param::Receiver { span } => Result::Err(
            MacroError::UntypedOrReceiverParam { span: *span },
        ),
        Param::Untyped { span } => Result::Err(
            MacroError::UntypedOrReceiverParam { span: *span },
        ),
    }
}

/// The declared return type of a signature, with a missing one read as the
/// unit type.
pub fn get_fn_return_type(ret: &Option<String>) -> (r: String)
    ensures
        r@ == spec_get_fn_return_type(ret.deep_view()),
{
    match ret {
        Option::Some(ty) => ty.clone(),
        Option::None => unit_type(),
    }
}

/// Validates one handler's signature shape: exactly one parameter, which
/// must be a plain typed non-receiver one, and extracts its type.
pub fn interpret_from_fn(item: Method) -> (r: Result<ParsedFromHandler, MacroError>)
    ensures
        res_view(r) == spec_interpret_from_fn(item@),
{
    if item.params.len() != 1 {
        return Result::Err(MacroError::WrongArity { span: item.params_span });
    }
    let message_type = match get_fn_arg_type(&item.params[0]) {
        Result::Ok(t) => t,
        Result::Err(e) => {
            return Result::Err(e);
        },
    };
    Result::Ok(ParsedFromHandler { message_type, original_method: item })
}

/// Rewrites a validated handler for emission: hoists its generics into a
/// separate descriptor, renames it to the conversion trait's required
/// method name and clears its own generic-parameter list and
/// `where`-clause, which now bind on the enclosing impl block instead.
pub fn process_from_handler(data: ParsedFromHandler) -> (r: ProcessedFromHandler)
    ensures
        r@ == spec_process_from_handler(data@),
{
    let ParsedFromHandler { message_type, original_method } = data;
    let Method { name: _, generics, params, params_span, ret, body } = original_method;
    let recv_method = Method {
        name: "from".to_string(),
        generics: Generics { params: Vec::new(), where_clause: Option::None },
        params,
        params_span,
        ret,
        body,
    };
    proof {
        assert(recv_method.generics.params.deep_view() =~= Seq::<Seq<char>>::empty());
    }
    ProcessedFromHandler { message_type, generics, recv_method }
}

/// [`spec_parse_members`] restated around a prefix of already-processed
/// handlers, as the parsing loop accumulates them.
pub open spec fn spec_parse_members_with(
    prefix: Seq<ProcessedFromHandlerView>,
    items: Seq<ImplMemberView>,
) -> Result<Seq<ProcessedFromHandlerView>, MacroError> {
    match spec_parse_members(items) {
        Result::Ok(rest) => Result::Ok(prefix + rest),
        Result::Err(e) => Result::Err(e),
    }
}

proof fn lemma_parse_members_with_nil(items: Seq<ImplMemberView>)
    ensures
        spec_parse_members_with(Seq::empty(), items) == spec_parse_members(items),
{
    match spec_parse_members(items) {
        Result::Ok(rest) => {
            assert(Seq::<ProcessedFromHandlerView>::empty() + rest =~= rest);
        },
        Result::Err(_) => {},
    }
}

proof fn lemma_parse_members_with_step(
    prefix: Seq<ProcessedFromHandlerView>,
    items: Seq<ImplMemberView>,
    h: ProcessedFromHandlerView,
)
    requires
        items.len() > 0,
        spec_member(items[0]) == Result::Ok::<ProcessedFromHandlerView, MacroError>(h),
    ensures
        spec_parse_members_with(prefix, items) == spec_parse_members_with(
            prefix.push(h),
            items.drop_first(),
        ),
{
    match spec_parse_members(items.drop_first()) {
        Result::Ok(rest) => {
            assert(prefix + (seq![h] + rest) =~= prefix.push(h) + rest);
        },
        Result::Err(_) => {},
    }
}

proof fn lemma_parse_members_with_done(prefix: Seq<ProcessedFromHandlerView>)
    ensures
        spec_parse_members_with(prefix, Seq::empty()) == Result::Ok::<
            Seq<ProcessedFromHandlerView>,
            MacroError,
        >(prefix),
{
    assert(spec_parse_members(Seq::empty()) == Result::Ok::<
        Seq<ProcessedFromHandlerView>,
        MacroError,
    >(Seq::empty()));
    assert(prefix + Seq::empty() =~= prefix);
}

/// Validates and decomposes the annotated block: rejects an unsafe
/// qualifier, then a declared trait path, then checks each member in
/// declaration order, interpreting and processing each handler; the first
/// error aborts the whole block.
#[verifier::loop_isolation(false)]
pub fn parse_impl_block(input: AnnotatedBlock) -> (r: Result<FromImplBlock, MacroError>)
    ensures
        res_view(r) == spec_parse_impl_block(input@),
{
    let AnnotatedBlock { unsafety, trait_path, self_type, members } = input;
    if let Option::Some(span) = unsafety {
        return Result::Err(MacroError::DisallowedQualifier { span });
    }
    if let Option::Some(t) = trait_path {
        return Result::Err(MacroError::DisallowedTraitForm { span: t.span });
    }
    let mut members = members;
    let ghost all = members.deep_view();
    let mut functions: Vec<ProcessedFromHandler> = Vec::new();
    proof {
        assert(functions.deep_view() =~= Seq::<ProcessedFromHandlerView>::empty());
        lemma_parse_members_with_nil(all);
    }
    while members.len() > 0
        invariant
            spec_parse_members(all) == spec_parse_members_with(
                functions.deep_view(),
                members.deep_view(),
            ),
        decreases members.len(),
    {
        let ghost pre = members.deep_view();
        let ghost prefix = functions.deep_view();
        let m = members.remove(0);
        proof {
            assert(m.deep_view() == pre[0]);
            assert(members.deep_view() =~= pre.drop_first());
        }
        match m {
            ImplMember::Method(method) => {
                let parsed = match interpret_from_fn(method) {
                    Result::Ok(p) => p,
                    Result::Err(e) => {
                        return Result::Err(e);
                    },
                };
                let processed = process_from_handler(parsed);
                proof {
                    lemma_parse_members_with_step(prefix, pre, processed@);
                }
                functions.push(processed);
                proof {
                    assert(functions.deep_view() =~= prefix.push(processed@));
                }
            },
            ImplMember::Other { span } => {
                proof {
                    assert(spec_parse_members(pre) == Result::Err::<
                        Seq<ProcessedFromHandlerView>,
                        MacroError,
                    >(MacroError::UnsupportedItem { span }));
                }
                return Result::Err(MacroError::UnsupportedItem { span });
            },
        }
    }
    proof {
        assert(members.deep_view() =~= Seq::<ImplMemberView>::empty());
        lemma_parse_members_with_done(functions.deep_view());
    }
    Result::Ok(FromImplBlock { self_type, functions })
}

/// Assembles the output fragment: one independent implementation block per
/// processed handler, in declaration order, each binding the hoisted
/// generics, the handler's message type as the source type and the block's
/// self type as the target type.
#[verifier::loop_isolation(false)]
pub fn generate_output(block: FromImplBlock) -> (r: GeneratedFragment)
    ensures
        r@ == spec_generate_output(block@),
{
    let FromImplBlock { self_type, functions } = block;
    let mut functions = functions;
    let ghost all = functions.deep_view();
    let ghost st = self_type@;
    let mut impls: Vec<GeneratedImpl> = Vec::new();
    while functions.len() > 0
        invariant
            impls.deep_view().len() + functions.deep_view().len() == all.len(),
            functions.deep_view() =~= all.skip(impls.deep_view().len() as int),
            forall|i: int|
                0 <= i < impls.deep_view().len() ==> impls.deep_view()[i] == spec_impl_of(
                    all[i],
                    st,
                ),
            self_type@ == st,
        decreases functions.len(),
    {
        let ghost k = impls.deep_view().len() as int;
        let ghost pre = functions.deep_view();
        let h = functions.remove(0);
        proof {
            assert(h.deep_view() == pre[0]);
            assert(pre[0] == all[k]);
            assert(functions.deep_view() =~= pre.drop_first());
            assert(pre.drop_first() =~= all.skip(k + 1));
        }
        let ProcessedFromHandler { message_type, generics, recv_method } = h;
        let bound_self_type = self_type.clone();
        let ghost gi = impls.deep_view();
        impls.push(
            GeneratedImpl { generics, message_type, self_type: bound_self_type, method: recv_method },
        );
        proof {
            assert(impls.deep_view() =~= gi.push(spec_impl_of(all[k], st)));
        }
    }
    let r = GeneratedFragment { impls };
    proof {
        assert(r@.impls =~= spec_generate_output(block@).impls);
    }
    r
}

/// One whole invocation on one annotated block: the attribute-argument
/// payload of the invocation site is accepted and ignored; the block is
/// validated and the generated fragment assembled, or the first located
/// error returned, with no output for the block.
pub fn actual_process_attribute(_attributes: String, input: AnnotatedBlock) -> (r: Result<
    GeneratedFragment,
    MacroError,
>)
    ensures
        res_view(r) == spec_process_attribute(input@),
{
    let interpreted = match parse_impl_block(input) {
        Result::Ok(b) => b,
        Result::Err(e) => {
            return Result::Err(e);
        },
    };
    Result::Ok(generate_output(interpreted))
}

} // verus!
