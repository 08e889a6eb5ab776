//! The structured model of an annotated block and of the generated output.
//!
//! The host toolchain's syntax tree is opaque to the verifier, so the token
//! bridge flattens the parts the pipeline reads into this plain model before
//! calling in: every type, pattern, generic parameter and body is carried as
//! its token text, and every node that an error can point at carries an
//! opaque span handle (`usize`) that the bridge can map back to a real
//! source location.  The pipeline never looks inside the token text; it only
//! validates shapes, extracts fields and moves text through verbatim.
//!
//! Each executable type has a ghost mirror (`...View`) over `Seq<char>` and
//! `Seq`, reached through `View`/`DeepView`; the pipeline's contracts are
//! stated over those mirrors.

use vstd::prelude::*;

verus! {

/// One parameter of a handler's signature.
#[derive(Debug, PartialEq, Eq)]
pub enum Param {
    /// A plain, explicitly typed, non-receiver parameter: `pat: ty`.
    Typed { pat: String, ty: String, span: usize },
    /// A receiver-style parameter (`self`, `&self`, ...).
    Receiver { span: usize },
    /// A parameter given without an explicit declared type.
    Untyped { span: usize },
}

/// Ghost mirror of [`Param`].
pub enum ParamView {
    Typed { pat: Seq<char>, ty: Seq<char>, span: usize },
    Receiver { span: usize },
    Untyped { span: usize },
}

impl View for Param {
    type V = ParamView;

    open spec fn view(&self) -> ParamView {
        match self {
            Param::Typed { pat, ty, span } => ParamView::Typed { pat: pat@, ty: ty@, span: *span },
            Param::Receiver { span } => ParamView::Receiver { span: *span },
            Param::Untyped { span } => ParamView::Untyped { span: *span },
        }
    }
}

impl DeepView for Param {
    type V = ParamView;

    open spec fn deep_view(&self) -> ParamView {
        self.view()
    }
}

/// The generic-parameter declarations of a handler: the declared parameters
/// (each carried as the token text of one parameter, bounds included) and
/// the predicates of the `where`-clause, if any (without the `where`
/// keyword).
#[derive(Debug, PartialEq, Eq)]
pub struct Generics {
    pub params: Vec<String>,
    pub where_clause: Option<String>,
}

/// Ghost mirror of [`Generics`].
pub struct GenericsView {
    pub params: Seq<Seq<char>>,
    pub where_clause: Option<Seq<char>>,
}

impl View for Generics {
    type V = GenericsView;

    open spec fn view(&self) -> GenericsView {
        GenericsView {
            params: self.params.deep_view(),
            where_clause: match self.where_clause {
                Option::Some(w) => Option::Some(w@),
                Option::None => Option::None,
            },
        }
    }
}

impl DeepView for Generics {
    type V = GenericsView;

    open spec fn deep_view(&self) -> GenericsView {
        self.view()
    }
}

/// A function-like member of the annotated block: its full declared
/// signature and its body, carried verbatim.
#[derive(Debug, PartialEq, Eq)]
pub struct Method {
    /// The declared function name.
    pub name: String,
    /// Its own generic-parameter declarations.
    pub generics: Generics,
    /// Its parameter list, in declaration order.
    pub params: Vec<Param>,
    /// The span handle of the parameter list as a whole.
    pub params_span: usize,
    /// The declared return type, or `None` where the signature has none.
    pub ret: Option<String>,
    /// The token text of the body, braces included.
    pub body: String,
}

/// Ghost mirror of [`Method`].
pub struct MethodView {
    pub name: Seq<char>,
    pub generics: GenericsView,
    pub params: Seq<ParamView>,
    pub params_span: usize,
    pub ret: Option<Seq<char>>,
    pub body: Seq<char>,
}

impl View for Method {
    type V = MethodView;

    open spec fn view(&self) -> MethodView {
        MethodView {
            name: self.name@,
            generics: self.generics@,
            params: self.params.deep_view(),
            params_span: self.params_span,
            ret: match self.ret {
                Option::Some(t) => Option::Some(t@),
                Option::None => Option::None,
            },
            body: self.body@,
        }
    }
}

impl DeepView for Method {
    type V = MethodView;

    open spec fn deep_view(&self) -> MethodView {
        self.view()
    }
}

/// One declared member of the annotated block.
#[derive(Debug, PartialEq, Eq)]
pub enum ImplMember {
    /// A function-like member: a conversion handler candidate.
    Method(Method),
    /// Any other item kind; always rejected.
    Other { span: usize },
}

/// Ghost mirror of [`ImplMember`].
pub enum ImplMemberView {
    Method(MethodView),
    Other { span: usize },
}

impl View for ImplMember {
    type V = ImplMemberView;

    open spec fn view(&self) -> ImplMemberView {
        match self {
            ImplMember::Method(m) => ImplMemberView::Method(m@),
            ImplMember::Other { span } => ImplMemberView::Other { span: *span },
        }
    }
}

impl DeepView for ImplMember {
    type V = ImplMemberView;

    open spec fn deep_view(&self) -> ImplMemberView {
        self.view()
    }
}

/// The named trait a block declares it implements, where it does: only
/// direct impl blocks are accepted, so this is always a validation error.
#[derive(Debug, PartialEq, Eq)]
pub struct TraitPath {
    pub path: String,
    pub span: usize,
}

/// Ghost mirror of [`TraitPath`].
pub struct TraitPathView {
    pub path: Seq<char>,
    pub span: usize,
}

impl View for TraitPath {
    type V = TraitPathView;

    open spec fn view(&self) -> TraitPathView {
        TraitPathView { path: self.path@, span: self.span }
    }
}

impl DeepView for TraitPath {
    type V = TraitPathView;

    open spec fn deep_view(&self) -> TraitPathView {
        self.view()
    }
}

/// The raw annotated block, as the token bridge hands it in.
#[derive(Debug, PartialEq, Eq)]
pub struct AnnotatedBlock {
    /// The span handle of the unsafe qualifier, where one was written.
    pub unsafety: Option<usize>,
    /// The declared trait path, where the block is a trait impl.
    pub trait_path: Option<TraitPath>,
    /// The token text of the block's self type.
    pub self_type: String,
    /// The declared members, in declaration order.
    pub members: Vec<ImplMember>,
}

/// Ghost mirror of [`AnnotatedBlock`].
pub struct AnnotatedBlockView {
    pub unsafety: Option<usize>,
    pub trait_path: Option<TraitPathView>,
    pub self_type: Seq<char>,
    pub members: Seq<ImplMemberView>,
}

impl View for AnnotatedBlock {
    type V = AnnotatedBlockView;

    open spec fn view(&self) -> AnnotatedBlockView {
        AnnotatedBlockView {
            unsafety: self.unsafety,
            trait_path: match self.trait_path {
                Option::Some(t) => Option::Some(t@),
                Option::None => Option::None,
            },
            self_type: self.self_type@,
            members: self.members.deep_view(),
        }
    }
}

impl DeepView for AnnotatedBlock {
    type V = AnnotatedBlockView;

    open spec fn deep_view(&self) -> AnnotatedBlockView {
        self.view()
    }
}

/// A handler whose signature shape has been validated: its extracted
/// message type and the original method, unchanged.
#[derive(Debug, PartialEq, Eq)]
pub struct ParsedFromHandler {
    /// The declared type of the handler's sole parameter.
    pub message_type: String,
    /// The handler as declared.
    pub original_method: Method,
}

/// Ghost mirror of [`ParsedFromHandler`].
pub struct ParsedFromHandlerView {
    pub message_type: Seq<char>,
    pub original_method: MethodView,
}

impl View for ParsedFromHandler {
    type V = ParsedFromHandlerView;

    open spec fn view(&self) -> ParsedFromHandlerView {
        ParsedFromHandlerView {
            message_type: self.message_type@,
            original_method: self.original_method@,
        }
    }
}

impl DeepView for ParsedFromHandler {
    type V = ParsedFromHandlerView;

    open spec fn deep_view(&self) -> ParsedFromHandlerView {
        self.view()
    }
}

/// A handler prepared for emission: its generics hoisted out into a
/// separate descriptor and its method canonicalized.
#[derive(Debug, PartialEq, Eq)]
pub struct ProcessedFromHandler {
    /// The declared type of the handler's sole parameter.
    pub message_type: String,
    /// The handler's original generics, to bind on the generated impl block.
    pub generics: Generics,
    /// The handler renamed to the conversion trait's required method, with
    /// its own generic-parameter list and `where`-clause cleared.
    pub recv_method: Method,
}

/// Ghost mirror of [`ProcessedFromHandler`].
pub struct ProcessedFromHandlerView {
    pub message_type: Seq<char>,
    pub generics: GenericsView,
    pub recv_method: MethodView,
}

impl View for ProcessedFromHandler {
    type V = ProcessedFromHandlerView;

    open spec fn view(&self) -> ProcessedFromHandlerView {
        ProcessedFromHandlerView {
            message_type: self.message_type@,
            generics: self.generics@,
            recv_method: self.recv_method@,
        }
    }
}

impl DeepView for ProcessedFromHandler {
    type V = ProcessedFromHandlerView;

    open spec fn deep_view(&self) -> ProcessedFromHandlerView {
        self.view()
    }
}

/// A fully validated block: the self type and the handlers, processed, in
/// declaration order.
#[derive(Debug, PartialEq, Eq)]
pub struct FromImplBlock {
    pub self_type: String,
    pub functions: Vec<ProcessedFromHandler>,
}

/// Ghost mirror of [`FromImplBlock`].
pub struct FromImplBlockView {
    pub self_type: Seq<char>,
    pub functions: Seq<ProcessedFromHandlerView>,
}

impl View for FromImplBlock {
    type V = FromImplBlockView;

    open spec fn view(&self) -> FromImplBlockView {
        FromImplBlockView {
            self_type: self.self_type@,
            functions: self.functions.deep_view(),
        }
    }
}

impl DeepView for FromImplBlock {
    type V = FromImplBlockView;

    open spec fn deep_view(&self) -> FromImplBlockView {
        self.view()
    }
}

/// One generated trait-implementation block:
/// `impl <generics> From<message_type> for self_type where ... { method }`.
#[derive(Debug, PartialEq, Eq)]
pub struct GeneratedImpl {
    /// The hoisted generics, bound at the impl-block level.
    pub generics: Generics,
    /// The bound source type of the conversion.
    pub message_type: String,
    /// The bound target type: the block's self type.
    pub self_type: String,
    /// The canonicalized method, embedded unchanged.
    pub method: Method,
}

/// Ghost mirror of [`GeneratedImpl`].
pub struct GeneratedImplView {
    pub generics: GenericsView,
    pub message_type: Seq<char>,
    pub self_type: Seq<char>,
    pub method: MethodView,
}

impl View for GeneratedImpl {
    type V = GeneratedImplView;

    open spec fn view(&self) -> GeneratedImplView {
        GeneratedImplView {
            generics: self.generics@,
            message_type: self.message_type@,
            self_type: self.self_type@,
            method: self.method@,
        }
    }
}

impl DeepView for GeneratedImpl {
    type V = GeneratedImplView;

    open spec fn deep_view(&self) -> GeneratedImplView {
        self.view()
    }
}

/// The final output: one independent implementation block per handler, in
/// declaration order, with no shared state across blocks.
#[derive(Debug, PartialEq, Eq)]
pub struct GeneratedFragment {
    pub impls: Vec<GeneratedImpl>,
}

/// Ghost mirror of [`GeneratedFragment`].
pub struct GeneratedFragmentView {
    pub impls: Seq<GeneratedImplView>,
}

impl View for GeneratedFragment {
    type V = GeneratedFragmentView;

    open spec fn view(&self) -> GeneratedFragmentView {
        GeneratedFragmentView { impls: self.impls.deep_view() }
    }
}

impl DeepView for GeneratedFragment {
    type V = GeneratedFragmentView;

    open spec fn deep_view(&self) -> GeneratedFragmentView {
        self.view()
    }
}

} // verus!
