//! The authorization pass: which declaration is signed off, and which risky
//! constructs lie outside it.

use crate::codec::{encoded_text, Scheme};
use crate::sign::{detached_signature, SignatureKeyPair};
use crate::tree::{NodeId, SyntaxTree};
use crate::validator::{
    canonical, code_accepted, lemma_canonical_push, same_text, Validator,
};
use vstd::prelude::*;
use vstd::string::StringExecFns;

verus! {

/// The name of the attribute that carries a launch code.
pub const LAUNCH_CODE: &'static str = "launch_code";

/// A region of the source text, from `lo` up to `hi`.
#[derive(Clone, Copy, Debug, PartialEq, Eq, Structural)]
pub struct Span {
    pub lo: u32,
    pub hi: u32,
}

/// An attribute of a declaration. Documentation comments are attributes too.
pub struct Attribute {
    /// The attribute's name.
    pub name: String,
    /// The text after `=`, where the attribute has the form `name = "text"`.
    pub value: Option<String>,
    /// Where the attribute stands.
    pub span: Span,
    /// The source text of `span`, or `None` where it cannot be had.
    pub text: Option<Vec<u8>>,
}

/// A declaration that may carry a launch code: an item, the signature of a
/// trait method, or a trait method with its default body.
pub struct Declaration {
    pub attrs: Vec<Attribute>,
    /// Where the declaration stands.
    pub span: Span,
    /// The source text of `span`, or `None` where it cannot be had.
    pub text: Option<Vec<u8>>,
    pub id: NodeId,
}

/// An item of a trait.
pub enum TraitItem {
    /// A method without a body.
    Required(Declaration),
    /// A method with a default body.
    Provided(Declaration),
    /// An associated type.
    Type,
}

/// Whether a block is an `unsafe` block.
#[derive(Clone, Copy, Debug, PartialEq, Eq, Structural)]
pub enum BlockCheckMode {
    Default,
    Unsafe,
}

/// A block of statements.
pub struct Block {
    pub rules: BlockCheckMode,
    pub span: Span,
    pub id: NodeId,
}

/// Whether a function is declared `unsafe`.
#[derive(Clone, Copy, Debug, PartialEq, Eq, Structural)]
pub enum Unsafety {
    Unsafe,
    Normal,
}

/// The kind of a function-like node.
#[derive(Clone, Copy, Debug, PartialEq, Eq, Structural)]
pub enum FnKind {
    /// A function item.
    ItemFn(Unsafety),
    /// A method.
    Method(Unsafety),
    /// A closure. It inherits its safety from where it stands.
    FnBlock,
}

/// What the pass reports. Every report is local: the walk goes on after it.
#[derive(Debug, PartialEq, Eq)]
pub enum Diagnostic {
    /// A risky construct outside the authorized scope.
    UnauthorizedUnsafe { span: Span },
    /// A launch code that does not verify. `correct` is the code that would,
    /// where a secret key is configured.
    WrongLaunchCode { span: Span, correct: Option<String> },
    /// The source text of `span` cannot be had; it counts as empty.
    MissingSnippet { span: Span },
}

/// A report with its text as a sequence of characters.
pub enum DiagnosticView {
    UnauthorizedUnsafe { span: Span },
    WrongLaunchCode { span: Span, correct: Option<Seq<char>> },
    MissingSnippet { span: Span },
}

impl View for Diagnostic {
    type V = DiagnosticView;

    open spec fn view(&self) -> DiagnosticView {
        match *self {
            Diagnostic::UnauthorizedUnsafe { span } => DiagnosticView::UnauthorizedUnsafe { span },
            Diagnostic::WrongLaunchCode { span, correct } => DiagnosticView::WrongLaunchCode {
                span,
                correct: match correct {
                    Some(code) => Some(code@),
                    None => None,
                },
            },
            Diagnostic::MissingSnippet { span } => DiagnosticView::MissingSnippet { span },
        }
    }
}

/// The two lints of the pass. A source text that is missing is an error of
/// the walk and belongs to neither.
#[derive(Clone, Copy, Debug, PartialEq, Eq, Structural)]
pub enum Lint {
    /// Unauthorized unsafe blocks.
    UnauthorizedUnsafe,
    /// Incorrect launch code attributes.
    WrongLaunchCode,
}

/// The name under which a lint is switched on and off.
pub open spec fn lint_name(lint: Lint) -> Seq<char> {
    match lint {
        Lint::UnauthorizedUnsafe => "UNAUTHORIZED_UNSAFE"@,
        Lint::WrongLaunchCode => "WRONG_LAUNCH_CODE"@,
    }
}

/// What a lint looks for, in words.
pub open spec fn lint_description(lint: Lint) -> Seq<char> {
    match lint {
        Lint::UnauthorizedUnsafe => "unauthorized unsafe blocks"@,
        Lint::WrongLaunchCode => "incorrect #[launch_code] attributes"@,
    }
}

/// The lint that a report belongs to, if it belongs to one.
pub open spec fn lint_of(report: DiagnosticView) -> Option<Lint> {
    match report {
        DiagnosticView::UnauthorizedUnsafe { .. } => Some(Lint::UnauthorizedUnsafe),
        DiagnosticView::WrongLaunchCode { .. } => Some(Lint::WrongLaunchCode),
        DiagnosticView::MissingSnippet { .. } => None,
    }
}

/// The words of a report. A wrong launch code is reported with the correct
/// one where it is known.
pub open spec fn message_text(report: DiagnosticView) -> Seq<char> {
    match report {
        DiagnosticView::UnauthorizedUnsafe { .. } => "unauthorized unsafe block"@,
        DiagnosticView::WrongLaunchCode { correct: None, .. } => "incorrect launch code"@,
        DiagnosticView::WrongLaunchCode { correct: Some(code), .. } => "correct launch code is "@
            + code,
        DiagnosticView::MissingSnippet { .. } => "can't get snippet"@,
    }
}

impl Lint {
    /// The name under which the lint is switched on and off.
    pub fn name(self) -> (name: &'static str)
        ensures
            name@ == lint_name(self),
    {
        match self {
            Lint::UnauthorizedUnsafe => "UNAUTHORIZED_UNSAFE",
            Lint::WrongLaunchCode => "WRONG_LAUNCH_CODE",
        }
    }

    /// What the lint looks for, in words.
    pub fn description(self) -> (description: &'static str)
        ensures
            description@ == lint_description(self),
    {
        match self {
            Lint::UnauthorizedUnsafe => "unauthorized unsafe blocks",
            Lint::WrongLaunchCode => "incorrect #[launch_code] attributes",
        }
    }
}

impl Diagnostic {
    /// Where the report points.
    pub fn span(&self) -> (span: Span)
        ensures
            span == (match *self {
                Diagnostic::UnauthorizedUnsafe { span } => span,
                Diagnostic::WrongLaunchCode { span, .. } => span,
                Diagnostic::MissingSnippet { span } => span,
            }),
    {
        match self {
            Diagnostic::UnauthorizedUnsafe { span } => *span,
            Diagnostic::WrongLaunchCode { span, .. } => *span,
            Diagnostic::MissingSnippet { span } => *span,
        }
    }

    /// The lint that the report belongs to, if it belongs to one.
    pub fn lint(&self) -> (lint: Option<Lint>)
        ensures
            lint == lint_of(self@),
    {
        match self {
            Diagnostic::UnauthorizedUnsafe { .. } => Some(Lint::UnauthorizedUnsafe),
            Diagnostic::WrongLaunchCode { .. } => Some(Lint::WrongLaunchCode),
            Diagnostic::MissingSnippet { .. } => None,
        }
    }

    /// The words of the report.
    pub fn message(&self) -> (message: String)
        ensures
            message@ == message_text(self@),
    {
        match self {
            Diagnostic::UnauthorizedUnsafe { .. } => "unauthorized unsafe block".to_owned(),
            Diagnostic::WrongLaunchCode { correct: None, .. } => "incorrect launch code".to_owned(),
            Diagnostic::WrongLaunchCode { correct: Some(code), .. } => {
                let mut message = "correct launch code is ".to_owned();
                message.append(code.as_str());
                message
            },
            Diagnostic::MissingSnippet { .. } => "can't get snippet".to_owned(),
        }
    }
}

/// The reports of a list, each by its view.
pub open spec fn views(diagnostics: Seq<Diagnostic>) -> Seq<DiagnosticView> {
    diagnostics.map_values(|d: Diagnostic| d@)
}

/// The bytes of a piece of source text; none where it cannot be had.
pub open spec fn snippet_bytes(source: Option<Vec<u8>>) -> Seq<u8> {
    match source {
        Some(bytes) => bytes@,
        None => Seq::empty(),
    }
}

/// The report that a piece of source text is missing, where it is.
pub open spec fn snippet_gap(source: Option<Vec<u8>>, span: Span) -> Seq<DiagnosticView> {
    match source {
        Some(_) => Seq::empty(),
        None => seq![DiagnosticView::MissingSnippet { span }],
    }
}

impl Attribute {
    /// Whether this attribute carries a launch code.
    pub open spec fn is_launch_code(&self) -> bool {
        self.name@ == LAUNCH_CODE@
    }

    /// The launch code that the attribute carries: its value, or the empty
    /// text where it has none.
    pub open spec fn code(&self) -> Seq<char> {
        match self.value {
            Some(value) => value@,
            None => Seq::empty(),
        }
    }
}

/// The chunk that an attribute adds to what is signed: its source text,
/// unless it is the launch code itself.
pub open spec fn attribute_chunk(a: Attribute) -> Option<Seq<u8>> {
    if a.is_launch_code() {
        None
    } else {
        Some(snippet_bytes(a.text))
    }
}

/// The launch code that an attribute carries, with the place to report it at.
pub open spec fn attribute_code(a: Attribute) -> Option<(Span, Seq<char>)> {
    if a.is_launch_code() {
        Some((a.span, a.code()))
    } else {
        None
    }
}

/// The report for an attribute whose source text is signed but missing.
pub open spec fn attribute_gap(a: Attribute) -> Option<DiagnosticView> {
    if !a.is_launch_code() && a.text is None {
        Some(DiagnosticView::MissingSnippet { span: a.span })
    } else {
        None
    }
}

/// The source texts of the attributes other than launch codes, in order.
pub open spec fn attribute_chunks(attrs: Seq<Attribute>) -> Seq<Seq<u8>> {
    attrs.filter_map(|a: Attribute| attribute_chunk(a))
}

/// The launch codes among the attributes, in order. The last one counts.
pub open spec fn launch_codes(attrs: Seq<Attribute>) -> Seq<(Span, Seq<char>)> {
    attrs.filter_map(|a: Attribute| attribute_code(a))
}

/// The reports for the attributes whose source text is signed but missing.
pub open spec fn attribute_gaps(attrs: Seq<Attribute>) -> Seq<DiagnosticView> {
    attrs.filter_map(|a: Attribute| attribute_gap(a))
}

/// The chunks that a launch code signs: the attributes other than launch
/// codes, then the declaration itself.
pub open spec fn signed_chunks(attrs: Seq<Attribute>, text: Option<Vec<u8>>) -> Seq<Seq<u8>> {
    attribute_chunks(attrs).push(snippet_bytes(text))
}

/// The buffer that a launch code of the declaration is checked against.
pub open spec fn signed_buffer(attrs: Seq<Attribute>, text: Option<Vec<u8>>) -> Seq<u8> {
    canonical(signed_chunks(attrs, text))
}

/// Whether the declaration carries a launch code that verifies under `pk`.
pub open spec fn authenticates(
    scheme: Scheme,
    pk: Seq<u8>,
    attrs: Seq<Attribute>,
    text: Option<Vec<u8>>,
) -> bool {
    let codes = launch_codes(attrs);
    codes.len() > 0 && code_accepted(scheme, signed_buffer(attrs, text), codes.last().1, pk)
}

/// What authenticating a declaration reports: the source texts that are
/// missing and, where the launch code does not verify, that it is wrong,
/// with the correct code where there is a secret key to make it.
pub open spec fn authenticate_reports(
    scheme: Scheme,
    pk: Seq<u8>,
    sk: Option<Seq<u8>>,
    attrs: Seq<Attribute>,
    text: Option<Vec<u8>>,
    span: Span,
) -> Seq<DiagnosticView> {
    let codes = launch_codes(attrs);
    if codes.len() == 0 {
        attribute_gaps(attrs)
    } else if authenticates(scheme, pk, attrs, text) {
        attribute_gaps(attrs) + snippet_gap(text, span)
    } else {
        (attribute_gaps(attrs) + snippet_gap(text, span)).push(
            DiagnosticView::WrongLaunchCode {
                span: codes.last().0,
                correct: match sk {
                    Some(sk) => Some(
                        encoded_text(scheme, detached_signature(signed_buffer(attrs, text), sk)),
                    ),
                    None => None,
                },
            },
        )
    }
}

/// Whether a risky construct at `id` is covered by the authorized root.
pub open spec fn is_authorized(root: Option<NodeId>, tree: SyntaxTree, id: NodeId) -> bool {
    match root {
        Some(root) => tree.is_descendant(id, root),
        None => false,
    }
}

/// What a risky construct at `id` is reported as, if at all.
pub open spec fn authorize_report(
    root: Option<NodeId>,
    tree: SyntaxTree,
    span: Span,
    id: NodeId,
) -> Option<Diagnostic> {
    if is_authorized(root, tree, id) {
        None
    } else {
        Some(Diagnostic::UnauthorizedUnsafe { span })
    }
}

/// Whether a function-like node of this kind is a risky construct.
pub open spec fn is_unsafe_fn(fk: FnKind) -> bool {
    fk == FnKind::ItemFn(Unsafety::Unsafe) || fk == FnKind::Method(Unsafety::Unsafe)
}

/// Grab the bytes of a piece of source text. Where it cannot be had, that is
/// reported and the text counts as empty.
pub fn snip<'a>(source: &'a Option<Vec<u8>>, span: Span, diagnostics: &mut Vec<Diagnostic>) -> (bytes:
    &'a [u8])
    ensures
        bytes@ == snippet_bytes(*source),
        final(diagnostics)@ == old(diagnostics)@ + (match *source {
            Some(_) => Seq::<Diagnostic>::empty(),
            None => seq![Diagnostic::MissingSnippet { span }],
        }),
        views(final(diagnostics)@) == views(old(diagnostics)@) + snippet_gap(*source, span),
{
    match source {
        Some(bytes) => {
            assert(diagnostics@ + Seq::<Diagnostic>::empty() =~= diagnostics@);
            assert(views(diagnostics@) + Seq::<DiagnosticView>::empty() =~= views(diagnostics@));
            bytes.as_slice()
        },
        None => {
            diagnostics.push(Diagnostic::MissingSnippet { span });
            assert(diagnostics@ =~= old(diagnostics)@ + seq![Diagnostic::MissingSnippet { span }]);
            assert(views(diagnostics@) =~= views(old(diagnostics)@) + snippet_gap(*source, span));
            &[]
        },
    }
}

/// The state of one walk over a syntax tree.
pub struct Pass {
    authenticated_parent: Option<NodeId>,
    keys: SignatureKeyPair,
    scheme: Scheme,
}

impl Pass {
    /// The node whose descendants are authorized at this moment.
    pub closed spec fn authorized_root(&self) -> Option<NodeId> {
        self.authenticated_parent
    }

    /// The key under which launch codes are verified.
    pub closed spec fn public_key(&self) -> Seq<u8> {
        self.keys.public@
    }

    /// The key with which correct launch codes are made, where one is configured.
    pub closed spec fn secret_key(&self) -> Option<Seq<u8>> {
        match self.keys.secret {
            Some(sk) => Some(sk@),
            None => None,
        }
    }

    /// The textual scheme of the launch codes.
    pub closed spec fn scheme(&self) -> Scheme {
        self.scheme
    }

    /// A pass that has authorized nothing yet.
    pub fn new(keys: SignatureKeyPair, scheme: Scheme) -> (pass: Pass)
        ensures
            pass.authorized_root() is None,
            pass.public_key() == keys.public@,
            pass.secret_key() == (match keys.secret {
                Some(sk) => Some(sk@),
                None => None,
            }),
            pass.scheme() == scheme,
    {
        Pass { authenticated_parent: None, keys, scheme }
    }

    /// The lints that the pass may report.
    pub fn get_lints(&self) -> (lints: Vec<Lint>)
        ensures
            lints@ == seq![Lint::UnauthorizedUnsafe, Lint::WrongLaunchCode],
    {
        let mut lints: Vec<Lint> = Vec::new();
        lints.push(Lint::UnauthorizedUnsafe);
        lints.push(Lint::WrongLaunchCode);
        assert(lints@ =~= seq![Lint::UnauthorizedUnsafe, Lint::WrongLaunchCode]);
        lints
    }

    /// The node whose descendants are authorized at this moment.
    pub fn root(&self) -> (root: Option<NodeId>)
        ensures
            root == self.authorized_root(),
    {
        self.authenticated_parent
    }

    /// Warn if this node does not have an authenticated ancestor.
    pub fn authorize(&self, tree: &SyntaxTree, span: Span, id: NodeId) -> (report: Option<
        Diagnostic,
    >)
        ensures
            report == authorize_report(self.authorized_root(), *tree, span, id),
            self.authorized_root() is None ==> report == Some(
                Diagnostic::UnauthorizedUnsafe { span },
            ),
    {
        let authorized = match self.authenticated_parent {
            None => false,
            Some(p) => tree.child_of(id, p),
        };
        if authorized {
            None
        } else {
            Some(Diagnostic::UnauthorizedUnsafe { span })
        }
    }

    /// Check a declaration's launch code, if any. A code that verifies makes
    /// the declaration the authorized root, in place of the one before.
    pub fn authenticate(
        &mut self,
        attrs: &Vec<Attribute>,
        text: &Option<Vec<u8>>,
        span: Span,
        id: NodeId,
    ) -> (diagnostics: Vec<Diagnostic>)
        ensures
            final(self).public_key() == old(self).public_key(),
            final(self).secret_key() == old(self).secret_key(),
            final(self).scheme() == old(self).scheme(),
            final(self).authorized_root() == (if authenticates(
                old(self).scheme(),
                old(self).public_key(),
                attrs@,
                *text,
            ) {
                Some(id)
            } else {
                old(self).authorized_root()
            }),
            views(diagnostics@) == authenticate_reports(
                old(self).scheme(),
                old(self).public_key(),
                old(self).secret_key(),
                attrs@,
                *text,
                span,
            ),
    {
        let mut diagnostics: Vec<Diagnostic> = Vec::new();
        let mut launch_code: Option<(Span, &str)> = None;
        let mut val = Validator::with_scheme(self.scheme);

        let n = attrs.len();
        let mut i: usize = 0;
        while i < n
            invariant
                n == attrs@.len(),
                i <= n,
                val.scheme() == self.scheme(),
                val@ == canonical(attribute_chunks(attrs@.take(i as int))),
                views(diagnostics@) == attribute_gaps(attrs@.take(i as int)),
                match launch_code {
                    Some((at, code)) => {
                        let codes = launch_codes(attrs@.take(i as int));
                        codes.len() > 0 && codes.last() == (at, code@)
                    },
                    None => launch_codes(attrs@.take(i as int)).len() == 0,
                },
            decreases n - i,
        {
            let attr = &attrs[i];
            proof {
                attrs@.lemma_filter_map_take_succ(|a: Attribute| attribute_chunk(a), i as int);
                attrs@.lemma_filter_map_take_succ(|a: Attribute| attribute_code(a), i as int);
                attrs@.lemma_filter_map_take_succ(|a: Attribute| attribute_gap(a), i as int);
            }
            if same_text(attr.name.as_str(), LAUNCH_CODE) {
                let value: &str = match &attr.value {
                    Some(value) => value.as_str(),
                    None => "",
                };
                proof {
                    reveal_strlit("");
                    assert(value@ =~= attr.code());
                    assert(attribute_chunks(attrs@.take(i + 1)) =~= attribute_chunks(
                        attrs@.take(i as int),
                    ));
                    assert(attribute_gaps(attrs@.take(i + 1)) =~= attribute_gaps(
                        attrs@.take(i as int),
                    ));
                }
                launch_code = Some((attr.span, value));
            } else {
                // Authenticate all attributes other than the launch code itself.
                // This includes doc comments and attribute order.
                let bytes = snip(&attr.text, attr.span, &mut diagnostics);
                val.write(bytes);
                proof {
                    let chunks = attribute_chunks(attrs@.take(i as int));
                    lemma_canonical_push(chunks, snippet_bytes(attr.text));
                    assert(attribute_chunks(attrs@.take(i + 1)) =~= chunks.push(
                        snippet_bytes(attr.text),
                    ));
                    assert(launch_codes(attrs@.take(i + 1)) =~= launch_codes(
                        attrs@.take(i as int),
                    ));
                    assert(attribute_gaps(attrs@.take(i + 1)) =~= attribute_gaps(
                        attrs@.take(i as int),
                    ) + snippet_gap(attr.text, attr.span));
                }
            }
            i = i + 1;
        }
        proof {
            assert(attrs@.take(n as int) =~= attrs@);
        }

        let launch_code = match launch_code {
            Some(c) => c,
            None => {
                return diagnostics;
            },
        };

        // Authenticate the function arguments and body.
        let bytes = snip(text, span, &mut diagnostics);
        val.write(bytes);
        proof {
            lemma_canonical_push(attribute_chunks(attrs@), snippet_bytes(*text));
        }

        if val.verify(launch_code.1, &self.keys.public) {
            self.authenticated_parent = Some(id);
        } else {
            let correct = match &self.keys.secret {
                None => None,
                Some(sk) => Some(val.compute(sk)),
            };
            let ghost before = diagnostics@;
            let report = Diagnostic::WrongLaunchCode { span: launch_code.0, correct };
            diagnostics.push(report);
            proof {
                assert(views(diagnostics@) =~= views(before).push(report@));
            }
        }
        diagnostics
    }

    /// An `unsafe` block needs an authenticated ancestor.
    pub fn check_block(&self, tree: &SyntaxTree, block: &Block) -> (report: Option<Diagnostic>)
        ensures
            report == (match block.rules {
                BlockCheckMode::Default => None,
                BlockCheckMode::Unsafe => authorize_report(
                    self.authorized_root(),
                    *tree,
                    block.span,
                    block.id,
                ),
            }),
    {
        match block.rules {
            BlockCheckMode::Default => None,
            BlockCheckMode::Unsafe => self.authorize(tree, block.span, block.id),
        }
    }

    /// A function or method that is declared `unsafe` needs an authenticated
    /// ancestor.
    pub fn check_fn(&self, tree: &SyntaxTree, fk: FnKind, span: Span, id: NodeId) -> (report:
        Option<Diagnostic>)
        ensures
            report == (if is_unsafe_fn(fk) {
                authorize_report(self.authorized_root(), *tree, span, id)
            } else {
                None
            }),
    {
        let risky = match fk {
            FnKind::ItemFn(Unsafety::Unsafe) => true,
            FnKind::ItemFn(Unsafety::Normal) => false,
            FnKind::Method(Unsafety::Unsafe) => true,
            FnKind::Method(Unsafety::Normal) => false,
            // closures inherit unsafety from the context
            FnKind::FnBlock => false,
        };
        if risky {
            self.authorize(tree, span, id)
        } else {
            None
        }
    }

    /// The signature of a trait method may carry a launch code.
    pub fn check_ty_method(&mut self, m: &Declaration) -> (diagnostics: Vec<Diagnostic>)
        ensures
            authenticated(*old(self), *final(self), *m, views(diagnostics@)),
    {
        self.authenticate(&m.attrs, &m.text, m.span, m.id)
    }

    /// A method of a trait may carry a launch code, with or without a
    /// default body. An associated type carries none.
    pub fn check_trait_method(&mut self, it: &TraitItem) -> (diagnostics: Vec<Diagnostic>)
        ensures
            match *it {
                TraitItem::Required(m) => authenticated(
                    *old(self),
                    *final(self),
                    m,
                    views(diagnostics@),
                ),
                TraitItem::Provided(m) => authenticated(
                    *old(self),
                    *final(self),
                    m,
                    views(diagnostics@),
                ),
                TraitItem::Type => unchanged(*old(self), *final(self)) && diagnostics@
                    == Seq::<Diagnostic>::empty(),
            },
    {
        match it {
            TraitItem::Required(m) => self.authenticate(&m.attrs, &m.text, m.span, m.id),
            TraitItem::Provided(m) => self.authenticate(&m.attrs, &m.text, m.span, m.id),
            TraitItem::Type => Vec::new(),
        }
    }

    /// An item may carry a launch code.
    pub fn check_item(&mut self, it: &Declaration) -> (diagnostics: Vec<Diagnostic>)
        ensures
            authenticated(*old(self), *final(self), *it, views(diagnostics@)),
    {
        self.authenticate(&it.attrs, &it.text, it.span, it.id)
    }
}

/// Authorization does not reach a sibling. Where `a` is the authorized root
/// and `b` is another node with the same parent, a risky construct that lies
/// below `b` is reported.
pub proof fn lemma_sibling_is_reported(
    tree: SyntaxTree,
    a: NodeId,
    b: NodeId,
    span: Span,
    id: NodeId,
)
    requires
        tree.wf(),
        a != b,
        tree.parent_of(a) == tree.parent_of(b),
        tree.parent_of(a) != a,
        tree.parent_of(b) != b,
        tree.is_descendant(id, b),
    ensures
        authorize_report(Some(a), tree, span, id) == Some(Diagnostic::UnauthorizedUnsafe { span }),
{
    tree.lemma_siblings_apart(a, b, id);
}

/// The pass `after` holds the keys, the scheme and the authorized root of
/// the pass `before`.
pub open spec fn unchanged(before: Pass, after: Pass) -> bool {
    &&& after.public_key() == before.public_key()
    &&& after.secret_key() == before.secret_key()
    &&& after.scheme() == before.scheme()
    &&& after.authorized_root() == before.authorized_root()
}

/// The pass `after` is the pass `before` once it has authenticated `decl`,
/// and `reports` is what that reported: the keys and the scheme stay, and
/// the declaration is the authorized root if and only if its launch code
/// verifies.
pub open spec fn authenticated(
    before: Pass,
    after: Pass,
    decl: Declaration,
    reports: Seq<DiagnosticView>,
) -> bool {
    &&& after.public_key() == before.public_key()
    &&& after.secret_key() == before.secret_key()
    &&& after.scheme() == before.scheme()
    &&& after.authorized_root() == (if authenticates(
        before.scheme(),
        before.public_key(),
        decl.attrs@,
        decl.text,
    ) {
        Some(decl.id)
    } else {
        before.authorized_root()
    })
    &&& reports == authenticate_reports(
        before.scheme(),
        before.public_key(),
        before.secret_key(),
        decl.attrs@,
        decl.text,
        decl.span,
    )
}

} // verus!
