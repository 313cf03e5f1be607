use launch_code::codec::Scheme;
use launch_code::pass::{
    snip, Attribute, Block, BlockCheckMode, Declaration, Diagnostic, FnKind, Lint, Pass, Span,
    TraitItem, Unsafety, LAUNCH_CODE,
};
use launch_code::sign::{PublicKey, SecretKey, SignatureKeyPair};
use launch_code::tree::SyntaxTree;
use launch_code::validator::Validator;
use sodiumoxide::crypto::sign;

const CRATE: u32 = 0;
const DECL_A: u32 = 1;
const BLOCK_A: u32 = 2;
const DECL_B: u32 = 3;
const BLOCK_B: u32 = 4;
const NESTED: u32 = 5;
const BLOCK_NESTED: u32 = 6;
const BLOCK_A_LATER: u32 = 7;

// crate ── A ── block
//      │    ├── nested ── block
//      │    └── later block
//      └── B ── block
fn tree() -> SyntaxTree {
    let mut tree = SyntaxTree::new();
    assert_eq!(tree.add_root(), Some(CRATE));
    assert_eq!(tree.add_child(CRATE), Some(DECL_A));
    assert_eq!(tree.add_child(DECL_A), Some(BLOCK_A));
    assert_eq!(tree.add_child(CRATE), Some(DECL_B));
    assert_eq!(tree.add_child(DECL_B), Some(BLOCK_B));
    assert_eq!(tree.add_child(DECL_A), Some(NESTED));
    assert_eq!(tree.add_child(NESTED), Some(BLOCK_NESTED));
    assert_eq!(tree.add_child(DECL_A), Some(BLOCK_A_LATER));
    tree
}

fn keypair(seed: u8) -> (PublicKey, SecretKey) {
    let (pk, sk) = sign::keypair_from_seed(&sign::Seed([seed; 32]));
    (PublicKey(pk.0), SecretKey(sk.0))
}

fn checker(seed: u8, scheme: Scheme) -> Pass {
    let (public, _) = keypair(seed);
    Pass::new(SignatureKeyPair { public, secret: None }, scheme)
}

fn signer(seed: u8, scheme: Scheme) -> Pass {
    let (public, secret) = keypair(seed);
    Pass::new(SignatureKeyPair { public, secret: Some(secret) }, scheme)
}

fn span(lo: u32, hi: u32) -> Span {
    Span { lo, hi }
}

fn plain(name: &str, text: &str, at: Span) -> Attribute {
    Attribute { name: name.to_string(), value: None, span: at, text: Some(text.as_bytes().to_vec()) }
}

fn launch_code(code: &str, at: Span) -> Attribute {
    let text = format!("#[launch_code=\"{}\"]", code);
    Attribute {
        name: "launch_code".to_string(),
        value: Some(code.to_string()),
        span: at,
        text: Some(text.into_bytes()),
    }
}

fn decl(id: u32, attrs: Vec<Attribute>, body: &str) -> Declaration {
    Declaration { attrs, span: span(100, 200), text: Some(body.as_bytes().to_vec()), id }
}

fn unsafe_block(id: u32) -> Block {
    Block { rules: BlockCheckMode::Unsafe, span: span(150, 160), id }
}

fn sign_chunks(seed: u8, scheme: Scheme, chunks: &[&str]) -> String {
    let (_, sk) = keypair(seed);
    let mut v = Validator::with_scheme(scheme);
    for chunk in chunks {
        v.write(chunk.as_bytes());
    }
    v.compute(&sk)
}

const BODY_A: &str = "fn totally_fine() -> u64 { unsafe { *std::ptr::null() } }";
const BODY_B: &str = "fn other() -> u64 { unsafe { *std::ptr::null() } }";

fn signed_a(seed: u8, scheme: Scheme) -> Declaration {
    let code = sign_chunks(seed, scheme, &["/// Fine.", "#[inline]", BODY_A]);
    decl(
        DECL_A,
        vec![
            plain("doc", "/// Fine.", span(1, 10)),
            launch_code(&code, span(11, 90)),
            plain("inline", "#[inline]", span(91, 99)),
        ],
        BODY_A,
    )
}

#[test]
fn launch_code_attribute_name() {
    assert_eq!(LAUNCH_CODE, "launch_code");
}

#[test]
fn a_new_pass_has_no_root() {
    assert_eq!(checker(1, Scheme::Braille).root(), None);
}

#[test]
fn authorized_unsafe_block() {
    let tree = tree();
    let mut pass = checker(1, Scheme::Braille);
    assert_eq!(pass.check_item(&signed_a(1, Scheme::Braille)), vec![]);
    assert_eq!(pass.root(), Some(DECL_A));
    assert_eq!(pass.check_block(&tree, &unsafe_block(BLOCK_A)), None);
}

#[test]
fn authorized_unsafe_block_in_base64() {
    let tree = tree();
    let mut pass = checker(1, Scheme::Base64);
    assert_eq!(pass.check_item(&signed_a(1, Scheme::Base64)), vec![]);
    assert_eq!(pass.root(), Some(DECL_A));
    assert_eq!(pass.check_block(&tree, &unsafe_block(BLOCK_A)), None);
}

#[test]
fn the_signed_declaration_itself_is_authorized() {
    let tree = tree();
    let mut pass = checker(1, Scheme::Braille);
    assert_eq!(pass.check_item(&signed_a(1, Scheme::Braille)), vec![]);
    assert_eq!(
        pass.check_fn(&tree, FnKind::ItemFn(Unsafety::Unsafe), span(100, 200), DECL_A),
        None
    );
}

#[test]
fn nested_declarations_are_covered() {
    let tree = tree();
    let mut pass = checker(1, Scheme::Braille);
    assert_eq!(pass.check_item(&signed_a(1, Scheme::Braille)), vec![]);
    assert_eq!(pass.check_item(&decl(NESTED, vec![], "fn inner() {}")), vec![]);
    assert_eq!(pass.root(), Some(DECL_A));
    assert_eq!(pass.check_block(&tree, &unsafe_block(BLOCK_NESTED)), None);
}

#[test]
fn stale_root_after_an_unsigned_sibling() {
    let tree = tree();
    let mut pass = checker(1, Scheme::Braille);
    assert_eq!(pass.check_item(&signed_a(1, Scheme::Braille)), vec![]);
    assert_eq!(pass.check_block(&tree, &unsafe_block(BLOCK_A)), None);

    // B carries no launch code: nothing is reported for it, and the root
    // is still A.
    assert_eq!(pass.check_item(&decl(DECL_B, vec![], BODY_B)), vec![]);
    assert_eq!(pass.root(), Some(DECL_A));

    // B's block does not lie below A.
    assert_eq!(
        pass.check_block(&tree, &unsafe_block(BLOCK_B)),
        Some(Diagnostic::UnauthorizedUnsafe { span: span(150, 160) })
    );
    // A's later block is still covered by the root that was never reset.
    assert_eq!(pass.check_block(&tree, &unsafe_block(BLOCK_A_LATER)), None);
}

#[test]
fn a_new_root_replaces_the_old_one() {
    let tree = tree();
    let mut pass = checker(1, Scheme::Braille);
    assert_eq!(pass.check_item(&signed_a(1, Scheme::Braille)), vec![]);

    let code = sign_chunks(1, Scheme::Braille, &["fn inner() {}"]);
    let nested = decl(NESTED, vec![launch_code(&code, span(1, 2))], "fn inner() {}");
    assert_eq!(pass.check_item(&nested), vec![]);
    assert_eq!(pass.root(), Some(NESTED));
    assert_eq!(pass.check_block(&tree, &unsafe_block(BLOCK_NESTED)), None);

    // A's subtree is not walked to its end yet, but A is the root no more.
    assert_eq!(
        pass.check_block(&tree, &unsafe_block(BLOCK_A_LATER)),
        Some(Diagnostic::UnauthorizedUnsafe { span: span(150, 160) })
    );
}

#[test]
fn tampered_body() {
    let tree = tree();
    let mut pass = signer(1, Scheme::Braille);
    let mut a = signed_a(1, Scheme::Braille);
    let edited = BODY_A.replace("null()", "nul1()");
    a.text = Some(edited.clone().into_bytes());

    let reports = pass.check_item(&a);
    let correct = sign_chunks(1, Scheme::Braille, &["/// Fine.", "#[inline]", &edited]);
    assert_eq!(
        reports,
        vec![Diagnostic::WrongLaunchCode { span: span(11, 90), correct: Some(correct.clone()) }]
    );
    assert_eq!(reports[0].message(), format!("correct launch code is {}", correct));
    assert_eq!(pass.root(), None);
    assert_eq!(
        pass.check_block(&tree, &unsafe_block(BLOCK_A)),
        Some(Diagnostic::UnauthorizedUnsafe { span: span(150, 160) })
    );

    // The code of the report, put in place of the old one, verifies.
    a.attrs[1] = launch_code(&correct, span(11, 90));
    assert_eq!(pass.check_item(&a), vec![]);
    assert_eq!(pass.root(), Some(DECL_A));
    assert_eq!(pass.check_block(&tree, &unsafe_block(BLOCK_A)), None);
}

#[test]
fn tampered_body_without_secret_key() {
    let mut pass = checker(1, Scheme::Braille);
    let mut a = signed_a(1, Scheme::Braille);
    a.text = Some(BODY_A.replace("null()", "nul1()").into_bytes());
    let reports = pass.check_item(&a);
    assert_eq!(reports, vec![Diagnostic::WrongLaunchCode { span: span(11, 90), correct: None }]);
    assert_eq!(reports[0].message(), "incorrect launch code");
    assert_eq!(pass.root(), None);
}

#[test]
fn a_wrong_code_keeps_the_root() {
    let mut pass = checker(1, Scheme::Braille);
    assert_eq!(pass.check_item(&signed_a(1, Scheme::Braille)), vec![]);
    let b = decl(DECL_B, vec![launch_code("bogus", span(5, 6))], BODY_B);
    assert_eq!(
        pass.check_item(&b),
        vec![Diagnostic::WrongLaunchCode { span: span(5, 6), correct: None }]
    );
    assert_eq!(pass.root(), Some(DECL_A));
}

#[test]
fn unauthorized_unsafe_block_with_no_prior_authorization() {
    let tree = tree();
    let pass = checker(1, Scheme::Braille);
    for id in [CRATE, DECL_A, BLOCK_A, BLOCK_B, 1000] {
        assert_eq!(
            pass.check_block(&tree, &unsafe_block(id)),
            Some(Diagnostic::UnauthorizedUnsafe { span: span(150, 160) })
        );
        assert_eq!(
            pass.authorize(&tree, span(7, 8), id),
            Some(Diagnostic::UnauthorizedUnsafe { span: span(7, 8) })
        );
    }
}

#[test]
fn a_plain_block_is_never_reported() {
    let tree = tree();
    let pass = checker(1, Scheme::Braille);
    let block = Block { rules: BlockCheckMode::Default, span: span(1, 2), id: BLOCK_B };
    assert_eq!(pass.check_block(&tree, &block), None);
}

#[test]
fn unsafe_functions_and_methods_are_risky() {
    let tree = tree();
    let pass = checker(1, Scheme::Braille);
    let report = Some(Diagnostic::UnauthorizedUnsafe { span: span(3, 4) });
    assert_eq!(pass.check_fn(&tree, FnKind::ItemFn(Unsafety::Unsafe), span(3, 4), DECL_B), report);
    assert_eq!(pass.check_fn(&tree, FnKind::Method(Unsafety::Unsafe), span(3, 4), DECL_B), report);
    assert_eq!(pass.check_fn(&tree, FnKind::ItemFn(Unsafety::Normal), span(3, 4), DECL_B), None);
    assert_eq!(pass.check_fn(&tree, FnKind::Method(Unsafety::Normal), span(3, 4), DECL_B), None);
    assert_eq!(pass.check_fn(&tree, FnKind::FnBlock, span(3, 4), DECL_B), None);
}

#[test]
fn unsafe_function_below_the_root_is_authorized() {
    let tree = tree();
    let mut pass = checker(1, Scheme::Braille);
    assert_eq!(pass.check_item(&signed_a(1, Scheme::Braille)), vec![]);
    assert_eq!(pass.check_fn(&tree, FnKind::Method(Unsafety::Unsafe), span(3, 4), NESTED), None);
    assert_eq!(
        pass.check_fn(&tree, FnKind::Method(Unsafety::Unsafe), span(3, 4), DECL_B),
        Some(Diagnostic::UnauthorizedUnsafe { span: span(3, 4) })
    );
}

#[test]
fn bypass_token_authorizes_any_declaration() {
    let tree = tree();
    let mut pass = checker(1, Scheme::Braille);
    let b = decl(DECL_B, vec![launch_code("00000000", span(5, 6))], BODY_B);
    assert_eq!(pass.check_item(&b), vec![]);
    assert_eq!(pass.root(), Some(DECL_B));
    assert_eq!(pass.check_block(&tree, &unsafe_block(BLOCK_B)), None);
}

#[test]
fn code_signed_with_another_key_is_wrong() {
    let mut pass = checker(2, Scheme::Braille);
    assert_eq!(
        pass.check_item(&signed_a(1, Scheme::Braille)),
        vec![Diagnostic::WrongLaunchCode { span: span(11, 90), correct: None }]
    );
}

#[test]
fn code_cannot_be_replayed_on_another_body() {
    let mut pass = checker(1, Scheme::Braille);
    let mut b = signed_a(1, Scheme::Braille);
    b.id = DECL_B;
    b.text = Some(BODY_B.as_bytes().to_vec());
    assert_eq!(
        pass.check_item(&b),
        vec![Diagnostic::WrongLaunchCode { span: span(11, 90), correct: None }]
    );
}

#[test]
fn other_attributes_are_signed_too() {
    let mut pass = checker(1, Scheme::Braille);
    let wrong = vec![Diagnostic::WrongLaunchCode { span: span(11, 90), correct: None }];

    let mut changed = signed_a(1, Scheme::Braille);
    changed.attrs[0] = plain("doc", "/// Fine!", span(1, 10));
    assert_eq!(pass.check_item(&changed), wrong);

    let mut dropped = signed_a(1, Scheme::Braille);
    dropped.attrs.remove(2);
    assert_eq!(pass.check_item(&dropped), wrong);

    let mut added = signed_a(1, Scheme::Braille);
    added.attrs.push(plain("cold", "#[cold]", span(95, 99)));
    assert_eq!(pass.check_item(&added), wrong);

    let mut swapped = signed_a(1, Scheme::Braille);
    swapped.attrs.swap(0, 2);
    assert_eq!(pass.check_item(&swapped), wrong);
    assert_eq!(pass.root(), None);
}

#[test]
fn the_place_of_the_launch_code_does_not_matter() {
    let mut pass = checker(1, Scheme::Braille);
    let mut moved = signed_a(1, Scheme::Braille);
    moved.attrs.swap(1, 2);
    assert_eq!(pass.check_item(&moved), vec![]);
    assert_eq!(pass.root(), Some(DECL_A));
}

#[test]
fn the_text_of_the_launch_code_is_not_signed() {
    let mut pass = checker(1, Scheme::Braille);
    let mut a = signed_a(1, Scheme::Braille);
    a.attrs[1].text = Some(b"#[launch_code = \"...\"]".to_vec());
    assert_eq!(pass.check_item(&a), vec![]);
    a.attrs[1].text = None;
    assert_eq!(pass.check_item(&a), vec![]);
}

#[test]
fn the_last_launch_code_counts() {
    let good = sign_chunks(1, Scheme::Braille, &[BODY_B]);

    let mut pass = checker(1, Scheme::Braille);
    let b = decl(
        DECL_B,
        vec![launch_code("bogus", span(1, 2)), launch_code(&good, span(3, 4))],
        BODY_B,
    );
    assert_eq!(pass.check_item(&b), vec![]);
    assert_eq!(pass.root(), Some(DECL_B));

    let mut pass = checker(1, Scheme::Braille);
    let b = decl(
        DECL_B,
        vec![launch_code(&good, span(1, 2)), launch_code("bogus", span(3, 4))],
        BODY_B,
    );
    assert_eq!(
        pass.check_item(&b),
        vec![Diagnostic::WrongLaunchCode { span: span(3, 4), correct: None }]
    );
    assert_eq!(pass.root(), None);
}

#[test]
fn a_launch_code_without_value_is_an_empty_code() {
    let mut pass = signer(1, Scheme::Braille);
    let bare = Attribute {
        name: "launch_code".to_string(),
        value: None,
        span: span(1, 2),
        text: Some(b"#[launch_code]".to_vec()),
    };
    let reports = pass.check_item(&decl(DECL_B, vec![bare], BODY_B));
    let correct = sign_chunks(1, Scheme::Braille, &[BODY_B]);
    assert_eq!(
        reports,
        vec![Diagnostic::WrongLaunchCode { span: span(1, 2), correct: Some(correct) }]
    );
}

#[test]
fn no_launch_code_no_claim() {
    let mut pass = signer(1, Scheme::Braille);
    let b = decl(DECL_B, vec![plain("inline", "#[inline]", span(1, 2))], BODY_B);
    assert_eq!(pass.check_item(&b), vec![]);
    assert_eq!(pass.root(), None);
}

#[test]
fn missing_source_text_counts_as_empty() {
    let code = sign_chunks(1, Scheme::Braille, &["", "#[inline]", ""]);
    let mut pass = checker(1, Scheme::Braille);
    let mut b = decl(
        DECL_B,
        vec![
            Attribute { name: "doc".to_string(), value: None, span: span(1, 2), text: None },
            launch_code(&code, span(3, 4)),
            plain("inline", "#[inline]", span(5, 6)),
        ],
        "",
    );
    b.text = None;
    assert_eq!(
        pass.check_item(&b),
        vec![
            Diagnostic::MissingSnippet { span: span(1, 2) },
            Diagnostic::MissingSnippet { span: span(100, 200) },
        ]
    );
    assert_eq!(pass.root(), Some(DECL_B));
}

#[test]
fn missing_source_text_is_reported_before_a_wrong_code() {
    let mut pass = checker(1, Scheme::Braille);
    let mut b = decl(DECL_B, vec![launch_code("bogus", span(3, 4))], "");
    b.text = None;
    assert_eq!(
        pass.check_item(&b),
        vec![
            Diagnostic::MissingSnippet { span: span(100, 200) },
            Diagnostic::WrongLaunchCode { span: span(3, 4), correct: None },
        ]
    );
}

#[test]
fn missing_attribute_text_is_reported_without_a_launch_code() {
    let mut pass = checker(1, Scheme::Braille);
    let mut b = decl(
        DECL_B,
        vec![Attribute { name: "doc".to_string(), value: None, span: span(1, 2), text: None }],
        "",
    );
    b.text = None;
    assert_eq!(pass.check_item(&b), vec![Diagnostic::MissingSnippet { span: span(1, 2) }]);
}

#[test]
fn snip_gives_the_bytes_or_reports() {
    let mut reports = Vec::new();
    let have = Some(b"text".to_vec());
    assert_eq!(snip(&have, span(1, 2), &mut reports), b"text");
    assert_eq!(reports, vec![]);
    let none: Option<Vec<u8>> = None;
    assert_eq!(snip(&none, span(3, 4), &mut reports), b"");
    assert_eq!(reports, vec![Diagnostic::MissingSnippet { span: span(3, 4) }]);
}

#[test]
fn authenticate_takes_the_parts_of_a_declaration() {
    let a = signed_a(1, Scheme::Braille);
    let mut pass = checker(1, Scheme::Braille);
    assert_eq!(pass.authenticate(&a.attrs, &a.text, a.span, 42), vec![]);
    assert_eq!(pass.root(), Some(42));
}

#[test]
fn trait_methods_may_carry_a_launch_code() {
    let tree = tree();
    let mut pass = checker(1, Scheme::Braille);
    assert_eq!(pass.check_trait_method(&TraitItem::Type), vec![]);
    assert_eq!(pass.root(), None);

    assert_eq!(
        pass.check_trait_method(&TraitItem::Required(signed_a(1, Scheme::Braille))),
        vec![]
    );
    assert_eq!(pass.root(), Some(DECL_A));

    let code = sign_chunks(1, Scheme::Braille, &[BODY_B]);
    let b = decl(DECL_B, vec![launch_code(&code, span(1, 2))], BODY_B);
    assert_eq!(pass.check_trait_method(&TraitItem::Provided(b)), vec![]);
    assert_eq!(pass.root(), Some(DECL_B));
    assert_eq!(pass.check_block(&tree, &unsafe_block(BLOCK_B)), None);

    assert_eq!(pass.check_trait_method(&TraitItem::Type), vec![]);
    assert_eq!(pass.root(), Some(DECL_B));
}

#[test]
fn trait_method_signatures_may_carry_a_launch_code() {
    let mut pass = checker(1, Scheme::Braille);
    assert_eq!(pass.check_ty_method(&signed_a(1, Scheme::Braille)), vec![]);
    assert_eq!(pass.root(), Some(DECL_A));
    let wrong = decl(DECL_B, vec![launch_code("bogus", span(1, 2))], BODY_B);
    assert_eq!(
        pass.check_ty_method(&wrong),
        vec![Diagnostic::WrongLaunchCode { span: span(1, 2), correct: None }]
    );
}

#[test]
fn lints_of_the_pass() {
    let pass = checker(1, Scheme::Braille);
    assert_eq!(pass.get_lints(), vec![Lint::UnauthorizedUnsafe, Lint::WrongLaunchCode]);
    assert_eq!(Lint::UnauthorizedUnsafe.name(), "UNAUTHORIZED_UNSAFE");
    assert_eq!(Lint::WrongLaunchCode.name(), "WRONG_LAUNCH_CODE");
    assert_eq!(Lint::UnauthorizedUnsafe.description(), "unauthorized unsafe blocks");
    assert_eq!(Lint::WrongLaunchCode.description(), "incorrect #[launch_code] attributes");
}

#[test]
fn reports_know_their_lint_place_and_words() {
    let unauthorized = Diagnostic::UnauthorizedUnsafe { span: span(1, 2) };
    assert_eq!(unauthorized.lint(), Some(Lint::UnauthorizedUnsafe));
    assert_eq!(unauthorized.span(), span(1, 2));
    assert_eq!(unauthorized.message(), "unauthorized unsafe block");

    let wrong = Diagnostic::WrongLaunchCode { span: span(3, 4), correct: Some("⠐⡛".to_string()) };
    assert_eq!(wrong.lint(), Some(Lint::WrongLaunchCode));
    assert_eq!(wrong.span(), span(3, 4));
    assert_eq!(wrong.message(), "correct launch code is ⠐⡛");

    let missing = Diagnostic::MissingSnippet { span: span(5, 6) };
    assert_eq!(missing.lint(), None);
    assert_eq!(missing.span(), span(5, 6));
    assert_eq!(missing.message(), "can't get snippet");
}
