use vstd::prelude::*;
use vstd::string::StringExecFns;

use crate::model::{
    variants_view, Declaration, DeclarationView, Failure, FieldShape, GenError, ItemData,
};
use crate::naming::{dispatch_name, dispatch_name_of};

verus! {

/// Whether a variant has the one shape the generator supports: exactly one
/// unnamed field.
pub open spec fn well_formed(v: (Seq<char>, FieldShape)) -> bool {
    v.1 == FieldShape::Unnamed(1)
}

/// The index of the first variant among the first `n` that is not well
/// formed, if there is one.
pub open spec fn first_bad(vs: Seq<(Seq<char>, FieldShape)>, n: nat) -> Option<int>
    decreases n,
{
    if n == 0 {
        None
    } else {
        match first_bad(vs, (n - 1) as nat) {
            Some(k) => Some(k),
            None => if well_formed(vs[n - 1]) {
                None
            } else {
                Some(n - 1)
            },
        }
    }
}

/// The callback of the expression-bodied call shape.
pub open spec fn expr_body() -> Seq<char> {
    "$body"@
}

/// The callback of the block-bodied call shape.
pub open spec fn block_body() -> Seq<char> {
    "$($tt)*"@
}

/// One branch of the generated match: the variant `var` of the enum `en`,
/// its sole field bound to the caller's pattern, evaluating `body`.
pub open spec fn arm(en: Seq<char>, var: Seq<char>, body: Seq<char>) -> Seq<char> {
    en + "::"@ + var + "($v) => { "@ + body + " }"@
}

/// The branches for the first `n` variants, in declaration order, separated
/// by commas.
pub open spec fn arms(
    en: Seq<char>,
    vs: Seq<(Seq<char>, FieldShape)>,
    n: nat,
    body: Seq<char>,
) -> Seq<char>
    decreases n,
{
    if n == 0 {
        Seq::empty()
    } else if n == 1 {
        arm(en, vs[0].0, body)
    } else {
        arms(en, vs, (n - 1) as nat, body) + ", "@ + arm(en, vs[n - 1].0, body)
    }
}

/// The text that opens the dispatch construct, up to its name.
pub open spec fn head_text() -> Seq<char> {
    "#[allow(non_snake_case, unused_macros)]\nmacro_rules! "@
}

/// The text between the construct's name and the branches of the
/// expression-bodied shape.
pub open spec fn expr_open_text() -> Seq<char> {
    " {\n    ($expr:expr, |$v:pat_param| $body:expr $(,)?) => {{\n        match $expr {\n            "@
}

/// The text between the branches of the two shapes.
pub open spec fn block_open_text() -> Seq<char> {
    "\n        }\n    }};\n    ($expr:expr, |$v:pat_param| { $($tt:tt)* } $(,)?) => {{\n        match $expr {\n            "@
}

/// The text that closes the dispatch construct.
pub open spec fn tail_text() -> Seq<char> {
    "\n        }\n    }};\n}\n"@
}

/// The dispatch construct called `name`, with the branches `arms_e` for
/// expression callbacks and `arms_b` for block callbacks.
pub open spec fn dispatch_macro(name: Seq<char>, arms_e: Seq<char>, arms_b: Seq<char>) -> Seq<
    char,
> {
    head_text() + name + expr_open_text() + arms_e + block_open_text() + arms_b + tail_text()
}

/// The short alias `visit`, which forwards both call shapes to `name`.
pub open spec fn alias_macro(name: Seq<char>) -> Seq<char> {
    "#[allow(unused_macros)]\nmacro_rules! visit {\n    ($expr:expr, |$v:pat_param| $body:expr $(,)?) => { "@
        + name + "!($expr, |$v| $body) };\n    ($expr:expr, |$v:pat_param| { $($tt:tt)* } $(,)?) => { "@
        + name + "!($expr, |$v| { $($tt)* }) };\n}\n"@
}

/// The source text generated for the enum `en` with the variants `vs`.
pub open spec fn expansion(en: Seq<char>, vs: Seq<(Seq<char>, FieldShape)>) -> Seq<char> {
    let name = dispatch_name_of(en);
    dispatch_macro(name, arms(en, vs, vs.len(), expr_body()), arms(en, vs, vs.len(), block_body()))
        + alias_macro(name)
}

/// What the generator yields for a declaration: its expansion, or the first
/// reason it has none.
pub open spec fn generate_spec(d: DeclarationView) -> Result<Seq<char>, Failure> {
    match d.variants {
        None => Err(Failure::NotAnEnum(d.name)),
        Some(vs) => match first_bad(vs, vs.len()) {
            Some(k) => Err(Failure::ShapeViolation(vs[k].0)),
            None => Ok(expansion(d.name, vs)),
        },
    }
}

/// The view of what [`generate`] returns.
pub open spec fn outcome(r: Result<String, GenError>) -> Result<Seq<char>, Failure> {
    match r {
        Ok(s) => Ok(s@),
        Err(e) => Err(e@),
    }
}

/// Once a bad variant is found, it stays the first one.
pub proof fn lemma_first_bad_kept(vs: Seq<(Seq<char>, FieldShape)>, k: int, n: nat)
    requires
        0 <= k < n,
        first_bad(vs, (k + 1) as nat) == Some(k),
    ensures
        first_bad(vs, n) == Some(k),
    decreases n,
{
    if n > k + 1 {
        lemma_first_bad_kept(vs, k, (n - 1) as nat);
    }
}

/// Builds [`arm`].
fn arm_text(en: &str, var: &str, body: &str) -> (r: String)
    ensures
        r@ == arm(en@, var@, body@),
{
    let mut r = String::from_str(en);
    r.append("::");
    r.append(var);
    r.append("($v) => { ");
    r.append(body);
    r.append(" }");
    r
}

/// Builds [`dispatch_macro`].
fn dispatch_macro_text(name: &str, arms_e: &str, arms_b: &str) -> (r: String)
    ensures
        r@ == dispatch_macro(name@, arms_e@, arms_b@),
{
    let mut r = String::from_str("#[allow(non_snake_case, unused_macros)]\nmacro_rules! ");
    r.append(name);
    r.append(
        " {\n    ($expr:expr, |$v:pat_param| $body:expr $(,)?) => {{\n        match $expr {\n            ",
    );
    r.append(arms_e);
    r.append(
        "\n        }\n    }};\n    ($expr:expr, |$v:pat_param| { $($tt:tt)* } $(,)?) => {{\n        match $expr {\n            ",
    );
    r.append(arms_b);
    r.append("\n        }\n    }};\n}\n");
    r
}

/// Builds [`alias_macro`].
fn alias_macro_text(name: &str) -> (r: String)
    ensures
        r@ == alias_macro(name@),
{
    let mut r = String::from_str(
        "#[allow(unused_macros)]\nmacro_rules! visit {\n    ($expr:expr, |$v:pat_param| $body:expr $(,)?) => { ",
    );
    r.append(name);
    r.append(
        "!($expr, |$v| $body) };\n    ($expr:expr, |$v:pat_param| { $($tt:tt)* } $(,)?) => { ",
    );
    r.append(name);
    r.append("!($expr, |$v| { $($tt)* }) };\n}\n");
    r
}

/// Generates, for an enum whose variants each hold exactly one unnamed
/// field, the source of two dispatch constructs: `visit_<snake name>` and the
/// short alias `visit`. Each has an expression-bodied and a block-bodied call
/// shape, and expands to a match with one branch per variant, in declaration
/// order. A declaration that is not an enum, or the first variant of another
/// shape, is reported instead.
pub fn derive_visit_enum(decl: &Declaration) -> (r: Result<String, GenError>)
    ensures
        outcome(r) == generate_spec(decl@),
{
    match &decl.data {
        ItemData::Other => Err(GenError::NotAnEnum { name: decl.name.clone() }),
        ItemData::Enum(vs) => {
            let ghost vv = variants_view(vs@);
            let mut arms_e = String::new();
            let mut arms_b = String::new();
            let mut i: usize = 0;
            while i < vs.len()
                invariant
                    vv == variants_view(vs@),
                    decl@.variants == Some(vv),
                    i <= vs.len(),
                    first_bad(vv, i as nat) is None,
                    arms_e@ == arms(decl.name@, vv, i as nat, expr_body()),
                    arms_b@ == arms(decl.name@, vv, i as nat, block_body()),
                decreases vs.len() - i,
            {
                let v = &vs[i];
                if v.fields != FieldShape::Unnamed(1) {
                    proof {
                        assert(vv[i as int] == vs@[i as int]@);
                        assert(first_bad(vv, (i + 1) as nat) == Some(i as int));
                        lemma_first_bad_kept(vv, i as int, vv.len());
                    }
                    return Err(GenError::ShapeViolation { variant: v.name.clone() });
                }
                if i > 0 {
                    arms_e.append(", ");
                    arms_b.append(", ");
                }
                let ae = arm_text(decl.name.as_str(), v.name.as_str(), "$body");
                let ab = arm_text(decl.name.as_str(), v.name.as_str(), "$($tt)*");
                arms_e.append(ae.as_str());
                arms_b.append(ab.as_str());
                i += 1;
            }
            let name = dispatch_name(decl.name.as_str());
            let mut out = dispatch_macro_text(name.as_str(), arms_e.as_str(), arms_b.as_str());
            let alias = alias_macro_text(name.as_str());
            out.append(alias.as_str());
            Ok(out)
        },
    }
}

} // verus!
