use vstd::prelude::*;

use crate::emit::{
    arm, arms, block_body, block_open_text, dispatch_macro, expansion, expr_body, expr_open_text,
    first_bad, generate_spec, head_text, lemma_first_bad_kept, well_formed,
};
use crate::model::{DeclarationView, Failure, FieldShape};
use crate::naming::{
    ascii_lower, dispatch_name_of, dispatch_prefix, is_ascii_char, is_upper, lower, snake_case,
    snake_piece, snake_prefix,
};

verus! {

/// Whether `c` is an ASCII letter or digit.
pub open spec fn is_ascii_alnum(c: char) -> bool {
    ('A' <= c && c <= 'Z') || ('a' <= c && c <= 'z') || ('0' <= c && c <= '9')
}

/// An upper-camel-case name as type names are written: ASCII letters and
/// digits, opening with an uppercase letter.
pub open spec fn is_camel_name(s: Seq<char>) -> bool {
    &&& s.len() >= 1
    &&& 'A' <= s[0] && s[0] <= 'Z'
    &&& forall|i: int| 0 <= i < s.len() ==> is_ascii_alnum(#[trigger] s[i])
}

proof fn lemma_ascii_lower(c: char)
    requires
        'A' <= c && c <= 'Z',
    ensures
        ascii_lower(c) as u32 == c as u32 + 32,
        'a' <= ascii_lower(c) && ascii_lower(c) <= 'z',
{
}

/// The pieces of a camel name: a letter or digit, with a `_` before it for
/// an uppercase letter past the first character.
proof fn lemma_piece(s: Seq<char>, i: int)
    requires
        is_camel_name(s),
        0 <= i < s.len(),
    ensures
        is_ascii_char(s[i]),
        'A' <= s[i] && s[i] <= 'Z' ==> is_upper(s[i]) && lower(s[i]) == seq![ascii_lower(s[i])],
        !('A' <= s[i] && s[i] <= 'Z') ==> !is_upper(s[i]) && snake_piece(s, i) == seq![s[i]],
        i == 0 ==> snake_piece(s, i) == seq![ascii_lower(s[i])],
        i > 0 && is_upper(s[i]) ==> snake_piece(s, i) == seq!['_', ascii_lower(s[i])],
        snake_piece(s, i).len() >= 1,
        snake_piece(s, i).last() != '_',
{
    assert(is_ascii_alnum(s[i]));
    if 'A' <= s[i] && s[i] <= 'Z' {
        lemma_ascii_lower(s[i]);
        if i > 0 {
            assert(seq!['_'] + seq![ascii_lower(s[i])] =~= seq!['_', ascii_lower(s[i])]);
        }
    }
}

proof fn lemma_prefix_shape(s: Seq<char>, n: nat)
    requires
        is_camel_name(s),
        1 <= n <= s.len(),
    ensures
        snake_prefix(s, n).len() >= n,
        snake_prefix(s, n).last() != '_',
    decreases n,
{
    lemma_piece(s, n - 1);
    if n > 1 {
        lemma_prefix_shape(s, (n - 1) as nat);
    }
}

proof fn lemma_prefix_injective(a: Seq<char>, b: Seq<char>, n: nat, m: nat)
    requires
        is_camel_name(a),
        is_camel_name(b),
        1 <= n <= a.len(),
        1 <= m <= b.len(),
        snake_prefix(a, n) == snake_prefix(b, m),
    ensures
        n == m,
        a.subrange(0, n as int) == b.subrange(0, m as int),
    decreases n + m,
{
    let t = snake_prefix(a, n);
    lemma_prefix_shape(a, n);
    lemma_prefix_shape(b, m);
    lemma_piece(a, n - 1);
    lemma_piece(b, m - 1);
    if n == 1 && m == 1 {
        assert(t == seq![ascii_lower(a[0])]);
        assert(t == seq![ascii_lower(b[0])]);
        assert(ascii_lower(a[0]) == t[0]);
        lemma_ascii_lower(a[0]);
        lemma_ascii_lower(b[0]);
        assert(a[0] as u32 == b[0] as u32);
        assert(a.subrange(0, 1) =~= b.subrange(0, 1));
    } else if n == 1 {
        assert(false);
    } else if m == 1 {
        assert(false);
    } else {
        let ta = snake_prefix(a, (n - 1) as nat);
        let tb = snake_prefix(b, (m - 1) as nat);
        let pa = snake_piece(a, n - 1);
        let pb = snake_piece(b, m - 1);
        lemma_prefix_shape(a, (n - 1) as nat);
        lemma_prefix_shape(b, (m - 1) as nat);
        assert(t == ta + pa);
        assert(t == tb + pb);
        let ua = 'A' <= a[n - 1] && a[n - 1] <= 'Z';
        let ub = 'A' <= b[m - 1] && b[m - 1] <= 'Z';
        if ua && !ub {
            assert(t[t.len() - 2] == pa[0]);
            assert(t[t.len() - 2] == tb.last());
            assert(false);
        } else if !ua && ub {
            assert(t[t.len() - 2] == pb[0]);
            assert(t[t.len() - 2] == ta.last());
            assert(false);
        } else {
            assert(pa.len() == pb.len());
            assert(pa =~= t.subrange(ta.len() as int, t.len() as int));
            assert(pb =~= t.subrange(tb.len() as int, t.len() as int));
            assert(ta =~= t.subrange(0, ta.len() as int));
            assert(tb =~= t.subrange(0, tb.len() as int));
            lemma_prefix_injective(a, b, (n - 1) as nat, (m - 1) as nat);
            if ua {
                lemma_ascii_lower(a[n - 1]);
                lemma_ascii_lower(b[m - 1]);
                assert(pa[1] == pb[1]);
                assert(a[n - 1] as u32 == b[m - 1] as u32);
            } else {
                assert(pa[0] == pb[0]);
            }
            assert(a[n - 1] == b[m - 1]);
            assert(a.subrange(0, n as int) =~= a.subrange(0, n - 1).push(a[n - 1]));
            assert(b.subrange(0, m as int) =~= b.subrange(0, m - 1).push(b[m - 1]));
        }
    }
}

/// Name mangling is injective on camel names: two different upper-camel-case
/// type names never get the same snake-case form, nor the same dispatch
/// construct name. (Being a function, it is deterministic as well.)
pub proof fn law_mangling_injective(a: Seq<char>, b: Seq<char>)
    requires
        is_camel_name(a),
        is_camel_name(b),
    ensures
        snake_case(a) == snake_case(b) ==> a == b,
        dispatch_name_of(a) == dispatch_name_of(b) ==> a == b,
{
    if dispatch_name_of(a) == dispatch_name_of(b) {
        assert(snake_case(a) =~= dispatch_name_of(a).subrange(
            dispatch_prefix().len() as int,
            dispatch_name_of(a).len() as int,
        ));
        assert(snake_case(b) =~= dispatch_name_of(b).subrange(
            dispatch_prefix().len() as int,
            dispatch_name_of(b).len() as int,
        ));
    }
    if snake_case(a) == snake_case(b) {
        lemma_prefix_injective(a, b, a.len(), b.len());
        assert(a =~= a.subrange(0, a.len() as int));
        assert(b =~= b.subrange(0, b.len() as int));
    }
}

proof fn lemma_first_bad_found(vs: Seq<(Seq<char>, FieldShape)>, k: int, n: nat)
    requires
        0 <= k < n,
        !well_formed(vs[k]),
    ensures
        first_bad(vs, n) is Some,
    decreases n,
{
    if n - 1 > k {
        lemma_first_bad_found(vs, k, (n - 1) as nat);
    }
}

proof fn lemma_first_bad_none(vs: Seq<(Seq<char>, FieldShape)>, n: nat)
    requires
        forall|j: int| 0 <= j < n ==> well_formed(#[trigger] vs[j]),
    ensures
        first_bad(vs, n) is None,
    decreases n,
{
    if n > 0 {
        lemma_first_bad_none(vs, (n - 1) as nat);
    }
}

/// A variant that does not have exactly one unnamed field (no field, several,
/// or named ones) makes generation fail, whatever the other variants are;
/// when every variant before it is well formed, the failure names that
/// variant.
pub proof fn law_bad_variant_rejected(d: DeclarationView, k: int)
    requires
        d.variants is Some,
        0 <= k < d.variants->Some_0.len(),
        !well_formed(d.variants->Some_0[k]),
    ensures
        generate_spec(d) is Err,
        (forall|j: int| 0 <= j < k ==> well_formed(#[trigger] d.variants->Some_0[j]))
            ==> generate_spec(d) == Err::<Seq<char>, Failure>(
            Failure::ShapeViolation(d.variants->Some_0[k].0),
        ),
{
    let vs = d.variants->Some_0;
    lemma_first_bad_found(vs, k, vs.len());
    if forall|j: int| 0 <= j < k ==> well_formed(#[trigger] vs[j]) {
        lemma_first_bad_none(vs, k as nat);
        lemma_first_bad_kept(vs, k, vs.len());
    }
}

/// A declaration that is not an enum is refused with a diagnostic that names
/// the declaration.
pub proof fn law_not_enum_rejected(d: DeclarationView)
    requires
        d.variants is None,
    ensures
        generate_spec(d) == Err::<Seq<char>, Failure>(Failure::NotAnEnum(d.name)),
{
}

/// Whether `p` stands in `t` at offset `o`.
pub open spec fn occurs_at(t: Seq<char>, p: Seq<char>, o: int) -> bool {
    &&& 0 <= o
    &&& o + p.len() <= t.len()
    &&& t.subrange(o, o + p.len()) == p
}

/// Where the branch of variant `k` starts among the branches.
pub open spec fn arm_offset(
    en: Seq<char>,
    vs: Seq<(Seq<char>, FieldShape)>,
    k: int,
    body: Seq<char>,
) -> int {
    if k == 0 {
        0
    } else {
        arms(en, vs, k as nat, body).len() + 2int
    }
}

/// Where the branches of the expression-bodied shape start in the text
/// generated for the enum `en` with the variants `vs`.
pub open spec fn expr_arms_start(en: Seq<char>) -> int {
    (head_text() + dispatch_name_of(en) + expr_open_text()).len() as int
}

/// Where the branches of the block-bodied shape start.
pub open spec fn block_arms_start(en: Seq<char>, vs: Seq<(Seq<char>, FieldShape)>) -> int {
    expr_arms_start(en) + arms(en, vs, vs.len(), expr_body()).len() + block_open_text().len()
}

proof fn lemma_arms_prefix(
    en: Seq<char>,
    vs: Seq<(Seq<char>, FieldShape)>,
    m: nat,
    n: nat,
    body: Seq<char>,
)
    requires
        1 <= m <= n,
    ensures
        arms(en, vs, m, body).len() <= arms(en, vs, n, body).len(),
        arms(en, vs, n, body).subrange(0, arms(en, vs, m, body).len() as int) == arms(
            en,
            vs,
            m,
            body,
        ),
    decreases n,
{
    let a = arms(en, vs, n, body);
    if n == m {
        assert(a.subrange(0, a.len() as int) =~= a);
    } else {
        lemma_arms_prefix(en, vs, m, (n - 1) as nat, body);
        let b = arms(en, vs, (n - 1) as nat, body);
        let c = arms(en, vs, m, body);
        assert(a == b + ", "@ + arm(en, vs[n - 1].0, body));
        assert(a.subrange(0, c.len() as int) =~= b.subrange(0, c.len() as int));
    }
}

proof fn lemma_arm_in_arms(
    en: Seq<char>,
    vs: Seq<(Seq<char>, FieldShape)>,
    k: int,
    n: nat,
    body: Seq<char>,
)
    requires
        0 <= k < n,
    ensures
        occurs_at(arms(en, vs, n, body), arm(en, vs[k].0, body), arm_offset(en, vs, k, body)),
        arms(en, vs, (k + 1) as nat, body).len() == arm_offset(en, vs, k, body) + arm(
            en,
            vs[k].0,
            body,
        ).len(),
{
    let a = arms(en, vs, n, body);
    let c = arms(en, vs, (k + 1) as nat, body);
    let p = arm(en, vs[k].0, body);
    let o = arm_offset(en, vs, k, body);
    reveal_strlit(", ");
    if k > 0 {
        assert(c == arms(en, vs, k as nat, body) + ", "@ + p);
    }
    assert(c.subrange(o, o + p.len()) =~= p);
    lemma_arms_prefix(en, vs, (k + 1) as nat, n, body);
    assert(a.subrange(o, o + p.len()) =~= c.subrange(o, o + p.len()));
}

/// For an enum whose variants each have exactly one unnamed field, generation
/// succeeds, and in both call shapes the generated match holds, for each
/// variant, the branch that binds that variant's sole field to the caller's
/// pattern and yields the caller's callback (its expression, or its block);
/// the branches follow the declaration order, so both shapes select the same
/// branch for each variant.
pub proof fn law_branch_per_variant(d: DeclarationView, k: int)
    requires
        d.variants is Some,
        forall|j: int|
            0 <= j < d.variants->Some_0.len() ==> well_formed(#[trigger] d.variants->Some_0[j]),
        0 <= k < d.variants->Some_0.len(),
    ensures
        generate_spec(d) is Ok,
        occurs_at(
            generate_spec(d)->Ok_0,
            arm(d.name, d.variants->Some_0[k].0, expr_body()),
            expr_arms_start(d.name) + arm_offset(d.name, d.variants->Some_0, k, expr_body()),
        ),
        occurs_at(
            generate_spec(d)->Ok_0,
            arm(d.name, d.variants->Some_0[k].0, block_body()),
            block_arms_start(d.name, d.variants->Some_0) + arm_offset(
                d.name,
                d.variants->Some_0,
                k,
                block_body(),
            ),
        ),
        k + 1 < d.variants->Some_0.len() ==> arm_offset(d.name, d.variants->Some_0, k, expr_body())
            < arm_offset(d.name, d.variants->Some_0, k + 1, expr_body()),
        k + 1 < d.variants->Some_0.len() ==> arm_offset(d.name, d.variants->Some_0, k, block_body())
            < arm_offset(d.name, d.variants->Some_0, k + 1, block_body()),
{
    let vs = d.variants->Some_0;
    let en = d.name;
    let n = vs.len();
    lemma_first_bad_none(vs, n);
    let name = dispatch_name_of(en);
    let ae = arms(en, vs, n, expr_body());
    let ab = arms(en, vs, n, block_body());
    let t = expansion(en, vs);
    assert(generate_spec(d) == Ok::<Seq<char>, Failure>(t));
    lemma_arm_in_arms(en, vs, k, n, expr_body());
    lemma_arm_in_arms(en, vs, k, n, block_body());
    let pe = arm(en, vs[k].0, expr_body());
    let pb = arm(en, vs[k].0, block_body());
    let oe = arm_offset(en, vs, k, expr_body());
    let ob = arm_offset(en, vs, k, block_body());
    let se = expr_arms_start(en);
    let sb = block_arms_start(en, vs);
    let pre = head_text() + name + expr_open_text();
    assert(t == pre + ae + block_open_text() + ab + crate::emit::tail_text()
        + crate::emit::alias_macro(name));
    assert(t.subrange(se + oe, se + oe + pe.len()) =~= ae.subrange(oe, oe + pe.len()));
    assert(t.subrange(sb + ob, sb + ob + pb.len()) =~= ab.subrange(ob, ob + pb.len()));
    if k + 1 < n {
        lemma_arm_in_arms(en, vs, k + 1, n, expr_body());
        lemma_arm_in_arms(en, vs, k + 1, n, block_body());
    }
}

} // verus!
