use vstd::prelude::*;
use vstd::string::StrSliceExecFns;
use vstd::string::StringExecFns;

verus! {

/// Unicode's Uppercase property, for a character outside ASCII.
pub uninterp spec fn upper_of(c: char) -> bool;

/// Unicode's lowercase mapping, for a character outside ASCII.
pub uninterp spec fn lower_of(c: char) -> Seq<char>;

/// Whether `c` is an ASCII character.
pub open spec fn is_ascii_char(c: char) -> bool {
    (c as u32) < 128
}

/// Whether `c` is an uppercase letter.
pub open spec fn is_upper(c: char) -> bool {
    if is_ascii_char(c) {
        'A' <= c && c <= 'Z'
    } else {
        upper_of(c)
    }
}

/// The ASCII letter one case below `c`.
pub open spec fn ascii_lower(c: char) -> char {
    (((c as u32) + 32) as u8) as char
}

/// The lowercase form of `c`, as one or more characters.
pub open spec fn lower(c: char) -> Seq<char> {
    if is_ascii_char(c) {
        if 'A' <= c && c <= 'Z' {
            seq![ascii_lower(c)]
        } else {
            seq![c]
        }
    } else {
        lower_of(c)
    }
}

/// Relies on `char::is_uppercase`: whether `c` has Unicode's Uppercase
/// property, which among ASCII characters only `A` to `Z` have.
#[verifier::external_body]
fn char_is_upper(c: char) -> (r: bool)
    ensures
        is_ascii_char(c) ==> (r <==> ('A' <= c && c <= 'Z')),
        !is_ascii_char(c) ==> r == upper_of(c),
{
    c.is_uppercase()
}

/// Relies on `char::to_lowercase`: the lowercase mapping of `c`, which maps
/// `A` to `Z` onto `a` to `z` and leaves every other ASCII character as it is.
#[verifier::external_body]
fn char_lower(c: char) -> (r: String)
    ensures
        is_ascii_char(c) && 'A' <= c && c <= 'Z' ==> r@ == seq![ascii_lower(c)],
        is_ascii_char(c) && !('A' <= c && c <= 'Z') ==> r@ == seq![c],
        !is_ascii_char(c) ==> r@ == lower_of(c),
{
    c.to_lowercase().to_string()
}

/// Relies on `String::push`: appends `c` at the end of `s`.
#[verifier::external_body]
fn push_char(s: &mut String, c: char)
    ensures
        final(s)@ == old(s)@.push(c),
{
    s.push(c)
}

/// What the character at `i` of `s` becomes in snake case: an uppercase
/// letter is lowered and, unless it opens the name, gets a `_` before it.
pub open spec fn snake_piece(s: Seq<char>, i: int) -> Seq<char> {
    if is_upper(s[i]) {
        if i == 0 {
            lower(s[i])
        } else {
            seq!['_'] + lower(s[i])
        }
    } else {
        seq![s[i]]
    }
}

/// The snake-case form of the first `n` characters of `s`.
pub open spec fn snake_prefix(s: Seq<char>, n: nat) -> Seq<char>
    decreases n,
{
    if n == 0 {
        Seq::empty()
    } else {
        snake_prefix(s, (n - 1) as nat) + snake_piece(s, n - 1)
    }
}

/// The snake-case form of a camel-case name.
pub open spec fn snake_case(s: Seq<char>) -> Seq<char> {
    snake_prefix(s, s.len())
}

/// The text placed in front of the snake-case form of a type name.
pub open spec fn dispatch_prefix() -> Seq<char> {
    seq!['v', 'i', 's', 'i', 't', '_']
}

/// The name of the dispatch construct made for the type called `ty_name`.
pub open spec fn dispatch_name_of(ty_name: Seq<char>) -> Seq<char> {
    dispatch_prefix() + snake_case(ty_name)
}

/// Converts an upper-camel-case name into lower snake case: `FooBar`
/// becomes `foo_bar`, and characters that are not letters stay as they are.
pub fn to_snake_case(name: &str) -> (r: String)
    ensures
        r@ == snake_case(name@),
{
    let mut out = String::new();
    let n = name.unicode_len();
    let mut i: usize = 0;
    while i < n
        invariant
            n == name@.len(),
            i <= n,
            out@ == snake_prefix(name@, i as nat),
        decreases n - i,
    {
        let ch = name.get_char(i);
        if char_is_upper(ch) {
            if i != 0 {
                proof {
                    reveal_strlit("_");
                }
                out.append("_");
            }
            let low = char_lower(ch);
            out.append(low.as_str());
        } else {
            push_char(&mut out, ch);
        }
        i += 1;
        proof {
            assert(out@ == snake_prefix(name@, i as nat));
        }
    }
    out
}

/// The name of the dispatch construct made for the type called `ty_name`:
/// `visit_` followed by the snake-case form of the name.
pub fn dispatch_name(ty_name: &str) -> (r: String)
    ensures
        r@ == dispatch_name_of(ty_name@),
{
    let mut r = String::new();
    proof {
        reveal_strlit("visit_");
    }
    r.append("visit_");
    let snake = to_snake_case(ty_name);
    r.append(snake.as_str());
    proof {
        assert(r@ == dispatch_name_of(ty_name@));
    }
    r
}

} // verus!
