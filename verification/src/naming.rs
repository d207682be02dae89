//! The names of declared fields: in words joined by underscores inside the
//! library, in camelCase where they are written.

use vstd::prelude::*;
use vstd::string::StrSliceExecFns;

verus! {

pub open spec fn is_lower(c: char) -> bool {
    'a' <= c <= 'z'
}

pub open spec fn is_upper(c: char) -> bool {
    'A' <= c <= 'Z'
}

pub open spec fn is_digit(c: char) -> bool {
    '0' <= c <= '9'
}

/// The capital of a small letter.
pub open spec fn upper(c: char) -> char {
    ((c as u32) - 32) as char
}

/// The small letter of a capital.
pub open spec fn lower(c: char) -> char {
    ((c as u32) + 32) as char
}

/// An internal name: small letters, digits and underscores, each underscore
/// with a small letter behind it.
pub open spec fn is_snake(s: Seq<char>) -> bool {
    forall|i: int|
        0 <= i < s.len() ==> {
            ||| is_lower(#[trigger] s[i])
            ||| is_digit(s[i])
            ||| s[i] == '_' && i + 1 < s.len() && is_lower(s[i + 1])
        }
}

/// The name as it is written: each underscore goes, and the small letter
/// behind it becomes a capital.
pub open spec fn camel(s: Seq<char>) -> Seq<char>
    decreases s.len(),
{
    if s.len() == 0 {
        Seq::empty()
    } else if s[0] == '_' && s.len() >= 2 && is_lower(s[1]) {
        seq![upper(s[1])] + camel(s.skip(2))
    } else {
        seq![s[0]] + camel(s.skip(1))
    }
}

/// The internal name of a written name: each capital becomes an underscore
/// and its small letter.
pub open spec fn snake(w: Seq<char>) -> Seq<char>
    decreases w.len(),
{
    if w.len() == 0 {
        Seq::empty()
    } else if is_upper(w[0]) {
        seq!['_', lower(w[0])] + snake(w.skip(1))
    } else {
        seq![w[0]] + snake(w.skip(1))
    }
}

/// The internal name is found again from the written name.
pub proof fn lemma_snake_of_camel(s: Seq<char>)
    requires
        is_snake(s),
    ensures
        snake(camel(s)) == s,
    decreases s.len(),
{
    if s.len() == 0 {
    } else if s[0] == '_' && s.len() >= 2 && is_lower(s[1]) {
        let rest = s.skip(2);
        assert forall|i: int| 0 <= i < rest.len() implies {
            ||| is_lower(#[trigger] rest[i])
            ||| is_digit(rest[i])
            ||| rest[i] == '_' && i + 1 < rest.len() && is_lower(rest[i + 1])
        } by {
            assert(rest[i] == s[i + 2]);
        }
        lemma_snake_of_camel(rest);
        let w = camel(s);
        assert(w[0] == upper(s[1]));
        assert(is_upper(w[0]));
        assert(lower(w[0]) == s[1]);
        assert(w.skip(1) =~= camel(rest));
        assert(seq!['_', s[1]] + rest =~= s);
    } else {
        let rest = s.skip(1);
        assert forall|i: int| 0 <= i < rest.len() implies {
            ||| is_lower(#[trigger] rest[i])
            ||| is_digit(rest[i])
            ||| rest[i] == '_' && i + 1 < rest.len() && is_lower(rest[i + 1])
        } by {
            assert(rest[i] == s[i + 1]);
        }
        lemma_snake_of_camel(rest);
        let w = camel(s);
        assert(w[0] == s[0]);
        assert(is_lower(s[0]) || is_digit(s[0]));
        assert(w.skip(1) =~= camel(rest));
        assert(seq![s[0]] + rest =~= s);
    }
}

/// Two internal names are written as two names: no two fields collapse
/// into one name.
pub proof fn lemma_wire_names_apart(a: Seq<char>, b: Seq<char>)
    requires
        is_snake(a),
        is_snake(b),
        a != b,
    ensures
        camel(a) != camel(b),
{
    lemma_snake_of_camel(a);
    lemma_snake_of_camel(b);
}

/// `String::push` of std: the string with one more character.
#[verifier::external_body]
fn push_char(s: &mut String, c: char)
    ensures
        final(s)@ == old(s)@.push(c),
{
    s.push(c)
}

/// The name under which a field with the internal name `internal` is
/// written.
pub fn wire_name(internal: &str) -> (name: String)
    ensures
        name@ == camel(internal@),
{
    let n = internal.unicode_len();
    let mut out = String::new();
    let mut i: usize = 0;
    assert(internal@.skip(0) =~= internal@);
    assert(out@ + camel(internal@) =~= camel(internal@));
    while i < n
        invariant
            i <= n,
            n == internal@.len(),
            out@ + camel(internal@.skip(i as int)) == camel(internal@),
        decreases n - i,
    {
        let ghost rest = internal@.skip(i as int);
        let ghost before = out@;
        let c = internal.get_char(i);
        assert(rest[0] == c);
        if c == '_' && i + 1 < n {
            let d = internal.get_char(i + 1);
            assert(rest[1] == d);
            if 'a' <= d && d <= 'z' {
                let capital = ((d as u8) - 32) as char;
                push_char(&mut out, capital);
                assert(rest.skip(2) =~= internal@.skip(i + 2));
                assert(out@ + camel(rest.skip(2)) =~= before + camel(rest));
                i += 2;
                continue ;
            }
        }
        push_char(&mut out, c);
        assert(rest.skip(1) =~= internal@.skip(i + 1));
        assert(out@ + camel(rest.skip(1)) =~= before + camel(rest));
        i += 1;
    }
    assert(camel(internal@.skip(i as int)) =~= Seq::empty());
    assert(out@ + Seq::<char>::empty() =~= out@);
    out
}

/// The internal name of the field that is written under the name `wire`.
pub fn internal_name(wire: &str) -> (name: String)
    ensures
        name@ == snake(wire@),
{
    let n = wire.unicode_len();
    let mut out = String::new();
    let mut i: usize = 0;
    assert(wire@.skip(0) =~= wire@);
    assert(out@ + snake(wire@) =~= snake(wire@));
    while i < n
        invariant
            i <= n,
            n == wire@.len(),
            out@ + snake(wire@.skip(i as int)) == snake(wire@),
        decreases n - i,
    {
        let ghost rest = wire@.skip(i as int);
        let ghost before = out@;
        let c = wire.get_char(i);
        assert(rest[0] == c);
        assert(rest.skip(1) =~= wire@.skip(i + 1));
        if 'A' <= c && c <= 'Z' {
            let small = ((c as u8) + 32) as char;
            push_char(&mut out, '_');
            push_char(&mut out, small);
            assert(out@ + snake(rest.skip(1)) =~= before + snake(rest));
        } else {
            push_char(&mut out, c);
            assert(out@ + snake(rest.skip(1)) =~= before + snake(rest));
        }
        i += 1;
    }
    assert(snake(wire@.skip(i as int)) =~= Seq::empty());
    assert(out@ + Seq::<char>::empty() =~= out@);
    out
}

} // verus!
