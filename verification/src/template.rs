//! Substitution of a placeholder token in a URL template.

use crate::text::chars_of;
use vstd::prelude::*;
use vstd::string::*;

verus! {

/// `String::push` appends one character and leaves what was there before as it was.
pub assume_specification[ String::push ](s: &mut String, ch: char)
    ensures
        final(s)@ == old(s)@.push(ch),
;

/// Whether `token` stands in `s` at position `i`.
pub open spec fn occurs_at(s: Seq<char>, token: Seq<char>, i: int) -> bool {
    &&& 0 <= i
    &&& i + token.len() <= s.len()
    &&& forall|j: int| 0 <= j < token.len() ==> s[i + j] == #[trigger] token[j]
}

/// `s` from position `i` on, with each occurrence of `token` replaced by `with`. Occurrences
/// are found from the left and do not overlap; an empty token occurs nowhere.
pub open spec fn replaced_from(s: Seq<char>, token: Seq<char>, with: Seq<char>, i: int) -> Seq<
    char,
>
    decreases s.len() - i,
{
    if i < 0 || i >= s.len() {
        Seq::empty()
    } else if token.len() > 0 && occurs_at(s, token, i) {
        with + replaced_from(s, token, with, i + token.len())
    } else {
        seq![s[i]] + replaced_from(s, token, with, i + 1)
    }
}

/// `s` with each occurrence of `token` replaced by `with`.
pub open spec fn replace_all(s: Seq<char>, token: Seq<char>, with: Seq<char>) -> Seq<char> {
    replaced_from(s, token, with, 0)
}

/// Whether `token` stands in `s` at position `i`.
pub fn token_at(s: &Vec<char>, token: &Vec<char>, i: usize) -> (found: bool)
    ensures
        found == occurs_at(s@, token@, i as int),
{
    if token.len() > s.len() || i > s.len() - token.len() {
        return false;
    }
    let mut j: usize = 0;
    while j < token.len()
        invariant
            j <= token.len(),
            i + token.len() <= s.len(),
            forall|k: int| 0 <= k < j ==> s@[i + k] == #[trigger] token@[k],
        decreases token.len() - j,
    {
        if s[i + j] != token[j] {
            return false;
        }
        j = j + 1;
    }
    true
}

/// Replaces each occurrence of `token` in `template` by `with`.
pub fn replace_token(template: &str, token: &str, with: &str) -> (out: String)
    ensures
        out@ == replace_all(template@, token@, with@),
{
    let s = chars_of(template);
    let t = chars_of(token);
    let mut out = String::new();
    let mut i: usize = 0;
    while i < s.len()
        invariant
            i <= s.len(),
            s@ == template@,
            t@ == token@,
            out@ + replaced_from(s@, t@, with@, i as int) == replace_all(s@, t@, with@),
        decreases s.len() - i,
    {
        let ghost before = out@;
        if t.len() > 0 && token_at(&s, &t, i) {
            out.append(with);
            assert(out@ + replaced_from(s@, t@, with@, i + t.len()) =~= before + replaced_from(
                s@,
                t@,
                with@,
                i as int,
            ));
            i = i + t.len();
        } else {
            out.push(s[i]);
            assert(out@ + replaced_from(s@, t@, with@, i + 1) =~= before + replaced_from(
                s@,
                t@,
                with@,
                i as int,
            ));
            i = i + 1;
        }
    }
    assert(out@ + Seq::<char>::empty() =~= out@);
    out
}

/// A template in which the token does not occur is left as it is.
pub proof fn lemma_replace_without_token(s: Seq<char>, token: Seq<char>, with: Seq<char>)
    requires
        forall|i: int| !occurs_at(s, token, i),
    ensures
        replace_all(s, token, with) == s,
{
    lemma_replaced_without_token(s, token, with, 0);
    assert(s.skip(0) =~= s);
}

proof fn lemma_replaced_without_token(s: Seq<char>, token: Seq<char>, with: Seq<char>, i: int)
    requires
        0 <= i <= s.len(),
        forall|k: int| !occurs_at(s, token, k),
    ensures
        replaced_from(s, token, with, i) == s.skip(i),
    decreases s.len() - i,
{
    if i < s.len() {
        lemma_replaced_without_token(s, token, with, i + 1);
        assert(!occurs_at(s, token, i));
        assert(seq![s[i]] + s.skip(i + 1) =~= s.skip(i));
    } else {
        assert(s.skip(i) =~= Seq::<char>::empty());
    }
}

} // verus!
