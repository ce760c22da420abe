use vstd::prelude::*;

verus! {

/// Whether two string slices hold the same characters.
pub fn text_eq(a: &str, b: &str) -> (r: bool)
    ensures
        r == (a@ == b@),
{
    a.to_owned() == b.to_owned()
}

/// The concatenation of two string slices.
pub fn join2(a: &str, b: &str) -> (r: String)
    ensures
        r@ == a@ + b@,
{
    let mut s = a.to_owned();
    s.append(b);
    s
}

/// The concatenation of three string slices.
pub fn join3(a: &str, b: &str, c: &str) -> (r: String)
    ensures
        r@ == a@ + b@ + c@,
{
    let mut s = a.to_owned();
    s.append(b);
    s.append(c);
    s
}

/// Whether a character is the ASCII space.
pub open spec fn not_space(c: char) -> bool {
    c != ' '
}

/// The filter that keeps every character but the ASCII space.
pub open spec fn keeps_char() -> spec_fn(char) -> bool {
    |c: char| not_space(c)
}

/// The characters of `s` with every ASCII space removed.
pub open spec fn spec_strip_spaces(s: Seq<char>) -> Seq<char> {
    s.filter(keeps_char())
}

/// Removes every ASCII space, as `str::replace(' ', "")` does.
pub fn strip_spaces(s: &str) -> (r: String)
    ensures
        r@ == spec_strip_spaces(s@),
        !r@.contains(' '),
{
    let n = s.unicode_len();
    let mut out = String::new();
    let mut i: usize = 0;
    proof {
        reveal_with_fuel(Seq::<_>::filter, 1);
        assert(s@.take(0) =~= Seq::<char>::empty());
        assert(out@ =~= spec_strip_spaces(s@.take(0)));
    }
    while i < n
        invariant
            n == s@.len(),
            i <= n,
            out@ == spec_strip_spaces(s@.take(i as int)),
        decreases n - i,
    {
        let c = s.get_char(i);
        proof {
            reveal_with_fuel(Seq::<_>::filter, 1);
            assert(s@.take(i + 1).drop_last() =~= s@.take(i as int));
            assert(s@.take(i + 1).last() == c);
        }
        if c != ' ' {
            let piece = s.substring_char(i, i + 1);
            proof {
                assert(piece@ =~= seq![c]);
            }
            out.append(piece);
            proof {
                assert(out@ =~= spec_strip_spaces(s@.take(i as int)).push(c));
            }
        }
        i = i + 1;
    }
    proof {
        assert(s@.take(n as int) =~= s@);
        assert forall|k: int| 0 <= k < out@.len() implies out@[k] != ' ' by {
            s@.lemma_filter_pred(keeps_char(), k);
        }
    }
    out
}

/// Removing spaces works character by character: it keeps every other
/// character, in order, and distributes over concatenation.
pub proof fn strip_spaces_law(s: Seq<char>, t: Seq<char>, c: char)
    ensures
        spec_strip_spaces(s + t) == spec_strip_spaces(s) + spec_strip_spaces(t),
        spec_strip_spaces(seq![c]) == if c == ' ' {
            Seq::<char>::empty()
        } else {
            seq![c]
        },
{
    reveal_with_fuel(Seq::<_>::filter, 2);
    Seq::filter_distributes_over_add(s, t, keeps_char());
    assert(seq![c].drop_last() =~= Seq::<char>::empty());
}

} // verus!
