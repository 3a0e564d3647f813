use vstd::prelude::*;

use crate::digits::all_digits;
use crate::digits::digit_of_char;

verus! {

/// A validator that passes inputs strictly longer than `length` characters.
pub fn min_length(length: usize) -> (r: impl Fn(&str) -> bool)
    ensures
        forall|s: &str| #[trigger] call_requires(r, (s,)),
        forall|s: &str, b: bool| #[trigger] call_ensures(r, (s,), b) ==> b == (s@.len() > length),
{
    move |input: &str| -> (b: bool)
        ensures
            b == (input@.len() > length),
        { input.unicode_len() > length }
}

/// A validator that passes inputs made of decimal digits alone.
pub fn is_digits_only() -> (r: impl Fn(&str) -> bool)
    ensures
        forall|s: &str| #[trigger] call_requires(r, (s,)),
        forall|s: &str, b: bool| #[trigger] call_ensures(r, (s,), b) ==> b == all_digits(s@),
{
    |input: &str| -> (b: bool)
        ensures
            b == all_digits(input@),
        {
            let n = input.unicode_len();
            let mut i: usize = 0;
            let mut ok = true;
            while i < n
                invariant
                    n == input@.len(),
                    0 <= i <= n,
                    ok == all_digits(input@.take(i as int)),
                decreases n - i,
            {
                let c = input.get_char(i);
                let digit = digit_of_char(c).is_some();
                proof {
                    assert(input@.take(i + 1).drop_last() =~= input@.take(i as int));
                    assert(input@.take(i + 1).last() == input@[i as int]);
                }
                ok = ok && digit;
                i = i + 1;
            }
            proof {
                assert(input@.take(n as int) =~= input@);
            }
            ok
        }
}

/// Whether any character of `s` occurs in `illegals`.
pub open spec fn has_illegal_char(illegals: Seq<char>, s: Seq<char>) -> bool {
    exists|i: int| 0 <= i < s.len() && illegals.contains(#[trigger] s[i])
}

/// A validator that flags inputs holding any of the given characters.
pub fn illegal_chars(illegals: Vec<char>) -> (r: impl Fn(&str) -> bool)
    ensures
        forall|s: &str| #[trigger] call_requires(r, (s,)),
        forall|s: &str, b: bool| #[trigger] call_ensures(r, (s,), b) ==> b == has_illegal_char(
            illegals@,
            s@,
        ),
{
    move |input: &str| -> (b: bool)
        ensures
            b == has_illegal_char(illegals@, input@),
        {
            let n = input.unicode_len();
            let mut i: usize = 0;
            while i < n
                invariant
                    n == input@.len(),
                    0 <= i <= n,
                    forall|k: int| 0 <= k < i ==> !illegals@.contains(#[trigger] input@[k]),
                decreases n - i,
            {
                let c = input.get_char(i);
                let mut j: usize = 0;
                while j < illegals.len()
                    invariant
                        0 <= j <= illegals@.len(),
                        c == input@[i as int],
                        0 <= i < input@.len(),
                        forall|k: int| 0 <= k < j ==> illegals@[k] != c,
                    decreases illegals@.len() - j,
                {
                    if illegals[j] == c {
                        return true;
                    }
                    j = j + 1;
                }
                proof {
                    assert(!illegals@.contains(input@[i as int]));
                }
                i = i + 1;
            }
            false
        }
}

} // verus!
