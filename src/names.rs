//! Names derived from schema field names: the case conversions and the
//! corrections applied to known irregular spellings.

use vstd::prelude::*;

verus! {

/// What heck's PascalCase conversion makes of a name.
pub uninterp spec fn pascal_case_of(s: Seq<char>) -> Seq<char>;

/// What heck's snake_case conversion makes of a name.
pub uninterp spec fn snake_case_of(s: Seq<char>) -> Seq<char>;

/// Relies on heck 0.5 `ToPascalCase::to_pascal_case` for `str`: its result
/// depends on the characters of `s` alone.
#[verifier::external_body]
pub(crate) fn to_pascal(s: &str) -> (r: String)
    ensures
        r@ == pascal_case_of(s@),
{
    heck::ToPascalCase::to_pascal_case(s)
}

/// Relies on heck 0.5 `ToSnakeCase::to_snake_case` for `str`: its result
/// depends on the characters of `s` alone.
#[verifier::external_body]
pub(crate) fn to_snake(s: &str) -> (r: String)
    ensures
        r@ == snake_case_of(s@),
{
    heck::ToSnakeCase::to_snake_case(s)
}

/// `s` with every non-overlapping occurrence of `from` replaced by `to`,
/// scanning from the left.
pub open spec fn replaced(s: Seq<char>, from: Seq<char>, to: Seq<char>) -> Seq<char>
    decreases s.len(),
{
    if s.len() == 0 || from.len() == 0 {
        s
    } else if from.len() <= s.len() && s.take(from.len() as int) == from {
        to + replaced(s.skip(from.len() as int), from, to)
    } else {
        seq![s[0]] + replaced(s.skip(1), from, to)
    }
}

/// Whether `pat` occurs in `s` at character position `i`.
fn occurs_at(s: &str, i: usize, pat: &str) -> (r: bool)
    requires
        i <= s@.len(),
    ensures
        r == (pat@.len() <= s@.len() - i && s@.skip(i as int).take(pat@.len() as int) == pat@),
{
    let n = s.unicode_len();
    let m = pat.unicode_len();
    if m > n - i {
        return false;
    }
    let mut j: usize = 0;
    while j < m
        invariant
            n == s@.len(),
            m == pat@.len(),
            i + m <= n,
            j <= m,
            forall|k: int| 0 <= k < j ==> s@[i + k] == pat@[k],
        decreases m - j,
    {
        if s.get_char(i + j) != pat.get_char(j) {
            assert(s@.skip(i as int).take(m as int)[j as int] != pat@[j as int]);
            return false;
        }
        j = j + 1;
    }
    assert(s@.skip(i as int).take(m as int) =~= pat@);
    true
}

/// Replaces every non-overlapping occurrence of `from` in `s` by `to`; an
/// empty `from` leaves `s` as it is.
pub fn replace_all(s: &str, from: &str, to: &str) -> (r: String)
    ensures
        r@ == replaced(s@, from@, to@),
{
    let n = s.unicode_len();
    let m = from.unicode_len();
    if m == 0 {
        return String::from_str(s);
    }
    let mut out = String::new();
    let mut i: usize = 0;
    assert(s@.skip(0) =~= s@);
    assert(out@ + replaced(s@, from@, to@) =~= replaced(s@, from@, to@));
    while i < n
        invariant
            n == s@.len(),
            m == from@.len(),
            m > 0,
            i <= n,
            out@ + replaced(s@.skip(i as int), from@, to@) == replaced(s@, from@, to@),
        decreases n - i,
    {
        let ghost rest = s@.skip(i as int);
        let ghost before = out@;
        if occurs_at(s, i, from) {
            assert(rest.take(m as int) == from@);
            assert(rest.skip(m as int) =~= s@.skip(i + m));
            out.append(to);
            i = i + m;
            assert(before + (to@ + replaced(s@.skip(i as int), from@, to@)) =~= out@ + replaced(
                s@.skip(i as int),
                from@,
                to@,
            ));
        } else {
            let c = s.substring_char(i, i + 1);
            assert(c@ =~= seq![rest[0]]);
            assert(rest.skip(1) =~= s@.skip(i + 1));
            out.append(c);
            i = i + 1;
            assert(before + (c@ + replaced(s@.skip(i as int), from@, to@)) =~= out@ + replaced(
                s@.skip(i as int),
                from@,
                to@,
            ));
        }
    }
    assert(s@.skip(n as int) =~= Seq::<char>::empty());
    assert(out@ + Seq::<char>::empty() =~= out@);
    out
}

/// The spelling corrections, applied in order, each as (irregular, regular).
/// `OAuth` becomes `Oauth`, so that case conversion treats it as one word.
pub open spec fn corrections() -> Seq<(Seq<char>, Seq<char>)> {
    seq![("OAuth"@, "Oauth"@)]
}

/// `name` after replacing every occurrence of each table entry, in order.
pub open spec fn corrected(name: Seq<char>, table: Seq<(Seq<char>, Seq<char>)>) -> Seq<char>
    decreases table.len(),
{
    if table.len() == 0 {
        name
    } else {
        corrected(replaced(name, table[0].0, table[0].1), table.skip(1))
    }
}

/// A field name after the spelling corrections.
pub open spec fn sanitized(name: Seq<char>) -> Seq<char> {
    corrected(name, corrections())
}

/// The table of spelling corrections.
fn correction_table() -> (r: Vec<(&'static str, &'static str)>)
    ensures
        r@.len() == corrections().len(),
        forall|i: int|
            0 <= i < r@.len() ==> (#[trigger] r@[i]).0@ == corrections()[i].0 && r@[i].1@
                == corrections()[i].1,
{
    let mut r: Vec<(&'static str, &'static str)> = Vec::new();
    r.push(("OAuth", "Oauth"));
    r
}

/// Applies the spelling corrections to a field name.
pub fn sanitize_name(name: String) -> (r: String)
    ensures
        r@ == sanitized(name@),
{
    let table = correction_table();
    let mut current = name;
    let mut i: usize = 0;
    assert(corrections().skip(0) =~= corrections());
    while i < table.len()
        invariant
            i <= table@.len(),
            table@.len() == corrections().len(),
            forall|k: int|
                0 <= k < table@.len() ==> (#[trigger] table@[k]).0@ == corrections()[k].0
                    && table@[k].1@ == corrections()[k].1,
            corrected(current@, corrections().skip(i as int)) == sanitized(name@),
        decreases table.len() - i,
    {
        let (from, to) = table[i];
        assert(corrections().skip(i as int).skip(1) =~= corrections().skip(i + 1));
        current = replace_all(current.as_str(), from, to);
        i = i + 1;
    }
    assert(corrections().skip(i as int) =~= Seq::<(Seq<char>, Seq<char>)>::empty());
    current
}

/// The operation name of a root field: PascalCase of the corrected name.
pub fn operation_name(field_name: &String) -> (r: String)
    ensures
        r@ == pascal_case_of(sanitized(field_name@)),
{
    let s = sanitize_name(field_name.clone());
    to_pascal(s.as_str())
}

/// The module and method name of a root field: snake_case of the corrected
/// name.
pub fn module_name(field_name: &String) -> (r: String)
    ensures
        r@ == snake_case_of(sanitized(field_name@)),
{
    let s = sanitize_name(field_name.clone());
    to_snake(s.as_str())
}

/// The name of a declared variable: snake_case of the argument name.
pub fn variable_name(arg_name: &String) -> (r: String)
    ensures
        r@ == snake_case_of(arg_name@),
{
    to_snake(arg_name.as_str())
}

/// The fragment name of a leaf type: PascalCase of the type name.
pub fn fragment_name(leaf: &String) -> (r: String)
    ensures
        r@ == pascal_case_of(leaf@),
{
    to_pascal(leaf.as_str())
}

} // verus!
