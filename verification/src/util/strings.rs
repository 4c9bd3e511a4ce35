use vstd::prelude::*;

verus! {

/// Appends one character to a string (`String::push`); std documents that the
/// character is added at the end and nothing else changes.
#[verifier::external_body]
pub(crate) fn string_push(s: &mut String, c: char)
    ensures
        final(s)@ == old(s)@.push(c),
{
    s.push(c);
}

/// Removes the last character of a string (`String::pop`); std documents that it
/// returns `None` on an empty string and otherwise the removed last character.
#[verifier::external_body]
pub(crate) fn string_pop(s: &mut String) -> (res: Option<char>)
    ensures
        old(s)@.len() == 0 ==> res is None && final(s)@ == old(s)@,
        old(s)@.len() > 0 ==> res == Some(old(s)@.last()) && final(s)@ == old(s)@.drop_last(),
{
    s.pop()
}

/// The decimal digit character of `d` (for `d < 10`).
pub open spec fn digit_char(d: nat) -> char {
    if d == 0 { '0' }
    else if d == 1 { '1' }
    else if d == 2 { '2' }
    else if d == 3 { '3' }
    else if d == 4 { '4' }
    else if d == 5 { '5' }
    else if d == 6 { '6' }
    else if d == 7 { '7' }
    else if d == 8 { '8' }
    else { '9' }
}

/// The decimal representation of `n`, without leading zeros.
pub open spec fn decimal(n: nat) -> Seq<char>
    decreases n,
{
    if n < 10 {
        seq![digit_char(n)]
    } else {
        decimal(n / 10).push(digit_char(n % 10))
    }
}

fn digit(d: u32) -> (c: char)
    requires
        d < 10,
    ensures
        c == digit_char(d as nat),
{
    match d {
        0 => '0',
        1 => '1',
        2 => '2',
        3 => '3',
        4 => '4',
        5 => '5',
        6 => '6',
        7 => '7',
        8 => '8',
        _ => '9',
    }
}

/// Appends the decimal representation of `n` to `s`.
pub fn push_decimal(s: &mut String, n: u32)
    ensures
        final(s)@ == old(s)@ + decimal(n as nat),
    decreases n,
{
    if n >= 10 {
        push_decimal(s, n / 10);
    }
    string_push(s, digit(n % 10));
    proof {
        assert(decimal(n as nat) == if n < 10 { seq![digit_char(n as nat)] } else {
            decimal((n / 10) as nat).push(digit_char((n % 10) as nat))
        });
    }
}

} // verus!

verus! {

/// Whether two strings hold the same characters.
pub fn str_eq(a: &str, b: &str) -> (res: bool)
    ensures
        res == (a@ == b@),
{
    let n = a.unicode_len();
    let m = b.unicode_len();
    if n != m {
        return false;
    }
    let mut i: usize = 0;
    while i < n
        invariant
            i <= n,
            n == a@.len(),
            m == b@.len(),
            n == m,
            forall|k: int| 0 <= k < i ==> a@[k] == b@[k],
        decreases n - i,
    {
        if a.get_char(i) != b.get_char(i) {
            return false;
        }
        i = i + 1;
    }
    assert(a@ =~= b@);
    true
}

/// Position of the first pair whose key is `key`, looking only at `s`.
pub open spec fn find_first<T>(s: Seq<(String, T)>, key: Seq<char>) -> Option<int>
    decreases s.len(),
{
    if s.len() == 0 {
        None
    } else {
        match find_first(s.drop_last(), key) {
            Some(i) => Some(i),
            None => if s.last().0@ == key { Some(s.len() - 1) } else { None },
        }
    }
}

/// `find_first` gives the first position whose key matches.
pub proof fn lemma_find_first<T>(s: Seq<(String, T)>, key: Seq<char>)
    ensures
        find_first(s, key) matches Some(i) ==> 0 <= i < s.len() && s[i].0@ == key
            && forall|k: int| 0 <= k < i ==> (#[trigger] s[k]).0@ != key,
        find_first(s, key) is None ==> forall|k: int| 0 <= k < s.len() ==> (#[trigger] s[k]).0@ != key,
    decreases s.len(),
{
    if s.len() > 0 {
        let t = s.drop_last();
        lemma_find_first(t, key);
        match find_first(t, key) {
            Some(i) => {
                assert(s[i] == t[i]);
                assert forall|k: int| 0 <= k < i implies (#[trigger] s[k]).0@ != key by {
                    assert(s[k] == t[k]);
                }
            },
            None => {
                assert forall|k: int| 0 <= k < s.len() - 1 implies (#[trigger] s[k]).0@ != key by {
                    assert(s[k] == t[k]);
                }
            },
        }
    }
}

/// No key occurs twice among the pairs, as in a map keyed by name.
pub open spec fn keys_unique<T>(s: Seq<(String, T)>) -> bool {
    forall|i: int, j: int| 0 <= i < j < s.len() ==> (#[trigger] s[i]).0@ != (#[trigger] s[j]).0@
}

/// With unique keys, looking up the key of a pair finds that pair.
pub proof fn lemma_find_unique<T>(s: Seq<(String, T)>, i: int)
    requires
        keys_unique(s),
        0 <= i < s.len(),
    ensures
        find_first(s, s[i].0@) == Some(i),
{
    lemma_find_first(s, s[i].0@);
    if let Some(j) = find_first(s, s[i].0@) {
        if j < i {
            assert(s[j].0@ != s[i].0@);
        }
    }
}

/// The position of the first pair keyed by `key`.
pub fn position_of<T>(v: &Vec<(String, T)>, key: &str) -> (res: Option<usize>)
    ensures
        res matches Some(i) ==> find_first(v@, key@) == Some(i as int) && i < v@.len()
            && v@[i as int].0@ == key@,
        res is None ==> find_first(v@, key@) is None,
{
    proof {
        lemma_find_first(v@, key@);
    }
    let mut i: usize = 0;
    while i < v.len()
        invariant
            i <= v@.len(),
            find_first(v@.take(i as int), key@) is None,
        decreases v@.len() - i,
    {
        assert(v@.take(i + 1).drop_last() =~= v@.take(i as int));
        if str_eq(v[i].0.as_str(), key) {
            proof {
                lemma_find_first_prefix(v@, key@, i as int);
            }
            return Some(i);
        }
        i = i + 1;
    }
    assert(v@.take(v@.len() as int) =~= v@);
    None
}

/// When no key in the first `i` pairs matches and pair `i` does, `i` is the first match.
pub proof fn lemma_find_first_prefix<T>(s: Seq<(String, T)>, key: Seq<char>, i: int)
    requires
        0 <= i < s.len(),
        find_first(s.take(i), key) is None,
        s[i].0@ == key,
    ensures
        find_first(s, key) == Some(i),
{
    lemma_find_first(s.take(i), key);
    lemma_find_first(s, key);
    if let Some(j) = find_first(s, key) {
        if j < i {
            assert(s.take(i)[j] == s[j]);
        }
    }
}

} // verus!
