use vstd::prelude::*;
use vstd::string::StringExecFns;

verus! {

pub open spec fn is_digit(c: char) -> bool {
    '0' <= c && c <= '9'
}

/// The number that a run of decimal digits writes.
pub open spec fn digits_value(s: Seq<char>) -> nat
    decreases s.len(),
{
    if s.len() == 0 {
        0
    } else {
        digits_value(s.drop_last()) * 10 + (s.last() as nat - '0' as nat) as nat
    }
}

/// The digits of a number, without the sign that may lead them.
pub open spec fn unsigned_digits(s: Seq<char>) -> Seq<char> {
    if s.len() > 0 && s[0] == '+' {
        s.drop_first()
    } else {
        s
    }
}

/// The number that `u64::from_str` reads from `s`: an optional `+`, then one
/// or more decimal digits whose value fits in 64 bits; anything else is
/// refused.
pub open spec fn parse_u64(s: Seq<char>) -> Option<u64> {
    let d = unsigned_digits(s);
    if d.len() > 0 && (forall|i: int| 0 <= i < d.len() ==> is_digit(#[trigger] d[i]))
        && digits_value(d) <= u64::MAX {
        Some(digits_value(d) as u64)
    } else {
        None
    }
}

proof fn digits_value_grows(s: Seq<char>, j: int)
    requires
        0 <= j <= s.len(),
        forall|i: int| 0 <= i < s.len() ==> is_digit(#[trigger] s[i]),
    ensures
        digits_value(s.subrange(0, j)) <= digits_value(s),
    decreases s.len() - j,
{
    if j < s.len() {
        digits_value_grows(s, j + 1);
        let p = s.subrange(0, j + 1);
        assert(p.drop_last() =~= s.subrange(0, j));
        assert(is_digit(p.last()));
    } else {
        assert(s.subrange(0, j) =~= s);
    }
}

/// Reads a number as `u64::from_str` does.
pub fn parse_number(s: &str) -> (r: Option<u64>)
    ensures
        r == parse_u64(s@),
{
    let n = s.unicode_len();
    let start: usize = if n > 0 && s.get_char(0) == '+' {
        1
    } else {
        0
    };
    let ghost d = unsigned_digits(s@);
    assert(d =~= s@.subrange(start as int, n as int));
    if start == n {
        return None;
    }
    let mut value: u64 = 0;
    let mut i: usize = start;
    while i < n
        invariant
            start <= i <= n,
            n == s@.len(),
            d == s@.subrange(start as int, n as int),
            d == unsigned_digits(s@),
            forall|k: int| 0 <= k < i - start ==> is_digit(#[trigger] d[k]),
            value as nat == digits_value(d.subrange(0, i - start)),
        decreases n - i,
    {
        let c = s.get_char(i);
        let ghost p = d.subrange(0, i - start + 1);
        assert(p.drop_last() =~= d.subrange(0, i - start));
        assert(p.last() == c);
        if c < '0' || c > '9' {
            assert(!is_digit(d[i - start]));
            assert(!(forall|k: int| 0 <= k < d.len() ==> is_digit(#[trigger] d[k])));
            assert(parse_u64(s@) is None);
            return None;
        }
        let digit: u64 = (c as u32 - '0' as u32) as u64;
        let next = match value.checked_mul(10) {
            Some(v) => v.checked_add(digit),
            None => None,
        };
        match next {
            Some(v) => {
                value = v;
            },
            None => {
                proof {
                    assert(digits_value(p) > u64::MAX);
                    if forall|k: int| 0 <= k < d.len() ==> is_digit(#[trigger] d[k]) {
                        digits_value_grows(d, i - start + 1);
                        assert(digits_value(d) > u64::MAX);
                    }
                    assert(parse_u64(s@) is None);
                }
                return None;
            },
        }
        i = i + 1;
    }
    assert(d.subrange(0, n - start) =~= d);
    Some(value)
}

/// Whether `lit` stands in `s` from the character at `at` on.
fn holds_at(s: &str, at: usize, lit: &str) -> (r: bool)
    requires
        at <= s@.len(),
    ensures
        r == (at + lit@.len() <= s@.len() && s@.subrange(at as int, at + lit@.len()) == lit@),
{
    let n = s.unicode_len();
    let m = lit.unicode_len();
    if m > n - at {
        return false;
    }
    let mut k: usize = 0;
    while k < m
        invariant
            k <= m,
            m == lit@.len(),
            n == s@.len(),
            at + m <= n,
            s@.subrange(at as int, at + k) == lit@.subrange(0, k as int),
        decreases m - k,
    {
        if s.get_char(at + k) != lit.get_char(k) {
            assert(s@.subrange(at as int, at + m)[k as int] != lit@[k as int]);
            return false;
        }
        assert(s@.subrange(at as int, at + k + 1) =~= s@.subrange(at as int, at + k).push(
            s@[at + k],
        ));
        assert(lit@.subrange(0, k + 1) =~= lit@.subrange(0, k as int).push(lit@[k as int]));
        k = k + 1;
    }
    assert(lit@.subrange(0, m as int) =~= lit@);
    true
}

/// Whether `c` occurs in `s` between the positions `from` (included) and
/// `to` (excluded).
pub open spec fn occurs_between(s: Seq<char>, c: char, from: int, to: int) -> bool {
    exists|i: int| from <= i < to && s[i] == c
}

fn find_between(s: &str, c: char, from: usize, to: usize) -> (r: Option<usize>)
    requires
        from <= to <= s@.len(),
    ensures
        r is None ==> !occurs_between(s@, c, from as int, to as int),
        r matches Some(i) ==> from <= i < to && s@[i as int] == c && !occurs_between(
            s@,
            c,
            from as int,
            i as int,
        ),
{
    let mut i: usize = from;
    while i < to
        invariant
            from <= i <= to <= s@.len(),
            !occurs_between(s@, c, from as int, i as int),
        decreases to - i,
    {
        if s.get_char(i) == c {
            return Some(i);
        }
        i = i + 1;
    }
    None
}

/// The text between `refs/pull/` and `/merge` when the ref is the merge ref
/// of a pull request: four parts split at `/`, of which the first is `refs`,
/// the second `pull` and the last `merge`.
pub open spec fn pull_ref_text(r: Seq<char>) -> Option<Seq<char>> {
    if r.len() >= 16 && r.subrange(0, 10) == "refs/pull/"@ && r.subrange(r.len() - 6, r.len() as int)
        == "/merge"@ && !occurs_between(r, '/', 10, r.len() - 6) {
        Some(r.subrange(10, r.len() - 6))
    } else {
        None
    }
}

/// Why the repository that holds the review request could not be read.
#[derive(Clone, Copy, Debug, PartialEq, Eq, Structural)]
pub enum RequestError {
    /// The repository is not written as `owner/name`.
    BadRepository,
}

/// The review request that the ref under review belongs to: the number of
/// a pull request's merge ref; none when the ref is no such ref, or when its
/// number cannot be read, since a change without a request is labelled by
/// nobody.
pub fn pull_request_number(head_ref: &str) -> (r: Option<u64>)
    ensures
        pull_ref_text(head_ref@) is None ==> r is None,
        pull_ref_text(head_ref@) matches Some(t) ==> r == parse_u64(t),
{
    proof {
        reveal_strlit("refs/pull/");
        reveal_strlit("/merge");
    }
    let n = head_ref.unicode_len();
    if n < 16 || !holds_at(head_ref, 0, "refs/pull/") || !holds_at(head_ref, n - 6, "/merge") {
        return None;
    }
    if find_between(head_ref, '/', 10, n - 6).is_some() {
        return None;
    }
    parse_number(head_ref.substring_char(10, n - 6))
}

/// Owner and name of a repository written `owner/name`: the text holds
/// exactly one `/`.
pub open spec fn repository_parts(s: Seq<char>) -> Option<(Seq<char>, Seq<char>)> {
    if exists|i: int| 0 <= i < s.len() && s[i] == '/' && !occurs_between(s, '/', 0, i)
        && !occurs_between(s, '/', i + 1, s.len() as int) {
        let i = choose|i: int|
            0 <= i < s.len() && s[i] == '/' && !occurs_between(s, '/', 0, i) && !occurs_between(
                s,
                '/',
                i + 1,
                s.len() as int,
            );
        Some((s.subrange(0, i), s.subrange(i + 1, s.len() as int)))
    } else {
        None
    }
}

/// Splits `owner/name` into its owner and its name.
pub fn split_repository(repo: &str) -> (r: Result<(String, String), RequestError>)
    ensures
        repository_parts(repo@) is None ==> r == Err::<(String, String), RequestError>(
            RequestError::BadRepository,
        ),
        repository_parts(repo@) matches Some(p) ==> (r matches Ok(q) && q.0@ == p.0 && q.1@ == p.1),
{
    let n = repo.unicode_len();
    match find_between(repo, '/', 0, n) {
        None => {
            assert(repository_parts(repo@) is None);
            Err(RequestError::BadRepository)
        },
        Some(i) => {
            if find_between(repo, '/', i + 1, n).is_some() {
                assert(repository_parts(repo@) is None) by {
                    if exists|j: int| 0 <= j < repo@.len() && repo@[j] == '/' && !occurs_between(repo@, '/', 0, j)
                        && !occurs_between(repo@, '/', j + 1, repo@.len() as int) {
                        let j = choose|j: int| 0 <= j < repo@.len() && repo@[j] == '/' && !occurs_between(repo@, '/', 0, j)
                            && !occurs_between(repo@, '/', j + 1, repo@.len() as int);
                        if j < i {
                            assert(occurs_between(repo@, '/', 0, i as int));
                        } else if j > i {
                            assert(occurs_between(repo@, '/', 0, j));
                        }
                    }
                }
                Err(RequestError::BadRepository)
            } else {
                assert(repository_parts(repo@) == Some((repo@.subrange(0, i as int), repo@.subrange(i + 1, n as int)))) by {
                    let j = choose|j: int| 0 <= j < repo@.len() && repo@[j] == '/' && !occurs_between(repo@, '/', 0, j)
                        && !occurs_between(repo@, '/', j + 1, repo@.len() as int);
                    if j < i {
                        assert(occurs_between(repo@, '/', 0, i as int));
                    } else if j > i {
                        assert(occurs_between(repo@, '/', 0, j));
                    }
                }
                let owner = String::from_str(repo.substring_char(0, i));
                let name = String::from_str(repo.substring_char(i + 1, n));
                Ok((owner, name))
            }
        },
    }
}

/// The base ref to compare against: the one given, or `refs/heads/main` when
/// none is given.
pub fn base_ref_or_default(base_ref: &str) -> (r: String)
    ensures
        base_ref@.len() == 0 ==> r@ == "refs/heads/main"@,
        base_ref@.len() > 0 ==> r@ == base_ref@,
{
    if base_ref.unicode_len() == 0 {
        String::from_str("refs/heads/main")
    } else {
        String::from_str(base_ref)
    }
}

} // verus!
