//! Auto-update helpers: channel, manifest endpoint, version syntax.

use vstd::prelude::*;

verus! {

/// Product update channel.
pub const STABLE_CHANNEL: &'static str = "stable";

/// URL of the GitHub Releases manifest (`latest.json`).
pub const LATEST_JSON_URL: &'static str =
    "https://github.com/teleportal/teleportal-remote/releases/latest/download/latest.json";

/// The workspace version.
pub fn crate_version() -> (r: &'static str)
    ensures
        r@ == crate::shared::VERSION@,
{
    crate::shared::VERSION
}

/// The configured update channel.
pub fn stable_channel() -> (r: &'static str)
    ensures
        r@ == STABLE_CHANNEL@,
{
    STABLE_CHANNEL
}

/// The stable manifest endpoint.
pub fn latest_manifest_url() -> (r: &'static str)
    ensures
        r@ == LATEST_JSON_URL@,
{
    LATEST_JSON_URL
}

/// `s` without the one leading `+` that `str::parse::<u32>` allows.
pub open spec fn unsigned_part(s: Seq<char>) -> Seq<char> {
    if s.len() > 0 && s[0] == '+' {
        s.drop_first()
    } else {
        s
    }
}

/// Every character of `d` is an ASCII digit.
pub open spec fn all_digits(d: Seq<char>) -> bool {
    forall|i: int| 0 <= i < d.len() ==> '0' <= #[trigger] d[i] <= '9'
}

/// `s` is what `str::parse::<u32>` accepts: an optional `+`, then at least one
/// ASCII digit and nothing else, with a value that fits in `u32`.
pub open spec fn parses_as_u32(s: Seq<char>) -> bool {
    &&& unsigned_part(s).len() > 0
    &&& all_digits(unsigned_part(s))
    &&& decimal_value(unsigned_part(s)) <= u32::MAX
}

/// The value of a string of decimal digits.
pub open spec fn decimal_value(d: Seq<char>) -> nat
    decreases d.len(),
{
    if d.len() == 0 {
        0
    } else {
        decimal_value(d.drop_last()) * 10 + ((d.last() as nat) - ('0' as nat)) as nat
    }
}

/// `s` has no `c` before index `k`.
pub open spec fn no_char_before(s: Seq<char>, c: char, k: int) -> bool {
    forall|j: int| 0 <= j < k ==> s[j] != c
}

/// The text before the first `-` of `v` (all of `v` if there is none): the
/// version without its pre-release suffix.
pub open spec fn version_core(v: Seq<char>) -> Seq<char> {
    if exists|i: int| 0 <= i < v.len() && v[i] == '-' && no_char_before(v, '-', i) {
        v.take(choose|i: int| 0 <= i < v.len() && v[i] == '-' && no_char_before(v, '-', i))
    } else {
        v
    }
}

/// `core` is exactly three `.`-separated fields (dots at `i` and `j`), each
/// of which parses as a `u32`.
pub open spec fn three_u32_fields(core: Seq<char>) -> bool {
    exists|i: int, j: int|
        #![trigger core[i], core[j]]
        0 <= i < j < core.len() && core[i] == '.' && core[j] == '.' && (forall|k: int|
            0 <= k < core.len() && core[k] == '.' ==> k == i || k == j) && parses_as_u32(
            core.take(i),
        ) && parses_as_u32(core.subrange(i + 1, j)) && parses_as_u32(core.skip(j + 1))
}

/// `MAJOR.MINOR.PATCH` with `u32` fields, any `-suffix` ignored.
pub open spec fn is_semver_like_text(v: Seq<char>) -> bool {
    three_u32_fields(version_core(v))
}

/// Whether `s@.subrange(from, to)` parses as a `u32`.
#[verifier::spinoff_prover]
fn parses_u32_in(s: &str, from: usize, to: usize) -> (r: bool)
    requires
        from <= to <= s@.len(),
    ensures
        r == parses_as_u32(s@.subrange(from as int, to as int)),
{
    let ghost t = s@.subrange(from as int, to as int);
    let mut start = from;
    if from < to && s.get_char(from) == '+' {
        start = from + 1;
    }
    let ghost digits = s@.subrange(start as int, to as int);
    proof {
        if t.len() > 0 {
            assert(t[0] == s@[from as int]);
        }
        if from < to && s@[from as int] == '+' {
            assert(digits =~= t.drop_first());
        } else {
            assert(digits =~= t);
        }
        assert(unsigned_part(t) == digits);
    }
    if start >= to {
        return false;
    }
    let mut value: u64 = 0;
    let mut overflow = false;
    let mut k = start;
    while k < to
        invariant
            from <= start <= k <= to <= s@.len(),
            digits == s@.subrange(start as int, to as int),
            t == s@.subrange(from as int, to as int),
            unsigned_part(t) == digits,
            forall|i: int| start <= i < k ==> '0' <= #[trigger] s@[i] <= '9',
            !overflow ==> value == decimal_value(s@.subrange(start as int, k as int)),
            !overflow ==> value <= u32::MAX,
            overflow ==> decimal_value(s@.subrange(start as int, k as int)) > u32::MAX,
        decreases to - k,
    {
        let c = s.get_char(k);
        if !('0' <= c && c <= '9') {
            assert(digits[k - start] == c);
            assert(!all_digits(digits));
            return false;
        }
        proof {
            assert(s@.subrange(start as int, k + 1).drop_last() =~= s@.subrange(start as int, k as int));
        }
        if !overflow {
            let d = (c as u64) - ('0' as u64);
            value = value * 10 + d;
            if value > 0xffff_ffff {
                overflow = true;
            }
        }
        k = k + 1;
    }
    proof {
        assert(s@.subrange(start as int, to as int) =~= digits);
    }
    !overflow
}

/// Checks that `version` looks like a semantic version `MAJOR.MINOR.PATCH`
/// (a pre-release suffix after `-` is ignored).
#[verifier::spinoff_prover]
pub fn is_semver_like(version: &str) -> (r: bool)
    ensures
        r == is_semver_like_text(version@),
{
    let n = version.unicode_len();
    let mut core_end: usize = 0;
    while core_end < n && version.get_char(core_end) != '-'
        invariant
            n == version@.len(),
            core_end <= n,
            no_char_before(version@, '-', core_end as int),
        decreases n - core_end,
    {
        core_end = core_end + 1;
    }
    let ghost v = version@;
    let ghost core = v.take(core_end as int);
    proof {
        if core_end < n {
            assert(v[core_end as int] == '-' && no_char_before(v, '-', core_end as int));
            let i = choose|i: int| 0 <= i < v.len() && v[i] == '-' && no_char_before(v, '-', i);
            if i < core_end {
                assert(v[i] != '-');
            }
            if core_end < i {
                assert(v[core_end as int] != '-');
            }
        } else {
            assert(!(exists|i: int| 0 <= i < v.len() && v[i] == '-' && no_char_before(v, '-', i)));
            assert(core =~= v);
        }
        assert(version_core(v) == core);
    }
    let mut dots: usize = 0;
    let mut first: usize = 0;
    let mut second: usize = 0;
    let mut k: usize = 0;
    while k < core_end
        invariant
            core_end <= n == version@.len(),
            core == version@.take(core_end as int),
            k <= core_end,
            dots <= 3,
            dots >= 1 ==> first < k && core[first as int] == '.',
            dots >= 2 ==> first < second < k && core[second as int] == '.',
            dots == 0 ==> forall|j: int| 0 <= j < k ==> core[j] != '.',
            dots == 1 ==> forall|j: int| 0 <= j < k && core[j] == '.' ==> j == first,
            dots == 2 ==> forall|j: int| 0 <= j < k && core[j] == '.' ==> j == first || j == second,
            dots == 3 ==> exists|j: int|
                0 <= j < k && core[j] == '.' && j != first && j != second,
        decreases core_end - k,
    {
        if version.get_char(k) == '.' {
            if dots == 0 {
                first = k;
                dots = 1;
            } else if dots == 1 {
                second = k;
                dots = 2;
            } else if dots == 2 {
                dots = 3;
                assert(core[k as int] == '.');
            }
        }
        k = k + 1;
    }
    if dots != 2 {
        proof {
            if three_u32_fields(core) {
                let (i, j) = choose|i: int, j: int|
                    #![trigger core[i], core[j]]
                    0 <= i < j < core.len() && core[i] == '.' && core[j] == '.' && (forall|k: int|
                        0 <= k < core.len() && core[k] == '.' ==> k == i || k == j) && parses_as_u32(
                        core.take(i),
                    ) && parses_as_u32(core.subrange(i + 1, j)) && parses_as_u32(core.skip(j + 1));
                if dots == 0 {
                    assert(core[i] == '.');
                } else if dots == 1 {
                    assert(core[i] == '.' && core[j] == '.');
                } else {
                    let x = choose|x: int|
                        0 <= x < k && core[x] == '.' && x != first && x != second;
                    assert(core[x] == '.');
                }
            }
        }
        return false;
    }
    let a = parses_u32_in(version, 0, first);
    let b = parses_u32_in(version, first + 1, second);
    let c = parses_u32_in(version, second + 1, core_end);
    proof {
        assert(version@.subrange(0, first as int) =~= core.take(first as int));
        assert(version@.subrange(first + 1, second as int) =~= core.subrange(first + 1, second as int));
        assert(version@.subrange(second + 1, core_end as int) =~= core.skip(second + 1));
        if a && b && c {
            assert(core[first as int] == '.' && core[second as int] == '.');
        }
        if three_u32_fields(core) {
            let (i, j) = choose|i: int, j: int|
                #![trigger core[i], core[j]]
                0 <= i < j < core.len() && core[i] == '.' && core[j] == '.' && (forall|k: int|
                    0 <= k < core.len() && core[k] == '.' ==> k == i || k == j) && parses_as_u32(
                    core.take(i),
                ) && parses_as_u32(core.subrange(i + 1, j)) && parses_as_u32(core.skip(j + 1));
            assert(core[first as int] == '.' && core[second as int] == '.');
            assert(i == first && j == second);
        }
    }
    a && b && c
}

} // verus!
