//! Path arithmetic for the reload cycle: the artifact filename of a logical
//! module, decimal rendering of timestamps, and the unique alias filename
//! that defeats loader path-based caching (the timestamp is inserted
//! immediately before the artifact's extension).

use vstd::prelude::*;
use vstd::assert_by_contradiction;
use vstd::string::StrSliceExecFns;
use vstd::string::StringExecFns;

verus! {

/// The decimal digit character for `d` (meaningful for `d < 10`).
pub open spec fn digit_char(d: nat) -> char {
    if d == 0 {
        '0'
    } else if d == 1 {
        '1'
    } else if d == 2 {
        '2'
    } else if d == 3 {
        '3'
    } else if d == 4 {
        '4'
    } else if d == 5 {
        '5'
    } else if d == 6 {
        '6'
    } else if d == 7 {
        '7'
    } else if d == 8 {
        '8'
    } else {
        '9'
    }
}

/// The decimal representation of `t`, most significant digit first,
/// without leading zeros (except for `t == 0` itself).
pub open spec fn decimal(t: nat) -> Seq<char>
    decreases t,
{
    if t < 10 {
        seq![digit_char(t)]
    } else {
        decimal(t / 10).push(digit_char(t % 10))
    }
}

/// Whether the path contains a `.` (so an alias insertion point exists).
pub open spec fn has_dot(p: Seq<char>) -> bool {
    exists|i: int| 0 <= i < p.len() && p[i] == '.'
}

/// The index of the rightmost `.` in `p`, or `-1` if there is none.
pub open spec fn last_dot(p: Seq<char>) -> int
    decreases p.len(),
{
    if p.len() == 0 {
        -1
    } else if p[p.len() - 1] == '.' {
        p.len() - 1
    } else {
        last_dot(p.drop_last())
    }
}

/// The alias path for `p` under timestamp `t`: `p` with `-<t>` inserted
/// immediately before the rightmost `.`.
pub open spec fn alias_of(p: Seq<char>, t: u64) -> Seq<char> {
    p.subrange(0, last_dot(p)) + seq!['-'] + decimal(t as nat) + p.subrange(
        last_dot(p),
        p.len() as int,
    )
}

/// The artifact path of a logical module: `<folder>/lib<name>.<extension>`.
pub open spec fn artifact_name(folder: Seq<char>, name: Seq<char>, ext: Seq<char>) -> Seq<char> {
    folder + "/lib"@ + name + "."@ + ext
}

proof fn lemma_last_dot_at(p: Seq<char>, i: int)
    requires
        0 <= i < p.len(),
        p[i] == '.',
        forall|j: int| i < j < p.len() ==> p[j] != '.',
    ensures
        last_dot(p) == i,
    decreases p.len(),
{
    if i < p.len() - 1 {
        lemma_last_dot_at(p.drop_last(), i);
    }
}

proof fn lemma_no_dot(p: Seq<char>)
    requires
        forall|j: int| 0 <= j < p.len() ==> p[j] != '.',
    ensures
        last_dot(p) == -1,
    decreases p.len(),
{
    if p.len() > 0 {
        lemma_no_dot(p.drop_last());
    }
}

/// Where a dot exists, the rightmost-dot index is in range, marks a dot,
/// and no dot follows it.
pub proof fn lemma_last_dot_props(p: Seq<char>)
    requires
        has_dot(p),
    ensures
        0 <= last_dot(p) < p.len(),
        p[last_dot(p)] == '.',
        forall|j: int| last_dot(p) < j < p.len() ==> p[j] != '.',
    decreases p.len(),
{
    if p[p.len() - 1] == '.' {
    } else {
        let w = choose|i: int| 0 <= i < p.len() && p[i] == '.';
        assert(p.drop_last()[w] == '.');
        lemma_last_dot_props(p.drop_last());
        assert forall|j: int| last_dot(p) < j < p.len() implies p[j] != '.' by {
            if j < p.len() - 1 {
                assert(p[j] == p.drop_last()[j]);
            }
        }
    }
}

/// The rightmost dot of `p` is found by scanning from the end.
pub fn last_dot_index(s: &str) -> (r: Option<usize>)
    ensures
        match r {
            Some(i) => has_dot(s@) && i == last_dot(s@),
            None => !has_dot(s@),
        },
{
    let n = s.unicode_len();
    let mut i = n;
    while i > 0
        invariant
            0 <= i <= n,
            n == s@.len(),
            forall|j: int| i <= j < n ==> s@[j] != '.',
        decreases i,
    {
        i = i - 1;
        if s.get_char(i) == '.' {
            proof {
                lemma_last_dot_at(s@, i as int);
            }
            return Some(i);
        }
    }
    proof {
        lemma_no_dot(s@);
    }
    None
}

/// The decimal string of `d` for a single digit.
fn digit_str(d: u64) -> (r: String)
    requires
        d < 10,
    ensures
        r@ == seq![digit_char(d as nat)],
{
    if d == 0 {
        proof {
            reveal_strlit("0");
            assert("0"@ =~= seq![digit_char(0)]);
        }
        String::from_str("0")
    } else if d == 1 {
        proof {
            reveal_strlit("1");
            assert("1"@ =~= seq![digit_char(1)]);
        }
        String::from_str("1")
    } else if d == 2 {
        proof {
            reveal_strlit("2");
            assert("2"@ =~= seq![digit_char(2)]);
        }
        String::from_str("2")
    } else if d == 3 {
        proof {
            reveal_strlit("3");
            assert("3"@ =~= seq![digit_char(3)]);
        }
        String::from_str("3")
    } else if d == 4 {
        proof {
            reveal_strlit("4");
            assert("4"@ =~= seq![digit_char(4)]);
        }
        String::from_str("4")
    } else if d == 5 {
        proof {
            reveal_strlit("5");
            assert("5"@ =~= seq![digit_char(5)]);
        }
        String::from_str("5")
    } else if d == 6 {
        proof {
            reveal_strlit("6");
            assert("6"@ =~= seq![digit_char(6)]);
        }
        String::from_str("6")
    } else if d == 7 {
        proof {
            reveal_strlit("7");
            assert("7"@ =~= seq![digit_char(7)]);
        }
        String::from_str("7")
    } else if d == 8 {
        proof {
            reveal_strlit("8");
            assert("8"@ =~= seq![digit_char(8)]);
        }
        String::from_str("8")
    } else {
        proof {
            reveal_strlit("9");
            assert("9"@ =~= seq![digit_char(9)]);
        }
        String::from_str("9")
    }
}

/// The decimal rendering of `t`.
pub fn u64_to_string(t: u64) -> (r: String)
    ensures
        r@ == decimal(t as nat),
    decreases t,
{
    if t < 10 {
        digit_str(t)
    } else {
        let mut s = u64_to_string(t / 10);
        let d = digit_str(t % 10);
        s.append(d.as_str());
        proof {
            assert(decimal((t as nat) / 10).push(digit_char((t as nat) % 10)) =~= decimal(
                (t as nat) / 10,
            ) + seq![digit_char((t as nat) % 10)]);
        }
        s
    }
}

/// Builds `<folder>/lib<name>.<extension>`, the artifact path the build
/// tool writes a module to.
pub fn artifact_path(folder: &str, lib_name: &str, extension: &str) -> (r: String)
    ensures
        r@ == artifact_name(folder@, lib_name@, extension@),
        has_dot(r@),
{
    let mut s = folder.to_owned();
    s.append("/lib");
    s.append(lib_name);
    s.append(".");
    s.append(extension);
    proof {
        assert(s@ =~= artifact_name(folder@, lib_name@, extension@));
        reveal_strlit(".");
        let i = folder@.len() as int + "/lib"@.len() + lib_name@.len();
        assert(s@[i] == '.');
    }
    s
}

/// Builds the alias path: `lib_path` with `-<timestamp>` inserted before
/// the rightmost `.`.
pub fn alias_path(lib_path: &str, timestamp: u64) -> (r: String)
    requires
        has_dot(lib_path@),
    ensures
        r@ == alias_of(lib_path@, timestamp),
{
    proof {
        lemma_last_dot_props(lib_path@);
    }
    let i = last_dot_index(lib_path).unwrap();
    let n = lib_path.unicode_len();
    let before = lib_path.substring_char(0, i);
    let after = lib_path.substring_char(i, n);
    let mut s = before.to_owned();
    s.append("-");
    let ts = u64_to_string(timestamp);
    s.append(ts.as_str());
    s.append(after);
    proof {
        reveal_strlit("-");
        assert("-"@ =~= seq!['-']);
        assert(s@ =~= alias_of(lib_path@, timestamp));
    }
    s
}

/// The decimal rendering is never empty, and is one digit exactly for
/// `t < 10`.
pub proof fn lemma_decimal_len(t: nat)
    ensures
        decimal(t).len() >= 1,
        t < 10 <==> decimal(t).len() == 1,
    decreases t,
{
    if t >= 10 {
        lemma_decimal_len(t / 10);
    }
}

/// Distinct numbers have distinct decimal renderings.
pub proof fn lemma_decimal_injective(a: nat, b: nat)
    requires
        a != b,
    ensures
        decimal(a) != decimal(b),
    decreases a + b,
{
    if decimal(a) == decimal(b) {
        lemma_decimal_len(a);
        lemma_decimal_len(b);
        if a < 10 && b < 10 {
            assert(decimal(a)[0] == digit_char(a));
            assert(decimal(b)[0] == digit_char(b));
        } else if a >= 10 && b >= 10 {
            assert(decimal(a).drop_last() =~= decimal(a / 10));
            assert(decimal(b).drop_last() =~= decimal(b / 10));
            assert(decimal(a).last() == digit_char(a % 10));
            assert(decimal(b).last() == digit_char(b % 10));
            if a / 10 == b / 10 {
                assert(a % 10 != b % 10) by {
                    vstd::arithmetic::div_mod::lemma_fundamental_div_mod(a as int, 10);
                    vstd::arithmetic::div_mod::lemma_fundamental_div_mod(b as int, 10);
                };
            } else {
                lemma_decimal_injective(a / 10, b / 10);
            }
        }
    }
}

/// The alias is strictly longer than the path it is derived from, so the
/// original artifact path is never used as an alias.
pub proof fn lemma_alias_differs_from_original(p: Seq<char>, t: u64)
    requires
        has_dot(p),
    ensures
        alias_of(p, t).len() > p.len(),
        alias_of(p, t) != p,
{
    lemma_last_dot_props(p);
    lemma_decimal_len(t as nat);
}

/// Alias uniqueness: distinct timestamps give distinct alias paths.
/// Two reload cycles within the same wall-clock second fall outside this
/// guarantee, since they share a timestamp.
pub proof fn lemma_alias_injective(p: Seq<char>, t1: u64, t2: u64)
    requires
        has_dot(p),
        t1 != t2,
    ensures
        alias_of(p, t1) != alias_of(p, t2),
{
    lemma_last_dot_props(p);
    lemma_decimal_injective(t1 as nat, t2 as nat);
    lemma_decimal_len(t1 as nat);
    lemma_decimal_len(t2 as nat);
    let i = last_dot(p);
    let d1 = decimal(t1 as nat);
    let d2 = decimal(t2 as nat);
    if d1.len() == d2.len() {
        assert_by_contradiction!(!(forall|k: int| 0 <= k < d1.len() ==> d1[k] == d2[k]), {
            assert(d1 =~= d2);
        });
        let k = choose|k: int| 0 <= k < d1.len() && d1[k] != d2[k];
        assert(alias_of(p, t1)[i + 1 + k] == d1[k]);
        assert(alias_of(p, t2)[i + 1 + k] == d2[k]);
        assert(alias_of(p, t1) != alias_of(p, t2));
    } else {
        assert(alias_of(p, t1).len() != alias_of(p, t2).len());
    }
}

} // verus!
