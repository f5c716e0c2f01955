//! Finding the newest installed build of the host application in its install folder,
//! where each build lives in a directory named `app-<version>`.
use vstd::prelude::*;

use crate::text::{join_path, path_join, trim_slashes, trim_trailing_slashes};

verus! {

/// The text after the first `-` of `s`, up to the next `-`, if `s` has a `-`.
pub open spec fn version_segment(s: Seq<char>) -> Option<Seq<char>>
    decreases s.len(),
{
    if s.len() == 0 {
        None
    } else if s[0] == '-' {
        Some(up_to_dash(s.drop_first()))
    } else {
        version_segment(s.drop_first())
    }
}

/// The text of `s` before its first `-`.
pub open spec fn up_to_dash(s: Seq<char>) -> Seq<char>
    decreases s.len(),
{
    if s.len() == 0 || s[0] == '-' {
        Seq::empty()
    } else {
        seq![s[0]] + up_to_dash(s.drop_first())
    }
}

/// Character `i` of `s` may stand in a version: a decimal digit, a dot, or a sign `+`
/// that only dots precede.
pub open spec fn version_char_ok(s: Seq<char>, i: int) -> bool {
    ||| '0' <= s[i] <= '9'
    ||| s[i] == '.'
    ||| (s[i] == '+' && forall|j: int| 0 <= j < i ==> s[j] == '.')
}

/// With its dots left out, `s` is a decimal number, optionally signed with `+`: every
/// character may stand in a version, and at least one is a digit.
pub open spec fn dotted_digits(s: Seq<char>) -> bool {
    &&& forall|i: int| 0 <= i < s.len() ==> version_char_ok(s, i)
    &&& exists|i: int| 0 <= i < s.len() && '0' <= #[trigger] s[i] <= '9'
}

/// The decimal number that the digits of `s` spell, dots and sign left out.
pub open spec fn dotted_value(s: Seq<char>) -> int
    decreases s.len(),
{
    if s.len() == 0 {
        0
    } else if s.last() == '.' || s.last() == '+' {
        dotted_value(s.drop_last())
    } else {
        dotted_value(s.drop_last()) * 10 + (s.last() as int - '0' as int)
    }
}

/// The version number of a build directory name such as `app-1.0.9023`: the digits of
/// the text after its first `-` with its dots left out, read as an unsigned decimal number
/// as `str::parse::<u32>` reads one, where that fits in 32 bits.
pub open spec fn build_version(name: Seq<char>) -> Option<u32> {
    match version_segment(name) {
        Some(seg) => if dotted_digits(seg) && dotted_value(seg) <= u32::MAX {
            Some(dotted_value(seg) as u32)
        } else {
            None
        },
        None => None,
    }
}

/// Whether a directory name is that of a build.
pub open spec fn is_build_dir(name: Seq<char>) -> bool {
    name.len() >= 4 && name.subrange(0, 4) == "app-"@
}

/// The text after the last `/` of `s`.
pub open spec fn after_last_slash(s: Seq<char>) -> Seq<char>
    decreases s.len(),
{
    if s.len() == 0 || s.last() == '/' {
        Seq::empty()
    } else {
        after_last_slash(s.drop_last()).push(s.last())
    }
}

/// The last component of a path, trailing separators ignored.
pub open spec fn file_name_of(s: Seq<char>) -> Seq<char> {
    after_last_slash(trim_slashes(s))
}

proof fn lemma_file_name(s: Seq<char>, k: int)
    requires
        0 <= k <= s.len(),
        k == 0 || s[k - 1] == '/',
        forall|j: int| k <= j < s.len() ==> s[j] != '/',
    ensures
        after_last_slash(s) == s.subrange(k, s.len() as int),
    decreases s.len(),
{
    if s.len() == k {
        assert(s.subrange(k, k) =~= Seq::<char>::empty());
    } else {
        lemma_file_name(s.drop_last(), k);
        assert(s.subrange(k, s.len() as int) =~= s.drop_last().subrange(k, s.len() - 1).push(s.last()));
    }
}

proof fn lemma_dotted_value_nonneg(s: Seq<char>)
    requires
        forall|i: int| 0 <= i < s.len() ==> ('0' <= s[i] <= '9' || s[i] == '.' || s[i] == '+'),
    ensures
        dotted_value(s) >= 0,
    decreases s.len(),
{
    if s.len() > 0 {
        lemma_dotted_value_nonneg(s.drop_last());
    }
}

proof fn lemma_dotted_value_grows(s: Seq<char>, k: int)
    requires
        0 <= k <= s.len(),
        forall|i: int| 0 <= i < s.len() ==> ('0' <= s[i] <= '9' || s[i] == '.' || s[i] == '+'),
    ensures
        dotted_value(s) >= dotted_value(s.subrange(0, k)),
    decreases s.len() - k,
{
    if k < s.len() {
        lemma_dotted_value_grows(s, k + 1);
        let t = s.subrange(0, k + 1);
        assert(t.drop_last() =~= s.subrange(0, k));
        lemma_dotted_value_nonneg(s.subrange(0, k));
    } else {
        assert(s.subrange(0, k) =~= s);
    }
}

/// Reads the version number of a build directory name.
pub fn parse_build_version(name: &str) -> (r: Option<u32>)
    ensures
        r == build_version(name@),
{
    let n = name.unicode_len();
    let mut i: usize = 0;
    proof {
        assert(name@.subrange(0, n as int) =~= name@);
    }
    while i < n && name.get_char(i) != '-'
        invariant
            i <= n,
            n == name@.len(),
            version_segment(name@) == version_segment(name@.subrange(i as int, n as int)),
        decreases n - i,
    {
        proof {
            assert(name@.subrange(i as int, n as int).drop_first() =~= name@.subrange(i + 1, n as int));
        }
        i = i + 1;
    }
    if i == n {
        proof {
            assert(name@.subrange(n as int, n as int).len() == 0);
        }
        return None;
    }
    proof {
        assert(name@.subrange(i as int, n as int).drop_first() =~= name@.subrange(i + 1, n as int));
    }
    let start = i + 1;
    let mut j: usize = start;
    while j < n && name.get_char(j) != '-'
        invariant
            start <= j <= n,
            n == name@.len(),
            up_to_dash(name@.subrange(start as int, n as int)) == name@.subrange(start as int, j as int)
                + up_to_dash(name@.subrange(j as int, n as int)),
        decreases n - j,
    {
        proof {
            let t = name@.subrange(j as int, n as int);
            assert(t.drop_first() =~= name@.subrange(j + 1, n as int));
            assert(name@.subrange(start as int, j + 1) =~= name@.subrange(start as int, j as int)
                + seq![name@[j as int]]);
        }
        j = j + 1;
    }
    proof {
        assert(up_to_dash(name@.subrange(j as int, n as int)) =~= Seq::<char>::empty());
    }
    let ghost seg = name@.subrange(start as int, j as int);
    assert(version_segment(name@) == Some(seg)) by {
        assert(seg + Seq::<char>::empty() =~= seg);
    }
    let mut acc: u64 = 0;
    let mut seen_digit = false;
    let mut only_dots = true;
    let mut k: usize = start;
    while k < j
        invariant
            start <= k <= j <= n,
            n == name@.len(),
            seg == name@.subrange(start as int, j as int),
            version_segment(name@) == Some(seg),
            forall|q: int| 0 <= q < k - start ==> version_char_ok(seg, q),
            only_dots <==> forall|q: int| 0 <= q < k - start ==> seg[q] == '.',
            acc as int == dotted_value(name@.subrange(start as int, k as int)),
            acc <= u32::MAX,
            seen_digit <==> exists|q: int| 0 <= q < k - start && '0' <= #[trigger] seg[q] <= '9',
        decreases j - k,
    {
        let c = name.get_char(k);
        let ghost pre = name@.subrange(start as int, k as int);
        proof {
            assert(name@.subrange(start as int, k + 1).drop_last() =~= pre);
            assert(seg[k - start] == c);
        }
        if c == '.' {
        } else if c == '+' {
            if !only_dots {
                proof {
                    assert(!version_char_ok(seg, k - start));
                }
                return None;
            }
        } else if '0' <= c && c <= '9' {
            let d = (c as u32 - '0' as u32) as u64;
            acc = acc * 10 + d;
            seen_digit = true;
            if acc > u32::MAX as u64 {
                proof {
                    assert(name@.subrange(start as int, k + 1).last() == c);
                    assert(dotted_value(name@.subrange(start as int, k + 1)) == acc);
                    if dotted_digits(seg) {
                        let m = k + 1 - start;
                        assert(seg.subrange(0, m) =~= name@.subrange(start as int, k + 1));
                        assert forall|i: int| 0 <= i < seg.len() implies ('0' <= seg[i] <= '9'
                            || seg[i] == '.' || seg[i] == '+') by {
                            assert(version_char_ok(seg, i));
                        }
                        lemma_dotted_value_grows(seg, m);
                    }
                }
                return None;
            }
        } else {
            proof {
                assert(!version_char_ok(seg, k - start));
            }
            return None;
        }
        only_dots = only_dots && c == '.';
        k = k + 1;
    }
    proof {
        assert(name@.subrange(start as int, j as int) =~= seg);
    }
    if !seen_digit {
        return None;
    }
    Some(acc as u32)
}

/// Whether a directory name is that of a build.
pub fn is_build_dir_name(name: &str) -> (r: bool)
    ensures
        r == is_build_dir(name@),
{
    let prefix = "app-";
    proof {
        reveal_strlit("app-");
    }
    if name.unicode_len() < 4 {
        return false;
    }
    String::from_str(name.substring_char(0, 4)).eq(&String::from_str(prefix))
}

/// The last component of a path, trailing separators ignored.
pub fn file_name(path: &str) -> (r: String)
    ensures
        r@ == file_name_of(path@),
{
    let t = trim_trailing_slashes(path);
    let p = t.as_str();
    let n = p.unicode_len();
    let mut k: usize = n;
    while k > 0 && p.get_char(k - 1) != '/'
        invariant
            k <= n,
            n == p@.len(),
            forall|j: int| k <= j < n ==> p@[j] != '/',
        decreases k,
    {
        k = k - 1;
    }
    proof {
        lemma_file_name(p@, k as int);
    }
    String::from_str(p.substring_char(k, n))
}

/// Why no executable could be picked.
#[derive(Debug, Clone, PartialEq, Eq)]
pub enum DiscordExeError {
    /// The install folder's path has no last component to name the executable by.
    NoExecutableName,
    /// The install folder holds no build directory.
    NoVersions,
    /// No build directory has a readable version.
    NoParsableVersion,
    /// The newest build has no executable.
    ExecutableMissing,
}

/// A build directory with a readable version.
pub open spec fn versioned_build(name: Seq<char>) -> bool {
    is_build_dir(name) && build_version(name) is Some
}

/// Entry `k` of `entries` is the newest build: no build has a higher version, and none
/// after it has the same.
pub open spec fn is_newest_build(entries: Seq<String>, k: int) -> bool {
    &&& 0 <= k < entries.len()
    &&& versioned_build(entries[k]@)
    &&& forall|j: int|
        0 <= j < entries.len() && versioned_build(#[trigger] entries[j]@) ==> build_version(
            entries[j]@,
        ).unwrap() <= build_version(entries[k]@).unwrap()
    &&& forall|j: int|
        k < j < entries.len() && versioned_build(#[trigger] entries[j]@) ==> build_version(
            entries[j]@,
        ).unwrap() < build_version(entries[k]@).unwrap()
}

/// Where the executable of the newest build in the install folder `path`, whose entries
/// are `entries`, would be: `<path>/<build>/<folder name>.exe`.
pub fn newest_build_exe(path: &str, entries: &Vec<String>) -> (r: Result<String, DiscordExeError>)
    ensures
        file_name_of(path@).len() == 0 ==> r == Err::<String, DiscordExeError>(
            DiscordExeError::NoExecutableName,
        ),
        file_name_of(path@).len() > 0 && (forall|j: int|
            0 <= j < entries@.len() ==> !is_build_dir(#[trigger] entries@[j]@)) ==> r == Err::<
            String,
            DiscordExeError,
        >(DiscordExeError::NoVersions),
        file_name_of(path@).len() > 0 && (exists|j: int|
            0 <= j < entries@.len() && is_build_dir(#[trigger] entries@[j]@)) && (forall|j: int|
            0 <= j < entries@.len() ==> !versioned_build(#[trigger] entries@[j]@)) ==> r == Err::<
            String,
            DiscordExeError,
        >(DiscordExeError::NoParsableVersion),
        r is Ok ==> exists|k: int|
            is_newest_build(entries@, k) && r.unwrap()@ == path_join(
                path_join(path@, entries@[k]@),
                file_name_of(path@) + ".exe"@,
            ),
        (exists|j: int| 0 <= j < entries@.len() && versioned_build(#[trigger] entries@[j]@))
            && file_name_of(path@).len() > 0 ==> r is Ok,
{
    let exe = file_name(path);
    if exe.unicode_len() == 0 {
        return Err(DiscordExeError::NoExecutableName);
    }
    let mut any_build = false;
    let mut best: Option<(usize, u32)> = None;
    let mut i: usize = 0;
    while i < entries.len()
        invariant
            i <= entries@.len(),
            any_build <==> exists|j: int| 0 <= j < i && is_build_dir(#[trigger] entries@[j]@),
            best is None ==> forall|j: int| 0 <= j < i ==> !versioned_build(#[trigger] entries@[j]@),
            best matches Some((k, v)) ==> {
                &&& k < i
                &&& versioned_build(entries@[k as int]@)
                &&& build_version(entries@[k as int]@) == Some(v)
                &&& forall|j: int|
                    0 <= j < i && versioned_build(#[trigger] entries@[j]@) ==> build_version(
                        entries@[j]@,
                    ).unwrap() <= v
                &&& forall|j: int|
                    k < j < i && versioned_build(#[trigger] entries@[j]@) ==> build_version(
                        entries@[j]@,
                    ).unwrap() < v
            },
        decreases entries@.len() - i,
    {
        let name = entries[i].as_str();
        if is_build_dir_name(name) {
            any_build = true;
            match parse_build_version(name) {
                Some(v) => {
                    let better = match best {
                        Some((_, bv)) => v >= bv,
                        None => true,
                    };
                    if better {
                        best = Some((i, v));
                    }
                },
                None => {},
            }
        }
        i = i + 1;
    }
    if !any_build {
        return Err(DiscordExeError::NoVersions);
    }
    match best {
        None => Err(DiscordExeError::NoParsableVersion),
        Some((k, _)) => {
            let dir = join_path(path, entries[k].as_str());
            let exe_file = exe.concat(".exe");
            let r = join_path(dir.as_str(), exe_file.as_str());
            proof {
                assert(is_newest_build(entries@, k as int));
            }
            Ok(r)
        },
    }
}

/// The executable of the newest build in the install folder `path`, whose entries are
/// `entries`. `exe_exists` tells whether the file that `newest_build_exe` names exists;
/// where it does not, the newest build has no executable.
pub fn get_discord_exe(path: &str, entries: &Vec<String>, exe_exists: bool) -> (r: Result<
    String,
    DiscordExeError,
>)
    ensures
        file_name_of(path@).len() == 0 ==> r == Err::<String, DiscordExeError>(
            DiscordExeError::NoExecutableName,
        ),
        file_name_of(path@).len() > 0 && (forall|j: int|
            0 <= j < entries@.len() ==> !is_build_dir(#[trigger] entries@[j]@)) ==> r == Err::<
            String,
            DiscordExeError,
        >(DiscordExeError::NoVersions),
        file_name_of(path@).len() > 0 && (exists|j: int|
            0 <= j < entries@.len() && is_build_dir(#[trigger] entries@[j]@)) && (forall|j: int|
            0 <= j < entries@.len() ==> !versioned_build(#[trigger] entries@[j]@)) ==> r == Err::<
            String,
            DiscordExeError,
        >(DiscordExeError::NoParsableVersion),
        (exists|j: int| 0 <= j < entries@.len() && versioned_build(#[trigger] entries@[j]@))
            && file_name_of(path@).len() > 0 ==> if exe_exists {
            r is Ok && exists|k: int|
                is_newest_build(entries@, k) && r.unwrap()@ == path_join(
                    path_join(path@, entries@[k]@),
                    file_name_of(path@) + ".exe"@,
                )
        } else {
            r == Err::<String, DiscordExeError>(DiscordExeError::ExecutableMissing)
        },
{
    match newest_build_exe(path, entries) {
        Ok(p) => if exe_exists {
            Ok(p)
        } else {
            Err(DiscordExeError::ExecutableMissing)
        },
        Err(e) => Err(e),
    }
}

} // verus!
