//! Validation of user-supplied GitHub repository URLs and derivation of the
//! `{owner}/{repo}` clone destination from them.

use vstd::prelude::*;
use crate::text::{
    chars_of, drop_last_while, has_prefix_in, has_suffix_in, has_whitespace, is_whitespace, is_whitespace_char,
    lemma_drop_last_while_at, lemma_drop_last_while_shape, lemma_drop_while_at,
    lemma_take_until_at, lemma_take_until_none, owned, ends_with, starts_with, string_from_chars,
    take_until, trim, trim_end_matches, trim_start_matches,
};

verus! {

/// The only URL prefix a custom clone accepts.
pub const GITHUB_PREFIX: &'static str = "https://github.com/";

pub const MSG_GIT_CLONE_COMMAND: &'static str = "Paste only the GitHub repository URL, not a git clone command.";

pub const MSG_URL_HAS_SPACES: &'static str = "The GitHub URL cannot contain spaces.";

pub const MSG_NOT_GITHUB: &'static str = "Enter a GitHub URL that starts with https://github.com/.";

pub const MSG_NOT_OWNER_REPO: &'static str = "Enter a GitHub repository URL like https://github.com/owner/repo.";

pub const MSG_UNSAFE_OWNER: &'static str = "The owner name contains characters this launcher cannot use for a folder.";

pub const MSG_UNSAFE_REPO: &'static str = "The repository name contains characters this launcher cannot use for a folder.";

/// The views of a `Result` of two strings.
pub open spec fn result_view(r: Result<String, String>) -> Result<Seq<char>, Seq<char>> {
    match r {
        Ok(s) => Ok(s@),
        Err(e) => Err(e@),
    }
}

/// A character allowed in a folder name: ASCII letters and digits, `.`, `_` and `-`.
pub open spec fn is_safe_char(c: char) -> bool {
    ||| ('a' <= c && c <= 'z')
    ||| ('A' <= c && c <= 'Z')
    ||| ('0' <= c && c <= '9')
    ||| c == '.'
    ||| c == '_'
    ||| c == '-'
}

/// Every character of `s` is allowed in a folder name.
pub open spec fn is_safe(s: Seq<char>) -> bool {
    forall|i: int| 0 <= i < s.len() ==> is_safe_char(#[trigger] s[i])
}

/// The folder-safe characters, by code: the ASCII digits `0`-`9` (48-57),
/// upper-case letters (65-90), lower-case letters (97-122), and `-` (45),
/// `.` (46), `_` (95); nothing else, in particular no `/`, `\\`, `:`,
/// whitespace or non-ASCII character.
pub proof fn law_safe_chars(c: char)
    ensures
        is_safe_char(c) <==> ((48 <= c as u32 && c as u32 <= 57) || (65 <= c as u32 && c as u32 <= 90)
            || (97 <= c as u32 && c as u32 <= 122) || c as u32 == 45 || c as u32 == 46 || c as u32
            == 95),
{
}

/// The names of any repository whose owner and name use only ASCII
/// letters, digits, `.`, `_` and `-` (the name not ending in `.git`) are
/// derived back unchanged from its URL.
pub proof fn law_ascii_names_accepted(owner: Seq<char>, repo: Seq<char>)
    requires
        owner.len() > 0,
        repo.len() > 0,
        forall|i: int| 0 <= i < owner.len() ==> {
            let k = (#[trigger] owner[i]) as u32;
            (48 <= k <= 57) || (65 <= k <= 90) || (97 <= k <= 122) || k == 45 || k == 46 || k == 95
        },
        forall|i: int| 0 <= i < repo.len() ==> {
            let k = (#[trigger] repo[i]) as u32;
            (48 <= k <= 57) || (65 <= k <= 90) || (97 <= k <= 122) || k == 45 || k == 46 || k == 95
        },
        !ends_with(repo, ".git"@),
    ensures
        spec_owner_and_name(GITHUB_PREFIX@ + owner + seq!['/'] + repo) == Ok::<_, Seq<char>>(
            (owner, repo),
        ),
{
    assert forall|i: int| 0 <= i < owner.len() implies is_safe_char(#[trigger] owner[i]) by {
        law_safe_chars(owner[i]);
    }
    assert forall|i: int| 0 <= i < repo.len() implies is_safe_char(#[trigger] repo[i]) by {
        law_safe_chars(repo[i]);
    }
    law_owner_and_name_round_trip(owner, repo, false);
    assert(repo_url(owner, repo, false) =~= GITHUB_PREFIX@ + owner + seq!['/'] + repo);
}

/// What `normalize_github_url` returns for the characters `url`.
pub open spec fn spec_normalize_github_url(url: Seq<char>) -> Result<Seq<char>, Seq<char>> {
    let t = trim(url);
    if starts_with(t, "git clone"@) {
        Err(MSG_GIT_CLONE_COMMAND@)
    } else if has_whitespace(t) {
        Err(MSG_URL_HAS_SPACES@)
    } else if !starts_with(t, GITHUB_PREFIX@) {
        Err(MSG_NOT_GITHUB@)
    } else {
        Ok(drop_last_while(t, |c: char| c == '/'))
    }
}

/// The part of a URL before its query or fragment.
pub open spec fn before_query(s: Seq<char>) -> Seq<char> {
    take_until(s, |c: char| c == '?' || c == '#')
}

/// The first `/`-separated piece of `s`.
pub open spec fn first_segment(s: Seq<char>) -> Seq<char> {
    take_until(s, |c: char| c == '/')
}

/// What follows the first `/` of `s`, if it has one.
pub open spec fn after_first_slash(s: Seq<char>) -> Option<Seq<char>> {
    if s.contains('/') {
        Some(s.skip(first_segment(s).len() + 1int))
    } else {
        None
    }
}

/// What `github_repo_owner_and_name` returns for the characters `url`.
pub open spec fn spec_owner_and_name(url: Seq<char>) -> Result<(Seq<char>, Seq<char>), Seq<char>> {
    let part = before_query(trim_start_matches(url, GITHUB_PREFIX@));
    let owner = first_segment(part);
    match after_first_slash(part) {
        None => Err(MSG_NOT_OWNER_REPO@),
        Some(rest) => {
            let repo = trim_end_matches(first_segment(rest), ".git"@);
            if owner.len() == 0 || repo.len() == 0 || rest.contains('/') {
                Err(MSG_NOT_OWNER_REPO@)
            } else if !is_safe(owner) {
                Err(MSG_UNSAFE_OWNER@)
            } else if !is_safe(repo) {
                Err(MSG_UNSAFE_REPO@)
            } else {
                Ok((owner, repo))
            }
        },
    }
}

/// Executable `is_safe_char`.
pub fn is_safe_char_exec(c: char) -> (b: bool)
    ensures
        b == is_safe_char(c),
{
    ('a' <= c && c <= 'z') || ('A' <= c && c <= 'Z') || ('0' <= c && c <= '9') || c == '.' || c
        == '_' || c == '-'
}

fn is_safe_range(v: &Vec<char>, from: usize, to: usize) -> (b: bool)
    requires
        from <= to <= v.len(),
    ensures
        b == is_safe(v@.subrange(from as int, to as int)),
{
    let ghost s = v@.subrange(from as int, to as int);
    let mut i = from;
    while i < to
        invariant
            from <= i <= to <= v.len(),
            s == v@.subrange(from as int, to as int),
            forall|j: int| 0 <= j < i - from ==> is_safe_char(#[trigger] s[j]),
        decreases to - i,
    {
        if !is_safe_char_exec(v[i]) {
            assert(!is_safe_char(s[i - from]));
            return false;
        }
        i += 1;
    }
    true
}

/// Whether every character of `segment` is an ASCII letter or digit, `.`, `_` or `-`.
pub fn is_safe_segment(segment: &str) -> (b: bool)
    ensures
        b == is_safe(segment@),
{
    let v = chars_of(segment);
    assert(v@.subrange(0, v.len() as int) =~= v@);
    is_safe_range(&v, 0, v.len())
}

/// Accepts only plain GitHub HTTPS repository URLs: surrounding whitespace is
/// removed, a pasted `git clone` command, inner whitespace and any other host
/// are refused, and trailing slashes are dropped.
pub fn normalize_github_url(repo_url: &str) -> (res: Result<String, String>)
    ensures
        result_view(res) == spec_normalize_github_url(repo_url@),
{
    let v = chars_of(repo_url);
    let n = v.len();
    let ghost ws = |c: char| is_whitespace(c);
    let mut start: usize = 0;
    while start < n && is_whitespace_char(v[start])
        invariant
            n == v.len(),
            start <= n,
            forall|j: int| 0 <= j < start ==> is_whitespace(#[trigger] v@[j]),
        decreases n - start,
    {
        start += 1;
    }
    let mut end: usize = n;
    while end > start && is_whitespace_char(v[end - 1])
        invariant
            n == v.len(),
            start <= end <= n,
            forall|j: int| end <= j < n ==> is_whitespace(#[trigger] v@[j]),
        decreases end,
    {
        end -= 1;
    }
    proof {
        lemma_drop_while_at(v@, ws, start as int);
        let d = v@.skip(start as int);
        assert forall|j: int| end - start <= j < d.len() implies ws(#[trigger] d[j]) by {
            assert(d[j] == v@[j + start]);
        }
        lemma_drop_last_while_at(d, ws, end - start);
        assert(d.take(end - start) =~= v@.subrange(start as int, end as int));
    }
    let ghost t = v@.subrange(start as int, end as int);
    assert(t == trim(repo_url@));
    let git_clone = chars_of("git clone");
    if has_prefix_in(&v, start, end, &git_clone) {
        return Err(owned(MSG_GIT_CLONE_COMMAND));
    }
    let mut i = start;
    while i < end
        invariant
            start <= i <= end <= n == v.len(),
            t == v@.subrange(start as int, end as int),
            t == trim(repo_url@),
            !starts_with(t, "git clone"@),
            forall|j: int| 0 <= j < i - start ==> !is_whitespace(#[trigger] t[j]),
        decreases end - i,
    {
        if is_whitespace_char(v[i]) {
            assert(is_whitespace(t[i - start]));
            assert(has_whitespace(t));
            return Err(owned(MSG_URL_HAS_SPACES));
        }
        i += 1;
    }
    let prefix = chars_of(GITHUB_PREFIX);
    if !has_prefix_in(&v, start, end, &prefix) {
        return Err(owned(MSG_NOT_GITHUB));
    }
    let mut stop = end;
    while stop > start && v[stop - 1] == '/'
        invariant
            start <= stop <= end <= n == v.len(),
            forall|j: int| stop <= j < end ==> #[trigger] v@[j] == '/',
        decreases stop,
    {
        stop -= 1;
    }
    proof {
        let slash = |c: char| c == '/';
        assert forall|j: int| stop - start <= j < t.len() implies slash(#[trigger] t[j]) by {
            assert(t[j] == v@[j + start]);
        }
        lemma_drop_last_while_at(t, slash, stop - start);
        assert(t.take(stop - start) =~= v@.subrange(start as int, stop as int));
    }
    Ok(string_from_chars(&v, start, stop))
}

/// The views of a `Result` holding two strings or an error string.
pub open spec fn pair_result_view(r: Result<(String, String), String>) -> Result<
    (Seq<char>, Seq<char>),
    Seq<char>,
> {
    match r {
        Ok((a, b)) => Ok((a@, b@)),
        Err(e) => Err(e@),
    }
}

/// Derives the owner and repository names from a GitHub URL of the form
/// `https://github.com/owner/repo`, ignoring a query or fragment and a
/// trailing `.git`; both names must be non-empty and made of folder-safe
/// characters only.
pub fn github_repo_owner_and_name(repo_url: &str) -> (res: Result<(String, String), String>)
    ensures
        pair_result_view(res) == spec_owner_and_name(repo_url@),
{
    let v = chars_of(repo_url);
    let n = v.len();
    let prefix = chars_of(GITHUB_PREFIX);
    let ghost url = v@;
    assert(url.subrange(0, n as int) =~= url);
    let mut i: usize = 0;
    while prefix.len() > 0 && has_prefix_in(&v, i, n, &prefix)
        invariant
            n == v.len(),
            url == v@,
            prefix@ == GITHUB_PREFIX@,
            i <= n,
            trim_start_matches(url, prefix@) == trim_start_matches(
                url.subrange(i as int, n as int),
                prefix@,
            ),
        decreases n - i,
    {
        assert(url.subrange(i as int, n as int).skip(prefix.len() as int) =~= url.subrange(
            (i + prefix.len()) as int,
            n as int,
        ));
        i += prefix.len();
    }
    let ghost stripped = url.subrange(i as int, n as int);
    assert(trim_start_matches(stripped, prefix@) == stripped);
    let mut q = i;
    while q < n && v[q] != '?' && v[q] != '#'
        invariant
            i <= q <= n == v.len(),
            forall|j: int| i <= j < q ==> #[trigger] v@[j] != '?' && v@[j] != '#',
        decreases n - q,
    {
        q += 1;
    }
    proof {
        let stop = |c: char| c == '?' || c == '#';
        assert forall|j: int| 0 <= j < q - i implies !stop(#[trigger] stripped[j]) by {
            assert(stripped[j] == v@[j + i]);
        }
        lemma_take_until_at(stripped, stop, q - i);
        assert(stripped.take(q - i) =~= url.subrange(i as int, q as int));
    }
    let ghost part = url.subrange(i as int, q as int);
    assert(part == before_query(trim_start_matches(url, GITHUB_PREFIX@)));
    let mut s1 = i;
    while s1 < q && v[s1] != '/'
        invariant
            i <= s1 <= q <= n == v.len(),
            forall|j: int| i <= j < s1 ==> #[trigger] v@[j] != '/',
        decreases q - s1,
    {
        s1 += 1;
    }
    proof {
        let slash = |c: char| c == '/';
        assert forall|j: int| 0 <= j < s1 - i implies !slash(#[trigger] part[j]) by {
            assert(part[j] == v@[j + i]);
        }
        lemma_take_until_at(part, slash, s1 - i);
        assert(part.take(s1 - i) =~= url.subrange(i as int, s1 as int));
    }
    let ghost owner = url.subrange(i as int, s1 as int);
    assert(owner == first_segment(part));
    if s1 == q {
        assert(!part.contains('/')) by {
            if part.contains('/') {
                let j = choose|j: int| 0 <= j < part.len() && part[j] == '/';
                assert(v@[j + i] == '/');
            }
        }
        return Err(owned(MSG_NOT_OWNER_REPO));
    }
    assert(part[s1 - i] == '/');
    assert(part.contains('/'));
    let ghost rest = url.subrange(s1 + 1, q as int);
    assert(part.skip(s1 - i + 1) =~= rest);
    assert(after_first_slash(part) == Some(rest));
    let mut s2 = s1 + 1;
    while s2 < q && v[s2] != '/'
        invariant
            s1 < q,
            s1 + 1 <= s2 <= q <= n == v.len(),
            forall|j: int| s1 + 1 <= j < s2 ==> #[trigger] v@[j] != '/',
        decreases q - s2,
    {
        s2 += 1;
    }
    proof {
        let slash = |c: char| c == '/';
        assert forall|j: int| 0 <= j < s2 - s1 - 1 implies !slash(#[trigger] rest[j]) by {
            assert(rest[j] == v@[j + s1 + 1]);
        }
        lemma_take_until_at(rest, slash, s2 - s1 - 1);
        assert(rest.take(s2 - s1 - 1) =~= url.subrange(s1 + 1, s2 as int));
    }
    let ghost seg = url.subrange(s1 + 1, s2 as int);
    assert(seg == first_segment(rest));
    let git = chars_of(".git");
    let mut e = s2;
    while git.len() > 0 && has_suffix_in(&v, s1 + 1, e, &git)
        invariant
            s1 + 1 <= e <= s2 <= n == v.len(),
            url == v@,
            git@ == ".git"@,
            seg == url.subrange(s1 + 1, s2 as int),
            trim_end_matches(seg, git@) == trim_end_matches(
                url.subrange(s1 + 1, e as int),
                git@,
            ),
        decreases e,
    {
        assert(url.subrange(s1 + 1, e as int).take(e - s1 - 1 - git.len()) =~= url.subrange(
            s1 + 1,
            e - git.len(),
        ));
        e -= git.len();
    }
    let ghost repo = url.subrange(s1 + 1, e as int);
    assert(trim_end_matches(repo, git@) == repo);
    assert(repo == trim_end_matches(first_segment(rest), ".git"@));
    let third = s2 < q;
    if third {
        assert(rest[s2 - s1 - 1] == '/');
    } else {
        assert(!rest.contains('/')) by {
            if rest.contains('/') {
                let j = choose|j: int| 0 <= j < rest.len() && rest[j] == '/';
                assert(v@[j + s1 + 1] == '/');
            }
        }
    }
    if s1 == i || e == s1 + 1 || third {
        return Err(owned(MSG_NOT_OWNER_REPO));
    }
    if !is_safe_range(&v, i, s1) {
        return Err(owned(MSG_UNSAFE_OWNER));
    }
    if !is_safe_range(&v, s1 + 1, e) {
        return Err(owned(MSG_UNSAFE_REPO));
    }
    Ok((string_from_chars(&v, i, s1), string_from_chars(&v, s1 + 1, e)))
}

/// Which answer a URL gets, checked in this order on the trimmed text: a
/// pasted `git clone` command is refused first, then any inner whitespace,
/// then any URL not starting with `https://github.com/`; everything else is
/// accepted, with trailing slashes dropped.
pub proof fn law_normalize_answers(url: Seq<char>)
    ensures
        starts_with(trim(url), "git clone"@) ==> spec_normalize_github_url(url) == Err::<Seq<char>, _>(
            "Paste only the GitHub repository URL, not a git clone command."@,
        ),
        !starts_with(trim(url), "git clone"@) && has_whitespace(trim(url)) ==> spec_normalize_github_url(
            url,
        ) == Err::<Seq<char>, _>("The GitHub URL cannot contain spaces."@),
        !starts_with(trim(url), "git clone"@) && !has_whitespace(trim(url)) && !starts_with(
            trim(url),
            "https://github.com/"@,
        ) ==> spec_normalize_github_url(url) == Err::<Seq<char>, _>(
            "Enter a GitHub URL that starts with https://github.com/."@,
        ),
        spec_normalize_github_url(url) is Ok <==> (!has_whitespace(trim(url)) && starts_with(
            trim(url),
            "https://github.com/"@,
        )),
        spec_normalize_github_url(url) is Ok ==> spec_normalize_github_url(url)->Ok_0.len() <= trim(
            url,
        ).len() && trim(url).take(spec_normalize_github_url(url)->Ok_0.len() as int)
            == spec_normalize_github_url(url)->Ok_0,
{
    reveal_strlit("https://github.com/");
    reveal_strlit("git clone");
    let t = trim(url);
    if starts_with(t, "git clone"@) && starts_with(t, "https://github.com/"@) {
        assert(t.take(9)[0] == t[0]);
        assert(t.take(19)[0] == t[0]);
    }
    let slash = |c: char| c == '/';
    lemma_drop_last_while_shape(t, slash);
}

/// A normalized URL holds no whitespace, does not end with `/`, and still
/// names the GitHub host.
pub proof fn law_normalized_url_shape(url: Seq<char>)
    requires
        spec_normalize_github_url(url) is Ok,
    ensures
        ({
            let u = spec_normalize_github_url(url)->Ok_0;
            &&& !has_whitespace(u)
            &&& u.len() > 0 && u.last() != '/'
            &&& starts_with(u, "https://github.com"@)
        }),
{
    reveal_strlit("https://github.com/");
    reveal_strlit("https://github.com");
    let t = trim(url);
    let slash = |c: char| c == '/';
    lemma_drop_last_while_shape(t, slash);
    let u = drop_last_while(t, slash);
    assert(starts_with(t, GITHUB_PREFIX@));
    assert(t[17] == t.take(19)[17]);
    if u.len() < 18 {
        assert(slash(t[17]));
    }
    assert(u.take(18) =~= t.take(19).take(18));
    assert(t.take(19).take(18) =~= "https://github.com"@);
    assert(!has_whitespace(u)) by {
        if has_whitespace(u) {
            let j = choose|j: int| 0 <= j < u.len() && is_whitespace(#[trigger] u[j]);
            assert(u[j] == t[j]);
        }
    }
}

/// Normalizing a normalized URL that still starts with the full
/// `https://github.com/` prefix gives it back unchanged.
pub proof fn law_normalize_idempotent(url: Seq<char>)
    requires
        spec_normalize_github_url(url) is Ok,
        starts_with(spec_normalize_github_url(url)->Ok_0, GITHUB_PREFIX@),
    ensures
        spec_normalize_github_url(spec_normalize_github_url(url)->Ok_0)
            == spec_normalize_github_url(url),
{
    reveal_strlit("https://github.com/");
    reveal_strlit("git clone");
    law_normalized_url_shape(url);
    let u = spec_normalize_github_url(url)->Ok_0;
    let ws = |c: char| is_whitespace(c);
    assert(!is_whitespace(u[0]));
    lemma_drop_while_at(u, ws, 0);
    assert(u.skip(0) =~= u);
    assert(!is_whitespace(u.last()));
    lemma_drop_last_while_at(u, ws, u.len() as int);
    assert(u.take(u.len() as int) =~= u);
    assert(trim(u) == u);
    assert(u.take(9)[0] == 'h');
    assert(!starts_with(u, "git clone"@));
    let slash = |c: char| c == '/';
    lemma_drop_last_while_at(u, slash, u.len() as int);
}

/// A normalized URL is recovered from any copy of it padded with surrounding
/// whitespace and trailing slashes.
pub proof fn law_normalize_ignores_padding(
    u: Seq<char>,
    lead: Seq<char>,
    slashes: Seq<char>,
    trail: Seq<char>,
)
    requires
        spec_normalize_github_url(u) == Ok::<_, Seq<char>>(u),
        forall|i: int| 0 <= i < lead.len() ==> is_whitespace(#[trigger] lead[i]),
        forall|i: int| 0 <= i < trail.len() ==> is_whitespace(#[trigger] trail[i]),
        forall|i: int| 0 <= i < slashes.len() ==> #[trigger] slashes[i] == '/',
    ensures
        spec_normalize_github_url(lead + u + slashes + trail) == Ok::<_, Seq<char>>(u),
{
    reveal_strlit("https://github.com/");
    reveal_strlit("git clone");
    law_normalized_url_shape(u);
    let ws = |c: char| is_whitespace(c);
    let slash = |c: char| c == '/';
    let core = u + slashes;
    let s = lead + core + trail;
    assert(s =~= lead + u + slashes + trail);
    assert(!is_whitespace(u[0]));
    assert forall|j: int| 0 <= j < lead.len() implies ws(#[trigger] s[j]) by {
        assert(s[j] == lead[j]);
    }
    assert(s[lead.len() as int] == u[0]);
    lemma_drop_while_at(s, ws, lead.len() as int);
    let d = s.skip(lead.len() as int);
    assert(d =~= core + trail);
    assert forall|j: int| core.len() <= j < d.len() implies ws(#[trigger] d[j]) by {
        assert(d[j] == trail[j - core.len()]);
    }
    let last = if slashes.len() > 0 {
        slashes.last()
    } else {
        u.last()
    };
    assert(d[core.len() - 1] == last);
    lemma_drop_last_while_at(d, ws, core.len() as int);
    assert(d.take(core.len() as int) =~= core);
    assert(trim(s) == core);
    assert(core.take(9) =~= u.take(9));
    assert(core.take(19) =~= u.take(19));
    assert(!has_whitespace(core)) by {
        if has_whitespace(core) {
            let j = choose|j: int| 0 <= j < core.len() && is_whitespace(#[trigger] core[j]);
            if j < u.len() {
                assert(core[j] == u[j]);
            } else {
                assert(core[j] == slashes[j - u.len()]);
            }
        }
    }
    assert forall|j: int| u.len() <= j < core.len() implies slash(#[trigger] core[j]) by {
        assert(core[j] == slashes[j - u.len()]);
    }
    assert(core[u.len() - 1] == u.last());
    lemma_drop_last_while_at(core, slash, u.len() as int);
    assert(core.take(u.len() as int) =~= u);
    assert(!starts_with(u, "git clone"@));
    assert(!starts_with(core, "git clone"@));
    assert(starts_with(core, GITHUB_PREFIX@));
}

/// A derived owner and repository name are non-empty, made only of
/// folder-safe characters (so neither holds `/`, whitespace, `?` or `#`),
/// and the repository name carries no trailing `.git`.
pub proof fn law_owner_and_name_safe(url: Seq<char>)
    requires
        spec_owner_and_name(url) is Ok,
    ensures
        ({
            let (owner, repo) = spec_owner_and_name(url)->Ok_0;
            &&& owner.len() > 0 && repo.len() > 0
            &&& is_safe(owner) && is_safe(repo)
            &&& !ends_with(repo, ".git"@)
        }),
{
    reveal_strlit(".git");
    let part = before_query(trim_start_matches(url, GITHUB_PREFIX@));
    let rest = after_first_slash(part)->Some_0;
    lemma_trim_end_matches_fixpoint(first_segment(rest), ".git"@);
}

/// `trim_end_matches` leaves no copy of a non-empty pattern at the end.
pub proof fn lemma_trim_end_matches_fixpoint(s: Seq<char>, p: Seq<char>)
    requires
        p.len() > 0,
    ensures
        !ends_with(trim_end_matches(s, p), p),
    decreases s.len(),
{
    if ends_with(s, p) {
        lemma_trim_end_matches_fixpoint(s.take(s.len() - p.len()), p);
    }
}

/// The URL of the repository `owner/repo`, with `.git` appended when asked.
pub open spec fn repo_url(owner: Seq<char>, repo: Seq<char>, git_suffix: bool) -> Seq<char> {
    GITHUB_PREFIX@ + owner + seq!['/'] + repo + if git_suffix {
        ".git"@
    } else {
        Seq::empty()
    }
}

/// For any folder-safe, non-empty owner and repository names (the repository
/// name not itself ending in `.git`), the names derived from
/// `https://github.com/owner/repo` or `https://github.com/owner/repo.git` are
/// exactly `owner` and `repo`.
#[verifier::spinoff_prover]
#[verifier::rlimit(50)]
pub proof fn law_owner_and_name_round_trip(owner: Seq<char>, repo: Seq<char>, git_suffix: bool)
    requires
        owner.len() > 0,
        repo.len() > 0,
        is_safe(owner),
        is_safe(repo),
        !ends_with(repo, ".git"@),
    ensures
        spec_owner_and_name(repo_url(owner, repo, git_suffix)) == Ok::<_, Seq<char>>(
            (owner, repo),
        ),
{
    reveal_strlit("https://github.com/");
    reveal_strlit(".git");
    let p = GITHUB_PREFIX@;
    let g: Seq<char> = if git_suffix {
        ".git"@
    } else {
        Seq::empty()
    };
    let url = repo_url(owner, repo, git_suffix);
    let s = owner + seq!['/'] + repo + g;
    assert(url =~= p + s);
    assert(starts_with(url, p)) by {
        assert(url.take(19) =~= p);
    }
    assert(url.skip(19) =~= s);
    assert(!starts_with(s, p)) by {
        if starts_with(s, p) {
            if owner.len() > 5 {
                assert(s[5] == owner[5]);
                assert(s.take(19)[5] == ':');
            } else {
                let k = owner.len() as int;
                assert(s[k] == '/');
                assert(s.take(19)[k] == p[k]);
            }
        }
    }
    assert(trim_start_matches(s, p) == s);
    assert(trim_start_matches(url, p) == s);
    let query = |c: char| c == '?' || c == '#';
    assert forall|j: int| 0 <= j < s.len() implies !query(#[trigger] s[j]) by {
        if j < owner.len() {
            assert(s[j] == owner[j]);
        } else if j == owner.len() {
        } else if j < owner.len() + 1 + repo.len() {
            assert(s[j] == repo[j - owner.len() - 1]);
        } else {
            assert(s[j] == g[j - owner.len() - 1 - repo.len()]);
        }
    }
    lemma_take_until_none(s, query);
    let slash = |c: char| c == '/';
    assert forall|j: int| 0 <= j < owner.len() implies !slash(#[trigger] s[j]) by {
        assert(s[j] == owner[j]);
    }
    lemma_take_until_at(s, slash, owner.len() as int);
    assert(s.take(owner.len() as int) =~= owner);
    assert(s[owner.len() as int] == '/');
    assert(s.contains('/'));
    let rest = repo + g;
    assert(s.skip(owner.len() + 1int) =~= rest);
    assert forall|j: int| 0 <= j < rest.len() implies !slash(#[trigger] rest[j]) by {
        if j < repo.len() {
            assert(rest[j] == repo[j]);
        } else {
            assert(rest[j] == g[j - repo.len()]);
        }
    }
    lemma_take_until_none(rest, slash);
    assert(!rest.contains('/'));
    if git_suffix {
        assert(ends_with(rest, ".git"@)) by {
            assert(rest.skip(rest.len() - 4) =~= ".git"@);
        }
        assert(rest.take(rest.len() - 4) =~= repo);
    } else {
        assert(rest =~= repo);
    }
    assert(trim_end_matches(repo, ".git"@) == repo);
}

} // verus!
