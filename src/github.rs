//! The first source host: repository URLs and pagination links.
use vstd::prelude::*;
use crate::error::AuditError;
use crate::text::{
    chars_of, contains, contains_chars, find, find_chars, first_piece, first_piece_chars,
    lemma_find_from_is, lemma_find_from_none, lemma_find_from_occurs, lemma_occurs_char,
    lemma_trim_end_once, occurs_at, parse_u32, parse_u32_chars, second_piece, second_piece_chars,
    string_of, sub_chars, trim_end_all, trim_end_all_chars,
};
use vstd::string::*;

verus! {

/// A repository URL without trailing ".git" suffixes, then without trailing slashes.
pub open spec fn trimmed_url(url: Seq<char>) -> Seq<char> {
    trim_end_all(trim_end_all(url, ".git"@), "/"@)
}

/// What follows the host in a URL: after "host:" (SSH shorthand) or else after "host/".
pub open spec fn path_after_host(u: Seq<char>, ssh: Seq<char>, web: Seq<char>) -> Option<Seq<char>> {
    if contains(u, ssh) {
        second_piece(u, ssh)
    } else if contains(u, web) {
        second_piece(u, web)
    } else {
        None
    }
}

/// The (owner, repository) pair that a repository URL names on the first host.
pub open spec fn github_owner_repo(url: Seq<char>) -> Option<(Seq<char>, Seq<char>)> {
    match path_after_host(trimmed_url(url), "github.com:"@, "github.com/"@) {
        Some(p) => if contains(p, "/"@) {
            Some((first_piece(p, "/"@), second_piece(p, "/"@)->0))
        } else {
            None
        },
        None => None,
    }
}

/// A URL without trailing ".git" suffixes, then without trailing slashes.
pub fn trim_repo_url(url: &str) -> (r: Vec<char>)
    ensures
        r@ == trimmed_url(url@),
{
    let u = trim_end_all_chars(&chars_of(url), &chars_of(".git"));
    trim_end_all_chars(&u, &chars_of("/"))
}

/// What follows the host in a URL.
pub fn path_after(u: &Vec<char>, ssh: &str, web: &str) -> (r: Option<Vec<char>>)
    requires
        ssh@.len() > 0,
        web@.len() > 0,
    ensures
        r matches Some(p) ==> path_after_host(u@, ssh@, web@) == Some(p@),
        r is None ==> path_after_host(u@, ssh@, web@) is None,
{
    let s = chars_of(ssh);
    let w = chars_of(web);
    if contains_chars(u, &s) {
        second_piece_chars(u, &s)
    } else if contains_chars(u, &w) {
        second_piece_chars(u, &w)
    } else {
        None
    }
}

/// Parse a repository URL on the first host into (owner, repository). HTTPS
/// with or without ".git" and a trailing slash, git://, and SSH shorthand
/// ("git@host:owner/repo") are understood.
pub fn parse_github_url(url: &str) -> (r: Result<(String, String), AuditError>)
    ensures
        r matches Ok((owner, repo)) ==> github_owner_repo(url@) == Some((owner@, repo@)),
        r is Err <==> github_owner_repo(url@) is None,
        r matches Err(e) ==> e is ParseError,
{
    proof {
        reveal_strlit("github.com:");
        reveal_strlit("github.com/");
        reveal_strlit("/");
    }
    let u = trim_repo_url(url);
    let path = path_after(&u, "github.com:", "github.com/");
    match path {
        Some(p) => {
            let slash = chars_of("/");
            if contains_chars(&p, &slash) {
                let owner = first_piece_chars(&p, &slash);
                let repo = second_piece_chars(&p, &slash);
                proof {
                    lemma_find_from_occurs(p@, slash@, 0);
                }
                match repo {
                    Some(repo) => Ok((string_of(owner.as_slice()), string_of(repo.as_slice()))),
                    None => Err(invalid_url("Invalid GitHub URL: ", &u)),
                }
            } else {
                Err(invalid_url("Invalid GitHub URL: ", &u))
            }
        },
        None => Err(invalid_url("Invalid GitHub URL: ", &u)),
    }
}

/// A parse error naming an invalid URL.
pub fn invalid_url(prefix: &str, u: &Vec<char>) -> (r: AuditError)
    ensures
        r matches AuditError::ParseError(m) && m@ == prefix@ + u@,
{
    let s = prefix.to_owned();
    AuditError::ParseError(s.concat(string_of(u.as_slice()).as_str()))
}

/// The page number that one link of a pagination header gives, when it is the
/// "last" link and names a page: the digits after "page=" up to '>'.
pub open spec fn link_page(link: Seq<char>) -> Option<Option<u32>> {
    if contains(link, "rel=\"last\""@) {
        match second_piece(link, "page="@) {
            Some(seg) => Some(parse_u32(first_piece(seg, ">"@))),
            None => None,
        }
    } else {
        None
    }
}

/// The page number of the first "last" link among the comma-separated links of `s`.
pub open spec fn last_page_in(s: Seq<char>) -> Option<u32>
    decreases s.len(),
    via last_page_in_decreases
{
    match find(s, ","@) {
        None => match link_page(s) {
            Some(v) => v,
            None => None,
        },
        Some(i) => match link_page(s.subrange(0, i)) {
            Some(v) => v,
            None => last_page_in(s.subrange(i + 1, s.len() as int)),
        },
    }
}

#[via_fn]
proof fn last_page_in_decreases(s: Seq<char>) {
    lemma_find_from_occurs(s, ","@, 0);
    reveal_strlit(",");
}

fn link_page_of(link: &Vec<char>) -> (r: Option<Option<u32>>)
    ensures
        r == link_page(link@),
{
    proof {
        reveal_strlit("page=");
    }
    if contains_chars(link, &chars_of("rel=\"last\"")) {
        match second_piece_chars(link, &chars_of("page=")) {
            Some(seg) => Some(parse_u32_chars(&first_piece_chars(&seg, &chars_of(">")))),
            None => None,
        }
    } else {
        None
    }
}

/// Extract the last page number from a pagination `link` header.
pub fn extract_last_page(link_header: &str) -> (r: Option<u32>)
    ensures
        r == last_page_in(link_header@),
{
    proof {
        reveal_strlit(",");
    }
    let comma = chars_of(",");
    let mut rest = chars_of(link_header);
    loop
        invariant
            comma@ == ","@,
            comma@.len() == 1,
            last_page_in(link_header@) == last_page_in(rest@),
        decreases rest@.len(),
    {
        proof {
            lemma_find_from_occurs(rest@, comma@, 0);
        }
        match find_chars(&rest, &comma) {
            None => {
                return match link_page_of(&rest) {
                    Some(v) => v,
                    None => None,
                };
            },
            Some(i) => {
                let link = sub_chars(&rest, 0, i);
                match link_page_of(&link) {
                    Some(v) => {
                        return v;
                    },
                    None => {},
                }
                let n = rest.len();
                rest = sub_chars(&rest, i + 1, n);
            },
        }
    }
}

/// `p` does not occur at `k` in `s` when one of its characters differs there.
proof fn lemma_mismatch(s: Seq<char>, p: Seq<char>, k: int, j: int)
    requires
        0 <= k,
        0 <= j < p.len(),
        k + j < s.len(),
        s[k + j] != p[j],
    ensures
        !occurs_at(s, p, k),
{
    if occurs_at(s, p, k) {
        lemma_occurs_char(s, p, k, j);
    }
}

/// After a prefix that ends with the only early occurrence of `m`, the
/// second piece at `m` is the rest.
proof fn lemma_marker_then_rest(pre: Seq<char>, t: Seq<char>, m: Seq<char>)
    requires
        0 < m.len() <= pre.len(),
        pre.subrange(pre.len() - m.len(), pre.len() as int) == m,
        forall|k: int| 0 <= k < pre.len() - m.len() ==> !occurs_at(pre + t, m, k),
        !contains(t, m),
    ensures
        contains(pre + t, m),
        second_piece(pre + t, m) == Some(t),
{
    let u = pre + t;
    let k0 = pre.len() - m.len();
    assert(u.subrange(k0, k0 + m.len()) =~= pre.subrange(k0, pre.len() as int));
    lemma_find_from_is(u, m, 0, k0);
    assert(u.subrange(k0 + m.len(), u.len() as int) =~= t);
}

/// A marker that occurs neither early in `pre + t` nor in `t` does not occur at all.
proof fn lemma_no_marker(pre: Seq<char>, t: Seq<char>, m: Seq<char>)
    requires
        forall|k: int| 0 <= k < pre.len() ==> !occurs_at(pre + t, m, k),
        !contains(t, m),
    ensures
        !contains(pre + t, m),
{
    let u = pre + t;
    lemma_find_from_occurs(t, m, 0);
    assert forall|k: int| 0 <= k implies !occurs_at(u, m, k) by {
        if k >= pre.len() && occurs_at(u, m, k) {
            assert(t.subrange(k - pre.len(), k - pre.len() + m.len()) =~= u.subrange(k, k + m.len()));
            assert(occurs_at(t, m, k - pre.len()));
        }
    }
    lemma_find_from_none(u, m, 0);
}

/// `s` holds no '/'.
pub open spec fn no_slash(s: Seq<char>) -> bool {
    forall|i: int| 0 <= i < s.len() ==> s[i] != '/'
}

/// An owner and a repository joined by '/' split back into the two.
proof fn lemma_split_owner_repo(owner: Seq<char>, repo: Seq<char>)
    requires
        no_slash(owner),
        no_slash(repo),
    ensures
        contains(owner + "/"@ + repo, "/"@),
        first_piece(owner + "/"@ + repo, "/"@) == owner,
        second_piece(owner + "/"@ + repo, "/"@) == Some(repo),
{
    reveal_strlit("/");
    let t = owner + "/"@ + repo;
    let m = "/"@;
    assert forall|k: int| 0 <= k < owner.len() implies !occurs_at(t, m, k) by {
        lemma_mismatch(t, m, k, 0);
    }
    assert(t.subrange(owner.len() as int, owner.len() as int + 1) =~= m);
    lemma_find_from_is(t, m, 0, owner.len() as int);
    assert(t.subrange(0, owner.len() as int) =~= owner);
    let rest = t.subrange(owner.len() as int + 1, t.len() as int);
    assert(rest =~= repo);
    assert forall|k: int| 0 <= k implies !occurs_at(repo, m, k) by {
        if 0 <= k < repo.len() {
            lemma_mismatch(repo, m, k, 0);
        }
    }
    lemma_find_from_none(repo, m, 0);
}

/// `x` does not end with `suffix`.
pub open spec fn lacks_suffix(x: Seq<char>, suffix: Seq<char>) -> bool {
    !(suffix.len() <= x.len() && x.subrange(x.len() - suffix.len(), x.len() as int) == suffix)
}

/// Text ending in "/repo", for a non-empty repo without '/' and not ending in
/// ".git", ends neither in ".git" nor in '/'.
proof fn lemma_url_end(pre: Seq<char>, owner: Seq<char>, repo: Seq<char>)
    requires
        repo.len() > 0,
        no_slash(repo),
        lacks_suffix(repo, ".git"@),
    ensures
        lacks_suffix(pre + (owner + "/"@ + repo), ".git"@),
        lacks_suffix(pre + (owner + "/"@ + repo), "/"@),
{
    reveal_strlit(".git");
    reveal_strlit("/");
    let x = pre + (owner + "/"@ + repo);
    let n = x.len();
    let s: int = pre.len() as int + owner.len() as int;
    assert(n == s + 1 + repo.len());
    assert(x[s] == '/');
    assert(x[n - 1] == repo[repo.len() - 1]);
    if repo.len() >= 4 {
        assert(x.subrange(n - 4, n as int) =~= repo.subrange(repo.len() - 4, repo.len() as int));
    } else if n >= 4 && x.subrange(n - 4, n as int) == ".git"@ {
        let j = 3 - repo.len();
        assert(x.subrange(n - 4, n as int)[j] == x[s]);
        assert(".git"@[j] != '/');
    }
    if x.subrange(n - 1, n as int) == "/"@ {
        assert(x.subrange(n - 1, n as int)[0] == x[n - 1]);
    }
}

/// Such a URL is left as it is by trimming, with or without one added ".git".
proof fn lemma_trimmed(pre: Seq<char>, owner: Seq<char>, repo: Seq<char>)
    requires
        repo.len() > 0,
        no_slash(repo),
        lacks_suffix(repo, ".git"@),
    ensures
        trimmed_url(pre + (owner + "/"@ + repo)) == pre + (owner + "/"@ + repo),
        trimmed_url(pre + (owner + "/"@ + repo) + ".git"@) == pre + (owner + "/"@ + repo),
        trimmed_url(pre + (owner + "/"@ + repo) + "/"@) == pre + (owner + "/"@ + repo),
{
    reveal_strlit(".git");
    reveal_strlit("/");
    let x = pre + (owner + "/"@ + repo);
    lemma_url_end(pre, owner, repo);
    lemma_trim_end_once(x, ".git"@);
    lemma_trim_end_once(x, "/"@);
    let y = x + "/"@;
    let n = y.len();
    assert(y[n - 1] == '/');
    if n >= 4 && y.subrange(n - 4, n as int) == ".git"@ {
        assert(y.subrange(n - 4, n as int)[3] == y[n - 1]);
    }
    assert(trim_end_all(y, ".git"@) == y);
}

/// The common spellings of one repository on the first host all name the same
/// (owner, repository): https with and without ".git" or a trailing slash,
/// git://, and the SSH shorthand. Left out are the inputs on which some spelling reads otherwise:
/// an empty repository name, a '/' in either name, a repository name ending in
/// ".git", and names that hold a host marker ("github.com:" or "github.com/").
pub proof fn lemma_repository_url_forms(owner: Seq<char>, repo: Seq<char>)
    requires
        repo.len() > 0,
        no_slash(owner),
        no_slash(repo),
        lacks_suffix(repo, ".git"@),
        !contains(owner + "/"@ + repo, "github.com:"@),
        !contains(owner + "/"@ + repo, "github.com/"@),
    ensures
        github_owner_repo("https://github.com/"@ + owner + "/"@ + repo) == Some((owner, repo)),
        github_owner_repo("https://github.com/"@ + owner + "/"@ + repo + ".git"@) == Some((owner, repo)),
        github_owner_repo("https://github.com/"@ + owner + "/"@ + repo + "/"@) == Some((owner, repo)),
        github_owner_repo("git://github.com/"@ + owner + "/"@ + repo) == Some((owner, repo)),
        github_owner_repo("git@github.com:"@ + owner + "/"@ + repo + ".git"@) == Some((owner, repo)),
{
    let t = owner + "/"@ + repo;
    lemma_split_owner_repo(owner, repo);
    lemma_web_form_https(owner, repo);
    lemma_git_form(owner, repo);
    lemma_ssh_form(owner, repo);
    assert("https://github.com/"@ + owner + "/"@ + repo =~= "https://github.com/"@ + t);
    assert("https://github.com/"@ + owner + "/"@ + repo + ".git"@ =~= "https://github.com/"@ + t + ".git"@);
    assert("https://github.com/"@ + owner + "/"@ + repo + "/"@ =~= "https://github.com/"@ + t + "/"@);
    assert("git://github.com/"@ + owner + "/"@ + repo =~= "git://github.com/"@ + t);
    assert("git@github.com:"@ + owner + "/"@ + repo + ".git"@ =~= "git@github.com:"@ + t + ".git"@);
}

proof fn lemma_web_form_https(owner: Seq<char>, repo: Seq<char>)
    requires
        repo.len() > 0,
        no_slash(owner),
        no_slash(repo),
        lacks_suffix(repo, ".git"@),
        !contains(owner + "/"@ + repo, "github.com:"@),
        !contains(owner + "/"@ + repo, "github.com/"@),
    ensures
        path_after_host(trimmed_url("https://github.com/"@ + (owner + "/"@ + repo)), "github.com:"@, "github.com/"@) == Some(owner + "/"@ + repo),
        path_after_host(trimmed_url("https://github.com/"@ + (owner + "/"@ + repo) + ".git"@), "github.com:"@, "github.com/"@) == Some(owner + "/"@ + repo),
        path_after_host(trimmed_url("https://github.com/"@ + (owner + "/"@ + repo) + "/"@), "github.com:"@, "github.com/"@) == Some(owner + "/"@ + repo),
{
    reveal_strlit("https://github.com/");
    reveal_strlit("github.com:");
    reveal_strlit("github.com/");
    let pre = "https://github.com/"@;
    let t = owner + "/"@ + repo;
    let u = pre + t;
    lemma_trimmed(pre, owner, repo);
    let m = "github.com:"@;
    assert forall|k: int| 0 <= k < pre.len() implies !occurs_at(u, m, k) by {
        if k == 0 {
            lemma_mismatch(u, m, 0, 0);
        } else if k == 1 {
            lemma_mismatch(u, m, 1, 0);
        } else if k == 2 {
            lemma_mismatch(u, m, 2, 0);
        } else if k == 3 {
            lemma_mismatch(u, m, 3, 0);
        } else if k == 4 {
            lemma_mismatch(u, m, 4, 0);
        } else if k == 5 {
            lemma_mismatch(u, m, 5, 0);
        } else if k == 6 {
            lemma_mismatch(u, m, 6, 0);
        } else if k == 7 {
            lemma_mismatch(u, m, 7, 0);
        } else if k == 8 {
            lemma_mismatch(u, m, 8, 10);
        } else if k == 9 {
            lemma_mismatch(u, m, 9, 0);
        } else if k == 10 {
            lemma_mismatch(u, m, 10, 0);
        } else if k == 11 {
            lemma_mismatch(u, m, 11, 0);
        } else if k == 12 {
            lemma_mismatch(u, m, 12, 0);
        } else if k == 13 {
            lemma_mismatch(u, m, 13, 0);
        } else if k == 14 {
            lemma_mismatch(u, m, 14, 0);
        } else if k == 15 {
            lemma_mismatch(u, m, 15, 0);
        } else if k == 16 {
            lemma_mismatch(u, m, 16, 0);
        } else if k == 17 {
            lemma_mismatch(u, m, 17, 0);
        } else if k == 18 {
            lemma_mismatch(u, m, 18, 0);
        }
    }
    lemma_no_marker(pre, t, m);
    let m = "github.com/"@;
    assert(pre.subrange(pre.len() - m.len(), pre.len() as int) =~= m);
    assert forall|k: int| 0 <= k < pre.len() - m.len() implies !occurs_at(u, m, k) by {
        if k == 0 {
            lemma_mismatch(u, m, 0, 0);
        } else if k == 1 {
            lemma_mismatch(u, m, 1, 0);
        } else if k == 2 {
            lemma_mismatch(u, m, 2, 0);
        } else if k == 3 {
            lemma_mismatch(u, m, 3, 0);
        } else if k == 4 {
            lemma_mismatch(u, m, 4, 0);
        } else if k == 5 {
            lemma_mismatch(u, m, 5, 0);
        } else if k == 6 {
            lemma_mismatch(u, m, 6, 0);
        } else if k == 7 {
            lemma_mismatch(u, m, 7, 0);
        }
    }
    lemma_marker_then_rest(pre, t, m);
}

proof fn lemma_git_form(owner: Seq<char>, repo: Seq<char>)
    requires
        repo.len() > 0,
        no_slash(owner),
        no_slash(repo),
        lacks_suffix(repo, ".git"@),
        !contains(owner + "/"@ + repo, "github.com:"@),
        !contains(owner + "/"@ + repo, "github.com/"@),
    ensures
        path_after_host(trimmed_url("git://github.com/"@ + (owner + "/"@ + repo)), "github.com:"@, "github.com/"@) == Some(owner + "/"@ + repo),
        path_after_host(trimmed_url("git://github.com/"@ + (owner + "/"@ + repo) + ".git"@), "github.com:"@, "github.com/"@) == Some(owner + "/"@ + repo),
{
    reveal_strlit("git://github.com/");
    reveal_strlit("github.com:");
    reveal_strlit("github.com/");
    let pre = "git://github.com/"@;
    let t = owner + "/"@ + repo;
    let u = pre + t;
    lemma_trimmed(pre, owner, repo);
    let m = "github.com:"@;
    assert forall|k: int| 0 <= k < pre.len() implies !occurs_at(u, m, k) by {
        if k == 0 {
            lemma_mismatch(u, m, 0, 3);
        } else if k == 1 {
            lemma_mismatch(u, m, 1, 0);
        } else if k == 2 {
            lemma_mismatch(u, m, 2, 0);
        } else if k == 3 {
            lemma_mismatch(u, m, 3, 0);
        } else if k == 4 {
            lemma_mismatch(u, m, 4, 0);
        } else if k == 5 {
            lemma_mismatch(u, m, 5, 0);
        } else if k == 6 {
            lemma_mismatch(u, m, 6, 10);
        } else if k == 7 {
            lemma_mismatch(u, m, 7, 0);
        } else if k == 8 {
            lemma_mismatch(u, m, 8, 0);
        } else if k == 9 {
            lemma_mismatch(u, m, 9, 0);
        } else if k == 10 {
            lemma_mismatch(u, m, 10, 0);
        } else if k == 11 {
            lemma_mismatch(u, m, 11, 0);
        } else if k == 12 {
            lemma_mismatch(u, m, 12, 0);
        } else if k == 13 {
            lemma_mismatch(u, m, 13, 0);
        } else if k == 14 {
            lemma_mismatch(u, m, 14, 0);
        } else if k == 15 {
            lemma_mismatch(u, m, 15, 0);
        } else if k == 16 {
            lemma_mismatch(u, m, 16, 0);
        }
    }
    lemma_no_marker(pre, t, m);
    let m = "github.com/"@;
    assert(pre.subrange(pre.len() - m.len(), pre.len() as int) =~= m);
    assert forall|k: int| 0 <= k < pre.len() - m.len() implies !occurs_at(u, m, k) by {
        if k == 0 {
            lemma_mismatch(u, m, 0, 3);
        } else if k == 1 {
            lemma_mismatch(u, m, 1, 0);
        } else if k == 2 {
            lemma_mismatch(u, m, 2, 0);
        } else if k == 3 {
            lemma_mismatch(u, m, 3, 0);
        } else if k == 4 {
            lemma_mismatch(u, m, 4, 0);
        } else if k == 5 {
            lemma_mismatch(u, m, 5, 0);
        }
    }
    lemma_marker_then_rest(pre, t, m);
}

proof fn lemma_ssh_form(owner: Seq<char>, repo: Seq<char>)
    requires
        repo.len() > 0,
        no_slash(owner),
        no_slash(repo),
        lacks_suffix(repo, ".git"@),
        !contains(owner + "/"@ + repo, "github.com:"@),
    ensures
        path_after_host(trimmed_url("git@github.com:"@ + (owner + "/"@ + repo) + ".git"@), "github.com:"@, "github.com/"@) == Some(owner + "/"@ + repo),
{
    reveal_strlit("git@github.com:");
    reveal_strlit("github.com:");
    let pre = "git@github.com:"@;
    let t = owner + "/"@ + repo;
    let u = pre + t;
    lemma_trimmed(pre, owner, repo);
    let m = "github.com:"@;
    assert(pre.subrange(pre.len() - m.len(), pre.len() as int) =~= m);
    assert forall|k: int| 0 <= k < pre.len() - m.len() implies !occurs_at(u, m, k) by {
        if k == 0 {
            lemma_mismatch(u, m, 0, 3);
        } else if k == 1 {
            lemma_mismatch(u, m, 1, 0);
        } else if k == 2 {
            lemma_mismatch(u, m, 2, 0);
        } else if k == 3 {
            lemma_mismatch(u, m, 3, 0);
        }
    }
    lemma_marker_then_rest(pre, t, m);
}

} // verus!
