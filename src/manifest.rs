//! The manifest parser: file references out of loosely structured text, each
//! resolved to an absolute URL.
use vstd::prelude::*;
use crate::error::DownloadError;
use crate::location::{Location, url_join, url_parse};
use crate::text::{
    chars_of, contains_char, find_char, has_char, index_of, lemma_index_of, slice_of, string_of,
    trim, trim_chars,
};

verus! {

/// Index of the first `](` in `s`.
pub open spec fn link_open(s: Seq<char>) -> Option<int>
    decreases s.len(),
{
    if s.len() < 2 {
        None
    } else if s[0] == ']' && s[1] == '(' {
        Some(0)
    } else {
        match link_open(s.drop_first()) {
            Some(k) => Some(k + 1),
            None => None,
        }
    }
}

/// The text between the first `](` of `t` and the next `)`.
pub open spec fn link_target(t: Seq<char>) -> Option<Seq<char>> {
    match link_open(t) {
        Some(k) => match index_of(t.skip(k + 2), ')') {
            Some(e) => Some(t.subrange(k + 2, k + 2 + e)),
            None => None,
        },
        None => None,
    }
}

pub open spec fn ends_with_md(p: Seq<char>) -> bool {
    p.len() >= 3 && p.subrange(p.len() - 3, p.len() as int) == ".md"@
}

/// A link target that names a file rather than an anchor or a title.
pub open spec fn names_file(p: Seq<char>) -> bool {
    has_char(p, '.') || ends_with_md(p)
}

/// The reference a line holds: a markdown link's target that names a file,
/// else the whole trimmed line where it has a `.` and does not start with `-`.
pub open spec fn reference_in(line: Seq<char>) -> Option<Seq<char>> {
    let t = trim(line);
    let plain = if has_char(t, '.') && !(t.len() > 0 && t[0] == '-') {
        Some(t)
    } else {
        None
    };
    match link_target(t) {
        Some(p) => if names_file(p) {
            Some(p)
        } else {
            plain
        },
        None => plain,
    }
}

/// Blank lines and comments.
pub open spec fn is_skipped(line: Seq<char>) -> bool {
    trim(line).len() == 0 || trim(line)[0] == '#'
}

pub open spec fn line_reference(line: Seq<char>) -> Option<Seq<char>> {
    if is_skipped(line) {
        None
    } else {
        reference_in(line)
    }
}

pub open spec fn opt_seq(o: Option<Seq<char>>) -> Seq<Seq<char>> {
    match o {
        Some(p) => seq![p],
        None => seq![],
    }
}

/// The references of a manifest, line by line, in order.
pub open spec fn manifest_refs(s: Seq<char>) -> Seq<Seq<char>>
    decreases s.len(),
{
    match index_of(s, '\n') {
        Some(k) => if 0 <= k < s.len() {
            opt_seq(line_reference(s.take(k))) + manifest_refs(s.skip(k + 1))
        } else {
            seq![]
        },
        None => opt_seq(line_reference(s)),
    }
}

/// A reference made absolute: itself where it parses as an absolute URL,
/// else joined onto `base`.
pub open spec fn resolved(base: Seq<char>, p: Seq<char>) -> Result<Seq<char>, Seq<char>> {
    match url_parse(p) {
        Ok(u) => Ok(u),
        Err(_) => url_join(base, p),
    }
}

pub open spec fn resolve_failure(p: Seq<char>, base: Seq<char>, e: Seq<char>) -> Seq<char> {
    "Failed to resolve URL '"@ + p + "' against base '"@ + base + "': "@ + e
}

/// What `resolve_url` gives: the absolute URL, or the message of its `ParseError`.
pub open spec fn resolve_outcome(base: Seq<char>, p: Seq<char>) -> Result<Seq<char>, Seq<char>> {
    match resolved(base, p) {
        Ok(u) => Ok(u),
        Err(e) => Err(resolve_failure(p, base, e)),
    }
}

/// All references resolved in order, or the failure of the first that fails.
pub open spec fn resolve_all(base: Seq<char>, refs: Seq<Seq<char>>) -> Result<
    Seq<Seq<char>>,
    Seq<char>,
>
    decreases refs.len(),
{
    if refs.len() == 0 {
        Ok(seq![])
    } else {
        match resolve_all(base, refs.drop_last()) {
            Ok(us) => match resolve_outcome(base, refs.last()) {
                Ok(u) => Ok(us.push(u)),
                Err(m) => Err(m),
            },
            Err(m) => Err(m),
        }
    }
}

pub open spec fn invalid_base(base_url: Seq<char>, e: Seq<char>) -> Seq<char> {
    "Invalid base URL '"@ + base_url + "': "@ + e
}

pub open spec fn string_views(v: Seq<String>) -> Seq<Seq<char>> {
    v.map_values(|s: String| s@)
}

proof fn lemma_link_open(s: Seq<char>)
    ensures
        link_open(s) matches Some(k) ==> 0 <= k && k + 2 <= s.len(),
    decreases s.len(),
{
    if s.len() >= 2 && !(s[0] == ']' && s[1] == '(') {
        lemma_link_open(s.drop_first());
    }
}

fn find_link_open(v: &Vec<char>) -> (r: Option<usize>)
    ensures
        r matches Some(k) ==> link_open(v@) == Some(k as int),
        r is None ==> link_open(v@) is None,
{
    let mut i: usize = 0;
    assert(v@.skip(0) =~= v@);
    while v.len() >= 2 && i < v.len() - 1
        invariant
            i <= v@.len(),
            link_open(v@) == (match link_open(v@.skip(i as int)) {
                Some(k) => Some(k + i),
                None => None::<int>,
            }),
        decreases v@.len() - i,
    {
        if v[i] == ']' && v[i + 1] == '(' {
            return Some(i);
        }
        assert(v@.skip(i as int).drop_first() =~= v@.skip(i + 1));
        i += 1;
    }
    None
}

fn ends_with_md_chars(p: &Vec<char>) -> (r: bool)
    ensures
        r == ends_with_md(p@),
{
    let n = p.len();
    if n < 3 {
        return false;
    }
    proof {
        reveal_strlit(".md");
    }
    assert(".md"@ =~= seq!['.', 'm', 'd']);
    let r = p[n - 3] == '.' && p[n - 2] == 'm' && p[n - 1] == 'd';
    assert(r == (p@.subrange(n - 3, n as int) =~= seq!['.', 'm', 'd']));
    r
}

fn reference_chars(line: &Vec<char>) -> (r: Option<Vec<char>>)
    ensures
        r matches Some(p) ==> reference_in(line@) == Some(p@),
        r is None ==> reference_in(line@) is None,
{
    let t = trim_chars(line);
    let o = find_link_open(&t);
    if let Some(k) = o {
        proof {
            lemma_link_open(t@);
            assert(link_open(t@) == Some(k as int));
        }
        let n = t.len();
        assert(k + 2 <= n);
        let from: usize = k + 2;
        {
            if let Some(e) = find_char(&t, ')', from) {
                proof {
                    lemma_index_of(t@.skip(k + 2), ')');
                    let kk = index_of(t@.skip(k + 2), ')')->0;
                    assert(e == kk + k + 2);
                }
                let p = slice_of(&t, k + 2, e);
                assert(link_target(t@) == Some(p@));
                if contains_char(&p, '.') || ends_with_md_chars(&p) {
                    return Some(p);
                }
            }
        }
    }
    if contains_char(&t, '.') && !(t.len() > 0 && t[0] == '-') {
        Some(t)
    } else {
        None
    }
}

} // verus!

verus! {

pub open spec fn opt_string_view(r: Option<String>) -> Option<Seq<char>> {
    match r {
        Some(s) => Some(s@),
        None => None,
    }
}

/// The file reference on one manifest line, if it holds one.
pub fn extract_file_path(line: &str) -> (r: Option<String>)
    ensures
        opt_string_view(r) == reference_in(line@),
{
    let v = chars_of(line);
    match reference_chars(&v) {
        Some(p) => Some(string_of(&p)),
        None => None,
    }
}

fn concat_parts(parts: &Vec<&str>) -> (r: String)
    ensures
        r@ == parts@.fold_left(Seq::<char>::empty(), |acc: Seq<char>, p: &str| acc + p@),
{
    let mut s = String::new();
    let mut i: usize = 0;
    while i < parts.len()
        invariant
            i <= parts@.len(),
            s@ == parts@.take(i as int).fold_left(
                Seq::<char>::empty(),
                |acc: Seq<char>, p: &str| acc + p@,
            ),
        decreases parts@.len() - i,
    {
        assert(parts@.take(i + 1).drop_last() =~= parts@.take(i as int));
        s.append(parts[i]);
        i += 1;
    }
    assert(parts@.take(parts@.len() as int) =~= parts@);
    s
}

/// `p` as an absolute URL: itself where it parses as one, else joined onto `base`.
pub fn resolve_url(path: &str, base: &Location) -> (r: Result<String, DownloadError>)
    ensures
        resolve_outcome(base@, path@) matches Ok(u) ==> (r matches Ok(s) && s@ == u),
        resolve_outcome(base@, path@) matches Err(m) ==> (r matches Err(
            DownloadError::ParseError(x),
        ) && x@ == m),
        r matches Ok(s) ==> resolved(base@, s@) == Ok::<Seq<char>, Seq<char>>(s@),
        url_parse(path@) == Ok::<Seq<char>, Seq<char>>(path@) ==> (r matches Ok(s) && s@
            == path@),
{
    match Location::parse(path) {
        Ok(u) => {
            let s = u.as_string();
            assert(url_parse(s@) == Ok::<Seq<char>, Seq<char>>(s@));
            Ok(s)
        },
        Err(_) => match base.join(path) {
            Ok(u) => {
                let s = u.as_string();
                assert(url_parse(s@) == Ok::<Seq<char>, Seq<char>>(s@));
                Ok(s)
            },
            Err(e) => {
                let b = base.as_string();
                let parts: Vec<&str> = vec![
                    "Failed to resolve URL '",
                    path,
                    "' against base '",
                    b.as_str(),
                    "': ",
                    e.as_str(),
                ];
                let m = concat_parts(&parts);
                proof {
                    reveal_with_fuel(Seq::fold_left, 7);
                    assert(m@ =~= resolve_failure(path@, base@, e@));
                }
                Err(DownloadError::ParseError(m))
            },
        },
    }
}

} // verus!

verus! {

proof fn lemma_resolve_all_push(base: Seq<char>, done: Seq<Seq<char>>, p: Seq<char>)
    ensures
        resolve_all(base, done.push(p)) == (match resolve_all(base, done) {
            Ok(us) => match resolve_outcome(base, p) {
                Ok(u) => Ok(us.push(u)),
                Err(m) => Err(m),
            },
            Err(m) => Err(m),
        }),
{
    assert(done.push(p).drop_last() =~= done);
}

/// Once a reference fails to resolve, references after it change nothing.
proof fn lemma_resolve_all_err(base: Seq<char>, done: Seq<Seq<char>>, rest: Seq<Seq<char>>)
    requires
        resolve_all(base, done) is Err,
    ensures
        resolve_all(base, done + rest) == resolve_all(base, done),
    decreases rest.len(),
{
    if rest.len() > 0 {
        lemma_resolve_all_err(base, done, rest.drop_last());
        assert((done + rest).drop_last() =~= done + rest.drop_last());
    } else {
        assert(done + rest =~= done);
    }
}

/// Whether a line is blank or a comment.
fn skipped_line(line: &Vec<char>) -> (r: bool)
    ensures
        r == is_skipped(line@),
{
    let t = trim_chars(line);
    t.len() == 0 || t[0] == '#'
}

/// The absolute URLs of the files a manifest lists, in manifest order,
/// duplicates kept.
pub fn parse_llms_txt(content: &str, base_url: &str) -> (r: Result<Vec<String>, DownloadError>)
    ensures
        url_parse(base_url@) matches Err(e) ==> (r matches Err(DownloadError::InvalidUrl(m))
            && m@ == invalid_base(base_url@, e)),
        url_parse(base_url@) matches Ok(b) ==> (resolve_all(b, manifest_refs(content@)) matches Ok(
            us,
        ) ==> (r matches Ok(v) && string_views(v@) == us)),
        url_parse(base_url@) matches Ok(b) ==> (resolve_all(b, manifest_refs(content@)) matches Err(
            m,
        ) ==> (r matches Err(DownloadError::ParseError(x)) && x@ == m)),
{
    let base = match Location::parse(base_url) {
        Ok(l) => l,
        Err(e) => {
            let parts: Vec<&str> = vec!["Invalid base URL '", base_url, "': ", e.as_str()];
            let m = concat_parts(&parts);
            proof {
                reveal_with_fuel(Seq::fold_left, 5);
                assert(m@ =~= invalid_base(base_url@, e@));
            }
            return Err(DownloadError::InvalidUrl(m));
        },
    };
    let ghost b = base@;
    let c = chars_of(content);
    let mut out: Vec<String> = Vec::new();
    let ghost mut done: Seq<Seq<char>> = seq![];
    let mut i: usize = 0;
    assert(c@.skip(0) =~= c@);
    assert(string_views(out@) =~= seq![]);
    loop
        invariant
            i <= c@.len(),
            b == base@,
            c@ == content@,
            url_parse(base_url@) == Ok::<Seq<char>, Seq<char>>(b),
            manifest_refs(c@) == done + manifest_refs(c@.skip(i as int)),
            resolve_all(b, done) == Ok::<Seq<Seq<char>>, Seq<char>>(string_views(out@)),
        ensures
            manifest_refs(c@) == done,
            resolve_all(b, done) == Ok::<Seq<Seq<char>>, Seq<char>>(string_views(out@)),
        decreases c@.len() - i,
    {
        let found = find_char(&c, '\n', i);
        let end: usize = match found {
            Some(k) => k,
            None => c.len(),
        };
        proof {
            lemma_index_of(c@.skip(i as int), '\n');
        }
        let line = slice_of(&c, i, end);
        let ghost rest = c@.skip(i as int);
        let ghost tail: Seq<Seq<char>> = if found is Some {
            manifest_refs(c@.skip(end + 1))
        } else {
            seq![]
        };
        proof {
            if found is Some {
                assert(rest.take(end - i) =~= line@);
                assert(rest.skip(end - i + 1) =~= c@.skip(end + 1));
            } else {
                assert(rest =~= line@);
            }
            assert(manifest_refs(c@) == done + (opt_seq(line_reference(line@)) + tail));
            if is_skipped(line@) || reference_in(line@) is None {
                assert(done + (opt_seq(line_reference(line@)) + tail) =~= done + tail);
            }
        }
        if !skipped_line(&line) {
            if let Some(p) = reference_chars(&line) {
                let ps = string_of(&p);
                proof {
                    lemma_resolve_all_push(b, done, ps@);
                }
                match resolve_url(ps.as_str(), &base) {
                    Ok(u) => {
                        let ghost out_before = out@;
                        proof {
                            done = done.push(ps@);
                        }
                        out.push(u);
                        assert(string_views(out@) =~= string_views(out_before).push(u@));
                        assert(manifest_refs(c@) =~= done + tail);
                    },
                    Err(e) => {
                        proof {
                            let after = done.push(ps@);
                            lemma_resolve_all_err(b, after, tail);
                            assert(manifest_refs(c@) =~= after + tail);
                        }
                        return Err(e);
                    },
                }
            }
        }
        match found {
            Some(k) => {
                assert(k < c.len());
                i = k + 1;
            },
            None => {
                assert(done + tail =~= done);
                i = c.len();
                assert(c@.skip(i as int) =~= seq![]);
                assert(trim(seq![]) =~= seq![]);
                assert(manifest_refs(seq![]) =~= seq![]);
                assert(done + manifest_refs(c@.skip(i as int)) =~= done);
                break;
            },
        }
    }
    Ok(out)
}

} // verus!

verus! {

/// Parsing keeps manifest order: the `i`th reference of the manifest becomes
/// the `i`th URL of the result.
pub proof fn lemma_parse_keeps_order(base: Seq<char>, refs: Seq<Seq<char>>)
    ensures
        resolve_all(base, refs) matches Ok(us) ==> us.len() == refs.len() && forall|i: int|
            0 <= i < refs.len() ==> resolved(base, #[trigger] refs[i]) == Ok::<
                Seq<char>,
                Seq<char>,
            >(us[i]),
    decreases refs.len(),
{
    if refs.len() > 0 {
        lemma_parse_keeps_order(base, refs.drop_last());
        if let Ok(us) = resolve_all(base, refs) {
            assert forall|i: int| 0 <= i < refs.len() implies resolved(
                base,
                #[trigger] refs[i],
            ) == Ok::<Seq<char>, Seq<char>>(us[i]) by {
                if i < refs.len() - 1 {
                    assert(refs[i] == refs.drop_last()[i]);
                }
            }
        }
    }
}

/// A blank line or a comment line yields no reference, whatever follows the `#`.
pub proof fn lemma_comment_line_has_no_reference(line: Seq<char>)
    requires
        trim(line).len() == 0 || trim(line)[0] == '#',
    ensures
        line_reference(line) is None,
{
}

/// A blank line or a comment line can be taken out of a manifest without
/// changing its references.
pub proof fn lemma_comment_line_excluded(line: Seq<char>, rest: Seq<char>)
    requires
        !has_char(line, '\n'),
        trim(line).len() == 0 || trim(line)[0] == '#',
    ensures
        manifest_refs(line + seq!['\n'] + rest) == manifest_refs(rest),
{
    let s = line + seq!['\n'] + rest;
    crate::text::lemma_index_of_after(line, '\n', rest);
    assert(s.take(line.len() as int) =~= line);
    assert(s.skip(line.len() as int + 1) =~= rest);
    assert(opt_seq(line_reference(line)) + manifest_refs(rest) =~= manifest_refs(rest));
}

/// A reference that is already an absolute URL in normal form resolves to itself.
pub proof fn lemma_absolute_reference_unchanged(base: Seq<char>, p: Seq<char>)
    requires
        url_parse(p) == Ok::<Seq<char>, Seq<char>>(p),
    ensures
        resolve_outcome(base, p) == Ok::<Seq<char>, Seq<char>>(p),
{
}

} // verus!
