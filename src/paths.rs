//! The path mapper: where a remote file is stored under the output directory.
use vstd::prelude::*;
use crate::error::DownloadError;
use crate::location::{Location, url_host, url_parse, url_path, url_port, url_scheme};
use crate::text::{
    chars_of, decimal, decimal_string, find_char, index_of, lemma_index_of, slice_of, string_of,
};

verus! {

/// Characters that common file systems refuse in a name.
pub open spec fn is_reserved(c: char) -> bool {
    c == '<' || c == '>' || c == ':' || c == '"' || c == '|' || c == '?' || c == '*' || c == '\\'
        || c == '/'
}

/// Unicode control characters (general category Cc), as `char::is_control` has them.
pub open spec fn is_control(c: char) -> bool {
    c <= '\u{1f}' || ('\u{7f}' <= c && c <= '\u{9f}')
}

pub open spec fn replace_char(c: char) -> char {
    if is_reserved(c) || is_control(c) {
        '_'
    } else {
        c
    }
}

pub open spec fn is_dot_or_space(c: char) -> bool {
    c == '.' || c == ' '
}

pub open spec fn strip_start(s: Seq<char>) -> Seq<char>
    decreases s.len(),
{
    if s.len() > 0 && is_dot_or_space(s[0]) {
        strip_start(s.drop_first())
    } else {
        s
    }
}

pub open spec fn strip_end(s: Seq<char>) -> Seq<char>
    decreases s.len(),
{
    if s.len() > 0 && is_dot_or_space(s.last()) {
        strip_end(s.drop_last())
    } else {
        s
    }
}

/// A name safe on common file systems: reserved and control characters
/// become `_`, leading and trailing dots and spaces go, an empty result
/// becomes `unnamed`, and at most 255 characters are kept.
pub open spec fn sanitized(s: Seq<char>) -> Seq<char> {
    let t = strip_end(strip_start(s.map_values(|c: char| replace_char(c))));
    let u = if t.len() == 0 {
        "unnamed"@
    } else {
        t
    };
    if u.len() > 255 {
        u.take(255)
    } else {
        u
    }
}

fn replace_one(c: char) -> (r: char)
    ensures
        r == replace_char(c),
{
    if c == '<' || c == '>' || c == ':' || c == '"' || c == '|' || c == '?' || c == '*' || c
        == '\\' || c == '/' || c <= '\u{1f}' || ('\u{7f}' <= c && c <= '\u{9f}') {
        '_'
    } else {
        c
    }
}

fn strip_dots_and_spaces(v: &Vec<char>) -> (r: Vec<char>)
    ensures
        r@ == strip_end(strip_start(v@)),
{
    let n = v.len();
    let mut i: usize = 0;
    assert(v@.subrange(0, n as int) =~= v@);
    while i < n && (v[i] == '.' || v[i] == ' ')
        invariant
            i <= n == v@.len(),
            strip_start(v@) == strip_start(v@.subrange(i as int, n as int)),
        decreases n - i,
    {
        assert(v@.subrange(i as int, n as int).drop_first() =~= v@.subrange(i + 1, n as int));
        i += 1;
    }
    let mut j: usize = n;
    while j > i && (v[j - 1] == '.' || v[j - 1] == ' ')
        invariant
            i <= j <= n == v@.len(),
            strip_end(strip_start(v@)) == strip_end(v@.subrange(i as int, j as int)),
        decreases j,
    {
        assert(v@.subrange(i as int, j as int).drop_last() =~= v@.subrange(i as int, j - 1));
        j -= 1;
    }
    slice_of(v, i, j)
}

fn sanitize_chars(v: &Vec<char>) -> (r: Vec<char>)
    ensures
        r@ == sanitized(v@),
{
    let mut m: Vec<char> = Vec::new();
    let mut i: usize = 0;
    while i < v.len()
        invariant
            i <= v@.len(),
            m@ =~= v@.take(i as int).map_values(|c: char| replace_char(c)),
        decreases v@.len() - i,
    {
        m.push(replace_one(v[i]));
        i += 1;
    }
    assert(v@.take(v@.len() as int) =~= v@);
    let t = strip_dots_and_spaces(&m);
    let u = if t.len() == 0 {
        chars_of("unnamed")
    } else {
        t
    };
    if u.len() > 255 {
        slice_of(&u, 0, 255)
    } else {
        u
    }
}

/// `filename` made safe to use as one path segment.
pub fn sanitize_filename(filename: &str) -> (r: String)
    ensures
        r@ == sanitized(filename@),
{
    let v = chars_of(filename);
    let s = sanitize_chars(&v);
    string_of(&s)
}

} // verus!

verus! {

/// `name` under the directory `dir`, as `PathBuf::join` writes it on Unix.
pub open spec fn path_join(dir: Seq<char>, name: Seq<char>) -> Seq<char> {
    if dir.len() == 0 {
        name
    } else if dir.last() == '/' {
        dir + name
    } else {
        dir + seq!['/'] + name
    }
}

/// The non-empty `/`-separated segments of `p`, each sanitized.
pub open spec fn path_segments(p: Seq<char>) -> Seq<Seq<char>>
    decreases p.len(),
{
    match index_of(p, '/') {
        Some(k) => if 0 <= k < p.len() {
            segment(p.take(k)) + path_segments(p.skip(k + 1))
        } else {
            seq![]
        },
        None => segment(p),
    }
}

pub open spec fn segment(s: Seq<char>) -> Seq<Seq<char>> {
    if s.len() == 0 {
        seq![]
    } else {
        seq![sanitized(s)]
    }
}

/// `segs` joined one under the other below `dir`.
pub open spec fn join_all(dir: Seq<char>, segs: Seq<Seq<char>>) -> Seq<char>
    decreases segs.len(),
{
    if segs.len() == 0 {
        dir
    } else {
        path_join(join_all(dir, segs.drop_last()), segs.last())
    }
}

/// Where the file at remote path `path` is stored below `dir`: the mirrored,
/// sanitized segments, or `index.html` for an empty or root path.
pub open spec fn local_file(dir: Seq<char>, path: Seq<char>) -> Seq<char> {
    let segs = path_segments(path);
    if segs.len() == 0 {
        path_join(dir, "index.html"@)
    } else {
        join_all(dir, segs)
    }
}

/// The name of the top directory for a host and an optional port.
pub open spec fn domain_name(host: Seq<char>, port: Option<u16>) -> Seq<char> {
    match port {
        Some(p) => host + seq!['_'] + decimal(p as nat),
        None => host,
    }
}

pub open spec fn url_failure(e: Seq<char>) -> Seq<char> {
    "Failed to parse URL: "@ + e
}

fn join_path(dir: &String, name: &String) -> (r: String)
    ensures
        r@ == path_join(dir@, name@),
{
    let v = chars_of(dir.as_str());
    let mut s = dir.clone();
    if v.len() == 0 {
        return name.clone();
    }
    if v[v.len() - 1] != '/' {
        s.append("/");
        proof {
            reveal_strlit("/");
        }
    }
    s.append(name.as_str());
    s
}

fn parse_failure(e: &String) -> (r: DownloadError)
    ensures
        r matches DownloadError::InvalidUrl(m) && m@ == url_failure(e@),
{
    let mut m = String::from_str("Failed to parse URL: ");
    m.append(e.as_str());
    DownloadError::InvalidUrl(m)
}

/// The local path for the file at `url`, below `base_dir` (the host's
/// directory). Creates nothing: the caller creates the parent directories.
pub fn get_local_file_path(url: &str, base_dir: &str) -> (r: Result<String, DownloadError>)
    ensures
        url_parse(url@) matches Err(e) ==> (r matches Err(DownloadError::InvalidUrl(m)) && m@
            == url_failure(e)),
        url_parse(url@) matches Ok(u) ==> (r matches Ok(p) && p@ == local_file(
            base_dir@,
            url_path(u),
        )),
{
    let l = match Location::parse(url) {
        Ok(l) => l,
        Err(e) => {
            return Err(parse_failure(&e));
        },
    };
    let path = chars_of(l.path().as_str());
    let dir = String::from_str(base_dir);
    let mut out = dir.clone();
    let mut any = false;
    let ghost mut segs: Seq<Seq<char>> = seq![];
    let mut i: usize = 0;
    assert(path@.skip(0) =~= path@);
    loop
        invariant
            i <= path@.len(),
            dir@ == base_dir@,
            path_segments(path@) == segs + path_segments(path@.skip(i as int)),
            out@ == join_all(dir@, segs),
            any == (segs.len() > 0),
        ensures
            path_segments(path@) == segs,
            out@ == join_all(dir@, segs),
            any == (segs.len() > 0),
        decreases path@.len() - i,
    {
        let found = find_char(&path, '/', i);
        let end: usize = match found {
            Some(k) => k,
            None => path.len(),
        };
        proof {
            lemma_index_of(path@.skip(i as int), '/');
        }
        let part = slice_of(&path, i, end);
        let ghost rest = path@.skip(i as int);
        let ghost tail: Seq<Seq<char>> = if found is Some {
            path_segments(path@.skip(end + 1))
        } else {
            seq![]
        };
        proof {
            if found is Some {
                assert(rest.take(end - i) =~= part@);
                assert(rest.skip(end - i + 1) =~= path@.skip(end + 1));
            } else {
                assert(rest =~= part@);
            }
            assert(path_segments(path@) == segs + (segment(part@) + tail));
        }
        if part.len() > 0 {
            let name = string_of(&sanitize_chars(&part));
            let ghost before = segs;
            out = join_path(&out, &name);
            any = true;
            proof {
                segs = segs.push(name@);
                assert(segs.drop_last() =~= before);
                assert(path_segments(path@) =~= segs + tail);
            }
        } else {
            assert(path_segments(path@) =~= segs + tail);
        }
        match found {
            Some(k) => {
                assert(k < path.len());
                i = k + 1;
            },
            None => {
                i = path.len();
                assert(path@.skip(i as int) =~= seq![]);
                assert(segs + tail =~= segs);
                break;
            },
        }
    }
    if !any {
        let index = String::from_str("index.html");
        return Ok(join_path(&dir, &index));
    }
    Ok(out)
}

} // verus!

verus! {

pub open spec fn missing_host() -> Seq<char> {
    "URL must have a valid host"@
}

fn no_host() -> (r: DownloadError)
    ensures
        r matches DownloadError::InvalidUrl(m) && m@ == missing_host(),
{
    DownloadError::InvalidUrl(String::from_str("URL must have a valid host"))
}

/// The directory that mirrors the host of `url` below `output_dir`: the
/// sanitized host, with `_port` where the port is not the scheme's default.
/// Creates nothing: the caller creates it.
pub fn domain_directory(url: &str, output_dir: &str) -> (r: Result<String, DownloadError>)
    ensures
        url_parse(url@) matches Err(e) ==> (r matches Err(DownloadError::InvalidUrl(m)) && m@
            == url_failure(e)),
        url_parse(url@) matches Ok(u) ==> (url_host(u) is None ==> (r matches Err(
            DownloadError::InvalidUrl(m),
        ) && m@ == missing_host())),
        url_parse(url@) matches Ok(u) ==> (url_host(u) matches Some(h) ==> (r matches Ok(d) && d@
            == path_join(output_dir@, sanitized(domain_name(h, url_port(u)))))),
{
    let l = match Location::parse(url) {
        Ok(l) => l,
        Err(e) => {
            return Err(parse_failure(&e));
        },
    };
    let host = match l.host() {
        Some(h) => h,
        None => {
            return Err(no_host());
        },
    };
    let domain = match l.port() {
        Some(p) => {
            let mut d = host.clone();
            d.append("_");
            let digits = decimal_string(p as u64);
            d.append(digits.as_str());
            proof {
                reveal_strlit("_");
                assert(d@ =~= host@ + seq!['_'] + decimal(p as nat));
            }
            d
        },
        None => host,
    };
    let name = sanitize_filename(domain.as_str());
    let dir = String::from_str(output_dir);
    Ok(join_path(&dir, &name))
}

pub open spec fn unsupported_scheme(scheme: Seq<char>) -> Seq<char> {
    "Unsupported URL scheme '"@ + scheme + "'. Only http and https are supported."@
}

pub open spec fn invalid_format(e: Seq<char>) -> Seq<char> {
    "Invalid URL format: "@ + e
}

/// The serialization without its trailing `/`, if it has one.
pub open spec fn without_trailing_slash(s: Seq<char>) -> Seq<char> {
    if s.len() > 0 && s.last() == '/' {
        s.drop_last()
    } else {
        s
    }
}

/// Checks that `url` is an absolute `http` or `https` URL with a host, and
/// gives its serialization without a trailing `/`.
pub fn validate_url(url: &str) -> (r: Result<String, DownloadError>)
    ensures
        url_parse(url@) matches Err(e) ==> (r matches Err(DownloadError::InvalidUrl(m)) && m@
            == invalid_format(e)),
        url_parse(url@) matches Ok(u) ==> (!(url_scheme(u) == "http"@ || url_scheme(u)
            == "https"@) ==> (r matches Err(DownloadError::InvalidUrl(m)) && m@
            == unsupported_scheme(url_scheme(u)))),
        url_parse(url@) matches Ok(u) ==> ((url_scheme(u) == "http"@ || url_scheme(u)
            == "https"@) && url_host(u) is None ==> (r matches Err(DownloadError::InvalidUrl(m))
            && m@ == missing_host())),
        url_parse(url@) matches Ok(u) ==> ((url_scheme(u) == "http"@ || url_scheme(u)
            == "https"@) && url_host(u) is Some ==> (r matches Ok(s) && s@
            == without_trailing_slash(u))),
{
    let l = match Location::parse(url) {
        Ok(l) => l,
        Err(e) => {
            let mut m = String::from_str("Invalid URL format: ");
            m.append(e.as_str());
            return Err(DownloadError::InvalidUrl(m));
        },
    };
    let scheme = l.scheme();
    let http = String::from_str("http");
    let https = String::from_str("https");
    if !(scheme == http || scheme == https) {
        let mut m = String::from_str("Unsupported URL scheme '");
        m.append(scheme.as_str());
        m.append("'. Only http and https are supported.");
        return Err(DownloadError::InvalidUrl(m));
    }
    if l.host().is_none() {
        return Err(no_host());
    }
    let v = chars_of(l.as_string().as_str());
    if v.len() > 0 && v[v.len() - 1] == '/' {
        let t = slice_of(&v, 0, v.len() - 1);
        assert(t@ =~= v@.drop_last());
        Ok(string_of(&t))
    } else {
        Ok(string_of(&v))
    }
}

} // verus!

verus! {

pub open spec fn no_slash(s: Seq<char>) -> bool {
    forall|i: int| 0 <= i < s.len() ==> s[i] != '/'
}

/// Segments that can be told apart once joined: non-empty, without `/`.
pub open spec fn plain_segments(segs: Seq<Seq<char>>) -> bool {
    forall|i: int| 0 <= i < segs.len() ==> #[trigger] segs[i].len() > 0 && no_slash(segs[i])
}

/// What `path_join` puts before the name.
pub open spec fn dir_prefix(dir: Seq<char>) -> Seq<char> {
    if dir.len() == 0 || dir.last() == '/' {
        dir
    } else {
        dir + seq!['/']
    }
}

/// Segments joined by `/`.
pub open spec fn joined(segs: Seq<Seq<char>>) -> Seq<char>
    decreases segs.len(),
{
    if segs.len() <= 1 {
        if segs.len() == 1 {
            segs[0]
        } else {
            seq![]
        }
    } else {
        joined(segs.drop_last()) + seq!['/'] + segs.last()
    }
}

proof fn lemma_strip_keeps_no_slash(s: Seq<char>)
    requires
        no_slash(s),
    ensures
        no_slash(strip_start(s)),
        no_slash(strip_end(s)),
    decreases s.len(),
{
    if s.len() > 0 {
        assert(no_slash(s.drop_first()));
        assert(no_slash(s.drop_last()));
        lemma_strip_keeps_no_slash(s.drop_first());
        lemma_strip_keeps_no_slash(s.drop_last());
    }
}

proof fn lemma_sanitized_plain(s: Seq<char>)
    ensures
        sanitized(s).len() > 0,
        no_slash(sanitized(s)),
{
    let m = s.map_values(|c: char| replace_char(c));
    assert(no_slash(m));
    lemma_strip_keeps_no_slash(m);
    lemma_strip_keeps_no_slash(strip_start(m));
    reveal_strlit("unnamed");
    assert("unnamed"@ =~= seq!['u', 'n', 'n', 'a', 'm', 'e', 'd']);
}

proof fn lemma_segments_plain(p: Seq<char>)
    ensures
        plain_segments(path_segments(p)),
    decreases p.len(),
{
    lemma_index_of(p, '/');
    match index_of(p, '/') {
        Some(k) => {
            if 0 <= k < p.len() {
                lemma_segments_plain(p.skip(k + 1));
                lemma_sanitized_plain(p.take(k));
                let a = segment(p.take(k));
                let b = path_segments(p.skip(k + 1));
                assert forall|i: int| 0 <= i < (a + b).len() implies #[trigger] (a + b)[i].len()
                    > 0 && no_slash((a + b)[i]) by {
                    if i >= a.len() {
                        assert((a + b)[i] == b[i - a.len()]);
                    }
                }
            }
        },
        None => {
            lemma_sanitized_plain(p);
        },
    }
}

proof fn lemma_joined_shape(segs: Seq<Seq<char>>)
    requires
        segs.len() > 0,
        plain_segments(segs),
    ensures
        joined(segs).len() > 0,
        joined(segs).last() != '/',
    decreases segs.len(),
{
    assert(segs[segs.len() - 1].len() > 0 && no_slash(segs[segs.len() - 1]));
    if segs.len() > 1 {
        let j = joined(segs);
        assert(j.last() == segs.last().last());
    }
}

proof fn lemma_join_all_prefix(dir: Seq<char>, segs: Seq<Seq<char>>)
    requires
        segs.len() > 0,
        plain_segments(segs),
    ensures
        join_all(dir, segs) == dir_prefix(dir) + joined(segs),
    decreases segs.len(),
{
    let dl = segs.drop_last();
    assert(plain_segments(dl)) by {
        assert forall|i: int| 0 <= i < dl.len() implies #[trigger] dl[i].len() > 0 && no_slash(
            dl[i],
        ) by {
            assert(dl[i] == segs[i]);
        }
    }
    if segs.len() == 1 {
        assert(join_all(dir, dl) == dir);
        assert(segs.last() == segs[0]);
    } else {
        lemma_join_all_prefix(dir, dl);
        lemma_joined_shape(dl);
        let x = join_all(dir, dl);
        assert(x == dir_prefix(dir) + joined(dl));
        assert(x.len() > 0 && x.last() == joined(dl).last());
        assert(path_join(x, segs.last()) =~= dir_prefix(dir) + joined(segs));
    }
}

proof fn lemma_joined_injective(a: Seq<Seq<char>>, b: Seq<Seq<char>>)
    requires
        a.len() > 0,
        b.len() > 0,
        plain_segments(a),
        plain_segments(b),
        joined(a) == joined(b),
    ensures
        a == b,
    decreases a.len() + b.len(),
{
    let s = joined(a);
    let la = a.last();
    let lb = b.last();
    assert(a[a.len() - 1].len() > 0 && no_slash(a[a.len() - 1]));
    assert(b[b.len() - 1].len() > 0 && no_slash(b[b.len() - 1]));
    let adl = a.drop_last();
    let bdl = b.drop_last();
    assert(plain_segments(adl)) by {
        assert forall|i: int| 0 <= i < adl.len() implies #[trigger] adl[i].len() > 0
            && no_slash(adl[i]) by {
            assert(adl[i] == a[i]);
        }
    }
    assert(plain_segments(bdl)) by {
        assert forall|i: int| 0 <= i < bdl.len() implies #[trigger] bdl[i].len() > 0
            && no_slash(bdl[i]) by {
            assert(bdl[i] == b[i]);
        }
    }
    // The text after the last `/` is the last segment, in both.
    if a.len() > 1 {
        assert(s[s.len() - la.len() - 1] == '/');
        assert(s.subrange(s.len() - la.len(), s.len() as int) =~= la);
    } else {
        assert(s == la);
    }
    if b.len() > 1 {
        assert(s[s.len() - lb.len() - 1] == '/');
        assert(s.subrange(s.len() - lb.len(), s.len() as int) =~= lb);
    } else {
        assert(s == lb);
    }
    if la.len() < lb.len() {
        if a.len() > 1 {
            let i = lb.len() - la.len() - 1;
            assert(lb[i] == s[s.len() - la.len() - 1]);
        } else {
            assert(no_slash(s));
            assert(s.len() == la.len());
        }
        assert(false);
    } else if lb.len() < la.len() {
        if b.len() > 1 {
            let i = la.len() - lb.len() - 1;
            assert(la[i] == s[s.len() - lb.len() - 1]);
        } else {
            assert(no_slash(s));
            assert(s.len() == lb.len());
        }
        assert(false);
    } else {
        assert(la =~= lb);
        if a.len() > 1 && b.len() > 1 {
            assert(joined(adl) =~= s.subrange(0, s.len() - la.len() - 1));
            assert(joined(bdl) =~= s.subrange(0, s.len() - lb.len() - 1));
            lemma_joined_injective(adl, bdl);
            assert(a =~= adl.push(la));
            assert(b =~= bdl.push(lb));
        } else if a.len() > 1 {
            assert(s[s.len() - la.len() - 1] == '/');
            assert(false);
        } else if b.len() > 1 {
            assert(s[s.len() - lb.len() - 1] == '/');
            assert(false);
        } else {
            assert(a =~= seq![la]);
            assert(b =~= seq![lb]);
        }
    }
}

/// The local path of a file depends on the output directory and the remote
/// path alone; two remote paths that each have a segment map to one local
/// path only where their sanitized segments are the same.
pub proof fn lemma_local_paths_distinct(dir: Seq<char>, path_a: Seq<char>, path_b: Seq<char>)
    requires
        path_segments(path_a).len() > 0,
        path_segments(path_b).len() > 0,
        local_file(dir, path_a) == local_file(dir, path_b),
    ensures
        path_segments(path_a) == path_segments(path_b),
{
    let a = path_segments(path_a);
    let b = path_segments(path_b);
    lemma_segments_plain(path_a);
    lemma_segments_plain(path_b);
    lemma_join_all_prefix(dir, a);
    lemma_join_all_prefix(dir, b);
    let pre = dir_prefix(dir);
    assert(joined(a) =~= (pre + joined(a)).skip(pre.len() as int));
    assert(joined(b) =~= (pre + joined(b)).skip(pre.len() as int));
    lemma_joined_injective(a, b);
}

} // verus!
