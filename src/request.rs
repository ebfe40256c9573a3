use vstd::prelude::*;
use crate::text::{concat, push_char};

verus! {

/// How one character of a sample path is written in a URL.
pub open spec fn escape_char(c: char) -> Seq<char> {
    if c == '#' {
        seq!['%', '2', '3']
    } else if c == ' ' {
        seq!['%', '2', '0']
    } else {
        seq![c]
    }
}

/// A sample path written for a URL: `#` as `%23`, a space as `%20`.
pub open spec fn escaped(s: Seq<char>) -> Seq<char>
    decreases s.len(),
{
    if s.len() == 0 {
        Seq::empty()
    } else {
        escape_char(s[0]) + escaped(s.drop_first())
    }
}

/// `path` with `#` written `%23` and a space written `%20`.
pub fn escape_path(path: &str) -> (r: String)
    ensures
        r@ == escaped(path@),
{
    let mut out = String::new();
    let n = path.unicode_len();
    let mut i: usize = 0;
    assert(path@.subrange(0, n as int) =~= path@);
    assert(out@ + escaped(path@) =~= escaped(path@));
    while i < n
        invariant
            n == path@.len(),
            i <= n,
            out@ + escaped(path@.subrange(i as int, n as int)) == escaped(path@),
        decreases n - i,
    {
        let c = path.get_char(i);
        let ghost rest = path@.subrange(i as int, n as int);
        let ghost before = out@;
        assert(rest.drop_first() =~= path@.subrange(i + 1, n as int));
        if c == '#' {
            push_char(&mut out, '%');
            push_char(&mut out, '2');
            push_char(&mut out, '3');
        } else if c == ' ' {
            push_char(&mut out, '%');
            push_char(&mut out, '2');
            push_char(&mut out, '0');
        } else {
            push_char(&mut out, c);
        }
        assert(out@ =~= before + escape_char(c));
        assert(out@ + escaped(rest.drop_first()) =~= before + (escape_char(c) + escaped(
            rest.drop_first(),
        )));
        i = i + 1;
    }
    assert(path@.subrange(n as int, n as int) =~= Seq::<char>::empty());
    assert(out@ + Seq::<char>::empty() =~= out@);
    out
}

/// Where the audio of the sample at `path` is fetched from.
pub fn sample_url(server_url: &str, path: &str) -> (r: String)
    ensures
        r@ == server_url@ + "samples/"@ + escaped(path@),
{
    let base = concat(server_url, "samples/");
    let esc = escape_path(path);
    concat(base.as_str(), esc.as_str())
}

/// Where searches are posted.
pub fn search_url(server_url: &str) -> (r: String)
    ensures
        r@ == server_url@ + "search"@,
{
    concat(server_url, "search")
}

/// Where the catalog of packs is fetched from.
pub fn packs_url(server_url: &str) -> (r: String)
    ensures
        r@ == server_url@ + "packs"@,
{
    concat(server_url, "packs")
}

/// A server URL as stored: with a trailing `/`.
pub open spec fn with_slash(url: Seq<char>) -> Seq<char> {
    if url.len() > 0 && url.last() == '/' {
        url
    } else {
        url.push('/')
    }
}

/// `url` with a `/` appended unless it ends with one.
pub fn normalize_server_url(url: String) -> (r: String)
    ensures
        r@ == with_slash(url@),
{
    let n = url.as_str().unicode_len();
    if n > 0 && url.as_str().get_char(n - 1) == '/' {
        url
    } else {
        let mut u = url;
        push_char(&mut u, '/');
        u
    }
}

} // verus!
