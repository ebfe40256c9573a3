use vstd::prelude::*;
use crate::text::{concat, owned, push_char};
use vstd::utf8::encode_utf8;

verus! {

/// The characters of `s` that stand outside square brackets, in order.
/// An opening `[` hides what follows up to the next `]`; both brackets are
/// dropped, and a `]` without a partner is dropped as well.
pub open spec fn without_brackets(s: Seq<char>, inside: bool) -> Seq<char>
    decreases s.len(),
{
    if s.len() == 0 {
        Seq::empty()
    } else {
        let c = s[0];
        let rest = s.drop_first();
        if c == '[' {
            without_brackets(rest, true)
        } else if c == ']' {
            without_brackets(rest, false)
        } else if inside {
            without_brackets(rest, true)
        } else {
            seq![c] + without_brackets(rest, false)
        }
    }
}

pub fn remove_brackets(input: &str) -> (r: String)
    ensures
        r@ == without_brackets(input@, false),
{
    let mut result = String::new();
    let mut inside_brackets = false;
    let n = input.unicode_len();
    let mut i: usize = 0;
    assert(input@.subrange(0, n as int) =~= input@);
    assert(result@ + without_brackets(input@, false) =~= without_brackets(input@, false));
    while i < n
        invariant
            n == input@.len(),
            i <= n,
            result@ + without_brackets(input@.subrange(i as int, n as int), inside_brackets)
                == without_brackets(input@, false),
        decreases n - i,
    {
        let c = input.get_char(i);
        let ghost rest = input@.subrange(i as int, n as int);
        assert(rest.drop_first() =~= input@.subrange(i + 1, n as int));
        if c == '[' {
            inside_brackets = true;
        } else if c == ']' {
            inside_brackets = false;
        } else if !inside_brackets {
            assert(result@.push(c) + without_brackets(rest.drop_first(), false)
                =~= result@ + (seq![c] + without_brackets(rest.drop_first(), false)));
            push_char(&mut result, c);
        }
        i = i + 1;
    }
    assert(input@.subrange(n as int, n as int) =~= Seq::<char>::empty());
    assert(result@ + Seq::<char>::empty() =~= result@);
    result
}


/// What `xxh3_64` of the xxhash crate returns for the given bytes.
pub uninterp spec fn xxh3_64_of(bytes: Seq<u8>) -> u64;

/// Relies on `xxhash_rust::xxh3::xxh3_64`: the 64-bit XXH3 hash with the
/// default seed and secret, a function of the bytes alone.
#[verifier::external_body]
fn xxh3_64(bytes: &[u8]) -> (r: u64)
    ensures
        r == xxh3_64_of(bytes@),
{
    xxhash_rust::xxh3::xxh3_64(bytes)
}

/// The ASCII digit for `d`, which is below ten.
pub open spec fn digit_char(d: nat) -> char {
    ((d + 48) as u8) as char
}

/// The decimal form of `n`, most significant digit first, without
/// leading zeros ("0" for zero).
pub open spec fn decimal(n: nat) -> Seq<char>
    decreases n,
{
    if n < 10 {
        seq![digit_char(n)]
    } else {
        decimal(n / 10).push(digit_char(n % 10))
    }
}

/// The decimal form of `n`.
pub fn decimal_string(n: u64) -> (r: String)
    ensures
        r@ == decimal(n as nat),
    decreases n,
{
    let d: u8 = (n % 10) as u8;
    let c = (d + 48) as char;
    if n < 10 {
        let mut r = String::new();
        push_char(&mut r, c);
        assert(r@ =~= seq![digit_char(n as nat)]);
        r
    } else {
        let mut r = decimal_string(n / 10);
        push_char(&mut r, c);
        r
    }
}

/// A path with one trailing `.wav` taken off.
pub open spec fn strip_wav(path: Seq<char>) -> Seq<char> {
    if ends_with_wav(path) {
        path.subrange(0, path.len() - 4)
    } else {
        path
    }
}

/// Whether `path` ends with `.wav`.
pub open spec fn ends_with_wav(path: Seq<char>) -> bool {
    &&& path.len() >= 4
    &&& path[path.len() - 4] == '.'
    &&& path[path.len() - 3] == 'w'
    &&& path[path.len() - 2] == 'a'
    &&& path[path.len() - 1] == 'v'
}


/// `path` with one trailing `.wav` taken off, if it has one.
pub fn strip_wav_suffix(path: &str) -> (r: String)
    ensures
        r@ == strip_wav(path@),
{
    let n = path.unicode_len();
    if n >= 4 && path.get_char(n - 4) == '.' && path.get_char(n - 3) == 'w' && path.get_char(n - 2)
        == 'a' && path.get_char(n - 1) == 'v' {
        owned(path.substring_char(0, n - 4))
    } else {
        owned(path)
    }
}

/// The stable identity of a sample path: the decimal form of the XXH3 hash
/// of its UTF-8 bytes, once a trailing `.wav` is taken off.
pub open spec fn sample_id(path: Seq<char>) -> Seq<char> {
    decimal(xxh3_64_of(encode_utf8(strip_wav(path))) as nat)
}

/// The identity under which a sample is cached and recorded as downloaded.
pub fn hash_sample(path: &str) -> (r: String)
    ensures
        r@ == sample_id(path@),
{
    let stem = strip_wav_suffix(path);
    let h = xxh3_64(stem.as_str().as_bytes());
    decimal_string(h)
}

/// The directory that holds downloaded samples.
pub open spec fn cache_dir() -> Seq<char> {
    seq!['c', 'a', 'c', 'h', 'e', 'd', '/']
}

/// The file extension of a cached sample.
pub open spec fn wav_ext() -> Seq<char> {
    seq!['.', 'w', 'a', 'v']
}

/// Where a downloaded sample is kept: `cached/<id>.wav`.
pub open spec fn cache_file(path: Seq<char>) -> Seq<char> {
    cache_dir() + sample_id(path) + wav_ext()
}

/// The relative path of the cached copy of the sample at `path`.
pub fn cached_path(path: &str) -> (r: String)
    ensures
        r@ == cache_file(path@),
{
    let id = hash_sample(path);
    let dir = "cached/";
    let ext = ".wav";
    proof {
        reveal_strlit("cached/");
        reveal_strlit(".wav");
    }
    assert(dir@ =~= cache_dir());
    assert(ext@ =~= wav_ext());
    let with_id = concat(dir, id.as_str());
    concat(with_id.as_str(), ext)
}

/// Whether `s` starts with `.wav`.
pub open spec fn starts_with_wav(s: Seq<char>) -> bool {
    s.len() >= 4 && s[0] == '.' && s[1] == 'w' && s[2] == 'a' && s[3] == 'v'
}

/// `s` with every `.wav` taken out, scanning from the left.
pub open spec fn without_wav(s: Seq<char>) -> Seq<char>
    decreases s.len(),
{
    if s.len() == 0 {
        s
    } else if starts_with_wav(s) {
        without_wav(s.skip(4))
    } else {
        seq![s[0]] + without_wav(s.drop_first())
    }
}

/// `s` with every `_` written as a space.
pub open spec fn underscores_as_spaces(s: Seq<char>) -> Seq<char> {
    s.map_values(|c: char| if c == '_' { ' ' } else { c })
}

/// The name under which a sample is listed: without `.wav`, with spaces
/// for underscores, and without bracketed parts.
pub open spec fn listed_name(name: Seq<char>) -> Seq<char> {
    without_brackets(underscores_as_spaces(without_wav(name)), false)
}

/// The name under which the sample called `name` is listed.
pub fn display_name(name: &str) -> (r: String)
    ensures
        r@ == listed_name(name@),
{
    let n = name.unicode_len();
    let mut out = String::new();
    let mut i: usize = 0;
    let ghost full = name@;
    assert(full.subrange(0, n as int) =~= full);
    assert(out@ + underscores_as_spaces(without_wav(full)) =~= underscores_as_spaces(
        without_wav(full),
    ));
    while i < n
        invariant
            n == full.len(),
            full == name@,
            i <= n,
            out@ + underscores_as_spaces(without_wav(full.subrange(i as int, n as int)))
                == underscores_as_spaces(without_wav(full)),
        decreases n - i,
    {
        let ghost rest = full.subrange(i as int, n as int);
        let ghost before = out@;
        if n - i >= 4 && name.get_char(i) == '.' && name.get_char(i + 1) == 'w' && name.get_char(
            i + 2,
        ) == 'a' && name.get_char(i + 3) == 'v' {
            assert(starts_with_wav(rest));
            assert(rest.skip(4) =~= full.subrange(i + 4, n as int));
            i = i + 4;
        } else {
            let c = name.get_char(i);
            assert(!starts_with_wav(rest));
            assert(rest.drop_first() =~= full.subrange(i + 1, n as int));
            let d = if c == '_' {
                ' '
            } else {
                c
            };
            push_char(&mut out, d);
            let ghost tail = without_wav(rest.drop_first());
            assert(without_wav(rest) == seq![c] + tail);
            assert(underscores_as_spaces(seq![c] + tail) =~= seq![d] + underscores_as_spaces(tail));
            assert(out@ + underscores_as_spaces(tail) =~= before + (seq![d] + underscores_as_spaces(
                tail,
            )));
            i = i + 1;
        }
    }
    assert(full.subrange(n as int, n as int) =~= Seq::<char>::empty());
    assert(out@ + Seq::<char>::empty() =~= out@);
    assert(underscores_as_spaces(Seq::<char>::empty()) =~= Seq::<char>::empty());
    remove_brackets(out.as_str())
}

/// A sample path and the same path with `.wav` added give one identity,
/// wherever the first does not itself end with `.wav`.
pub proof fn lemma_id_ignores_wav(path: Seq<char>)
    requires
        !ends_with_wav(path),
    ensures
        sample_id(path + wav_ext()) == sample_id(path),
{
    let p = path + wav_ext();
    assert(ends_with_wav(p));
    assert(p.subrange(0, p.len() - 4) =~= path);
}

} // verus!
