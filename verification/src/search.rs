//! Searching from the Results screen: the web searches configured as
//! `Name=URL` entries, the address built for a step's output, and the
//! decoder search list.

use base64::Engine;
use vstd::prelude::*;
use vstd::utf8::*;

use crate::text::{chars_of, string_views, utf8_len};
use crate::validation::{ascii_lowercase, is_ascii_text, lowercase, to_lowercase};

verus! {

/// Whether `pat` occurs in `s` at position `i`.
pub open spec fn occurs_at(s: Seq<char>, pat: Seq<char>, i: int) -> bool {
    0 <= i && i + pat.len() <= s.len() && s.subrange(i, i + pat.len()) == pat
}

/// Whether `pat` occurs in `s`.
pub open spec fn contains_text(s: Seq<char>, pat: Seq<char>) -> bool {
    exists|i: int| occurs_at(s, pat, i)
}

/// `s` with every occurrence of `pat` replaced by `rep`, scanning from the
/// left and not looking inside a replacement (what `str::replace` returns).
pub open spec fn replace_all(s: Seq<char>, pat: Seq<char>, rep: Seq<char>) -> Seq<char>
    decreases s.len(),
{
    if s.len() == 0 {
        Seq::empty()
    } else if pat.len() > 0 && occurs_at(s, pat, 0) {
        rep + replace_all(s.skip(pat.len() as int), pat, rep)
    } else {
        seq![s[0]] + replace_all(s.drop_first(), pat, rep)
    }
}

/// Whether `pat` occurs in `chars` at position `i`.
fn occurs_at_exec(chars: &Vec<char>, pat: &Vec<char>, i: usize) -> (r: bool)
    ensures
        r == occurs_at(chars@, pat@, i as int),
{
    if pat.len() > chars.len() || i > chars.len() - pat.len() {
        return false;
    }
    let mut k: usize = 0;
    while k < pat.len()
        invariant
            i + pat@.len() <= chars@.len(),
            chars@.len() == chars.len(),
            pat@.len() == pat.len(),
            k <= pat@.len(),
            forall|j: int| 0 <= j < k ==> chars@[i + j] == pat@[j],
        decreases pat@.len() - k,
    {
        if chars[i + k] != pat[k] {
            proof {
                assert(chars@.subrange(i as int, i + pat@.len())[k as int] != pat@[k as int]);
            }
            return false;
        }
        k = k + 1;
    }
    proof {
        assert(chars@.subrange(i as int, i + pat@.len()) =~= pat@);
    }
    true
}

/// Whether `pat` occurs in `s`.
pub fn has_text(s: &str, pat: &str) -> (r: bool)
    ensures
        r == contains_text(s@, pat@),
{
    let chars = chars_of(s);
    let p = chars_of(pat);
    let mut i: usize = 0;
    while i <= chars.len()
        invariant
            chars@ == s@,
            p@ == pat@,
            forall|j: int| 0 <= j < i ==> !occurs_at(s@, pat@, j),
        decreases chars@.len() + 1 - i,
    {
        if occurs_at_exec(&chars, &p, i) {
            return true;
        }
        if i == chars.len() {
            proof {
                assert forall|j: int| !occurs_at(s@, pat@, j) by {
                    if 0 <= j && j + pat@.len() <= s@.len() {
                        assert(j <= i);
                    }
                }
            }
            return false;
        }
        i = i + 1;
    }
    false
}

/// Replaces every occurrence of `pat` in `s` by `rep` (see `replace_all`).
pub fn replace_text(s: &str, pat: &str, rep: &str) -> (r: String)
    requires
        pat@.len() > 0,
    ensures
        r@ == replace_all(s@, pat@, rep@),
{
    let chars = chars_of(s);
    let p = chars_of(pat);
    let n = chars.len();
    let mut out = String::new();
    let mut i: usize = 0;
    proof {
        assert(s@.skip(0) =~= s@);
    }
    while i < n
        invariant
            chars@ == s@,
            p@ == pat@,
            pat@.len() > 0,
            n == s@.len(),
            i <= n,
            out@ + replace_all(s@.skip(i as int), pat@, rep@) == replace_all(s@, pat@, rep@),
        decreases n - i,
    {
        let ghost rest = s@.skip(i as int);
        if occurs_at_exec(&chars, &p, i) {
            proof {
                assert(rest.subrange(0, pat@.len() as int) =~= s@.subrange(
                    i as int,
                    i + pat@.len(),
                ));
                assert(rest.skip(pat@.len() as int) =~= s@.skip(i + pat@.len()));
                assert(out@ + rep@ + replace_all(s@.skip(i + pat@.len()), pat@, rep@) =~= out@ + (
                rep@ + replace_all(s@.skip(i + pat@.len()), pat@, rep@)));
            }
            out.append(rep);
            i = i + p.len();
        } else {
            proof {
                if i + pat@.len() <= n {
                    assert(rest.subrange(0, pat@.len() as int) =~= s@.subrange(
                        i as int,
                        i + pat@.len(),
                    ));
                }
                assert(rest.drop_first() =~= s@.skip(i + 1));
                assert(rest[0] == chars@[i as int]);
            }
            let one = s.substring_char(i, i + 1);
            let ghost before = out@;
            out.append(one);
            proof {
                assert(one@ =~= seq![chars@[i as int]]);
                assert(out@ + replace_all(s@.skip(i + 1), pat@, rep@) =~= before + (seq![
                    chars@[i as int],
                ] + replace_all(s@.skip(i + 1), pat@, rep@)));
            }
            i = i + 1;
        }
    }
    proof {
        assert(s@.skip(n as int) =~= Seq::<char>::empty());
        assert(out@ + Seq::<char>::empty() =~= out@);
    }
    out
}

/// Whether the byte `b` is left as it is by URL encoding: ASCII letters and
/// digits, `-`, `.`, `_` and `~`.
pub open spec fn url_safe(b: u8) -> bool {
    (48 <= b <= 57) || (65 <= b <= 90) || (97 <= b <= 122) || b == 45 || b == 46 || b == 95
        || b == 126
}

/// The upper-case hex digit for `d` (below 16).
pub open spec fn hex_upper(d: u8) -> char {
    if d < 10 {
        ((48 + d) as u8) as char
    } else {
        ((55 + d) as u8) as char
    }
}

/// The URL encoding of the bytes `b`: safe bytes are kept, every other byte
/// becomes `%` and two upper-case hex digits.
pub open spec fn url_encode_bytes(b: Seq<u8>) -> Seq<char>
    decreases b.len(),
{
    if b.len() == 0 {
        Seq::empty()
    } else {
        (if url_safe(b[0]) {
            seq![b[0] as char]
        } else {
            seq!['%', hex_upper(b[0] / 16), hex_upper(b[0] % 16)]
        }) + url_encode_bytes(b.drop_first())
    }
}

/// Wrapper of `urlencoding::encode`, which percent-encodes every byte of the
/// UTF-8 text except ASCII letters and digits and `-`, `_`, `.`, `~`, with
/// upper-case hex digits.
#[verifier::external_body]
fn url_encode(s: &str) -> (r: String)
    ensures
        r@ == url_encode_bytes(encode_utf8(s@)),
{
    urlencoding::encode(s).into_owned()
}

/// The character of the standard base64 alphabet for the six-bit value `v`:
/// `A`-`Z`, `a`-`z`, `0`-`9`, `+`, `/`.
pub open spec fn base64_char(v: int) -> char {
    if v < 26 {
        (65 + v) as char
    } else if v < 52 {
        (71 + v) as char
    } else if v < 62 {
        (v - 4) as char
    } else if v == 62 {
        '+'
    } else {
        '/'
    }
}

/// The standard base64 encoding, with padding, of the bytes `b`: every
/// three bytes become four characters of six bits each; a last group of one
/// or two bytes becomes two or three characters and `=` padding to four.
pub open spec fn base64_standard(b: Seq<u8>) -> Seq<char>
    decreases b.len(),
{
    if b.len() == 0 {
        Seq::empty()
    } else {
        let x = b[0] as int;
        let y = if b.len() > 1 {
            b[1] as int
        } else {
            0
        };
        let z = if b.len() > 2 {
            b[2] as int
        } else {
            0
        };
        let first = base64_char(x / 4);
        let second = base64_char((x % 4) * 16 + y / 16);
        if b.len() == 1 {
            seq![first, second, '=', '=']
        } else if b.len() == 2 {
            seq![first, second, base64_char((y % 16) * 4), '=']
        } else {
            seq![first, second, base64_char((y % 16) * 4 + z / 64), base64_char(z % 64)]
                + base64_standard(b.skip(3))
        }
    }
}

/// Wrapper of `base64::engine::general_purpose::STANDARD.encode`: the base64
/// encoding of the text's UTF-8 bytes with the standard alphabet and padding
/// (see `base64_standard`). `encode` panics when the encoded length
/// overflows `usize`, which no text of at most `isize::MAX` bytes reaches.
#[verifier::external_body]
fn base64_encode(s: &str) -> (r: String)
    requires
        utf8_len(s@) <= isize::MAX,
    ensures
        r@ == base64_standard(encode_utf8(s@)),
{
    base64::engine::general_purpose::STANDARD.encode(s)
}

/// The address a web search opens for `text`: a template holding
/// `{base64}` gets the text's base64 encoding there; any other template gets
/// the URL-encoded text in place of each `{}`.
pub open spec fn search_url(template: Seq<char>, text: Seq<char>) -> Seq<char> {
    if contains_text(template, "{base64}"@) {
        replace_all(template, "{base64}"@, base64_standard(encode_utf8(text)))
    } else {
        replace_all(template, "{}"@, url_encode_bytes(encode_utf8(text)))
    }
}

/// Builds the address a web search opens for `text` (see `search_url`).
pub fn build_search_url(template: &str, text: &str) -> (r: String)
    requires
        utf8_len(text@) <= isize::MAX,
    ensures
        r@ == search_url(template@, text@),
{
    proof {
        reveal_strlit("{base64}");
        reveal_strlit("{}");
    }
    if has_text(template, "{base64}") {
        let encoded = base64_encode(text);
        replace_text(template, "{base64}", encoded.as_str())
    } else {
        let encoded = url_encode(text);
        replace_text(template, "{}", encoded.as_str())
    }
}

/// The `(name, address template)` pair of a configured entry `Name=URL`:
/// split at the first `=`; `None` when there is no `=`.
pub open spec fn search_entry(e: Seq<char>) -> Option<(Seq<char>, Seq<char>)> {
    if e.contains('=') {
        let i = choose|i: int| 0 <= i < e.len() && e[i] == '=' && forall|j: int| 0 <= j < i ==> e[j] != '=';
        Some((e.take(i), e.skip(i + 1)))
    } else {
        None
    }
}

/// The entries of `es` that hold a `=`, each split at its first `=`.
pub open spec fn search_entries(es: Seq<Seq<char>>) -> Seq<(Seq<char>, Seq<char>)>
    decreases es.len(),
{
    if es.len() == 0 {
        Seq::empty()
    } else {
        let rest = search_entries(es.drop_last());
        match search_entry(es.last()) {
            Some(p) => rest.push(p),
            None => rest,
        }
    }
}

/// Splits a configured entry `Name=URL` at its first `=`.
pub fn parse_search_entry(e: &str) -> (r: Option<(String, String)>)
    ensures
        match r {
            Some((name, url)) => search_entry(e@) == Some((name@, url@)),
            None => search_entry(e@) is None,
        },
{
    let chars = chars_of(e);
    let n = chars.len();
    let mut i: usize = 0;
    while i < n
        invariant
            chars@ == e@,
            n == e@.len(),
            i <= n,
            forall|j: int| 0 <= j < i ==> e@[j] != '=',
        decreases n - i,
    {
        if chars[i] == '=' {
            proof {
                assert(e@.contains('=')) by {
                    assert(e@[i as int] == '=');
                }
                let c = choose|c: int|
                    0 <= c < e@.len() && e@[c] == '=' && forall|j: int| 0 <= j < c ==> e@[j] != '=';
                assert(0 <= i < e@.len() && e@[i as int] == '=' && forall|j: int| 0 <= j < i ==> e@[j] != '=');
                if c < i {
                    assert(e@[c] != '=');
                }
                if c > i {
                    assert(e@[i as int] != '=');
                }
                assert(e@.subrange(0, i as int) =~= e@.take(i as int));
                assert(e@.subrange(i + 1, n as int) =~= e@.skip(i + 1));
            }
            let name = e.substring_char(0, i).to_owned();
            let url = e.substring_char(i + 1, n).to_owned();
            return Some((name, url));
        }
        i = i + 1;
    }
    proof {
        assert forall|k: int| 0 <= k < e@.len() implies e@[k] != '=' by {}
    }
    None
}

/// The configured web searches `Name=URL`, as (name, template) pairs; entries
/// without `=` are skipped.
pub fn parse_search_entries(entries: &Vec<String>) -> (r: Vec<(String, String)>)
    ensures
        crate::themes::pair_views(r@) == search_entries(string_views(entries@)),
{
    let mut out: Vec<(String, String)> = Vec::new();
    let mut i: usize = 0;
    while i < entries.len()
        invariant
            i <= entries@.len(),
            crate::themes::pair_views(out@) == search_entries(string_views(entries@).take(i as int)),
        decreases entries@.len() - i,
    {
        let ghost es = string_views(entries@);
        proof {
            assert(es.take(i + 1).drop_last() =~= es.take(i as int));
            assert(es.take(i + 1).last() == entries@[i as int]@);
        }
        match parse_search_entry(entries[i].as_str()) {
            Some(p) => {
                proof {
                    assert(crate::themes::pair_views(out@.push(p)) =~= crate::themes::pair_views(
                        out@,
                    ).push((p.0@, p.1@)));
                }
                out.push(p);
            },
            None => {},
        }
        i = i + 1;
    }
    proof {
        assert(string_views(entries@).take(entries@.len() as int) =~= string_views(entries@));
    }
    out
}

/// The decoder names of `all` whose lower-cased form contains `query`, in
/// order.
pub open spec fn matching_decoders(all: Seq<&'static str>, query: Seq<char>) -> Seq<&'static str>
    decreases all.len(),
{
    if all.len() == 0 {
        Seq::empty()
    } else {
        let rest = matching_decoders(all.drop_last(), query);
        if contains_text(lowercase(all.last()@), query) {
            rest.push(all.last())
        } else {
            rest
        }
    }
}

/// The decoder names of `all` whose lower-cased form contains `query`; an
/// ASCII name is lower-cased the ASCII way.
pub fn filter_decoders(all: &Vec<&'static str>, query: &str) -> (r: Vec<&'static str>)
    ensures
        r@ == matching_decoders(all@, query@),
        forall|k: int|
            0 <= k < all@.len() && is_ascii_text(#[trigger] all@[k]@) ==> lowercase(all@[k]@)
                == ascii_lowercase(all@[k]@),
{
    let mut out: Vec<&'static str> = Vec::new();
    let mut i: usize = 0;
    while i < all.len()
        invariant
            i <= all@.len(),
            out@ == matching_decoders(all@.take(i as int), query@),
            forall|k: int|
                0 <= k < i && is_ascii_text(#[trigger] all@[k]@) ==> lowercase(all@[k]@)
                    == ascii_lowercase(all@[k]@),
        decreases all@.len() - i,
    {
        proof {
            assert(all@.take(i + 1).drop_last() =~= all@.take(i as int));
            assert(all@.take(i + 1).last() == all@[i as int]);
        }
        let name = all[i];
        let lower = to_lowercase(name);
        if has_text(lower.as_str(), query) {
            out.push(name);
        }
        i = i + 1;
    }
    proof {
        assert(all@.take(all@.len() as int) =~= all@);
    }
    out
}

} // verus!
