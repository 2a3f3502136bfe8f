use vstd::prelude::*;
use crate::text::{chars_of, char_is_whitespace, is_white_space, trim_start_ws, trim_end_ws, trim_ws, trim_end_char, has_prefix, has_suffix};

verus! {

/// The path that every server address ends with.
pub open spec fn api_path() -> Seq<char> {
    seq!['/', 'a', 'p', 'i', '/', 'c', 'u', 'r', 'r', 'e', 'n', 't']
}

pub open spec fn ws_scheme() -> Seq<char> {
    seq!['w', 's', ':', '/', '/']
}

pub open spec fn wss_scheme() -> Seq<char> {
    seq!['w', 's', 's', ':', '/', '/']
}

pub open spec fn http_scheme() -> Seq<char> {
    seq!['h', 't', 't', 'p', ':', '/', '/']
}

pub open spec fn https_scheme() -> Seq<char> {
    seq!['h', 't', 't', 'p', 's', ':', '/', '/']
}

/// The address the user typed, with white space and trailing slashes removed.
pub open spec fn trimmed_url(input: Seq<char>) -> Seq<char> {
    trim_end_char(trim_ws(input), '/')
}

/// The host part: the trimmed address without a trailing API path.
pub open spec fn url_base(t: Seq<char>) -> Seq<char> {
    if has_suffix(t, api_path()) {
        t.subrange(0, t.len() - api_path().len())
    } else {
        t
    }
}

/// The base rewritten to a websocket scheme: `ws://` and `wss://` stay,
/// `https://` becomes `wss://`, `http://` becomes `ws://`, and an address
/// without a scheme gets `wss://`.
pub open spec fn websocket_base(b: Seq<char>) -> Seq<char> {
    if has_prefix(b, ws_scheme()) || has_prefix(b, wss_scheme()) {
        b
    } else if has_prefix(b, https_scheme()) {
        wss_scheme() + b.subrange(https_scheme().len() as int, b.len() as int)
    } else if has_prefix(b, http_scheme()) {
        ws_scheme() + b.subrange(http_scheme().len() as int, b.len() as int)
    } else {
        wss_scheme() + b
    }
}

/// The websocket API address for what the user typed: empty when nothing
/// but white space and slashes was typed.
pub open spec fn normalized_url(input: Seq<char>) -> Seq<char> {
    let t = trimmed_url(input);
    if t.len() == 0 {
        Seq::empty()
    } else {
        websocket_base(url_base(t)) + api_path()
    }
}

proof fn lemma_trim_start_step(s: Seq<char>, i: int)
    requires
        0 <= i < s.len(),
        is_white_space(s[i]),
    ensures
        trim_start_ws(s.subrange(i, s.len() as int)) == trim_start_ws(s.subrange(i + 1, s.len() as int)),
{
    assert(s.subrange(i, s.len() as int).drop_first() =~= s.subrange(i + 1, s.len() as int));
}

proof fn lemma_trim_end_step(s: Seq<char>, a: int, e: int)
    requires
        0 <= a < e <= s.len(),
        is_white_space(s[e - 1]),
    ensures
        trim_end_ws(s.subrange(a, e)) == trim_end_ws(s.subrange(a, e - 1)),
{
    assert(s.subrange(a, e).drop_last() =~= s.subrange(a, e - 1));
}

proof fn lemma_trim_end_char_step(s: Seq<char>, a: int, e: int, c: char)
    requires
        0 <= a < e <= s.len(),
        s[e - 1] == c,
    ensures
        trim_end_char(s.subrange(a, e), c) == trim_end_char(s.subrange(a, e - 1), c),
{
    assert(s.subrange(a, e).drop_last() =~= s.subrange(a, e - 1));
}

/// Whether `c[from..]` begins with `p`.
fn starts_at(c: &Vec<char>, from: usize, to: usize, p: &Vec<char>) -> (b: bool)
    requires
        from <= to <= c.len(),
    ensures
        b == has_prefix(c@.subrange(from as int, to as int), p@),
{
    if p.len() > to - from {
        return false;
    }
    let r = chars_match_at(c, p, from);
    proof {
        assert(c@.subrange(from as int, to as int).subrange(0, p@.len() as int)
            =~= c@.subrange(from as int, from + p@.len()));
    }
    r
}

/// Whether `c[..to]`, from `from` on, ends with `p`.
fn ends_at(c: &Vec<char>, from: usize, to: usize, p: &Vec<char>) -> (b: bool)
    requires
        from <= to <= c.len(),
    ensures
        b == has_suffix(c@.subrange(from as int, to as int), p@),
{
    if p.len() > to - from {
        return false;
    }
    let r = chars_match_at(c, p, to - p.len());
    proof {
        let t = c@.subrange(from as int, to as int);
        assert(t.subrange(t.len() - p@.len(), t.len() as int)
            =~= c@.subrange(to - p@.len(), to as int));
    }
    r
}

fn chars_match_at(hay: &Vec<char>, needle: &Vec<char>, i: usize) -> (b: bool)
    requires
        i + needle.len() <= hay.len(),
    ensures
        b == (hay@.subrange(i as int, i + needle@.len()) == needle@),
{
    let mut j: usize = 0;
    while j < needle.len()
        invariant
            i + needle.len() <= hay.len(),
            j <= needle@.len(),
            forall|k: int| 0 <= k < j ==> hay@[i + k] == needle@[k],
        decreases needle@.len() - j,
    {
        if hay[i + j] != needle[j] {
            assert(hay@.subrange(i as int, i + needle@.len())[j as int] != needle@[j as int]);
            return false;
        }
        j = j + 1;
    }
    assert(hay@.subrange(i as int, i + needle@.len()) =~= needle@);
    true
}

/// Turns what the user typed into the websocket API address of the server:
/// white space and trailing slashes are removed, an `/api/current` already
/// there is not doubled, `http(s)://` becomes `ws(s)://`, a missing scheme
/// becomes `wss://`, and `/api/current` is appended. Nothing typed gives "".
pub fn normalize_server_url(input: &str) -> (out: String)
    ensures
        out@ == normalized_url(input@),
{
    let c = chars_of(input);
    let n = c.len();
    let mut start: usize = 0;
    assert(input@.subrange(0, n as int) =~= input@);
    while start < n && char_is_whitespace(c[start])
        invariant
            c@ == input@,
            n == c@.len(),
            start <= n,
            trim_start_ws(input@) == trim_start_ws(input@.subrange(start as int, n as int)),
        decreases n - start,
    {
        proof { lemma_trim_start_step(input@, start as int); }
        start = start + 1;
    }
    proof {
        let rest = input@.subrange(start as int, n as int);
        if start < n {
            assert(rest[0] == input@[start as int]);
        } else {
            assert(rest.len() == 0);
        }
        assert(trim_start_ws(rest) == rest);
    }
    let mut end: usize = n;
    while end > start && char_is_whitespace(c[end - 1])
        invariant
            c@ == input@,
            n == c@.len(),
            start <= end <= n,
            trim_ws(input@) == trim_end_ws(input@.subrange(start as int, end as int)),
        decreases end - start,
    {
        proof { lemma_trim_end_step(input@, start as int, end as int); }
        end = end - 1;
    }
    proof {
        let t = input@.subrange(start as int, end as int);
        if start < end {
            assert(t.last() == input@[end - 1]);
        }
        assert(trim_end_ws(t) == t);
    }
    while end > start && c[end - 1] == '/'
        invariant
            c@ == input@,
            n == c@.len(),
            start <= end <= n,
            trimmed_url(input@) == trim_end_char(input@.subrange(start as int, end as int), '/'),
        decreases end - start,
    {
        proof { lemma_trim_end_char_step(input@, start as int, end as int, '/'); }
        end = end - 1;
    }
    proof {
        let t = input@.subrange(start as int, end as int);
        if start < end {
            assert(t.last() == input@[end - 1]);
        }
        assert(trim_end_char(t, '/') == t);
    }
    let ghost t = input@.subrange(start as int, end as int);
    assert(trimmed_url(input@) == t);
    if start == end {
        assert(t.len() == 0);
        return String::new();
    }
    proof {
        reveal_strlit("/api/current");
        reveal_strlit("ws://");
        reveal_strlit("wss://");
        reveal_strlit("http://");
        reveal_strlit("https://");
    }
    let api = chars_of("/api/current");
    let ws = chars_of("ws://");
    let wss = chars_of("wss://");
    let http = chars_of("http://");
    let https = chars_of("https://");
    assert(api@ =~= api_path());
    assert(ws@ =~= ws_scheme());
    assert(wss@ =~= wss_scheme());
    assert(http@ =~= http_scheme());
    assert(https@ =~= https_scheme());
    let base_end: usize = if ends_at(&c, start, end, &api) { end - api.len() } else { end };
    let ghost b = input@.subrange(start as int, base_end as int);
    assert(url_base(t) =~= b);
    let mut out = String::new();
    if starts_at(&c, start, base_end, &ws) || starts_at(&c, start, base_end, &wss) {
        out.append(input.substring_char(start, base_end));
    } else if starts_at(&c, start, base_end, &https) {
        out.append("wss://");
        out.append(input.substring_char(start + https.len(), base_end));
        assert(b.subrange(https_scheme().len() as int, b.len() as int)
            =~= input@.subrange(start + https_scheme().len(), base_end as int));
    } else if starts_at(&c, start, base_end, &http) {
        out.append("ws://");
        out.append(input.substring_char(start + http.len(), base_end));
        assert(b.subrange(http_scheme().len() as int, b.len() as int)
            =~= input@.subrange(start + http_scheme().len(), base_end as int));
    } else {
        out.append("wss://");
        out.append(input.substring_char(start, base_end));
    }
    assert(out@ =~= websocket_base(b));
    out.append("/api/current");
    out
}


proof fn lemma_websocket_base_scheme(b: Seq<char>)
    ensures
        has_prefix(websocket_base(b), ws_scheme()) || has_prefix(websocket_base(b), wss_scheme()),
{
    let w = websocket_base(b);
    if has_prefix(b, ws_scheme()) || has_prefix(b, wss_scheme()) {
    } else if has_prefix(b, https_scheme()) {
        assert(w.subrange(0, 6) =~= wss_scheme());
    } else if has_prefix(b, http_scheme()) {
        assert(w.subrange(0, 5) =~= ws_scheme());
    } else {
        assert(w.subrange(0, 6) =~= wss_scheme());
    }
}

/// Normalizing an address that is already normalized leaves it unchanged:
/// the result of `normalize_server_url` is a fixed point of it.
pub proof fn law_normalize_idempotent(input: Seq<char>)
    ensures
        normalized_url(normalized_url(input)) == normalized_url(input),
{
    let r = normalized_url(input);
    let t = trimmed_url(input);
    if t.len() == 0 {
        assert(r.len() == 0);
        assert(trim_start_ws(r) == r);
        assert(trim_end_ws(r) == r);
        assert(trim_end_char(r, '/') == r);
        assert(trimmed_url(r).len() == 0);
    } else {
        let w = websocket_base(url_base(t));
        lemma_websocket_base_scheme(url_base(t));
        assert(r == w + api_path());
        assert(w[0] == 'w') by {
            if has_prefix(w, ws_scheme()) {
                assert(w.subrange(0, 5)[0] == ws_scheme()[0]);
            } else {
                assert(w.subrange(0, 6)[0] == wss_scheme()[0]);
            }
        }
        assert(r[0] == 'w');
        assert(r.last() == 't');
        assert(!is_white_space('w'));
        assert(!is_white_space('t'));
        assert(trim_start_ws(r) == r);
        assert(trim_end_ws(r) == r);
        assert(trim_end_char(r, '/') == r);
        assert(trimmed_url(r) == r);
        assert(r.subrange(r.len() - 12, r.len() as int) =~= api_path());
        assert(has_suffix(r, api_path()));
        assert(url_base(r) =~= w);
        assert(websocket_base(w) == w);
        assert(normalized_url(r) =~= r);
    }
}

} // verus!
