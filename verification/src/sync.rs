use vstd::prelude::*;
use vstd::string::StringSliceAdditionalSpecFns;
use crate::text::{is_infix, text_eq};

verus! {

/// `s` up to, and without, its first `c`; all of `s` when it has none.
pub open spec fn before_first(s: Seq<char>, c: char) -> Seq<char>
    decreases s.len(),
{
    if s.len() == 0 {
        s
    } else if s[0] == c {
        Seq::empty()
    } else {
        seq![s[0]] + before_first(s.drop_first(), c)
    }
}

/// What follows the first `c` of `s`; `None` when it has none.
pub open spec fn after_first(s: Seq<char>, c: char) -> Option<Seq<char>>
    decreases s.len(),
{
    if s.len() == 0 {
        None
    } else if s[0] == c {
        Some(s.drop_first())
    } else {
        after_first(s.drop_first(), c)
    }
}

proof fn lemma_split_at_first(s: Seq<char>, c: char, k: int)
    requires
        0 <= k <= s.len(),
        forall|j: int| 0 <= j < k ==> s[j] != c,
        k == s.len() || s[k] == c,
    ensures
        before_first(s, c) == s.subrange(0, k),
        after_first(s, c) == (if k < s.len() {
            Some(s.subrange(k + 1, s.len() as int))
        } else {
            None::<Seq<char>>
        }),
    decreases k,
{
    if k == 0 {
        if s.len() > 0 {
            assert(s.drop_first() =~= s.subrange(1, s.len() as int));
        }
        assert(s.subrange(0, 0) =~= Seq::<char>::empty());
    } else {
        let t = s.drop_first();
        assert forall|j: int| 0 <= j < k - 1 implies t[j] != c by {
            assert(t[j] == s[j + 1]);
        }
        if k < s.len() {
            assert(t[k - 1] == s[k]);
        }
        lemma_split_at_first(t, c, k - 1);
        assert(seq![s[0]] + t.subrange(0, k - 1) =~= s.subrange(0, k));
        if k < s.len() {
            assert(t.subrange(k, t.len() as int) =~= s.subrange(k + 1, s.len() as int));
        }
    }
}

/// What follows the first `c` is shorter than the text itself.
pub proof fn lemma_after_first_shorter(s: Seq<char>, c: char)
    ensures
        after_first(s, c) matches Some(r) ==> r.len() < s.len(),
    decreases s.len(),
{
    if s.len() > 0 && s[0] != c {
        lemma_after_first_shorter(s.drop_first(), c);
    }
}

/// The fragment of a URL: what follows its first '#', up to the next '#'.
pub open spec fn url_fragment(url: Seq<char>) -> Option<Seq<char>> {
    match after_first(url, '#') {
        Some(rest) => Some(before_first(rest, '#')),
        None => None,
    }
}

/// The access token among the '&'-separated pairs of `f`: the pairs are
/// read in order, the first whose key (what precedes its first '=') is
/// "access_token" decides, giving what follows that '=', or nothing when
/// the pair has no '='.
pub open spec fn token_in_pairs(f: Seq<char>) -> Option<Seq<char>>
    decreases f.len(),
{
    let pair = before_first(f, '&');
    if before_first(pair, '=') == "access_token"@ {
        after_first(pair, '=')
    } else {
        match after_first(f, '&') {
            Some(rest) => {
                proof {
                    lemma_after_first_shorter(f, '&');
                }
                token_in_pairs(rest)
            },
            None => None,
        }
    }
}

/// The access token carried by the fragment of a sign-in redirect URL.
pub open spec fn token_in_url(url: Seq<char>) -> Option<Seq<char>> {
    match url_fragment(url) {
        Some(f) => token_in_pairs(f),
        None => None,
    }
}

/// The first position in `from..to` holding `c`, or `to`.
fn find_char(s: &str, from: usize, to: usize, c: char) -> (k: usize)
    requires
        from <= to <= s@.len(),
    ensures
        from <= k <= to,
        forall|j: int| from <= j < k ==> s@[j] != c,
        k == to || s@[k as int] == c,
{
    let mut k = from;
    while k < to && s.get_char(k) != c
        invariant
            from <= k <= to,
            to <= s@.len(),
            forall|j: int| from <= j < k ==> s@[j] != c,
        decreases to - k,
    {
        k = k + 1;
    }
    k
}

proof fn lemma_split_range(s: Seq<char>, from: int, to: int, k: int, c: char)
    requires
        0 <= from <= k <= to <= s.len(),
        forall|j: int| from <= j < k ==> s[j] != c,
        k == to || s[k] == c,
    ensures
        before_first(s.subrange(from, to), c) == s.subrange(from, k),
        after_first(s.subrange(from, to), c) == (if k < to {
            Some(s.subrange(k + 1, to))
        } else {
            None::<Seq<char>>
        }),
{
    let t = s.subrange(from, to);
    assert forall|j: int| 0 <= j < k - from implies t[j] != c by {
        assert(t[j] == s[from + j]);
    }
    if k < to {
        assert(t[k - from] == s[k]);
    }
    lemma_split_at_first(t, c, k - from);
    assert(t.subrange(0, k - from) =~= s.subrange(from, k));
    if k < to {
        assert(t.subrange(k - from + 1, t.len() as int) =~= s.subrange(k + 1, to));
    }
}

/// The access token in a sign-in redirect URL such as
/// "https://host/page#access_token=TOKEN&token_type=Bearer".
pub fn parse_token_from_url(url: &str) -> (r: Option<String>)
    ensures
        match r {
            Some(t) => token_in_url(url@) == Some(t@),
            None => token_in_url(url@) is None,
        },
{
    let n = url.unicode_len();
    let h = find_char(url, 0, n, '#');
    proof {
        lemma_split_range(url@, 0, n as int, h as int, '#');
        assert(url@.subrange(0, n as int) =~= url@);
    }
    if h == n {
        return None;
    }
    let fs = h + 1;
    let fe = find_char(url, fs, n, '#');
    proof {
        lemma_split_range(url@, fs as int, n as int, fe as int, '#');
        assert(url_fragment(url@) == Some(url@.subrange(fs as int, fe as int)));
        reveal_strlit("access_token");
    }
    let ghost frag = url@.subrange(fs as int, fe as int);
    let mut st = fs;
    while st <= fe
        invariant
            fs <= st <= fe + 1,
            fe <= n,
            n == url@.len(),
            frag == url@.subrange(fs as int, fe as int),
            token_in_url(url@) == token_in_pairs(frag),
            st <= fe ==> token_in_pairs(frag) == token_in_pairs(url@.subrange(st as int, fe as int)),
            st > fe ==> token_in_pairs(frag) is None,
        decreases fe + 1 - st,
    {
        let e = find_char(url, st, fe, '&');
        let eq = find_char(url, st, e, '=');
        let ghost rest = url@.subrange(st as int, fe as int);
        let ghost pair = url@.subrange(st as int, e as int);
        proof {
            lemma_split_range(url@, st as int, fe as int, e as int, '&');
            lemma_split_range(url@, st as int, e as int, eq as int, '=');
            assert(before_first(rest, '&') == pair);
            assert(before_first(pair, '=') == url@.subrange(st as int, eq as int));
        }
        let key = url.substring_char(st, eq);
        if text_eq(key, "access_token") {
            assert(token_in_pairs(rest) == after_first(pair, '='));
            if eq < e {
                let v = url.substring_char(eq + 1, e);
                return Some(v.to_owned());
            } else {
                return None;
            }
        }
        if e == fe {
            return None;
        }
        st = e + 1;
    }
    None
}

/// A token shown on screen: its first and last four bytes around an
/// ellipsis when it is longer than eight bytes, "****" otherwise.
pub open spec fn masked(bytes: Seq<u8>) -> Seq<char> {
    if bytes.len() > 8 {
        vstd::utf8::decode_utf8(bytes.subrange(0, 4)) + "…"@ + vstd::utf8::decode_utf8(
            bytes.subrange(bytes.len() - 4, bytes.len() as int),
        )
    } else {
        "****"@
    }
}

/// Masks a token for display; a long token must not have a character
/// straddling its fourth or its fourth-last byte.
pub fn mask_token(t: &str) -> (r: String)
    requires
        t.spec_bytes().len() <= usize::MAX,
        t.spec_bytes().len() > 8 ==> vstd::utf8::is_char_boundary(t.spec_bytes(), 4)
            && vstd::utf8::is_char_boundary(t.spec_bytes(), t.spec_bytes().len() - 4),
    ensures
        r@ == masked(t.spec_bytes()),
{
    let n = t.len();
    if n > 8 {
        let (head, _) = t.split_at(4);
        let (_, tail) = t.split_at(n - 4);
        let mut s = head.to_owned();
        s.append("…");
        s.append(tail);
        proof {
            vstd::utf8::encode_utf8_decode_utf8(head@);
            vstd::utf8::encode_utf8_decode_utf8(tail@);
        }
        s
    } else {
        String::from_str("****")
    }
}

/// A stretch of an ASCII text, read back from the same stretch of its bytes.
proof fn lemma_ascii_stretch(s: Seq<char>, i: int, j: int)
    requires
        vstd::utf8::is_ascii_chars(s),
        0 <= i <= j <= s.len(),
    ensures
        vstd::utf8::decode_utf8(vstd::utf8::encode_utf8(s).subrange(i, j)) == s.subrange(i, j),
{
    vstd::utf8::is_ascii_chars_encode_utf8(s);
    let sub = s.subrange(i, j);
    assert(vstd::utf8::is_ascii_chars(sub));
    vstd::utf8::is_ascii_chars_encode_utf8(sub);
    assert(vstd::utf8::encode_utf8(s).subrange(i, j) =~= vstd::utf8::encode_utf8(sub));
    vstd::utf8::encode_utf8_decode_utf8(sub);
}

/// An ASCII token can always be masked, and its mask never gives it away:
/// a token of more than eight characters shows its first and last four
/// around an ellipsis, nine characters in all, so the mask is shorter than
/// the token and cannot hold it; a shorter token shows as "****" whatever
/// it is.
pub proof fn lemma_mask_hides_ascii_token(s: Seq<char>)
    requires
        vstd::utf8::is_ascii_chars(s),
    ensures
        s.len() > 8 ==> vstd::utf8::is_char_boundary(vstd::utf8::encode_utf8(s), 4)
            && vstd::utf8::is_char_boundary(vstd::utf8::encode_utf8(s), s.len() - 4),
        s.len() > 8 ==> masked(vstd::utf8::encode_utf8(s)) == s.subrange(0, 4) + "…"@ + s.subrange(
            s.len() - 4,
            s.len() as int,
        ),
        s.len() > 8 ==> masked(vstd::utf8::encode_utf8(s)).len() == 9,
        s.len() > 8 ==> !is_infix(s, masked(vstd::utf8::encode_utf8(s))),
        s.len() <= 8 ==> masked(vstd::utf8::encode_utf8(s)) == "****"@,
{
    let b = vstd::utf8::encode_utf8(s);
    vstd::utf8::is_ascii_chars_encode_utf8(s);
    reveal_strlit("…");
    if s.len() > 8 {
        lemma_ascii_stretch(s, 0, 4);
        lemma_ascii_stretch(s, s.len() - 4, s.len() as int);
        vstd::utf8::encode_utf8_valid_utf8(s);
        vstd::utf8::is_char_boundary_iff_not_is_continuation_byte(b, 4);
        vstd::utf8::is_char_boundary_iff_not_is_continuation_byte(b, s.len() - 4);
        assert(b[4] == s[4] as u8);
        assert(b[s.len() - 4] == s[s.len() - 4] as u8);
        let m = masked(b);
        assert(m.len() == 9);
        if is_infix(s, m) {
            let i = choose|i: int| 0 <= i <= m.len() - s.len() && #[trigger] m.subrange(i, i + s.len()) == s;
        }
    }
}

/// The token kept from what was pasted: the access token of a pasted
/// redirect URL, or the pasted text itself.
pub open spec fn pasted_token(raw: Seq<char>) -> Seq<char> {
    match token_in_url(raw) {
        Some(t) => t,
        None => raw,
    }
}

/// The token to save from a pasted text; nothing when it is empty.
pub fn token_to_save(raw: &str) -> (r: Option<String>)
    ensures
        pasted_token(raw@).len() == 0 <==> r is None,
        r matches Some(t) ==> t@ == pasted_token(raw@),
{
    let t = match parse_token_from_url(raw) {
        Some(t) => t,
        None => raw.to_owned(),
    };
    if t.as_str().is_empty() {
        None
    } else {
        Some(t)
    }
}

/// What a request to back up to, or restore from, Drive leads to.
pub enum SyncStart {
    /// There is nobody to back up: the user is warned instead.
    NoData,
    /// There is no sign-in token: the user is asked to sign in.
    NoToken,
    /// The transfer starts, encrypted with the passphrase when one was typed.
    Go { passphrase: Option<String> },
}

/// The passphrase handed to a transfer: none when the field is empty.
pub open spec fn passphrase_ok(typed: Seq<char>, p: Option<String>) -> bool {
    if typed.len() == 0 {
        p is None
    } else {
        p matches Some(x) && x@ == typed
    }
}

fn passphrase_arg(pp: &str) -> (r: Option<String>)
    ensures
        passphrase_ok(pp@, r),
{
    if pp.is_empty() {
        None
    } else {
        Some(pp.to_owned())
    }
}

/// A backup: refused without people to save, then without a token.
pub fn backup_start(has_people: bool, token: &str, passphrase: &str) -> (r: SyncStart)
    ensures
        !has_people ==> r is NoData,
        has_people && token@.len() == 0 ==> r is NoToken,
        has_people && token@.len() > 0 ==> (r matches SyncStart::Go { passphrase: p }
            && passphrase_ok(passphrase@, p)),
{
    if !has_people {
        SyncStart::NoData
    } else {
        restore_start(token, passphrase)
    }
}

/// A restore: refused without a token.
pub fn restore_start(token: &str, passphrase: &str) -> (r: SyncStart)
    ensures
        token@.len() == 0 ==> r is NoToken,
        token@.len() > 0 ==> (r matches SyncStart::Go { passphrase: p } && passphrase_ok(
            passphrase@,
            p,
        )),
{
    if token.is_empty() {
        SyncStart::NoToken
    } else {
        SyncStart::Go { passphrase: passphrase_arg(passphrase) }
    }
}

} // verus!
