//! Reading the tokens out of the redirect that ends the Riot sign-in:
//! `https://playvalorant.com/opt_in#access_token=...&id_token=...&expires_in=...`.
use vstd::prelude::*;
use crate::error::CommandError;
use crate::text::{
    all_digits, decimal_value, is_digit, chars_of, find_char, first_index, is_first_index, lemma_first_index_none,
    lemma_first_index_unique, opt_view, parse_u64, parse_u64_spec, range_eq, split_on,
};

verus! {

/// Lifetime of the access token, in seconds, when the redirect does not say.
pub const DEFAULT_EXPIRES_IN: u64 = 3600;

/// The tokens carried by a sign-in redirect.
#[derive(Clone, Debug, PartialEq, Eq)]
pub struct LoginRedirect {
    pub access_token: String,
    pub id_token: Option<String>,
    /// Seconds until the access token expires.
    pub expires_in: u64,
}

/// The fragment of a URL: the second piece of `url.split('#')`.
pub open spec fn fragment_of(url: Seq<char>) -> Option<Seq<char>> {
    let parts = split_on(url, '#');
    if parts.len() >= 2 {
        Some(parts[1])
    } else {
        None
    }
}

/// A `key=value` piece, split at its first `=`; `None` when there is no `=`.
pub open spec fn key_value(piece: Seq<char>) -> Option<(Seq<char>, Seq<char>)> {
    match first_index(piece, '=') {
        Some(j) => Some((piece.take(j), piece.skip(j + 1))),
        None => None,
    }
}

/// The value that `key` receives when the pieces are read in order: the last
/// piece that names it wins.
pub open spec fn param_in(pieces: Seq<Seq<char>>, key: Seq<char>) -> Option<Seq<char>>
    decreases pieces.len(),
{
    if pieces.len() == 0 {
        None
    } else {
        match key_value(pieces.last()) {
            Some(kv) => if kv.0 == key {
                Some(kv.1)
            } else {
                param_in(pieces.drop_last(), key)
            },
            None => param_in(pieces.drop_last(), key),
        }
    }
}

/// The value of `key` among the `&`-separated pairs of `fragment`.
pub open spec fn fragment_param(fragment: Seq<char>, key: Seq<char>) -> Option<Seq<char>> {
    param_in(split_on(fragment, '&'), key)
}

/// Seconds of validity: the parsed `expires_in`, or the default when it is
/// absent or not a number.
pub open spec fn expires_in_seconds(value: Option<Seq<char>>) -> u64 {
    match value {
        Some(v) => match parse_u64_spec(v) {
            Some(n) => n,
            None => DEFAULT_EXPIRES_IN,
        },
        None => DEFAULT_EXPIRES_IN,
    }
}

/// The bounds `(lo, hi)` of the fragment of `chars`, as a range of positions.
fn fragment_bounds(chars: &Vec<char>) -> (r: Option<(usize, usize)>)
    ensures
        match fragment_of(chars@) {
            Some(f) => r matches Some(b) && b.0 <= b.1 <= chars@.len() && chars@.subrange(
                b.0 as int,
                b.1 as int,
            ) == f,
            None => r is None,
        },
{
    let n = chars.len();
    let ghost s = chars@;
    assert(chars@.subrange(0, n as int) =~= s);
    match find_char(chars, 0, n, '#') {
        None => {
            assert(split_on(s, '#') == seq![s]);
            None
        },
        Some(i) => {
            let ghost rest = s.skip(i + 1);
            assert(split_on(s, '#') == seq![s.take(i as int)] + split_on(rest, '#'));
            assert(chars@.subrange(i + 1, n as int) =~= rest);
            match find_char(chars, i + 1, n, '#') {
                None => {
                    assert(split_on(rest, '#') == seq![rest]);
                    assert((seq![s.take(i as int)] + seq![rest])[1] == rest);
                    Some((i + 1, n))
                },
                Some(j) => {
                    let ghost k = j - (i + 1);
                    assert(split_on(rest, '#') == seq![rest.take(k)] + split_on(
                        rest.skip(k + 1),
                        '#',
                    ));
                    assert(chars@.subrange(i + 1, j as int) =~= rest.take(k));
                    assert((seq![s.take(i as int)] + (seq![rest.take(k)] + split_on(
                        rest.skip(k + 1),
                        '#',
                    )))[1] == rest.take(k));
                    Some((i + 1, j))
                },
            }
        },
    }
}

/// The value of `key` in the piece `chars[lo..hi]` when that piece names it,
/// else `current`.
fn apply_piece(
    url: &str,
    chars: &Vec<char>,
    lo: usize,
    hi: usize,
    key: &Vec<char>,
    current: Option<String>,
) -> (r: Option<String>)
    requires
        chars@ == url@,
        lo <= hi <= chars@.len(),
    ensures
        opt_view(r) == (match key_value(chars@.subrange(lo as int, hi as int)) {
            Some(kv) => if kv.0 == key@ {
                Some(kv.1)
            } else {
                opt_view(current)
            },
            None => opt_view(current),
        }),
{
    let ghost piece = chars@.subrange(lo as int, hi as int);
    match find_char(chars, lo, hi, '=') {
        None => current,
        Some(e) => {
            assert(piece.take(e - lo) =~= chars@.subrange(lo as int, e as int));
            assert(piece.skip(e - lo + 1) =~= chars@.subrange(e + 1, hi as int));
            if range_eq(chars, lo, e, key) {
                let v = url.substring_char(e + 1, hi).to_owned();
                Some(v)
            } else {
                current
            }
        },
    }
}

/// The `access_token`, `id_token` and `expires_in` values of the fragment
/// `chars[lo..hi]`, each as the last pair that names it gives it.
fn fragment_params(url: &str, chars: &Vec<char>, lo: usize, hi: usize) -> (r: (
    Option<String>,
    Option<String>,
    Option<String>,
))
    requires
        chars@ == url@,
        lo <= hi <= chars@.len(),
    ensures
        opt_view(r.0) == fragment_param(chars@.subrange(lo as int, hi as int), "access_token"@),
        opt_view(r.1) == fragment_param(chars@.subrange(lo as int, hi as int), "id_token"@),
        opt_view(r.2) == fragment_param(chars@.subrange(lo as int, hi as int), "expires_in"@),
{
    let k_access = chars_of("access_token");
    let k_id = chars_of("id_token");
    let k_expires = chars_of("expires_in");
    let ghost frag = chars@.subrange(lo as int, hi as int);
    let mut access: Option<String> = None;
    let mut id: Option<String> = None;
    let mut expires: Option<String> = None;
    let ghost mut done: Seq<Seq<char>> = Seq::empty();
    let mut pos = lo;
    assert(chars@.subrange(pos as int, hi as int) =~= frag);
    loop
        invariant
            chars@ == url@,
            lo <= pos <= hi <= chars@.len(),
            frag == chars@.subrange(lo as int, hi as int),
            k_access@ == "access_token"@,
            k_id@ == "id_token"@,
            k_expires@ == "expires_in"@,
            split_on(frag, '&') == done + split_on(chars@.subrange(pos as int, hi as int), '&'),
            opt_view(access) == param_in(done, "access_token"@),
            opt_view(id) == param_in(done, "id_token"@),
            opt_view(expires) == param_in(done, "expires_in"@),
        decreases hi - pos,
    {
        let ghost rest = chars@.subrange(pos as int, hi as int);
        let found = find_char(chars, pos, hi, '&');
        let end = match found {
            Some(j) => j,
            None => hi,
        };
        let ghost piece = chars@.subrange(pos as int, end as int);
        access = apply_piece(url, chars, pos, end, &k_access, access);
        id = apply_piece(url, chars, pos, end, &k_id, id);
        expires = apply_piece(url, chars, pos, end, &k_expires, expires);
        proof {
            let next = done.push(piece);
            assert(next.last() == piece);
            assert(next.drop_last() =~= done);
        }
        match found {
            None => {
                proof {
                    assert(split_on(rest, '&') == seq![rest]);
                    assert(piece =~= rest);
                    assert(done + seq![rest] =~= done.push(piece));
                    done = done.push(piece);
                }
                return (access, id, expires);
            },
            Some(j) => {
                proof {
                    let k = j - pos;
                    assert(split_on(rest, '&') == seq![rest.take(k)] + split_on(
                        rest.skip(k + 1),
                        '&',
                    ));
                    assert(rest.take(k) =~= piece);
                    assert(rest.skip(k + 1) =~= chars@.subrange(j + 1, hi as int));
                    assert(done + (seq![piece] + split_on(chars@.subrange(j + 1, hi as int), '&'))
                        =~= done.push(piece) + split_on(chars@.subrange(j + 1, hi as int), '&'));
                    done = done.push(piece);
                }
                pos = j + 1;
            },
        }
    }
}

/// What reading a sign-in redirect gives: the missing fragment, the missing
/// access token, or the tokens with the lifetime in seconds.
pub open spec fn login_redirect_spec(url: Seq<char>) -> Result<
    (Seq<char>, Option<Seq<char>>, u64),
    CommandError,
> {
    match fragment_of(url) {
        None => Err(CommandError::NoFragment),
        Some(f) => match fragment_param(f, "access_token"@) {
            None => Err(CommandError::MissingAccessTokenInFragment),
            Some(a) => Ok(
                (a, fragment_param(f, "id_token"@), expires_in_seconds(fragment_param(f, "expires_in"@))),
            ),
        },
    }
}

/// Reads the tokens out of the URL that the sign-in page redirects to.
pub fn parse_login_redirect(url: &str) -> (r: Result<LoginRedirect, CommandError>)
    ensures
        match login_redirect_spec(url@) {
            Ok(t) => r matches Ok(lr) && lr.access_token@ == t.0 && opt_view(lr.id_token) == t.1
                && lr.expires_in == t.2,
            Err(e) => r == Err::<LoginRedirect, CommandError>(e),
        },
{
    let chars = chars_of(url);
    let (lo, hi) = match fragment_bounds(&chars) {
        Some(b) => b,
        None => {
            return Err(CommandError::NoFragment);
        },
    };
    let (access, id, expires) = fragment_params(url, &chars, lo, hi);
    let access_token = match access {
        Some(a) => a,
        None => {
            return Err(CommandError::MissingAccessTokenInFragment);
        },
    };
    let expires_in = match expires {
        Some(e) => match parse_u64(e.as_str()) {
            Some(n) => n,
            None => DEFAULT_EXPIRES_IN,
        },
        None => DEFAULT_EXPIRES_IN,
    };
    Ok(LoginRedirect { access_token, id_token: id, expires_in })
}


proof fn lemma_fragment_after_address(address: Seq<char>, rest: Seq<char>)
    requires
        forall|i: int| 0 <= i < address.len() ==> address[i] != '#',
        forall|i: int| 0 <= i < rest.len() ==> rest[i] != '#',
    ensures
        fragment_of(address + seq!['#'] + rest) == Some(rest),
{
    let url = address + seq!['#'] + rest;
    assert(is_first_index(url, '#', address.len() as int));
    lemma_first_index_unique(url, '#', address.len() as int);
    assert(url.take(address.len() as int) =~= address);
    assert(url.skip(address.len() as int + 1) =~= rest);
    lemma_first_index_none(rest, '#');
    assert(split_on(rest, '#') == seq![rest]);
    assert(split_on(url, '#') == seq![address] + seq![rest]);
}

proof fn lemma_pair(key: Seq<char>, value: Seq<char>)
    requires
        forall|i: int| 0 <= i < key.len() ==> key[i] != '=',
    ensures
        key_value(key + seq!['='] + value) == Some((key, value)),
{
    let piece = key + seq!['='] + value;
    assert(is_first_index(piece, '=', key.len() as int));
    lemma_first_index_unique(piece, '=', key.len() as int);
    assert(piece.take(key.len() as int) =~= key);
    assert(piece.skip(key.len() as int + 1) =~= value);
}

proof fn lemma_split_first_piece(a: Seq<char>, b: Seq<char>)
    requires
        forall|i: int| 0 <= i < a.len() ==> a[i] != '&',
    ensures
        split_on(a + seq!['&'] + b, '&') == seq![a] + split_on(b, '&'),
{
    let s = a + seq!['&'] + b;
    assert(is_first_index(s, '&', a.len() as int));
    lemma_first_index_unique(s, '&', a.len() as int);
    assert(s.take(a.len() as int) =~= a);
    assert(s.skip(a.len() as int + 1) =~= b);
}

proof fn lemma_single_piece(a: Seq<char>)
    requires
        forall|i: int| 0 <= i < a.len() ==> a[i] != '&',
    ensures
        split_on(a, '&') == seq![a],
{
    lemma_first_index_none(a, '&');
}

/// A sign-in redirect that carries only an access token gives that token
/// back, with no id token and the default lifetime: for any address before
/// the `#` and any token, as long as neither holds a `#` and the token holds
/// no `&`.
pub proof fn lemma_redirect_reads_back(address: Seq<char>, token: Seq<char>)
    requires
        forall|i: int| 0 <= i < address.len() ==> address[i] != '#',
        forall|i: int| 0 <= i < token.len() ==> token[i] != '#' && token[i] != '&',
    ensures
        login_redirect_spec(address + seq!['#'] + "access_token="@ + token) == Ok::<
            (Seq<char>, Option<Seq<char>>, u64),
            CommandError,
        >((token, None, DEFAULT_EXPIRES_IN)),
{
    reveal_strlit("access_token=");
    reveal_strlit("access_token");
    reveal_strlit("id_token");
    reveal_strlit("expires_in");
    let rest = "access_token="@ + token;
    assert(rest =~= "access_token"@ + seq!['='] + token);
    assert(address + seq!['#'] + "access_token="@ + token =~= address + seq!['#'] + rest);
    assert forall|i: int| 0 <= i < rest.len() implies rest[i] != '#' && rest[i] != '&' by {
        if i >= 13 {
            assert(rest[i] == token[i - 13]);
        }
    }
    lemma_fragment_after_address(address, rest);
    lemma_single_piece(rest);
    lemma_pair("access_token"@, token);
    let pieces = seq![rest];
    assert(pieces.drop_last() =~= Seq::<Seq<char>>::empty());
    assert(param_in(Seq::<Seq<char>>::empty(), "id_token"@) == None::<Seq<char>>);
    assert(param_in(Seq::<Seq<char>>::empty(), "expires_in"@) == None::<Seq<char>>);
    assert("id_token"@ != "access_token"@);
    assert("expires_in"@ != "access_token"@);
    assert(fragment_param(rest, "access_token"@) == Some(token));
    assert(fragment_param(rest, "id_token"@) == None::<Seq<char>>);
    assert(fragment_param(rest, "expires_in"@) == None::<Seq<char>>);
}

/// A sign-in redirect that carries an access token and its lifetime in
/// decimal gives both back, with no id token: for any address before the
/// `#`, any token without `#` or `&`, and any digits whose value fits in a
/// `u64`.
pub proof fn lemma_redirect_lifetime_reads_back(address: Seq<char>, token: Seq<char>, digits: Seq<char>)
    requires
        forall|i: int| 0 <= i < address.len() ==> address[i] != '#',
        forall|i: int| 0 <= i < token.len() ==> token[i] != '#' && token[i] != '&',
        digits.len() > 0,
        all_digits(digits),
        decimal_value(digits) <= u64::MAX,
    ensures
        login_redirect_spec(address + seq!['#'] + "access_token="@ + token + "&expires_in="@ + digits)
            == Ok::<(Seq<char>, Option<Seq<char>>, u64), CommandError>(
            (token, None, decimal_value(digits) as u64),
        ),
{
    reveal_strlit("access_token=");
    reveal_strlit("&expires_in=");
    reveal_strlit("access_token");
    reveal_strlit("id_token");
    reveal_strlit("expires_in");
    let first = "access_token"@ + seq!['='] + token;
    let second = "expires_in"@ + seq!['='] + digits;
    let rest = first + seq!['&'] + second;
    assert(address + seq!['#'] + "access_token="@ + token + "&expires_in="@ + digits =~= address
        + seq!['#'] + rest);
    assert forall|i: int| 0 <= i < first.len() implies first[i] != '#' && first[i] != '&' by {
        if i >= 13 {
            assert(first[i] == token[i - 13]);
        }
    }
    assert forall|i: int| 0 <= i < second.len() implies second[i] != '#' && second[i] != '&' by {
        if i >= 11 {
            assert(is_digit(digits[i - 11]));
        }
    }
    assert forall|i: int| 0 <= i < rest.len() implies rest[i] != '#' by {
        if i < first.len() {
            assert(rest[i] == first[i]);
        } else if i > first.len() {
            assert(rest[i] == second[i - first.len() - 1]);
        }
    }
    lemma_fragment_after_address(address, rest);
    lemma_split_first_piece(first, second);
    lemma_single_piece(second);
    lemma_pair("access_token"@, token);
    lemma_pair("expires_in"@, digits);
    let pieces = seq![first] + seq![second];
    assert(pieces.last() == second);
    assert(pieces.drop_last() =~= seq![first]);
    assert(seq![first].drop_last() =~= Seq::<Seq<char>>::empty());
    assert("id_token"@ != "access_token"@);
    assert("id_token"@ != "expires_in"@);
    assert("expires_in"@ != "access_token"@);
    assert(param_in(Seq::<Seq<char>>::empty(), "id_token"@) == None::<Seq<char>>);
    assert(param_in(Seq::<Seq<char>>::empty(), "expires_in"@) == None::<Seq<char>>);
    assert(param_in(seq![first], "access_token"@) == Some(token));
    assert(param_in(seq![first], "id_token"@) == None::<Seq<char>>);
    assert(param_in(seq![first], "expires_in"@) == None::<Seq<char>>);
    assert(fragment_param(rest, "access_token"@) == Some(token));
    assert(fragment_param(rest, "id_token"@) == None::<Seq<char>>);
    assert(fragment_param(rest, "expires_in"@) == Some(digits));
    assert(is_digit(digits[0]));
    assert(parse_u64_spec(digits) == Some(decimal_value(digits) as u64));
}

} // verus!
