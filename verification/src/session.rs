//! Server sessions: the identifier that travels in a cookie, and the data that
//! the server keeps under it between the two halves of a ceremony.
use vstd::prelude::*;

use vstd::string::StringSliceAdditionalSpecFns;
use vstd::utf8::{encode_utf8, is_ascii_chars, is_ascii_chars_encode_utf8};

use crate::bytes::{find, find_from, lemma_find, occurs_at, same_bytes, split};

verus! {

/// The identifier of a session: a UUID, as its 128-bit big-endian value.
#[derive(Clone, Copy, Debug, PartialEq, Eq, Structural)]
pub struct SessionId(pub u128);

/// A session: its identifier, and the data kept under it.
#[derive(Clone, Debug)]
pub struct Session {
    pub id: SessionId,
    pub data: Vec<u8>,
}

/// Why a session could not be read or kept.
#[derive(Clone, Debug, PartialEq, Eq)]
pub enum SessionError {
    /// The `cookie` header holds bytes other than visible ASCII.
    HeaderNotText,
    /// The session cookie does not hold a UUID.
    InvalidSessionId,
    /// The session store failed, for the reason given.
    Store(String),
}

/// The lower-case hexadecimal digit for `n`, which is below 16.
pub open spec fn hex_digit(n: u128) -> u8 {
    if n < 10 {
        (48 + n) as u8
    } else {
        (87 + n) as u8
    }
}

/// The `k`-th hexadecimal digit of `id`, counting from the most significant.
pub open spec fn nibble(id: u128, k: int) -> u128 {
    (id >> ((124 - 4 * k) as u128)) & 0xf
}

pub open spec fn is_hyphen_position(i: int) -> bool {
    i == 8 || i == 13 || i == 18 || i == 23
}

/// Which digit stands at index `i` of the hyphenated text.
pub open spec fn digit_index(i: int) -> int {
    if i < 8 {
        i
    } else if i < 13 {
        i - 1
    } else if i < 18 {
        i - 2
    } else if i < 23 {
        i - 3
    } else {
        i - 4
    }
}

/// The hyphenated lower-case text of a UUID, such as
/// `936da01f-9abd-4d9d-80c7-02af85c822a8`, as ASCII bytes.
pub open spec fn uuid_ascii(id: u128) -> Seq<u8> {
    Seq::new(
        36,
        |i: int|
            if is_hyphen_position(i) {
                45u8
            } else {
                hex_digit(nibble(id, digit_index(i)))
            },
    )
}

/// ASCII bytes as characters.
pub open spec fn ascii_chars(bytes: Seq<u8>) -> Seq<char> {
    bytes.map_values(|b: u8| b as char)
}

/// What `uuid::Uuid::try_parse_ascii` gives for `text`, as a 128-bit value.
pub uninterp spec fn uuid_parse(text: Seq<u8>) -> Option<u128>;

/// Parses `text` with `uuid::Uuid::try_parse_ascii`.
///
/// The contract claims that the result is a function of `text` alone, and, as
/// the parser's source shows, that the hyphenated lower-case text of a UUID
/// parses back to that UUID. The other forms that the parser accepts are left
/// unsaid.
#[verifier::external_body]
fn parse_uuid(text: &[u8]) -> (id: Option<u128>)
    ensures
        id == uuid_parse(text@),
        forall|v: u128| #[trigger] uuid_ascii(v) == text@ ==> id == Some(v),
{
    match uuid::Uuid::try_parse_ascii(text) {
        Ok(uuid) => Some(uuid.as_u128()),
        Err(_) => None,
    }
}

/// Formats `id` with `uuid::Uuid`'s `Display`, which writes the hyphenated
/// lower-case form.
#[verifier::external_body]
fn uuid_text(id: u128) -> (text: String)
    ensures
        text@ == ascii_chars(uuid_ascii(id)),
{
    uuid::Uuid::from_u128(id).to_string()
}

/// Whether `id` has the version and variant bits of a random (version 4) UUID.
pub open spec fn is_random_uuid(id: u128) -> bool {
    nibble(id, 12) == 4 && (id >> 62u128) & 3 == 2
}

/// A fresh random UUID from `uuid::Uuid::new_v4`.
///
/// The contract claims only the version and variant bits that `new_v4` sets;
/// the other bits come from the random number generator.
#[verifier::external_body]
pub(crate) fn random_uuid() -> (id: u128)
    ensures
        is_random_uuid(id),
{
    uuid::Uuid::new_v4().as_u128()
}

/// The value of `bytes` read as a big-endian number.
pub open spec fn big_endian(bytes: Seq<u8>) -> int
    decreases bytes.len(),
{
    if bytes.len() == 0 {
        0
    } else {
        big_endian(bytes.drop_last()) * 256 + bytes.last()
    }
}

/// `uuid::Uuid::from_slice`: sixteen bytes in big-endian order, or nothing
/// when `bytes` has another length.
#[verifier::external_body]
pub(crate) fn uuid_from_bytes(bytes: &[u8]) -> (id: Option<u128>)
    ensures
        id is Some <==> bytes@.len() == 16,
        id matches Some(v) ==> v == big_endian(bytes@),
{
    match uuid::Uuid::from_slice(bytes) {
        Ok(uuid) => Some(uuid.as_u128()),
        Err(_) => None,
    }
}

/// The attributes of every session cookie, after its value.
pub open spec fn cookie_attributes() -> Seq<char> {
    "; HttpOnly; SameSite=Strict; Secure; Path="@
}

/// `cookie::Cookie::build((name, value))` with the given path, `Secure`,
/// `SameSite=Strict` and `HttpOnly`, formatted as a `Set-Cookie` value.
///
/// The crate's `Display` writes `name=value`, then the attributes in a fixed
/// order, without encoding anything.
#[verifier::external_body]
fn cookie_text(name: &str, value: &str, path: &str) -> (text: String)
    ensures
        text@ == name@ + "="@ + value@ + cookie_attributes() + path@,
{
    cookie::Cookie::build((name, value)).path(path).secure(true).same_site(
        cookie::SameSite::Strict,
    ).http_only(true).to_string()
}

/// The `Set-Cookie` value that carries the session `id` under `name`.
pub open spec fn session_cookie(name: Seq<char>, id: u128, path: Seq<char>) -> Seq<char> {
    name + "="@ + ascii_chars(uuid_ascii(id)) + cookie_attributes() + path
}

/// Whether a header byte is visible ASCII (or a tab), as `HeaderValue::to_str` requires.
pub open spec fn is_visible_ascii(b: u8) -> bool {
    (32 <= b && b < 127) || b == 9
}

pub open spec fn header_is_text(header: Seq<u8>) -> bool {
    forall|i: int| 0 <= i < header.len() ==> is_visible_ascii(#[trigger] header[i])
}

/// `"; "`, which separates the cookies of a `cookie` header.
pub open spec fn cookie_separator() -> Seq<u8> {
    seq![59u8, 32u8]
}

/// `"="`, which separates a cookie's name from its value.
pub open spec fn pair_separator() -> Seq<u8> {
    seq![61u8]
}

/// The value of the cookie `segment` if its name is `name`: the text between
/// the first `=` and the next one.
pub open spec fn pair_value(segment: Seq<u8>, name: Seq<u8>) -> Option<Seq<u8>> {
    let parts = split(segment, pair_separator());
    if parts.len() >= 2 && parts[0] == name {
        Some(parts[1])
    } else {
        None
    }
}

/// The value of the first of `segments` whose name is `name`.
pub open spec fn find_cookie(segments: Seq<Seq<u8>>, name: Seq<u8>) -> Option<Seq<u8>>
    decreases segments.len(),
{
    if segments.len() == 0 {
        None
    } else {
        match pair_value(segments[0], name) {
            Some(value) => Some(value),
            None => find_cookie(segments.drop_first(), name),
        }
    }
}

/// The session that a request's `cookie` header names under `name`.
pub open spec fn session_from_header(header: Option<Seq<u8>>, name: Seq<u8>) -> Result<
    Option<SessionId>,
    SessionError,
> {
    match header {
        None => Ok(None),
        Some(h) => if !header_is_text(h) {
            Err(SessionError::HeaderNotText)
        } else {
            match find_cookie(split(h, cookie_separator()), name) {
                None => Ok(None),
                Some(value) => match uuid_parse(value) {
                    Some(id) => Ok(Some(SessionId(id))),
                    None => Err(SessionError::InvalidSessionId),
                },
            }
        },
    }
}

pub open spec fn header_view(header: Option<&[u8]>) -> Option<Seq<u8>> {
    match header {
        Some(h) => Some(h@),
        None => None,
    }
}

/// Whether `name` can stand as a cookie's name in a `cookie` header and be
/// found again: visible ASCII, without `=` and without `"; "`.
pub open spec fn plain_cookie_name(name: Seq<u8>) -> bool {
    &&& header_is_text(name)
    &&& forall|i: int| 0 <= i < name.len() ==> #[trigger] name[i] != 61u8
    &&& find(name, cookie_separator()) is None
}

/// The `cookie` header that a browser sends back for the session cookie `id` under `name`.
pub open spec fn returned_cookie(name: Seq<u8>, id: u128) -> Seq<u8> {
    name + pair_separator() + uuid_ascii(id)
}

/// Every hexadecimal digit of a UUID's text is a visible ASCII byte other than `=` and `;`.
proof fn lemma_uuid_ascii_bytes(id: u128, i: int)
    requires
        0 <= i < 36,
    ensures
        48 <= uuid_ascii(id)[i] <= 57 || 97 <= uuid_ascii(id)[i] <= 102 || uuid_ascii(id)[i] == 45,
{
    if !is_hyphen_position(i) {
        let k = digit_index(i);
        let shift = (124 - 4 * k) as u128;
        assert((id >> shift) & 0xf < 16) by (bit_vector);
    }
}

/// A returned session cookie is visible ASCII when its name is.
proof fn lemma_returned_cookie_is_text(name: Seq<u8>, id: u128)
    requires
        plain_cookie_name(name),
    ensures
        header_is_text(returned_cookie(name, id)),
{
    let h = returned_cookie(name, id);
    assert forall|i: int| 0 <= i < h.len() implies is_visible_ascii(#[trigger] h[i]) by {
        if i < name.len() {
            assert(h[i] == name[i]);
        } else if i > name.len() {
            lemma_uuid_ascii_bytes(id, i - name.len() - 1);
        }
    }
}

/// The value of the pair that starts the segment `bytes[start..end]`, when its
/// name is `name`, as the range of `bytes` that holds it.
fn segment_value(bytes: &[u8], start: usize, end: usize, name: &[u8]) -> (range: Option<
    (usize, usize),
>)
    requires
        start <= end <= bytes@.len(),
    ensures
        match pair_value(bytes@.subrange(start as int, end as int), name@) {
            Some(v) => range matches Some((a, b)) && start <= a <= b <= end && bytes@.subrange(
                a as int,
                b as int,
            ) == v,
            None => range is None,
        },
{
    let segment = &bytes[start..end];
    let ghost seg = segment@;
    let eq = vec![61u8];
    assert(eq@ =~= pair_separator());
    proof {
        lemma_find(seg, pair_separator());
    }
    match find_from(segment, 0, eq.as_slice()) {
        None => {
            assert(seg.skip(0) =~= seg);
            assert(split(seg, pair_separator()) == seq![seg]);
            None
        },
        Some(e) => {
            assert(seg.skip(0) =~= seg);
            let ghost rest = seg.skip(e + 1);
            assert(split(seg, pair_separator()) == seq![seg.take(e as int)] + split(rest, pair_separator()));
            let key = &segment[0..e];
            assert(key@ =~= seg.take(e as int));
            if !same_bytes(key, name) {
                proof {
                    let parts = split(seg, pair_separator());
                    assert(parts[0] == seg.take(e as int));
                }
                return None;
            }
            proof {
                lemma_find(rest, pair_separator());
            }
            let value_end = match find_from(segment, e + 1, eq.as_slice()) {
                Some(f) => {
                    assert(split(rest, pair_separator()) == seq![rest.take(f - (e + 1))] + split(
                        rest.skip(f - (e + 1) + 1),
                        pair_separator(),
                    ));
                    assert(rest.take(f - (e + 1)) =~= seg.subrange(e + 1, f as int));
                    f
                },
                None => {
                    assert(split(rest, pair_separator()) == seq![rest]);
                    assert(rest =~= seg.subrange(e + 1, seg.len() as int));
                    segment.len()
                },
            };
            proof {
                let parts = split(seg, pair_separator());
                assert(parts[0] == seg.take(e as int));
                assert(parts[1] == split(rest, pair_separator())[0]);
                assert(parts[1] =~= seg.subrange(e + 1, value_end as int));
                assert(bytes@.subrange(start + e + 1, start + value_end) =~= seg.subrange(
                    e + 1,
                    value_end as int,
                ));
            }
            Some((start + e + 1, start + value_end))
        },
    }
}

/// A session cookie that the browser sends back is found again: the `cookie`
/// header `name=<uuid text>` holds the session's UUID text under `name`, and
/// is visible ASCII, for every name that is visible ASCII without `=` and without `"; "`.
pub proof fn lemma_session_cookie_found(name: Seq<u8>, id: u128)
    requires
        plain_cookie_name(name),
    ensures
        header_is_text(returned_cookie(name, id)),
        find_cookie(split(returned_cookie(name, id), cookie_separator()), name) == Some(
            uuid_ascii(id),
        ),
        pair_value(returned_cookie(name, id), name) == Some(uuid_ascii(id)),
        find(returned_cookie(name, id), cookie_separator()) is None,
{
    let h = returned_cookie(name, id);
    let u = uuid_ascii(id);
    lemma_returned_cookie_is_text(name, id);
    assert forall|i: int| 0 <= i < u.len() implies #[trigger] u[i] != 61u8 && u[i] != 59u8 by {
        lemma_uuid_ascii_bytes(id, i);
    }
    let sep = cookie_separator();
    let n = name.len() as int;
    lemma_find(name, sep);
    assert forall|j: int| !occurs_at(h, sep, j) by {
        if occurs_at(h, sep, j) {
            if j + 2 <= n {
                assert(h.subrange(j, j + 2) =~= name.subrange(j, j + 2));
                assert(occurs_at(name, sep, j));
            } else if j + 1 == n {
                assert(h.subrange(j, j + 2)[1] == h[n]);
                assert(h[n] == 61u8);
            } else {
                assert(h.subrange(j, j + 2)[0] == h[j]);
                assert(h[j] == u[j - n - 1]);
            }
        }
    }
    lemma_find(h, sep);
    assert(split(h, cookie_separator()) == seq![h]);
    assert(seq![h].drop_first() =~= Seq::<Seq<u8>>::empty());
    assert(find_cookie(Seq::<Seq<u8>>::empty(), name) is None);
    assert(find_cookie(seq![h], name) == pair_value(h, name));
    let n = name.len() as int;
    assert(occurs_at(h, pair_separator(), n)) by {
        assert(h.subrange(n, n + 1) =~= pair_separator());
    }
    assert forall|j: int| 0 <= j < n implies !occurs_at(h, pair_separator(), j) by {
        assert(h.subrange(j, j + 1)[0] == h[j]);
        assert(h[j] == name[j]);
    }
    crate::bytes::lemma_find_unique(h, pair_separator(), n);
    assert(h.skip(n + 1) =~= u);
    assert(h.take(n) =~= name);
    lemma_find(u, pair_separator());
    if let Some(k) = find(u, pair_separator()) {
        assert(u.subrange(k, k + 1)[0] == u[k]);
    }
    assert(split(u, pair_separator()) == seq![u]);
    let parts = split(h, pair_separator());
    assert(parts == seq![name] + seq![u]);
    assert(parts.len() == 2);
    assert(parts[0] == name);
    assert(parts[1] == u);
}

/// What a session cookie sets is what the browser sends back and the server
/// finds again: for an ASCII cookie name without `=` and without `"; "`, the `Set-Cookie`
/// value is the returned `name=<uuid text>` pair followed by the attributes,
/// and the pair, read back under the same name, yields the session's UUID text.
pub proof fn lemma_session_cookie_round_trip(name: Seq<char>, id: u128, path: Seq<char>)
    requires
        is_ascii_chars(name),
        plain_cookie_name(encode_utf8(name)),
    ensures
        session_cookie(name, id, path) == ascii_chars(returned_cookie(encode_utf8(name), id))
            + cookie_attributes() + path,
        find_cookie(split(returned_cookie(encode_utf8(name), id), cookie_separator()), encode_utf8(name))
            == Some(uuid_ascii(id)),
{
    let bytes = encode_utf8(name);
    is_ascii_chars_encode_utf8(name);
    assert(ascii_chars(bytes) =~= name) by {
        assert forall|i: int| 0 <= i < name.len() implies ascii_chars(bytes)[i] == name[i] by {
            assert(name[i] as u8 == bytes[i]);
            assert('\0' <= name[i] <= '\u{7f}');
        }
    }
    reveal_strlit("=");
    assert(ascii_chars(returned_cookie(bytes, id)) =~= ascii_chars(bytes) + "="@ + ascii_chars(
        uuid_ascii(id),
    ));
    lemma_session_cookie_found(bytes, id);
}

/// A `cookie` header made of the given `name=value` pairs, separated by `"; "`.
pub open spec fn cookie_list(pairs: Seq<Seq<u8>>) -> Seq<u8>
    decreases pairs.len(),
{
    if pairs.len() == 0 {
        seq![]
    } else if pairs.len() == 1 {
        pairs[0]
    } else {
        pairs[0] + cookie_separator() + cookie_list(pairs.drop_first())
    }
}

/// Whether `pair` can stand in a `cookie` header without being cut: visible
/// ASCII, with no `"; "` in it.
pub open spec fn whole_pair(pair: Seq<u8>) -> bool {
    header_is_text(pair) && find(pair, cookie_separator()) is None
}

/// The pairs of a `cookie` header are split apart again where they were joined.
proof fn lemma_split_cookie_list(pairs: Seq<Seq<u8>>)
    requires
        pairs.len() >= 1,
        forall|i: int| 0 <= i < pairs.len() ==> whole_pair(#[trigger] pairs[i]),
    ensures
        split(cookie_list(pairs), cookie_separator()) == pairs,
        header_is_text(cookie_list(pairs)),
    decreases pairs.len(),
{
    let sep = cookie_separator();
    let p = pairs[0];
    assert(whole_pair(p));
    if pairs.len() == 1 {
        assert(split(p, sep) == seq![p]);
        assert(seq![p] =~= pairs);
    } else {
        let rest = pairs.drop_first();
        assert forall|i: int| 0 <= i < rest.len() implies whole_pair(#[trigger] rest[i]) by {
            assert(rest[i] == pairs[i + 1]);
        }
        lemma_split_cookie_list(rest);
        let h = cookie_list(pairs);
        let n = p.len() as int;
        assert(h == p + sep + cookie_list(rest));
        assert(occurs_at(h, sep, n)) by {
            assert(h.subrange(n, n + 2) =~= sep);
        }
        lemma_find(p, sep);
        assert forall|j: int| 0 <= j < n implies !occurs_at(h, sep, j) by {
            if j + 2 <= n {
                assert(h.subrange(j, j + 2) =~= p.subrange(j, j + 2));
                assert(!occurs_at(p, sep, j));
            } else {
                assert(h[n] == 59u8);
                assert(h.subrange(j, j + 2)[1] == h[n]);
                assert(sep[1] == 32u8);
            }
        }
        crate::bytes::lemma_find_unique(h, sep, n);
        assert(h.take(n) =~= p);
        assert(h.skip(n + 2) =~= cookie_list(rest));
        assert(split(h, sep) == seq![p] + split(cookie_list(rest), sep));
        assert(seq![p] + rest =~= pairs);
        assert forall|i: int| 0 <= i < h.len() implies is_visible_ascii(#[trigger] h[i]) by {
            if i < n {
                assert(h[i] == p[i]);
            } else if i >= n + 2 {
                assert(h[i] == cookie_list(rest)[i - n - 2]);
            }
        }
    }
}

/// The first pair named `name` decides what is found under `name`.
proof fn lemma_find_cookie_after(before: Seq<Seq<u8>>, rest: Seq<Seq<u8>>, name: Seq<u8>)
    requires
        forall|i: int| 0 <= i < before.len() ==> pair_value(#[trigger] before[i], name) is None,
    ensures
        find_cookie(before + rest, name) == find_cookie(rest, name),
    decreases before.len(),
{
    if before.len() > 0 {
        let all = before + rest;
        assert(all[0] == before[0]);
        assert(pair_value(before[0], name) is None);
        let tail = before.drop_first();
        assert forall|i: int| 0 <= i < tail.len() implies pair_value(#[trigger] tail[i], name) is None by {
            assert(tail[i] == before[i + 1]);
        }
        lemma_find_cookie_after(tail, rest, name);
        assert(all.drop_first() =~= tail + rest);
    } else {
        assert(before + rest =~= rest);
    }
}

/// A session cookie is found among the other cookies that a browser sends: in
/// a `cookie` header of `"; "`-separated pairs, each visible ASCII without
/// `"; "` in it, where the first pair named `name` is the one that the session
/// cookie set, the value found under `name` is the session's UUID text.
pub proof fn lemma_session_cookie_among(
    before: Seq<Seq<u8>>,
    after: Seq<Seq<u8>>,
    name: Seq<u8>,
    id: u128,
)
    requires
        plain_cookie_name(name),
        forall|i: int|
            0 <= i < before.len() ==> whole_pair(#[trigger] before[i]) && pair_value(
                before[i],
                name,
            ) is None,
        forall|i: int| 0 <= i < after.len() ==> whole_pair(#[trigger] after[i]),
    ensures
        header_is_text(cookie_list(before + seq![returned_cookie(name, id)] + after)),
        find_cookie(
            split(cookie_list(before + seq![returned_cookie(name, id)] + after), cookie_separator()),
            name,
        ) == Some(uuid_ascii(id)),
{
    let pair = returned_cookie(name, id);
    lemma_session_cookie_found(name, id);
    let pairs = before + seq![pair] + after;
    assert forall|i: int| 0 <= i < pairs.len() implies whole_pair(#[trigger] pairs[i]) by {
        if i < before.len() {
            assert(pairs[i] == before[i]);
        } else if i == before.len() {
            assert(pairs[i] == pair);
        } else {
            assert(pairs[i] == after[i - before.len() - 1]);
        }
    }
    lemma_split_cookie_list(pairs);
    assert(pairs =~= before + (seq![pair] + after));
    lemma_find_cookie_after(before, seq![pair] + after, name);
    assert((seq![pair] + after)[0] == pair);
}

impl SessionId {
    /// The session that the `cookie` header of a request names under
    /// `cookie_name`: none when there is no such header or no such cookie, an
    /// error when the header is not text or the cookie holds no UUID. When the
    /// first cookie under `cookie_name` holds the text of a session's UUID, as
    /// the cookie that [`Session::cookie`] sets does, that session is found
    /// (see `lemma_session_cookie_among`).
    pub fn from_request(cookie_header: Option<&[u8]>, cookie_name: &str) -> (found: Result<
        Option<SessionId>,
        SessionError,
    >)
        ensures
            found == session_from_header(header_view(cookie_header), cookie_name.spec_bytes()),
            forall|id: u128|
                #![trigger uuid_ascii(id)]
                cookie_header matches Some(h) && header_is_text(h@) && find_cookie(
                    split(h@, cookie_separator()),
                    cookie_name.spec_bytes(),
                ) == Some(uuid_ascii(id)) ==> found == Ok::<Option<SessionId>, SessionError>(
                    Some(SessionId(id)),
                ),
    {
        let header = match cookie_header {
            None => {
                return Ok(None);
            },
            Some(h) => h,
        };
        let ghost h = header@;
        let n = header.len();
        let mut i: usize = 0;
        while i < n
            invariant
                h == header@,
                n == h.len(),
                header_view(cookie_header) == Some(h),
                i <= h.len(),
                forall|j: int| 0 <= j < i ==> is_visible_ascii(#[trigger] h[j]),
            decreases h.len() - i,
        {
            let b = header[i];
            if !((32 <= b && b < 127) || b == 9) {
                assert(!is_visible_ascii(h[i as int]));
                assert(!header_is_text(h));
                return Err(SessionError::HeaderNotText);
            }
            i = i + 1;
        }
        let name = cookie_name.as_bytes();
        let separator = vec![59u8, 32u8];
        assert(separator@ =~= cookie_separator());
        let ghost target = find_cookie(split(h, cookie_separator()), name@);
        let mut start: usize = 0;
        assert(h.skip(0) =~= h);
        loop
            invariant
                h == header@,
                n == h.len(),
                header_view(cookie_header) == Some(h),
                name@ == cookie_name.spec_bytes(),
                header_is_text(h),
                start <= h.len(),
                separator@ == cookie_separator(),
                target == find_cookie(split(h, cookie_separator()), name@),
                target == find_cookie(split(h.skip(start as int), cookie_separator()), name@),
            decreases h.len() - start,
        {
            let ghost rest = h.skip(start as int);
            proof {
                lemma_find(rest, cookie_separator());
            }
            let found = find_from(header, start, separator.as_slice());
            assert(found matches Some(k) ==> k + 2 <= h.len() && occurs_at(rest, cookie_separator(), k - start) && find(rest, cookie_separator()) == Some(k - start)) by {
                match find(rest, cookie_separator()) {
                    Some(k) => {
                        assert(occurs_at(rest, cookie_separator(), k));
                    },
                    None => {},
                }
            }
            assert(found is None ==> find(rest, cookie_separator()) is None);
            let (end, next) = match found {
                Some(k) => (k, Some(k + 2)),
                None => (n, None),
            };
            let ghost pieces = split(rest, cookie_separator());
            assert(pieces.len() > 0 && pieces[0] == h.subrange(start as int, end as int)) by {
                assert(h.subrange(start as int, end as int) =~= rest.take(end - start));
                if next is None {
                    assert(rest.take(end - start) =~= rest);
                }
            }
            assert(next matches Some(k) ==> pieces.drop_first() == split(h.skip(k as int), cookie_separator()) && k <= h.len()) by {
                if let Some(k) = next {
                    assert(rest.skip(end - start + 2) =~= h.skip(k as int));
                    assert(pieces.drop_first() =~= split(h.skip(k as int), cookie_separator()));
                }
            }
            assert(next is None ==> pieces.drop_first() =~= Seq::<Seq<u8>>::empty());
            assert(target == match pair_value(pieces[0], name@) {
                Some(v) => Some(v),
                None => find_cookie(pieces.drop_first(), name@),
            });
            match segment_value(header, start, end, name) {
                Some((a, b)) => {
                    let value = &header[a..b];
                    assert(target == Some(value@));
                    return match parse_uuid(value) {
                        Some(id) => Ok(Some(SessionId(id))),
                        None => Err(SessionError::InvalidSessionId),
                    };
                },
                None => {},
            }
            match next {
                Some(next_start) => {
                    start = next_start;
                },
                None => {
                    assert(find_cookie(Seq::<Seq<u8>>::empty(), name@) is None);
                    return Ok(None);
                },
            }
        }
    }

    /// The identifier as text: the hyphenated lower-case form of its UUID.
    pub fn text(&self) -> (t: String)
        ensures
            t@ == ascii_chars(uuid_ascii(self.0)),
    {
        uuid_text(self.0)
    }
}

/// Where the server keeps sessions between the two halves of a ceremony.
pub trait SessionStore {
    /// Whether the store may be asked to remove the session under `id`: it
    /// may once a look-up found that session (a store may allow it always).
    open spec fn found(id: SessionId) -> bool {
        true
    }

    /// The session kept under `id`, if there is one.
    fn get(id: &SessionId) -> (found: Result<Option<Session>, SessionError>)
        ensures
            found matches Ok(Some(session)) ==> session.id == *id && Self::found(*id),
    ;

    /// Keeps `session`, in place of any session kept under its identifier.
    fn set(session: &Session) -> Result<(), SessionError>;

    /// Forgets the session kept under `id`, which a look-up found.
    fn remove(id: &SessionId) -> Result<(), SessionError>
        requires
            Self::found(*id),
    ;
}

/// What retrieving a session gives, from what the store answered: `got`, the
/// answer to the look-up, and `removed`, the answer to the removal that follows
/// a look-up that found a session.
pub open spec fn retrieval(
    got: Result<Option<Session>, SessionError>,
    removed: Result<(), SessionError>,
) -> Result<Option<Session>, SessionError> {
    match got {
        Err(e) => Err(e),
        Ok(None) => Ok(None),
        Ok(Some(session)) => match removed {
            Err(e) => Err(e),
            Ok(()) => Ok(Some(session)),
        },
    }
}

/// Settles a retrieval from the store's answers, as [`retrieval`] says.
pub fn settle(got: Result<Option<Session>, SessionError>, removed: Result<(), SessionError>) -> (found:
    Result<Option<Session>, SessionError>)
    ensures
        found == retrieval(got, removed),
{
    match got {
        Err(e) => Err(e),
        Ok(None) => Ok(None),
        Ok(Some(session)) => match removed {
            Err(e) => Err(e),
            Ok(()) => Ok(Some(session)),
        },
    }
}

impl Session {
    /// The session that the request's `cookie` header names under
    /// `cookie_name`, taken out of the store `S`: once retrieved, a session is
    /// removed, so that it serves one ceremony only.
    ///
    /// Where the header names a session, the result is what [`retrieval`] makes
    /// of the store's answers for that identifier; the store is asked to remove
    /// the session only when its look-up found one, as [`SessionStore::remove`]
    /// requires, so the look-up always comes first.
    pub fn retrieve<S: SessionStore>(cookie_header: Option<&[u8]>, cookie_name: &str) -> (found:
        Result<Option<Session>, SessionError>)
        ensures
            session_from_header(header_view(cookie_header), cookie_name.spec_bytes()) matches Err(
                e,
            ) ==> found == Err::<Option<Session>, SessionError>(e),
            session_from_header(header_view(cookie_header), cookie_name.spec_bytes()) == Ok::<
                Option<SessionId>,
                SessionError,
            >(None) ==> found == Ok::<Option<Session>, SessionError>(None),
            session_from_header(header_view(cookie_header), cookie_name.spec_bytes()) matches Ok(
                Some(id),
            ) ==> exists|
                got: Result<Option<Session>, SessionError>,
                removed: Result<(), SessionError>,
            |
                #![trigger retrieval(got, removed)]
                found == retrieval(got, removed) && (got matches Ok(Some(session))
                    ==> session.id == id),
            found matches Ok(Some(session)) ==> S::found(session.id),
    {
        let id = match SessionId::from_request(cookie_header, cookie_name) {
            Err(e) => {
                return Err(e);
            },
            Ok(None) => {
                return Ok(None);
            },
            Ok(Some(id)) => id,
        };
        let got = S::get(&id);
        let removed = match &got {
            Ok(Some(_)) => S::remove(&id),
            _ => Ok(()),
        };
        let ghost (g, r) = (got, removed);
        let found = settle(got, removed);
        assert(found == retrieval(g, r));
        found
    }

    /// A new session with a fresh random identifier and no data.
    pub fn new() -> (session: Session)
        ensures
            is_random_uuid(session.id.0),
            session.data@ == Seq::<u8>::empty(),
    {
        let session = Session { id: SessionId(random_uuid()), data: Vec::new() };
        session
    }

    /// The `Set-Cookie` value that hands this session's identifier to the
    /// browser under `name`, for requests to `path`.
    pub fn cookie(&self, name: &str, path: &str) -> (text: String)
        ensures
            text@ == session_cookie(name@, self.id.0, path@),
    {
        let value = self.id.text();
        cookie_text(name, value.as_str(), path)
    }
}

} // verus!
