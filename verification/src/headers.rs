//! Header maps as the gateway sees them: each name with its values in order,
//! names in lower case, values as bytes. The maps themselves are `http`'s; what
//! this module says of them is stated over `header_entries`.

use vstd::prelude::*;
use vstd::utf8::encode_utf8;
use crate::text::text_eq;
use axum::http::HeaderMap;
use axum::http::HeaderName;
use axum::http::HeaderValue;
use axum::http::StatusCode;

verus! {

/// `http::HeaderMap`, taken as it is: nothing is known of a map but what
/// the functions below say of it.
#[verifier::external_type_specification]
#[verifier::external_body]
#[verifier::reject_recursive_types(T)]
pub struct ExHeaderMap<T>(HeaderMap<T>);

/// `http::HeaderName`, taken as it is.
#[verifier::external_type_specification]
#[verifier::external_body]
pub struct ExHeaderName(HeaderName);

/// `http::HeaderValue`, taken as it is.
#[verifier::external_type_specification]
#[verifier::external_body]
pub struct ExHeaderValue(HeaderValue);

/// What a header map holds: for each name, its values from first to last.
pub uninterp spec fn header_entries(m: HeaderMap) -> Map<Seq<char>, Seq<Seq<u8>>>;

/// How many names a header map holds.
pub uninterp spec fn header_count(m: HeaderMap) -> nat;

/// A header name as text.
pub uninterp spec fn header_name_text(n: HeaderName) -> Seq<char>;

/// The bytes of a header value.
pub uninterp spec fn header_value_bytes(v: HeaderValue) -> Seq<u8>;

/// The entries of a map that holds nothing.
pub open spec fn no_entries() -> Map<Seq<char>, Seq<Seq<u8>>> {
    Map::empty()
}

/// A header map takes a new name without fail while it holds fewer names
/// than this. The functions that add headers ask for that much room.
pub const MAX_HEADER_NAMES: usize = 4096;

/// A character of a header name in its stored form: a token character that
/// is no upper-case letter.
pub open spec fn is_name_char(c: char) -> bool {
    ||| 'a' <= c <= 'z'
    ||| '0' <= c <= '9'
    ||| c == '!'
    ||| c == '#'
    ||| c == '$'
    ||| c == '%'
    ||| c == '&'
    ||| c == '\''
    ||| c == '*'
    ||| c == '+'
    ||| c == '-'
    ||| c == '.'
    ||| c == '^'
    ||| c == '_'
    ||| c == '`'
    ||| c == '|'
    ||| c == '~'
}

/// A header name in its stored form: a token of lower case, of a length
/// that a header map takes.
pub open spec fn is_header_name(s: Seq<char>) -> bool {
    &&& 0 < s.len() <= 65535
    &&& forall|i: int| 0 <= i < s.len() ==> is_name_char(#[trigger] s[i])
}

/// A byte that a header value may hold: no control character but the tab.
pub open spec fn is_value_byte(b: u8) -> bool {
    (b >= 32 && b != 127) || b == 9
}

/// Bytes that may stand as a header value.
pub open spec fn is_header_value(bytes: Seq<u8>) -> bool {
    forall|i: int| 0 <= i < bytes.len() ==> is_value_byte(#[trigger] bytes[i])
}

/// A byte that reads as text: printable ASCII, the space or the tab.
pub open spec fn is_visible_byte(b: u8) -> bool {
    (32 <= b < 127) || b == 9
}

/// Bytes that read as text.
pub open spec fn is_visible(bytes: Seq<u8>) -> bool {
    forall|i: int| 0 <= i < bytes.len() ==> is_visible_byte(#[trigger] bytes[i])
}

/// ASCII bytes as characters.
pub open spec fn text_of(bytes: Seq<u8>) -> Seq<char> {
    Seq::new(bytes.len(), |i: int| bytes[i] as char)
}

/// Text as the bytes that go on the wire.
pub open spec fn bytes_of(text: Seq<char>) -> Seq<u8> {
    encode_utf8(text)
}

/// `HeaderName::from_static`: the name that a lower-case token spells. It
/// panics on anything else, which `requires` leaves out.
#[verifier::external_body]
fn name_of(text: &'static str) -> (n: HeaderName)
    requires
        is_header_name(text@),
    ensures
        header_name_text(n) == text@,
{
    HeaderName::from_static(text)
}

/// `HeaderName::as_str`: the name as stored.
#[verifier::external_body]
fn name_text(n: &HeaderName) -> (r: &str)
    ensures
        r@ == header_name_text(*n),
{
    n.as_str()
}

/// `HeaderValue::from_str`: a value with the bytes of `text`, granted when
/// each of them may stand in a header value.
#[verifier::external_body]
fn value_of(text: &str) -> (r: Option<HeaderValue>)
    ensures
        r is Some <==> is_header_value(bytes_of(text@)),
        r is Some ==> header_value_bytes(r->0) == bytes_of(text@),
{
    HeaderValue::from_str(text).ok()
}

/// `HeaderValue::to_str`: the value as text, granted when each byte is visible.
#[verifier::external_body]
fn value_text(v: &HeaderValue) -> (r: Option<&str>)
    ensures
        r is Some <==> is_visible(header_value_bytes(*v)),
        r is Some ==> r->0@ == text_of(header_value_bytes(*v)),
{
    v.to_str().ok()
}

/// `HeaderMap::new`: a map without entries.
#[verifier::external_body]
pub(crate) fn no_headers() -> (m: HeaderMap)
    ensures
        header_entries(m) == no_entries(),
        header_count(m) == 0,
{
    HeaderMap::new()
}

/// `HeaderMap::keys_len`: the number of names.
#[verifier::external_body]
fn names_len(m: &HeaderMap) -> (n: usize)
    ensures
        n == header_count(*m),
{
    m.keys_len()
}

/// `HeaderMap::contains_key`: whether the name has a value.
#[verifier::external_body]
fn has_name(m: &HeaderMap, name: &HeaderName) -> (r: bool)
    ensures
        r == header_entries(*m).contains_key(header_name_text(*name)),
{
    m.contains_key(name)
}

/// `HeaderMap::get`: the first value of the name.
#[verifier::external_body]
fn first_value<'a>(m: &'a HeaderMap, name: &HeaderName) -> (r: Option<&'a HeaderValue>)
    ensures
        r is Some <==> header_entries(*m).contains_key(header_name_text(*name)),
        r is Some ==> header_entries(*m)[header_name_text(*name)].len() > 0,
        r is Some ==> header_value_bytes(*r->0) == header_entries(*m)[header_name_text(*name)][0],
{
    m.get(name)
}

/// `HeaderMap::insert`: the name is left with this value alone, whatever
/// values it had. It panics only when a table of the largest size, 32768
/// slots, is asked to double, and no table is asked to before a fifth of
/// its slots are taken: with fewer than `MAX_HEADER_NAMES` names that
/// cannot be. `requires` leaves the fuller maps out.
#[verifier::external_body]
fn set_value(m: &mut HeaderMap, name: HeaderName, value: HeaderValue)
    requires
        header_count(*old(m)) < MAX_HEADER_NAMES,
    ensures
        header_entries(*final(m)) == header_entries(*old(m)).insert(
            header_name_text(name),
            seq![header_value_bytes(value)],
        ),
        header_count(*final(m)) == header_count(*old(m)) + (if header_entries(*old(m)).contains_key(
            header_name_text(name),
        ) {
            0nat
        } else {
            1nat
        }),
{
    m.insert(name, value);
}

/// `HeaderMap::remove`: the name is left without a value.
#[verifier::external_body]
fn remove_name(m: &mut HeaderMap, name: &HeaderName)
    ensures
        header_entries(*final(m)) == header_entries(*old(m)).remove(header_name_text(*name)),
        header_count(*final(m)) == header_count(*old(m)) - (if header_entries(*old(m)).contains_key(
            header_name_text(*name),
        ) {
            1nat
        } else {
            0nat
        }),
{
    m.remove(name);
}

/// `StatusCode::from_u16`: a status code is a number of three digits.
#[verifier::external_body]
fn status_code(code: u16) -> (r: Option<u16>)
    ensures
        r == (if 100 <= code <= 999 {
            Some(code)
        } else {
            None::<u16>
        }),
{
    StatusCode::from_u16(code).ok().map(|s| s.as_u16())
}

/// The names of the headers that belong to one connection and are never
/// passed on.
pub open spec fn hop_by_hop_names() -> Set<Seq<char>> {
    set![
        "connection"@,
        "keep-alive"@,
        "proxy-authenticate"@,
        "proxy-authorization"@,
        "te"@,
        "trailer"@,
        "transfer-encoding"@,
        "upgrade"@,
    ]
}

/// The hop-by-hop names in the order `hop_by_hop_set` lists them.
pub open spec fn hop_by_hop_list() -> Seq<Seq<char>> {
    seq![
        "connection"@,
        "keep-alive"@,
        "proxy-authenticate"@,
        "proxy-authorization"@,
        "te"@,
        "trailer"@,
        "transfer-encoding"@,
        "upgrade"@,
    ]
}

/// Each hop-by-hop name is a header name, and the list holds what the set holds.
pub proof fn lemma_hop_by_hop_are_names()
    ensures
        forall|i: int|
            0 <= i < hop_by_hop_list().len() ==> is_header_name(#[trigger] hop_by_hop_list()[i]),
        forall|n: Seq<char>| hop_by_hop_names().contains(n) <==> hop_by_hop_list().contains(n),
{
    reveal_strlit("connection");
    reveal_strlit("keep-alive");
    reveal_strlit("proxy-authenticate");
    reveal_strlit("proxy-authorization");
    reveal_strlit("te");
    reveal_strlit("trailer");
    reveal_strlit("transfer-encoding");
    reveal_strlit("upgrade");
    let l = hop_by_hop_list();
    assert(l[0] == "connection"@ && l[1] == "keep-alive"@ && l[2] == "proxy-authenticate"@ && l[3]
        == "proxy-authorization"@ && l[4] == "te"@ && l[5] == "trailer"@ && l[6]
        == "transfer-encoding"@ && l[7] == "upgrade"@);
}

/// The hop-by-hop header names, each once.
pub fn hop_by_hop_set() -> (r: Vec<&'static str>)
    ensures
        texts(r@) == hop_by_hop_list(),
{
    let r = vec![
        "connection",
        "keep-alive",
        "proxy-authenticate",
        "proxy-authorization",
        "te",
        "trailer",
        "transfer-encoding",
        "upgrade",
    ];
    proof {
        assert(texts(r@) =~= hop_by_hop_list());
    }
    r
}

/// Whether `name` is a hop-by-hop header.
pub fn is_hop_by_hop_header(name: &HeaderName) -> (r: bool)
    ensures
        r == hop_by_hop_names().contains(header_name_text(*name)),
{
    let text = name_text(name);
    text_eq(text, "connection") || text_eq(text, "keep-alive") || text_eq(
        text,
        "proxy-authenticate",
    ) || text_eq(text, "proxy-authorization") || text_eq(text, "te") || text_eq(text, "trailer")
        || text_eq(text, "transfer-encoding") || text_eq(text, "upgrade")
}

/// The texts of a list of names.
pub open spec fn texts(names: Seq<&'static str>) -> Seq<Seq<char>> {
    names.map_values(|s: &'static str| s@)
}

/// `m` without the headers that `names` lists.
pub(crate) fn without_headers(m: HeaderMap, names: &Vec<&'static str>) -> (out: HeaderMap)
    requires
        forall|k: int| 0 <= k < names@.len() ==> is_header_name(#[trigger] texts(names@)[k]),
    ensures
        header_entries(out) == header_entries(m).remove_keys(texts(names@).to_set()),
        header_count(out) <= header_count(m),
{
    let mut out = m;
    let ghost list = texts(names@);
    proof {
        assert(header_entries(out) =~= header_entries(m).remove_keys(list.take(0).to_set()));
    }
    let mut i: usize = 0;
    while i < names.len()
        invariant
            i <= names.len(),
            list == texts(names@),
            forall|k: int| 0 <= k < list.len() ==> is_header_name(#[trigger] list[k]),
            header_entries(out) == header_entries(m).remove_keys(list.take(i as int).to_set()),
            header_count(out) <= header_count(m),
        decreases names.len() - i,
    {
        assert(names@[i as int]@ == list[i as int]);
        let name = name_of(names[i]);
        remove_name(&mut out, &name);
        proof {
            let before = list.take(i as int);
            let after = list.take(i + 1);
            assert(after =~= before.push(list[i as int]));
            assert(after.to_set() =~= before.to_set().insert(list[i as int])) by {
                assert forall|n: Seq<char>| after.to_set().contains(n) <==> before.to_set().insert(
                    list[i as int],
                ).contains(n) by {
                    if after.contains(n) {
                        let j = choose|j: int| 0 <= j < after.len() && after[j] == n;
                        if j < before.len() {
                            assert(before[j] == n);
                        }
                    }
                    if before.contains(n) {
                        let j = choose|j: int| 0 <= j < before.len() && before[j] == n;
                        assert(after[j] == n);
                    }
                    if n == list[i as int] {
                        assert(after[i as int] == n);
                    }
                }
            }
            assert(header_entries(out) =~= header_entries(m).remove_keys(after.to_set()));
        }
        i = i + 1;
    }
    proof {
        assert(list.take(list.len() as int) =~= list);
    }
    out
}

/// `in_headers` without the hop-by-hop headers.
pub fn filter_hop_by_hop(in_headers: HeaderMap) -> (out: HeaderMap)
    ensures
        header_entries(out) == header_entries(in_headers).remove_keys(hop_by_hop_names()),
        header_count(out) <= header_count(in_headers),
{
    let names = hop_by_hop_set();
    proof {
        lemma_hop_by_hop_are_names();
        assert(hop_by_hop_list().to_set() =~= hop_by_hop_names());
    }
    without_headers(in_headers, &names)
}

/// The first value of `name` as text, where it has a value and that value is
/// visible.
pub open spec fn first_text(h: Map<Seq<char>, Seq<Seq<u8>>>, name: Seq<char>) -> Option<
    Seq<char>,
> {
    if h.contains_key(name) && is_visible(h[name][0]) {
        Some(text_of(h[name][0]))
    } else {
        None
    }
}

/// Visible bytes, read as text and written out again, are the same bytes,
/// and may stand in a header value.
pub proof fn lemma_visible_round_trip(bytes: Seq<u8>)
    requires
        is_visible(bytes),
    ensures
        bytes_of(text_of(bytes)) == bytes,
        is_header_value(bytes),
{
    let text = text_of(bytes);
    assert forall|i: int| 0 <= i < text.len() implies '\0' <= #[trigger] text[i] <= '\u{7f}' by {
        assert(is_visible_byte(bytes[i]));
    }
    vstd::utf8::is_ascii_chars_encode_utf8(text);
    assert forall|i: int| 0 <= i < bytes.len() implies encode_utf8(text)[i] == bytes[i] by {
        assert(is_visible_byte(bytes[i]));
        assert(text[i] as u8 == encode_utf8(text)[i]);
    }
    assert(encode_utf8(text) =~= bytes);
    assert forall|i: int| 0 <= i < bytes.len() implies is_value_byte(#[trigger] bytes[i]) by {
        assert(is_visible_byte(bytes[i]));
    }
}

/// A character that reads as text in a header: printable ASCII, the space
/// or the tab.
pub open spec fn is_visible_char(c: char) -> bool {
    (' ' <= c <= '~') || c == '\t'
}

/// Text that may stand in a header as it is.
pub open spec fn is_visible_text(text: Seq<char>) -> bool {
    forall|i: int| 0 <= i < text.len() ==> is_visible_char(#[trigger] text[i])
}

/// Visible text may stand in a header value, and is read back as it was
/// written.
pub proof fn lemma_visible_text_is_value(text: Seq<char>)
    requires
        is_visible_text(text),
    ensures
        is_header_value(bytes_of(text)),
        is_visible(bytes_of(text)),
        text_of(bytes_of(text)) == text,
{
    assert forall|i: int| 0 <= i < text.len() implies '\0' <= #[trigger] text[i] <= '\u{7f}' by {
        assert(is_visible_char(text[i]));
    }
    vstd::utf8::is_ascii_chars_encode_utf8(text);
    let bytes = bytes_of(text);
    assert forall|i: int| 0 <= i < bytes.len() implies is_value_byte(#[trigger] bytes[i])
        && is_visible_byte(bytes[i]) by {
        assert(is_visible_char(text[i]));
        assert(text[i] as u8 == bytes[i]);
    }
    assert forall|i: int| 0 <= i < text.len() implies text_of(bytes)[i] == text[i] by {
        assert(is_visible_char(text[i]));
        assert(text[i] as u8 == bytes[i]);
    }
    assert(text_of(bytes) =~= text);
}

/// Visible bytes read as visible text.
pub proof fn lemma_text_of_visible(bytes: Seq<u8>)
    requires
        is_visible(bytes),
    ensures
        is_visible_text(text_of(bytes)),
{
    assert forall|i: int| 0 <= i < text_of(bytes).len() implies is_visible_char(
        #[trigger] text_of(bytes)[i],
    ) by {
        assert(is_visible_byte(bytes[i]));
    }
}

/// Visible text joined to visible text is visible.
pub proof fn lemma_visible_text_joins(a: Seq<char>, b: Seq<char>)
    requires
        is_visible_text(a),
        is_visible_text(b),
    ensures
        is_visible_text(a + b),
{
    assert forall|i: int| 0 <= i < (a + b).len() implies is_visible_char(#[trigger] (a + b)[i]) by {
        if i < a.len() {
            assert((a + b)[i] == a[i]);
        } else {
            assert((a + b)[i] == b[i - a.len()]);
        }
    }
}

/// Whether `name` has a value in `m`.
pub(crate) fn has_header(m: &HeaderMap, name: &'static str) -> (r: bool)
    requires
        is_header_name(name@),
    ensures
        r == header_entries(*m).contains_key(name@),
{
    let n = name_of(name);
    has_name(m, &n)
}

/// The first value of `name` in `m`, where it reads as text.
pub(crate) fn header_text(m: &HeaderMap, name: &'static str) -> (r: Option<String>)
    requires
        is_header_name(name@),
    ensures
        match r {
            Some(text) => first_text(header_entries(*m), name@) == Some(text@),
            None => first_text(header_entries(*m), name@) is None,
        },
{
    let n = name_of(name);
    match first_value(m, &n) {
        Some(value) => match value_text(value) {
            Some(text) => Some(text.to_owned()),
            None => None,
        },
        None => None,
    }
}

/// Leaves `name` with `value` alone, where `value` may stand in a header;
/// tells whether it did.
pub(crate) fn set_header(m: &mut HeaderMap, name: &'static str, value: &str) -> (r: bool)
    requires
        is_header_name(name@),
        header_count(*old(m)) < MAX_HEADER_NAMES,
    ensures
        r == is_header_value(bytes_of(value@)),
        r ==> header_entries(*final(m)) == header_entries(*old(m)).insert(
            name@,
            seq![bytes_of(value@)],
        ),
        !r ==> header_entries(*final(m)) == header_entries(*old(m)),
        header_count(*final(m)) == header_count(*old(m)) + (if r && !header_entries(
            *old(m),
        ).contains_key(name@) {
            1nat
        } else {
            0nat
        }),
{
    match value_of(value) {
        Some(v) => {
            let n = name_of(name);
            set_value(m, n, v);
            true
        },
        None => false,
    }
}

/// `h`, with `value` under `name` where `name` had none and there is a value.
pub open spec fn set_if_absent(
    h: Map<Seq<char>, Seq<Seq<u8>>>,
    name: Seq<char>,
    value: Option<Seq<u8>>,
) -> Map<Seq<char>, Seq<Seq<u8>>> {
    if h.contains_key(name) || value is None {
        h
    } else {
        h.insert(name, seq![value->0])
    }
}

/// The header value that spells `text`, where one does.
pub open spec fn value_for(text: Seq<char>) -> Option<Seq<u8>> {
    if is_header_value(bytes_of(text)) {
        Some(bytes_of(text))
    } else {
        None
    }
}

/// Gives `name` the value `value` where it has none and `value` can stand in a header.
pub(crate) fn add_if_absent(m: &mut HeaderMap, name: &'static str, value: &str)
    requires
        is_header_name(name@),
        header_count(*old(m)) < MAX_HEADER_NAMES,
    ensures
        header_entries(*final(m)) == set_if_absent(
            header_entries(*old(m)),
            name@,
            value_for(value@),
        ),
        header_count(*final(m)) <= header_count(*old(m)) + 1,
{
    if !has_header(m, name) {
        set_header(m, name, value);
    }
}

/// Whether `m` can take `extra` more names.
pub fn has_room(m: &HeaderMap, extra: usize) -> (r: bool)
    ensures
        r == (header_count(*m) + extra <= MAX_HEADER_NAMES),
{
    let held = names_len(m);
    extra <= MAX_HEADER_NAMES && held <= MAX_HEADER_NAMES - extra
}

/// `code` where it is a status code, else 502.
pub fn status_or_bad_gateway(code: u16) -> (r: u16)
    ensures
        r == (if 100 <= code <= 999 {
            code
        } else {
            502u16
        }),
{
    match status_code(code) {
        Some(c) => c,
        None => 502,
    }
}

} // verus!
