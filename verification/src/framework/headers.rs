//! Request headers as plain data, and the `http` header map that holds the
//! headers a client sends by default.

use vstd::prelude::*;
use vstd::utf8::encode_utf8;

verus! {

/// `http::HeaderMap`, the multimap of header names and values. Of what a
/// map holds, the library knows what [`header_entries`] says.
#[verifier::external_type_specification]
#[verifier::external_body]
#[verifier::reject_recursive_types(T)]
pub struct ExHeaderMap<T>(::http::HeaderMap<T>);

/// `http::HeaderValue`, the value of a header in an `http::HeaderMap`.
#[verifier::external_type_specification]
#[verifier::external_body]
pub struct ExHeaderValue(::http::HeaderValue);

/// The name and the bytes of the value of each entry that `http::HeaderMap::iter`
/// yields for `map`, in the order in which it yields them.
pub uninterp spec fn header_entries(map: ::http::HeaderMap<::http::HeaderValue>) -> Seq<
    (Seq<char>, Seq<u8>),
>;

/// Calls `http::HeaderMap::default`: the new map holds no entry.
#[verifier::external_body]
pub(crate) fn empty_header_map() -> (map: ::http::HeaderMap<::http::HeaderValue>)
    ensures
        header_entries(map) == Seq::<(Seq<char>, Seq<u8>)>::empty(),
{
    ::http::HeaderMap::default()
}

/// Walks `map` with `http::HeaderMap::iter` and copies each entry: the name
/// as `HeaderName::as_str` gives it, the value as `HeaderValue::as_bytes` does.
#[verifier::external_body]
pub(crate) fn header_list(map: &::http::HeaderMap<::http::HeaderValue>) -> (headers: Vec<Header>)
    ensures
        headers.deep_view() == header_entries(*map),
{
    map.iter().map(
        |(name, value)| Header { name: name.as_str().to_owned(), value: value.as_bytes().to_vec() },
    ).collect()
}

/// One header of a request: a name and the bytes of a value. A header has
/// no printed form, since its value may be a secret.
#[derive(PartialEq, Eq)]
pub struct Header {
    pub name: String,
    pub value: Vec<u8>,
}

impl View for Header {
    type V = (Seq<char>, Seq<u8>);

    open spec fn view(&self) -> (Seq<char>, Seq<u8>) {
        (self.name@, self.value@)
    }
}

impl DeepView for Header {
    type V = (Seq<char>, Seq<u8>);

    open spec fn deep_view(&self) -> (Seq<char>, Seq<u8>) {
        self@
    }
}

impl Clone for Header {
    fn clone(&self) -> (copy: Header)
        ensures
            copy@ == self@,
    {
        Header { name: self.name.clone(), value: self.value.clone() }
    }
}

/// The code of a character, with the capital letters of ASCII moved onto the small ones.
pub open spec fn folded(c: char) -> int {
    if 'A' <= c <= 'Z' {
        c as int + 32
    } else {
        c as int
    }
}

/// Whether two header names are the same name: equal but for the case of ASCII letters.
pub open spec fn same_name(a: Seq<char>, b: Seq<char>) -> bool {
    &&& a.len() == b.len()
    &&& forall|i: int| 0 <= i < a.len() ==> folded(#[trigger] a[i]) == folded(b[i])
}

/// Whether one of `headers` goes by `name`.
pub open spec fn has_name(headers: Seq<(Seq<char>, Seq<u8>)>, name: Seq<char>) -> bool {
    exists|i: int| 0 <= i < headers.len() && same_name((#[trigger] headers[i]).0, name)
}

/// The headers of `headers` that do not go by `name`, in their order.
pub open spec fn without_name(headers: Seq<(Seq<char>, Seq<u8>)>, name: Seq<char>) -> Seq<
    (Seq<char>, Seq<u8>),
>
    decreases headers.len(),
{
    if headers.len() == 0 {
        Seq::empty()
    } else if same_name(headers.last().0, name) {
        without_name(headers.drop_last(), name)
    } else {
        without_name(headers.drop_last(), name).push(headers.last())
    }
}

/// The headers of `defaults` whose name none of `own` goes by, in their order.
pub open spec fn missing_from(
    own: Seq<(Seq<char>, Seq<u8>)>,
    defaults: Seq<(Seq<char>, Seq<u8>)>,
) -> Seq<(Seq<char>, Seq<u8>)>
    decreases defaults.len(),
{
    if defaults.len() == 0 {
        Seq::empty()
    } else if has_name(own, defaults.last().0) {
        missing_from(own, defaults.drop_last())
    } else {
        missing_from(own, defaults.drop_last()).push(defaults.last())
    }
}

/// The headers of a request after the defaults of its client have been
/// merged in: its own headers, then each default that none of its own
/// headers overrides.
pub open spec fn merged(own: Seq<(Seq<char>, Seq<u8>)>, defaults: Seq<(Seq<char>, Seq<u8>)>) -> Seq<
    (Seq<char>, Seq<u8>),
> {
    own + missing_from(own, defaults)
}

/// `headers` with the header `name: value` set: no other header goes by
/// `name`, and the new one comes last.
pub open spec fn with_header(
    headers: Seq<(Seq<char>, Seq<u8>)>,
    name: Seq<char>,
    value: Seq<u8>,
) -> Seq<(Seq<char>, Seq<u8>)> {
    without_name(headers, name).push((name, value))
}

fn fold(c: char) -> (code: u32)
    ensures
        code == folded(c),
{
    let code: u32 = c as u32;
    if 65 <= code && code <= 90 {
        code + 32
    } else {
        code
    }
}

/// Tells whether `a` and `b` are the same header name.
pub fn names_match(a: &str, b: &str) -> (same: bool)
    ensures
        same == same_name(a@, b@),
{
    let len: usize = a.unicode_len();
    if len != b.unicode_len() {
        return false;
    }
    let mut i: usize = 0;
    while i < len
        invariant
            i <= len,
            len == a@.len(),
            len == b@.len(),
            forall|k: int| 0 <= k < i ==> folded(#[trigger] a@[k]) == folded(b@[k]),
        decreases len - i,
    {
        if fold(a.get_char(i)) != fold(b.get_char(i)) {
            return false;
        }
        i += 1;
    }
    true
}

/// Tells whether one of `headers` goes by `name`.
pub fn contains_name(headers: &Vec<Header>, name: &str) -> (found: bool)
    ensures
        found == has_name(headers.deep_view(), name@),
{
    let mut i: usize = 0;
    while i < headers.len()
        invariant
            i <= headers.len(),
            forall|k: int| 0 <= k < i ==> !same_name((#[trigger] headers.deep_view()[k]).0, name@),
        decreases headers.len() - i,
    {
        if names_match(headers[i].name.as_str(), name) {
            assert(headers.deep_view()[i as int].0 == headers[i as int].name@);
            return true;
        }
        assert(headers.deep_view()[i as int].0 == headers[i as int].name@);
        i += 1;
    }
    false
}

impl Header {
    /// A header whose value is the UTF-8 form of `value`.
    pub fn text(name: &str, value: &str) -> (header: Header)
        ensures
            header@ == (name@, encode_utf8(value@)),
    {
        Header { name: String::from_str(name), value: value.as_bytes_vec() }
    }
}

/// Removes the headers that go by `name` and keeps the others in their order.
pub fn remove_name(headers: Vec<Header>, name: &str) -> (kept: Vec<Header>)
    ensures
        kept.deep_view() == without_name(headers.deep_view(), name@),
{
    let mut kept: Vec<Header> = Vec::new();
    let mut i: usize = 0;
    while i < headers.len()
        invariant
            i <= headers.len(),
            kept.deep_view() == without_name(headers.deep_view().take(i as int), name@),
        decreases headers.len() - i,
    {
        let ghost before = headers.deep_view().take(i as int);
        let ghost after = headers.deep_view().take(i + 1);
        assert(after.drop_last() == before);
        assert(after.last() == headers[i as int]@);
        if !names_match(headers[i].name.as_str(), name) {
            let ghost old_kept = kept.deep_view();
            kept.push(headers[i].clone());
            assert(kept.deep_view() == old_kept.push(headers[i as int]@));
        }
        i += 1;
    }
    assert(headers.deep_view().take(headers.len() as int) == headers.deep_view());
    kept
}

/// Sets the header `name: value`: every header that went by `name` is
/// removed, and the new one comes last.
pub fn set_header(headers: Vec<Header>, name: &str, value: &str) -> (set: Vec<Header>)
    ensures
        set.deep_view() == with_header(headers.deep_view(), name@, encode_utf8(value@)),
{
    let mut kept = remove_name(headers, name);
    let ghost before = kept.deep_view();
    kept.push(Header::text(name, value));
    assert(kept.deep_view() == before.push((name@, encode_utf8(value@))));
    kept
}

/// Merges the default headers of a client into the headers of a request:
/// a default is added unless the request has a header of its name.
pub fn merge_defaults(own: Vec<Header>, defaults: &Vec<Header>) -> (all: Vec<Header>)
    ensures
        all.deep_view() == merged(own.deep_view(), defaults.deep_view()),
{
    let ghost first = own.deep_view();
    let mut added: Vec<Header> = Vec::new();
    let mut i: usize = 0;
    while i < defaults.len()
        invariant
            i <= defaults.len(),
            own.deep_view() == first,
            added.deep_view() == missing_from(first, defaults.deep_view().take(i as int)),
        decreases defaults.len() - i,
    {
        let ghost before = defaults.deep_view().take(i as int);
        let ghost after = defaults.deep_view().take(i + 1);
        assert(after.drop_last() == before);
        assert(after.last() == defaults[i as int]@);
        if !contains_name(&own, defaults[i].name.as_str()) {
            let ghost old_added = added.deep_view();
            added.push(defaults[i].clone());
            assert(added.deep_view() == old_added.push(defaults[i as int]@));
        }
        i += 1;
    }
    assert(defaults.deep_view().take(defaults.len() as int) == defaults.deep_view());
    let mut all = own;
    let mut k: usize = 0;
    while k < added.len()
        invariant
            k <= added.len(),
            all.deep_view() == first + added.deep_view().take(k as int),
        decreases added.len() - k,
    {
        let ghost old_all = all.deep_view();
        all.push(added[k].clone());
        assert(all.deep_view() == old_all.push(added[k as int]@));
        assert(added.deep_view().take(k + 1) == added.deep_view().take(k as int).push(
            added[k as int]@,
        ));
        k += 1;
    }
    assert(added.deep_view().take(added.len() as int) == added.deep_view());
    all
}

/// A header that has been set is the only one of its name, and the last of all.
pub proof fn lemma_set_header_is_sole(
    headers: Seq<(Seq<char>, Seq<u8>)>,
    name: Seq<char>,
    value: Seq<u8>,
)
    ensures
        with_header(headers, name, value).last() == (name, value),
        forall|i: int|
            0 <= i < with_header(headers, name, value).len() - 1 ==> !same_name(
                (#[trigger] with_header(headers, name, value)[i]).0,
                name,
            ),
{
    lemma_without_name_has_none(headers, name);
}

/// None of the headers that are left once a name was removed goes by that name.
pub proof fn lemma_without_name_has_none(headers: Seq<(Seq<char>, Seq<u8>)>, name: Seq<char>)
    ensures
        !has_name(without_name(headers, name), name),
    decreases headers.len(),
{
    if headers.len() > 0 {
        lemma_without_name_has_none(headers.drop_last(), name);
    }
}

/// Removing a name from a list that ends in `last` removes it from what
/// comes before `last`, and removes `last` where it goes by that name.
pub proof fn lemma_without_name_of_push(
    headers: Seq<(Seq<char>, Seq<u8>)>,
    last: (Seq<char>, Seq<u8>),
    name: Seq<char>,
)
    ensures
        without_name(headers.push(last), name) == if same_name(last.0, name) {
            without_name(headers, name)
        } else {
            without_name(headers, name).push(last)
        },
{
    assert(headers.push(last).drop_last() == headers);
}

/// Removing one name leaves a list without another name as it was in that
/// respect: no header of the other name appears.
pub proof fn lemma_without_name_keeps_absence(
    headers: Seq<(Seq<char>, Seq<u8>)>,
    removed: Seq<char>,
    absent: Seq<char>,
)
    requires
        !has_name(headers, absent),
    ensures
        !has_name(without_name(headers, removed), absent),
    decreases headers.len(),
{
    if headers.len() > 0 {
        assert forall|i: int| 0 <= i < headers.drop_last().len() implies !same_name(
            (#[trigger] headers.drop_last()[i]).0,
            absent,
        ) by {
            assert(headers.drop_last()[i] == headers[i]);
        }
        lemma_without_name_keeps_absence(headers.drop_last(), removed, absent);
        assert(!same_name(headers.last().0, absent)) by {
            assert(headers[headers.len() - 1] == headers.last());
        }
    }
}

/// Removing a name that no header goes by changes nothing.
pub proof fn lemma_without_absent_name(headers: Seq<(Seq<char>, Seq<u8>)>, name: Seq<char>)
    requires
        !has_name(headers, name),
    ensures
        without_name(headers, name) == headers,
    decreases headers.len(),
{
    if headers.len() > 0 {
        assert forall|i: int| 0 <= i < headers.drop_last().len() implies !same_name(
            (#[trigger] headers.drop_last()[i]).0,
            name,
        ) by {
            assert(headers.drop_last()[i] == headers[i]);
        }
        lemma_without_absent_name(headers.drop_last(), name);
        assert(!same_name(headers.last().0, name)) by {
            assert(headers[headers.len() - 1] == headers.last());
        }
        assert(headers.drop_last().push(headers.last()) == headers);
    } else {
        assert(headers == Seq::<(Seq<char>, Seq<u8>)>::empty());
    }
}

/// The headers of a request take precedence over the defaults: the merged
/// headers begin with the request's own, and no default that follows them
/// goes by the name of one of them.
pub proof fn lemma_own_headers_take_precedence(
    own: Seq<(Seq<char>, Seq<u8>)>,
    defaults: Seq<(Seq<char>, Seq<u8>)>,
)
    ensures
        merged(own, defaults).take(own.len() as int) == own,
        forall|i: int|
            own.len() <= i < merged(own, defaults).len() ==> !has_name(
                own,
                (#[trigger] merged(own, defaults)[i]).0,
            ),
{
    lemma_missing_are_not_own(own, defaults);
    assert(merged(own, defaults).take(own.len() as int) =~= own);
}

/// No default that is added to the headers of a request goes by the name
/// of one of them.
pub proof fn lemma_missing_are_not_own(
    own: Seq<(Seq<char>, Seq<u8>)>,
    defaults: Seq<(Seq<char>, Seq<u8>)>,
)
    ensures
        forall|i: int|
            0 <= i < missing_from(own, defaults).len() ==> !has_name(
                own,
                (#[trigger] missing_from(own, defaults)[i]).0,
            ),
    decreases defaults.len(),
{
    if defaults.len() > 0 {
        lemma_missing_are_not_own(own, defaults.drop_last());
        let earlier = missing_from(own, defaults.drop_last());
        let all = missing_from(own, defaults);
        assert forall|i: int| 0 <= i < all.len() implies !has_name(own, (#[trigger] all[i]).0) by {
            if i < earlier.len() {
                assert(all[i] == earlier[i]);
            }
        }
    }
}

} // verus!
