//! The header policy: which headers of a request go upstream, and how the
//! credential is carried.

use vstd::prelude::*;

verus! {

/// A header: its name and the bytes of its value.
#[derive(Debug, Clone, PartialEq, Eq)]
pub struct Header {
    pub name: String,
    pub value: Vec<u8>,
}

impl View for Header {
    type V = (Seq<char>, Seq<u8>);

    open spec fn view(&self) -> (Seq<char>, Seq<u8>) {
        (self.name@, self.value@)
    }
}

/// The headers of a list, each as name and value.
pub open spec fn header_views(headers: Seq<Header>) -> Seq<(Seq<char>, Seq<u8>)> {
    headers.map_values(|h: Header| h@)
}

/// The lower-case form of an ASCII capital; any other character is itself.
pub open spec fn ascii_lower(c: char) -> char {
    if 'A' <= c && c <= 'Z' {
        ((c as u8 + 32) as u8) as char
    } else {
        c
    }
}

/// Two names are the same but for the case of ASCII letters.
pub open spec fn same_name(a: Seq<char>, b: Seq<char>) -> bool {
    a.map_values(|c: char| ascii_lower(c)) == b.map_values(|c: char| ascii_lower(c))
}

/// The name under which the credential goes upstream.
pub open spec fn credential_name() -> Seq<char> {
    "authorization"@
}

/// Whether a header of this name is forwarded verbatim.
pub open spec fn is_allowed(name: Seq<char>) -> bool {
    same_name(name, "x-api-key"@) || same_name(name, "anthropic-version"@) || same_name(
        name,
        "content-type"@,
    )
}

/// A byte that may stand in a header value that is read as text: printable
/// ASCII, a space or a tab.
pub open spec fn is_visible(b: u8) -> bool {
    (32 <= b && b < 127) || b == 9
}

/// Every byte of the value is visible.
pub open spec fn is_text(value: Seq<u8>) -> bool {
    forall|i: int| 0 <= i < value.len() ==> is_visible(#[trigger] value[i])
}

/// The value of the first header of the given name.
pub open spec fn first_named(headers: Seq<(Seq<char>, Seq<u8>)>, name: Seq<char>) -> Option<
    Seq<u8>,
>
    decreases headers.len(),
{
    if headers.len() == 0 {
        None
    } else if same_name(headers[0].0, name) {
        Some(headers[0].1)
    } else {
        first_named(headers.skip(1), name)
    }
}

/// The credential of a request: the value of its first `Authorization`
/// header, where that value is text.
pub open spec fn token_of(headers: Seq<(Seq<char>, Seq<u8>)>) -> Option<Seq<u8>> {
    match first_named(headers, credential_name()) {
        Some(value) => if is_text(value) {
            Some(value)
        } else {
            None
        },
        None => None,
    }
}

/// The allow-listed headers of a request, in their order.
pub open spec fn kept(headers: Seq<(Seq<char>, Seq<u8>)>) -> Seq<(Seq<char>, Seq<u8>)>
    decreases headers.len(),
{
    if headers.len() == 0 {
        Seq::empty()
    } else if is_allowed(headers.last().0) {
        kept(headers.drop_last()).push(headers.last())
    } else {
        kept(headers.drop_last())
    }
}

/// The headers that go upstream: the credential under its lower-case name,
/// if the request has one, then the allow-listed headers as they came.
pub open spec fn selected(headers: Seq<(Seq<char>, Seq<u8>)>) -> Seq<(Seq<char>, Seq<u8>)> {
    match token_of(headers) {
        Some(token) => seq![(credential_name(), token)] + kept(headers),
        None => kept(headers),
    }
}

/// Calls `str::eq_ignore_ascii_case`, which std documents as the comparison
/// of the two strings after `A` to `Z` are mapped to `a` to `z` and every
/// other character is left as it is.
#[verifier::external_body]
fn eq_ignore_ascii_case(a: &str, b: &str) -> (same: bool)
    ensures
        same == same_name(a@, b@),
{
    a.eq_ignore_ascii_case(b)
}

/// Whether a header of this name is on the allow-list. The case of the
/// letters does not matter.
pub fn is_forwarded(name: &str) -> (allowed: bool)
    ensures
        allowed == is_allowed(name@),
{
    eq_ignore_ascii_case(name, "x-api-key") || eq_ignore_ascii_case(name, "anthropic-version")
        || eq_ignore_ascii_case(name, "content-type")
}

/// Whether a header value can be read as text.
pub fn is_text_value(value: &Vec<u8>) -> (text: bool)
    ensures
        text == is_text(value@),
{
    let mut i: usize = 0;
    while i < value.len()
        invariant
            i <= value@.len(),
            forall|k: int| 0 <= k < i ==> is_visible(#[trigger] value@[k]),
        decreases value@.len() - i,
    {
        let b: u8 = value[i];
        if !((32 <= b && b < 127) || b == 9) {
            return false;
        }
        i += 1;
    }
    true
}

/// A copy of a list of bytes.
fn copy_bytes(bytes: &Vec<u8>) -> (copy: Vec<u8>)
    ensures
        copy@ == bytes@,
{
    let mut copy: Vec<u8> = Vec::new();
    let mut i: usize = 0;
    while i < bytes.len()
        invariant
            i <= bytes@.len(),
            copy@ == bytes@.take(i as int),
        decreases bytes@.len() - i,
    {
        copy.push(bytes[i]);
        assert(bytes@.take(i + 1) =~= bytes@.take(i as int).push(bytes@[i as int]));
        i += 1;
    }
    assert(bytes@.take(i as int) =~= bytes@);
    copy
}

/// Extracts the credential of a request: the value of the first
/// `Authorization` header, if it is text.
pub fn get_token(headers: &Vec<Header>) -> (token: Option<Vec<u8>>)
    ensures
        match token {
            Some(value) => token_of(header_views(headers@)) == Some(value@),
            None => token_of(header_views(headers@)) is None,
        },
{
    let ghost all = header_views(headers@);
    let mut i: usize = 0;
    assert(all.skip(0) =~= all);
    while i < headers.len()
        invariant
            i <= headers@.len(),
            all == header_views(headers@),
            first_named(all, credential_name()) == first_named(
                all.skip(i as int),
                credential_name(),
            ),
        decreases headers@.len() - i,
    {
        proof {
            assert(all.skip(i as int)[0] == headers@[i as int]@);
            assert(all.skip(i as int).skip(1) =~= all.skip(i + 1));
        }
        if eq_ignore_ascii_case(headers[i].name.as_str(), "authorization") {
            if is_text_value(&headers[i].value) {
                return Some(copy_bytes(&headers[i].value));
            } else {
                return None;
            }
        }
        i += 1;
    }
    None
}

/// Selects the headers that go upstream. Everything but the credential and
/// the allow-listed headers is dropped.
pub fn select(headers: &Vec<Header>) -> (outbound: Vec<Header>)
    ensures
        header_views(outbound@) == selected(header_views(headers@)),
{
    let ghost all = header_views(headers@);
    let mut outbound: Vec<Header> = Vec::new();
    let ghost lead: Seq<(Seq<char>, Seq<u8>)> = Seq::empty();
    match get_token(headers) {
        Some(token) => {
            outbound.push(Header { name: "authorization".to_owned(), value: token });
            proof {
                lead = seq![(credential_name(), token@)];
            }
        },
        None => {},
    }
    assert(header_views(outbound@) =~= lead);
    let mut i: usize = 0;
    while i < headers.len()
        invariant
            i <= headers@.len(),
            all == header_views(headers@),
            header_views(outbound@) == lead + kept(all.take(i as int)),
        decreases headers@.len() - i,
    {
        proof {
            assert(all.take(i + 1).drop_last() =~= all.take(i as int));
            assert(all.take(i + 1).last() == headers@[i as int]@);
        }
        if is_forwarded(headers[i].name.as_str()) {
            let ghost before = header_views(outbound@);
            let copy = Header {
                name: headers[i].name.clone(),
                value: copy_bytes(&headers[i].value),
            };
            outbound.push(copy);
            assert(header_views(outbound@) =~= before.push(headers@[i as int]@));
            assert(header_views(outbound@) =~= lead + kept(all.take(i + 1)));
        }
        i += 1;
    }
    assert(all.take(i as int) =~= all);
    outbound
}

/// Every header that is kept is on the allow-list and was in the request.
pub proof fn lemma_kept_only_allowed(headers: Seq<(Seq<char>, Seq<u8>)>, at: int)
    requires
        0 <= at < kept(headers).len(),
    ensures
        is_allowed(kept(headers)[at].0),
        headers.contains(kept(headers)[at]),
    decreases headers.len(),
{
    if headers.len() > 0 {
        let front = headers.drop_last();
        if at < kept(front).len() {
            lemma_kept_only_allowed(front, at);
            let j = choose|j: int| 0 <= j < front.len() && front[j] == kept(front)[at];
            assert(headers[j] == kept(headers)[at]);
        } else {
            assert(headers[headers.len() - 1] == kept(headers)[at]);
        }
    }
}

/// Every header of the request that is on the allow-list is kept.
pub proof fn lemma_allowed_is_kept(headers: Seq<(Seq<char>, Seq<u8>)>, at: int)
    requires
        0 <= at < headers.len(),
        is_allowed(headers[at].0),
    ensures
        kept(headers).contains(headers[at]),
    decreases headers.len(),
{
    let front = headers.drop_last();
    if at == headers.len() - 1 {
        assert(kept(headers)[kept(front).len() as int] == headers[at]);
    } else {
        lemma_allowed_is_kept(front, at);
        let j = choose|j: int| 0 <= j < kept(front).len() && kept(front)[j] == front[at];
        assert(kept(headers)[j] == headers[at]);
    }
}

/// What goes upstream is the credential under its own name or a header of
/// the allow-list, and nothing else: a header of any other name is dropped.
pub proof fn lemma_selected_only_forwardable(headers: Seq<(Seq<char>, Seq<u8>)>, at: int)
    requires
        0 <= at < selected(headers).len(),
    ensures
        is_allowed(selected(headers)[at].0) || (at == 0 && token_of(headers) == Some(
            selected(headers)[at].1,
        ) && selected(headers)[at].0 == credential_name()),
{
    match token_of(headers) {
        Some(token) => {
            if at > 0 {
                lemma_kept_only_allowed(headers, at - 1);
            }
        },
        None => {
            lemma_kept_only_allowed(headers, at);
        },
    }
}

} // verus!
