//! The credentials of a client and the headers that present them.

use crate::framework::headers::{
    has_name, lemma_without_absent_name, lemma_without_name_has_none,
    lemma_without_name_keeps_absence, lemma_without_name_of_push, same_name, set_header,
    with_header, without_name,
};
use crate::framework::request::{Request, RequestView};
use vstd::prelude::*;
use vstd::utf8::encode_utf8;

verus! {

/// What a client proves its identity with. A value has no printed form, so
/// that a secret does not end in a log.
#[derive(PartialEq, Eq)]
pub enum Credentials {
    /// An API key together with the e-mail address of the account.
    UserAuthKey { email: String, key: String },
    /// An API token.
    UserAuthToken { token: String },
    /// A service key.
    Service { key: String },
}

/// The mathematical value of [`Credentials`].
pub enum CredentialsView {
    UserAuthKey { email: Seq<char>, key: Seq<char> },
    UserAuthToken { token: Seq<char> },
    Service { key: Seq<char> },
}

impl View for Credentials {
    type V = CredentialsView;

    open spec fn view(&self) -> CredentialsView {
        match self {
            Credentials::UserAuthKey { email, key } => CredentialsView::UserAuthKey {
                email: email@,
                key: key@,
            },
            Credentials::UserAuthToken { token } => CredentialsView::UserAuthToken {
                token: token@,
            },
            Credentials::Service { key } => CredentialsView::Service { key: key@ },
        }
    }
}

impl Clone for Credentials {
    fn clone(&self) -> (copy: Credentials)
        ensures
            copy == *self,
    {
        match self {
            Credentials::UserAuthKey { email, key } => Credentials::UserAuthKey {
                email: email.clone(),
                key: key.clone(),
            },
            Credentials::UserAuthToken { token } => Credentials::UserAuthToken {
                token: token.clone(),
            },
            Credentials::Service { key } => Credentials::Service { key: key.clone() },
        }
    }
}

impl CredentialsView {
    /// The headers that present the credentials: each name with the text of its value.
    pub open spec fn headers(self) -> Seq<(Seq<char>, Seq<char>)> {
        match self {
            CredentialsView::UserAuthKey { email, key } => seq![
                ("X-Auth-Email"@, email),
                ("X-Auth-Key"@, key),
            ],
            CredentialsView::UserAuthToken { token } => seq![
                ("Authorization"@, "Bearer "@ + token),
            ],
            CredentialsView::Service { key } => seq![("X-Auth-User-Service-Key"@, key)],
        }
    }

    /// The headers of a request once the credentials have been applied to
    /// it: each header of the credentials is set, in their order.
    pub open spec fn applied(self, headers: Seq<(Seq<char>, Seq<u8>)>) -> Seq<
        (Seq<char>, Seq<u8>),
    > {
        set_all(headers, self.headers())
    }

    /// A request once the credentials have been applied to it: only its
    /// headers change.
    pub open spec fn authenticate(self, request: RequestView) -> RequestView {
        RequestView { headers: self.applied(request.headers), ..request }
    }
}

/// `headers` after each of `pairs` has been set on it, in their order.
pub open spec fn set_all(
    headers: Seq<(Seq<char>, Seq<u8>)>,
    pairs: Seq<(Seq<char>, Seq<char>)>,
) -> Seq<(Seq<char>, Seq<u8>)>
    decreases pairs.len(),
{
    if pairs.len() == 0 {
        headers
    } else {
        with_header(
            set_all(headers, pairs.drop_last()),
            pairs.last().0,
            encode_utf8(pairs.last().1),
        )
    }
}

/// The names and the texts of a list of pairs.
pub open spec fn pairs_view(pairs: Seq<(&'static str, String)>) -> Seq<(Seq<char>, Seq<char>)> {
    Seq::new(pairs.len(), |i: int| (pairs[i].0@, pairs[i].1@))
}

impl Credentials {
    /// The headers that present these credentials to the API.
    pub fn headers(&self) -> (pairs: Vec<(&'static str, String)>)
        ensures
            pairs_view(pairs@) == self@.headers(),
    {
        let mut pairs: Vec<(&'static str, String)> = Vec::new();
        match self {
            Credentials::UserAuthKey { email, key } => {
                pairs.push(("X-Auth-Email", email.clone()));
                pairs.push(("X-Auth-Key", key.clone()));
            },
            Credentials::UserAuthToken { token } => {
                let value = String::from_str("Bearer ").concat(token.as_str());
                pairs.push(("Authorization", value));
            },
            Credentials::Service { key } => {
                pairs.push(("X-Auth-User-Service-Key", key.clone()));
            },
        }
        assert(pairs_view(pairs@) =~= self@.headers());
        pairs
    }

    /// Attaches these credentials to `request`. Each of their headers is
    /// set: it takes the place of any header of the same name. Nothing
    /// else of the request changes.
    pub fn apply(&self, request: Request) -> (authenticated: Request)
        ensures
            authenticated@ == self@.authenticate(request@),
    {
        let pairs = self.headers();
        let Request { method, url, headers, body, timeout, resolve_ip } = request;
        let ghost given = headers.deep_view();
        let mut headers = headers;
        let mut i: usize = 0;
        while i < pairs.len()
            invariant
                i <= pairs.len(),
                headers.deep_view() == set_all(given, pairs_view(pairs@).take(i as int)),
            decreases pairs.len() - i,
        {
            let ghost before = pairs_view(pairs@).take(i as int);
            let ghost after = pairs_view(pairs@).take(i + 1);
            assert(after.drop_last() == before);
            assert(after.last() == (pairs@[i as int].0@, pairs@[i as int].1@));
            headers = set_header(headers, pairs[i].0, pairs[i].1.as_str());
            i += 1;
        }
        assert(pairs_view(pairs@).take(pairs.len() as int) == pairs_view(pairs@));
        Request { method, url, headers, body, timeout, resolve_ip }
    }
}

/// Applying credentials is a function of the credentials and the request:
/// what equal credentials make of two requests that are equal, is equal,
/// and requests with the same headers are given the same headers.
pub proof fn lemma_apply_is_a_function(
    credentials: Credentials,
    again: Credentials,
    first: Request,
    second: Request,
)
    requires
        credentials@ == again@,
    ensures
        first@ == second@ ==> credentials@.authenticate(first@) == again@.authenticate(second@),
        first@.headers == second@.headers ==> credentials@.authenticate(first@).headers
            == again@.authenticate(second@).headers,
{
}

/// A request to which credentials have been applied presents them: it
/// ends with their headers, in their order, and none of its other headers
/// goes by the name of one of them.
pub proof fn lemma_credentials_are_presented(
    credentials: CredentialsView,
    headers: Seq<(Seq<char>, Seq<u8>)>,
)
    ensures
        ({
            let sent = credentials.applied(headers);
            let own = credentials.headers();
            &&& sent.len() >= own.len()
            &&& forall|j: int|
                0 <= j < own.len() ==> sent[sent.len() - own.len() + j] == (
                    (#[trigger] own[j]).0,
                    encode_utf8(own[j].1),
                )
            &&& forall|i: int, j: int|
                0 <= i < sent.len() - own.len() && 0 <= j < own.len() ==> !same_name(
                    (#[trigger] sent[i]).0,
                    (#[trigger] own[j]).0,
                )
        }),
{
    let sent = credentials.applied(headers);
    let own = credentials.headers();
    reveal_with_fuel(set_all, 3);
    match credentials {
        CredentialsView::UserAuthKey { email, key } => {
            let first = ("X-Auth-Email"@, encode_utf8(email));
            let second = ("X-Auth-Key"@, encode_utf8(key));
            assert(own.drop_last() == seq![("X-Auth-Email"@, email)]);
            assert(own.drop_last().drop_last() == Seq::<(Seq<char>, Seq<char>)>::empty());
            let cleared = without_name(headers, first.0);
            assert(set_all(headers, own.drop_last()) == cleared.push(first));
            reveal_strlit("X-Auth-Email");
            reveal_strlit("X-Auth-Key");
            assert(!same_name(first.0, second.0));
            lemma_without_name_of_push(cleared, first, second.0);
            let rest = without_name(cleared, second.0);
            assert(sent == rest.push(first).push(second));
            lemma_without_name_has_none(headers, first.0);
            lemma_without_name_has_none(cleared, second.0);
            lemma_without_name_keeps_absence(cleared, second.0, first.0);
            assert forall|i: int, j: int|
                0 <= i < sent.len() - own.len() && 0 <= j < own.len() implies !same_name(
                (#[trigger] sent[i]).0,
                (#[trigger] own[j]).0,
            ) by {
                assert(sent[i] == rest[i]);
            }
        },
        CredentialsView::UserAuthToken { token } => {
            assert(own.drop_last() == Seq::<(Seq<char>, Seq<char>)>::empty());
            lemma_without_name_has_none(headers, own[0].0);
            assert forall|i: int, j: int|
                0 <= i < sent.len() - own.len() && 0 <= j < own.len() implies !same_name(
                (#[trigger] sent[i]).0,
                (#[trigger] own[j]).0,
            ) by {
                assert(sent[i] == without_name(headers, own[0].0)[i]);
            }
        },
        CredentialsView::Service { key } => {
            assert(own.drop_last() == Seq::<(Seq<char>, Seq<char>)>::empty());
            lemma_without_name_has_none(headers, own[0].0);
            assert forall|i: int, j: int|
                0 <= i < sent.len() - own.len() && 0 <= j < own.len() implies !same_name(
                (#[trigger] sent[i]).0,
                (#[trigger] own[j]).0,
            ) by {
                assert(sent[i] == without_name(headers, own[0].0)[i]);
            }
        },
    }
}

/// Applying credentials a second time changes nothing: a request that
/// presents them already is left as it is.
pub proof fn lemma_apply_twice_is_apply_once(
    credentials: CredentialsView,
    headers: Seq<(Seq<char>, Seq<u8>)>,
)
    ensures
        credentials.applied(credentials.applied(headers)) == credentials.applied(headers),
{
    let sent = credentials.applied(headers);
    let own = credentials.headers();
    lemma_credentials_are_presented(credentials, headers);
    reveal_with_fuel(set_all, 3);
    let rest = sent.take(sent.len() - own.len());
    match credentials {
        CredentialsView::UserAuthKey { email, key } => {
            let first = ("X-Auth-Email"@, encode_utf8(email));
            let second = ("X-Auth-Key"@, encode_utf8(key));
            reveal_strlit("X-Auth-Email");
            reveal_strlit("X-Auth-Key");
            assert(!same_name(first.0, second.0) && !same_name(second.0, first.0));
            assert(same_name(first.0, first.0) && same_name(second.0, second.0));
            assert(own[0] == ("X-Auth-Email"@, email) && own[1] == ("X-Auth-Key"@, key));
            assert(own.drop_last() == seq![("X-Auth-Email"@, email)]);
            assert(own.drop_last().drop_last() == Seq::<(Seq<char>, Seq<char>)>::empty());
            assert(sent == rest.push(first).push(second));
            assert(!has_name(rest, first.0)) by {
                assert forall|i: int| 0 <= i < rest.len() implies !same_name(
                    (#[trigger] rest[i]).0,
                    first.0,
                ) by {
                    assert(rest[i] == sent[i]);
                    assert(!same_name(sent[i].0, own[0].0));
                }
            }
            assert(!has_name(rest, second.0)) by {
                assert forall|i: int| 0 <= i < rest.len() implies !same_name(
                    (#[trigger] rest[i]).0,
                    second.0,
                ) by {
                    assert(rest[i] == sent[i]);
                    assert(!same_name(sent[i].0, own[1].0));
                }
            }
            lemma_without_absent_name(rest, first.0);
            lemma_without_absent_name(rest, second.0);
            lemma_without_name_of_push(rest, first, first.0);
            lemma_without_name_of_push(rest.push(first), second, first.0);
            assert(without_name(sent, first.0) == rest.push(second));
            let once = rest.push(second).push(first);
            assert(set_all(sent, own.drop_last()) == once);
            lemma_without_name_of_push(rest, second, second.0);
            lemma_without_name_of_push(rest.push(second), first, second.0);
            assert(without_name(once, second.0) == rest.push(first));
        },
        CredentialsView::UserAuthToken { token } => {
            assert(own.drop_last() == Seq::<(Seq<char>, Seq<char>)>::empty());
            let only = (own[0].0, encode_utf8(own[0].1));
            assert(same_name(only.0, only.0));
            assert(sent == rest.push(only));
            assert(!has_name(rest, only.0)) by {
                assert forall|i: int| 0 <= i < rest.len() implies !same_name(
                    (#[trigger] rest[i]).0,
                    only.0,
                ) by {
                    assert(rest[i] == sent[i]);
                    assert(!same_name(sent[i].0, own[0].0));
                }
            }
            lemma_without_absent_name(rest, only.0);
            lemma_without_name_of_push(rest, only, only.0);
        },
        CredentialsView::Service { key } => {
            assert(own.drop_last() == Seq::<(Seq<char>, Seq<char>)>::empty());
            let only = (own[0].0, encode_utf8(own[0].1));
            assert(same_name(only.0, only.0));
            assert(sent == rest.push(only));
            assert(!has_name(rest, only.0)) by {
                assert forall|i: int| 0 <= i < rest.len() implies !same_name(
                    (#[trigger] rest[i]).0,
                    only.0,
                ) by {
                    assert(rest[i] == sent[i]);
                    assert(!same_name(sent[i].0, own[0].0));
                }
            }
            lemma_without_absent_name(rest, only.0);
            lemma_without_name_of_push(rest, only, only.0);
        },
    }
}

} // verus!
