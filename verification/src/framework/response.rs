//! The envelope that the API wraps every response in, and what a response decodes to.

use crate::framework::json::{
    lemma_array_view, member, parsed_json, read_text, Json, JsonNumber, JsonValue,
};
use crate::framework::ClientError;
use vstd::prelude::*;

verus! {

/// One error that the API reported.
#[derive(Debug, PartialEq, Eq)]
pub struct ApiError {
    /// The code by which the API knows the error.
    pub code: u64,
    /// What the API says of it.
    pub message: String,
    /// The errors that led to this one, where the API names any.
    pub error_chain: Vec<ApiError>,
}

/// The mathematical value of an [`ApiError`].
pub struct ApiErrorView {
    pub code: int,
    pub message: Seq<char>,
    pub error_chain: Seq<ApiErrorView>,
}

/// The value that an [`ApiError`] stands for.
pub open spec fn error_view(error: ApiError) -> ApiErrorView
    decreases error,
{
    ApiErrorView {
        code: error.code as int,
        message: error.message@,
        error_chain: Seq::new(
            error.error_chain@.len(),
            |i: int|
                if 0 <= i < error.error_chain@.len() {
                    error_view(error.error_chain@[i])
                } else {
                    ApiErrorView { code: 0, message: Seq::empty(), error_chain: Seq::empty() }
                },
        ),
    }
}

impl View for ApiError {
    type V = ApiErrorView;

    open spec fn view(&self) -> ApiErrorView {
        error_view(*self)
    }
}

/// The values of a list of errors, in their order.
pub open spec fn errors_view(errors: Seq<ApiError>) -> Seq<ApiErrorView> {
    Seq::new(errors.len(), |i: int| errors[i]@)
}

/// The value that is found under `name` lies inside the members it is found in.
pub proof fn lemma_member_is_smaller(members: Seq<(Seq<char>, JsonValue)>, name: Seq<char>)
    ensures
        member(members, name) matches Some(value) ==> decreases_to!(members => value),
    decreases members.len(),
{
    if members.len() > 0 && members[0].0 != name {
        lemma_member_is_smaller(members.drop_first(), name);
        assert(decreases_to!(members => members.drop_first()));
    }
}

/// The error that a JSON value describes: an object with a whole number
/// under `code`, a string under `message` and, where it names the errors
/// behind it, an array of such objects under `error_chain`. `None` where
/// the value is not of that shape.
pub open spec fn error_value(json: JsonValue) -> Option<ApiErrorView>
    decreases json,
{
    match json {
        JsonValue::Object(members) => match (member(members, "code"@), member(members, "message"@)) {
            (Some(JsonValue::Int(code)), Some(JsonValue::String(message))) => {
                if 0 <= code <= u64::MAX {
                    match member(members, "error_chain"@) {
                        None | Some(JsonValue::Null) => Some(
                            ApiErrorView { code, message, error_chain: Seq::empty() },
                        ),
                        Some(JsonValue::Array(items)) => {
                            proof {
                                lemma_member_is_smaller(members, "error_chain"@);
                            }
                            match error_values(items) {
                                Some(error_chain) => Some(
                                    ApiErrorView { code, message, error_chain },
                                ),
                                None => None,
                            }
                        },
                        Some(_) => None,
                    }
                } else {
                    None
                }
            },
            _ => None,
        },
        _ => None,
    }
}

/// The errors that a list of JSON values describes, in their order; `None`
/// where one of them describes none.
pub open spec fn error_values(items: Seq<JsonValue>) -> Option<Seq<ApiErrorView>>
    decreases items,
{
    if items.len() == 0 {
        Some(Seq::empty())
    } else {
        match (error_values(items.drop_last()), error_value(items.last())) {
            (Some(errors), Some(error)) => Some(errors.push(error)),
            _ => None,
        }
    }
}

/// What is wrong with a JSON value that is no envelope.
#[derive(Clone, Copy, Debug, PartialEq, Eq, Structural)]
pub enum EnvelopeFault {
    /// The value is not an object.
    NotAnObject,
    /// The object has no boolean under `success`.
    Success,
    /// What stands under `errors` is not a list of errors.
    Errors,
}

/// The envelope of a response, taken apart.
#[derive(Debug, PartialEq, Eq)]
pub struct Envelope {
    /// Whether the API carried the operation out.
    pub success: bool,
    /// What stands under `result`; `Null` where nothing does.
    pub result: Json,
    /// What stands under `result_info`, unless it is missing or `null`.
    pub result_info: Option<Json>,
    /// What stands under `messages`; `Null` where nothing does.
    pub messages: Json,
    /// The errors under `errors`, in their order.
    pub errors: Vec<ApiError>,
}

/// The mathematical value of an [`Envelope`].
pub struct EnvelopeView {
    pub success: bool,
    pub result: JsonValue,
    pub result_info: Option<JsonValue>,
    pub messages: JsonValue,
    pub errors: Seq<ApiErrorView>,
}

impl View for Envelope {
    type V = EnvelopeView;

    open spec fn view(&self) -> EnvelopeView {
        EnvelopeView {
            success: self.success,
            result: self.result@,
            result_info: match self.result_info {
                Some(info) => Some(info@),
                None => None,
            },
            messages: self.messages@,
            errors: errors_view(self.errors@),
        }
    }
}

/// The value under `name`, or `Null` where the object has no such member.
pub open spec fn member_or_null(members: Seq<(Seq<char>, JsonValue)>, name: Seq<char>) -> JsonValue {
    match member(members, name) {
        Some(value) => value,
        None => JsonValue::Null,
    }
}

/// The envelope that a JSON value is, or what keeps it from being one.
///
/// An envelope is an object with a boolean under `success`. Its `errors`,
/// where it has any, are a list of errors; a missing `errors` or a `null`
/// counts as an empty list. `result`, `result_info` and `messages` may
/// hold any value or be missing.
pub open spec fn envelope_value(json: JsonValue) -> Result<EnvelopeView, EnvelopeFault> {
    match json {
        JsonValue::Object(members) => match member(members, "success"@) {
            Some(JsonValue::Bool(success)) => {
                let errors = match member(members, "errors"@) {
                    None | Some(JsonValue::Null) => Some(Seq::empty()),
                    Some(JsonValue::Array(items)) => error_values(items),
                    Some(_) => None,
                };
                match errors {
                    Some(errors) => Ok(
                        EnvelopeView {
                            success,
                            result: member_or_null(members, "result"@),
                            result_info: match member(members, "result_info"@) {
                                None | Some(JsonValue::Null) => None,
                                Some(info) => Some(info),
                            },
                            messages: member_or_null(members, "messages"@),
                            errors,
                        },
                    ),
                    None => Err(EnvelopeFault::Errors),
                }
            },
            _ => Err(EnvelopeFault::Success),
        },
        _ => Err(EnvelopeFault::NotAnObject),
    }
}

/// The values of a list of JSON values, in their order.
pub open spec fn json_values(items: Seq<Json>) -> Seq<JsonValue> {
    Seq::new(items.len(), |i: int| items[i]@)
}

/// A list that describes errors throughout does so in each of its beginnings.
pub proof fn lemma_error_values_of_prefix(items: Seq<JsonValue>, n: int)
    requires
        0 <= n <= items.len(),
        error_values(items) is Some,
    ensures
        error_values(items.take(n)) is Some,
    decreases items.len(),
{
    if n == items.len() {
        assert(items.take(n) == items);
    } else {
        lemma_error_values_of_prefix(items.drop_last(), n);
        assert(items.drop_last().take(n) == items.take(n));
    }
}

/// The whole number that a JSON number is, where it is one that is not
/// negative and fits 64 bits.
fn whole_number(number: &JsonNumber) -> (whole: Option<u64>)
    ensures
        match number@ {
            JsonValue::Int(n) => if 0 <= n <= u64::MAX {
                whole == Some(n as u64)
            } else {
                whole is None
            },
            _ => whole is None,
        },
{
    match number {
        JsonNumber::PosInt(n) => Some(*n),
        JsonNumber::NegInt(n) => if *n >= 0 {
            Some(*n as u64)
        } else {
            None
        },
        JsonNumber::Float(_) => None,
    }
}

/// Reads a list of errors, in their order; `None` where one of the values
/// does not describe an error.
pub fn errors_from_json(items: &Vec<Json>) -> (found: Option<Vec<ApiError>>)
    ensures
        found is Some <==> error_values(json_values(items@)) is Some,
        found matches Some(errors) ==> error_values(json_values(items@)) == Some(
            errors_view(errors@),
        ),
    decreases json_values(items@),
{
    let ghost values = json_values(items@);
    let mut errors: Vec<ApiError> = Vec::new();
    let mut i: usize = 0;
    while i < items.len()
        invariant
            i <= items.len(),
            values == json_values(items@),
            error_values(values.take(i as int)) == Some(errors_view(errors@)),
        decreases items.len() - i,
    {
        let ghost before = values.take(i as int);
        let ghost after = values.take(i + 1);
        assert(after.drop_last() == before);
        assert(after.last() == items@[i as int]@);
        assert(values[i as int] == items@[i as int]@);
        match ApiError::from_json(&items[i]) {
            Some(error) => {
                let ghost old_errors = errors_view(errors@);
                errors.push(error);
                assert(errors_view(errors@) == old_errors.push(error@));
            },
            None => {
                proof {
                    if error_values(values) is Some {
                        lemma_error_values_of_prefix(values, i + 1);
                    }
                }
                return None;
            },
        }
        i += 1;
    }
    assert(values.take(items.len() as int) == values);
    Some(errors)
}

impl ApiError {
    /// Reads the error that `json` describes.
    pub fn from_json(json: &Json) -> (found: Option<ApiError>)
        ensures
            found is Some <==> error_value(json@) is Some,
            found matches Some(error) ==> error_value(json@) == Some(error@),
        decreases json@,
    {
        let code: u64 = match json.get("code") {
            Some(Json::Number(number)) => match whole_number(number) {
                Some(code) => code,
                None => {
                    return None;
                },
            },
            _ => {
                return None;
            },
        };
        let message = match json.get("message") {
            Some(Json::String(text)) => text.clone(),
            _ => {
                return None;
            },
        };
        let error_chain = match json.get("error_chain") {
            None | Some(Json::Null) => {
                let none: Vec<ApiError> = Vec::new();
                assert(errors_view(none@) =~= Seq::<ApiErrorView>::empty());
                none
            },
            Some(Json::Array(items)) => {
                proof {
                    lemma_array_view(*items);
                    lemma_member_is_smaller(json@->Object_0, "error_chain"@);
                    assert(json_values(items@) == Json::Array(*items)@->Array_0);
                }
                match errors_from_json(items) {
                    Some(errors) => errors,
                    None => {
                        return None;
                    },
                }
            },
            Some(_) => {
                return None;
            },
        };
        let error = ApiError { code, message, error_chain };
        assert(error@.error_chain =~= errors_view(error_chain@));
        Some(error)
    }
}

impl Envelope {
    /// Takes the envelope that `json` is apart.
    pub fn from_json(json: &Json) -> (outcome: Result<Envelope, EnvelopeFault>)
        ensures
            match envelope_value(json@) {
                Ok(value) => outcome matches Ok(envelope) && envelope@ == value,
                Err(fault) => outcome == Err::<Envelope, EnvelopeFault>(fault),
            },
    {
        match json {
            Json::Object(_) => {},
            _ => {
                return Err(EnvelopeFault::NotAnObject);
            },
        }
        let success: bool = match json.get("success") {
            Some(Json::Bool(success)) => *success,
            _ => {
                return Err(EnvelopeFault::Success);
            },
        };
        let errors = match json.get("errors") {
            None | Some(Json::Null) => {
                let none: Vec<ApiError> = Vec::new();
                assert(errors_view(none@) =~= Seq::<ApiErrorView>::empty());
                none
            },
            Some(Json::Array(items)) => {
                proof {
                    lemma_array_view(*items);
                    assert(json_values(items@) == Json::Array(*items)@->Array_0);
                }
                match errors_from_json(items) {
                    Some(errors) => errors,
                    None => {
                        return Err(EnvelopeFault::Errors);
                    },
                }
            },
            Some(_) => {
                return Err(EnvelopeFault::Errors);
            },
        };
        let result = match json.get("result") {
            Some(value) => value.clone(),
            None => Json::Null,
        };
        let result_info = match json.get("result_info") {
            None | Some(Json::Null) => None,
            Some(info) => Some(info.clone()),
        };
        let messages = match json.get("messages") {
            Some(value) => value.clone(),
            None => Json::Null,
        };
        Ok(Envelope { success, result, result_info, messages, errors })
    }
}

/// A response in which the API reports that it carried the operation out.
#[derive(Debug)]
pub struct ApiSuccess<ResultType> {
    /// The payload, decoded into the type that the endpoint declares.
    pub result: ResultType,
    /// What the envelope says of the result as a whole, such as the page of a list.
    pub result_info: Option<Json>,
    /// The messages of the envelope.
    pub messages: Json,
    /// The errors of the envelope; the API may name some even where it succeeds.
    pub errors: Vec<ApiError>,
}

/// A response in which the API reports that it turned the operation down.
#[derive(Debug, PartialEq, Eq)]
pub struct ApiFailure {
    /// The errors that the API gives as its reasons, in its order.
    pub errors: Vec<ApiError>,
}

impl View for ApiFailure {
    type V = Seq<ApiErrorView>;

    open spec fn view(&self) -> Seq<ApiErrorView> {
        errors_view(self.errors@)
    }
}

/// Why the body of a response could not be read.
#[derive(Debug)]
pub enum DecodeError {
    /// The body is not JSON.
    Syntax(::serde_json::Error),
    /// The body is JSON, but no envelope.
    Envelope(EnvelopeFault),
    /// The envelope reports success, but its result is not of the declared type.
    Result,
}

/// A type that the `result` of a response can be decoded into.
pub trait ApiResult: Sized {
    /// Decodes `json`, or returns `None` where it is not of the shape of this type.
    fn from_json(json: &Json) -> Option<Self>;
}

impl ApiResult for () {
    /// The result of an operation that returns nothing is `null`.
    fn from_json(json: &Json) -> (decoded: Option<()>)
        ensures
            decoded is Some <==> json@ is Null,
    {
        match json {
            Json::Null => Some(()),
            _ => None,
        }
    }
}

impl ApiResult for Json {
    /// Every value is a JSON value: the result is a copy of it.
    fn from_json(json: &Json) -> (decoded: Option<Json>)
        ensures
            decoded matches Some(copy) && copy@ == json@,
    {
        Some(json.clone())
    }
}

impl ApiResult for String {
    /// A string is the result where the value is a JSON string.
    fn from_json(json: &Json) -> (decoded: Option<String>)
        ensures
            decoded is Some <==> json@ is String,
            decoded matches Some(text) ==> json@ == JsonValue::String(text@),
    {
        match json {
            Json::String(text) => Some(text.clone()),
            _ => None,
        }
    }
}

/// Whether `decoded` is what the decoder of `ResultType` may return for `given`.
pub open spec fn decodes<ResultType: ApiResult>(given: Json, decoded: Option<ResultType>) -> bool {
    call_ensures(ResultType::from_json, (&given,), decoded)
}

impl<ResultType: ApiResult> ApiResult for Option<ResultType> {
    /// `null` is no result; any other value is decoded as a result.
    fn from_json(json: &Json) -> (decoded: Option<Option<ResultType>>)
        ensures
            json@ is Null ==> decoded == Some(None::<ResultType>),
            !(json@ is Null) ==> match decoded {
                Some(Some(result)) => decodes(*json, Some(result)),
                Some(None) => false,
                None => decodes(*json, None::<ResultType>),
            },
    {
        match json {
            Json::Null => Some(None),
            _ => match ResultType::from_json(json) {
                Some(result) => Some(Some(result)),
                None => None,
            },
        }
    }
}

impl<ResultType: ApiResult> ApiResult for Vec<ResultType> {
    /// A list is the result where the value is an array of which each item
    /// is decoded; the results stand in the order of the items.
    fn from_json(json: &Json) -> (decoded: Option<Vec<ResultType>>)
        ensures
            decoded matches Some(results) ==> (json matches Json::Array(items) && results.len()
                == items.len() && forall|i: int|
                0 <= i < items.len() ==> decodes(items@[i], Some(#[trigger] results@[i]))),
            decoded is None ==> (json matches Json::Array(items) ==> exists|i: int|
                0 <= i < items.len() && #[trigger] decodes(items@[i], None::<ResultType>)),
    {
        match json {
            Json::Array(items) => {
                let mut results: Vec<ResultType> = Vec::new();
                let mut i: usize = 0;
                while i < items.len()
                    invariant
                        i <= items.len(),
                        *json == Json::Array(*items),
                        results.len() == i,
                        forall|k: int|
                            0 <= k < i ==> decodes(items@[k], Some(#[trigger] results@[k])),
                    decreases items.len() - i,
                {
                    match ResultType::from_json(&items[i]) {
                        Some(result) => {
                            results.push(result);
                        },
                        None => {
                            assert(decodes(items@[i as int], None::<ResultType>));
                            assert(exists|k: int|
                                0 <= k < items.len() && #[trigger] decodes(
                                    items@[k],
                                    None::<ResultType>,
                                ));
                            assert(json matches Json::Array(all) && all == *items);
                            return None;
                        },
                    }
                    i += 1;
                }
                Some(results)
            },
            _ => None,
        }
    }
}

/// Whether `outcome` is what a response with the envelope `envelope` comes
/// to, where `decoded` is what the decoder made of its result.
///
/// An envelope that reports failure comes to the failure with its errors,
/// whatever its result holds. One that reports success comes to the
/// decoded result beside the rest of the envelope, or to a decode error
/// where the result was not of the declared type.
pub open spec fn comes_to<ResultType>(
    envelope: EnvelopeView,
    decoded: Option<ResultType>,
    outcome: Result<ApiSuccess<ResultType>, ClientError>,
) -> bool {
    if !envelope.success {
        outcome matches Err(ClientError::Api(failure)) && failure@ == envelope.errors
    } else {
        match decoded {
            Some(result) => {
                &&& outcome matches Ok(success)
                &&& success.result == result
                &&& success.result_info.is_some() == envelope.result_info.is_some()
                &&& success.result_info matches Some(info) ==> envelope.result_info == Some(info@)
                &&& success.messages@ == envelope.messages
                &&& errors_view(success.errors@) == envelope.errors
            },
            None => outcome matches Err(ClientError::Decode(DecodeError::Result)),
        }
    }
}

/// Whether `outcome` is what a response whose body reads as `json` comes to.
///
/// Where `json` is no envelope, that is the decode error that says why.
/// Where it is one, the decoder of `ResultType` is asked for the result if
/// and only if the envelope reports success, and the outcome follows from
/// its answer as [`comes_to`] says.
pub open spec fn decoded_from<ResultType: ApiResult>(
    json: JsonValue,
    outcome: Result<ApiSuccess<ResultType>, ClientError>,
) -> bool {
    match envelope_value(json) {
        Err(fault) => outcome matches Err(ClientError::Decode(DecodeError::Envelope(found)))
            && found == fault,
        Ok(envelope) => if envelope.success {
            exists|given: Json, decoded: Option<ResultType>|
                given@ == envelope.result && #[trigger] decodes(given, decoded) && comes_to(
                    envelope,
                    decoded,
                    outcome,
                )
        } else {
            comes_to(envelope, None::<ResultType>, outcome)
        },
    }
}

impl Envelope {
    /// Concludes a response from its envelope and from what the decoder
    /// made of the result.
    pub fn into_outcome<ResultType>(self, decoded: Option<ResultType>) -> (outcome: Result<
        ApiSuccess<ResultType>,
        ClientError,
    >)
        ensures
            comes_to(self@, decoded, outcome),
    {
        let Envelope { success, result: _, result_info, messages, errors } = self;
        if !success {
            return Err(ClientError::Api(ApiFailure { errors }));
        }
        match decoded {
            Some(result) => Ok(ApiSuccess { result, result_info, messages, errors }),
            None => Err(ClientError::Decode(DecodeError::Result)),
        }
    }
}

/// Decodes a response whose body has been read as `json`.
pub fn decode_json<ResultType: ApiResult>(json: &Json) -> (outcome: Result<
    ApiSuccess<ResultType>,
    ClientError,
>)
    ensures
        decoded_from(json@, outcome),
{
    let envelope = match Envelope::from_json(json) {
        Ok(envelope) => envelope,
        Err(fault) => {
            return Err(ClientError::Decode(DecodeError::Envelope(fault)));
        },
    };
    if envelope.success {
        let decoded = ResultType::from_json(&envelope.result);
        let ghost given = envelope.result;
        let ghost value = envelope@;
        let outcome = envelope.into_outcome(decoded);
        assert(decodes(given, decoded) && comes_to(value, decoded, outcome));
        outcome
    } else {
        envelope.into_outcome(None)
    }
}

/// Decodes the body of a response.
///
/// A body that is not JSON is a decode error. Any other body comes to what
/// [`decoded_from`] says of the value that it reads as. The status of the
/// response has no part in this.
pub fn decode<ResultType: ApiResult>(body: &str) -> (outcome: Result<
    ApiSuccess<ResultType>,
    ClientError,
>)
    ensures
        match parsed_json(body@) {
            Some(json) => decoded_from(json, outcome),
            None => outcome matches Err(ClientError::Decode(DecodeError::Syntax(_))),
        },
{
    match read_text(body) {
        Ok(json) => decode_json(&json),
        Err(error) => Err(ClientError::Decode(DecodeError::Syntax(error))),
    }
}

/// The envelope that reports success with `payload` as its result, and
/// holds nothing else.
pub open spec fn success_envelope(payload: JsonValue) -> JsonValue {
    JsonValue::Object(seq![("success"@, JsonValue::Bool(true)), ("result"@, payload)])
}

/// An envelope that reports success around a payload is read as one whose
/// result is that payload, with no errors, messages or result info.
pub proof fn lemma_success_envelope(payload: JsonValue)
    ensures
        envelope_value(success_envelope(payload)) == Ok::<EnvelopeView, EnvelopeFault>(
            EnvelopeView {
                success: true,
                result: payload,
                result_info: None,
                messages: JsonValue::Null,
                errors: Seq::empty(),
            },
        ),
{
    let members = success_envelope(payload)->Object_0;
    reveal_strlit("success");
    reveal_strlit("result");
    reveal_strlit("errors");
    reveal_strlit("messages");
    reveal_strlit("result_info");
    reveal_with_fuel(member, 3);
    assert("errors"@[0] != "success"@[0] && "errors"@[0] != "result"@[0]);
    assert("messages"@[0] != "success"@[0] && "messages"@[0] != "result"@[0]);
    assert("result_info"@.len() != "success"@.len() && "result_info"@.len() != "result"@.len());
    assert("result"@.len() != "success"@.len());
    assert(members.drop_first()[0] == members[1]);
    assert(members.drop_first().drop_first().len() == 0);
    assert(member(members, "success"@) == Some(JsonValue::Bool(true)));
    assert(member(members, "result"@) == Some(payload));
    assert(member(members, "errors"@) is None);
    assert(member(members, "messages"@) is None);
    assert(member(members, "result_info"@) is None);
}

/// What is sent comes back: where the API answers with success and with
/// the very value that a request carried as its result, decoding the
/// response as a JSON value yields that value again.
pub proof fn lemma_result_round_trip(
    payload: JsonValue,
    outcome: Result<ApiSuccess<Json>, ClientError>,
)
    requires
        decoded_from(success_envelope(payload), outcome),
    ensures
        outcome matches Ok(success) && success.result@ == payload,
{
    lemma_success_envelope(payload);
    let envelope = envelope_value(success_envelope(payload))->Ok_0;
    let (given, decoded) = choose|given: Json, decoded: Option<Json>|
        given@ == envelope.result && #[trigger] decodes(given, decoded) && comes_to(
            envelope,
            decoded,
            outcome,
        );
    assert(decodes(given, decoded));
}

/// The kinds of outcome are never mixed. A response comes to a success
/// only where its envelope reports success, and to a failure of the API
/// only where its envelope reports failure; the failure then holds the
/// errors of the envelope. A decode error names the fault of a value that
/// is no envelope, or says that the result of a successful envelope was not
/// of the declared type. No response comes to a failure of the transport.
pub proof fn lemma_outcome_kinds<ResultType: ApiResult>(
    json: JsonValue,
    outcome: Result<ApiSuccess<ResultType>, ClientError>,
)
    requires
        decoded_from(json, outcome),
    ensures
        outcome is Ok ==> (envelope_value(json) matches Ok(envelope) && envelope.success),
        outcome matches Err(ClientError::Api(failure)) ==> (envelope_value(json) matches Ok(
            envelope,
        ) && !envelope.success && failure@ == envelope.errors),
        outcome matches Err(ClientError::Decode(DecodeError::Envelope(fault))) ==> envelope_value(
            json,
        ) == Err::<EnvelopeView, EnvelopeFault>(fault),
        outcome matches Err(ClientError::Decode(DecodeError::Result)) ==> (envelope_value(
            json,
        ) matches Ok(envelope) && envelope.success),
        !(outcome matches Err(ClientError::Decode(DecodeError::Syntax(_)))),
        !(outcome matches Err(ClientError::Transport(_))),
{
}

} // verus!
