//! The error classifier: from the status code and the body of a failed
//! gateway call to the canonical error.

use crate::decode::{
    optional_member, optional_text, optional_text_list, read_all, read_optional_text,
    read_optional_text_list, read_required_text, required_text,
};
use crate::errors::{
    ConnectorError, ConnectorErrorView, ErrorResponse, ErrorResponseView,
    WaveAggregatedMerchantError, WaveAggregatedMerchantErrorView, NO_ERROR_CODE, NO_ERROR_MESSAGE,
};
use crate::json::{
    json_as_array, json_elements, json_from_str, json_get, json_is_null, json_model,
    json_text_model, JsonModel,
};
use crate::text::{concat2, concat3, decimal, opt_text, str_equal, u64_to_string};
use vstd::prelude::*;

verus! {

/// Reason reported where the gateway's error body cannot be read.
pub const UNPARSEABLE_ERROR_REASON: &'static str = "unable to parse error response";

/// One detail of a gateway error.
#[derive(Debug, Clone, PartialEq, Eq)]
pub struct WaveErrorDetail {
    pub loc: Option<Vec<String>>,
    pub msg: String,
}

/// Mathematical content of a [`WaveErrorDetail`].
pub struct WaveErrorDetailView {
    pub loc: Option<Seq<Seq<char>>>,
    pub msg: Seq<char>,
}

impl DeepView for WaveErrorDetail {
    type V = WaveErrorDetailView;

    open spec fn deep_view(&self) -> WaveErrorDetailView {
        WaveErrorDetailView { loc: self.loc.deep_view(), msg: self.msg@ }
    }
}

impl View for WaveErrorDetail {
    type V = WaveErrorDetailView;

    open spec fn view(&self) -> WaveErrorDetailView {
        self.deep_view()
    }
}

/// The body of a failed gateway call.
#[derive(Debug, Clone, PartialEq, Eq)]
pub struct WaveErrorResponse {
    pub code: Option<String>,
    pub message: String,
    pub details: Option<Vec<WaveErrorDetail>>,
}

/// Mathematical content of a [`WaveErrorResponse`].
pub struct WaveErrorResponseView {
    pub code: Option<Seq<char>>,
    pub message: Seq<char>,
    pub details: Option<Seq<WaveErrorDetailView>>,
}

impl DeepView for WaveErrorResponse {
    type V = WaveErrorResponseView;

    open spec fn deep_view(&self) -> WaveErrorResponseView {
        WaveErrorResponseView {
            code: opt_text(self.code),
            message: self.message@,
            details: self.details.deep_view(),
        }
    }
}

impl View for WaveErrorResponse {
    type V = WaveErrorResponseView;

    open spec fn view(&self) -> WaveErrorResponseView {
        self.deep_view()
    }
}

impl WaveErrorDetail {
    /// The detail that a JSON value describes: an object with the member
    /// `msg` and the optional member `loc`, a list of strings.
    pub open spec fn decode(m: JsonModel) -> Option<WaveErrorDetailView> {
        let loc = optional_text_list(m, "loc"@);
        let msg = required_text(m, "msg"@);
        if loc is Some && msg is Some {
            Some(WaveErrorDetailView { loc: loc->0, msg: msg->0 })
        } else {
            None
        }
    }

    /// The details that a JSON value lists: an array of details.
    pub open spec fn decode_list(m: JsonModel) -> Option<Seq<WaveErrorDetailView>> {
        match json_elements(m) {
            Some(items) => read_all(items, |x: JsonModel| Self::decode(x)),
            None => None,
        }
    }

    /// Reads a detail from a JSON value.
    pub fn from_json(v: &serde_json::Value) -> (r: Option<WaveErrorDetail>)
        ensures
            r.deep_view() == Self::decode(json_model(*v)),
    {
        let loc = match read_optional_text_list(v, "loc") {
            Some(x) => x,
            None => return None,
        };
        let msg = match read_required_text(v, "msg") {
            Some(x) => x,
            None => return None,
        };
        Some(WaveErrorDetail { loc, msg })
    }

    /// Reads an array of details.
    pub fn list_from_json(v: &serde_json::Value) -> (r: Option<Vec<WaveErrorDetail>>)
        ensures
            r.deep_view() == Self::decode_list(json_model(*v)),
    {
        match json_as_array(v) {
            None => None,
            Some(items) => {
                let ghost models = items@.map_values(|item: serde_json::Value| json_model(item));
                let ghost read = |x: JsonModel| WaveErrorDetail::decode(x);
                let mut out: Vec<WaveErrorDetail> = Vec::new();
                let mut i: usize = 0;
                while i < items.len()
                    invariant
                        i <= items.len(),
                        models == items@.map_values(|item: serde_json::Value| json_model(item)),
                        json_elements(json_model(*v)) == Some(models),
                        read == |x: JsonModel| WaveErrorDetail::decode(x),
                        out@.len() == i,
                        forall|j: int| 0 <= j < i ==> read(#[trigger] models[j]) is Some,
                        forall|j: int|
                            0 <= j < i ==> (#[trigger] out@[j]).deep_view() == read(models[j])->0,
                    decreases items.len() - i,
                {
                    match WaveErrorDetail::from_json(&items[i]) {
                        Some(detail) => {
                            out.push(detail);
                        },
                        None => {
                            assert(read(models[i as int]) is None);
                            return None;
                        },
                    }
                    i = i + 1;
                }
                Some(out)
            },
        }
    }
}

impl WaveErrorResponse {
    /// The error that a JSON value describes: an object with the member
    /// `message` and the optional members `code` and `details`.
    pub open spec fn decode(m: JsonModel) -> Option<WaveErrorResponseView> {
        let code = optional_text(m, "code"@);
        let message = required_text(m, "message"@);
        let details = optional_member(m, "details"@, |x: JsonModel| WaveErrorDetail::decode_list(x));
        if code is Some && message is Some && details is Some {
            Some(WaveErrorResponseView { code: code->0, message: message->0, details: details->0 })
        } else {
            None
        }
    }

    /// The error that a parsed body describes, if it describes one.
    pub open spec fn of_parsed(parsed: Option<JsonModel>) -> Option<WaveErrorResponseView> {
        match parsed {
            Some(m) => Self::decode(m),
            None => None,
        }
    }

    /// Reads an error from a JSON value.
    pub fn from_json(v: &serde_json::Value) -> (r: Option<WaveErrorResponse>)
        ensures
            r.deep_view() == Self::decode(json_model(*v)),
    {
        let code = match read_optional_text(v, "code") {
            Some(x) => x,
            None => return None,
        };
        let message = match read_required_text(v, "message") {
            Some(x) => x,
            None => return None,
        };
        let details = match json_get(v, "details") {
            None => None,
            Some(member) => if json_is_null(member) {
                None
            } else {
                match WaveErrorDetail::list_from_json(member) {
                    Some(list) => Some(list),
                    None => return None,
                }
            },
        };
        Some(WaveErrorResponse { code, message, details })
    }

    /// Reads an error from the text of a body; `None` where the text is
    /// not JSON or describes no error.
    pub fn parse(body: &str) -> (r: Option<WaveErrorResponse>)
        ensures
            r.deep_view() == Self::of_parsed(json_text_model(body@)),
    {
        match json_from_str(body) {
            Some(v) => Self::from_json(&v),
            None => None,
        }
    }
}

/// The message of the first detail, if there is any.
pub open spec fn first_detail_message(details: Option<Seq<WaveErrorDetailView>>) -> Option<Seq<char>> {
    match details {
        Some(list) => if list.len() > 0 {
            Some(list[0].msg)
        } else {
            None
        },
        None => None,
    }
}

/// The canonical error for a failed call with the given status code, given
/// what its body holds. A body that holds an error gives its code (or
/// `NO_ERROR_CODE`), its message, and the message of its first detail as
/// the reason. A body that holds none gives `NO_ERROR_CODE`,
/// `NO_ERROR_MESSAGE` and a reason that says so.
pub open spec fn error_response_of(status_code: u16, parsed: Option<WaveErrorResponseView>) -> ErrorResponseView {
    match parsed {
        Some(error) => ErrorResponseView {
            code: match error.code {
                Some(code) => code,
                None => "No error code"@,
            },
            message: error.message,
            reason: first_detail_message(error.details),
            status_code,
        },
        None => ErrorResponseView {
            code: "No error code"@,
            message: "No error message"@,
            reason: Some("unable to parse error response"@),
            status_code,
        },
    }
}

/// Builds the canonical error for a failed call from what its body holds.
pub fn error_response_from(status_code: u16, parsed: Option<WaveErrorResponse>) -> (r: ErrorResponse)
    ensures
        r@ == error_response_of(status_code, parsed.deep_view()),
{
    match parsed {
        Some(error) => {
            let code = match error.code {
                Some(code) => code,
                None => NO_ERROR_CODE.to_owned(),
            };
            let reason = match &error.details {
                Some(list) => if list.len() > 0 {
                    Some(list[0].msg.clone())
                } else {
                    None
                },
                None => None,
            };
            ErrorResponse { code, message: error.message, reason, status_code }
        },
        None => ErrorResponse {
            code: NO_ERROR_CODE.to_owned(),
            message: NO_ERROR_MESSAGE.to_owned(),
            reason: Some(UNPARSEABLE_ERROR_REASON.to_owned()),
            status_code,
        },
    }
}

/// The semantic kind of an aggregated-merchant failure, for the status
/// code and the error of the body: a missing merchant for 404 with the code
/// `AGGREGATED_MERCHANT_NOT_FOUND`, an invalid configuration for 400 with
/// the code `INVALID_BUSINESS_TYPE`, a failed authentication for 401 and
/// 403, an exceeded rate limit for 429. `None` for everything else.
pub open spec fn api_error_kind(status: u16, error: WaveErrorResponseView) -> Option<
    WaveAggregatedMerchantErrorView,
> {
    let code = match error.code {
        Some(c) => c,
        None => Seq::<char>::empty(),
    };
    if status == 404 && code == "AGGREGATED_MERCHANT_NOT_FOUND"@ {
        Some(WaveAggregatedMerchantErrorView::MerchantNotFound { merchant_id: "unknown"@ })
    } else if status == 400 && code == "INVALID_BUSINESS_TYPE"@ {
        Some(WaveAggregatedMerchantErrorView::InvalidConfiguration { details: error.message })
    } else if status == 401 || status == 403 {
        Some(WaveAggregatedMerchantErrorView::AuthenticationFailed)
    } else if status == 429 {
        Some(WaveAggregatedMerchantErrorView::RateLimitExceeded)
    } else {
        None
    }
}

/// The error of a failed aggregated-merchant call, given what its body
/// holds. An error of a semantic kind is reported as that kind is. Any
/// other error is a failed processing step that carries the status code
/// and the message; a body that holds no error is a failed processing step
/// that carries the status code and the body as it is.
pub open spec fn api_error_of(status: u16, body: Seq<char>, parsed: Option<WaveErrorResponseView>) -> ConnectorErrorView {
    match parsed {
        Some(error) => match api_error_kind(status, error) {
            Some(kind) => kind.connector_error(),
            None => ConnectorErrorView::ProcessingStepFailed(
                Some("Wave API error: "@ + decimal(status as nat) + " - "@ + error.message),
            ),
        },
        None => ConnectorErrorView::ProcessingStepFailed(
            Some("Wave API error "@ + decimal(status as nat) + ": "@ + body),
        ),
    }
}

/// What a failed aggregated-merchant call is described by, given what its
/// body holds: the message of its semantic kind where it has one, else the
/// status code with the message of the error, or with the body as it is
/// where the body holds no error.
pub open spec fn api_error_description(
    status: u16,
    body: Seq<char>,
    parsed: Option<WaveErrorResponseView>,
) -> Seq<char> {
    match parsed {
        Some(error) => match api_error_kind(status, error) {
            Some(kind) => kind.message(),
            None => "Wave API error: "@ + decimal(status as nat) + " - "@ + error.message,
        },
        None => "Wave API error "@ + decimal(status as nat) + ": "@ + body,
    }
}

/// The failure that the remote service reports for a failed call: always a
/// failed processing step, which carries the description of the classified
/// error. A failed authentication is no exception.
pub open spec fn remote_failure_of(
    status: u16,
    body: Seq<char>,
    parsed: Option<WaveErrorResponseView>,
) -> ConnectorErrorView {
    ConnectorErrorView::ProcessingStepFailed(Some(api_error_description(status, body, parsed)))
}

/// The failure that the remote service reports is the classified error,
/// but for a failed authentication, which it reports as a failed processing
/// step as well.
pub proof fn lemma_remote_failure_is_the_classified_error(
    status: u16,
    body: Seq<char>,
    parsed: Option<WaveErrorResponseView>,
)
    ensures
        api_error_of(status, body, parsed) != ConnectorErrorView::FailedToObtainAuthType
            ==> remote_failure_of(status, body, parsed) == api_error_of(status, body, parsed),
        api_error_of(status, body, parsed) == ConnectorErrorView::FailedToObtainAuthType
            ==> remote_failure_of(status, body, parsed) == ConnectorErrorView::ProcessingStepFailed(
            Some(WaveAggregatedMerchantErrorView::AuthenticationFailed.message()),
        ),
{
}

/// A missing merchant is recognised by the status 404 together with the
/// code `AGGREGATED_MERCHANT_NOT_FOUND`, whatever else the body holds.
pub proof fn lemma_missing_merchant_is_recognised(body: Seq<char>, error: WaveErrorResponseView)
    requires
        error.code == Some("AGGREGATED_MERCHANT_NOT_FOUND"@),
    ensures
        api_error_kind(404, error) == Some(
            WaveAggregatedMerchantErrorView::MerchantNotFound { merchant_id: "unknown"@ },
        ),
        api_error_of(404, body, Some(error)) == (WaveAggregatedMerchantErrorView::MerchantNotFound {
            merchant_id: "unknown"@,
        }).connector_error(),
{
}

/// A body that holds no error is carried as it is: whatever the status,
/// the failure is a failed processing step whose description ends with the
/// body.
pub proof fn lemma_unreadable_body_is_carried(status: u16, body: Seq<char>)
    ensures
        api_error_of(status, body, None) matches ConnectorErrorView::ProcessingStepFailed(
            Some(description),
        ) && description.len() >= body.len() && description.subrange(
            description.len() - body.len(),
            description.len() as int,
        ) == body,
{
}

/// Classifies the error of a failed aggregated-merchant call by its
/// semantic kind.
pub fn classify_wave_api_error(status: u16, error: &WaveErrorResponse) -> (r: Option<
    WaveAggregatedMerchantError,
>)
    ensures
        match r {
            Some(kind) => api_error_kind(status, error@) == Some(kind@),
            None => api_error_kind(status, error@) is None,
        },
{
    let code: &str = match &error.code {
        Some(c) => c.as_str(),
        None => "",
    };
    proof {
        reveal_strlit("");
        assert(""@ =~= Seq::<char>::empty());
    }
    if status == 404 && str_equal(code, "AGGREGATED_MERCHANT_NOT_FOUND") {
        Some(WaveAggregatedMerchantError::MerchantNotFound { merchant_id: "unknown".to_owned() })
    } else if status == 400 && str_equal(code, "INVALID_BUSINESS_TYPE") {
        Some(WaveAggregatedMerchantError::InvalidConfiguration { details: error.message.clone() })
    } else if status == 401 || status == 403 {
        Some(WaveAggregatedMerchantError::AuthenticationFailed)
    } else if status == 429 {
        Some(WaveAggregatedMerchantError::RateLimitExceeded)
    } else {
        None
    }
}

fn message_description(status: u16, message: &str) -> (r: String)
    ensures
        r@ == "Wave API error: "@ + decimal(status as nat) + " - "@ + message@,
{
    let status_text = u64_to_string(status as u64);
    let head = concat3("Wave API error: ", status_text.as_str(), " - ");
    concat2(head.as_str(), message)
}

fn body_description(status: u16, body: &str) -> (r: String)
    ensures
        r@ == "Wave API error "@ + decimal(status as nat) + ": "@ + body@,
{
    let status_text = u64_to_string(status as u64);
    let head = concat3("Wave API error ", status_text.as_str(), ": ");
    concat2(head.as_str(), body)
}

/// Builds the error of a failed aggregated-merchant call from what its
/// body holds.
pub fn wave_api_error_from(status: u16, body: &str, parsed: Option<WaveErrorResponse>) -> (r:
    ConnectorError)
    ensures
        r@ == api_error_of(status, body@, parsed.deep_view()),
{
    match parsed {
        Some(error) => match classify_wave_api_error(status, &error) {
            Some(kind) => kind.into_connector_error(),
            None => ConnectorError::ProcessingStepFailed(
                Some(message_description(status, error.message.as_str())),
            ),
        },
        None => ConnectorError::ProcessingStepFailed(Some(body_description(status, body))),
    }
}

/// Builds the failure that the remote service reports for a failed call
/// from what its body holds; see [`remote_failure_of`].
pub fn remote_failure_from(status: u16, body: &str, parsed: Option<WaveErrorResponse>) -> (r:
    ConnectorError)
    ensures
        r@ == remote_failure_of(status, body@, parsed.deep_view()),
{
    let description = match parsed {
        Some(error) => match classify_wave_api_error(status, &error) {
            Some(kind) => kind.to_string(),
            None => message_description(status, error.message.as_str()),
        },
        None => body_description(status, body),
    };
    ConnectorError::ProcessingStepFailed(Some(description))
}

/// Classifies a failed aggregated-merchant call by its status code and the
/// text of its body. A body that cannot be read is no obstacle: it gives a
/// failed processing step that carries the body as it is.
pub fn parse_wave_api_error(status: u16, body: &str) -> (r: ConnectorError)
    ensures
        r@ == api_error_of(status, body@, WaveErrorResponse::of_parsed(json_text_model(body@))),
{
    wave_api_error_from(status, body, WaveErrorResponse::parse(body))
}

/// Builds the canonical error for a failed call from its status code and
/// the text of its body.
pub fn error_response_for(status_code: u16, body: &str) -> (r: ErrorResponse)
    ensures
        r@ == error_response_of(status_code, WaveErrorResponse::of_parsed(json_text_model(body@))),
{
    error_response_from(status_code, WaveErrorResponse::parse(body))
}

} // verus!
