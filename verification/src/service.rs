//! The remote service for aggregated merchants: for each operation the
//! request to send, checked before anything is sent, and the reading of
//! what came back.

use crate::canonical::Method;
use crate::classifier::{
    remote_failure_from, remote_failure_of, WaveErrorResponse, WaveErrorResponseView,
};
use crate::errors::{
    ConnectorError, ConnectorErrorView, WaveAggregatedMerchantError,
    WaveAggregatedMerchantErrorView,
};
use crate::http::{
    authorization_header, bearer_header, is_success, is_success_status, json_content_type_header,
    Request, RequestContent, RequestContentView, RequestView, TransportOutcome,
};
use crate::json::{json_from_str, json_text_model, JsonModel};
use crate::merchant::{
    WaveAggregatedMerchant, WaveAggregatedMerchantListResponse,
    WaveAggregatedMerchantListResponseView, WaveAggregatedMerchantRequest,
    WaveAggregatedMerchantRequestView, WaveAggregatedMerchantUpdateRequest,
    WaveAggregatedMerchantUpdateRequestView, WaveAggregatedMerchantView,
};
use crate::text::{concat2, decimal, opt_text, u64_to_string};
use crate::validation::{
    find_request_violation, find_update_violation, is_valid_merchant_id, request_violation,
    update_violation, valid_merchant_id,
};
use vstd::prelude::*;

verus! {

/// Path of the collection of aggregated merchants.
pub const AGGREGATED_MERCHANTS_PATH: &'static str = "v1/aggregated_merchants";

/// Address of the collection of aggregated merchants.
pub open spec fn merchants_url(base_url: Seq<char>) -> Seq<char> {
    base_url + "v1/aggregated_merchants"@
}

/// Address of one aggregated merchant.
pub open spec fn merchant_url(base_url: Seq<char>, merchant_id: Seq<char>) -> Seq<char> {
    base_url + "v1/aggregated_merchants"@ + "/"@ + merchant_id
}

/// The query of a list request: `limit` and `cursor`, as far as they are
/// given, and nothing where none is.
pub open spec fn list_query(limit: Option<u32>, cursor: Option<Seq<char>>) -> Seq<char> {
    match (limit, cursor) {
        (Some(l), Some(c)) => "?"@ + ("limit="@ + decimal(l as nat)) + "&"@ + ("cursor="@ + c),
        (Some(l), None) => "?"@ + ("limit="@ + decimal(l as nat)),
        (None, Some(c)) => "?"@ + ("cursor="@ + c),
        (None, None) => Seq::<char>::empty(),
    }
}

/// The error for an id that lacks the format of an aggregated-merchant id.
pub open spec fn malformed_id_error() -> ConnectorErrorView {
    ConnectorErrorView::InvalidConnectorConfig { config: "Invalid aggregated merchant ID format"@ }
}

/// What a prepared call holds.
pub open spec fn prepared(r: Result<Request, ConnectorError>) -> Result<RequestView, ConnectorErrorView> {
    match r {
        Ok(request) => Ok(request@),
        Err(e) => Err(e@),
    }
}

/// The call that creates a merchant: a `POST` of the request to the
/// collection, unless the request violates a rule; then nothing is sent and
/// the violation is reported as a failed processing step.
pub open spec fn creation_call(
    api_key: Seq<char>,
    base_url: Seq<char>,
    request: WaveAggregatedMerchantRequestView,
) -> Result<RequestView, ConnectorErrorView> {
    match request_violation(request) {
        Some(details) => Err(
            ConnectorErrorView::ProcessingStepFailed(
                Some((WaveAggregatedMerchantErrorView::InvalidConfiguration { details }).message()),
            ),
        ),
        None => Ok(
            RequestView {
                method: Method::Post,
                url: merchants_url(base_url),
                headers: seq![authorization_header(api_key), json_content_type_header()],
                body: Some(RequestContentView::CreateMerchant(request)),
            },
        ),
    }
}

/// The call that lists merchants: a `GET` of the collection with the query.
pub open spec fn list_call(
    api_key: Seq<char>,
    base_url: Seq<char>,
    limit: Option<u32>,
    cursor: Option<Seq<char>>,
) -> RequestView {
    RequestView {
        method: Method::Get,
        url: merchants_url(base_url) + list_query(limit, cursor),
        headers: seq![authorization_header(api_key)],
        body: None,
    }
}

/// The call that looks a merchant up: a `GET` of its address, unless the id
/// is malformed; then nothing is sent.
pub open spec fn lookup_call(api_key: Seq<char>, base_url: Seq<char>, merchant_id: Seq<char>) -> Result<
    RequestView,
    ConnectorErrorView,
> {
    if valid_merchant_id(merchant_id) {
        Ok(
            RequestView {
                method: Method::Get,
                url: merchant_url(base_url, merchant_id),
                headers: seq![authorization_header(api_key)],
                body: None,
            },
        )
    } else {
        Err(malformed_id_error())
    }
}

/// The call that changes a merchant: a `PUT` of the request to its address,
/// unless the id is malformed or the request violates a rule; then nothing
/// is sent.
pub open spec fn update_call(
    api_key: Seq<char>,
    base_url: Seq<char>,
    merchant_id: Seq<char>,
    request: WaveAggregatedMerchantUpdateRequestView,
) -> Result<RequestView, ConnectorErrorView> {
    if !valid_merchant_id(merchant_id) {
        Err(malformed_id_error())
    } else {
        match update_violation(request) {
            Some(details) => Err(ConnectorErrorView::InvalidConnectorConfig { config: details }),
            None => Ok(
                RequestView {
                    method: Method::Put,
                    url: merchant_url(base_url, merchant_id),
                    headers: seq![authorization_header(api_key), json_content_type_header()],
                    body: Some(RequestContentView::UpdateMerchant(request)),
                },
            ),
        }
    }
}

/// The call that deletes a merchant: a `DELETE` of its address, unless the
/// id is malformed; then nothing is sent.
pub open spec fn deletion_call(api_key: Seq<char>, base_url: Seq<char>, merchant_id: Seq<char>) -> Result<
    RequestView,
    ConnectorErrorView,
> {
    if valid_merchant_id(merchant_id) {
        Ok(
            RequestView {
                method: Method::Delete,
                url: merchant_url(base_url, merchant_id),
                headers: seq![authorization_header(api_key)],
                body: None,
            },
        )
    } else {
        Err(malformed_id_error())
    }
}

/// What an answer means, given what its body holds as a payload and as an
/// error. With a status of success the payload is the result, and a body
/// without one is a deserialization failure. With any other status the
/// result is a failed processing step that carries the description of the
/// classified error, whatever its kind.
pub open spec fn concluded<T>(
    status_code: u16,
    body: Seq<char>,
    payload: Option<T>,
    error: Option<WaveErrorResponseView>,
) -> Result<T, ConnectorErrorView> {
    if is_success_status(status_code) {
        match payload {
            Some(value) => Ok(value),
            None => Err(ConnectorErrorView::ResponseDeserializationFailed),
        }
    } else {
        Err(remote_failure_of(status_code, body, error))
    }
}

/// What the outcome of a call means for a payload that is read by `read`:
/// a request that could not be sent is an encoding failure, a body that
/// could not be read is a deserialization failure, and an answer means
/// what [`concluded`] says of it.
pub open spec fn reply_of<T>(outcome: TransportOutcome, read: spec_fn(JsonModel) -> Option<T>) -> Result<
    T,
    ConnectorErrorView,
> {
    match outcome {
        TransportOutcome::SendFailed => Err(ConnectorErrorView::RequestEncodingFailed),
        TransportOutcome::BodyUnreadable => Err(ConnectorErrorView::ResponseDeserializationFailed),
        TransportOutcome::Received(answer) => concluded(
            answer.status_code,
            answer.response@,
            match json_text_model(answer.response@) {
                Some(m) => read(m),
                None => None,
            },
            WaveErrorResponse::of_parsed(json_text_model(answer.response@)),
        ),
    }
}

/// What the outcome of a deletion means: as [`reply_of`] says, but that an
/// answer of success needs no body.
pub open spec fn deletion_reply(outcome: TransportOutcome) -> Result<(), ConnectorErrorView> {
    match outcome {
        TransportOutcome::SendFailed => Err(ConnectorErrorView::RequestEncodingFailed),
        TransportOutcome::BodyUnreadable => Err(ConnectorErrorView::ResponseDeserializationFailed),
        TransportOutcome::Received(answer) => concluded(
            answer.status_code,
            answer.response@,
            Some(()),
            WaveErrorResponse::of_parsed(json_text_model(answer.response@)),
        ),
    }
}

/// What a lookup means for the existence of the merchant: it exists where
/// the lookup succeeded, it does not where a processing step failed, and
/// any other failure leaves the question open.
pub open spec fn existence_of<T>(lookup: Result<T, ConnectorErrorView>) -> Result<bool, ConnectorErrorView> {
    match lookup {
        Ok(_) => Ok(true),
        Err(ConnectorErrorView::ProcessingStepFailed(_)) => Ok(false),
        Err(e) => Err(e),
    }
}

/// An answer with a status outside 200 to 299 says, whatever its body
/// holds, that the merchant does not exist: every such answer is a failed
/// processing step.
pub proof fn lemma_failed_answer_means_absent<T>(
    outcome: TransportOutcome,
    read: spec_fn(JsonModel) -> Option<T>,
)
    requires
        outcome matches TransportOutcome::Received(answer) && !is_success_status(answer.status_code),
    ensures
        reply_of(outcome, read) matches Err(ConnectorErrorView::ProcessingStepFailed(Some(_))),
        existence_of(reply_of(outcome, read)) == Ok::<bool, ConnectorErrorView>(false),
{
}

fn service_headers(api_key: &str, with_payload: bool) -> (r: Vec<(String, String)>)
    ensures
        r.deep_view() == if with_payload {
            seq![authorization_header(api_key@), json_content_type_header()]
        } else {
            seq![authorization_header(api_key@)]
        },
{
    let mut headers: Vec<(String, String)> = Vec::new();
    headers.push(bearer_header(api_key));
    if with_payload {
        headers.push(("Content-Type".to_owned(), "application/json".to_owned()));
    }
    headers
}

fn merchant_address(base_url: &str, merchant_id: &str) -> (r: String)
    ensures
        r@ == merchant_url(base_url@, merchant_id@),
{
    concat2(base_url, AGGREGATED_MERCHANTS_PATH).concat("/").concat(merchant_id)
}

fn malformed_id() -> (r: ConnectorError)
    ensures
        r@ == malformed_id_error(),
{
    ConnectorError::InvalidConnectorConfig {
        config: "Invalid aggregated merchant ID format".to_owned(),
    }
}

/// The remote service for aggregated merchants.
#[derive(Debug, Clone, Copy)]
pub struct WaveAggregatedMerchantService;

impl WaveAggregatedMerchantService {
    /// Prepares the creation of a merchant; see [`creation_call`].
    pub fn create_aggregated_merchant(
        api_key: &str,
        base_url: &str,
        request: WaveAggregatedMerchantRequest,
    ) -> (r: Result<Request, ConnectorError>)
        ensures
            prepared(r) == creation_call(api_key@, base_url@, request@),
    {
        match find_request_violation(&request) {
            Some(details) => Err(
                ConnectorError::ProcessingStepFailed(
                    Some(WaveAggregatedMerchantError::invalid_configuration(details).to_string()),
                ),
            ),
            None => Ok(
                Request {
                    method: Method::Post,
                    url: concat2(base_url, AGGREGATED_MERCHANTS_PATH),
                    headers: service_headers(api_key, true),
                    body: Some(RequestContent::CreateMerchant(request)),
                },
            ),
        }
    }

    /// Prepares the listing of merchants; see [`list_call`]. This never
    /// fails.
    pub fn list_aggregated_merchants(
        api_key: &str,
        base_url: &str,
        limit: Option<u32>,
        cursor: Option<String>,
    ) -> (r: Result<Request, ConnectorError>)
        ensures
            prepared(r) == Ok::<RequestView, ConnectorErrorView>(
                list_call(api_key@, base_url@, limit, opt_text(cursor)),
            ),
    {
        let mut url = concat2(base_url, AGGREGATED_MERCHANTS_PATH);
        let mut query_params: Vec<String> = Vec::new();
        match limit {
            Some(limit_value) => {
                query_params.push(concat2("limit=", u64_to_string(limit_value as u64).as_str()));
            },
            None => {},
        }
        match &cursor {
            Some(cursor_value) => {
                query_params.push(concat2("cursor=", cursor_value.as_str()));
            },
            None => {},
        }
        if query_params.len() > 0 {
            url = url.concat("?").concat(query_params[0].as_str());
            if query_params.len() > 1 {
                url = url.concat("&").concat(query_params[1].as_str());
            }
        }
        proof {
            reveal_strlit("");
            assert(url@ =~= merchants_url(base_url@) + list_query(limit, opt_text(cursor)));
        }
        Ok(
            Request {
                method: Method::Get,
                url,
                headers: service_headers(api_key, false),
                body: None,
            },
        )
    }

    /// Prepares the lookup of a merchant; see [`lookup_call`].
    pub fn get_aggregated_merchant(api_key: &str, base_url: &str, merchant_id: &str) -> (r: Result<
        Request,
        ConnectorError,
    >)
        ensures
            prepared(r) == lookup_call(api_key@, base_url@, merchant_id@),
    {
        if !is_valid_merchant_id(merchant_id) {
            return Err(malformed_id());
        }
        Ok(
            Request {
                method: Method::Get,
                url: merchant_address(base_url, merchant_id),
                headers: service_headers(api_key, false),
                body: None,
            },
        )
    }

    /// Prepares the change of a merchant; see [`update_call`].
    pub fn update_aggregated_merchant(
        api_key: &str,
        base_url: &str,
        merchant_id: &str,
        request: WaveAggregatedMerchantUpdateRequest,
    ) -> (r: Result<Request, ConnectorError>)
        ensures
            prepared(r) == update_call(api_key@, base_url@, merchant_id@, request@),
    {
        if !is_valid_merchant_id(merchant_id) {
            return Err(malformed_id());
        }
        match find_update_violation(&request) {
            Some(details) => Err(ConnectorError::InvalidConnectorConfig { config: details.to_owned() }),
            None => Ok(
                Request {
                    method: Method::Put,
                    url: merchant_address(base_url, merchant_id),
                    headers: service_headers(api_key, true),
                    body: Some(RequestContent::UpdateMerchant(request)),
                },
            ),
        }
    }

    /// Prepares the deletion of a merchant; see [`deletion_call`].
    pub fn delete_aggregated_merchant(api_key: &str, base_url: &str, merchant_id: &str) -> (r:
        Result<Request, ConnectorError>)
        ensures
            prepared(r) == deletion_call(api_key@, base_url@, merchant_id@),
    {
        if !is_valid_merchant_id(merchant_id) {
            return Err(malformed_id());
        }
        Ok(
            Request {
                method: Method::Delete,
                url: merchant_address(base_url, merchant_id),
                headers: service_headers(api_key, false),
                body: None,
            },
        )
    }

    /// Prepares one lookup for each id, in order. Each id is looked up on
    /// its own: a malformed id yields its error at its place and leaves the
    /// other lookups as they are. This never fails as a whole.
    pub fn get_multiple_aggregated_merchants(
        api_key: &str,
        base_url: &str,
        merchant_ids: &[String],
    ) -> (r: Result<Vec<(String, Result<Request, ConnectorError>)>, ConnectorError>)
        ensures
            r matches Ok(lookups) && lookups@.len() == merchant_ids@.len() && forall|i: int|
                0 <= i < lookups@.len() ==> (#[trigger] lookups@[i]).0@ == merchant_ids@[i]@
                    && prepared(lookups@[i].1) == lookup_call(api_key@, base_url@, merchant_ids@[i]@),
    {
        let mut results: Vec<(String, Result<Request, ConnectorError>)> = Vec::new();
        let mut i: usize = 0;
        while i < merchant_ids.len()
            invariant
                i <= merchant_ids@.len(),
                results@.len() == i,
                forall|j: int|
                    0 <= j < i ==> (#[trigger] results@[j]).0@ == merchant_ids@[j]@ && prepared(
                        results@[j].1,
                    ) == lookup_call(api_key@, base_url@, merchant_ids@[j]@),
            decreases merchant_ids@.len() - i,
        {
            let merchant_id = &merchant_ids[i];
            let lookup = Self::get_aggregated_merchant(api_key, base_url, merchant_id.as_str());
            results.push((merchant_id.clone(), lookup));
            i = i + 1;
        }
        Ok(results)
    }

    /// Decides what an answer means, given what its body holds as a payload
    /// and as an error; see [`concluded`].
    pub fn conclude<T>(
        status_code: u16,
        body: &str,
        payload: Option<T>,
        error: Option<WaveErrorResponse>,
    ) -> (r: Result<T, ConnectorError>)
        ensures
            match r {
                Ok(value) => concluded(status_code, body@, payload, error.deep_view()) == Ok::<
                    T,
                    ConnectorErrorView,
                >(value),
                Err(e) => concluded(status_code, body@, payload, error.deep_view()) == Err::<
                    T,
                    ConnectorErrorView,
                >(e@),
            },
    {
        if is_success(status_code) {
            match payload {
                Some(value) => Ok(value),
                None => Err(ConnectorError::ResponseDeserializationFailed),
            }
        } else {
            Err(remote_failure_from(status_code, body, error))
        }
    }

    /// Reads the outcome of a creation, a lookup or an update: the
    /// merchant that the gateway reports, or the failure.
    pub fn read_merchant(outcome: &TransportOutcome) -> (r: Result<
        WaveAggregatedMerchant,
        ConnectorError,
    >)
        ensures
            match r {
                Ok(merchant) => reply_of(
                    *outcome,
                    |m: JsonModel| WaveAggregatedMerchant::decode(m),
                ) == Ok::<WaveAggregatedMerchantView, ConnectorErrorView>(merchant@),
                Err(e) => reply_of(*outcome, |m: JsonModel| WaveAggregatedMerchant::decode(m))
                    == Err::<WaveAggregatedMerchantView, ConnectorErrorView>(e@),
            },
    {
        match outcome {
            TransportOutcome::SendFailed => Err(ConnectorError::RequestEncodingFailed),
            TransportOutcome::BodyUnreadable => Err(ConnectorError::ResponseDeserializationFailed),
            TransportOutcome::Received(answer) => {
                let body = answer.response.as_str();
                if is_success(answer.status_code) {
                    let merchant = match json_from_str(body) {
                        Some(v) => WaveAggregatedMerchant::from_json(&v),
                        None => None,
                    };
                    Self::conclude(answer.status_code, body, merchant, None)
                } else {
                    Self::conclude(answer.status_code, body, None, WaveErrorResponse::parse(body))
                }
            },
        }
    }

    /// Reads the outcome of a listing: the page that the gateway reports,
    /// or the failure.
    pub fn read_merchant_list(outcome: &TransportOutcome) -> (r: Result<
        WaveAggregatedMerchantListResponse,
        ConnectorError,
    >)
        ensures
            match r {
                Ok(page) => reply_of(
                    *outcome,
                    |m: JsonModel| WaveAggregatedMerchantListResponse::decode(m),
                ) == Ok::<WaveAggregatedMerchantListResponseView, ConnectorErrorView>(page@),
                Err(e) => reply_of(
                    *outcome,
                    |m: JsonModel| WaveAggregatedMerchantListResponse::decode(m),
                ) == Err::<WaveAggregatedMerchantListResponseView, ConnectorErrorView>(e@),
            },
    {
        match outcome {
            TransportOutcome::SendFailed => Err(ConnectorError::RequestEncodingFailed),
            TransportOutcome::BodyUnreadable => Err(ConnectorError::ResponseDeserializationFailed),
            TransportOutcome::Received(answer) => {
                let body = answer.response.as_str();
                if is_success(answer.status_code) {
                    let page = match json_from_str(body) {
                        Some(v) => WaveAggregatedMerchantListResponse::from_json(&v),
                        None => None,
                    };
                    Self::conclude(answer.status_code, body, page, None)
                } else {
                    Self::conclude(answer.status_code, body, None, WaveErrorResponse::parse(body))
                }
            },
        }
    }

    /// Reads the outcome of a deletion; see [`deletion_reply`].
    pub fn read_deletion(outcome: &TransportOutcome) -> (r: Result<(), ConnectorError>)
        ensures
            match r {
                Ok(_) => deletion_reply(*outcome) == Ok::<(), ConnectorErrorView>(()),
                Err(e) => deletion_reply(*outcome) == Err::<(), ConnectorErrorView>(e@),
            },
    {
        match outcome {
            TransportOutcome::SendFailed => Err(ConnectorError::RequestEncodingFailed),
            TransportOutcome::BodyUnreadable => Err(ConnectorError::ResponseDeserializationFailed),
            TransportOutcome::Received(answer) => {
                let body = answer.response.as_str();
                if is_success(answer.status_code) {
                    Ok(())
                } else {
                    Self::conclude(answer.status_code, body, None, WaveErrorResponse::parse(body))
                }
            },
        }
    }

    /// Decides from a lookup whether the merchant exists; see
    /// [`existence_of`].
    pub fn merchant_exists(lookup: Result<WaveAggregatedMerchant, ConnectorError>) -> (r: Result<
        bool,
        ConnectorError,
    >)
        ensures
            match r {
                Ok(exists) => existence_of(
                    match lookup {
                        Ok(m) => Ok(m@),
                        Err(e) => Err(e@),
                    },
                ) == Ok::<bool, ConnectorErrorView>(exists),
                Err(e) => existence_of(
                    match lookup {
                        Ok(m) => Ok::<WaveAggregatedMerchantView, ConnectorErrorView>(m@),
                        Err(e) => Err(e@),
                    },
                ) == Err::<bool, ConnectorErrorView>(e@),
            },
    {
        match lookup {
            Ok(_) => Ok(true),
            Err(ConnectorError::ProcessingStepFailed(_)) => Ok(false),
            Err(e) => Err(e),
        }
    }
}

} // verus!
