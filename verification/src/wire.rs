//! The wire side of the gateway: the request and response record types, the
//! exact JSON bodies the gateway sends (reproduced character for character),
//! and the plan — method, URL, headers, body — of each outbound operation.
//! An unverified shell executes a plan over its transport and hands the
//! response bytes back for interpretation.

use vstd::prelude::*;
use vstd::string::*;

use crate::strfmt::json_escape;
use crate::strfmt::json_escaped;

verus! {

/// Declares serde_json's JSON document type so that responses can carry
/// their uninterpreted `meta` / `result` sections through the library. The
/// library never looks inside such a value.
#[verifier::external_type_specification]
#[verifier::external_body]
pub struct ExValue(serde_json::Value);

/// Relies on uuid's Uuid::new_v4 and its default hyphenated rendering: a
/// fresh random identifier, 36 characters long. Two calls may return
/// different values; nothing more is assumed.
#[verifier::external_body]
fn new_request_id() -> (r: String)
    ensures
        r@.len() == 36,
{
    uuid::Uuid::new_v4().to_string()
}

/// A notification target of a new submission request.
pub struct NewSubmissionRequestNotification {
    pub channel: String,
    pub target: String,
}

/// The body of a submission creation request.
pub struct NewSubmissionRequest {
    pub notifications: Vec<NewSubmissionRequestNotification>,
    pub sha256: String,
    pub submission_name: String,
}

/// The temporary object-storage credentials a submission creation returns;
/// the caller uses them to upload the artifact directly.
pub struct NewSubmissionResponseDataAttributes {
    pub aws_access_key_id: String,
    pub aws_secret_access_key: String,
    pub aws_session_token: String,
    pub bucket: String,
    pub object: String,
}

/// The data envelope of a submission creation response.
pub struct NewSubmissionResponseData {
    pub attributes: NewSubmissionResponseDataAttributes,
    pub id: String,
    pub type_: String,
}

/// A submission creation response.
pub struct NewSubmissionResponse {
    pub data: NewSubmissionResponseData,
    pub meta: serde_json::Value,
}

/// The attributes of a submission log response.
pub struct SubmissionLogResponseDataAttributes {
    pub developer_log_url: String,
}

/// The data envelope of a submission log response.
pub struct SubmissionLogResponseData {
    pub attributes: SubmissionLogResponseDataAttributes,
    pub id: String,
    pub type_: String,
}

/// A submission log response: it names the URL at which the log document
/// itself is fetched, unauthenticated, in a second step.
pub struct SubmissionLogResponse {
    pub data: SubmissionLogResponseData,
    pub meta: serde_json::Value,
}

/// One issue attached to a completed notarization job.
pub struct Issue {
    pub architecture: String,
    pub code: Option<u64>,
    pub doc_url: Option<String>,
    pub message: String,
    pub path: String,
    pub severity: String,
}

/// One entry of a notarization ticket.
pub struct TicketContent {
    pub arch: String,
    pub cdhash: String,
    pub digest_algorithm: String,
    pub path: String,
}

/// The decoded notarization log document.
pub struct NotarizationLogs {
    pub archive_filename: String,
    pub issues: Vec<Issue>,
    pub job_id: String,
    pub log_format_version: u64,
    pub sha256: String,
    pub status: crate::status::SubmissionResponseStatus,
    pub status_code: u64,
    pub status_summary: String,
    pub ticket_contents: Vec<TicketContent>,
    pub upload_date: String,
}

/// The parameters of the legacy lookup call.
pub struct DevIdPlusInfoRequest {
    pub application: String,
    pub application_bundle_id: String,
    pub ds_plist: String,
    pub request_uuid: String,
}

/// A JSON-RPC v2 request envelope.
pub struct JsonRpcRequest {
    pub id: String,
    pub json_rpc: String,
    pub method: String,
    pub params: serde_json::Value,
}

/// A JSON-RPC v2 response envelope; the inner document sits under `result`.
pub struct JsonRpcResponse {
    pub id: String,
    pub result: serde_json::Value,
}

/// The HTTP method of a planned request.
#[derive(Clone, Copy, Debug, PartialEq, Eq, Structural)]
pub enum HttpMethod {
    Get,
    Post,
}

/// One outbound request, fully determined: the transport shell executes it
/// verbatim. `accept_json` and `content_type_json` stand for the two JSON
/// content-negotiation headers; `bearer_token` for the authorization header.
pub struct HttpPlan {
    pub method: HttpMethod,
    pub url: String,
    pub bearer_token: Option<String>,
    pub accept_json: bool,
    pub content_type_json: bool,
    pub body: Option<String>,
}

/// The submission endpoint.
pub open spec fn spec_submissions_url() -> Seq<char> {
    "https://appstoreconnect.apple.com/notary/v2/submissions"@
}

/// The legacy JSON-RPC endpoint.
pub open spec fn spec_producer_service_url() -> Seq<char> {
    "https://contentdelivery.itunes.apple.com/WebObjects/MZLabelService.woa/json/MZITunesProducerService"@
}

/// One notification object, as it appears on the wire.
pub open spec fn spec_notification_json(n: NewSubmissionRequestNotification) -> Seq<char> {
    "{\"channel\":\""@ + json_escaped(n.channel@) + "\",\"target\":\""@ + json_escaped(n.target@)
        + "\"}"@
}

/// A comma-separated run of notification objects.
pub open spec fn spec_notifications_json(ns: Seq<NewSubmissionRequestNotification>) -> Seq<char>
    decreases ns.len(),
{
    if ns.len() == 0 {
        Seq::<char>::empty()
    } else if ns.len() == 1 {
        spec_notification_json(ns[0])
    } else {
        spec_notifications_json(ns.drop_last()) + ","@ + spec_notification_json(ns.last())
    }
}

/// The exact body of a submission creation request.
pub open spec fn spec_new_submission_body(
    ns: Seq<NewSubmissionRequestNotification>,
    sha256: Seq<char>,
    name: Seq<char>,
) -> Seq<char> {
    "{\"notifications\":["@ + spec_notifications_json(ns) + "],\"sha256\":\""@ + json_escaped(
        sha256,
    ) + "\",\"submissionName\":\""@ + json_escaped(name) + "\"}"@
}

/// The exact rendering of the legacy lookup parameters.
pub open spec fn spec_dev_id_plus_params_json(
    application: Seq<char>,
    application_bundle_id: Seq<char>,
    ds_plist: Seq<char>,
    request_uuid: Seq<char>,
) -> Seq<char> {
    "{\"Application\":\""@ + json_escaped(application) + "\",\"ApplicationBundleId\":\""@
        + json_escaped(application_bundle_id) + "\",\"DS_PLIST\":\""@ + json_escaped(ds_plist)
        + "\",\"RequestUUID\":\""@ + json_escaped(request_uuid) + "\"}"@
}

/// The exact JSON-RPC v2 envelope of the legacy lookup call, around an
/// already-rendered parameter object.
pub open spec fn spec_json_rpc_body(rpc_id: Seq<char>, params_json: Seq<char>) -> Seq<char> {
    "{\"id\":\""@ + json_escaped(rpc_id)
        + "\",\"jsonrpc\":\"2.0\",\"method\":\"developerIDPlusInfoForPackageWithArguments\",\"params\":"@
        + params_json + "}"@
}

/// The value of the authorization header carrying a bearer token.
pub open spec fn spec_bearer_header_value(token: Seq<char>) -> Seq<char> {
    "Bearer "@ + token
}

/// Renders the authorization header value for a bearer token.
pub fn bearer_header_value(token: &str) -> (s: String)
    ensures
        s@ == spec_bearer_header_value(token@),
{
    let mut s = String::from_str("Bearer ");
    s.append(token);
    s
}

/// Renders a submission creation request body, character for character.
pub fn encode_new_submission_request(req: &NewSubmissionRequest) -> (s: String)
    ensures
        s@ == spec_new_submission_body(req.notifications@, req.sha256@, req.submission_name@),
{
    let mut s = String::from_str("{\"notifications\":[");
    let n = req.notifications.len();
    let mut i: usize = 0;
    while i < n
        invariant
            i <= n,
            n == req.notifications@.len(),
            s@ == "{\"notifications\":["@ + spec_notifications_json(req.notifications@.take(
                i as int,
            )),
        decreases n - i,
    {
        if i > 0 {
            s.append(",");
        }
        s.append("{\"channel\":\"");
        let channel = json_escape(req.notifications[i].channel.as_str());
        s.append(channel.as_str());
        s.append("\",\"target\":\"");
        let target = json_escape(req.notifications[i].target.as_str());
        s.append(target.as_str());
        s.append("\"}");
        proof {
            assert(req.notifications@.take(i + 1 as int).drop_last() =~= req.notifications@.take(
                i as int,
            ));
            assert(req.notifications@.take(i + 1 as int).last() == req.notifications@[i as int]);
            assert(s@ =~= "{\"notifications\":["@ + spec_notifications_json(
                req.notifications@.take(i + 1 as int),
            ));
        }
        i += 1;
    }
    proof {
        assert(req.notifications@.take(n as int) =~= req.notifications@);
    }
    s.append("],\"sha256\":\"");
    let sha = json_escape(req.sha256.as_str());
    s.append(sha.as_str());
    s.append("\",\"submissionName\":\"");
    let name = json_escape(req.submission_name.as_str());
    s.append(name.as_str());
    s.append("\"}");
    proof {
        assert(s@ =~= spec_new_submission_body(
            req.notifications@,
            req.sha256@,
            req.submission_name@,
        ));
    }
    s
}

/// Renders the legacy lookup parameters, character for character.
pub fn encode_dev_id_plus_request(req: &DevIdPlusInfoRequest) -> (s: String)
    ensures
        s@ == spec_dev_id_plus_params_json(
            req.application@,
            req.application_bundle_id@,
            req.ds_plist@,
            req.request_uuid@,
        ),
{
    let mut s = String::from_str("{\"Application\":\"");
    let application = json_escape(req.application.as_str());
    s.append(application.as_str());
    s.append("\",\"ApplicationBundleId\":\"");
    let bundle = json_escape(req.application_bundle_id.as_str());
    s.append(bundle.as_str());
    s.append("\",\"DS_PLIST\":\"");
    let plist = json_escape(req.ds_plist.as_str());
    s.append(plist.as_str());
    s.append("\",\"RequestUUID\":\"");
    let uuid_part = json_escape(req.request_uuid.as_str());
    s.append(uuid_part.as_str());
    s.append("\"}");
    proof {
        assert(s@ =~= spec_dev_id_plus_params_json(
            req.application@,
            req.application_bundle_id@,
            req.ds_plist@,
            req.request_uuid@,
        ));
    }
    s
}

/// The plan of a submission creation call: an authenticated JSON POST of the
/// request body to the submission endpoint, with no notification targets.
pub fn create_submission_plan(token: &str, sha256: &str, submission_name: &str) -> (p: HttpPlan)
    ensures
        p.method == HttpMethod::Post,
        p.url@ == spec_submissions_url(),
        p.bearer_token matches Some(t) && t@ == token@,
        p.accept_json,
        p.content_type_json,
        p.body matches Some(b) && b@ == spec_new_submission_body(
            Seq::<NewSubmissionRequestNotification>::empty(),
            sha256@,
            submission_name@,
        ),
{
    let req = NewSubmissionRequest {
        notifications: Vec::new(),
        sha256: String::from_str(sha256),
        submission_name: String::from_str(submission_name),
    };
    let body = encode_new_submission_request(&req);
    HttpPlan {
        method: HttpMethod::Post,
        url: String::from_str("https://appstoreconnect.apple.com/notary/v2/submissions"),
        bearer_token: Some(String::from_str(token)),
        accept_json: true,
        content_type_json: true,
        body: Some(body),
    }
}

/// The plan of a submission status call: an authenticated GET of the
/// submission's resource.
pub fn get_submission_plan(token: &str, submission_id: &str) -> (p: HttpPlan)
    ensures
        p.method == HttpMethod::Get,
        p.url@ == spec_submissions_url() + "/"@ + submission_id@,
        p.bearer_token matches Some(t) && t@ == token@,
        p.accept_json,
        !p.content_type_json,
        p.body is None,
{
    let mut url = String::from_str("https://appstoreconnect.apple.com/notary/v2/submissions");
    url.append("/");
    url.append(submission_id);
    HttpPlan {
        method: HttpMethod::Get,
        url,
        bearer_token: Some(String::from_str(token)),
        accept_json: true,
        content_type_json: false,
        body: None,
    }
}

/// The plan of the first step of a log fetch: an authenticated GET of the
/// submission's log-location resource.
pub fn get_submission_log_plan(token: &str, submission_id: &str) -> (p: HttpPlan)
    ensures
        p.method == HttpMethod::Get,
        p.url@ == spec_submissions_url() + "/"@ + submission_id@ + "/logs"@,
        p.bearer_token matches Some(t) && t@ == token@,
        p.accept_json,
        !p.content_type_json,
        p.body is None,
{
    let mut url = String::from_str("https://appstoreconnect.apple.com/notary/v2/submissions");
    url.append("/");
    url.append(submission_id);
    url.append("/logs");
    HttpPlan {
        method: HttpMethod::Get,
        url,
        bearer_token: Some(String::from_str(token)),
        accept_json: true,
        content_type_json: false,
        body: None,
    }
}

/// The plan of the second step of a log fetch: a plain unauthenticated GET of
/// the URL the first step named (a different host; no headers attached).
pub fn fetch_log_document_plan(developer_log_url: &str) -> (p: HttpPlan)
    ensures
        p.method == HttpMethod::Get,
        p.url@ == developer_log_url@,
        p.bearer_token is None,
        !p.accept_json,
        !p.content_type_json,
        p.body is None,
{
    HttpPlan {
        method: HttpMethod::Get,
        url: String::from_str(developer_log_url),
        bearer_token: None,
        accept_json: false,
        content_type_json: false,
        body: None,
    }
}

/// The plan of a legacy lookup: an authenticated JSON POST of a JSON-RPC v2
/// envelope around the fixed lookup parameters for `request_uuid`, under the
/// given envelope identifier.
pub fn legacy_lookup_plan(token: &str, rpc_id: &str, request_uuid: &str) -> (p: HttpPlan)
    ensures
        p.method == HttpMethod::Post,
        p.url@ == spec_producer_service_url(),
        p.bearer_token matches Some(t) && t@ == token@,
        p.accept_json,
        p.content_type_json,
        p.body matches Some(b) && b@ == spec_json_rpc_body(
            rpc_id@,
            spec_dev_id_plus_params_json(
                "apple-codesign"@,
                "com.gregoryszorc.rcs"@,
                ""@,
                request_uuid@,
            ),
        ),
{
    let params = DevIdPlusInfoRequest {
        application: String::from_str("apple-codesign"),
        application_bundle_id: String::from_str("com.gregoryszorc.rcs"),
        ds_plist: String::from_str(""),
        request_uuid: String::from_str(request_uuid),
    };
    let params_json = encode_dev_id_plus_request(&params);
    let mut body = String::from_str("{\"id\":\"");
    let id_part = json_escape(rpc_id);
    body.append(id_part.as_str());
    body.append(
        "\",\"jsonrpc\":\"2.0\",\"method\":\"developerIDPlusInfoForPackageWithArguments\",\"params\":",
    );
    body.append(params_json.as_str());
    body.append("}");
    proof {
        assert(body@ =~= spec_json_rpc_body(
            rpc_id@,
            spec_dev_id_plus_params_json(
                "apple-codesign"@,
                "com.gregoryszorc.rcs"@,
                ""@,
                request_uuid@,
            ),
        ));
    }
    HttpPlan {
        method: HttpMethod::Post,
        url: String::from_str(
            "https://contentdelivery.itunes.apple.com/WebObjects/MZLabelService.woa/json/MZITunesProducerService",
        ),
        bearer_token: Some(String::from_str(token)),
        accept_json: true,
        content_type_json: true,
        body: Some(body),
    }
}

/// The plan of a legacy lookup under a freshly generated envelope identifier,
/// which is returned alongside the plan.
pub fn legacy_lookup_plan_fresh(token: &str, request_uuid: &str) -> (r: (String, HttpPlan))
    ensures
        r.1.method == HttpMethod::Post,
        r.1.url@ == spec_producer_service_url(),
        r.1.bearer_token matches Some(t) && t@ == token@,
        r.1.accept_json,
        r.1.content_type_json,
        r.1.body matches Some(b) && b@ == spec_json_rpc_body(
            r.0@,
            spec_dev_id_plus_params_json(
                "apple-codesign"@,
                "com.gregoryszorc.rcs"@,
                ""@,
                request_uuid@,
            ),
        ),
        r.0@.len() == 36,
{
    let rpc_id = new_request_id();
    let plan = legacy_lookup_plan(token, rpc_id.as_str(), request_uuid);
    (rpc_id, plan)
}

} // verus!
