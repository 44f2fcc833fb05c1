//! The SMS client: what it sends, how a request is signed and made ready for
//! the wire, and what comes back.

use crate::client_profile::{ClientProfile, ClientProfileView};
use crate::context::{SignatureContext, SignatureContextView};
use crate::credentials::{Credential, CredentialView};
use crate::digest::sha256_hex;
use crate::dispatch::{PreparedRequest, PreparedRequestView, RequestHeaders, RequestHeadersView};
use crate::http_profile::{content_type, content_type_text, is_post_method};
use crate::signing::{
    authorization_header, authorization_header_text, canonical_request_for, canonical_request_of,
    chain_step_bytes, credential_scope, credential_scope_text, hash_text,
    lemma_code_shows_in_signature, lemma_payload_field_shows_in_request,
    lemma_request_digest_shows_in_string_to_sign, lemma_signature_shows_in_header, signature,
    signature_text, signing_key_bytes, string_to_sign, string_to_sign_text, text_digest,
};
use crate::text::{decimal, decimal_text, hex_lower};
use vstd::prelude::*;

verus! {

/// The version of the SMS API that requests name.
pub const API_VERSION: &'static str = "2021-01-11";

/// The domain under which every service has its endpoint.
pub const ROOT_DOMAIN: &'static str = "tencentcloudapi.com";

/// The endpoint of a service: its name, a dot and the root domain.
pub open spec fn endpoint_text(service: Seq<char>) -> Seq<char> {
    service + "."@ + "tencentcloudapi.com"@
}

/// The parameters of the `SendSms` action.
#[derive(Clone, Debug)]
pub struct SmsRequestParams {
    pub phone_number_set: Vec<String>,
    pub sms_sdk_app_id: String,
    pub template_id: String,
    pub sign_name: String,
    pub template_param_set: Vec<String>,
}

/// What [`SmsRequestParams`] hold, as mathematical values.
pub struct SmsRequestParamsView {
    pub phone_number_set: Seq<Seq<char>>,
    pub sms_sdk_app_id: Seq<char>,
    pub template_id: Seq<char>,
    pub sign_name: Seq<char>,
    pub template_param_set: Seq<Seq<char>>,
}

impl View for SmsRequestParams {
    type V = SmsRequestParamsView;

    open spec fn view(&self) -> SmsRequestParamsView {
        SmsRequestParamsView {
            phone_number_set: self.phone_number_set.deep_view(),
            sms_sdk_app_id: self.sms_sdk_app_id@,
            template_id: self.template_id@,
            sign_name: self.sign_name@,
            template_param_set: self.template_param_set.deep_view(),
        }
    }
}

impl Default for SmsRequestParams {
    /// No phone numbers, no template parameters and empty names.
    fn default() -> (params: Self)
        ensures
            params@ == SmsRequestParams::empty_view(),
    {
        let params = SmsRequestParams {
            phone_number_set: Vec::new(),
            sms_sdk_app_id: String::new(),
            template_id: String::new(),
            sign_name: String::new(),
            template_param_set: Vec::new(),
        };
        assert(params.template_param_set.deep_view() =~= Seq::<Seq<char>>::empty());
        params
    }
}

impl SmsRequestParams {
    /// The model of parameters that name nothing.
    pub open spec fn empty_view() -> SmsRequestParamsView {
        SmsRequestParamsView {
            phone_number_set: Seq::empty(),
            sms_sdk_app_id: Seq::empty(),
            template_id: Seq::empty(),
            sign_name: Seq::empty(),
            template_param_set: Seq::empty(),
        }
    }
}

/// One call of the `SendSms` action: where it goes and what it carries.
#[derive(Clone, Debug)]
pub struct SendSmsRequest {
    pub service: String,
    pub version: String,
    pub action: String,
    pub domain: String,
    pub path: String,
    pub params: SmsRequestParams,
}

/// What a [`SendSmsRequest`] holds, as mathematical values.
pub struct SendSmsRequestView {
    pub service: Seq<char>,
    pub version: Seq<char>,
    pub action: Seq<char>,
    pub domain: Seq<char>,
    pub path: Seq<char>,
    pub params: SmsRequestParamsView,
}

impl View for SendSmsRequest {
    type V = SendSmsRequestView;

    open spec fn view(&self) -> SendSmsRequestView {
        SendSmsRequestView {
            service: self.service@,
            version: self.version@,
            action: self.action@,
            domain: self.domain@,
            path: self.path@,
            params: self.params@,
        }
    }
}

impl SendSmsRequest {
    /// The model of a `SendSms` request with the given parameters: service
    /// `sms`, the current API version, the service's endpoint and the path `/`.
    pub open spec fn send_sms_view(params: SmsRequestParamsView) -> SendSmsRequestView {
        SendSmsRequestView {
            service: "sms"@,
            version: "2021-01-11"@,
            action: "SendSms"@,
            domain: endpoint_text("sms"@),
            path: "/"@,
            params,
        }
    }

    /// A `SendSms` request to the given phone numbers, with the given
    /// application, template, signature name and template parameters.
    pub fn new(
        phone_number_set: Vec<String>,
        sms_sdk_app_id: &str,
        template_id: &str,
        sign_name: &str,
        template_param_set: Vec<String>,
    ) -> (request: Self)
        ensures
            request@ == Self::send_sms_view(
                SmsRequestParamsView {
                    phone_number_set: phone_number_set.deep_view(),
                    sms_sdk_app_id: sms_sdk_app_id@,
                    template_id: template_id@,
                    sign_name: sign_name@,
                    template_param_set: template_param_set.deep_view(),
                },
            ),
    {
        let mut domain = "sms".to_owned();
        domain.append(".");
        domain.append(ROOT_DOMAIN);
        SendSmsRequest {
            service: "sms".to_owned(),
            version: API_VERSION.to_owned(),
            action: "SendSms".to_owned(),
            domain,
            path: "/".to_owned(),
            params: SmsRequestParams {
                phone_number_set,
                sms_sdk_app_id: sms_sdk_app_id.to_owned(),
                template_id: template_id.to_owned(),
                sign_name: sign_name.to_owned(),
                template_param_set,
            },
        }
    }
}

impl Default for SendSmsRequest {
    /// A `SendSms` request that names no phone number yet.
    fn default() -> (request: Self)
        ensures
            request@ == Self::send_sms_view(SmsRequestParams::empty_view()),
    {
        let mut domain = "sms".to_owned();
        domain.append(".");
        domain.append(ROOT_DOMAIN);
        SendSmsRequest {
            service: "sms".to_owned(),
            version: API_VERSION.to_owned(),
            action: "SendSms".to_owned(),
            domain,
            path: "/".to_owned(),
            params: SmsRequestParams::default(),
        }
    }
}

/// A client of the SMS service in one region.
#[derive(Clone, Debug)]
pub struct Client {
    region: String,
    profile: ClientProfile,
    credential: Credential,
}

/// What a [`Client`] holds, as mathematical values.
pub struct ClientView {
    pub region: Seq<char>,
    pub profile: ClientProfileView,
    pub credential: CredentialView,
}

impl View for Client {
    type V = ClientView;

    closed spec fn view(&self) -> ClientView {
        ClientView { region: self.region@, profile: self.profile@, credential: self.credential@ }
    }
}

impl Default for Client {
    /// A client without region or keys, with the default profile.
    fn default() -> (client: Self)
        ensures
            client@ == (ClientView {
                region: Seq::empty(),
                profile: ClientProfile::default_view(),
                credential: CredentialView {
                    secret_id: Seq::empty(),
                    secret_key: Seq::empty(),
                    token: None,
                },
            }),
    {
        Client {
            region: String::new(),
            profile: ClientProfile::default(),
            credential: Credential::default(),
        }
    }
}

/// What signing leaves behind: the two intermediate texts and the header. The
/// secret key enters them through the signature alone.
#[derive(Clone, Debug)]
pub struct SigningRecord {
    pub canonical_request: String,
    pub string_to_sign: String,
    pub authorization: String,
}

impl Client {
    /// The HTTP method that the client signs for.
    pub open spec fn method_of(client: ClientView) -> Seq<char> {
        client.profile.http_profile.req_method
    }

    /// The canonical request of `request` with the body `body`.
    pub open spec fn spec_canonical_request(
        client: ClientView,
        request: SendSmsRequestView,
        body: Seq<u8>,
    ) -> Seq<char> {
        canonical_request_of(
            Self::method_of(client),
            content_type_text(Self::method_of(client)),
            request.domain,
            body,
        )
    }

    /// The string to sign for `request` at the time `context`.
    pub open spec fn spec_string_to_sign(
        client: ClientView,
        request: SendSmsRequestView,
        body: Seq<u8>,
        context: SignatureContextView,
    ) -> Seq<char> {
        string_to_sign_text(
            client.profile.sign_method,
            context.timestamp,
            credential_scope_text(context.date, request.service),
            text_digest(Self::spec_canonical_request(client, request, body)),
        )
    }

    /// The `Authorization` header for `request` at the time `context`.
    pub open spec fn spec_authorization(
        client: ClientView,
        request: SendSmsRequestView,
        body: Seq<u8>,
        context: SignatureContextView,
    ) -> Seq<char> {
        authorization_header_text(
            client.profile.sign_method,
            client.credential.secret_id,
            credential_scope_text(context.date, request.service),
            signature_text(
                client.credential.secret_key,
                context.date,
                request.service,
                Self::spec_string_to_sign(client, request, body, context),
            ),
        )
    }

    /// The value of the `X-TC-Timestamp` header at the time `context`.
    pub open spec fn spec_timestamp_header(context: SignatureContextView) -> Seq<char> {
        decimal_text(context.timestamp)
    }

    /// The address of `request`: scheme, `://`, host and path.
    pub open spec fn spec_url(client: ClientView, request: SendSmsRequestView) -> Seq<char> {
        client.profile.http_profile.scheme + "://"@ + request.domain + request.path
    }

    /// The request as it goes on the wire at the time `context`: the method
    /// and timeout of the profile, the address, the headers with the
    /// timestamp of `context` in decimal, and the texts that were signed.
    pub open spec fn spec_prepare(
        client: ClientView,
        request: SendSmsRequestView,
        body: Seq<u8>,
        context: SignatureContextView,
    ) -> PreparedRequestView {
        PreparedRequestView {
            method: Self::method_of(client),
            url: Self::spec_url(client, request),
            timeout_secs: client.profile.http_profile.req_timeout,
            headers: RequestHeadersView {
                action: request.action,
                region: client.region,
                timestamp: Self::spec_timestamp_header(context),
                version: request.version,
                language: client.profile.language,
                content_type: content_type_text(Self::method_of(client)),
                host: request.domain,
                authorization: Self::spec_authorization(client, request, body, context),
            },
            canonical_request: Self::spec_canonical_request(client, request, body),
            string_to_sign: Self::spec_string_to_sign(client, request, body, context),
        }
    }

    /// Within one prepared request the timestamp header and the string to
    /// sign read the same time: the second line of the string to sign is the
    /// text of the `X-TC-Timestamp` header.
    pub proof fn lemma_one_timestamp(
        client: ClientView,
        request: SendSmsRequestView,
        body: Seq<u8>,
        context: SignatureContextView,
    )
        ensures
            ({
                let prepared = Self::spec_prepare(client, request, body, context);
                prepared.string_to_sign == client.profile.sign_method + "\n"@
                    + prepared.headers.timestamp + "\n"@ + credential_scope_text(
                    context.date,
                    request.service,
                ) + "\n"@ + text_digest(prepared.canonical_request)
            }),
    {
    }

    /// A changed body shows in the `Authorization` header of a POST request,
    /// as long as no digest and no authentication code collides: the two
    /// bodies have different digests, the two canonical requests have
    /// different digests, and the two strings to sign have different codes
    /// under the signing key.
    pub proof fn lemma_body_shows_in_authorization(
        client: ClientView,
        request: SendSmsRequestView,
        body: Seq<u8>,
        other_body: Seq<u8>,
        context: SignatureContextView,
    )
        requires
            is_post_method(Self::method_of(client)),
            sha256_hex(body) != sha256_hex(other_body),
            text_digest(Self::spec_canonical_request(client, request, body)) != text_digest(
                Self::spec_canonical_request(client, request, other_body),
            ),
            chain_step_bytes(
                signing_key_bytes(client.credential.secret_key, context.date, request.service),
                Self::spec_string_to_sign(client, request, body, context),
            ) != chain_step_bytes(
                signing_key_bytes(client.credential.secret_key, context.date, request.service),
                Self::spec_string_to_sign(client, request, other_body, context),
            ),
        ensures
            Self::spec_canonical_request(client, request, body) != Self::spec_canonical_request(
                client,
                request,
                other_body,
            ),
            Self::spec_string_to_sign(client, request, body, context) != Self::spec_string_to_sign(
                client,
                request,
                other_body,
                context,
            ),
            Self::spec_authorization(client, request, body, context) != Self::spec_authorization(
                client,
                request,
                other_body,
                context,
            ),
    {
        let method = Self::method_of(client);
        let scope = credential_scope_text(context.date, request.service);
        let key = signing_key_bytes(client.credential.secret_key, context.date, request.service);
        let to_sign = Self::spec_string_to_sign(client, request, body, context);
        let other_to_sign = Self::spec_string_to_sign(client, request, other_body, context);
        lemma_payload_field_shows_in_request(
            method,
            content_type_text(method),
            request.domain,
            sha256_hex(body),
            sha256_hex(other_body),
        );
        lemma_request_digest_shows_in_string_to_sign(
            client.profile.sign_method,
            context.timestamp,
            scope,
            text_digest(Self::spec_canonical_request(client, request, body)),
            text_digest(Self::spec_canonical_request(client, request, other_body)),
        );
        lemma_code_shows_in_signature(
            chain_step_bytes(key, to_sign),
            chain_step_bytes(key, other_to_sign),
        );
        lemma_signature_shows_in_header(
            client.profile.sign_method,
            client.credential.secret_id,
            scope,
            hex_lower(chain_step_bytes(key, to_sign)),
            hex_lower(chain_step_bytes(key, other_to_sign)),
        );
    }

    /// A client for `region` with the default profile.
    pub fn new(credential: Credential, region: &str) -> (client: Self)
        ensures
            client@ == (ClientView {
                region: region@,
                profile: ClientProfile::default_view(),
                credential: credential@,
            }),
    {
        Client { region: region.to_owned(), profile: ClientProfile::default(), credential }
    }

    /// A client for `region` with the profile given.
    pub fn new_with_client_profile(
        credential: Credential,
        region: String,
        client_profile: ClientProfile,
    ) -> (client: Self)
        ensures
            client@ == (ClientView {
                region: region@,
                profile: client_profile@,
                credential: credential@,
            }),
    {
        Client { region, profile: client_profile, credential }
    }

    /// Whether the client was asked to show what it signs.
    pub fn debug(&self) -> (debug: bool)
        ensures
            debug == self@.profile.debug,
    {
        self.profile.debug
    }

    /// The `Content-Type` of the client's requests: form encoding for GET,
    /// JSON otherwise.
    pub fn get_content_type(&self) -> (value: String)
        ensures
            value@ == content_type_text(Self::method_of(self@)),
    {
        content_type(self.profile.http_profile.req_method.as_str())
    }

    /// Signs `request`, whose body is `body`, at the time `context`.
    ///
    /// The date of the credential scope and of the signing key and the
    /// timestamp of the string to sign are those of `context`.
    pub fn sign(&self, request: &SendSmsRequest, body: &[u8], context: &SignatureContext) -> (record:
        SigningRecord)
        ensures
            record.canonical_request@ == Self::spec_canonical_request(self@, request@, body@),
            record.string_to_sign@ == Self::spec_string_to_sign(self@, request@, body@, context@),
            record.authorization@ == Self::spec_authorization(self@, request@, body@, context@),
            SignatureContext::is_date_of(context@.date, context@.timestamp),
    {
        let method = self.profile.http_profile.req_method.as_str();
        let algorithm = self.profile.sign_method.as_str();
        let content_type = self.get_content_type();
        let canonical_request = canonical_request_for(
            method,
            content_type.as_str(),
            request.domain.as_str(),
            body,
        );
        let hashed_request = hash_text(canonical_request.as_str());

        let date = context.date();
        let scope = credential_scope(date, request.service.as_str());
        let string_to_sign = string_to_sign(
            algorithm,
            context.timestamp(),
            scope.as_str(),
            hashed_request.as_str(),
        );

        let signature = signature(
            self.credential.secret_key.as_str(),
            date,
            request.service.as_str(),
            string_to_sign.as_str(),
        );
        let authorization = authorization_header(
            algorithm,
            self.credential.secret_id.as_str(),
            scope.as_str(),
            signature.as_str(),
        );
        SigningRecord { canonical_request, string_to_sign, authorization }
    }

    /// The value of the `Authorization` header for `request` at the time
    /// `context`.
    pub fn authorization(
        &self,
        request: &SendSmsRequest,
        body: &[u8],
        context: &SignatureContext,
    ) -> (header: String)
        ensures
            header@ == Self::spec_authorization(self@, request@, body@, context@),
            SignatureContext::is_date_of(context@.date, context@.timestamp),
    {
        self.sign(request, body, context).authorization
    }

    /// Makes `request` ready to be sent at the time `context`.
    ///
    /// The `X-TC-Timestamp` header and the signature read the same timestamp,
    /// that of `context`, and the date of the signature is the UTC date of
    /// that timestamp.
    pub fn prepare(&self, request: &SendSmsRequest, body: &[u8], context: &SignatureContext) -> (prepared:
        PreparedRequest)
        ensures
            prepared@ == Self::spec_prepare(self@, request@, body@, context@),
            SignatureContext::is_date_of(context@.date, context@.timestamp),
    {
        let record = self.sign(request, body, context);
        let mut url = self.profile.http_profile.scheme.clone();
        url.append("://");
        url.append(request.domain.as_str());
        url.append(request.path.as_str());
        let headers = RequestHeaders {
            action: request.action.clone(),
            region: self.region.clone(),
            timestamp: decimal(context.timestamp()),
            version: request.version.clone(),
            language: self.profile.language.clone(),
            content_type: self.get_content_type(),
            host: request.domain.clone(),
            authorization: record.authorization,
        };
        PreparedRequest {
            method: self.profile.http_profile.req_method.clone(),
            url,
            timeout_secs: self.profile.http_profile.req_timeout,
            headers,
            canonical_request: record.canonical_request,
            string_to_sign: record.string_to_sign,
        }
    }
}

/// The error that the service reports in place of a result.
#[derive(Clone, Debug, PartialEq)]
pub struct Error {
    pub code: String,
    pub message: String,
}

/// What an [`Error`] holds, as mathematical values.
pub struct ErrorView {
    pub code: Seq<char>,
    pub message: Seq<char>,
}

impl View for Error {
    type V = ErrorView;

    open spec fn view(&self) -> ErrorView {
        ErrorView { code: self.code@, message: self.message@ }
    }
}

impl Default for Error {
    /// An error without code or message.
    fn default() -> (error: Self)
        ensures
            error@ == (ErrorView { code: Seq::empty(), message: Seq::empty() }),
    {
        Error { code: String::new(), message: String::new() }
    }
}

/// What became of the message to one phone number.
#[derive(Clone, Debug, PartialEq)]
pub struct SendStatusSet {
    pub serial_no: String,
    pub phone_number: String,
    pub fee: i64,
    pub session_context: String,
    pub code: String,
    pub message: String,
    pub iso_code: String,
}

/// What a [`SendStatusSet`] holds, as mathematical values.
pub struct SendStatusSetView {
    pub serial_no: Seq<char>,
    pub phone_number: Seq<char>,
    pub fee: int,
    pub session_context: Seq<char>,
    pub code: Seq<char>,
    pub message: Seq<char>,
    pub iso_code: Seq<char>,
}

impl View for SendStatusSet {
    type V = SendStatusSetView;

    open spec fn view(&self) -> SendStatusSetView {
        SendStatusSetView {
            serial_no: self.serial_no@,
            phone_number: self.phone_number@,
            fee: self.fee as int,
            session_context: self.session_context@,
            code: self.code@,
            message: self.message@,
            iso_code: self.iso_code@,
        }
    }
}

impl Default for SendStatusSet {
    /// A status with every text empty and no fee.
    fn default() -> (status: Self)
        ensures
            status@ == (SendStatusSetView {
                serial_no: Seq::empty(),
                phone_number: Seq::empty(),
                fee: 0,
                session_context: Seq::empty(),
                code: Seq::empty(),
                message: Seq::empty(),
                iso_code: Seq::empty(),
            }),
    {
        SendStatusSet {
            serial_no: String::new(),
            phone_number: String::new(),
            fee: 0,
            session_context: String::new(),
            code: String::new(),
            message: String::new(),
            iso_code: String::new(),
        }
    }
}

/// The body of a response: the request's id and either the statuses, one for
/// each phone number, or an error.
#[derive(Clone, Debug, PartialEq)]
pub struct Response {
    pub send_status_set: Option<Vec<SendStatusSet>>,
    pub request_id: String,
    pub error: Option<Error>,
}

/// What a [`Response`] holds, as mathematical values.
pub struct ResponseView {
    pub send_status_set: Option<Seq<SendStatusSetView>>,
    pub request_id: Seq<char>,
    pub error: Option<ErrorView>,
}

impl View for Response {
    type V = ResponseView;

    open spec fn view(&self) -> ResponseView {
        ResponseView {
            send_status_set: match self.send_status_set {
                Some(statuses) => Some(statuses@.map_values(|status: SendStatusSet| status@)),
                None => None,
            },
            request_id: self.request_id@,
            error: match self.error {
                Some(error) => Some(error@),
                None => None,
            },
        }
    }
}

impl Default for Response {
    /// A response without statuses, id or error.
    fn default() -> (response: Self)
        ensures
            response@ == (ResponseView {
                send_status_set: None,
                request_id: Seq::empty(),
                error: None,
            }),
    {
        Response { send_status_set: None, request_id: String::new(), error: None }
    }
}

/// The envelope of a response to `SendSms`.
#[derive(Clone, Debug, PartialEq)]
pub struct SendSmsResponse {
    pub response: Response,
}

/// What a [`SendSmsResponse`] holds, as mathematical values.
pub struct SendSmsResponseView {
    pub response: ResponseView,
}

impl View for SendSmsResponse {
    type V = SendSmsResponseView;

    open spec fn view(&self) -> SendSmsResponseView {
        SendSmsResponseView { response: self.response@ }
    }
}

impl Default for SendSmsResponse {
    /// An envelope around the default response.
    fn default() -> (envelope: Self)
        ensures
            envelope@.response == (ResponseView {
                send_status_set: None,
                request_id: Seq::empty(),
                error: None,
            }),
    {
        SendSmsResponse { response: Response::default() }
    }
}

/// Whether the status at index `i` is the first one for `phone_number`.
pub open spec fn is_first_status_for(
    statuses: Seq<SendStatusSetView>,
    phone_number: Seq<char>,
    i: int,
) -> bool {
    &&& 0 <= i < statuses.len()
    &&& statuses[i].phone_number == phone_number
    &&& forall|j: int| 0 <= j < i ==> (#[trigger] statuses[j]).phone_number != phone_number
}

/// Whether `statuses` holds a status for `phone_number` and the first such
/// status carries the code `Ok`.
pub open spec fn first_status_is_ok(
    statuses: Seq<SendStatusSetView>,
    phone_number: Seq<char>,
) -> bool {
    exists|i: int| #[trigger]
        is_first_status_for(statuses, phone_number, i) && statuses[i].code == "Ok"@
}

/// A message counts as sent only where some status names exactly this phone
/// number and carries the code `Ok`.
pub proof fn lemma_success_needs_ok_status(statuses: Seq<SendStatusSetView>, phone_number: Seq<char>)
    requires
        first_status_is_ok(statuses, phone_number),
    ensures
        exists|i: int|
            0 <= i < statuses.len() && (#[trigger] statuses[i]).phone_number == phone_number
                && statuses[i].code == "Ok"@,
{
    let first = choose|i: int| #[trigger]
        is_first_status_for(statuses, phone_number, i) && statuses[i].code == "Ok"@;
    assert(statuses[first].phone_number == phone_number && statuses[first].code == "Ok"@);
}

/// A phone number that no status names was not sent to; so nothing was sent
/// where there is no status at all.
pub proof fn lemma_missing_number_fails(statuses: Seq<SendStatusSetView>, phone_number: Seq<char>)
    requires
        forall|i: int|
            0 <= i < statuses.len() ==> (#[trigger] statuses[i]).phone_number != phone_number,
    ensures
        !first_status_is_ok(statuses, phone_number),
{
}

/// Where the first status for a phone number carries another code than `Ok`,
/// the message was not sent, whatever the later statuses say.
pub proof fn lemma_other_code_fails(
    statuses: Seq<SendStatusSetView>,
    phone_number: Seq<char>,
    first: int,
)
    requires
        is_first_status_for(statuses, phone_number, first),
        statuses[first].code != "Ok"@,
    ensures
        !first_status_is_ok(statuses, phone_number),
{
    // two first statuses for one number are the same status
    assert forall|i: int| #[trigger] is_first_status_for(statuses, phone_number, i) implies i
        == first by {}
}

impl SendSmsResponse {
    /// Whether the message to `phone_number` was sent, as this response models
    /// it.
    pub open spec fn sent_to(envelope: SendSmsResponseView, phone_number: Seq<char>) -> bool {
        match envelope.response.send_status_set {
            Some(statuses) => first_status_is_ok(statuses, phone_number),
            None => false,
        }
    }

    /// Tells whether the message to `phone_number` was sent: the response
    /// holds a status for exactly this number, and the first such status has
    /// the code `Ok`.
    pub fn check_is_success(&self, phone_number: String) -> (success: bool)
        ensures
            success == Self::sent_to(self@, phone_number@),
    {
        match &self.response.send_status_set {
            Some(statuses) => {
                let ghost model = statuses@.map_values(|status: SendStatusSet| status@);
                let mut i: usize = 0;
                while i < statuses.len()
                    invariant
                        i <= statuses.len(),
                        model == statuses@.map_values(|status: SendStatusSet| status@),
                        self@.response.send_status_set == Some(model),
                        forall|j: int|
                            0 <= j < i ==> (#[trigger] model[j]).phone_number != phone_number@,
                    decreases statuses.len() - i,
                {
                    let status = &statuses[i];
                    if status.phone_number == phone_number {
                        let ok = "Ok".to_owned();
                        let success = status.code == ok;
                        proof {
                            // this status is the first for the number, and the only first
                            assert(is_first_status_for(model, phone_number@, i as int));
                            assert forall|k: int| #[trigger]
                                is_first_status_for(model, phone_number@, k) implies k == i by {}
                        }
                        return success;
                    }
                    i += 1;
                }
                false
            },
            None => false,
        }
    }

    /// Splits the responses that report an error from those that carry a
    /// result: the error of the response if it has one, the response itself
    /// otherwise.
    pub fn into_result(self) -> (result: Result<SendSmsResponse, Error>)
        ensures
            match result {
                Ok(envelope) => self.response.error is None && envelope == self,
                Err(error) => self.response.error == Some(error),
            },
    {
        match self.response.error {
            Some(error) => Err(error),
            None => Ok(self),
        }
    }
}

} // verus!
