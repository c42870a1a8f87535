//! The client of the Analyze Image API, version 4.0 (`2023-04-01-preview`).
//!
//! The API takes images in JPEG, PNG, GIF, BMP, WEBP, ICO, TIFF or MPO format
//! of less than 20 MiB, larger than 50 x 50 and smaller than 16,000 x 16,000
//! pixels.

use crate::common::http::{
    build_http_client, header_map_entries, http_client_default_headers, is_header_text,
    subscription_headers, subscription_headers_spec,
};
use crate::common::query::{
    flag_param, is_part, join_names, joined, lemma_by_name_in_both,
    lemma_contributions_are_parts, lemma_part_by_name, list_param, named, names_of, not_named,
    params_view, ParamText, render_query, rendered, text_param,
};
use crate::common::secret::Secret;
use crate::v40::{ErrorResponse, ImageUrl, VisualFeature};
use reqwest::header::{HeaderMap, InvalidHeaderValue};
use reqwest::Client as HttpClient;
use reqwest::Error as HttpError;
use vstd::prelude::*;
use vstd::slice::slice_to_vec;
use vstd::std_specs::convert::FromSpecImpl;

verus! {

/// Maximum input image size allowed by the API, in bytes.
pub const MAX_IMAGE_SIZE: usize = 20 * 1024 * 1024;

/// The path of the analyze operation, behind the endpoint.
pub const ANALYZE_PATH: &'static str = "computervision/imageanalysis:analyze";

/// The version of the API that this client speaks.
pub const DEFAULT_API_VERSION: &'static str = "2023-04-01-preview";

/// The errors of a [`Client`].
#[derive(Debug)]
pub enum Error {
    /// The API answered with an error response.
    API(ErrorResponse),
    /// The HTTP layer failed, or a body could not be decoded.
    Reqwest(HttpError),
    /// The client found the request invalid before it spoke to any server.
    Validation(ValidationError),
}

/// What the client finds wrong before it speaks to any server.
#[derive(Debug)]
pub enum ValidationError {
    /// The key holds a character that cannot stand in an HTTP header, so it
    /// cannot be a key of the API.
    InvalidHeaderValue(InvalidHeaderValue),
    /// Neither `features` nor `model_name` is given, and the API asks for one
    /// of them.
    NoFeaturesOrModelName,
}

impl From<ErrorResponse> for Error {
    fn from(value: ErrorResponse) -> (r: Self) {
        Error::API(value)
    }
}

impl FromSpecImpl<ErrorResponse> for Error {
    open spec fn obeys_from_spec() -> bool {
        true
    }

    open spec fn from_spec(value: ErrorResponse) -> Self {
        Error::API(value)
    }
}

impl From<HttpError> for Error {
    fn from(value: HttpError) -> (r: Self) {
        Error::Reqwest(value)
    }
}

impl FromSpecImpl<HttpError> for Error {
    open spec fn obeys_from_spec() -> bool {
        true
    }

    open spec fn from_spec(value: HttpError) -> Self {
        Error::Reqwest(value)
    }
}

impl From<ValidationError> for Error {
    fn from(value: ValidationError) -> (r: Self) {
        Error::Validation(value)
    }
}

impl FromSpecImpl<ValidationError> for Error {
    open spec fn obeys_from_spec() -> bool {
        true
    }

    open spec fn from_spec(value: ValidationError) -> Self {
        Error::Validation(value)
    }
}

impl From<InvalidHeaderValue> for ValidationError {
    fn from(value: InvalidHeaderValue) -> (r: Self) {
        ValidationError::InvalidHeaderValue(value)
    }
}

impl FromSpecImpl<InvalidHeaderValue> for ValidationError {
    open spec fn obeys_from_spec() -> bool {
        true
    }

    open spec fn from_spec(value: InvalidHeaderValue) -> Self {
        ValidationError::InvalidHeaderValue(value)
    }
}

/// Image analysis parameters.
///
/// The API wants `features` or `model_name` to be given. Where neither is,
/// the client refuses the request with
/// [`ValidationError::NoFeaturesOrModelName`].
#[derive(Debug)]
pub struct AnalyzeImageOptions<'a> {
    /// The visual features asked for. Needed where `model_name` is absent.
    pub features: Option<&'a [VisualFeature]>,
    /// Whether `caption` and `denseCaptions` avoid gendered words; the API's
    /// default is `false`.
    pub gender_neutral_caption: Option<bool>,
    /// The language of the output; the API's default is "en".
    pub language: Option<&'a str>,
    /// The name of a custom trained model. Needed where `features` is absent.
    pub model_name: Option<&'a str>,
    /// The aspect ratios for `smartCrops`, width by height, from 0.75 to 1.8,
    /// separated by commas.
    pub smartcrops_aspect_ratios: Option<&'a str>,
}

/// The fields of [`AnalyzeImageOptions`], each of which has a query parameter
/// of its own.
#[derive(Debug, Clone, Copy, PartialEq, Eq, Structural)]
pub enum QueryField {
    Features,
    GenderNeutralCaption,
    Language,
    ModelName,
    SmartcropsAspectRatios,
}

impl QueryField {
    /// The name of the query parameter of the field.
    pub open spec fn name(self) -> Seq<char> {
        match self {
            QueryField::Features => "features"@,
            QueryField::GenderNeutralCaption => "gender-neutral-caption"@,
            QueryField::Language => "language"@,
            QueryField::ModelName => "model-name"@,
            QueryField::SmartcropsAspectRatios => "smartcrops-aspect-ratios"@,
        }
    }
}

impl<'a> Clone for AnalyzeImageOptions<'a> {
    fn clone(&self) -> (r: Self)
        ensures
            r == *self,
    {
        AnalyzeImageOptions {
            features: self.features,
            gender_neutral_caption: self.gender_neutral_caption,
            language: self.language,
            model_name: self.model_name,
            smartcrops_aspect_ratios: self.smartcrops_aspect_ratios,
        }
    }
}

impl<'a> Default for AnalyzeImageOptions<'a> {
    fn default() -> (r: Self)
        ensures
            r.features.is_none(),
            r.gender_neutral_caption.is_none(),
            r.language.is_none(),
            r.model_name.is_none(),
            r.smartcrops_aspect_ratios.is_none(),
    {
        AnalyzeImageOptions {
            features: None,
            gender_neutral_caption: None,
            language: None,
            model_name: None,
            smartcrops_aspect_ratios: None,
        }
    }
}

/// The parameter that every request carries: the version of the API.
pub open spec fn api_version_param() -> Seq<ParamText> {
    seq![("api-version"@, DEFAULT_API_VERSION@)]
}

impl<'a> AnalyzeImageOptions<'a> {
    /// The features asked for, if any.
    pub open spec fn features_spec(&self) -> Option<Seq<VisualFeature>> {
        match self.features {
            Some(list) => Some(list@),
            None => None,
        }
    }

    /// The language asked for, if any.
    pub open spec fn language_spec(&self) -> Option<Seq<char>> {
        match self.language {
            Some(text) => Some(text@),
            None => None,
        }
    }

    /// The model asked for, if any.
    pub open spec fn model_name_spec(&self) -> Option<Seq<char>> {
        match self.model_name {
            Some(text) => Some(text@),
            None => None,
        }
    }

    /// The aspect ratios asked for, if any.
    pub open spec fn smartcrops_aspect_ratios_spec(&self) -> Option<Seq<char>> {
        match self.smartcrops_aspect_ratios {
            Some(text) => Some(text@),
            None => None,
        }
    }

    /// What one field contributes to the query. The flag contributes
    /// whenever it is given, be it `true` or `false`.
    pub open spec fn part(&self, field: QueryField) -> Seq<ParamText> {
        match field {
            QueryField::Features => list_param(field.name(), self.features_spec()),
            QueryField::GenderNeutralCaption => flag_param(
                field.name(),
                self.gender_neutral_caption,
            ),
            QueryField::Language => text_param(field.name(), self.language_spec()),
            QueryField::ModelName => text_param(field.name(), self.model_name_spec()),
            QueryField::SmartcropsAspectRatios => text_param(
                field.name(),
                self.smartcrops_aspect_ratios_spec(),
            ),
        }
    }

    /// The query parameters that these options stand for, in the order in
    /// which they are sent: the version of the API first, which is always
    /// there.
    pub open spec fn query_spec(&self) -> Seq<ParamText> {
        api_version_param() + self.part(QueryField::Features) + self.part(
            QueryField::GenderNeutralCaption,
        ) + self.part(QueryField::Language) + self.part(QueryField::ModelName) + self.part(
            QueryField::SmartcropsAspectRatios,
        )
    }

    /// The two options hold the same values, wherever they are stored.
    pub open spec fn same_values(&self, other: &AnalyzeImageOptions<'_>) -> bool {
        &&& self.features_spec() == other.features_spec()
        &&& self.gender_neutral_caption == other.gender_neutral_caption
        &&& self.language_spec() == other.language_spec()
        &&& self.model_name_spec() == other.model_name_spec()
        &&& self.smartcrops_aspect_ratios_spec() == other.smartcrops_aspect_ratios_spec()
    }

    /// The two options contribute the same from every field but `field`.
    pub open spec fn same_but(&self, other: &AnalyzeImageOptions<'_>, field: QueryField) -> bool {
        forall|other_field: QueryField|
            other_field != field ==> #[trigger] self.part(other_field) == other.part(other_field)
    }

    /// Every field is absent, an empty list or an empty text.
    pub open spec fn asks_nothing(&self) -> bool {
        &&& self.features matches Some(list) ==> list@.len() == 0
        &&& self.gender_neutral_caption.is_none()
        &&& self.language matches Some(text) ==> text@.len() == 0
        &&& self.model_name matches Some(text) ==> text@.len() == 0
        &&& self.smartcrops_aspect_ratios matches Some(text) ==> text@.len() == 0
    }

    /// The options name what the API is to do: features, or a model.
    pub open spec fn names_a_task(&self) -> bool {
        self.features.is_some() || self.model_name.is_some()
    }
}

/// What an image is given as: the address at which the service can fetch it,
/// or its bytes.
#[derive(Debug, Clone, Copy)]
pub enum ImageInput<'a> {
    /// Publicly reachable URL of an image.
    Url(&'a str),
    /// Image bytes.
    Data(&'a [u8]),
}

/// The body of a request.
#[derive(Debug)]
pub enum RequestBody {
    /// A JSON document that names the image by its address.
    Json(ImageUrl),
    /// The image itself, sent as `application/octet-stream`.
    Bytes(Vec<u8>),
}

/// One request of the analyze operation, the method of which is always POST.
#[derive(Debug)]
pub struct AnalyzeRequest {
    /// The address of the operation.
    pub url: String,
    /// The query parameters, in the order in which they are sent.
    pub query: Vec<(&'static str, String)>,
    /// The body.
    pub body: RequestBody,
}

/// What came of decoding the body of a response against the shape that its
/// status asks for.
#[derive(Debug)]
pub enum Decoded<T> {
    /// The body of a successful response, decoded as the result.
    Analysis(T),
    /// The body of any other response, decoded as the error envelope.
    ApiError(ErrorResponse),
    /// The body did not have the expected shape, or could not be read.
    Failed(HttpError),
}

/// Client for the Analyze Image API v4.0 (`2023-04-01-preview`).
#[derive(Debug)]
pub struct Client {
    client: HttpClient,
    url: String,
}

impl Clone for Client {
    /// A second handle on the same HTTP client, for the same address.
    fn clone(&self) -> (r: Self)
        ensures
            r.url_spec() == self.url_spec(),
            r.default_headers_spec() == self.default_headers_spec(),
    {
        Client { client: self.client.clone(), url: self.url.clone() }
    }
}

impl Client {
    /// The address of the analyze operation.
    pub closed spec fn url_spec(&self) -> Seq<char> {
        self.url@
    }

    /// The HTTP client that carries the key.
    pub closed spec fn http_client_spec(&self) -> HttpClient {
        self.client
    }

    /// The headers that the client sends with every request.
    pub open spec fn default_headers_spec(&self) -> Map<Seq<char>, (Seq<u8>, bool)> {
        http_client_default_headers(self.http_client_spec())
    }

    /// Creates a new `Client` from an Azure AI Services key and the endpoint
    /// of a Computer Vision resource.
    ///
    /// A key that cannot stand in an HTTP header is refused. With any other
    /// key the call fails only if the HTTP client cannot be built. The client
    /// sends the key, marked as sensitive, with every request. It
    /// speaks to the endpoint followed by
    /// `computervision/imageanalysis:analyze`; the endpoint is taken as it is.
    pub fn new(key: String, endpoint: &str) -> (r: Result<Self, Error>)
        ensures
            !is_header_text(key@) ==> r matches Err(
                Error::Validation(ValidationError::InvalidHeaderValue(_)),
            ),
            is_header_text(key@) ==> r is Ok || r matches Err(Error::Reqwest(_)),
            r matches Ok(c) ==> c.url_spec() == endpoint@ + ANALYZE_PATH@,
            r matches Ok(c) ==> subscription_headers_spec(key@).submap_of(c.default_headers_spec()),
    {
        let secret = Secret::new(key);
        match Self::create_http_client(secret) {
            Ok(client) => {
                let mut url = endpoint.to_owned();
                url.append(ANALYZE_PATH);
                Ok(Client { client, url })
            },
            Err(e) => Err(e),
        }
    }

    /// The address of the analyze operation.
    pub fn url(&self) -> (r: &str)
        ensures
            r@ == self.url_spec(),
    {
        self.url.as_str()
    }

    /// The HTTP client that carries the key.
    pub fn http_client(&self) -> (r: &HttpClient)
        ensures
            *r == self.http_client_spec(),
    {
        &self.client
    }

    /// Checks that `options` names features or a model, as the API asks.
    pub fn validate_parameters(&self, options: &AnalyzeImageOptions<'_>) -> (r: Result<
        (),
        ValidationError,
    >)
        ensures
            r.is_ok() <==> options.names_a_task(),
            r matches Err(e) ==> e is NoFeaturesOrModelName,
    {
        if options.features.is_none() && options.model_name.is_none() {
            return Err(ValidationError::NoFeaturesOrModelName);
        }
        Ok(())
    }

    /// Puts together the request that analyzes `input` with `options`, or
    /// refuses it before anything is sent: options that name neither features
    /// nor a model give [`ValidationError::NoFeaturesOrModelName`] and no
    /// request. Otherwise the request has the address of this client, the
    /// parameters of the options, and a body that is the JSON document
    /// `{"url": ..}` for an address and the bytes themselves for an image.
    pub fn request(&self, input: ImageInput<'_>, options: &AnalyzeImageOptions<'_>) -> (r: Result<
        AnalyzeRequest,
        Error,
    >)
        ensures
            r.is_ok() <==> options.names_a_task(),
            r matches Err(e) ==> e matches Error::Validation(
                ValidationError::NoFeaturesOrModelName,
            ),
            r matches Ok(request) ==> {
                &&& request.url@ == self.url_spec()
                &&& params_view(request.query@) == options.query_spec()
                &&& match input {
                    ImageInput::Url(image_url) => request.body matches RequestBody::Json(doc)
                        && doc.url@ == image_url@,
                    ImageInput::Data(image_data) => request.body matches RequestBody::Bytes(bytes)
                        && bytes@ == image_data@,
                }
            },
    {
        match self.validate_parameters(options) {
            Ok(()) => {},
            Err(e) => {
                return Err(Error::Validation(e));
            },
        }
        let query = Self::build_query_params(options);
        let body = match input {
            ImageInput::Url(image_url) => RequestBody::Json(ImageUrl { url: image_url.to_owned() }),
            ImageInput::Data(image_data) => RequestBody::Bytes(slice_to_vec(image_data)),
        };
        Ok(AnalyzeRequest { url: self.url.clone(), query, body })
    }

    /// Turns a decoded body into the outcome of the call: the result, the
    /// error of the API with the envelope as it was sent, or the failure to
    /// decode.
    pub fn handle_response<T>(decoded: Decoded<T>) -> (r: Result<T, Error>)
        ensures
            r == match decoded {
                Decoded::Analysis(analysis) => Ok::<T, Error>(analysis),
                Decoded::ApiError(envelope) => Err(Error::API(envelope)),
                Decoded::Failed(e) => Err(Error::Reqwest(e)),
            },
    {
        match decoded {
            Decoded::Analysis(analysis) => Ok(analysis),
            Decoded::ApiError(envelope) => Err(Error::API(envelope)),
            Decoded::Failed(e) => Err(Error::Reqwest(e)),
        }
    }

    /// The query parameters of `options`, in the order `api-version`,
    /// `features`, `gender-neutral-caption`, `language`, `model-name`,
    /// `smartcrops-aspect-ratios`. The version is always there. A field that
    /// is absent, an empty list or an empty text gives no parameter; the list
    /// gives the names of its items, joined by commas in their order; the
    /// flag gives `true` or `false` whenever it is given.
    pub fn build_query_params(options: &AnalyzeImageOptions<'_>) -> (r: Vec<(&'static str, String)>)
        ensures
            params_view(r@) == options.query_spec(),
    {
        let mut query_params: Vec<(&'static str, String)> = Vec::new();
        let ghost mut sent: Seq<ParamText> = seq![];

        query_params.push(("api-version", DEFAULT_API_VERSION.to_owned()));
        proof {
            sent = sent + api_version_param();
            assert(params_view(query_params@) =~= sent);
        }

        if let Some(features) = options.features {
            if features.len() > 0 {
                query_params.push(("features", join_names(features)));
            }
        }
        proof {
            sent = sent + options.part(QueryField::Features);
            assert(params_view(query_params@) =~= sent);
        }

        if let Some(gender_neutral_caption) = options.gender_neutral_caption {
            let flag = if gender_neutral_caption {
                "true"
            } else {
                "false"
            };
            query_params.push(("gender-neutral-caption", flag.to_owned()));
        }
        proof {
            sent = sent + options.part(QueryField::GenderNeutralCaption);
            assert(params_view(query_params@) =~= sent);
        }

        if let Some(language) = options.language {
            if !language.is_empty() {
                query_params.push(("language", language.to_owned()));
            }
        }
        proof {
            sent = sent + options.part(QueryField::Language);
            assert(params_view(query_params@) =~= sent);
        }

        if let Some(model_name) = options.model_name {
            if !model_name.is_empty() {
                query_params.push(("model-name", model_name.to_owned()));
            }
        }
        proof {
            sent = sent + options.part(QueryField::ModelName);
            assert(params_view(query_params@) =~= sent);
        }

        if let Some(smartcrops_aspect_ratios) = options.smartcrops_aspect_ratios {
            if !smartcrops_aspect_ratios.is_empty() {
                query_params.push(("smartcrops-aspect-ratios", smartcrops_aspect_ratios.to_owned()));
            }
        }
        proof {
            sent = sent + options.part(QueryField::SmartcropsAspectRatios);
            assert(params_view(query_params@) =~= sent);
        }

        query_params
    }

    /// The query string of `options`: the parameters of
    /// [`Client::build_query_params`] as `name=value`, joined by `&`, with
    /// nothing escaped.
    pub fn query_string(options: &AnalyzeImageOptions<'_>) -> (r: String)
        ensures
            r@ == rendered(options.query_spec()),
    {
        let query_params = Self::build_query_params(options);
        render_query(&query_params)
    }

    /// Builds the HTTP client that sends `key` with every request.
    ///
    /// A key that cannot stand in an HTTP header is refused. With any other
    /// key the call fails only if the HTTP client cannot be built.
    pub fn create_http_client(key: Secret) -> (r: Result<HttpClient, Error>)
        ensures
            !is_header_text(key@) ==> r matches Err(
                Error::Validation(ValidationError::InvalidHeaderValue(_)),
            ),
            is_header_text(key@) ==> r is Ok || r matches Err(Error::Reqwest(_)),
            r matches Ok(client) ==> subscription_headers_spec(key@).submap_of(
                http_client_default_headers(client),
            ),
    {
        let headers = match Self::create_headers(&key) {
            Ok(headers) => headers,
            Err(e) => {
                return Err(Error::Validation(e));
            },
        };
        Self::built_client(build_http_client(headers))
    }

    /// Says what becomes of an attempt to build the HTTP client: the client,
    /// or the error of the HTTP layer as an [`Error::Reqwest`].
    pub fn built_client(built: Result<HttpClient, HttpError>) -> (r: Result<
        HttpClient,
        Error,
    >)
        ensures
            r == match built {
                Ok(client) => Ok::<HttpClient, Error>(client),
                Err(e) => Err(Error::Reqwest(e)),
            },
    {
        match built {
            Ok(client) => Ok(client),
            Err(e) => Err(Error::Reqwest(e)),
        }
    }

    /// Builds the headers that the client sends with every request.
    ///
    /// Fails exactly when the key cannot stand in a header. Otherwise the map
    /// holds the key, marked as sensitive, under `Ocp-Apim-Subscription-Key`,
    /// and `application/octet-stream` as the content type.
    pub fn create_headers(key: &Secret) -> (r: Result<HeaderMap, ValidationError>)
        ensures
            r.is_ok() <==> is_header_text(key@),
            r matches Ok(m) ==> header_map_entries(m) == subscription_headers_spec(key@),
            r matches Err(e) ==> e is InvalidHeaderValue,
    {
        match subscription_headers(key) {
            Ok(headers) => Ok(headers),
            Err(e) => Err(ValidationError::InvalidHeaderValue(e)),
        }
    }
}

/// No two fields share the name of their query parameter, and none goes by
/// the name of the version.
pub proof fn lemma_field_names_differ(a: QueryField, b: QueryField)
    ensures
        a.name() == b.name() <==> a == b,
        a.name() != "api-version"@,
{
    reveal_strlit("api-version");
    reveal_strlit("features");
    reveal_strlit("gender-neutral-caption");
    reveal_strlit("language");
    reveal_strlit("model-name");
    reveal_strlit("smartcrops-aspect-ratios");
    assert("features"@[0] != "language"@[0]);
    assert(a.name().len() == b.name().len() && a.name()[0] == b.name()[0] ==> a == b);
    assert(a.name().len() != "api-version"@.len());
}

/// Options that ask for nothing send the version of the API and nothing
/// else, and only they do: a field that is absent counts as much as an empty
/// list or an empty text.
pub proof fn lemma_nothing_asked_only_version_sent(options: AnalyzeImageOptions<'_>)
    ensures
        options.asks_nothing() <==> options.query_spec() == api_version_param(),
        api_version_param() == seq![("api-version"@, "2023-04-01-preview"@)],
{
    if options.asks_nothing() {
        assert(options.query_spec() =~= api_version_param());
    } else {
        assert(options.query_spec().len() > 1);
    }
}

/// Each field has a parameter of its own. The parameters that go by the name
/// of a field are what that field contributes: nothing, or one parameter
/// whose value is the text, the flag, or the names of the list joined by
/// commas in the order given. And what goes by any other name does not depend
/// on the field: two options that differ in that field alone send the same
/// other parameters.
pub proof fn lemma_fields_are_independent(
    a: AnalyzeImageOptions<'_>,
    b: AnalyzeImageOptions<'_>,
    field: QueryField,
)
    requires
        a.same_but(&b, field),
    ensures
        named(a.query_spec(), field.name()) == a.part(field),
        is_part(a.part(field), field.name()),
        not_named(a.query_spec(), field.name()) == not_named(b.query_spec(), field.name()),
{
    lemma_query_by_name(a, field);
    lemma_query_by_name(b, field);
    lemma_part_is_part(a, field);
    lemma_rest_by_name(a, b, field, QueryField::Features);
    lemma_rest_by_name(a, b, field, QueryField::GenderNeutralCaption);
    lemma_rest_by_name(a, b, field, QueryField::Language);
    lemma_rest_by_name(a, b, field, QueryField::ModelName);
    lemma_rest_by_name(a, b, field, QueryField::SmartcropsAspectRatios);
}

/// A field that is given, and neither an empty list nor an empty text, is
/// sent exactly once under its name: a text as it is, the flag as `true` or
/// `false`, the list as the names of its items joined by commas in the order
/// given.
pub proof fn lemma_given_fields_are_sent_once(options: AnalyzeImageOptions<'_>)
    ensures
        options.features_spec() matches Some(list) ==> (list.len() > 0 ==> named(
            options.query_spec(),
            "features"@,
        ) == seq![("features"@, joined(names_of(list), ","@))]),
        options.gender_neutral_caption matches Some(flag) ==> named(
            options.query_spec(),
            "gender-neutral-caption"@,
        ) == seq![("gender-neutral-caption"@, if flag { "true"@ } else { "false"@ })],
        options.language_spec() matches Some(text) ==> (text.len() > 0 ==> named(
            options.query_spec(),
            "language"@,
        ) == seq![("language"@, text)]),
        options.model_name_spec() matches Some(text) ==> (text.len() > 0 ==> named(
            options.query_spec(),
            "model-name"@,
        ) == seq![("model-name"@, text)]),
        options.smartcrops_aspect_ratios_spec() matches Some(text) ==> (text.len() > 0 ==> named(
            options.query_spec(),
            "smartcrops-aspect-ratios"@,
        ) == seq![("smartcrops-aspect-ratios"@, text)]),
{
    lemma_named_is_part(options, QueryField::Features);
    lemma_named_is_part(options, QueryField::GenderNeutralCaption);
    lemma_named_is_part(options, QueryField::Language);
    lemma_named_is_part(options, QueryField::ModelName);
    lemma_named_is_part(options, QueryField::SmartcropsAspectRatios);
}

/// The parameters that go by the name of a field are what the field
/// contributes.
proof fn lemma_named_is_part(options: AnalyzeImageOptions<'_>, field: QueryField)
    ensures
        named(options.query_spec(), field.name()) == options.part(field),
{
    lemma_query_by_name(options, field);
}

/// The version of the API is sent exactly once, whatever the options are.
pub proof fn lemma_version_is_always_sent(options: AnalyzeImageOptions<'_>)
    ensures
        named(options.query_spec(), "api-version"@) == api_version_param(),
        options.query_spec().len() >= 1,
        options.query_spec()[0] == ("api-version"@, DEFAULT_API_VERSION@),
{
    let wanted = "api-version"@;
    lemma_field_names_differ(QueryField::Features, QueryField::Features);
    lemma_field_names_differ(QueryField::GenderNeutralCaption, QueryField::Features);
    lemma_field_names_differ(QueryField::Language, QueryField::Features);
    lemma_field_names_differ(QueryField::ModelName, QueryField::Features);
    lemma_field_names_differ(QueryField::SmartcropsAspectRatios, QueryField::Features);
    let q0 = api_version_param();
    lemma_part_by_name(q0, wanted, wanted);
    let q1 = q0 + options.part(QueryField::Features);
    lemma_step_by_name(options, q0, QueryField::Features, wanted);
    let q2 = q1 + options.part(QueryField::GenderNeutralCaption);
    lemma_step_by_name(options, q1, QueryField::GenderNeutralCaption, wanted);
    let q3 = q2 + options.part(QueryField::Language);
    lemma_step_by_name(options, q2, QueryField::Language, wanted);
    let q4 = q3 + options.part(QueryField::ModelName);
    lemma_step_by_name(options, q3, QueryField::ModelName, wanted);
    lemma_step_by_name(options, q4, QueryField::SmartcropsAspectRatios, wanted);
    assert(named(options.query_spec(), wanted) =~= api_version_param());
}

/// Looking for a name in a list that is followed by the contribution of one
/// field: the contribution counts in full under its own name, and not at all
/// under any other.
proof fn lemma_step_by_name(
    options: AnalyzeImageOptions<'_>,
    front: Seq<ParamText>,
    field: QueryField,
    wanted: Seq<char>,
)
    ensures
        wanted == field.name() ==> named(front + options.part(field), wanted) == named(
            front,
            wanted,
        ) + options.part(field),
        wanted != field.name() ==> named(front + options.part(field), wanted) == named(
            front,
            wanted,
        ),
        not_named(front + options.part(field), wanted) == not_named(front, wanted) + not_named(
            options.part(field),
            wanted,
        ),
{
    lemma_part_is_part(options, field);
    lemma_part_by_name(options.part(field), field.name(), wanted);
    lemma_by_name_in_both(front, options.part(field), wanted);
    assert(named(front, wanted) + Seq::<ParamText>::empty() =~= named(front, wanted));
}

/// Leaving out what goes by the name of `field` leaves the same of every
/// contribution of two options that differ in `field` alone.
proof fn lemma_rest_by_name(
    a: AnalyzeImageOptions<'_>,
    b: AnalyzeImageOptions<'_>,
    field: QueryField,
    other_field: QueryField,
)
    requires
        a.same_but(&b, field),
    ensures
        not_named(a.part(other_field), field.name()) == not_named(
            b.part(other_field),
            field.name(),
        ),
{
    if other_field == field {
        lemma_part_is_part(a, field);
        lemma_part_is_part(b, field);
        lemma_part_by_name(a.part(field), field.name(), field.name());
        lemma_part_by_name(b.part(field), field.name(), field.name());
    } else {
        assert(a.part(other_field) == b.part(other_field));
    }
}

/// What a field contributes goes by the name of the field.
proof fn lemma_part_is_part(options: AnalyzeImageOptions<'_>, field: QueryField)
    ensures
        is_part(options.part(field), field.name()),
{
    lemma_contributions_are_parts::<VisualFeature>(field.name(), None, None, None);
}

/// Looking for the name of a field in a query is looking for it in the
/// contribution of every field.
proof fn lemma_query_by_name(options: AnalyzeImageOptions<'_>, field: QueryField)
    ensures
        named(options.query_spec(), field.name()) == options.part(field),
        not_named(options.query_spec(), field.name()) == api_version_param() + not_named(
            options.part(QueryField::Features),
            field.name(),
        ) + not_named(options.part(QueryField::GenderNeutralCaption), field.name()) + not_named(
            options.part(QueryField::Language),
            field.name(),
        ) + not_named(options.part(QueryField::ModelName), field.name()) + not_named(
            options.part(QueryField::SmartcropsAspectRatios),
            field.name(),
        ),
{
    let wanted = field.name();
    lemma_field_names_differ(QueryField::Features, field);
    lemma_field_names_differ(QueryField::GenderNeutralCaption, field);
    lemma_field_names_differ(QueryField::Language, field);
    lemma_field_names_differ(QueryField::ModelName, field);
    lemma_field_names_differ(QueryField::SmartcropsAspectRatios, field);
    let q0 = api_version_param();
    lemma_part_by_name(q0, "api-version"@, wanted);
    let q1 = q0 + options.part(QueryField::Features);
    lemma_step_by_name(options, q0, QueryField::Features, wanted);
    let q2 = q1 + options.part(QueryField::GenderNeutralCaption);
    lemma_step_by_name(options, q1, QueryField::GenderNeutralCaption, wanted);
    let q3 = q2 + options.part(QueryField::Language);
    lemma_step_by_name(options, q2, QueryField::Language, wanted);
    let q4 = q3 + options.part(QueryField::ModelName);
    lemma_step_by_name(options, q3, QueryField::ModelName, wanted);
    lemma_step_by_name(options, q4, QueryField::SmartcropsAspectRatios, wanted);
    assert(named(options.query_spec(), wanted) =~= options.part(field));
}

/// Building the query is a function of the values alone: options that hold
/// the same values give the same parameters in the same order, and so the
/// same query string, however often and from wherever they are built.
pub proof fn lemma_same_values_same_query(a: AnalyzeImageOptions<'_>, b: AnalyzeImageOptions<'_>)
    requires
        a.same_values(&b),
    ensures
        a.query_spec() == b.query_spec(),
        rendered(a.query_spec()) == rendered(b.query_spec()),
{
}

} // verus!
