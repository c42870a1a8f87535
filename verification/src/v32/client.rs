//! The client of the Analyze Image API, version 3.2.
//!
//! The API takes images in JPEG, PNG, GIF or BMP format of less than 4 MiB,
//! larger than 50 x 50 and smaller than 16,000 x 16,000 pixels.

use crate::common::http::{
    build_http_client, header_map_entries, http_client_default_headers, is_header_text,
    subscription_headers, subscription_headers_spec,
};
use crate::common::query::{
    is_part, join_names, joined, lemma_by_name_in_both, lemma_contributions_are_parts,
    lemma_part_by_name, list_param, named, names_of, not_named, params_view, ParamText,
    render_query, rendered, text_param,
};
use crate::common::secret::Secret;
use crate::v32::{
    ComputerVisionErrorResponse, DescriptionExclude, Details, ImageUrl, VisualFeatureTypes,
};
use reqwest::header::{HeaderMap, InvalidHeaderValue};
use reqwest::Client as HttpClient;
use reqwest::Error as HttpError;
use vstd::prelude::*;
use vstd::slice::slice_to_vec;
use vstd::std_specs::convert::FromSpecImpl;

verus! {

/// Maximum input image size allowed by the API, in bytes.
pub const MAX_IMAGE_SIZE: usize = 4 * 1024 * 1024;

/// The path of the analyze operation, behind the endpoint.
pub const ANALYZE_PATH: &'static str = "vision/v3.2/analyze";

/// The errors of a [`Client`].
#[derive(Debug)]
pub enum Error {
    /// The API answered with an error response.
    API(ComputerVisionErrorResponse),
    /// The HTTP layer failed, or a body could not be decoded.
    Reqwest(HttpError),
    /// The client found the request invalid before it spoke to any server.
    Validation(ValidationError),
}

/// What the client finds wrong before it speaks to any server.
#[derive(Debug)]
pub enum ValidationError {
    /// The key holds a character that cannot stand in an HTTP header, so it
    /// cannot be a key of the API.
    InvalidHeaderValue(InvalidHeaderValue),
}

impl From<ComputerVisionErrorResponse> for Error {
    fn from(value: ComputerVisionErrorResponse) -> (r: Self) {
        Error::API(value)
    }
}

impl FromSpecImpl<ComputerVisionErrorResponse> for Error {
    open spec fn obeys_from_spec() -> bool {
        true
    }

    open spec fn from_spec(value: ComputerVisionErrorResponse) -> Self {
        Error::API(value)
    }
}

impl From<HttpError> for Error {
    fn from(value: HttpError) -> (r: Self) {
        Error::Reqwest(value)
    }
}

impl FromSpecImpl<HttpError> for Error {
    open spec fn obeys_from_spec() -> bool {
        true
    }

    open spec fn from_spec(value: HttpError) -> Self {
        Error::Reqwest(value)
    }
}

impl From<ValidationError> for Error {
    fn from(value: ValidationError) -> (r: Self) {
        Error::Validation(value)
    }
}

impl FromSpecImpl<ValidationError> for Error {
    open spec fn obeys_from_spec() -> bool {
        true
    }

    open spec fn from_spec(value: ValidationError) -> Self {
        Error::Validation(value)
    }
}

impl From<InvalidHeaderValue> for ValidationError {
    fn from(value: InvalidHeaderValue) -> (r: Self) {
        ValidationError::InvalidHeaderValue(value)
    }
}

impl FromSpecImpl<InvalidHeaderValue> for ValidationError {
    open spec fn obeys_from_spec() -> bool {
        true
    }

    open spec fn from_spec(value: InvalidHeaderValue) -> Self {
        ValidationError::InvalidHeaderValue(value)
    }
}

/// Image analysis parameters. Every field is optional, and a field that is
/// absent, an empty list or an empty text adds nothing to the request.
///
/// Where no feature is asked for, the API answers as if
/// [`VisualFeatureTypes::Categories`] had been.
#[derive(Debug)]
pub struct AnalyzeImageOptions<'a> {
    /// Domain models to leave out when the description is generated.
    pub description_exclude: Option<&'a [DescriptionExclude]>,
    /// The domain-specific details to return.
    pub details: Option<&'a [Details]>,
    /// The language of the output; the API's default is "en".
    pub language: Option<&'a str>,
    /// The version of the AI model: "latest", "2021-04-01" or "2021-05-01";
    /// the API's default is "latest".
    pub model_version: Option<&'a str>,
    /// The visual features to return.
    pub visual_features: Option<&'a [VisualFeatureTypes]>,
}

/// The fields of [`AnalyzeImageOptions`], each of which has a query parameter
/// of its own.
#[derive(Debug, Clone, Copy, PartialEq, Eq, Structural)]
pub enum QueryField {
    VisualFeatures,
    Details,
    Language,
    DescriptionExclude,
    ModelVersion,
}

impl QueryField {
    /// The name of the query parameter of the field.
    pub open spec fn name(self) -> Seq<char> {
        match self {
            QueryField::VisualFeatures => "visualFeatures"@,
            QueryField::Details => "details"@,
            QueryField::Language => "language"@,
            QueryField::DescriptionExclude => "descriptionExclude"@,
            QueryField::ModelVersion => "model-version"@,
        }
    }
}

impl<'a> Clone for AnalyzeImageOptions<'a> {
    fn clone(&self) -> (r: Self)
        ensures
            r == *self,
    {
        AnalyzeImageOptions {
            description_exclude: self.description_exclude,
            details: self.details,
            language: self.language,
            model_version: self.model_version,
            visual_features: self.visual_features,
        }
    }
}

impl<'a> Default for AnalyzeImageOptions<'a> {
    fn default() -> (r: Self)
        ensures
            r.description_exclude.is_none(),
            r.details.is_none(),
            r.language.is_none(),
            r.model_version.is_none(),
            r.visual_features.is_none(),
    {
        AnalyzeImageOptions {
            description_exclude: None,
            details: None,
            language: None,
            model_version: None,
            visual_features: None,
        }
    }
}

impl<'a> AnalyzeImageOptions<'a> {
    /// The visual features asked for, if any.
    pub open spec fn visual_features_spec(&self) -> Option<Seq<VisualFeatureTypes>> {
        match self.visual_features {
            Some(list) => Some(list@),
            None => None,
        }
    }

    /// The details asked for, if any.
    pub open spec fn details_spec(&self) -> Option<Seq<Details>> {
        match self.details {
            Some(list) => Some(list@),
            None => None,
        }
    }

    /// The language asked for, if any.
    pub open spec fn language_spec(&self) -> Option<Seq<char>> {
        match self.language {
            Some(text) => Some(text@),
            None => None,
        }
    }

    /// The exclusions asked for, if any.
    pub open spec fn description_exclude_spec(&self) -> Option<Seq<DescriptionExclude>> {
        match self.description_exclude {
            Some(list) => Some(list@),
            None => None,
        }
    }

    /// The model version asked for, if any.
    pub open spec fn model_version_spec(&self) -> Option<Seq<char>> {
        match self.model_version {
            Some(text) => Some(text@),
            None => None,
        }
    }

    /// What one field contributes to the query.
    pub open spec fn part(&self, field: QueryField) -> Seq<ParamText> {
        match field {
            QueryField::VisualFeatures => list_param(field.name(), self.visual_features_spec()),
            QueryField::Details => list_param(field.name(), self.details_spec()),
            QueryField::Language => text_param(field.name(), self.language_spec()),
            QueryField::DescriptionExclude => list_param(
                field.name(),
                self.description_exclude_spec(),
            ),
            QueryField::ModelVersion => text_param(field.name(), self.model_version_spec()),
        }
    }

    /// The query parameters that these options stand for, in the order in
    /// which they are sent.
    pub open spec fn query_spec(&self) -> Seq<ParamText> {
        self.part(QueryField::VisualFeatures) + self.part(QueryField::Details) + self.part(
            QueryField::Language,
        ) + self.part(QueryField::DescriptionExclude) + self.part(QueryField::ModelVersion)
    }

    /// The two options hold the same values, wherever they are stored.
    pub open spec fn same_values(&self, other: &AnalyzeImageOptions<'_>) -> bool {
        &&& self.visual_features_spec() == other.visual_features_spec()
        &&& self.details_spec() == other.details_spec()
        &&& self.language_spec() == other.language_spec()
        &&& self.description_exclude_spec() == other.description_exclude_spec()
        &&& self.model_version_spec() == other.model_version_spec()
    }

    /// The two options contribute the same from every field but `field`.
    pub open spec fn same_but(&self, other: &AnalyzeImageOptions<'_>, field: QueryField) -> bool {
        forall|other_field: QueryField|
            other_field != field ==> #[trigger] self.part(other_field) == other.part(other_field)
    }

    /// Every field is absent, an empty list or an empty text.
    pub open spec fn asks_nothing(&self) -> bool {
        &&& self.visual_features matches Some(list) ==> list@.len() == 0
        &&& self.details matches Some(list) ==> list@.len() == 0
        &&& self.language matches Some(text) ==> text@.len() == 0
        &&& self.description_exclude matches Some(list) ==> list@.len() == 0
        &&& self.model_version matches Some(text) ==> text@.len() == 0
    }
}

/// What an image is given as: the address at which the service can fetch it,
/// or its bytes.
#[derive(Debug, Clone, Copy)]
pub enum ImageInput<'a> {
    /// Publicly reachable URL of an image.
    Url(&'a str),
    /// Image bytes.
    Data(&'a [u8]),
}

/// The body of a request.
#[derive(Debug)]
pub enum RequestBody {
    /// A JSON document that names the image by its address.
    Json(ImageUrl),
    /// The image itself, sent as `application/octet-stream`.
    Bytes(Vec<u8>),
}

/// One request of the analyze operation, the method of which is always POST.
#[derive(Debug)]
pub struct AnalyzeRequest {
    /// The address of the operation.
    pub url: String,
    /// The query parameters, in the order in which they are sent.
    pub query: Vec<(&'static str, String)>,
    /// The body.
    pub body: RequestBody,
}

/// What came of decoding the body of a response against the shape that its
/// status asks for.
#[derive(Debug)]
pub enum Decoded<T> {
    /// The body of a successful response, decoded as the result.
    Analysis(T),
    /// The body of any other response, decoded as the error envelope.
    ApiError(ComputerVisionErrorResponse),
    /// The body did not have the expected shape, or could not be read.
    Failed(HttpError),
}

/// Client for the Analyze Image API v3.2.
#[derive(Debug)]
pub struct Client {
    client: HttpClient,
    url: String,
}

impl Clone for Client {
    /// A second handle on the same HTTP client, for the same address.
    fn clone(&self) -> (r: Self)
        ensures
            r.url_spec() == self.url_spec(),
            r.default_headers_spec() == self.default_headers_spec(),
    {
        Client { client: self.client.clone(), url: self.url.clone() }
    }
}

impl Client {
    /// The address of the analyze operation.
    pub closed spec fn url_spec(&self) -> Seq<char> {
        self.url@
    }

    /// The HTTP client that carries the key.
    pub closed spec fn http_client_spec(&self) -> HttpClient {
        self.client
    }

    /// The headers that the client sends with every request.
    pub open spec fn default_headers_spec(&self) -> Map<Seq<char>, (Seq<u8>, bool)> {
        http_client_default_headers(self.http_client_spec())
    }

    /// Creates a new `Client` from an Azure AI Services key and the endpoint
    /// of a Computer Vision resource.
    ///
    /// A key that cannot stand in an HTTP header is refused. With any other
    /// key the call fails only if the HTTP client cannot be built. The client
    /// sends the key, marked as sensitive, with every request. It
    /// speaks to the endpoint followed by `vision/v3.2/analyze`; the endpoint
    /// is taken as it is.
    pub fn new(key: String, endpoint: &str) -> (r: Result<Self, Error>)
        ensures
            !is_header_text(key@) ==> r matches Err(
                Error::Validation(ValidationError::InvalidHeaderValue(_)),
            ),
            is_header_text(key@) ==> r is Ok || r matches Err(Error::Reqwest(_)),
            r matches Ok(c) ==> c.url_spec() == endpoint@ + ANALYZE_PATH@,
            r matches Ok(c) ==> subscription_headers_spec(key@).submap_of(c.default_headers_spec()),
    {
        let secret = Secret::new(key);
        match Self::create_http_client(secret) {
            Ok(client) => {
                let mut url = endpoint.to_owned();
                url.append(ANALYZE_PATH);
                Ok(Client { client, url })
            },
            Err(e) => Err(e),
        }
    }

    /// The address of the analyze operation.
    pub fn url(&self) -> (r: &str)
        ensures
            r@ == self.url_spec(),
    {
        self.url.as_str()
    }

    /// The HTTP client that carries the key.
    pub fn http_client(&self) -> (r: &HttpClient)
        ensures
            *r == self.http_client_spec(),
    {
        &self.client
    }

    /// Puts together the request that analyzes `input` with `options`: the
    /// address of this client, the parameters of the options, and a body that
    /// is the JSON document `{"url": ..}` for an address and the bytes
    /// themselves for an image.
    pub fn request(&self, input: ImageInput<'_>, options: &AnalyzeImageOptions<'_>) -> (r:
        AnalyzeRequest)
        ensures
            r.url@ == self.url_spec(),
            params_view(r.query@) == options.query_spec(),
            match input {
                ImageInput::Url(image_url) => r.body matches RequestBody::Json(doc)
                    && doc.url@ == image_url@,
                ImageInput::Data(image_data) => r.body matches RequestBody::Bytes(bytes)
                    && bytes@ == image_data@,
            },
    {
        let query = Self::build_query_params(options);
        let body = match input {
            ImageInput::Url(image_url) => RequestBody::Json(ImageUrl { url: image_url.to_owned() }),
            ImageInput::Data(image_data) => RequestBody::Bytes(slice_to_vec(image_data)),
        };
        AnalyzeRequest { url: self.url.clone(), query, body }
    }

    /// Turns a decoded body into the outcome of the call: the result, the
    /// error of the API with the envelope as it was sent, or the failure to
    /// decode.
    pub fn handle_response<T>(decoded: Decoded<T>) -> (r: Result<T, Error>)
        ensures
            r == match decoded {
                Decoded::Analysis(analysis) => Ok::<T, Error>(analysis),
                Decoded::ApiError(envelope) => Err(Error::API(envelope)),
                Decoded::Failed(e) => Err(Error::Reqwest(e)),
            },
    {
        match decoded {
            Decoded::Analysis(analysis) => Ok(analysis),
            Decoded::ApiError(envelope) => Err(Error::API(envelope)),
            Decoded::Failed(e) => Err(Error::Reqwest(e)),
        }
    }

    /// The query parameters of `options`, in the order `visualFeatures`,
    /// `details`, `language`, `descriptionExclude`, `model-version`. A field
    /// that is absent, an empty list or an empty text gives no parameter; a
    /// list gives the names of its items, joined by commas in their order.
    pub fn build_query_params(options: &AnalyzeImageOptions<'_>) -> (r: Vec<(&'static str, String)>)
        ensures
            params_view(r@) == options.query_spec(),
    {
        let mut query_params: Vec<(&'static str, String)> = Vec::new();
        let ghost mut sent: Seq<ParamText> = seq![];

        if let Some(visual_features) = options.visual_features {
            if visual_features.len() > 0 {
                query_params.push(("visualFeatures", join_names(visual_features)));
            }
        }
        proof {
            sent = sent + options.part(QueryField::VisualFeatures);
            assert(params_view(query_params@) =~= sent);
        }

        if let Some(details) = options.details {
            if details.len() > 0 {
                query_params.push(("details", join_names(details)));
            }
        }
        proof {
            sent = sent + options.part(QueryField::Details);
            assert(params_view(query_params@) =~= sent);
        }

        if let Some(lang) = options.language {
            if !lang.is_empty() {
                query_params.push(("language", lang.to_owned()));
            }
        }
        proof {
            sent = sent + options.part(QueryField::Language);
            assert(params_view(query_params@) =~= sent);
        }

        if let Some(exclude) = options.description_exclude {
            if exclude.len() > 0 {
                query_params.push(("descriptionExclude", join_names(exclude)));
            }
        }
        proof {
            sent = sent + options.part(QueryField::DescriptionExclude);
            assert(params_view(query_params@) =~= sent);
        }

        if let Some(version) = options.model_version {
            if !version.is_empty() {
                query_params.push(("model-version", version.to_owned()));
            }
        }
        proof {
            sent = sent + options.part(QueryField::ModelVersion);
            assert(params_view(query_params@) =~= sent);
        }

        query_params
    }

    /// The query string of `options`: the parameters of
    /// [`Client::build_query_params`] as `name=value`, joined by `&`, with
    /// nothing escaped.
    pub fn query_string(options: &AnalyzeImageOptions<'_>) -> (r: String)
        ensures
            r@ == rendered(options.query_spec()),
    {
        let query_params = Self::build_query_params(options);
        render_query(&query_params)
    }

    /// Builds the HTTP client that sends `key` with every request.
    ///
    /// A key that cannot stand in an HTTP header is refused. With any other
    /// key the call fails only if the HTTP client cannot be built.
    pub fn create_http_client(key: Secret) -> (r: Result<HttpClient, Error>)
        ensures
            !is_header_text(key@) ==> r matches Err(
                Error::Validation(ValidationError::InvalidHeaderValue(_)),
            ),
            is_header_text(key@) ==> r is Ok || r matches Err(Error::Reqwest(_)),
            r matches Ok(client) ==> subscription_headers_spec(key@).submap_of(
                http_client_default_headers(client),
            ),
    {
        let headers = match Self::create_headers(&key) {
            Ok(headers) => headers,
            Err(e) => {
                return Err(Error::Validation(e));
            },
        };
        Self::built_client(build_http_client(headers))
    }

    /// Says what becomes of an attempt to build the HTTP client: the client,
    /// or the error of the HTTP layer as an [`Error::Reqwest`].
    pub fn built_client(built: Result<HttpClient, HttpError>) -> (r: Result<
        HttpClient,
        Error,
    >)
        ensures
            r == match built {
                Ok(client) => Ok::<HttpClient, Error>(client),
                Err(e) => Err(Error::Reqwest(e)),
            },
    {
        match built {
            Ok(client) => Ok(client),
            Err(e) => Err(Error::Reqwest(e)),
        }
    }

    /// Builds the headers that the client sends with every request.
    ///
    /// Fails exactly when the key cannot stand in a header. Otherwise the map
    /// holds the key, marked as sensitive, under `Ocp-Apim-Subscription-Key`,
    /// and `application/octet-stream` as the content type.
    pub fn create_headers(key: &Secret) -> (r: Result<HeaderMap, ValidationError>)
        ensures
            r.is_ok() <==> is_header_text(key@),
            r matches Ok(m) ==> header_map_entries(m) == subscription_headers_spec(key@),
    {
        match subscription_headers(key) {
            Ok(headers) => Ok(headers),
            Err(e) => Err(ValidationError::InvalidHeaderValue(e)),
        }
    }
}

/// No two fields share the name of their query parameter.
pub proof fn lemma_field_names_differ(a: QueryField, b: QueryField)
    ensures
        a.name() == b.name() <==> a == b,
{
    reveal_strlit("visualFeatures");
    reveal_strlit("details");
    reveal_strlit("language");
    reveal_strlit("descriptionExclude");
    reveal_strlit("model-version");
    assert(a.name().len() == b.name().len() ==> a == b);
}

/// Options that ask for nothing send no query parameter at all, and only
/// they do: a field that is absent counts as much as an empty list or an
/// empty text.
pub proof fn lemma_nothing_asked_nothing_sent(options: AnalyzeImageOptions<'_>)
    ensures
        options.asks_nothing() <==> options.query_spec() == Seq::<ParamText>::empty(),
        options.asks_nothing() ==> rendered(options.query_spec()) == Seq::<char>::empty(),
{
    if options.asks_nothing() {
        assert(options.query_spec() =~= Seq::empty());
        assert(options.query_spec().map_values(
            |param: ParamText| crate::common::query::rendered_param(param),
        ).len() == 0);
    } else {
        assert(options.query_spec().len() > 0);
    }
}

/// Each field has a parameter of its own. The parameters that go by the name
/// of a field are what that field contributes: nothing, or one parameter
/// whose value is the text, or the names of the list joined by commas in the
/// order given. And what goes by any other name does not depend on the
/// field: two options that differ in that field alone send the same other
/// parameters.
pub proof fn lemma_fields_are_independent(
    a: AnalyzeImageOptions<'_>,
    b: AnalyzeImageOptions<'_>,
    field: QueryField,
)
    requires
        a.same_but(&b, field),
    ensures
        named(a.query_spec(), field.name()) == a.part(field),
        is_part(a.part(field), field.name()),
        not_named(a.query_spec(), field.name()) == not_named(b.query_spec(), field.name()),
{
    lemma_query_by_name(a, field);
    lemma_query_by_name(b, field);
    lemma_part_is_part(a, field);
    lemma_rest_by_name(a, b, field, QueryField::VisualFeatures);
    lemma_rest_by_name(a, b, field, QueryField::Details);
    lemma_rest_by_name(a, b, field, QueryField::Language);
    lemma_rest_by_name(a, b, field, QueryField::DescriptionExclude);
    lemma_rest_by_name(a, b, field, QueryField::ModelVersion);
}

/// A field that is given, and neither an empty list nor an empty text, is
/// sent exactly once under its name: a text as it is, a list as the names of
/// its items joined by commas in the order given.
pub proof fn lemma_given_fields_are_sent_once(options: AnalyzeImageOptions<'_>)
    ensures
        options.visual_features_spec() matches Some(list) ==> (list.len() > 0 ==> named(
            options.query_spec(),
            "visualFeatures"@,
        ) == seq![("visualFeatures"@, joined(names_of(list), ","@))]),
        options.details_spec() matches Some(list) ==> (list.len() > 0 ==> named(
            options.query_spec(),
            "details"@,
        ) == seq![("details"@, joined(names_of(list), ","@))]),
        options.language_spec() matches Some(text) ==> (text.len() > 0 ==> named(
            options.query_spec(),
            "language"@,
        ) == seq![("language"@, text)]),
        options.description_exclude_spec() matches Some(list) ==> (list.len() > 0 ==> named(
            options.query_spec(),
            "descriptionExclude"@,
        ) == seq![("descriptionExclude"@, joined(names_of(list), ","@))]),
        options.model_version_spec() matches Some(text) ==> (text.len() > 0 ==> named(
            options.query_spec(),
            "model-version"@,
        ) == seq![("model-version"@, text)]),
{
    lemma_named_is_part(options, QueryField::VisualFeatures);
    lemma_named_is_part(options, QueryField::Details);
    lemma_named_is_part(options, QueryField::Language);
    lemma_named_is_part(options, QueryField::DescriptionExclude);
    lemma_named_is_part(options, QueryField::ModelVersion);
}

/// The parameters that go by the name of a field are what the field
/// contributes.
proof fn lemma_named_is_part(options: AnalyzeImageOptions<'_>, field: QueryField)
    ensures
        named(options.query_spec(), field.name()) == options.part(field),
{
    lemma_query_by_name(options, field);
}

/// Leaving out what goes by the name of `field` leaves the same of every
/// contribution of two options that differ in `field` alone.
proof fn lemma_rest_by_name(
    a: AnalyzeImageOptions<'_>,
    b: AnalyzeImageOptions<'_>,
    field: QueryField,
    other_field: QueryField,
)
    requires
        a.same_but(&b, field),
    ensures
        not_named(a.part(other_field), field.name()) == not_named(
            b.part(other_field),
            field.name(),
        ),
{
    if other_field == field {
        lemma_part_is_part(a, field);
        lemma_part_is_part(b, field);
        lemma_part_by_name(a.part(field), field.name(), field.name());
        lemma_part_by_name(b.part(field), field.name(), field.name());
    } else {
        assert(a.part(other_field) == b.part(other_field));
    }
}

/// What a field contributes goes by the name of the field.
proof fn lemma_part_is_part(options: AnalyzeImageOptions<'_>, field: QueryField)
    ensures
        is_part(options.part(field), field.name()),
{
    lemma_contributions_are_parts::<VisualFeatureTypes>(field.name(), None, None, None);
}

/// Looking for a name in a list that is followed by the contribution of one
/// field: the contribution counts in full under its own name, and not at all
/// under any other.
proof fn lemma_step_by_name(
    options: AnalyzeImageOptions<'_>,
    front: Seq<ParamText>,
    field: QueryField,
    wanted: Seq<char>,
)
    ensures
        wanted == field.name() ==> named(front + options.part(field), wanted) == named(
            front,
            wanted,
        ) + options.part(field),
        wanted != field.name() ==> named(front + options.part(field), wanted) == named(
            front,
            wanted,
        ),
        not_named(front + options.part(field), wanted) == not_named(front, wanted) + not_named(
            options.part(field),
            wanted,
        ),
{
    lemma_part_is_part(options, field);
    lemma_part_by_name(options.part(field), field.name(), wanted);
    lemma_by_name_in_both(front, options.part(field), wanted);
    assert(named(front, wanted) + Seq::<ParamText>::empty() =~= named(front, wanted));
}

/// Looking for the name of a field in a query is looking for it in the
/// contribution of every field.
proof fn lemma_query_by_name(options: AnalyzeImageOptions<'_>, field: QueryField)
    ensures
        named(options.query_spec(), field.name()) == options.part(field),
        not_named(options.query_spec(), field.name()) == not_named(
            options.part(QueryField::VisualFeatures),
            field.name(),
        ) + not_named(options.part(QueryField::Details), field.name()) + not_named(
            options.part(QueryField::Language),
            field.name(),
        ) + not_named(options.part(QueryField::DescriptionExclude), field.name()) + not_named(
            options.part(QueryField::ModelVersion),
            field.name(),
        ),
{
    let wanted = field.name();
    lemma_field_names_differ(QueryField::VisualFeatures, field);
    lemma_field_names_differ(QueryField::Details, field);
    lemma_field_names_differ(QueryField::Language, field);
    lemma_field_names_differ(QueryField::DescriptionExclude, field);
    lemma_field_names_differ(QueryField::ModelVersion, field);
    let q0 = Seq::<ParamText>::empty();
    lemma_part_by_name(q0, wanted, wanted);
    let q1 = q0 + options.part(QueryField::VisualFeatures);
    lemma_step_by_name(options, q0, QueryField::VisualFeatures, wanted);
    let q2 = q1 + options.part(QueryField::Details);
    lemma_step_by_name(options, q1, QueryField::Details, wanted);
    let q3 = q2 + options.part(QueryField::Language);
    lemma_step_by_name(options, q2, QueryField::Language, wanted);
    let q4 = q3 + options.part(QueryField::DescriptionExclude);
    lemma_step_by_name(options, q3, QueryField::DescriptionExclude, wanted);
    lemma_step_by_name(options, q4, QueryField::ModelVersion, wanted);
    assert(q1 =~= options.part(QueryField::VisualFeatures));
    assert(named(options.query_spec(), wanted) =~= options.part(field));
    assert(not_named(options.query_spec(), wanted) =~= not_named(
        options.part(QueryField::VisualFeatures),
        wanted,
    ) + not_named(options.part(QueryField::Details), wanted) + not_named(
        options.part(QueryField::Language),
        wanted,
    ) + not_named(options.part(QueryField::DescriptionExclude), wanted) + not_named(
        options.part(QueryField::ModelVersion),
        wanted,
    ));
}

/// Building the query is a function of the values alone: options that hold
/// the same values give the same parameters in the same order, and so the
/// same query string, however often and from wherever they are built.
pub proof fn lemma_same_values_same_query(a: AnalyzeImageOptions<'_>, b: AnalyzeImageOptions<'_>)
    requires
        a.same_values(&b),
    ensures
        a.query_spec() == b.query_spec(),
        rendered(a.query_spec()) == rendered(b.query_spec()),
{
}

} // verus!
