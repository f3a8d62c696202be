//! From an HTTP request to what is asked of the store, and from what the store said to the HTTP
//! response.

use crate::text::{
    lemma_further_segment, lemma_plain_segment, lemma_segments_stay, numeral_i32, parse_i32,
    path_segments, segments, without_leading_slashes,
};
use crate::types::{
    outcome, text_option, DeleteObjectRequest, DeleteObjectRequestView, GetObjectRequest,
    GetObjectRequestView, ListKeyVersionsRequest, ListKeyVersionsRequestView, PutObjectRequest,
    PutObjectRequestView, VssError, VssErrorView,
};
use vstd::prelude::*;

verus! {

// ---------------------------------------------------------------------------------------------
// Paths and methods
// ---------------------------------------------------------------------------------------------

/// The store id and the key that a path names: its second and third segments, where the first is
/// `v1` and there are at least three.
pub open spec fn path_components(path: Seq<char>) -> Option<(Seq<char>, Seq<char>)> {
    let parts = segments(without_leading_slashes(path));
    if parts.len() >= 3 && parts[0] == "v1"@ {
        Some((parts[1], parts[2]))
    } else {
        None
    }
}

/// Extracts the store id and the key from a path like `/v1/store123/key456`.
pub fn extract_path_components(path: &str) -> (components: Option<(String, String)>)
    ensures
        match components {
            Some((store_id, key)) => path_components(path@) == Some((store_id@, key@)),
            None => path_components(path@) is None,
        },
{
    let parts = path_segments(path);
    let ghost views = parts@.map_values(|part: String| part@);
    assert(forall|i: int| 0 <= i < parts@.len() ==> views[i] == #[trigger] parts@[i]@);
    if parts.len() >= 3 && parts[0] == "v1".to_owned() {
        Some((parts[1].clone(), parts[2].clone()))
    } else {
        None
    }
}

/// The path of a key in a store.
pub open spec fn object_path(store_id: Seq<char>, key: Seq<char>) -> Seq<char> {
    "/v1/"@ + store_id + "/"@ + key
}

/// The path of a key in a store names that store and that key, where neither has a slash in it.
/// What follows the key after a further slash makes no difference.
pub proof fn law_object_path_names_store_and_key(
    store_id: Seq<char>,
    key: Seq<char>,
    rest: Seq<char>,
)
    requires
        !store_id.contains('/'),
        !key.contains('/'),
    ensures
        path_components(object_path(store_id, key)) == Some((store_id, key)),
        path_components(object_path(store_id, key) + "/"@ + rest) == Some((store_id, key)),
{
    reveal_strlit("/v1/");
    reveal_strlit("v1");
    reveal_strlit("/");
    reveal_with_fuel(without_leading_slashes, 2);
    let slash = seq!['/'];
    let with_store = "v1"@ + slash + store_id;
    let with_key = with_store + slash + key;
    let path = object_path(store_id, key);
    assert(path.skip(1) =~= with_key);
    assert(path[0] == '/');
    assert(with_key[0] == 'v');
    let longer = path + "/"@ + rest;
    assert(longer.skip(1) =~= with_key + slash + rest);
    assert(longer[0] == '/');
    assert((with_key + slash + rest)[0] == 'v');
    assert(!("v1"@).contains('/')) by {
        assert("v1"@ =~= seq!['v', '1']);
    }
    lemma_plain_segment("v1"@);
    lemma_further_segment("v1"@, store_id);
    lemma_further_segment(with_store, key);
    lemma_segments_stay(with_key, rest);
}

/// A slash at the beginning of a path makes no difference.
pub proof fn law_leading_slash_makes_no_difference(path: Seq<char>)
    ensures
        path_components(seq!['/'] + path) == path_components(path),
{
    assert((seq!['/'] + path).skip(1) =~= path);
}

/// What a method and a path ask for.
#[derive(Debug, PartialEq, Eq)]
pub enum Route {
    Get { store_id: String, key: String },
    List { store_id: String },
    Put { store_id: String },
    Delete { store_id: String },
    Unknown,
}

pub enum RouteView {
    Get { store_id: Seq<char>, key: Seq<char> },
    List { store_id: Seq<char> },
    Put { store_id: Seq<char> },
    Delete { store_id: Seq<char> },
    Unknown,
}

impl View for Route {
    type V = RouteView;

    open spec fn view(&self) -> RouteView {
        match self {
            Route::Get { store_id, key } => RouteView::Get { store_id: store_id@, key: key@ },
            Route::List { store_id } => RouteView::List { store_id: store_id@ },
            Route::Put { store_id } => RouteView::Put { store_id: store_id@ },
            Route::Delete { store_id } => RouteView::Delete { store_id: store_id@ },
            Route::Unknown => RouteView::Unknown,
        }
    }
}

/// What a method and a path ask for. The path `/v1/{store_id}/list`, and no other way to write it,
/// stands for the list of the keys of a store.
pub open spec fn route_of(method: Seq<char>, path: Seq<char>) -> RouteView {
    match path_components(path) {
        Some((store_id, key)) => if method == "GET"@ {
            if path == object_path(store_id, "list"@) {
                RouteView::List { store_id }
            } else {
                RouteView::Get { store_id, key }
            }
        } else if method == "POST"@ {
            RouteView::Put { store_id }
        } else if method == "DELETE"@ {
            RouteView::Delete { store_id }
        } else {
            RouteView::Unknown
        },
        None => RouteView::Unknown,
    }
}

/// The path of the list of the keys of a store.
fn list_path(store_id: &str) -> (path: String)
    ensures
        path@ == object_path(store_id@, "list"@),
{
    proof {
        reveal_strlit("/list");
        reveal_strlit("/");
        reveal_strlit("list");
    }
    let mut path = "/v1/".to_owned();
    path.append(store_id);
    path.append("/list");
    assert(path@ =~= object_path(store_id@, "list"@));
    path
}

/// What a method and a path ask for.
pub fn route(method: &str, path: &str) -> (route: Route)
    ensures
        route@ == route_of(method@, path@),
{
    let method = method.to_owned();
    let path_text = path.to_owned();
    match extract_path_components(path) {
        Some((store_id, key)) => if method == "GET".to_owned() {
            if path_text == list_path(store_id.as_str()) {
                Route::List { store_id }
            } else {
                Route::Get { store_id, key }
            }
        } else if method == "POST".to_owned() {
            Route::Put { store_id }
        } else if method == "DELETE".to_owned() {
            Route::Delete { store_id }
        } else {
            Route::Unknown
        },
        None => Route::Unknown,
    }
}

/// The list of a store is asked for by its path alone: with more behind a further slash, or with
/// more or fewer slashes before it, the path asks for the key `list`.
pub proof fn law_list_has_one_path(store_id: Seq<char>, rest: Seq<char>)
    requires
        !store_id.contains('/'),
    ensures
        ({
            let path = object_path(store_id, "list"@);
            let get = RouteView::Get { store_id, key: "list"@ };
            &&& route_of("GET"@, path) == RouteView::List { store_id }
            &&& route_of("GET"@, path + "/"@ + rest) == get
            &&& route_of("GET"@, "/"@ + path) == get
            &&& route_of("GET"@, path.skip(1)) == get
        }),
{
    let path = object_path(store_id, "list"@);
    reveal_strlit("list");
    reveal_strlit("/");
    assert(!"list"@.contains('/')) by {
        assert("list"@ =~= seq!['l', 'i', 's', 't']);
    }
    law_object_path_names_store_and_key(store_id, "list"@, rest);
    assert((path + "/"@ + rest).len() > path.len());
    assert("/"@ =~= seq!['/']);
    assert(("/"@ + path).len() > path.len());
    law_leading_slash_makes_no_difference(path);
    reveal_strlit("/v1/");
    assert(seq!['/'] + path.skip(1) =~= path);
    law_leading_slash_makes_no_difference(path.skip(1));
}

// ---------------------------------------------------------------------------------------------
// Users
// ---------------------------------------------------------------------------------------------

/// The user that an authorization header names: the bearer token, or `default_user` where there
/// is no header or it holds no bearer token.
pub open spec fn user_of(authorization: Option<Seq<char>>) -> Seq<char> {
    match authorization {
        Some(header) => if "Bearer "@.is_prefix_of(header) {
            header.skip("Bearer "@.len() as int)
        } else {
            "default_user"@
        },
        None => "default_user"@,
    }
}

/// What a text that may be absent holds.
pub open spec fn str_option(text: Option<&str>) -> Option<Seq<char>> {
    match text {
        Some(t) => Some(t@),
        None => None,
    }
}

/// The user that an authorization header names.
pub fn user_token(authorization: Option<&str>) -> (user: String)
    ensures
        user@ == user_of(str_option(authorization)),
{
    proof {
        reveal_strlit("Bearer ");
    }
    if let Some(header) = authorization {
        let len: usize = header.unicode_len();
        if len >= 7 {
            let scheme = header.substring_char(0, 7).to_owned();
            let ghost prefix = "Bearer "@;
            if scheme == "Bearer ".to_owned() {
                assert(prefix.is_prefix_of(header@)) by {
                    assert forall|i: int| 0 <= i < prefix.len() implies prefix[i] == header@[i] by {
                        assert(scheme@[i] == header@[i]);
                    }
                }
                let token = header.substring_char(7, len).to_owned();
                assert(token@ =~= header@.skip(7));
                return token;
            }
            assert(!prefix.is_prefix_of(header@)) by {
                if prefix.is_prefix_of(header@) {
                    assert(scheme@ =~= prefix);
                }
            }
        }
    }
    "default_user".to_owned()
}

// ---------------------------------------------------------------------------------------------
// Responses
// ---------------------------------------------------------------------------------------------

/// An HTTP response.
#[derive(Debug, PartialEq, Eq)]
pub struct HttpResponse {
    pub status: u16,
    pub content_type: Option<String>,
    pub body: String,
}

pub struct HttpResponseView {
    pub status: u16,
    pub content_type: Option<Seq<char>>,
    pub body: Seq<char>,
}

impl View for HttpResponse {
    type V = HttpResponseView;

    open spec fn view(&self) -> HttpResponseView {
        HttpResponseView {
            status: self.status,
            content_type: text_option(self.content_type),
            body: self.body@,
        }
    }
}

/// The status that an error is answered with.
pub open spec fn error_status(error: VssErrorView) -> u16 {
    match error {
        VssErrorView::NoSuchKeyError(_) => 404,
        VssErrorView::ConflictError(_) => 409,
        VssErrorView::InvalidRequestError(_) => 400,
        VssErrorView::AuthError(_) => 401,
    }
}

/// The message that an error carries.
pub open spec fn error_message(error: VssErrorView) -> Seq<char> {
    match error {
        VssErrorView::NoSuchKeyError(message) => message,
        VssErrorView::ConflictError(message) => message,
        VssErrorView::InvalidRequestError(message) => message,
        VssErrorView::AuthError(message) => message,
    }
}

/// The response to a request that was refused.
pub open spec fn refusal(error: VssErrorView) -> HttpResponseView {
    HttpResponseView {
        status: error_status(error),
        content_type: Some("application/json"@),
        body: "{\"error\": \""@ + error_message(error) + "\"}"@,
    }
}

/// The response to a request that was carried out.
pub open spec fn success(body: Seq<char>) -> HttpResponseView {
    HttpResponseView { status: 200, content_type: Some("application/json"@), body }
}

/// The response where the body of a request is not what was asked for.
pub open spec fn invalid_json() -> HttpResponseView {
    HttpResponseView {
        status: 400,
        content_type: None,
        body: "Invalid JSON in request body"@,
    }
}

/// The response where a method and a path ask for nothing that there is.
pub open spec fn not_found() -> HttpResponseView {
    HttpResponseView { status: 404, content_type: None, body: "Not Found"@ }
}

/// The response to a request that was refused.
pub fn error_response(error: VssError) -> (response: HttpResponse)
    ensures
        response@ == refusal(error@),
{
    let (status, message): (u16, String) = match error {
        VssError::NoSuchKeyError(message) => (404, message),
        VssError::ConflictError(message) => (409, message),
        VssError::InvalidRequestError(message) => (400, message),
        VssError::AuthError(message) => (401, message),
    };
    let mut body = "{\"error\": \"".to_owned();
    body.append(message.as_str());
    body.append("\"}");
    HttpResponse { status, content_type: Some("application/json".to_owned()), body }
}

/// The response to what the store said: the text of its answer, or its error.
pub open spec fn response_of(result: Result<Seq<char>, VssErrorView>) -> HttpResponseView {
    match result {
        Ok(body) => success(body),
        Err(error) => refusal(error),
    }
}

/// The response to what the store said: the text of its answer, or its error.
pub fn store_response(result: Result<String, VssError>) -> (response: HttpResponse)
    ensures
        response@ == match result {
            Ok(body) => success(body@),
            Err(error) => refusal(error@),
        },
        response@ == response_of(outcome(result)),
{
    match result {
        Ok(body) => HttpResponse {
            status: 200,
            content_type: Some("application/json".to_owned()),
            body,
        },
        Err(error) => error_response(error),
    }
}

// ---------------------------------------------------------------------------------------------
// Handling a request
// ---------------------------------------------------------------------------------------------

/// The parameters of a list request, as the query of its address gives them.
#[derive(Debug, PartialEq, Eq)]
pub struct ListParameters {
    pub key_prefix: Option<String>,
    pub page_size: Option<String>,
    pub page_token: Option<String>,
}

pub struct ListParametersView {
    pub key_prefix: Option<Seq<char>>,
    pub page_size: Option<Seq<char>>,
    pub page_token: Option<Seq<char>>,
}

impl View for ListParameters {
    type V = ListParametersView;

    open spec fn view(&self) -> ListParametersView {
        ListParametersView {
            key_prefix: text_option(self.key_prefix),
            page_size: text_option(self.page_size),
            page_token: text_option(self.page_token),
        }
    }
}

/// The parameters of a list request, out of the names and values of a query.
pub open spec fn parameters_of(pairs: Seq<(String, String)>) -> ListParametersView {
    ListParametersView {
        key_prefix: first_value(pairs, "key_prefix"@),
        page_size: first_value(pairs, "page_size"@),
        page_token: first_value(pairs, "page_token"@),
    }
}

/// The first value that a query gives under a name.
pub open spec fn first_value(pairs: Seq<(String, String)>, name: Seq<char>) -> Option<Seq<char>>
    decreases pairs.len(),
{
    if pairs.len() == 0 {
        None
    } else if pairs[0].0@ == name {
        Some(pairs[0].1@)
    } else {
        first_value(pairs.skip(1), name)
    }
}

/// The first value that a query gives under a name.
fn find_first_value(pairs: &Vec<(String, String)>, name: &str) -> (value: Option<String>)
    ensures
        text_option(value) == first_value(pairs@, name@),
{
    let wanted = name.to_owned();
    let mut i: usize = 0;
    assert(pairs@.skip(0) =~= pairs@);
    while i < pairs.len()
        invariant
            i <= pairs@.len(),
            wanted@ == name@,
            first_value(pairs@, name@) == first_value(pairs@.skip(i as int), name@),
        decreases pairs@.len() - i,
    {
        assert(pairs@.skip(i as int)[0] == pairs@[i as int]);
        assert(pairs@.skip(i as int).skip(1) =~= pairs@.skip(i + 1));
        if pairs[i].0 == wanted {
            return Some(pairs[i].1.clone());
        }
        i = i + 1;
    }
    None
}

/// The parameters of a list request, out of the names and values of a query.
pub fn list_parameters(pairs: &Vec<(String, String)>) -> (parameters: ListParameters)
    ensures
        text_option(parameters.key_prefix) == first_value(pairs@, "key_prefix"@),
        text_option(parameters.page_size) == first_value(pairs@, "page_size"@),
        text_option(parameters.page_token) == first_value(pairs@, "page_token"@),
        parameters@ == parameters_of(pairs@),
{
    ListParameters {
        key_prefix: find_first_value(pairs, "key_prefix"),
        page_size: find_first_value(pairs, "page_size"),
        page_token: find_first_value(pairs, "page_token"),
    }
}

/// The list request for a store with the given parameters. A page size that is no 32-bit integer
/// is as good as none.
pub open spec fn list_request(
    store_id: Seq<char>,
    parameters: ListParameters,
) -> ListKeyVersionsRequestView {
    ListKeyVersionsRequestView {
        store_id,
        key_prefix: text_option(parameters.key_prefix),
        page_size: match parameters.page_size {
            Some(text) => numeral_i32(text@),
            None => None,
        },
        page_token: text_option(parameters.page_token),
    }
}

/// What to do with an HTTP request.
#[derive(Debug, PartialEq, Eq)]
pub enum HttpAction {
    /// Ask the store for a key.
    Get { user_token: String, object: GetObjectRequest },
    /// Ask the store for a page of its keys.
    List { user_token: String, page: ListKeyVersionsRequest },
    /// Read the body as a put request, and hand it back.
    ReadPut { user_token: String, store_id: String },
    /// Read the body as a delete request, and hand it back.
    ReadDelete { user_token: String, store_id: String },
    /// Answer at once.
    Respond(HttpResponse),
}

pub enum HttpActionView {
    Get { user_token: Seq<char>, object: GetObjectRequestView },
    List { user_token: Seq<char>, page: ListKeyVersionsRequestView },
    ReadPut { user_token: Seq<char>, store_id: Seq<char> },
    ReadDelete { user_token: Seq<char>, store_id: Seq<char> },
    Respond(HttpResponseView),
}

impl View for HttpAction {
    type V = HttpActionView;

    open spec fn view(&self) -> HttpActionView {
        match self {
            HttpAction::Get { user_token, object } => HttpActionView::Get {
                user_token: user_token@,
                object: object@,
            },
            HttpAction::List { user_token, page } => HttpActionView::List {
                user_token: user_token@,
                page: page@,
            },
            HttpAction::ReadPut { user_token, store_id } => HttpActionView::ReadPut {
                user_token: user_token@,
                store_id: store_id@,
            },
            HttpAction::ReadDelete { user_token, store_id } => HttpActionView::ReadDelete {
                user_token: user_token@,
                store_id: store_id@,
            },
            HttpAction::Respond(response) => HttpActionView::Respond(response@),
        }
    }
}

/// What to do with an HTTP request.
pub open spec fn http_action(
    method: Seq<char>,
    path: Seq<char>,
    authorization: Option<Seq<char>>,
    parameters: ListParameters,
) -> HttpActionView {
    let user_token = user_of(authorization);
    match route_of(method, path) {
        RouteView::Get { store_id, key } => HttpActionView::Get {
            user_token,
            object: GetObjectRequestView { store_id, key },
        },
        RouteView::List { store_id } => HttpActionView::List {
            user_token,
            page: list_request(store_id, parameters),
        },
        RouteView::Put { store_id } => HttpActionView::ReadPut { user_token, store_id },
        RouteView::Delete { store_id } => HttpActionView::ReadDelete { user_token, store_id },
        RouteView::Unknown => HttpActionView::Respond(not_found()),
    }
}

/// Decides what to do with an HTTP request.
pub fn handle_request(
    method: &str,
    path: &str,
    authorization: Option<&str>,
    parameters: ListParameters,
) -> (action: HttpAction)
    ensures
        action@ == http_action(method@, path@, str_option(authorization), parameters),
{
    let user_token = user_token(authorization);
    match route(method, path) {
        Route::Get { store_id, key } => HttpAction::Get {
            user_token,
            object: GetObjectRequest { store_id, key },
        },
        Route::List { store_id } => {
            let page_size: Option<i32> = match &parameters.page_size {
                Some(text) => parse_i32(text.as_str()),
                None => None,
            };
            HttpAction::List {
                user_token,
                page: ListKeyVersionsRequest {
                    store_id,
                    key_prefix: parameters.key_prefix,
                    page_size,
                    page_token: parameters.page_token,
                },
            }
        },
        Route::Put { store_id } => HttpAction::ReadPut { user_token, store_id },
        Route::Delete { store_id } => HttpAction::ReadDelete { user_token, store_id },
        Route::Unknown => HttpAction::Respond(
            HttpResponse { status: 404, content_type: None, body: "Not Found".to_owned() },
        ),
    }
}

fn invalid_json_response() -> (response: HttpResponse)
    ensures
        response@ == invalid_json(),
{
    HttpResponse {
        status: 400,
        content_type: None,
        body: "Invalid JSON in request body".to_owned(),
    }
}

/// The put request to carry out, for what was read from a body.
pub open spec fn put_request_of(store_id: Seq<char>, body: Option<PutObjectRequestView>) -> Result<
    PutObjectRequestView,
    HttpResponseView,
> {
    match body {
        Some(request) => Ok(PutObjectRequestView { store_id, ..request }),
        None => Err(invalid_json()),
    }
}

/// The delete request to carry out, for what was read from a body.
pub open spec fn delete_request_of(
    store_id: Seq<char>,
    body: Option<DeleteObjectRequestView>,
) -> Result<DeleteObjectRequestView, HttpResponseView> {
    match body {
        Some(request) => Ok(DeleteObjectRequestView { store_id, ..request }),
        None => Err(invalid_json()),
    }
}

/// The put request to carry out, for what was read from a body: it is for the store of the path,
/// whatever store the body names. A response where the body could not be read.
pub fn put_request_for(store_id: String, body: Option<PutObjectRequest>) -> (result: Result<
    PutObjectRequest,
    HttpResponse,
>)
    ensures
        match body {
            Some(request) => result matches Ok(r) && r@ == (PutObjectRequestView {
                store_id: store_id@,
                ..request@
            }),
            None => result matches Err(response) && response@ == invalid_json(),
        },
        ({
            let read = match body {
                Some(request) => Some(request@),
                None => None,
            };
            match result {
                Ok(request) => put_request_of(store_id@, read) == Ok::<
                    PutObjectRequestView,
                    HttpResponseView,
                >(request@),
                Err(response) => put_request_of(store_id@, read) == Err::<
                    PutObjectRequestView,
                    HttpResponseView,
                >(response@),
            }
        }),
{
    match body {
        Some(request) => Ok(
            PutObjectRequest {
                store_id,
                global_version: request.global_version,
                transaction_items: request.transaction_items,
                delete_items: request.delete_items,
            },
        ),
        None => Err(invalid_json_response()),
    }
}

/// The delete request to carry out, for what was read from a body: it is for the store of the
/// path, whatever store the body names. A response where the body could not be read.
pub fn delete_request_for(store_id: String, body: Option<DeleteObjectRequest>) -> (result: Result<
    DeleteObjectRequest,
    HttpResponse,
>)
    ensures
        match body {
            Some(request) => result matches Ok(r) && r@ == (DeleteObjectRequestView {
                store_id: store_id@,
                ..request@
            }),
            None => result matches Err(response) && response@ == invalid_json(),
        },
        ({
            let read = match body {
                Some(request) => Some(request@),
                None => None,
            };
            match result {
                Ok(request) => delete_request_of(store_id@, read) == Ok::<
                    DeleteObjectRequestView,
                    HttpResponseView,
                >(request@),
                Err(response) => delete_request_of(store_id@, read) == Err::<
                    DeleteObjectRequestView,
                    HttpResponseView,
                >(response@),
            }
        }),
{
    match body {
        Some(request) => Ok(DeleteObjectRequest { store_id, key_value: request.key_value }),
        None => Err(invalid_json_response()),
    }
}

/// Errors of different kinds are answered with different statuses, and none with a status of
/// success.
pub proof fn law_statuses_tell_errors_apart(a: VssErrorView, b: VssErrorView, body: Seq<char>)
    ensures
        400 <= refusal(a).status < 500,
        refusal(a).status != success(body).status,
        refusal(a).status == refusal(b).status <==> {
            ||| a is NoSuchKeyError && b is NoSuchKeyError
            ||| a is ConflictError && b is ConflictError
            ||| a is InvalidRequestError && b is InvalidRequestError
            ||| a is AuthError && b is AuthError
        },
{
}


/// A response is seen with all that it says, and so are the parameters of a list and a header.
pub proof fn law_http_parts_are_seen_whole(
    response: HttpResponse,
    parameters: ListParameters,
    header: &str,
)
    ensures
        response@.status == response.status,
        response@.content_type == text_option(response.content_type),
        response@.body == response.body@,
        parameters@.key_prefix == text_option(parameters.key_prefix),
        parameters@.page_size == text_option(parameters.page_size),
        parameters@.page_token == text_option(parameters.page_token),
        str_option(Some(header)) == Some(header@),
        str_option(None) is None,
{
}

/// A route, and what to do with a request, are seen with all that they say.
pub proof fn law_http_action_is_seen_whole(
    user_token: String,
    store_id: String,
    key: String,
    object: GetObjectRequest,
    page: ListKeyVersionsRequest,
    response: HttpResponse,
)
    ensures
        (Route::Get { store_id, key })@ == (RouteView::Get { store_id: store_id@, key: key@ }),
        (Route::List { store_id })@ == (RouteView::List { store_id: store_id@ }),
        (Route::Put { store_id })@ == (RouteView::Put { store_id: store_id@ }),
        (Route::Delete { store_id })@ == (RouteView::Delete { store_id: store_id@ }),
        Route::Unknown@ == RouteView::Unknown,
        (HttpAction::Get { user_token, object })@ == (HttpActionView::Get {
            user_token: user_token@,
            object: object@,
        }),
        (HttpAction::List { user_token, page })@ == (HttpActionView::List {
            user_token: user_token@,
            page: page@,
        }),
        (HttpAction::ReadPut { user_token, store_id })@ == (HttpActionView::ReadPut {
            user_token: user_token@,
            store_id: store_id@,
        }),
        (HttpAction::ReadDelete { user_token, store_id })@ == (HttpActionView::ReadDelete {
            user_token: user_token@,
            store_id: store_id@,
        }),
        HttpAction::Respond(response)@ == HttpActionView::Respond(response@),
{
}

} // verus!
