use bytes::Bytes;
use vss_server::routes::{
    delete_request_for, error_response, extract_path_components, handle_request, list_parameters,
    put_request_for, route, store_response, user_token, HttpAction, HttpResponse, ListParameters,
    Route,
};
use vss_server::types::{
    DeleteObjectRequest, GetObjectRequest, KeyValue, ListKeyVersionsRequest, PutObjectRequest,
    VssError,
};

fn components(store_id: &str, key: &str) -> Option<(String, String)> {
    Some((store_id.to_string(), key.to_string()))
}

fn no_parameters() -> ListParameters {
    ListParameters { key_prefix: None, page_size: None, page_token: None }
}

fn parameters_of(prefix: &str, size: &str, token: &str) -> ListParameters {
    ListParameters {
        key_prefix: Some(prefix.to_string()),
        page_size: Some(size.to_string()),
        page_token: Some(token.to_string()),
    }
}

#[test]
fn path_with_store_and_key() {
    assert_eq!(extract_path_components("/v1/store123/key456"), components("store123", "key456"));
}

#[test]
fn path_without_leading_slash() {
    assert_eq!(extract_path_components("v1/store123/key456"), components("store123", "key456"));
}

#[test]
fn path_with_several_leading_slashes() {
    assert_eq!(extract_path_components("///v1/store123/key456"), components("store123", "key456"));
}

#[test]
fn path_with_more_than_a_key() {
    assert_eq!(extract_path_components("/v1/s/k/more/still"), components("s", "k"));
    assert_eq!(extract_path_components("/v1/s/k/"), components("s", "k"));
}

#[test]
fn path_with_empty_parts() {
    assert_eq!(extract_path_components("/v1//k"), components("", "k"));
    assert_eq!(extract_path_components("/v1/s/"), components("s", ""));
    assert_eq!(extract_path_components("/v1//"), components("", ""));
}

#[test]
fn path_that_names_nothing() {
    for path in ["", "/", "/v1", "/v1/", "/v1/s", "/v2/s/k", "/V1/s/k", "/dev/v1/s/k", "/v11/s/k"] {
        assert_eq!(extract_path_components(path), None, "{}", path);
    }
}

#[test]
fn path_outside_ascii() {
    assert_eq!(extract_path_components("/v1/größe/日本"), components("größe", "日本"));
}

#[test]
fn routes_by_method() {
    assert_eq!(
        route("GET", "/v1/s/k"),
        Route::Get { store_id: "s".to_string(), key: "k".to_string() }
    );
    assert_eq!(route("POST", "/v1/s/k"), Route::Put { store_id: "s".to_string() });
    assert_eq!(route("DELETE", "/v1/s/k"), Route::Delete { store_id: "s".to_string() });
    for method in ["PUT", "PATCH", "HEAD", "get", ""] {
        assert_eq!(route(method, "/v1/s/k"), Route::Unknown);
    }
    for method in ["GET", "POST", "DELETE"] {
        assert_eq!(route(method, "/v1/s"), Route::Unknown);
    }
}

#[test]
fn route_to_the_list() {
    assert_eq!(route("GET", "/v1/s/list"), Route::List { store_id: "s".to_string() });
    assert_eq!(route("POST", "/v1/s/list"), Route::Put { store_id: "s".to_string() });
    assert_eq!(
        route("GET", "/v1/s/lists"),
        Route::Get { store_id: "s".to_string(), key: "lists".to_string() }
    );
    assert_eq!(route("GET", "/v1/größe/list"), Route::List { store_id: "größe".to_string() });
}

#[test]
fn list_has_one_path() {
    for path in ["/v1/s/list/x", "/v1/s/list/", "//v1/s/list", "v1/s/list", "/v1/s/list//"] {
        assert_eq!(
            route("GET", path),
            Route::Get { store_id: "s".to_string(), key: "list".to_string() },
            "{}",
            path
        );
    }
}

#[test]
fn parameters_are_the_first_of_their_names() {
    let pairs = |texts: &[(&str, &str)]| -> Vec<(String, String)> {
        texts.iter().map(|(name, value)| (name.to_string(), value.to_string())).collect()
    };
    assert_eq!(list_parameters(&pairs(&[])), no_parameters());
    assert_eq!(
        list_parameters(&pairs(&[
            ("page_token", "t"),
            ("other", "x"),
            ("page_size", "5"),
            ("key_prefix", "p"),
            ("page_size", "6"),
            ("page_token", ""),
        ])),
        parameters_of("p", "5", "t")
    );
    let parameters = list_parameters(&pairs(&[("page_size", ""), ("Key_Prefix", "p")]));
    assert_eq!(
        parameters,
        ListParameters { key_prefix: None, page_size: Some("".to_string()), page_token: None }
    );
}

#[test]
fn user_is_the_bearer_token() {
    assert_eq!(user_token(Some("Bearer your-token")), "your-token");
    assert_eq!(user_token(Some("Bearer ")), "");
    assert_eq!(user_token(Some("Bearer Bearer x")), "Bearer x");
    assert_eq!(user_token(Some("Bearer  x")), " x");
    assert_eq!(user_token(Some("Bearer schlüssel")), "schlüssel");
}

#[test]
fn user_without_bearer_token_is_the_default() {
    assert_eq!(user_token(None), "default_user");
    for header in ["", "Bearer", "bearer x", "Basic abc", "x Bearer y", " Bearer x"] {
        assert_eq!(user_token(Some(header)), "default_user", "{}", header);
    }
}

#[test]
fn errors_have_their_statuses() {
    let cases = vec![
        (VssError::NoSuchKeyError("a".to_string()), 404, "{\"error\": \"a\"}"),
        (VssError::ConflictError("b c".to_string()), 409, "{\"error\": \"b c\"}"),
        (VssError::InvalidRequestError("".to_string()), 400, "{\"error\": \"\"}"),
        (VssError::AuthError("d\"".to_string()), 401, "{\"error\": \"d\"\"}"),
    ];
    for (error, status, body) in cases {
        assert_eq!(
            error_response(error),
            HttpResponse {
                status,
                content_type: Some("application/json".to_string()),
                body: body.to_string(),
            }
        );
    }
}

#[test]
fn store_answers_become_responses() {
    assert_eq!(
        store_response(Ok("{}".to_string())),
        HttpResponse {
            status: 200,
            content_type: Some("application/json".to_string()),
            body: "{}".to_string(),
        }
    );
    assert_eq!(
        store_response(Err(VssError::ConflictError("Version mismatch".to_string()))),
        error_response(VssError::ConflictError("Version mismatch".to_string()))
    );
}

#[test]
fn get_is_asked_of_the_store() {
    assert_eq!(
        handle_request("GET", "/v1/store123/test-key", Some("Bearer your-token"), no_parameters()),
        HttpAction::Get {
            user_token: "your-token".to_string(),
            object: GetObjectRequest {
                store_id: "store123".to_string(),
                key: "test-key".to_string(),
            },
        }
    );
}

#[test]
fn list_is_asked_of_the_store() {
    assert_eq!(
        handle_request("GET", "/v1/s/list", None, parameters_of("pre", "50", "tok")),
        HttpAction::List {
            user_token: "default_user".to_string(),
            page: ListKeyVersionsRequest {
                store_id: "s".to_string(),
                key_prefix: Some("pre".to_string()),
                page_size: Some(50),
                page_token: Some("tok".to_string()),
            },
        }
    );
}

#[test]
fn list_with_unreadable_page_size() {
    for size in ["", "many", "2147483648", "1.5"] {
        assert_eq!(
            handle_request("GET", "/v1/s/list", None, parameters_of("", size, "")),
            HttpAction::List {
                user_token: "default_user".to_string(),
                page: ListKeyVersionsRequest {
                    store_id: "s".to_string(),
                    key_prefix: Some("".to_string()),
                    page_size: None,
                    page_token: Some("".to_string()),
                },
            }
        );
    }
}

#[test]
fn list_without_parameters() {
    assert_eq!(
        handle_request("GET", "/v1/s/list", None, no_parameters()),
        HttpAction::List {
            user_token: "default_user".to_string(),
            page: ListKeyVersionsRequest {
                store_id: "s".to_string(),
                key_prefix: None,
                page_size: None,
                page_token: None,
            },
        }
    );
}

#[test]
fn bodies_are_read_for_post_and_delete() {
    assert_eq!(
        handle_request("POST", "/v1/s/k", Some("Bearer u"), no_parameters()),
        HttpAction::ReadPut { user_token: "u".to_string(), store_id: "s".to_string() }
    );
    assert_eq!(
        handle_request("DELETE", "/v1/s/k", Some("Bearer u"), no_parameters()),
        HttpAction::ReadDelete { user_token: "u".to_string(), store_id: "s".to_string() }
    );
}

#[test]
fn unknown_routes_are_not_found() {
    let expected = HttpResponse { status: 404, content_type: None, body: "Not Found".to_string() };
    assert_eq!(
        handle_request("PUT", "/v1/s/k", None, no_parameters()),
        HttpAction::Respond(expected)
    );
    let expected = HttpResponse { status: 404, content_type: None, body: "Not Found".to_string() };
    assert_eq!(handle_request("GET", "/", None, no_parameters()), HttpAction::Respond(expected));
}

#[test]
fn put_is_for_the_store_of_the_path() {
    let body = PutObjectRequest {
        store_id: "other".to_string(),
        global_version: Some(4),
        transaction_items: vec![KeyValue {
            key: "k".to_string(),
            value: Bytes::from_static(b"v"),
            version: 1,
        }],
        delete_items: vec![KeyValue { key: "d".to_string(), value: Bytes::new(), version: -1 }],
    };
    assert_eq!(
        put_request_for("s".to_string(), Some(body)),
        Ok(PutObjectRequest {
            store_id: "s".to_string(),
            global_version: Some(4),
            transaction_items: vec![KeyValue {
                key: "k".to_string(),
                value: Bytes::from_static(b"v"),
                version: 1,
            }],
            delete_items: vec![KeyValue { key: "d".to_string(), value: Bytes::new(), version: -1 }],
        })
    );
}

#[test]
fn delete_is_for_the_store_of_the_path() {
    let body = DeleteObjectRequest {
        store_id: "other".to_string(),
        key_value: Some(KeyValue { key: "k".to_string(), value: Bytes::new(), version: 2 }),
    };
    assert_eq!(
        delete_request_for("s".to_string(), Some(body)),
        Ok(DeleteObjectRequest {
            store_id: "s".to_string(),
            key_value: Some(KeyValue { key: "k".to_string(), value: Bytes::new(), version: 2 }),
        })
    );
}

#[test]
fn unreadable_bodies_are_refused() {
    let response = put_request_for("s".to_string(), None).unwrap_err();
    assert_eq!(response.status, 400);
    assert_eq!(response.content_type, None);
    assert_eq!(response.body, "Invalid JSON in request body");
    let response = delete_request_for("s".to_string(), None).unwrap_err();
    assert_eq!(response.status, 400);
    assert_eq!(response.content_type, None);
    assert_eq!(response.body, "Invalid JSON in request body");
}
