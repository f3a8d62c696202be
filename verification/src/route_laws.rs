//! What HTTP requests ask for, and how they are answered.

use crate::routes::{
    delete_request_of, first_value, http_action, law_leading_slash_makes_no_difference,
    law_object_path_names_store_and_key, object_path, parameters_of, path_components,
    put_request_of, response_of, route_of, user_of, HttpActionView, HttpResponseView,
    ListParameters, RouteView,
};
use crate::text::{
    decimal, joined, law_decimal_is_plain, law_only_leading_slashes_are_taken,
    law_segments_join_to_path, numeral_i32, segments, without_leading_slashes,
};
use crate::types::{
    text_option, DeleteObjectRequestView, GetObjectRequestView, PutObjectRequestView, VssErrorView,
};
use vstd::prelude::*;

verus! {

// ---------------------------------------------------------------------------------------------
// Users
// ---------------------------------------------------------------------------------------------

/// The user of a bearer token is the token, whole; so that different tokens are different users.
/// A header that is no bearer token, and no header, are the default user.
pub proof fn law_bearer_token_is_the_user(token: Seq<char>, other: Seq<char>, header: Seq<char>)
    ensures
        user_of(Some("Bearer "@ + token)) == token,
        user_of(Some("Bearer "@ + token)) == user_of(Some("Bearer "@ + other)) ==> token == other,
        !"Bearer "@.is_prefix_of(header) ==> user_of(Some(header)) == "default_user"@,
        user_of(None) == "default_user"@,
{
    assert(("Bearer "@ + token).skip("Bearer "@.len() as int) =~= token);
    assert(("Bearer "@ + other).skip("Bearer "@.len() as int) =~= other);
    assert("Bearer "@.is_prefix_of("Bearer "@ + token));
    assert("Bearer "@.is_prefix_of("Bearer "@ + other));
}

// ---------------------------------------------------------------------------------------------
// Paths
// ---------------------------------------------------------------------------------------------

/// A number of slashes.
pub open spec fn slashes(number: nat) -> Seq<char> {
    Seq::new(number, |i: int| '/')
}

/// What may follow the key in a path: nothing, or a slash and anything.
pub open spec fn is_tail(tail: Seq<char>) -> bool {
    tail.len() > 0 ==> tail[0] == '/'
}

proof fn lemma_slashes_make_no_difference(number: nat, path: Seq<char>)
    ensures
        path_components(slashes(number) + path) == path_components(path),
    decreases number,
{
    if number == 0 {
        assert(slashes(0) + path =~= path);
    } else {
        lemma_slashes_make_no_difference((number - 1) as nat, path);
        law_leading_slash_makes_no_difference(slashes((number - 1) as nat) + path);
        assert(slashes(number) + path =~= seq!['/'] + (slashes((number - 1) as nat) + path));
    }
}

/// A path of slashes, `v1`, a store and a key names that store and that key, however many slashes
/// it begins with and whatever follows after a further one.
pub proof fn law_path_names_store_and_key(
    number: nat,
    store_id: Seq<char>,
    key: Seq<char>,
    tail: Seq<char>,
)
    requires
        !store_id.contains('/'),
        !key.contains('/'),
        is_tail(tail),
    ensures
        path_components(slashes(number) + "v1/"@ + store_id + "/"@ + key + tail) == Some(
            (store_id, key),
        ),
{
    reveal_strlit("v1/");
    reveal_strlit("/v1/");
    reveal_strlit("/");
    let path = "v1/"@ + store_id + "/"@ + key + tail;
    let whole = slashes(number) + "v1/"@ + store_id + "/"@ + key + tail;
    assert(whole =~= slashes(number) + path);
    lemma_slashes_make_no_difference(number, path);
    law_leading_slash_makes_no_difference(path);
    if tail.len() == 0 {
        law_object_path_names_store_and_key(store_id, key, Seq::empty());
        assert(seq!['/'] + path =~= object_path(store_id, key));
    } else {
        law_object_path_names_store_and_key(store_id, key, tail.skip(1));
        assert(seq!['/'] + path =~= object_path(store_id, key) + "/"@ + tail.skip(1));
    }
}

proof fn lemma_joined_front(parts: Seq<Seq<char>>) -> (tail: Seq<char>)
    requires
        parts.len() >= 3,
    ensures
        is_tail(tail),
        joined(parts) == parts[0] + seq!['/'] + parts[1] + seq!['/'] + parts[2] + tail,
    decreases parts.len(),
{
    let front = parts[0] + seq!['/'] + parts[1] + seq!['/'] + parts[2];
    let before = parts.drop_last();
    if parts.len() == 3 {
        assert(before.drop_last() =~= seq![parts[0]]);
        assert(joined(before.drop_last()) == parts[0]);
        assert(joined(before) == parts[0] + seq!['/'] + parts[1]);
        let tail = Seq::<char>::empty();
        assert(joined(parts) =~= front + tail);
        tail
    } else {
        let earlier = lemma_joined_front(before);
        let tail = earlier + seq!['/'] + parts.last();
        assert(joined(parts) =~= front + tail);
        tail
    }
}

/// Nothing else names a store and a key: what a path names stands in it behind `v1`, free of
/// slashes.
pub proof fn law_store_and_key_stand_in_the_path(
    path: Seq<char>,
    store_id: Seq<char>,
    key: Seq<char>,
) -> (result: (nat, Seq<char>))
    requires
        path_components(path) == Some((store_id, key)),
    ensures
        !store_id.contains('/'),
        !key.contains('/'),
        is_tail(result.1),
        path == slashes(result.0) + "v1/"@ + store_id + "/"@ + key + result.1,
{
    reveal_strlit("v1/");
    reveal_strlit("v1");
    reveal_strlit("/");
    let rest = without_leading_slashes(path);
    let parts = segments(rest);
    law_only_leading_slashes_are_taken(path);
    law_segments_join_to_path(rest);
    let number = (path.len() - rest.len()) as nat;
    let tail = lemma_joined_front(parts);
    assert(!parts[1].contains('/'));
    assert(!parts[2].contains('/'));
    assert(path =~= slashes(number) + rest) by {
        assert(slashes(number) =~= Seq::new(number, |i: int| '/'));
    }
    assert(path =~= slashes(number) + "v1/"@ + store_id + "/"@ + key + tail);
    (number, tail)
}

/// The method says what is asked of the store that a path names: to get the key, to put or to
/// delete. The list is got by its own path. Any other method, and a path that names nothing, ask
/// for nothing that there is.
pub proof fn law_method_says_what_is_asked(
    method: Seq<char>,
    path: Seq<char>,
    store_id: Seq<char>,
    key: Seq<char>,
)
    ensures
        path_components(path) == Some((store_id, key)) ==> {
            &&& route_of("GET"@, path) == if path == "/v1/"@ + store_id + "/list"@ {
                RouteView::List { store_id }
            } else {
                RouteView::Get { store_id, key }
            }
            &&& route_of("POST"@, path) == RouteView::Put { store_id }
            &&& route_of("DELETE"@, path) == RouteView::Delete { store_id }
            &&& method != "GET"@ && method != "POST"@ && method != "DELETE"@ ==> route_of(
                method,
                path,
            ) is Unknown
        },
        path_components(path) is None ==> route_of(method, path) is Unknown,
{
    lemma_methods();
    lemma_list_path(store_id);
}

proof fn lemma_methods()
    ensures
        "GET"@.len() == 3,
        "POST"@.len() == 4,
        "DELETE"@.len() == 6,
{
    reveal_strlit("GET");
    reveal_strlit("POST");
    reveal_strlit("DELETE");
}

proof fn lemma_list_path(store_id: Seq<char>)
    ensures
        object_path(store_id, "list"@) == "/v1/"@ + store_id + "/list"@,
{
    reveal_strlit("/list");
    reveal_strlit("list");
    reveal_strlit("/");
    assert(object_path(store_id, "list"@) =~= "/v1/"@ + store_id + "/list"@);
}

// ---------------------------------------------------------------------------------------------
// Requests
// ---------------------------------------------------------------------------------------------

/// The list of a store is asked for with the prefix, the token and the size that are given, each
/// whether or not the others are. A size that is no numeral of 32 bits is as good as none.
pub proof fn law_list_is_asked_for_with_its_parameters(
    store_id: Seq<char>,
    authorization: Option<Seq<char>>,
    parameters: ListParameters,
)
    requires
        !store_id.contains('/'),
    ensures
        ({
            let path = "/v1/"@ + store_id + "/list"@;
            let action = http_action("GET"@, path, authorization, parameters);
            action matches HttpActionView::List { user_token, page } && {
                &&& user_token == user_of(authorization)
                &&& page.store_id == store_id
                &&& parameters.key_prefix is None ==> page.key_prefix is None
                &&& parameters.key_prefix matches Some(prefix) ==> page.key_prefix == Some(prefix@)
                &&& parameters.page_token is None ==> page.page_token is None
                &&& parameters.page_token matches Some(token) ==> page.page_token == Some(token@)
                &&& parameters.page_size is None ==> page.page_size is None
                &&& parameters.page_size matches Some(text) ==> page.page_size == numeral_i32(
                    text@,
                )
            }
        }),
{
    lemma_list_path(store_id);
    reveal_strlit("list");
    assert(!"list"@.contains('/')) by {
        assert("list"@ =~= seq!['l', 'i', 's', 't']);
    }
    law_object_path_names_store_and_key(store_id, "list"@, Seq::empty());
    law_method_says_what_is_asked("GET"@, "/v1/"@ + store_id + "/list"@, store_id, "list"@);
}

/// A size that is given as the numeral of a 32-bit integer is asked for as that integer.
pub proof fn law_page_size_is_read(
    store_id: Seq<char>,
    authorization: Option<Seq<char>>,
    parameters: ListParameters,
    size: i32,
)
    requires
        !store_id.contains('/'),
        text_option(parameters.page_size) == Some(decimal(size as int)),
    ensures
        ({
            let path = "/v1/"@ + store_id + "/list"@;
            let action = http_action("GET"@, path, authorization, parameters);
            action matches HttpActionView::List { user_token, page } && page.page_size == Some(size)
        }),
{
    law_list_is_asked_for_with_its_parameters(store_id, authorization, parameters);
    law_decimal_is_plain(size as i64);
}

/// What is asked of a store is asked for the user of the request: to get the key that the path
/// names, or to read the body for the store that it names. A path that names nothing, and a
/// method that there is not, are not found. The parameters of a list play no part in it.
pub proof fn law_request_is_for_its_user_store_and_key(
    method: Seq<char>,
    path: Seq<char>,
    authorization: Option<Seq<char>>,
    parameters: ListParameters,
    store_id: Seq<char>,
    key: Seq<char>,
)
    ensures
        path_components(path) == Some((store_id, key)) ==> {
            let user_token = user_of(authorization);
            &&& path != "/v1/"@ + store_id + "/list"@ ==> http_action(
                "GET"@,
                path,
                authorization,
                parameters,
            ) == (HttpActionView::Get {
                user_token,
                object: GetObjectRequestView { store_id, key },
            })
            &&& http_action("POST"@, path, authorization, parameters) == (HttpActionView::ReadPut {
                user_token,
                store_id,
            })
            &&& http_action("DELETE"@, path, authorization, parameters) == (
            HttpActionView::ReadDelete { user_token, store_id })
        },
        path_components(path) is None || (method != "GET"@ && method != "POST"@ && method
            != "DELETE"@) ==> http_action(method, path, authorization, parameters)
            == HttpActionView::Respond(
            HttpResponseView { status: 404, content_type: None, body: "Not Found"@ },
        ),
{
    law_method_says_what_is_asked(method, path, store_id, key);
    if path_components(path) is Some {
        let named = path_components(path)->0;
        law_method_says_what_is_asked(method, path, named.0, named.1);
    }
}

/// The value of a parameter is the first that the query gives under its name, and there is none
/// where the query gives none.
pub proof fn law_parameter_is_the_first_of_its_name(
    pairs: Seq<(String, String)>,
    name: Seq<char>,
    i: int,
)
    requires
        0 <= i <= pairs.len(),
        forall|j: int| 0 <= j < i ==> (#[trigger] pairs[j]).0@ != name,
    ensures
        i < pairs.len() && pairs[i].0@ == name ==> first_value(pairs, name) == Some(pairs[i].1@),
        i == pairs.len() ==> first_value(pairs, name) is None,
        parameters_of(pairs).key_prefix == first_value(pairs, "key_prefix"@),
        parameters_of(pairs).page_size == first_value(pairs, "page_size"@),
        parameters_of(pairs).page_token == first_value(pairs, "page_token"@),
    decreases pairs.len(),
{
    if i > 0 {
        let rest = pairs.skip(1);
        assert(pairs[0].0@ != name);
        assert forall|j: int| 0 <= j < i - 1 implies (#[trigger] rest[j]).0@ != name by {
            assert(rest[j] == pairs[j + 1]);
        }
        law_parameter_is_the_first_of_its_name(rest, name, i - 1);
    }
}

/// The request that is read from a body is carried out as it was read, but for the store of the
/// path. A body that could not be read is refused.
pub proof fn law_body_is_for_the_store_of_the_path(
    store_id: Seq<char>,
    put: PutObjectRequestView,
    delete: DeleteObjectRequestView,
)
    ensures
        put_request_of(store_id, Some(put)) matches Ok(request) && request.store_id == store_id
            && request.global_version == put.global_version && request.transaction_items
            == put.transaction_items && request.delete_items == put.delete_items,
        delete_request_of(store_id, Some(delete)) matches Ok(request) && request.store_id
            == store_id && request.key_value == delete.key_value,
        ({
            let refused = HttpResponseView {
                status: 400,
                content_type: None,
                body: "Invalid JSON in request body"@,
            };
            &&& put_request_of(store_id, None) == Err::<PutObjectRequestView, HttpResponseView>(
                refused,
            )
            &&& delete_request_of(store_id, None) == Err::<
                DeleteObjectRequestView,
                HttpResponseView,
            >(refused)
        }),
{
}

// ---------------------------------------------------------------------------------------------
// Responses
// ---------------------------------------------------------------------------------------------

/// What the store answers is the body of a success, whole. An error is answered with the status of
/// its kind, and with its message, whole, in the body.
pub proof fn law_response_carries_the_answer(body: Seq<char>, message: Seq<char>)
    ensures
        ({
            let json = Some("application/json"@);
            let error = "{\"error\": \""@ + message + "\"}"@;
            &&& response_of(Ok(body)) == HttpResponseView { status: 200, content_type: json, body }
            &&& response_of(Err(VssErrorView::NoSuchKeyError(message))) == HttpResponseView {
                status: 404,
                content_type: json,
                body: error,
            }
            &&& response_of(Err(VssErrorView::ConflictError(message))) == HttpResponseView {
                status: 409,
                content_type: json,
                body: error,
            }
            &&& response_of(Err(VssErrorView::InvalidRequestError(message))) == HttpResponseView {
                status: 400,
                content_type: json,
                body: error,
            }
            &&& response_of(Err(VssErrorView::AuthError(message))) == HttpResponseView {
                status: 401,
                content_type: json,
                body: error,
            }
        }),
{
}

} // verus!
