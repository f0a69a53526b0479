use base64::engine::general_purpose::STANDARD;
use base64::Engine;
use vstd::prelude::*;
use vstd::utf8::{
    decode_utf8, decode_utf8_encode_utf8, encode_utf8, encode_utf8_decode_utf8,
    encode_utf8_valid_utf8, valid_utf8,
};

verus! {

/// How the metrics endpoint authenticates its callers.
#[derive(Debug, Clone, PartialEq, Eq)]
pub enum Authorization {
    /// Every request is let through.
    Disabled,
    /// HTTP Basic authentication with this password; the decoded credentials
    /// must be a colon followed by the password.
    Basic(String),
}

/// What the endpoint answers: a status code, the content type header if one
/// is set, and the body.
#[derive(Debug)]
pub struct Reply {
    pub status: u16,
    pub content_type: Option<&'static str>,
    pub body: String,
}

/// Where a request goes once authorization, path and method are checked.
#[derive(Debug, Clone, Copy, PartialEq, Eq, Structural)]
pub enum Route {
    Unauthorized,
    NotFound,
    MethodNotAllowed,
    Metrics,
}

/// What to do with a request: answer it at once, or generate the metrics
/// and then answer with `complete_request`.
#[derive(Debug)]
pub enum Decision {
    Respond(Reply),
    InvokeCallback,
}

/// A byte that `HeaderValue::to_str` accepts: visible ASCII or a tab.
pub open spec fn is_visible_ascii(b: u8) -> bool {
    (32 <= b && b < 127) || b == 9
}

/// A header value that reads as text.
pub open spec fn is_header_text(h: Seq<u8>) -> bool {
    forall|i: int| 0 <= i < h.len() ==> is_visible_ascii(#[trigger] h[i])
}

/// Position `i` holds the one and only space of `h`.
pub open spec fn is_sole_space_at(h: Seq<u8>, i: int) -> bool {
    &&& 0 <= i < h.len()
    &&& h[i] == 32
    &&& forall|j: int| 0 <= j < h.len() && j != i ==> #[trigger] h[j] != 32
}

/// The bytes of `Basic`.
pub open spec fn basic_scheme() -> Seq<u8> {
    seq![66u8, 97u8, 115u8, 105u8, 99u8]
}

/// The credentials of an authorization header of the form `Basic <credentials>`:
/// the header reads as text, holds exactly one space, and the part before it
/// is `Basic`. `None` for any other header.
pub open spec fn basic_credentials(h: Seq<u8>) -> Option<Seq<u8>> {
    if is_header_text(h) && exists|i: int| is_sole_space_at(h, i) {
        let i = choose|i: int| is_sole_space_at(h, i);
        if h.take(i) == basic_scheme() {
            Some(h.skip(i + 1))
        } else {
            None
        }
    } else {
        None
    }
}

/// What the standard base64 engine (RFC 4648 alphabet, padding required)
/// decodes `input` to, `None` where it refuses the input.
pub uninterp spec fn standard_base64_decoded(input: Seq<u8>) -> Option<Seq<u8>>;

/// Decoded credentials are accepted when they are UTF-8 text equal to a
/// colon followed by the password (an empty user name).
pub open spec fn credentials_accepted(decoded: Option<Seq<u8>>, password: Seq<char>) -> bool {
    match decoded {
        None => false,
        Some(d) => valid_utf8(d) && decode_utf8(d) == seq![':'] + password,
    }
}

/// Whether a request with this authorization header (its bytes, if the
/// request has one) passes the configured authorization.
pub open spec fn authorized(authorization: Authorization, header: Option<Seq<u8>>) -> bool {
    match authorization {
        Authorization::Disabled => true,
        Authorization::Basic(password) => match header {
            None => false,
            Some(h) => match basic_credentials(h) {
                None => false,
                Some(c) => credentials_accepted(standard_base64_decoded(c), password@),
            },
        },
    }
}

/// The path that serves metrics.
pub open spec fn metrics_path() -> Seq<char> {
    seq!['/', 'm', 'e', 't', 'r', 'i', 'c', 's']
}

/// The method that serves metrics.
pub open spec fn get_method() -> Seq<char> {
    seq!['G', 'E', 'T']
}

/// Checks in order: authorization, then path, then method.
pub open spec fn route_of(authorized: bool, path: Seq<char>, method: Seq<char>) -> Route {
    if !authorized {
        Route::Unauthorized
    } else if path != metrics_path() {
        Route::NotFound
    } else if method != get_method() {
        Route::MethodNotAllowed
    } else {
        Route::Metrics
    }
}

/// The content type of the Prometheus text exposition format.
pub open spec fn prometheus_content_type() -> Seq<char> {
    seq![
        't',
        'e',
        'x',
        't',
        '/',
        'p',
        'l',
        'a',
        'i',
        'n',
        ';',
        ' ',
        'v',
        'e',
        'r',
        's',
        'i',
        'o',
        'n',
        '=',
        '0',
        '.',
        '0',
        '.',
        '4',
    ]
}

/// The bytes of an optional header value.
pub open spec fn header_view(header: Option<&[u8]>) -> Option<Seq<u8>> {
    match header {
        Some(h) => Some(h@),
        None => None,
    }
}

/// The bytes of optional decoded credentials.
pub open spec fn decoded_view(decoded: Option<Vec<u8>>) -> Option<Seq<u8>> {
    match decoded {
        Some(d) => Some(d@),
        None => None,
    }
}

/// An answer with this status, no content type and an empty body.
pub open spec fn is_empty_reply(r: Reply, status: u16) -> bool {
    &&& r.status == status
    &&& r.content_type is None
    &&& r.body@.len() == 0
}

/// Authorization is checked before anything else: a request that fails it
/// is refused with 401 whatever its path and method.
pub proof fn lemma_authorization_checked_first(path: Seq<char>, method: Seq<char>)
    ensures
        route_of(false, path, method) == Route::Unauthorized,
{
}

/// An authorized request to another path than `/metrics` is answered 404,
/// whatever its method; the method is only looked at on `/metrics`.
pub proof fn lemma_path_checked_before_method(path: Seq<char>, method: Seq<char>)
    requires
        path != metrics_path(),
    ensures
        route_of(true, path, method) == Route::NotFound,
{
}

/// Metrics are generated exactly for an authorized `GET /metrics`.
pub proof fn lemma_metrics_only_for_valid_requests(
    authorized: bool,
    path: Seq<char>,
    method: Seq<char>,
)
    ensures
        route_of(authorized, path, method) == Route::Metrics <==> authorized && path
            == metrics_path() && method == get_method(),
{
}

/// Without authorization configured every request passes, with or without
/// a header.
pub proof fn lemma_disabled_authorization_admits_all(header: Option<Seq<u8>>)
    ensures
        authorized(Authorization::Disabled, header),
{
}

/// With Basic authorization a request without an authorization header is
/// refused.
pub proof fn lemma_basic_authorization_needs_header(password: String)
    ensures
        !authorized(Authorization::Basic(password), None),
{
}

/// With Basic authorization, a header `Basic <credentials>` (credentials that
/// read as text and hold no space) passes exactly when the credentials
/// decode to UTF-8 text equal to a colon and the password.
pub proof fn lemma_basic_header_passes_iff_credentials_match(
    password: String,
    credentials: Seq<u8>,
)
    requires
        is_header_text(credentials),
        forall|j: int| 0 <= j < credentials.len() ==> #[trigger] credentials[j] != 32,
    ensures
        authorized(
            Authorization::Basic(password),
            Some(basic_scheme() + seq![32u8] + credentials),
        ) == credentials_accepted(standard_base64_decoded(credentials), password@),
{
    let h = basic_scheme() + seq![32u8] + credentials;
    assert(is_header_text(h)) by {
        assert forall|i: int| 0 <= i < h.len() implies is_visible_ascii(#[trigger] h[i]) by {
            if i >= 6 {
                assert(h[i] == credentials[i - 6]);
            }
        }
    }
    assert forall|j: int| 0 <= j < h.len() && j != 5 implies #[trigger] h[j] != 32 by {
        if j >= 6 {
            assert(h[j] == credentials[j - 6]);
        }
    }
    assert(is_sole_space_at(h, 5));
    let c = choose|i: int| is_sole_space_at(h, i);
    assert(c == 5);
    assert(h.take(5) =~= basic_scheme());
    assert(h.skip(6) =~= credentials);
}

/// A header whose scheme is not `Basic` is refused: if the part before the
/// sole space is not `Basic`, the request does not pass.
pub proof fn lemma_other_scheme_refused(password: String, header: Seq<u8>, space: int)
    requires
        is_sole_space_at(header, space),
        header.take(space) != basic_scheme(),
    ensures
        !authorized(Authorization::Basic(password), Some(header)),
{
    if is_header_text(header) {
        let c = choose|i: int| is_sole_space_at(header, i);
        assert(c == space);
    }
}

/// Decoded credentials are accepted exactly when they are the UTF-8
/// encoding of a colon followed by the password, whatever the password's
/// length or characters.
pub proof fn lemma_credentials_accepted_iff_utf8_of_colon_password(
    decoded: Seq<u8>,
    password: Seq<char>,
)
    ensures
        credentials_accepted(Some(decoded), password) <==> decoded == encode_utf8(
            seq![':'] + password,
        ),
        !credentials_accepted(None, password),
{
    let expected = seq![':'] + password;
    encode_utf8_valid_utf8(expected);
    encode_utf8_decode_utf8(expected);
    if valid_utf8(decoded) {
        decode_utf8_encode_utf8(decoded);
    }
}

/// With Basic authorization, a header `Basic <credentials>` passes exactly
/// when the credentials decode to the UTF-8 bytes of `:` and the password,
/// for a password of any length.
pub proof fn lemma_basic_header_passes_iff_decodes_to_colon_password(
    password: String,
    credentials: Seq<u8>,
)
    requires
        is_header_text(credentials),
        forall|j: int| 0 <= j < credentials.len() ==> #[trigger] credentials[j] != 32,
    ensures
        authorized(
            Authorization::Basic(password),
            Some(seq![66u8, 97u8, 115u8, 105u8, 99u8, 32u8] + credentials),
        ) <==> standard_base64_decoded(credentials) == Some(
            encode_utf8(seq![':'] + password@),
        ),
{
    assert(seq![66u8, 97u8, 115u8, 105u8, 99u8, 32u8] + credentials =~= basic_scheme() + seq![32u8]
        + credentials);
    lemma_basic_header_passes_iff_credentials_match(password, credentials);
    match standard_base64_decoded(credentials) {
        Some(d) => lemma_credentials_accepted_iff_utf8_of_colon_password(d, password@),
        None => {},
    }
}

/// The four outcomes of routing, each in terms of the request alone: 401
/// exactly when unauthorized; 404 exactly when authorized for another path
/// than `/metrics`; 405 exactly when authorized for `/metrics` with any
/// method but `GET`; metrics exactly for an authorized `GET /metrics`.
pub proof fn lemma_route_outcomes(authorized: bool, path: Seq<char>, method: Seq<char>)
    ensures
        route_of(authorized, path, method) == Route::Unauthorized <==> !authorized,
        route_of(authorized, path, method) == Route::NotFound <==> authorized && path != seq![
            '/',
            'm',
            'e',
            't',
            'r',
            'i',
            'c',
            's',
        ],
        route_of(authorized, path, method) == Route::MethodNotAllowed <==> authorized && path
            == seq!['/', 'm', 'e', 't', 'r', 'i', 'c', 's'] && method != seq!['G', 'E', 'T'],
        route_of(authorized, path, method) == Route::Metrics <==> authorized && path == seq![
            '/',
            'm',
            'e',
            't',
            'r',
            'i',
            'c',
            's',
        ] && method == seq!['G', 'E', 'T'],
{
    assert(metrics_path() =~= seq!['/', 'm', 'e', 't', 'r', 'i', 'c', 's']);
    assert(get_method() =~= seq!['G', 'E', 'T']);
}

/// `Engine::decode` of the standard base64 engine: its result is named by
/// `standard_base64_decoded`, `None` standing for a decode error.
#[verifier::external_body]
fn standard_base64_decode(input: &[u8]) -> (res: Option<Vec<u8>>)
    ensures
        decoded_view(res) == standard_base64_decoded(input@),
{
    match STANDARD.decode(input) {
        Ok(decoded) => Some(decoded),
        Err(_) => None,
    }
}

/// `String::from_utf8`: the text the bytes encode when they are valid
/// UTF-8, `None` (for the error) when they are not.
#[verifier::external_body]
fn string_from_utf8(bytes: Vec<u8>) -> (res: Option<String>)
    ensures
        res is Some <==> valid_utf8(bytes@),
        res matches Some(s) ==> s@ == decode_utf8(bytes@),
{
    match String::from_utf8(bytes) {
        Ok(s) => Some(s),
        Err(_) => None,
    }
}

/// Whether two strings hold the same characters.
fn same_text(a: &str, b: &str) -> (res: bool)
    ensures
        res == (a@ == b@),
{
    let a = String::from_str(a);
    let b = String::from_str(b);
    a.eq(&b)
}

/// The credentials of a `Basic <credentials>` authorization header.
pub fn basic_credentials_of(header: &[u8]) -> (res: Option<&[u8]>)
    ensures
        header_view(res) == basic_credentials(header@),
{
    let len = header.len();
    let mut i: usize = 0;
    while i < len
        invariant
            i <= len,
            len == header@.len(),
            forall|j: int| 0 <= j < i ==> is_visible_ascii(#[trigger] header@[j]),
        decreases len - i,
    {
        let b = header[i];
        if !((32 <= b && b < 127) || b == 9) {
            assert(!is_header_text(header@));
            return None;
        }
        i = i + 1;
    }
    let mut spaces: usize = 0;
    let mut position: usize = 0;
    let mut k: usize = 0;
    while k < len
        invariant
            k <= len,
            len == header@.len(),
            spaces <= 2,
            spaces == 0 ==> forall|j: int| 0 <= j < k ==> #[trigger] header@[j] != 32,
            spaces == 1 ==> position < k && header@[position as int] == 32 && forall|j: int|
                0 <= j < k && j != position ==> #[trigger] header@[j] != 32,
            spaces == 2 ==> position < k && header@[position as int] == 32 && exists|j: int|
                0 <= j < k && j != position && #[trigger] header@[j] == 32,
        decreases len - k,
    {
        if header[k] == 32 {
            if spaces == 0 {
                position = k;
                spaces = 1;
            } else if spaces == 1 {
                assert(header@[k as int] == 32);
                spaces = 2;
            }
        }
        k = k + 1;
    }
    if spaces != 1 {
        proof {
            if exists|j: int| is_sole_space_at(header@, j) {
                let j = choose|j: int| is_sole_space_at(header@, j);
                if spaces == 2 {
                    let w = choose|w: int| 0 <= w < len && w != position && #[trigger] header@[w]
                        == 32;
                    assert(header@[position as int] == 32);
                }
                assert(header@[j] == 32);
            }
        }
        return None;
    }
    proof {
        assert(is_sole_space_at(header@, position as int));
        let c = choose|j: int| is_sole_space_at(header@, j);
        assert(c == position);
    }
    if position == 5 && header[0] == 66 && header[1] == 97 && header[2] == 115 && header[3] == 105
        && header[4] == 99 {
        let (_, credentials) = header.split_at(position + 1);
        proof {
            assert(header@.take(5) =~= basic_scheme());
            assert(credentials@ =~= header@.skip(6));
        }
        Some(credentials)
    } else {
        proof {
            if header@.take(position as int) == basic_scheme() {
                assert(header@.take(position as int).len() == 5);
                assert(header@.take(position as int)[0] == header@[0]);
                assert(header@.take(position as int)[1] == header@[1]);
                assert(header@.take(position as int)[2] == header@[2]);
                assert(header@.take(position as int)[3] == header@[3]);
                assert(header@.take(position as int)[4] == header@[4]);
            }
        }
        None
    }
}

/// Whether decoded credentials match the password: they must be UTF-8 text
/// equal to a colon followed by the password.
pub fn credentials_match(decoded: Option<Vec<u8>>, password: &str) -> (res: bool)
    ensures
        res == credentials_accepted(decoded_view(decoded), password@),
        res == (decoded_view(decoded) == Some(encode_utf8(seq![':'] + password@))),
{
    proof {
        match decoded_view(decoded) {
            Some(d) => lemma_credentials_accepted_iff_utf8_of_colon_password(d, password@),
            None => {},
        }
    }
    match decoded {
        None => false,
        Some(bytes) => match string_from_utf8(bytes) {
            None => false,
            Some(text) => {
                let mut expected = String::from_str(":");
                expected.append(password);
                proof {
                    reveal_strlit(":");
                    assert(expected@ =~= seq![':'] + password@);
                }
                text.eq(&expected)
            },
        },
    }
}

/// Whether a request with this authorization header passes the configured
/// authorization.
pub fn is_authorized(header: Option<&[u8]>, authorization: &Authorization) -> (res: bool)
    ensures
        res == authorized(*authorization, header_view(header)),
{
    match authorization {
        Authorization::Disabled => true,
        Authorization::Basic(password) => match header {
            None => false,
            Some(h) => match basic_credentials_of(h) {
                None => false,
                Some(credentials) => {
                    let decoded = standard_base64_decode(credentials);
                    credentials_match(decoded, password.as_str())
                },
            },
        },
    }
}

/// Routes a request by its authorization header, path and method, checking
/// authorization first, then the path, then the method.
pub fn route_request(
    authorization: &Authorization,
    header: Option<&[u8]>,
    path: &str,
    method: &str,
) -> (res: Route)
    ensures
        res == route_of(authorized(*authorization, header_view(header)), path@, method@),
{
    proof {
        reveal_strlit("/metrics");
        reveal_strlit("GET");
        assert("/metrics"@ =~= metrics_path());
        assert("GET"@ =~= get_method());
    }
    if !is_authorized(header, authorization) {
        Route::Unauthorized
    } else if !same_text(path, "/metrics") {
        Route::NotFound
    } else if !same_text(method, "GET") {
        Route::MethodNotAllowed
    } else {
        Route::Metrics
    }
}

/// An answer with this status and body and no content type.
pub fn response(status: u16, body: String) -> (res: Reply)
    ensures
        res.status == status,
        res.content_type is None,
        res.body@ == body@,
{
    Reply { status, content_type: None, body }
}

/// The answer to a request that fails authorization: 401 with an empty body.
pub fn unauthorized() -> (res: Reply)
    ensures
        is_empty_reply(res, 401),
{
    response(401, String::new())
}

/// What to do with a request: 401, 404 or 405 with an empty body when a
/// check fails, otherwise generate the metrics.
pub fn decide_request(
    authorization: &Authorization,
    header: Option<&[u8]>,
    path: &str,
    method: &str,
) -> (res: Decision)
    ensures
        ({
            let route = route_of(authorized(*authorization, header_view(header)), path@, method@);
            match route {
                Route::Unauthorized => res matches Decision::Respond(r) && is_empty_reply(r, 401),
                Route::NotFound => res matches Decision::Respond(r) && is_empty_reply(r, 404),
                Route::MethodNotAllowed => res matches Decision::Respond(r) && is_empty_reply(
                    r,
                    405,
                ),
                Route::Metrics => res is InvokeCallback,
            }
        }),
{
    match route_request(authorization, header, path, method) {
        Route::Unauthorized => Decision::Respond(unauthorized()),
        Route::NotFound => Decision::Respond(response(404, String::new())),
        Route::MethodNotAllowed => Decision::Respond(response(405, String::new())),
        Route::Metrics => Decision::InvokeCallback,
    }
}

/// The answer once the metrics were generated: 200 with the Prometheus
/// content type and the metrics as body, or 500 with the error's text.
pub fn complete_request(generated: Result<String, String>) -> (res: Reply)
    ensures
        match generated {
            Ok(metrics) => {
                &&& res.status == 200
                &&& res.content_type matches Some(c) && c@ == prometheus_content_type()
                &&& res.body@ == metrics@
            },
            Err(error) => {
                &&& res.status == 500
                &&& res.content_type is None
                &&& res.body@ == error@
            },
        },
{
    match generated {
        Ok(metrics) => {
            let content_type = "text/plain; version=0.0.4";
            proof {
                reveal_strlit("text/plain; version=0.0.4");
                assert(content_type@ =~= prometheus_content_type());
            }
            Reply { status: 200, content_type: Some(content_type), body: metrics }
        },
        Err(error) => response(500, error),
    }
}

} // verus!
