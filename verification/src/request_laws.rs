//! What holds of the requests that builders make and interceptors change.

use crate::config::HttpClientConfig;
use crate::interceptor::AuthView;
use crate::request::{BuilderView, Request, RequestSpec};
use vstd::prelude::*;
use vstd::utf8::*;

verus! {

/// A header of the request itself goes out in place of default ones of the same
/// name; the other defaults go out as well.
pub proof fn law_request_headers_take_precedence(builder: BuilderView, name: Seq<char>)
    ensures
        ({
            let defaults = crate::request::default_entries(builder.config.header_pairs());
            let merged = builder.merged_headers();
            &&& builder.headers.dom().contains(name) ==> merged.dom().contains(name)
                && merged[name] == builder.headers[name]
            &&& !builder.headers.dom().contains(name) ==> (merged.dom().contains(name)
                <==> defaults.dom().contains(name)) && (defaults.dom().contains(name)
                ==> merged[name] == defaults[name])
        }),
{
}

/// Of the default headers of one name, the last well-formed one goes out.
pub proof fn law_the_last_default_counts(pairs: Seq<(Seq<char>, Seq<char>)>, i: int)
    requires
        0 <= i < pairs.len(),
        crate::header::well_formed_header(pairs[i].0, pairs[i].1),
        forall|j: int|
            i < j < pairs.len() && crate::header::well_formed_header(
                #[trigger] pairs[j].0,
                pairs[j].1,
            ) ==> crate::header::lower(pairs[j].0) != crate::header::lower(pairs[i].0),
    ensures
        ({
            let name = crate::header::lower(pairs[i].0);
            let entries = crate::request::default_entries(pairs);
            entries.dom().contains(name) && entries[name] == seq![encode_utf8(pairs[i].1)]
        }),
    decreases pairs.len(),
{
    let before = pairs.drop_last();
    if i < pairs.len() - 1 {
        assert forall|j: int|
            i < j < before.len() && crate::header::well_formed_header(
                #[trigger] before[j].0,
                before[j].1,
            ) implies crate::header::lower(before[j].0) != crate::header::lower(before[i].0) by {
            assert(before[j] == pairs[j]);
        }
        law_the_last_default_counts(before, i);
        assert(pairs.last() == pairs[pairs.len() - 1]);
    }
}

/// The default headers that cannot be sent are reported, and no others.
pub proof fn law_malformed_defaults_are_reported(
    pairs: Seq<(Seq<char>, Seq<char>)>,
    name: Seq<char>,
    value: Seq<char>,
)
    ensures
        crate::request::malformed_headers(pairs).contains((name, value)) <==> pairs.contains(
            (name, value),
        ) && !crate::header::well_formed_header(name, value),
{
    let malformed = |h: (Seq<char>, Seq<char>)| !crate::header::well_formed_header(h.0, h.1);
    let reported = crate::request::malformed_headers(pairs);
    if pairs.contains((name, value)) && malformed((name, value)) {
        let i = choose|i: int| 0 <= i < pairs.len() && pairs[i] == (name, value);
        pairs.lemma_filter_contains(malformed, i);
    }
    if reported.contains((name, value)) {
        pairs.lemma_filter_contains_rev(malformed, (name, value));
        let i = choose|i: int| 0 <= i < reported.len() && reported[i] == (name, value);
        pairs.lemma_filter_pred(malformed, i);
    }
}

/// No default header goes out but a well-formed one of the configuration.
pub proof fn law_malformed_defaults_are_not_sent(
    pairs: Seq<(Seq<char>, Seq<char>)>,
    name: Seq<char>,
)
    requires
        crate::request::default_entries(pairs).dom().contains(name),
    ensures
        exists|i: int|
            {
                &&& 0 <= i < pairs.len()
                &&& crate::header::lower(#[trigger] pairs[i].0) == name
                &&& crate::header::well_formed_header(pairs[i].0, pairs[i].1)
                &&& crate::request::default_entries(pairs)[name] == seq![encode_utf8(pairs[i].1)]
            },
    decreases pairs.len(),
{
    let before = pairs.drop_last();
    let last = pairs.len() - 1;
    if crate::header::well_formed_header(pairs[last].0, pairs[last].1) && crate::header::lower(
        pairs[last].0,
    ) == name {
        assert(crate::request::default_entries(pairs)[name] == seq![encode_utf8(pairs[last].1)]);
    } else {
        law_malformed_defaults_are_not_sent(before, name);
        let i = choose|i: int|
            {
                &&& 0 <= i < before.len()
                &&& crate::header::lower(#[trigger] before[i].0) == name
                &&& crate::header::well_formed_header(before[i].0, before[i].1)
                &&& crate::request::default_entries(before)[name] == seq![encode_utf8(before[i].1)]
            };
        assert(pairs[i] == before[i]);
    }
}

/// A header of the request that cannot be sent leaves the headers as they were,
/// and its name is noted.
pub proof fn law_a_malformed_header_is_noted_not_sent(
    builder: BuilderView,
    name: Seq<char>,
    value: Seq<char>,
)
    requires
        !crate::header::well_formed_header(name, value),
    ensures
        builder.with_header(name, value).headers == builder.headers,
        builder.with_header(name, value).skipped == builder.skipped.push(name),
        builder.with_header(name, value).merged_headers() == builder.merged_headers(),
{
}

/// A text can be a header value unless it holds a control character other than a
/// tab.
pub proof fn law_control_characters_cannot_be_sent(text: Seq<char>)
    ensures
        crate::header::valid_header_value(encode_utf8(text)) <==> forall|i: int|
            0 <= i < text.len() ==> sendable_char(#[trigger] text[i]),
    decreases text.len(),
{
    if text.len() > 0 {
        let rest = text.drop_first();
        let first = encode_scalar(text[0] as u32);
        law_control_characters_cannot_be_sent(rest);
        lemma_sendable_scalar(text[0]);
        let whole = encode_utf8(text);
        let tail = encode_utf8(rest);
        assert(whole == first + tail);
        assert forall|i: int| 0 <= i < first.len() implies whole[i] == first[i] by {}
        assert forall|i: int| 0 <= i < tail.len() implies whole[first.len() + i]
            == #[trigger] tail[i] by {}
        assert forall|i: int| 0 <= i < rest.len() implies text[i + 1] == #[trigger] rest[i] by {}
        if crate::header::valid_header_value(whole) {
            assert forall|i: int| 0 <= i < text.len() implies sendable_char(#[trigger] text[i]) by {
                if i > 0 {
                    assert(text[i] == rest[i - 1]);
                }
            }
        }
        if forall|i: int| 0 <= i < text.len() ==> sendable_char(#[trigger] text[i]) {
            assert(sendable_char(text[0]));
            assert forall|i: int|
                0 <= i < whole.len() implies crate::header::valid_value_byte(
                #[trigger] whole[i],
            ) by {
                if i >= first.len() {
                    assert(whole[i] == tail[i - first.len()]);
                }
            }
        }
    }
}

/// The character can stand in a header value.
pub open spec fn sendable_char(c: char) -> bool {
    c >= ' ' && c != '\x7f' || c == '\t'
}

proof fn lemma_sendable_scalar(c: char)
    ensures
        crate::header::valid_header_value(encode_scalar(c as u32)) <==> sendable_char(c),
{
    let v = c as u32;
    assert(v < 0x80 ==> (v & 0x7F) as u8 == v) by (bit_vector);
    assert((0xC0u8 | ((v >> 6) & 0x1F) as u8) >= 0x80) by (bit_vector);
    assert((0xE0u8 | ((v >> 12) & 0x0F) as u8) >= 0x80) by (bit_vector);
    assert((0xF0u8 | ((v >> 18) & 0x7) as u8) >= 0x80) by (bit_vector);
    assert((0x80u8 | (v & 0x3F) as u8) >= 0x80) by (bit_vector);
    assert((0x80u8 | ((v >> 6) & 0x3F) as u8) >= 0x80) by (bit_vector);
    assert((0x80u8 | ((v >> 12) & 0x3F) as u8) >= 0x80) by (bit_vector);
    let bytes = encode_scalar(v);
    if has_width_1_encoding(v) {
        assert(bytes[0] == v);
    }
}

/// A bearer token that holds a line break, or any other character that cannot be
/// sent, is refused by the interceptor; the builder leaves the header out and
/// notes its name.
pub proof fn law_a_bearer_token_with_a_control_character_is_not_sent(
    builder: BuilderView,
    token: Seq<char>,
    i: int,
)
    requires
        0 <= i < token.len(),
        !sendable_char(token[i]),
    ensures
        AuthView::Bearer(token).refusal() is Some,
        builder.with_header("Authorization"@, crate::request::bearer_value(token)).headers
            == builder.headers,
        builder.with_header("Authorization"@, crate::request::bearer_value(token)).skipped
            == builder.skipped.push("Authorization"@),
{
    let value = crate::request::bearer_value(token);
    law_control_characters_cannot_be_sent(value);
    assert(value[("Bearer "@).len() + i] == token[i]);
}

/// An API key is refused exactly where its header name is no header name or the
/// key holds a character that cannot be sent.
pub proof fn law_an_api_key_is_refused_where_it_cannot_be_sent(header: Seq<char>, key: Seq<char>)
    ensures
        (AuthView::ApiKey { header, key }).refusal() is None <==> crate::header::valid_header_name(
            header,
        ) && forall|i: int| 0 <= i < key.len() ==> sendable_char(#[trigger] key[i]),
{
    law_control_characters_cannot_be_sent(key);
}

/// The credentials that an interceptor adds are those that the builder sets: they
/// go under the same header with the same value.
pub proof fn law_interceptor_and_builder_agree(
    headers: Map<Seq<char>, Seq<Seq<u8>>>,
    credentials: AuthView,
)
    requires
        credentials !is ApiKey,
    ensures
        crate::header::with_header(headers, credentials.header_name(), credentials.header_value())
            == crate::header::with_header(headers, "Authorization"@, credentials.header_value()),
{
    reveal_strlit("Authorization");
    reveal_strlit("authorization");
    assert(crate::header::lower("Authorization"@) =~= crate::header::lower("authorization"@));
}

/// A header that was set is read back, whatever the case in which its name is
/// written, if its value is printable ASCII.
pub proof fn law_a_header_is_read_back(
    headers: Map<Seq<char>, Seq<Seq<u8>>>,
    name: Seq<char>,
    other: Seq<char>,
    value: Seq<char>,
)
    requires
        crate::header::valid_header_name(other),
        crate::header::lower(name) == crate::header::lower(other),
        forall|i: int|
            0 <= i < value.len() ==> ' ' <= #[trigger] value[i] <= '~' || value[i] == '\t',
    ensures
        crate::header::header_text(crate::header::with_header(headers, name, value), other) == Some(
            value,
        ),
{
    assert(is_ascii_chars(value));
    is_ascii_chars_encode_utf8(value);
    let bytes = encode_utf8(value);
    assert forall|i: int| 0 <= i < bytes.len() implies crate::header::visible_byte(
        #[trigger] bytes[i],
    ) by {
        assert(bytes[i] == value[i] as u8);
    }
    assert(crate::header::ascii_text(bytes) =~= value);
}

/// Without query parameters the URL stays as it is, and parameters that are
/// added one after the other go out in that order.
pub proof fn law_query_parameters_keep_their_order(
    url: url::Url,
    first: Seq<(Seq<char>, Seq<char>)>,
    then: Seq<(Seq<char>, Seq<char>)>,
)
    ensures
        crate::request::with_query(url, Seq::empty()) == url,
        crate::request::with_query(url, first + then) == crate::request::with_query(
            crate::request::with_query(url, first),
            then,
        ),
    decreases then.len(),
{
    if then.len() == 0 {
        assert(first + then =~= first);
    } else {
        law_query_parameters_keep_their_order(url, first, then.drop_last());
        assert((first + then).drop_last() =~= first + then.drop_last());
        assert((first + then).last() == then.last());
    }
}

/// A request and what it is built from show all that they hold.
pub proof fn law_a_request_shows_what_it_holds(request: Request, spec: RequestSpec)
    ensures
        request@.method == crate::wire::method_text(request.method),
        request@.url == request.url,
        request@.headers == crate::header::header_entries(request.headers),
        request@.body is Some <==> request.body is Some,
        request.body is Some ==> request@.body->0 == request.body->0@,
        request@.timeout == request.timeout,
        spec@.method == crate::wire::method_text(spec.method),
        spec@.url == spec.url,
        spec@.headers == crate::header::header_entries(spec.headers),
        spec@.body is Some <==> spec.body is Some,
        spec.body is Some ==> spec@.body->0 == spec.body->0@,
        spec@.timeout == spec.timeout,
{
}

/// What is sent has the method, body and timeout that the builder was told, goes
/// to the place with the query parameters added, and has the request's own headers
/// and the default ones of other names.
pub proof fn law_what_the_builder_was_told_is_sent(
    builder: BuilderView,
    location: url::Url,
    name: Seq<char>,
)
    ensures
        ({
            let sent = builder.request_to(location);
            let defaults = crate::request::default_entries(builder.config.header_pairs());
            &&& sent.method == builder.method
            &&& sent.body == builder.body
            &&& sent.timeout == builder.timeout
            &&& builder.query.len() == 0 ==> sent.url == location
            &&& sent.url == crate::request::with_query(location, builder.query)
            &&& builder.headers.dom().contains(name) ==> sent.headers.dom().contains(name)
                && sent.headers[name] == builder.headers[name]
            &&& !builder.headers.dom().contains(name) ==> (sent.headers.dom().contains(name)
                <==> defaults.dom().contains(name))
            &&& !builder.headers.dom().contains(name) && defaults.dom().contains(name)
                ==> sent.headers[name] == defaults[name]
        }),
{
}

/// Without a base URL a request goes where its URL says, and with one where the
/// URL leads from there; a URL or a base that cannot be parsed leads nowhere.
pub proof fn law_where_a_request_goes(builder: BuilderView)
    ensures
        builder.config.base_url is None ==> builder.location() == crate::wire::url_parsed(
            builder.url,
        ),
        builder.config.base_url matches Some(base) ==> match crate::wire::url_parsed(base@) {
            Ok(parsed) => builder.location() == crate::wire::url_joined(parsed, builder.url),
            Err(e) => builder.location() == Err::<url::Url, url::ParseError>(e),
        },
{
}

/// Each query parameter goes through the URL's own encoding of pairs, one after
/// the other.
pub proof fn law_a_query_parameter_is_appended(
    url: url::Url,
    query: Seq<(Seq<char>, Seq<char>)>,
    key: Seq<char>,
    value: Seq<char>,
)
    ensures
        crate::request::with_query(url, query.push((key, value))) == crate::wire::url_with_pair(
            crate::request::with_query(url, query),
            key,
            value,
        ),
        crate::request::with_query(url, seq![(key, value)]) == crate::wire::url_with_pair(
            url,
            key,
            value,
        ),
{
    reveal_with_fuel(crate::request::with_query, 2);
    assert(query.push((key, value)).drop_last() =~= query);
    assert(seq![(key, value)].drop_last() =~= Seq::<(Seq<char>, Seq<char>)>::empty());
}

/// A header that can be sent is the only value of its name then; the other headers
/// and all else that the builder was told stay.
pub proof fn law_a_header_is_set(
    builder: BuilderView,
    name: Seq<char>,
    value: Seq<char>,
    other: Seq<char>,
)
    requires
        crate::header::valid_header_name(name),
        crate::header::valid_header_value(encode_utf8(value)),
    ensures
        ({
            let next = builder.with_header(name, value);
            let key = crate::header::lower(name);
            &&& next.headers.dom().contains(key)
            &&& next.headers[key] == seq![encode_utf8(value)]
            &&& other != key ==> (next.headers.dom().contains(other)
                <==> builder.headers.dom().contains(other))
            &&& other != key && builder.headers.dom().contains(other) ==> next.headers[other]
                == builder.headers[other]
            &&& next.config == builder.config
            &&& next.method == builder.method
            &&& next.url == builder.url
            &&& next.query == builder.query
            &&& next.body == builder.body
            &&& next.timeout == builder.timeout
            &&& next.skipped == builder.skipped
            &&& next.full == builder.full
        }),
{
}

/// A header that cannot be sent changes nothing but the names that are noted.
pub proof fn law_a_malformed_header_changes_nothing_else(
    builder: BuilderView,
    name: Seq<char>,
    value: Seq<char>,
)
    requires
        !(crate::header::valid_header_name(name) && crate::header::valid_header_value(
            encode_utf8(value),
        )),
    ensures
        ({
            let next = builder.with_header(name, value);
            &&& next.headers == builder.headers
            &&& next.skipped == builder.skipped.push(name)
            &&& next.config == builder.config
            &&& next.method == builder.method
            &&& next.url == builder.url
            &&& next.query == builder.query
            &&& next.body == builder.body
            &&& next.timeout == builder.timeout
            &&& next.full == builder.full
        }),
{
}

/// A body that is set with a content type is sent with that content type, and
/// nothing else changes.
pub proof fn law_a_body_goes_with_its_content_type(
    builder: BuilderView,
    content_type: Seq<char>,
    body: Seq<u8>,
    other: Seq<char>,
)
    ensures
        ({
            let next = builder.with_content(content_type, body);
            &&& next.body == Some(body)
            &&& next.headers.dom().contains("content-type"@)
            &&& next.headers["content-type"@] == seq![encode_utf8(content_type)]
            &&& other != "content-type"@ ==> (next.headers.dom().contains(other)
                <==> builder.headers.dom().contains(other))
            &&& other != "content-type"@ && builder.headers.dom().contains(other)
                ==> next.headers[other] == builder.headers[other]
            &&& next.config == builder.config
            &&& next.method == builder.method
            &&& next.url == builder.url
            &&& next.query == builder.query
            &&& next.timeout == builder.timeout
            &&& next.skipped == builder.skipped
            &&& next.full == builder.full
        }),
{
    reveal_strlit("content-type");
    assert(crate::header::lower("content-type"@) =~= "content-type"@);
}

/// A header that finds no room changes nothing but that this is noted, and up to
/// 6553 names every header finds room.
pub proof fn law_headers_find_room(builder: BuilderView, wanted: BuilderView, next: BuilderView)
    requires
        builder.sets(wanted, next),
    ensures
        builder.headers.dom().finite() && builder.headers.dom().len() <= 6553 ==> next == wanted,
        next != wanted ==> {
            &&& next.full
            &&& next.headers == builder.headers
            &&& next.skipped == builder.skipped
            &&& next.config == builder.config
            &&& next.method == builder.method
            &&& next.url == builder.url
            &&& next.query == builder.query
            &&& next.body == builder.body
            &&& next.timeout == builder.timeout
        },
{
}

/// The default headers that cannot be sent are reported in their order, and each
/// as often as it is configured.
pub proof fn law_malformed_defaults_are_reported_in_order(
    pairs: Seq<(Seq<char>, Seq<char>)>,
    pair: (Seq<char>, Seq<char>),
)
    ensures
        crate::request::malformed_headers(Seq::empty()).len() == 0,
        crate::request::malformed_headers(pairs.push(pair)) == if crate::header::valid_header_name(
            pair.0,
        ) && crate::header::valid_header_value(encode_utf8(pair.1)) {
            crate::request::malformed_headers(pairs)
        } else {
            crate::request::malformed_headers(pairs).push(pair)
        },
{
    reveal(Seq::filter);
    assert(pairs.push(pair).drop_last() =~= pairs);
}

/// The default headers are those of the configuration, in order.
pub proof fn law_default_headers_are_the_configured_ones(
    config: HttpClientConfig,
    pairs: Seq<(String, String)>,
    i: int,
)
    ensures
        config.header_pairs().len() == config.default_headers@.len(),
        0 <= i < config.default_headers@.len() ==> config.header_pairs()[i] == (
            config.default_headers@[i].0@,
            config.default_headers@[i].1@,
        ),
        crate::request::pair_chars(pairs).len() == pairs.len(),
        0 <= i < pairs.len() ==> crate::request::pair_chars(pairs)[i] == (
            pairs[i].0@,
            pairs[i].1@,
        ),
{
}

/// Credentials are written as `Bearer` and the token, or as `Basic` and the Base64
/// text of name, colon and password, under the authorization header; an API key is
/// written as it is under its own header.
pub proof fn law_how_credentials_are_written(a: Seq<char>, b: Seq<char>)
    ensures
        crate::request::bearer_value(a) == "Bearer "@ + a,
        crate::request::basic_value(a, b) == "Basic "@ + crate::wire::base64_text(
            encode_utf8(a + ":"@ + b),
        ),
        AuthView::Bearer(a).header_name() == "authorization"@,
        AuthView::Bearer(a).header_value() == "Bearer "@ + a,
        (AuthView::Basic { username: a, password: b }).header_name() == "authorization"@,
        (AuthView::Basic { username: a, password: b }).header_value() == "Basic "@
            + crate::wire::base64_text(encode_utf8(a + ":"@ + b)),
        (AuthView::ApiKey { header: a, key: b }).header_name() == a,
        (AuthView::ApiKey { header: a, key: b }).header_value() == b,
{
}

/// Why credentials are refused: a bearer token for a character that cannot be
/// sent, an API key for its header name and else for such a character, and basic
/// credentials never.
pub proof fn law_why_credentials_are_refused(a: Seq<char>, b: Seq<char>)
    ensures
        AuthView::Bearer(a).refusal() is None <==> forall|i: int|
            0 <= i < a.len() ==> sendable_char(#[trigger] a[i]),
        AuthView::Bearer(a).refusal() matches Some(reason) ==> reason
            == "bearer token contains characters that are not valid in an HTTP header value"@,
        (AuthView::Basic { username: a, password: b }).refusal() is None,
        (AuthView::ApiKey { header: a, key: b }).refusal() matches Some(reason) ==> reason == if
            crate::header::valid_header_name(a) {
            "API key contains characters that are not valid in an HTTP header value"@
        } else {
            "API key header name "@ + crate::text::quoted_text(a)
                + " is not a valid HTTP header name"@
        },
        (AuthView::ApiKey { header: a, key: b }).refusal() is None
            <==> crate::header::valid_header_name(a) && forall|i: int|
            0 <= i < b.len() ==> sendable_char(#[trigger] b[i]),
{
    let value = crate::request::bearer_value(a);
    law_control_characters_cannot_be_sent(value);
    law_control_characters_cannot_be_sent(b);
    reveal_strlit("Bearer ");
    assert forall|i: int| 0 <= i < a.len() implies value[i + 7] == #[trigger] a[i] by {}
    if forall|i: int| 0 <= i < a.len() ==> sendable_char(#[trigger] a[i]) {
        assert forall|i: int| 0 <= i < value.len() implies sendable_char(#[trigger] value[i]) by {
            if i >= 7 {
                assert(value[i] == a[i - 7]);
            }
        }
    }
    if forall|i: int| 0 <= i < value.len() ==> sendable_char(#[trigger] value[i]) {
        assert forall|i: int| 0 <= i < a.len() implies sendable_char(#[trigger] a[i]) by {
            assert(value[i + 7] == a[i]);
        }
    }
}

/// A header name is made of 1 to 65535 letters, digits and the other characters
/// of a token, and case does not matter in it.
pub proof fn law_what_can_name_a_header(text: Seq<char>)
    ensures
        crate::header::valid_header_name(text) <==> {
            &&& 1 <= text.len() <= 65535
            &&& forall|i: int| 0 <= i < text.len() ==> names_char(#[trigger] text[i])
        },
        crate::header::lower(text).len() == text.len(),
        forall|i: int|
            0 <= i < text.len() ==> #[trigger] crate::header::lower(text)[i] == if 'A' <= text[i]
                <= 'Z' {
                (text[i] as u32 + 32) as char
            } else {
                text[i]
            },
{
    assert forall|i: int| 0 <= i < text.len() implies (crate::header::is_token_char(
        #[trigger] text[i],
    ) <==> names_char(text[i])) by {
        lemma_token_characters(text[i]);
    }
}

/// The characters of a header name.
pub open spec fn names_char(c: char) -> bool {
    ||| '0' <= c <= '9' || 'a' <= c <= 'z' || 'A' <= c <= 'Z'
    ||| "!#$%&'*+-.^_`|~"@.contains(c)
}

proof fn lemma_token_characters(c: char)
    ensures
        crate::header::is_token_char(c) <==> names_char(c),
{
    reveal_strlit("!#$%&'*+-.^_`|~");
    let marks = "!#$%&'*+-.^_`|~"@;
    assert(marks[0] == '!' && marks[1] == '#' && marks[2] == '$' && marks[3] == '%');
    assert(marks[4] == '&' && marks[5] == '\'' && marks[6] == '*' && marks[7] == '+');
    assert(marks[8] == '-' && marks[9] == '.' && marks[10] == '^' && marks[11] == '_');
    assert(marks[12] == '`' && marks[13] == '|' && marks[14] == '~');
    assert(marks.len() == 15);
}

/// When query parameters can be appended: always where there are none; else a
/// query that begins, and a fragment that follows, must begin within 32 bits. Each
/// parameter takes a separator, an equals sign, and its key and value, in which a
/// byte takes three where it is percent-encoded.
pub proof fn law_when_a_query_fits(
    url: url::Url,
    query: Seq<(Seq<char>, Seq<char>)>,
    key: Seq<char>,
    value: Seq<char>,
    bytes: Seq<u8>,
    byte: u8,
)
    ensures
        query.len() == 0 ==> crate::request::query_fits(url, query),
        query.len() > 0 ==> (crate::request::query_fits(url, query) <==> {
            &&& crate::wire::url_query(url) is Some || crate::wire::base_size(url) <= 0xFFFF_FFFF
            &&& crate::wire::url_fragment(url) is None || crate::wire::base_size(url)
                + crate::request::query_size(query) - (if crate::wire::url_query(url) matches Some(q)
                && q.len() == 0 {
                1int
            } else {
                0
            }) <= 0xFFFF_FFFF
        }),
        crate::wire::url_fragment(url) is None ==> crate::wire::base_size(url) == encode_utf8(
            crate::wire::url_text(url),
        ).len(),
        crate::wire::url_fragment(url) matches Some(f) ==> crate::wire::base_size(url)
            + encode_utf8(f).len() + 1 == encode_utf8(crate::wire::url_text(url)).len(),
        crate::request::query_size(Seq::empty()) == 0,
        crate::request::query_size(query.push((key, value))) == crate::request::query_size(query)
            + 1 + crate::wire::escaped_size(encode_utf8(key)) + 1 + crate::wire::escaped_size(
            encode_utf8(value),
        ),
        crate::wire::escaped_size(Seq::empty()) == 0,
        crate::wire::escaped_size(bytes.push(byte)) == crate::wire::escaped_size(bytes) + if 48
            <= byte <= 57 || 65 <= byte <= 90 || 97 <= byte <= 122 || byte == 32 || byte == 42
            || byte == 45 || byte == 46 || byte == 95 {
            1nat
        } else {
            3
        },
{
    assert(query.push((key, value)).drop_last() =~= query);
    assert(bytes.push(byte).drop_last() =~= bytes);
}

} // verus!
