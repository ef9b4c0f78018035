//! What holds of responses.

use crate::response::ResponseView;
use vstd::prelude::*;
use vstd::utf8::*;

verus! {

/// The class of a response is the first digit of its status.
pub proof fn law_the_class_is_the_first_digit(response: ResponseView)
    ensures
        response.is_success() <==> response.status / 100 == 2,
        response.is_client_error() <==> response.status / 100 == 4,
        response.is_server_error() <==> response.status / 100 == 5,
{
}

/// A body that encodes a text is that text, and a body that encodes none is an
/// error; the message of an error response is the text, or that it is unknown.
pub proof fn law_a_body_is_the_text_it_encodes(response: ResponseView, text: Seq<char>)
    ensures
        response.body == encode_utf8(text) ==> response.text() == Ok::<Seq<char>, Seq<char>>(text)
            && response.error_message() == text,
        valid_utf8(response.body) <==> response.text() is Ok,
        response.text() matches Ok(decoded) ==> encode_utf8(decoded) == response.body,
        !valid_utf8(response.body) ==> response.error_message() == "Unknown error"@
            && response.text() == Err::<Seq<char>, Seq<char>>(
            crate::text::utf8_error_text(crate::text::utf8_error(response.body)),
        ),
{
    encode_utf8_valid_utf8(text);
    encode_utf8_decode_utf8(text);
    if valid_utf8(response.body) {
        decode_utf8_encode_utf8(response.body);
    }
}

/// A header is read by its name in any case, from the first of its values, and
/// only where that is printable ASCII.
pub proof fn law_a_header_is_its_first_value(
    headers: Map<Seq<char>, Seq<Seq<u8>>>,
    name: Seq<char>,
)
    ensures
        crate::header::header_text(headers, name) is Some <==> {
            &&& crate::header::valid_header_name(name)
            &&& headers.dom().contains(crate::header::lower(name))
            &&& forall|i: int|
                0 <= i < headers[crate::header::lower(name)][0].len() ==> 32
                    <= #[trigger] headers[crate::header::lower(name)][0][i] <= 126
                    || headers[crate::header::lower(name)][0][i] == 9
        },
        crate::header::header_text(headers, name) matches Some(text) ==> {
            &&& text.len() == headers[crate::header::lower(name)][0].len()
            &&& forall|i: int|
                0 <= i < text.len() ==> #[trigger] text[i]
                    == headers[crate::header::lower(name)][0][i] as char
        },
{
    let value = headers[crate::header::lower(name)][0];
    assert(crate::header::all_visible(value) <==> forall|i: int|
        0 <= i < value.len() ==> 32 <= #[trigger] value[i] <= 126 || value[i] == 9) by {
        if crate::header::all_visible(value) {
            assert forall|i: int| 0 <= i < value.len() implies 32 <= #[trigger] value[i] <= 126
                || value[i] == 9 by {
                assert(crate::header::visible_byte(value[i]));
            }
        }
    }
}

/// A response says what its headers say.
pub proof fn law_a_response_reads_its_headers(response: ResponseView, name: Seq<char>)
    ensures
        response.header(name) == crate::header::header_text(response.headers, name),
{
}

/// A response that gives a number of seconds in its `Retry-After` header asks to
/// wait that long, and one without the header, or with anything but a number in
/// it, does not.
pub proof fn law_retry_after_is_the_number_of_seconds(response: ResponseView, n: u64)
    ensures
        response.headers.dom().contains("retry-after"@) && response.headers["retry-after"@][0]
            == encode_utf8(crate::text::decimal(n as nat)) ==> response.retry_after_seconds()
            == Some(n),
        !response.headers.dom().contains("retry-after"@) ==> response.retry_after_seconds()
            is None,
        response.retry_after_seconds() == match crate::header::header_text(
            response.headers,
            "retry-after"@,
        ) {
            Some(text) => crate::text::parsed_u64(text),
            None => None,
        },
{
    reveal_strlit("retry-after");
    assert(crate::header::lower("retry-after"@) =~= "retry-after"@);
    let text = crate::text::decimal(n as nat);
    crate::text_laws::law_decimal_can_be_read_back(n as nat);
    assert(is_ascii_chars(text));
    is_ascii_chars_encode_utf8(text);
    let bytes = encode_utf8(text);
    assert forall|i: int| 0 <= i < bytes.len() implies crate::header::visible_byte(
        #[trigger] bytes[i],
    ) by {
        assert(bytes[i] == text[i] as u8);
    }
    assert(crate::header::ascii_text(bytes) =~= text);
}

} // verus!
