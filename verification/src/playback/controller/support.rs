//! Messages, error classification and stream request building used by the controller.
use vstd::prelude::*;
use crate::models::playback::PlaybackError;
use crate::playback::backend::PreparedBinaryRequest;
use crate::urls::{
    pairs_text_len, URL_REWRITE_LIMIT, pairs_view, url_path, url_path_of, url_query_pairs, url_query_pairs_of, url_with_query_pairs,
    url_with_query_pairs_of,
};
use crate::text::{
    ascii_lower_char, ascii_lower_seq, chars_of, contains, contains_in_ascii_lowercase,
    contains_seq, decimal, decimal_text, join2, join3, lemma_remove_absent,
    lemma_remove_keeps_clean_prefix, occurs_at, remove_all, remove_all_seq,
    strip_leading_char, strip_trailing_seq, trim_end_text, trim_start_char,
};

verus! {

/// The marker a backend puts in a load error it has already shown to the user.
pub const HANDLED_PLAYBACK_ERROR_PREFIX: &'static str = "[transonic-handled-playback-error]";

/// The start of every error about the audio output device.
pub const OUTPUT_DEVICE_ERROR_PREFIX: &'static str = "Audio output device error:";

/// How many times a lost output stream is reloaded before playback gives up.
pub const OUTPUT_STREAM_RECOVERY_MAX_ATTEMPTS: u8 = 3;

/// Past this position, "previous" restarts the current track instead of going back.
pub const PREV_RESTART_THRESHOLD_MS: u32 = 3000;

/// The handled-error marker.
pub open spec fn handled_marker() -> Seq<char> {
    "[transonic-handled-playback-error]"@
}

/// The output device error prefix.
pub open spec fn output_device_marker() -> Seq<char> {
    "Audio output device error:"@
}

/// How long to wait before output stream recovery attempt `attempt`, in milliseconds.
pub open spec fn recovery_delay(attempt: u8) -> u64 {
    if attempt <= 1 {
        100
    } else if attempt == 2 {
        500
    } else {
        1500
    }
}

/// How long to wait before output stream recovery attempt `attempt`, in milliseconds.
pub fn output_stream_recovery_delay(attempt: u8) -> (r: u64)
    ensures
        r == recovery_delay(attempt),
{
    if attempt <= 1 {
        100
    } else if attempt == 2 {
        500
    } else {
        1500
    }
}

/// The playback error a failed load becomes: the marker is taken out of the message, and
/// its presence makes the error a handled one.
pub fn playback_error_from_load_failure(error: &str) -> (r: PlaybackError)
    ensures
        r.message@ == remove_all_seq(error@, handled_marker()),
        r.handled == contains_seq(error@, handled_marker()),
{
    PlaybackError {
        message: remove_all(error, HANDLED_PLAYBACK_ERROR_PREFIX),
        handled: contains(error, HANDLED_PLAYBACK_ERROR_PREFIX),
    }
}

/// A load error that carries the handled marker once, between text that holds none, is a
/// handled error whose message is that text with the marker taken out.
pub proof fn law_marked_load_error_is_handled(before: Seq<char>, after: Seq<char>)
    requires
        !contains_seq(before, handled_marker()),
        !contains_seq(after, handled_marker()),
    ensures
        remove_all_seq(before + handled_marker() + after, handled_marker()) == before + after,
        contains_seq(before + handled_marker() + after, handled_marker()),
{
    let m = handled_marker();
    reveal_strlit("[transonic-handled-playback-error]");
    assert(m.len() == 34);
    assert forall|k: int| 0 < k < m.len() implies #[trigger] m[k] != m[0] by {
        assert(m[0] == '[');
    }
    let rest = m + after;
    assert(rest.subrange(0, m.len() as int) =~= m);
    assert(before + m + after =~= before + rest);
    lemma_remove_keeps_clean_prefix(before, m, rest);
    assert(rest.subrange(m.len() as int, rest.len() as int) =~= after);
    lemma_remove_absent(after, m);
    assert((before + m + after).subrange(before.len() as int, (before.len() + m.len()) as int) =~= m);
    assert(occurs_at(before + m + after, m, before.len() as int));
}

/// A load error is about the output device.
pub open spec fn is_output_device_error(error: Seq<char>) -> bool {
    contains_seq(error, output_device_marker())
}

/// Whether a load error is about the output device.
pub fn is_output_device_load_error(error: &str) -> (r: bool)
    ensures
        r == is_output_device_error(error@),
{
    contains(error, OUTPUT_DEVICE_ERROR_PREFIX)
}

/// An error is a lost or failed output stream.
pub open spec fn is_output_stream_error(error: Seq<char>) -> bool {
    is_output_device_error(error) && (contains_seq(error, "output stream lost"@) || contains_seq(
        error,
        "output stream failed"@,
    ))
}

/// Whether an error reports a lost or failed output stream.
pub fn is_output_stream_runtime_error(error: &str) -> (r: bool)
    ensures
        r == is_output_stream_error(error@),
{
    is_output_device_load_error(error) && (contains(error, "output stream lost") || contains(
        error,
        "output stream failed",
    ))
}

/// An error says that no stream is prepared, in any letter case.
pub open spec fn is_missing_prepared_error(error: Seq<char>) -> bool {
    contains_seq(ascii_lower_seq(error), "no prepared stream"@)
}

/// Whether an error says that no stream is prepared.
pub fn is_missing_prepared_stream_error(error: &str) -> (r: bool)
    ensures
        r == is_missing_prepared_error(error@),
{
    contains_in_ascii_lowercase(error, "no prepared stream")
}

/// The error returned when changing the output device failed, with the rollback failure if
/// the previous device could not be restored either.
pub fn format_output_device_change_error(error: String, rollback_error: Option<String>) -> (r:
    String)
    ensures
        r@ == match rollback_error {
            Some(e) => error@ + "; failed to roll back output device selection: "@ + e@,
            None => error@,
        },
{
    match rollback_error {
        Some(rollback_error) => join3(
            error.as_str(),
            "; failed to roll back output device selection: ",
            rollback_error.as_str(),
        ),
        None => error,
    }
}

/// The endpoint a stream path names: leading slashes and trailing `.view` removed.
pub open spec fn endpoint_of_path(path: Seq<char>) -> Seq<char> {
    strip_trailing_seq(strip_leading_char(path, '/'), ".view"@)
}

/// The endpoint named by the path of a stream URL.
pub fn endpoint_from_path(path: &str) -> (r: String)
    ensures
        r@ == endpoint_of_path(path@),
{
    let trimmed = trim_start_char(path, '/');
    trim_end_text(trimmed.as_str(), ".view")
}

/// The endpoint a stream URL names: its path without the leading slashes and the `.view`
/// ending; empty where the URL does not parse.
pub open spec fn endpoint_of_url(url: Seq<char>) -> Seq<char> {
    match url_path_of(url) {
        Some(p) => endpoint_of_path(p),
        None => Seq::empty(),
    }
}

/// The endpoint a stream URL names.
pub fn stream_request_endpoint(url: &str) -> (r: String)
    ensures
        r@ == endpoint_of_url(url@),
{
    match url_path(url) {
        Some(path) => endpoint_from_path(path.as_str()),
        None => String::new(),
    }
}

/// A query parameter that carries credentials: `u`, `p`, `t`, `s`, `apiKey` or `api_key`, in
/// any ASCII letter case.
pub open spec fn is_sensitive_key(key: Seq<char>) -> bool {
    let k = ascii_lower_seq(key);
    k == "u"@ || k == "p"@ || k == "t"@ || k == "s"@ || k == "apikey"@ || k == "api_key"@
}

/// Whether a query parameter carries credentials and is masked in displayed URLs.
pub fn is_sensitive_query_key(key: &str) -> (r: bool)
    ensures
        r == is_sensitive_key(key@),
{
    let k = chars_of(key);
    let mut lowered: Vec<char> = Vec::new();
    let mut i: usize = 0;
    while i < k.len()
        invariant
            k@ == key@,
            i <= k@.len(),
            lowered@ =~= ascii_lower_seq(key@).subrange(0, i as int),
        decreases k@.len() - i,
    {
        lowered.push(ascii_lower_char(k[i]));
        i = i + 1;
    }
    assert(lowered@ =~= ascii_lower_seq(key@));
    let names = ["u", "p", "t", "s", "apikey", "api_key"];
    proof {
        reveal_strlit("u");
        reveal_strlit("p");
        reveal_strlit("t");
        reveal_strlit("s");
        reveal_strlit("apikey");
        reveal_strlit("api_key");
    }
    let a = chars_of("u");
    let b = chars_of("p");
    let c = chars_of("t");
    let d = chars_of("s");
    let e = chars_of("apikey");
    let f = chars_of("api_key");
    same_chars(&lowered, &a) || same_chars(&lowered, &b) || same_chars(&lowered, &c)
        || same_chars(&lowered, &d) || same_chars(&lowered, &e) || same_chars(&lowered, &f)
}

/// Whether two character lists are equal.
pub fn same_chars(x: &Vec<char>, y: &Vec<char>) -> (r: bool)
    ensures
        r == (x@ == y@),
{
    if x.len() != y.len() {
        return false;
    }
    let n = x.len();
    let mut i: usize = 0;
    while i < n
        invariant
            n == x@.len(),
            n == y@.len(),
            i <= n,
            forall|k: int| 0 <= k < i ==> x@[k] == y@[k],
        decreases n - i,
    {
        if x[i] != y[i] {
            return false;
        }
        i = i + 1;
    }
    assert(x@ =~= y@);
    true
}

/// A query pair with the value of a credential parameter masked.
pub open spec fn redacted_pair(p: (Seq<char>, Seq<char>)) -> (Seq<char>, Seq<char>) {
    if is_sensitive_key(p.0) {
        (p.0, "[redacted]"@)
    } else {
        p
    }
}

/// A stream URL as shown: the values of its credential parameters masked, the other
/// parameters kept in order; unchanged where it does not parse.
/// A URL too long to be rewritten is shown as the redaction marker alone.
pub open spec fn redacted_url_of(url: Seq<char>) -> Seq<char> {
    match url_query_pairs_of(url) {
        Some(ps) => {
            let rp = ps.map_values(|p| redacted_pair(p));
            if url.len() + pairs_text_len(rp) <= URL_REWRITE_LIMIT {
                match url_with_query_pairs_of(url, rp) {
                    Some(s) => s,
                    None => url,
                }
            } else {
                "[redacted]"@
            }
        },
        None => url,
    }
}

/// `n` capped just past the rewrite limit.
pub open spec fn capped_len(n: int) -> int {
    if n <= URL_REWRITE_LIMIT {
        n
    } else {
        URL_REWRITE_LIMIT + 1
    }
}

/// A stream URL as shown, with the values of its credential parameters masked.
pub fn redacted_stream_url(url: &str) -> (r: String)
    ensures
        r@ == redacted_url_of(url@),
{
    let pairs = match url_query_pairs(url) {
        Some(p) => p,
        None => {
            return String::from_str(url);
        },
    };
    let ghost source = pairs_view(pairs@);
    let mut redacted: Vec<(String, String)> = Vec::new();
    let url_len = url.unicode_len();
    let mut total: usize = if url_len <= URL_REWRITE_LIMIT {
        url_len
    } else {
        URL_REWRITE_LIMIT + 1
    };
    assert(pairs_text_len(pairs_view(redacted@)) == 0);
    let mut i: usize = 0;
    while i < pairs.len()
        invariant
            i <= pairs@.len(),
            source == pairs_view(pairs@),
            pairs_view(redacted@) =~= source.subrange(0, i as int).map_values(|p| redacted_pair(p)),
            url_len == url@.len(),
            total as int == capped_len(url@.len() + pairs_text_len(pairs_view(redacted@))),
        decreases pairs@.len() - i,
    {
        let key = pairs[i].0.clone();
        let value = if is_sensitive_query_key(pairs[i].0.as_str()) {
            String::from_str("[redacted]")
        } else {
            pairs[i].1.clone()
        };
        let ghost before = redacted@;
        assert(source[i as int] == (pairs@[i as int].0@, pairs@[i as int].1@));
        assert((key@, value@) == redacted_pair(source[i as int]));
        let key_len = key.unicode_len();
        let value_len = value.unicode_len();
        if total > URL_REWRITE_LIMIT || key_len > URL_REWRITE_LIMIT || value_len > URL_REWRITE_LIMIT {
            total = URL_REWRITE_LIMIT + 1;
        } else {
            let t = total + key_len + value_len + 1;
            total = if t <= URL_REWRITE_LIMIT {
                t
            } else {
                URL_REWRITE_LIMIT + 1
            };
        }
        redacted.push((key, value));
        assert(redacted@ =~= before.push((key, value)));
        assert(pairs_view(redacted@) =~= pairs_view(before).push((key@, value@)));
        assert(pairs_view(redacted@).drop_last() =~= pairs_view(before));
        assert(source.subrange(0, i + 1).map_values(|p| redacted_pair(p)) =~= source.subrange(
            0,
            i as int,
        ).map_values(|p| redacted_pair(p)).push(redacted_pair(source[i as int])));
        i = i + 1;
    }
    assert(source.subrange(0, pairs@.len() as int) =~= source);
    if total > URL_REWRITE_LIMIT {
        return String::from_str("[redacted]");
    }
    match url_with_query_pairs(url, &redacted) {
        Some(s) => s,
        None => String::from_str(url),
    }
}

/// The parameters of a stream request to the server.
#[derive(Debug, Clone, PartialEq, Eq)]
pub struct StreamRequest {
    pub id: String,
    pub max_bit_rate: Option<u32>,
    pub format: Option<String>,
    pub time_offset: Option<u32>,
    pub size: Option<String>,
    pub estimate_content_length: Option<bool>,
    pub converted: Option<bool>,
}

/// A failure of a server API call.
#[derive(Debug, Clone, PartialEq, Eq)]
pub enum ApiError {
    InvalidUrl { message: String },
    ClientBuild { message: String },
    Protocol { message: String },
    Transport { message: String },
    HttpStatus { status: u16 },
    Decode { message: String },
    Api { code: u32, message: Option<String> },
    UnsupportedExtension { extension: String },
}

/// The message shown for a failed server API call.
pub open spec fn api_error_message(error: ApiError) -> Seq<char> {
    match error {
        ApiError::InvalidUrl { message } => message@,
        ApiError::ClientBuild { message } => message@,
        ApiError::Protocol { message } => message@,
        ApiError::Transport { message } => message@,
        ApiError::HttpStatus { status } => "HTTP "@ + decimal(status as nat),
        ApiError::Decode { message } => message@,
        ApiError::Api { code, message } => "API "@ + decimal(code as nat) + ": "@ + match message {
            Some(m) => m@,
            None => "Unknown API error"@,
        },
        ApiError::UnsupportedExtension { extension } => "Missing extension: "@ + extension@,
    }
}

/// The message shown for a failed server API call.
pub fn format_api_error(error: ApiError) -> (r: String)
    ensures
        r@ == api_error_message(error),
{
    match error {
        ApiError::InvalidUrl { message } => message,
        ApiError::ClientBuild { message } => message,
        ApiError::Protocol { message } => message,
        ApiError::Transport { message } => message,
        ApiError::HttpStatus { status } => {
            let n = decimal_text(status as u64);
            join2("HTTP ", n.as_str())
        },
        ApiError::Decode { message } => message,
        ApiError::Api { code, message } => {
            let detail = match message {
                Some(m) => m,
                None => String::from_str("Unknown API error"),
            };
            let n = decimal_text(code as u64);
            let mut s = join3("API ", n.as_str(), ": ");
            s.append(detail.as_str());
            s
        },
        ApiError::UnsupportedExtension { extension } => join2(
            "Missing extension: ",
            extension.as_str(),
        ),
    }
}

/// The server's media retrieval API, as far as playback uses it.
pub trait RetrievalApi {
    /// Prepares the request for the stream a request describes.
    fn stream(&self, request: StreamRequest) -> Result<PreparedBinaryRequest, ApiError>;
}

/// The stream request the controller asks for.
pub open spec fn stream_request_for(
    song_id: Seq<char>,
    stream_offset_seconds: Option<u32>,
    max_bit_rate: Option<u32>,
    stream_format: Option<Seq<char>>,
    estimate_content_length: bool,
    request: StreamRequest,
) -> bool {
    &&& request.id@ == song_id
    &&& request.max_bit_rate == max_bit_rate
    &&& match (request.format, stream_format) {
        (Some(f), Some(g)) => f@ == g,
        (None, None) => true,
        _ => false,
    }
    &&& request.time_offset == stream_offset_seconds
    &&& request.size is None
    &&& request.estimate_content_length == (if estimate_content_length {
        Some(true)
    } else {
        None
    })
    &&& request.converted is None
}

/// The stream request for a song; the content length estimate is asked for only when wanted.
pub fn stream_request(
    song_id: &str,
    stream_offset_seconds: Option<u32>,
    max_bit_rate: Option<u32>,
    stream_format: Option<&str>,
    estimate_content_length: bool,
) -> (r: StreamRequest)
    ensures
        stream_request_for(
            song_id@,
            stream_offset_seconds,
            max_bit_rate,
            match stream_format {
                Some(f) => Some(f@),
                None => None,
            },
            estimate_content_length,
            r,
        ),
{
    StreamRequest {
        id: String::from_str(song_id),
        max_bit_rate,
        format: match stream_format {
            Some(f) => Some(String::from_str(f)),
            None => None,
        },
        time_offset: stream_offset_seconds,
        size: None,
        estimate_content_length: if estimate_content_length {
            Some(true)
        } else {
            None
        },
        converted: None,
    }
}

/// What a stream request of the server API gives the controller: the prepared request, or
/// the message of the API's failure.
pub fn stream_request_outcome(result: Result<PreparedBinaryRequest, ApiError>) -> (r: Result<
    PreparedBinaryRequest,
    String,
>)
    ensures
        match result {
            Ok(p) => r == Ok::<PreparedBinaryRequest, String>(p),
            Err(e) => r matches Err(m) && m@ == api_error_message(e),
        },
{
    match result {
        Ok(prepared) => Ok(prepared),
        Err(error) => Err(format_api_error(error)),
    }
}

/// Asks the server API for the stream request of a song, built by [`stream_request`]; its
/// failure becomes the message of an API error. What the server API answers is up to it.
pub fn build_stream_request(
    client: &dyn RetrievalApi,
    song_id: &str,
    stream_offset_seconds: Option<u32>,
    max_bit_rate: Option<u32>,
    stream_format: Option<&str>,
    estimate_content_length: bool,
) -> (r: Result<PreparedBinaryRequest, String>)
    ensures
        r matches Err(m) ==> exists|e: ApiError| #[trigger] api_error_message(e) == m@,
{
    let request = stream_request(
        song_id,
        stream_offset_seconds,
        max_bit_rate,
        stream_format,
        estimate_content_length,
    );
    let result = client.stream(request);
    let ghost answer = result;
    let r = stream_request_outcome(result);
    proof {
        if let Err(e) = answer {
            assert(api_error_message(e) == r->Err_0@);
        }
    }
    r
}

} // verus!
