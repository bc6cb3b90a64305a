//! Choosing how an output stream is opened on a device, and naming output devices.
use vstd::prelude::*;
use crate::text::{decimal, decimal_text, join3, starts_with_seq, trim, trim_seq};
use crate::models::settings::{normalize_output_device_id, normalized_output_device_id};

verus! {

/// The channel count an ASIO stream is opened with: at least two, so that a mono source
/// reaches both outputs (ASIO has no mixer to spread it), at most what the device has, and
/// at least one.
pub open spec fn asio_channels(source_channels: u16, device_channels: u16) -> u16 {
    let wanted = if source_channels < 2 {
        2
    } else {
        source_channels
    };
    let bounded = if wanted < device_channels {
        wanted
    } else {
        device_channels
    };
    if bounded < 1 {
        1
    } else {
        bounded
    }
}

/// The channel count an ASIO stream is opened with for a source with `source_channels` on a
/// device with `device_channels`.
pub fn asio_output_channels(source_channels: u16, device_channels: u16) -> (r: u16)
    ensures
        r == asio_channels(source_channels, device_channels),
        device_channels >= 2 ==> r >= 2,
        r >= 1,
{
    let wanted = if source_channels < 2 {
        2
    } else {
        source_channels
    };
    let bounded = if wanted < device_channels {
        wanted
    } else {
        device_channels
    };
    if bounded < 1 {
        1
    } else {
        bounded
    }
}

/// A range of sample rates a device supports with a channel count.
#[derive(Debug, Clone, Copy, PartialEq, Eq, Structural)]
pub struct SupportedRateRange {
    pub channels: u16,
    pub min_sample_rate: u32,
    pub max_sample_rate: u32,
}

/// The distance between two sample rates.
pub open spec fn rate_distance(a: u32, b: u32) -> int {
    if a >= b {
        a - b
    } else {
        b - a
    }
}

/// Some range for `channels` contains `rate`.
pub open spec fn supports_rate(ranges: Seq<SupportedRateRange>, channels: u16, rate: u32) -> bool {
    exists|i: int|
        0 <= i < ranges.len() && #[trigger] ranges[i].channels == channels && ranges[i].min_sample_rate
            <= rate <= ranges[i].max_sample_rate
}

/// Range `i` is the first of the ranges for `channels` whose highest rate is nearest to
/// `rate`.
pub open spec fn is_nearest_range(
    ranges: Seq<SupportedRateRange>,
    channels: u16,
    rate: u32,
    i: int,
) -> bool {
    &&& 0 <= i < ranges.len()
    &&& ranges[i].channels == channels
    &&& forall|j: int|
        0 <= j < ranges.len() && ranges[j].channels == channels ==> rate_distance(
            #[trigger] ranges[j].max_sample_rate,
            rate,
        ) >= rate_distance(ranges[i].max_sample_rate, rate)
    &&& forall|j: int|
        0 <= j < i && ranges[j].channels == channels ==> rate_distance(
            #[trigger] ranges[j].max_sample_rate,
            rate,
        ) > rate_distance(ranges[i].max_sample_rate, rate)
}

/// The message for an ASIO device without output channels.
pub open spec fn no_channels_message() -> Seq<char> {
    "Audio output device error: ASIO device reports no output channels."@
}

/// The message for an ASIO device without a configuration for `channels`.
pub open spec fn no_config_message(channels: u16) -> Seq<char> {
    "Audio output device error: ASIO device supports no output config with "@ + decimal(
        channels as nat,
    ) + " channel(s)."@
}

/// Chooses the channel count and sample rate of an ASIO stream for a source with
/// `source_channels` at `source_sample_rate`, on a device with `device_channels` by default
/// and the supported `ranges`. The source's own rate is taken where a range for the channel
/// count allows it, as the device then needs no resampling; else the highest rate of the
/// first range for the channel count that is nearest to it.
pub fn select_asio_stream_config(
    device_channels: u16,
    source_channels: u16,
    source_sample_rate: u32,
    ranges: &Vec<SupportedRateRange>,
) -> (r: Result<(u16, u32), String>)
    ensures
        device_channels == 0 ==> (r matches Err(e) && e@ == no_channels_message()),
        device_channels > 0 ==> {
            let channels = asio_channels(source_channels, device_channels);
            if supports_rate(ranges@, channels, source_sample_rate) {
                r == Ok::<(u16, u32), String>((channels, source_sample_rate))
            } else {
                match r {
                    Ok((c, rate)) => c == channels && exists|i: int|
                        is_nearest_range(ranges@, channels, source_sample_rate, i)
                            && ranges@[i].max_sample_rate == rate,
                    Err(e) => e@ == no_config_message(channels) && forall|i: int|
                        0 <= i < ranges@.len() ==> #[trigger] ranges@[i].channels != channels,
                }
            }
        },
{
    if device_channels == 0 {
        return Err(
            String::from_str("Audio output device error: ASIO device reports no output channels."),
        );
    }
    let channels = asio_output_channels(source_channels, device_channels);
    let mut i: usize = 0;
    while i < ranges.len()
        invariant
            i <= ranges@.len(),
            device_channels > 0,
            channels == asio_channels(source_channels, device_channels),
            forall|j: int|
                0 <= j < i && #[trigger] ranges@[j].channels == channels ==> !(
                ranges@[j].min_sample_rate <= source_sample_rate <= ranges@[j].max_sample_rate),
        decreases ranges@.len() - i,
    {
        let range = ranges[i];
        if range.channels == channels && range.min_sample_rate <= source_sample_rate
            && source_sample_rate <= range.max_sample_rate {
            return Ok((channels, source_sample_rate));
        }
        i = i + 1;
    }
    let mut best: Option<usize> = None;
    let mut best_distance: u32 = 0;
    let mut k: usize = 0;
    while k < ranges.len()
        invariant
            k <= ranges@.len(),
            device_channels > 0,
            channels == asio_channels(source_channels, device_channels),
            !supports_rate(ranges@, channels, source_sample_rate),
            match best {
                Some(b) => {
                    &&& b < k
                    &&& ranges@[b as int].channels == channels
                    &&& best_distance == rate_distance(
                        ranges@[b as int].max_sample_rate,
                        source_sample_rate,
                    )
                    &&& forall|j: int|
                        0 <= j < k && ranges@[j].channels == channels ==> rate_distance(
                            #[trigger] ranges@[j].max_sample_rate,
                            source_sample_rate,
                        ) >= best_distance
                    &&& forall|j: int|
                        0 <= j < b && ranges@[j].channels == channels ==> rate_distance(
                            #[trigger] ranges@[j].max_sample_rate,
                            source_sample_rate,
                        ) > best_distance
                },
                None => forall|j: int| 0 <= j < k ==> #[trigger] ranges@[j].channels != channels,
            },
        decreases ranges@.len() - k,
    {
        let range = ranges[k];
        if range.channels == channels {
            let distance = if range.max_sample_rate >= source_sample_rate {
                range.max_sample_rate - source_sample_rate
            } else {
                source_sample_rate - range.max_sample_rate
            };
            match best {
                None => {
                    best = Some(k);
                    best_distance = distance;
                },
                Some(_) => {
                    if distance < best_distance {
                        best = Some(k);
                        best_distance = distance;
                    }
                },
            }
        }
        k = k + 1;
    }
    match best {
        Some(b) => {
            assert(is_nearest_range(ranges@, channels, source_sample_rate, b as int));
            Ok((channels, ranges[b].max_sample_rate))
        },
        None => {
            let count = decimal_text(channels as u64);
            Err(
                join3(
                    "Audio output device error: ASIO device supports no output config with ",
                    count.as_str(),
                    " channel(s).",
                ),
            )
        },
    }
}

/// The device name inside an output's friendly name `"<output> (<device>)"`, trimmed, where
/// it is not empty.
pub open spec fn device_name_in(friendly_name: Seq<char>, output_name: Seq<char>) -> Option<
    Seq<char>,
> {
    let f = trim_seq(friendly_name);
    let prefix = output_name + " ("@;
    if starts_with_seq(f, prefix) && f.len() > prefix.len() && f.last() == ')' {
        let inner = trim_seq(f.subrange(prefix.len() as int, f.len() - 1));
        if inner.len() > 0 {
            Some(inner)
        } else {
            None
        }
    } else {
        None
    }
}

/// The device name inside an output's friendly name `"<output> (<device>)"`.
pub fn device_name_from_friendly_name(friendly_name: &str, output_name: &str) -> (r: Option<String>)
    ensures
        match r {
            Some(s) => device_name_in(friendly_name@, output_name@) == Some(s@),
            None => device_name_in(friendly_name@, output_name@) is None,
        },
{
    let f = trim(friendly_name);
    let prefix = crate::text::join2(output_name, " (");
    let fs = f.as_str();
    let n = fs.unicode_len();
    let m = prefix.as_str().unicode_len();
    if !crate::text::starts_with(fs, prefix.as_str()) || n <= m || fs.get_char(n - 1) != ')' {
        return None;
    }
    let inner_raw = fs.substring_char(m, n - 1);
    let inner = trim(inner_raw);
    if inner.as_str().unicode_len() > 0 {
        Some(inner)
    } else {
        None
    }
}

/// The media type part of a content type: before the first `;`, trimmed.
pub open spec fn mime_head(content_type: Seq<char>) -> Seq<char> {
    let cut = if exists|i: int| 0 <= i < content_type.len() && content_type[i] == ';' {
        choose|i: int|
            0 <= i < content_type.len() && content_type[i] == ';' && forall|j: int|
                0 <= j < i ==> content_type[j] != ';'
    } else {
        content_type.len() as int
    };
    trim_seq(content_type.subrange(0, cut))
}

/// A content type without parameters: what comes before the first `;`, trimmed, or
/// `application/octet-stream` where that is empty.
pub fn normalize_mime_type(content_type: &str) -> (r: String)
    ensures
        r@ == (if mime_head(content_type@).len() > 0 {
            mime_head(content_type@)
        } else {
            "application/octet-stream"@
        }),
{
    let n = content_type.unicode_len();
    let mut i: usize = 0;
    while i < n && content_type.get_char(i) != ';'
        invariant
            n == content_type@.len(),
            i <= n,
            forall|j: int| 0 <= j < i ==> content_type@[j] != ';',
        decreases n - i,
    {
        i = i + 1;
    }
    proof {
        if i < n {
            assert(content_type@[i as int] == ';');
            let w = choose|k: int|
                0 <= k < content_type@.len() && content_type@[k] == ';' && forall|j: int|
                    0 <= j < k ==> content_type@[j] != ';';
            if w < i {
                assert(content_type@[w] != ';');
            }
            if w > i {
                assert(content_type@[i as int] != ';');
            }
        }
    }
    let head = trim(content_type.substring_char(0, i));
    if head.as_str().unicode_len() > 0 {
        head
    } else {
        String::from_str("application/octet-stream")
    }
}

/// Whether a content type names audio the desktop decoder can play: `audio/…`, or an
/// octet or Ogg stream.
pub fn is_supported_audio_content_type(content_type: &str) -> (r: bool)
    ensures
        r == (starts_with_seq(content_type@, "audio/"@) || starts_with_seq(
            content_type@,
            "application/octet-stream"@,
        ) || starts_with_seq(content_type@, "application/ogg"@)),
{
    crate::text::starts_with(content_type, "audio/") || crate::text::starts_with(
        content_type,
        "application/octet-stream",
    ) || crate::text::starts_with(content_type, "application/ogg")
}

/// The message returned where an output device is chosen on a host that plays through the
/// system default only.
pub const OUTPUT_SELECTION_UNSUPPORTED: &'static str = "Output device selection is only supported on Windows.";

/// Checks a chosen output device id on a host that plays through the system default only:
/// the id is normalized, and a device that remains is refused.
pub fn validate_output_device_id(output_device_id: Option<String>) -> (r: Result<
    Option<String>,
    String,
>)
    ensures
        match r {
            Ok(id) => id is None && normalized_output_device_id(output_device_id) is None,
            Err(message) => normalized_output_device_id(output_device_id) is Some
                && message@ == OUTPUT_SELECTION_UNSUPPORTED@,
        },
{
    let output_device_id = normalize_output_device_id(output_device_id);
    match output_device_id {
        Some(_) => Err(OUTPUT_SELECTION_UNSUPPORTED.to_string()),
        None => Ok(None),
    }
}

} // verus!
