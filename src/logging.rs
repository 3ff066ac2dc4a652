//! The parts of the logging pipeline: a level filter that gates every sink,
//! and the options of the sink that ships records to Datadog.

use crate::error::BootstrapError;
use dd_tracing_layer::{DatadogOptions, Region};
use tracing_subscriber::filter::ParseError;
use tracing_subscriber::EnvFilter;
use vstd::prelude::*;
use vstd::string::*;

verus! {

#[verifier::external_type_specification]
#[verifier::external_body]
pub struct ExEnvFilter(EnvFilter);

#[verifier::external_type_specification]
#[verifier::external_body]
pub struct ExParseError(ParseError);

#[verifier::external_type_specification]
pub struct ExDatadogOptions(DatadogOptions);

#[verifier::external_type_specification]
pub struct ExRegion(Region);

/// The name under which the service's records reach Datadog.
pub const SERVICE_NAME: &'static str = "shuttle-datadog-logs";

/// Whether `directives` is a filter that `EnvFilter` accepts.
pub uninterp spec fn filter_accepts(directives: Seq<char>) -> bool;

/// Whether `c` has Unicode's White_Space property, the set that `str::trim`
/// removes.
pub open spec fn is_space(c: char) -> bool {
    let u = c as u32;
    ||| 0x9 <= u <= 0xd
    ||| u == 0x20
    ||| u == 0x85
    ||| u == 0xa0
    ||| u == 0x1680
    ||| 0x2000 <= u <= 0x200a
    ||| u == 0x2028
    ||| u == 0x2029
    ||| u == 0x202f
    ||| u == 0x205f
    ||| u == 0x3000
}

/// Whether a comma-separated piece of `s` begins at position `p`.
pub open spec fn starts_piece(s: Seq<char>, p: int) -> bool {
    p == 0 || s[p - 1] == ','
}

/// Whether no comma stands in `s` from `p` to `q`, both included.
pub open spec fn no_comma(s: Seq<char>, p: int, q: int) -> bool {
    forall|k: int| p <= k <= q ==> s[k] != ','
}

/// Whether the piece that begins at `p` begins with white space and holds a
/// character beyond ASCII at `q`.
pub open spec fn unsafe_at(s: Seq<char>, p: int, q: int) -> bool {
    &&& 0 <= p <= q < s.len()
    &&& starts_piece(s, p)
    &&& is_space(s[p])
    &&& no_comma(s, p, q)
    &&& (s[q] as u32) >= 0x80
}

/// Whether every piece of `s` that begins with white space is ASCII. The
/// parser of `EnvFilter` trims a piece and then cuts the untrimmed text at the
/// trimmed text's offsets, which splits a character when white space comes
/// first and a wider character follows.
pub open spec fn directives_safe(s: Seq<char>) -> bool {
    forall|p: int, q: int| !#[trigger] unsafe_at(s, p, q)
}

/// A filter together with the directives it was parsed from.
pub struct ParsedFilter {
    pub directives: String,
    pub filter: EnvFilter,
}

/// Relies on `EnvFilter::try_new`: it parses the comma-separated directives
/// and fails on the first invalid one; an empty string is accepted.
#[verifier::external_body]
fn parse_filter(level: &str) -> (r: Result<ParsedFilter, ParseError>)
    requires
        directives_safe(level@),
    ensures
        r.is_ok() == filter_accepts(level@),
        level@.len() == 0 ==> r.is_ok(),
        match r {
            Ok(f) => f.directives@ == level@,
            Err(_) => true,
        },
{
    match EnvFilter::try_new(level) {
        Ok(filter) => Ok(ParsedFilter { directives: level.to_owned(), filter }),
        Err(e) => Err(e),
    }
}

fn is_space_char(c: char) -> (r: bool)
    ensures
        r == is_space(c),
{
    let u = c as u32;
    (0x9 <= u && u <= 0xd) || u == 0x20 || u == 0x85 || u == 0xa0 || u == 0x1680 || (0x2000 <= u
        && u <= 0x200a) || u == 0x2028 || u == 0x2029 || u == 0x202f || u == 0x205f || u == 0x3000
}

/// Whether `level` may be handed to the filter's parser.
pub fn directives_are_safe(level: &str) -> (r: bool)
    ensures
        r == directives_safe(level@),
{
    let n = level.unicode_len();
    let mut chars: Vec<char> = Vec::new();
    let mut i: usize = 0;
    while i < n
        invariant
            i <= n,
            n == level@.len(),
            chars@ == level@.take(i as int),
        decreases n - i,
    {
        let c = level.get_char(i);
        chars.push(c);
        i += 1;
        assert(chars@ =~= level@.take(i as int));
    }
    assert(chars@ =~= level@);
    let ghost s = level@;
    let mut start: usize = 0;
    let mut lead_space = false;
    let mut j: usize = 0;
    while j < n
        invariant
            s == level@,
            n == s.len(),
            chars@ == s,
            start <= j <= n,
            starts_piece(s, start as int),
            start < j ==> no_comma(s, start as int, j - 1),
            lead_space == (start < j && is_space(s[start as int])),
            forall|p: int, q: int| q < j ==> !#[trigger] unsafe_at(s, p, q),
        decreases n - j,
    {
        let c = chars[j];
        if c == ',' {
            start = j + 1;
            lead_space = false;
        } else {
            if j == start {
                lead_space = is_space_char(c);
            }
            assert(no_comma(s, start as int, j as int));
            if lead_space && (c as u32) >= 0x80 {
                assert(unsafe_at(s, start as int, j as int));
                return false;
            }
            assert forall|p: int| !#[trigger] unsafe_at(s, p, j as int) by {
                if unsafe_at(s, p, j as int) {
                    if p < start {
                        assert(s[start - 1] == ',');
                    } else if p > start {
                        assert(s[p - 1] == ',');
                    }
                }
            }
        }
        j += 1;
    }
    true
}

/// Relies on `DatadogOptions::new`: it sets the service name and the key and
/// leaves every other field empty.
#[verifier::external_body]
fn datadog_options_new(service_name: String, api_key: String) -> (r: DatadogOptions)
    ensures
        r.service_name == service_name,
        r.api_key == api_key,
        r.region.is_none(),
        r.url.is_none(),
        r.tags.is_none(),
{
    DatadogOptions::new(service_name, api_key)
}

/// Relies on `DatadogOptions::with_region`: it sets the region alone.
#[verifier::external_body]
fn datadog_with_region(options: DatadogOptions, region: Region) -> (r: DatadogOptions)
    ensures
        r.service_name == options.service_name,
        r.api_key == options.api_key,
        r.region == Some(region),
        r.url == options.url,
        r.tags == options.tags,
{
    options.with_region(region)
}

/// Relies on `DatadogOptions::with_tags`: it sets the tags alone.
#[verifier::external_body]
fn datadog_with_tags(options: DatadogOptions, tags: String) -> (r: DatadogOptions)
    ensures
        r.service_name == options.service_name,
        r.api_key == options.api_key,
        r.region == options.region,
        r.url == options.url,
        r.tags == Some(tags),
{
    options.with_tags(tags)
}

/// A pipeline ready to install: the filter and the remote sink's options.
pub struct LoggingPipeline {
    pub filter: ParsedFilter,
    pub remote: DatadogOptions,
}

/// What the options of the remote sink hold for the given key and tags.
pub open spec fn remote_options_for(o: DatadogOptions, api_key: Seq<char>, tags: Seq<char>) -> bool {
    &&& o.service_name@ == SERVICE_NAME@
    &&& o.api_key@ == api_key
    &&& o.region == Some(Region::US1)
    &&& o.url.is_none()
    &&& o.tags.is_some() && o.tags.unwrap()@ == tags
}

/// Builds the pipeline for `level`, `api_key` and `tags`. An invalid level,
/// or one that the filter's parser cannot take apart safely, rejects the whole
/// pipeline before the remote sink's options are made.
pub fn build_pipeline(level: String, api_key: String, tags: String) -> (r: Result<
    LoggingPipeline,
    BootstrapError,
>)
    ensures
        r.is_ok() == (directives_safe(level@) && filter_accepts(level@)),
        match r {
            Ok(p) => p.filter.directives@ == level@ && remote_options_for(p.remote, api_key@, tags@),
            Err(e) => e is LogLevelInvalid,
        },
{
    if !directives_are_safe(level.as_str()) {
        return Err(BootstrapError::LogLevelInvalid);
    }
    let filter = match parse_filter(level.as_str()) {
        Ok(f) => f,
        Err(_) => {
            return Err(BootstrapError::LogLevelInvalid);
        },
    };
    let remote = datadog_options_new(SERVICE_NAME.to_owned(), api_key);
    let remote = datadog_with_region(remote, Region::US1);
    let remote = datadog_with_tags(remote, tags);
    Ok(LoggingPipeline { filter, remote })
}

} // verus!
