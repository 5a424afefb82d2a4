//! The client core: connection configuration, request URLs, and response
//! processing.
//!
//! The network transport stays outside the library. A caller builds the
//! request URL here, performs the GET itself, and hands the response
//! status and body text back to the processing functions, which decode a
//! success body or classify a failure.

use vstd::prelude::*;
use vstd::string::StrSliceExecFns;
use vstd::string::StringExecFns;

use crate::classify::classify_error_response;
use crate::classify::spec_parse_error_payload;
use crate::error::TardisError;
use crate::filter::filter_is_unset;
use crate::filter::filter_json;
use crate::filter::InstrumentFilter;
use crate::normalize::normalize_records;
use crate::normalize::normalized_view;
use crate::normalize::parse_instrument_any;
use crate::normalize::spec_normalize_all;
use crate::normalize::spec_normalize_record;
use crate::normalize::NormalizedInstrument;
use crate::records::parse_records;
use crate::records::parse_single_record;
use crate::records::records_view;
use crate::records::spec_parse_records;
use crate::records::spec_parse_single_record;
use crate::records::RawInstrumentRecord;
use crate::text::percent_encode;
use crate::text::percent_encoded;
use vstd::utf8::encode_utf8;

verus! {

/// A trading venue the remote API recognizes.
#[derive(Debug, Clone, Copy, PartialEq, Eq, Structural)]
pub enum Exchange {
    Bitmex,
    Binance,
    BinanceFutures,
    Bybit,
    Coinbase,
    Deribit,
    Huobi,
    Kraken,
    Okex,
}

impl Exchange {
    /// The venue identifier as the remote API spells it.
    pub open spec fn spec_name(self) -> Seq<char> {
        match self {
            Exchange::Bitmex => "bitmex"@,
            Exchange::Binance => "binance"@,
            Exchange::BinanceFutures => "binance-futures"@,
            Exchange::Bybit => "bybit"@,
            Exchange::Coinbase => "coinbase"@,
            Exchange::Deribit => "deribit"@,
            Exchange::Huobi => "huobi"@,
            Exchange::Kraken => "kraken"@,
            Exchange::Okex => "okex"@,
        }
    }

    /// The venue identifier as the remote API spells it.
    pub fn as_str(&self) -> (r: &'static str)
        ensures
            r@ == self.spec_name(),
    {
        match self {
            Exchange::Bitmex => "bitmex",
            Exchange::Binance => "binance",
            Exchange::BinanceFutures => "binance-futures",
            Exchange::Bybit => "bybit",
            Exchange::Coinbase => "coinbase",
            Exchange::Deribit => "deribit",
            Exchange::Huobi => "huobi",
            Exchange::Kraken => "kraken",
            Exchange::Okex => "okex",
        }
    }
}

/// The provider endpoint used when no base URL is supplied.
pub open spec fn default_base_url() -> Seq<char> {
    "https://api.tardis.dev/v1"@
}

/// The timeout used when none is supplied, in seconds.
pub open spec fn default_timeout_secs() -> u64 {
    60
}

/// The timestamp stamped onto normalized instruments: the supplied one,
/// or the caller's current time when none was supplied.
pub open spec fn resolve_ts_init(ts_init: Option<u64>, now: u64) -> u64 {
    match ts_init {
        Some(t) => t,
        None => now,
    }
}

/// A status in the HTTP success range.
pub open spec fn is_success_status(status: u16) -> bool {
    200 <= status < 300
}

/// The filter a borrowed optional filter stands for.
pub open spec fn filter_of(filter: Option<&InstrumentFilter>) -> Option<InstrumentFilter> {
    match filter {
        Some(f) => Some(*f),
        None => None,
    }
}

/// The query suffix a filter contributes to the instruments URL: empty
/// when no filter is given or no criterion is set, else `?filter=`
/// followed by the percent-encoded JSON serialization.
pub open spec fn spec_filter_suffix(filter: Option<InstrumentFilter>) -> Seq<char> {
    match filter {
        Some(f) => if filter_is_unset(f) {
            Seq::<char>::empty()
        } else {
            "?filter="@ + percent_encoded(encode_utf8(filter_json(f)))
        },
        None => Seq::<char>::empty(),
    }
}

/// The URL of the all-instruments endpoint for a venue.
pub open spec fn spec_instruments_url(
    c: TardisHttpClient,
    e: Exchange,
    filter: Option<InstrumentFilter>,
) -> Seq<char> {
    c.base_url@ + "/instruments/"@ + e.spec_name() + spec_filter_suffix(filter)
}

/// The URL of the single-instrument endpoint for a venue and symbol.
pub open spec fn spec_instrument_url(c: TardisHttpClient, e: Exchange, symbol: Seq<char>) -> Seq<
    char,
> {
    c.base_url@ + "/instruments/"@ + e.spec_name() + "/"@ + symbol
}

/// With no filter, or a filter with every criterion unset, the
/// instruments URL is exactly the base URL, the endpoint path, and the
/// venue name: it carries no filter query parameter at all.
pub proof fn lemma_unset_filter_no_query(
    c: TardisHttpClient,
    e: Exchange,
    filter: Option<InstrumentFilter>,
)
    requires
        (match filter {
            Some(f) => filter_is_unset(f),
            None => true,
        }),
    ensures
        spec_instruments_url(c, e, filter) == c.base_url@ + "/instruments/"@ + e.spec_name(),
{
    assert(spec_instruments_url(c, e, filter) =~= c.base_url@ + "/instruments/"@ + e.spec_name());
}

/// The client core's connection configuration: base URL, credential,
/// timeout, and the symbol-normalization policy. Immutable after
/// construction.
#[derive(Debug, Clone)]
pub struct TardisHttpClient {
    pub base_url: String,
    pub api_key: String,
    pub timeout_secs: u64,
    pub normalize_symbols: bool,
}

impl TardisHttpClient {
    /// Builds a client configuration. The credential must come from the
    /// explicit argument or from the caller's environment lookup; when
    /// both are absent, construction fails at once with the
    /// configuration error, before anything else happens. The base URL
    /// and the timeout fall back to their defaults.
    pub fn new(
        api_key: Option<&str>,
        env_api_key: Option<&str>,
        base_url: Option<&str>,
        timeout_secs: Option<u64>,
        normalize_symbols: bool,
    ) -> (r: Result<TardisHttpClient, TardisError>)
        ensures
            (r is Ok) == (api_key is Some || env_api_key is Some),
            r matches Err(e) ==> e is MissingApiKey,
            r matches Ok(c) ==> {
                &&& c.api_key@ == (if api_key is Some {
                    api_key->0@
                } else {
                    env_api_key->0@
                })
                &&& c.base_url@ == (if base_url is Some {
                    base_url->0@
                } else {
                    default_base_url()
                })
                &&& c.timeout_secs == (if timeout_secs is Some {
                    timeout_secs->0
                } else {
                    default_timeout_secs()
                })
                &&& c.normalize_symbols == normalize_symbols
            },
    {
        let api_key = match api_key {
            Some(k) => k.to_owned(),
            None => match env_api_key {
                Some(k) => k.to_owned(),
                None => {
                    return Err(TardisError::MissingApiKey);
                },
            },
        };
        let base_url = match base_url {
            Some(b) => b.to_owned(),
            None => "https://api.tardis.dev/v1".to_owned(),
        };
        let timeout_secs = match timeout_secs {
            Some(t) => t,
            None => 60,
        };
        Ok(TardisHttpClient { base_url, api_key, timeout_secs, normalize_symbols })
    }

    /// The value of the `Authorization` header: `Bearer ` followed by
    /// the configured credential.
    pub fn bearer_header_value(&self) -> (r: String)
        ensures
            r@ == "Bearer "@ + self.api_key@,
    {
        let mut out = "Bearer ".to_owned();
        out.append(self.api_key.as_str());
        out
    }

    /// Builds the all-instruments URL for a venue, appending the encoded
    /// filter only when one is given and holds at least one criterion.
    pub fn instruments_url(&self, exchange: Exchange, filter: Option<&InstrumentFilter>) -> (r:
        String)
        ensures
            r@ == spec_instruments_url(*self, exchange, filter_of(filter)),
    {
        let mut url = self.base_url.clone();
        url.append("/instruments/");
        url.append(exchange.as_str());
        if let Some(f) = filter {
            if !f.is_unset() {
                let js = f.to_json();
                let enc = percent_encode(js.as_str());
                url.append("?filter=");
                url.append(enc.as_str());
            }
        }
        proof {
            assert(url@ =~= spec_instruments_url(*self, exchange, filter_of(filter)));
        }
        url
    }

    /// Builds the single-instrument URL for a venue and symbol.
    pub fn instrument_url(&self, exchange: Exchange, symbol: &str) -> (r: String)
        ensures
            r@ == spec_instrument_url(*self, exchange, symbol@),
    {
        let mut url = self.base_url.clone();
        url.append("/instruments/");
        url.append(exchange.as_str());
        url.append("/");
        url.append(symbol);
        proof {
            assert(url@ =~= spec_instrument_url(*self, exchange, symbol@));
        }
        url
    }

    /// Maps every decoded raw record through the normalization pipeline,
    /// flattening into one list. The initialization timestamp falls back
    /// to `now`, the caller's clock reading.
    pub fn instruments_from_records(
        &self,
        records: &Vec<RawInstrumentRecord>,
        start: Option<u64>,
        end: Option<u64>,
        ts_init: Option<u64>,
        now: u64,
    ) -> (r: Vec<NormalizedInstrument>)
        ensures
            normalized_view(r@) == spec_normalize_all(
                records_view(records@),
                start,
                end,
                resolve_ts_init(ts_init, now),
                self.normalize_symbols,
            ),
    {
        let ts = match ts_init {
            Some(t) => t,
            None => now,
        };
        normalize_records(records, start, end, ts, self.normalize_symbols)
    }

    /// Normalizes one decoded raw record. The initialization timestamp
    /// falls back to `now`, the caller's clock reading.
    pub fn instrument_from_record(
        &self,
        record: &RawInstrumentRecord,
        start: Option<u64>,
        end: Option<u64>,
        ts_init: Option<u64>,
        now: u64,
    ) -> (r: Vec<NormalizedInstrument>)
        ensures
            normalized_view(r@) == spec_normalize_record(
                record@,
                start,
                end,
                resolve_ts_init(ts_init, now),
                self.normalize_symbols,
            ),
    {
        let ts = match ts_init {
            Some(t) => t,
            None => now,
        };
        parse_instrument_any(record, start, end, ts, self.normalize_symbols)
    }
}

/// Processes the response of the all-instruments endpoint: on a success
/// status the body must decode as a record array, else the parse error
/// is reported; on a non-success status the response is classified.
pub fn process_instruments_response(status: u16, body: &str) -> (r: Result<
    Vec<RawInstrumentRecord>,
    TardisError,
>)
    ensures
        is_success_status(status) ==> (match spec_parse_records(body@) {
            Some(sv) => (r matches Ok(v) && records_view(v@) == sv),
            None => (r matches Err(e) && e is ResponseParse),
        }),
        !is_success_status(status) ==> (r matches Err(e) && (match spec_parse_error_payload(
            body@,
        ) {
            Some((code, msg)) => (e matches TardisError::ApiError { status: st, code: c, message: m }
                && st == status && c == code && m@ == msg),
            None => (e matches TardisError::ApiError { status: st, code: c, message: m } && st
                == status && c == 0 && m@ == body@),
        })),
{
    if 200 <= status && status < 300 {
        match parse_records(body) {
            Some(v) => Ok(v),
            None => Err(
                TardisError::ResponseParse(
                    "response body is not a valid instrument record array".to_owned(),
                ),
            ),
        }
    } else {
        Err(classify_error_response(status, body))
    }
}

/// Processes the response of the single-instrument endpoint: on a
/// success status the body must decode as one record, else the parse
/// error is reported; on a non-success status the response is
/// classified.
pub fn process_instrument_response(status: u16, body: &str) -> (r: Result<
    RawInstrumentRecord,
    TardisError,
>)
    ensures
        is_success_status(status) ==> (match spec_parse_single_record(body@) {
            Some(sv) => (r matches Ok(v) && v@ == sv),
            None => (r matches Err(e) && e is ResponseParse),
        }),
        !is_success_status(status) ==> (r matches Err(e) && (match spec_parse_error_payload(
            body@,
        ) {
            Some((code, msg)) => (e matches TardisError::ApiError { status: st, code: c, message: m }
                && st == status && c == code && m@ == msg),
            None => (e matches TardisError::ApiError { status: st, code: c, message: m } && st
                == status && c == 0 && m@ == body@),
        })),
{
    if 200 <= status && status < 300 {
        match parse_single_record(body) {
            Some(v) => Ok(v),
            None => Err(
                TardisError::ResponseParse(
                    "response body is not a valid instrument record".to_owned(),
                ),
            ),
        }
    } else {
        Err(classify_error_response(status, body))
    }
}

} // verus!

