//! The normalization pipeline: raw wire records to domain instruments.
//!
//! A record that does not represent a supported instrument shape yields
//! nothing rather than failing, so one malformed record never prevents
//! normalization of its siblings. An optional active window drops records
//! whose defined lifetime lies entirely outside it; a record with no
//! defined lifetime bounds is always retained. The caller is the timing
//! authority: the initialization timestamp is taken as a plain argument.

use vstd::prelude::*;
use vstd::string::StrSliceExecFns;

use crate::json::str_eq;
use crate::records::records_view;
use crate::records::RawInstrumentRecord;
use crate::records::RawRecordModel;
use crate::text::push_char;

verus! {

/// A normalized domain instrument.
#[derive(Debug, Clone)]
pub struct NormalizedInstrument {
    pub symbol: String,
    pub instrument_type: String,
    pub ts_init: u64,
}

/// The mathematical value of a normalized instrument.
pub struct NormalizedModel {
    pub symbol: Seq<char>,
    pub instrument_type: Seq<char>,
    pub ts_init: u64,
}

impl View for NormalizedInstrument {
    type V = NormalizedModel;

    open spec fn view(&self) -> NormalizedModel {
        NormalizedModel {
            symbol: self.symbol@,
            instrument_type: self.instrument_type@,
            ts_init: self.ts_init,
        }
    }
}

/// The models of a list of normalized instruments.
pub open spec fn normalized_view(v: Seq<NormalizedInstrument>) -> Seq<NormalizedModel> {
    Seq::new(v.len(), |i: int| v[i]@)
}

/// The instrument kinds the pipeline can normalize.
pub open spec fn is_supported_kind(k: Seq<char>) -> bool {
    k == "spot"@ || k == "perpetual"@ || k == "future"@ || k == "option"@
}

/// A record the pipeline accepts: a non-empty symbol and a supported
/// kind.
pub open spec fn record_well_formed(m: RawRecordModel) -> bool {
    m.symbol.len() > 0 && is_supported_kind(m.instrument_type)
}

/// True when the record's defined active lifetime intersects the window.
/// An undefined bound, on either side, never excludes the record.
pub open spec fn lifetime_intersects(
    since: Option<u64>,
    to: Option<u64>,
    start: Option<u64>,
    end: Option<u64>,
) -> bool {
    (match (end, since) {
        (Some(e), Some(s)) => s <= e,
        _ => true,
    }) && (match (start, to) {
        (Some(st), Some(t)) => t >= st,
        _ => true,
    })
}

/// Uppercases one ASCII letter; every other character stands for itself.
pub open spec fn upper_char(c: char) -> char {
    if 'a' <= c && c <= 'z' {
        (((c as u8) - 32) as char)
    } else {
        c
    }
}

/// The canonical symbol form: every ASCII letter uppercased.
pub open spec fn upper_seq(s: Seq<char>) -> Seq<char> {
    Seq::new(s.len(), |i: int| upper_char(s[i]))
}

/// The symbol the pipeline emits, canonicalized when requested.
pub open spec fn normalized_symbol(sym: Seq<char>, normalize: bool) -> Seq<char> {
    if normalize {
        upper_seq(sym)
    } else {
        sym
    }
}

/// The instruments one record yields: exactly one when the record is
/// well formed and its lifetime intersects the window, none otherwise.
pub open spec fn spec_normalize_record(
    m: RawRecordModel,
    start: Option<u64>,
    end: Option<u64>,
    ts_init: u64,
    normalize: bool,
) -> Seq<NormalizedModel> {
    if record_well_formed(m) && lifetime_intersects(
        m.available_since,
        m.available_to,
        start,
        end,
    ) {
        seq![
            NormalizedModel {
                symbol: normalized_symbol(m.symbol, normalize),
                instrument_type: m.instrument_type,
                ts_init,
            },
        ]
    } else {
        Seq::<NormalizedModel>::empty()
    }
}

/// The instruments a whole batch yields, in order, each record
/// contributing its own instruments.
pub open spec fn spec_normalize_all(
    rs: Seq<RawRecordModel>,
    start: Option<u64>,
    end: Option<u64>,
    ts_init: u64,
    normalize: bool,
) -> Seq<NormalizedModel>
    decreases rs.len(),
{
    if rs.len() == 0 {
        Seq::<NormalizedModel>::empty()
    } else {
        spec_normalize_all(rs.drop_last(), start, end, ts_init, normalize)
            + spec_normalize_record(rs.last(), start, end, ts_init, normalize)
    }
}

/// Uppercases every ASCII letter of a string.
fn to_upper(s: &str) -> (r: String)
    ensures
        r@ == upper_seq(s@),
{
    let n = s.unicode_len();
    let mut out = String::new();
    let mut i: usize = 0;
    while i < n
        invariant
            i <= n,
            n == s@.len(),
            out@.len() == i,
            forall|j: int| 0 <= j < i ==> out@[j] == upper_char(s@[j]),
        decreases n - i,
    {
        let c = s.get_char(i);
        if 'a' <= c && c <= 'z' {
            let b = c as u8;
            push_char(&mut out, (b - 32) as char);
        } else {
            push_char(&mut out, c);
        }
        i = i + 1;
    }
    proof {
        assert(out@ =~= upper_seq(s@));
    }
    out
}

/// Normalizes one raw record into zero or one domain instruments.
pub fn parse_instrument_any(
    record: &RawInstrumentRecord,
    start: Option<u64>,
    end: Option<u64>,
    ts_init: u64,
    normalize_symbols: bool,
) -> (r: Vec<NormalizedInstrument>)
    ensures
        normalized_view(r@) == spec_normalize_record(
            record@,
            start,
            end,
            ts_init,
            normalize_symbols,
        ),
{
    let symbol_ok = !record.symbol.as_str().is_empty();
    let kind = record.instrument_type.as_str();
    let kind_ok = str_eq(kind, "spot") || str_eq(kind, "perpetual") || str_eq(kind, "future")
        || str_eq(kind, "option");
    let since_ok = match (end, record.available_since) {
        (Some(e), Some(s)) => s <= e,
        _ => true,
    };
    let to_ok = match (start, record.available_to) {
        (Some(st), Some(t)) => t >= st,
        _ => true,
    };
    let mut out: Vec<NormalizedInstrument> = Vec::new();
    if symbol_ok && kind_ok && since_ok && to_ok {
        let symbol = if normalize_symbols {
            to_upper(record.symbol.as_str())
        } else {
            record.symbol.clone()
        };
        out.push(
            NormalizedInstrument {
                symbol,
                instrument_type: record.instrument_type.clone(),
                ts_init,
            },
        );
    }
    proof {
        assert(normalized_view(out@) =~= spec_normalize_record(
            record@,
            start,
            end,
            ts_init,
            normalize_symbols,
        ));
    }
    out
}

/// Normalizes a whole batch of raw records, flattening each record's
/// instruments into one list.
pub fn normalize_records(
    records: &Vec<RawInstrumentRecord>,
    start: Option<u64>,
    end: Option<u64>,
    ts_init: u64,
    normalize_symbols: bool,
) -> (r: Vec<NormalizedInstrument>)
    ensures
        normalized_view(r@) == spec_normalize_all(
            records_view(records@),
            start,
            end,
            ts_init,
            normalize_symbols,
        ),
{
    let ghost rv: Seq<RawRecordModel> = records_view(records@);
    let mut out: Vec<NormalizedInstrument> = Vec::new();
    let mut i: usize = 0;
    proof {
        assert(normalized_view(out@) =~= spec_normalize_all(
            rv.subrange(0, 0),
            start,
            end,
            ts_init,
            normalize_symbols,
        ));
    }
    while i < records.len()
        invariant
            i <= records@.len(),
            rv == records_view(records@),
            normalized_view(out@) == spec_normalize_all(
                rv.subrange(0, i as int),
                start,
                end,
                ts_init,
                normalize_symbols,
            ),
        decreases records@.len() - i,
    {
        let mut one = parse_instrument_any(&records[i], start, end, ts_init, normalize_symbols);
        let ghost prev: Seq<NormalizedInstrument> = out@;
        out.append(&mut one);
        proof {
            assert(rv.subrange(0, i + 1).drop_last() =~= rv.subrange(0, i as int));
            assert(rv.subrange(0, i + 1).last() == rv[i as int]);
            assert(normalized_view(out@) =~= normalized_view(prev) + spec_normalize_record(
                rv[i as int],
                start,
                end,
                ts_init,
                normalize_symbols,
            ));
            assert(normalized_view(out@) =~= spec_normalize_all(
                rv.subrange(0, i + 1),
                start,
                end,
                ts_init,
                normalize_symbols,
            ));
        }
        i = i + 1;
    }
    proof {
        assert(rv.subrange(0, records@.len() as int) =~= rv);
    }
    out
}

/// One record that yields nothing leaves the batch's output exactly what
/// the other records yield: removing it changes nothing.
pub proof fn lemma_malformed_record_dropped(
    rs: Seq<RawRecordModel>,
    i: int,
    start: Option<u64>,
    end: Option<u64>,
    ts_init: u64,
    normalize: bool,
)
    requires
        0 <= i < rs.len(),
        spec_normalize_record(rs[i], start, end, ts_init, normalize) == Seq::<
            NormalizedModel,
        >::empty(),
    ensures
        spec_normalize_all(rs, start, end, ts_init, normalize) == spec_normalize_all(
            rs.remove(i),
            start,
            end,
            ts_init,
            normalize,
        ),
    decreases rs.len(),
{
    if i == rs.len() - 1 {
        assert(rs.remove(i) =~= rs.drop_last());
        assert(spec_normalize_all(rs.drop_last(), start, end, ts_init, normalize) + Seq::<
            NormalizedModel,
        >::empty() =~= spec_normalize_all(rs.drop_last(), start, end, ts_init, normalize));
    } else {
        lemma_malformed_record_dropped(rs.drop_last(), i, start, end, ts_init, normalize);
        assert(rs.remove(i).drop_last() =~= rs.drop_last().remove(i));
        assert(rs.remove(i).last() == rs.last());
    }
}

/// With a window given, a record whose defined lifetime lies entirely
/// outside it yields nothing, and a well-formed record with no defined
/// lifetime bounds is never excluded by the window.
pub proof fn lemma_window_filtering(
    m: RawRecordModel,
    start: Option<u64>,
    end: Option<u64>,
    ts_init: u64,
    normalize: bool,
)
    ensures
        (match (end, m.available_since) {
            (Some(e), Some(s)) => s > e,
            _ => false,
        }) ==> spec_normalize_record(m, start, end, ts_init, normalize) == Seq::<
            NormalizedModel,
        >::empty(),
        (match (start, m.available_to) {
            (Some(st), Some(t)) => t < st,
            _ => false,
        }) ==> spec_normalize_record(m, start, end, ts_init, normalize) == Seq::<
            NormalizedModel,
        >::empty(),
        m.available_since is None && m.available_to is None && record_well_formed(m)
            ==> spec_normalize_record(m, start, end, ts_init, normalize).len() == 1,
{
}

} // verus!
