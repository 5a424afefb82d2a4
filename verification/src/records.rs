//! The wire-format instrument record and its decoder.
//!
//! A success response body is a JSON array of instrument records. A
//! record is an object holding, in order: `id` (the provider-native
//! symbol), `type` (the instrument kind), `availableSince` and
//! `availableTo` (nanosecond timestamps, or `null` when the lifetime
//! bound is undefined).

use vstd::prelude::*;
use vstd::string::StrSliceExecFns;

use crate::json::expect_colon;
use crate::json::expect_comma;
use crate::json::lemma_colon_bounds;
use crate::json::lemma_parse_string_bounds;
use crate::json::lemma_parse_u64_bounds;
use crate::json::lemma_skip_ws_bounds;
use crate::json::match_lit;
use crate::json::matches_at;
use crate::json::parse_string_at;
use crate::json::parse_u64_at;
use crate::json::skip_ws;
use crate::json::spec_colon;
use crate::json::spec_comma;
use crate::json::spec_parse_string;
use crate::json::spec_parse_u64;
use crate::json::spec_skip_ws;

verus! {

/// One raw instrument record as decoded from the wire.
#[derive(Debug, Clone)]
pub struct RawInstrumentRecord {
    pub symbol: String,
    pub instrument_type: String,
    pub available_since: Option<u64>,
    pub available_to: Option<u64>,
}

/// The mathematical value of a raw instrument record.
pub struct RawRecordModel {
    pub symbol: Seq<char>,
    pub instrument_type: Seq<char>,
    pub available_since: Option<u64>,
    pub available_to: Option<u64>,
}

impl View for RawInstrumentRecord {
    type V = RawRecordModel;

    open spec fn view(&self) -> RawRecordModel {
        RawRecordModel {
            symbol: self.symbol@,
            instrument_type: self.instrument_type@,
            available_since: self.available_since,
            available_to: self.available_to,
        }
    }
}

/// The models of a list of records.
pub open spec fn records_view(v: Seq<RawInstrumentRecord>) -> Seq<RawRecordModel> {
    Seq::new(v.len(), |i: int| v[i]@)
}

/// A member whose value is a JSON string, introduced by the given quoted
/// key.
pub open spec fn spec_string_member(s: Seq<char>, i: int, key: Seq<char>) -> Option<
    (Seq<char>, int),
> {
    if matches_at(s, i, key) {
        match spec_colon(s, i + key.len()) {
            None => None,
            Some(j) => spec_parse_string(s, j),
        }
    } else {
        None
    }
}

/// An unsigned integer or `null` starting at `i`.
pub open spec fn spec_u64_or_null(s: Seq<char>, i: int) -> Option<(Option<u64>, int)> {
    if matches_at(s, i, "null"@) {
        Some((None, i + "null"@.len()))
    } else {
        match spec_parse_u64(s, i) {
            None => None,
            Some((v, j)) => Some((Some(v), j)),
        }
    }
}

/// A member whose value is an unsigned integer or `null`, introduced by
/// the given quoted key.
pub open spec fn spec_opt_u64_member(s: Seq<char>, i: int, key: Seq<char>) -> Option<
    (Option<u64>, int),
> {
    if matches_at(s, i, key) {
        match spec_colon(s, i + key.len()) {
            None => None,
            Some(j) => spec_u64_or_null(s, j),
        }
    } else {
        None
    }
}

/// A successful string-member parse moves forward and stays within the
/// text.
pub proof fn lemma_string_member_bounds(s: Seq<char>, i: int, key: Seq<char>)
    ensures
        spec_string_member(s, i, key) matches Some((v, j)) ==> i < j <= s.len(),
{
    if matches_at(s, i, key) {
        lemma_colon_bounds(s, i + key.len());
        match spec_colon(s, i + key.len()) {
            None => {},
            Some(j) => {
                lemma_parse_string_bounds(s, j);
            },
        }
    }
}

/// A successful optional-integer-member parse moves forward and stays
/// within the text.
pub proof fn lemma_opt_u64_member_bounds(s: Seq<char>, i: int, key: Seq<char>)
    ensures
        spec_opt_u64_member(s, i, key) matches Some((v, j)) ==> i <= j <= s.len(),
{
    reveal_strlit("null");
    if matches_at(s, i, key) {
        let x = i + key.len();
        lemma_colon_bounds(s, x);
        match spec_colon(s, x) {
            None => {},
            Some(j) => {
                lemma_parse_u64_bounds(s, j);
            },
        }
    }
}

/// One record object starting at `i`: `id`, `type`, `availableSince`,
/// `availableTo`, in that order.
pub open spec fn spec_parse_record(s: Seq<char>, i: int) -> Option<(RawRecordModel, int)> {
    if i < s.len() && s[i] == '{' {
        let j0 = spec_skip_ws(s, i + 1);
        match spec_string_member(s, j0, "\"id\""@) {
            None => None,
            Some((sym, a1)) => match spec_comma(s, a1) {
                None => None,
                Some(b1) => match spec_string_member(s, b1, "\"type\""@) {
                    None => None,
                    Some((ty, a2)) => match spec_comma(s, a2) {
                        None => None,
                        Some(b2) => match spec_opt_u64_member(s, b2, "\"availableSince\""@) {
                            None => None,
                            Some((since, a3)) => match spec_comma(s, a3) {
                                None => None,
                                Some(b3) => match spec_opt_u64_member(s, b3, "\"availableTo\""@) {
                                    None => None,
                                    Some((to, a4)) => {
                                        let j = spec_skip_ws(s, a4);
                                        if j < s.len() && s[j] == '}' {
                                            Some(
                                                (
                                                    RawRecordModel {
                                                        symbol: sym,
                                                        instrument_type: ty,
                                                        available_since: since,
                                                        available_to: to,
                                                    },
                                                    j + 1,
                                                ),
                                            )
                                        } else {
                                            None
                                        }
                                    },
                                },
                            },
                        },
                    },
                },
            },
        }
    } else {
        None
    }
}

/// A successful record parse moves forward and stays within the text.
pub proof fn lemma_parse_record_bounds(s: Seq<char>, i: int)
    ensures
        spec_parse_record(s, i) matches Some((m, j)) ==> i < j <= s.len(),
{
    if i < s.len() && s[i] == '{' {
        lemma_skip_ws_bounds(s, i + 1);
        let j0 = spec_skip_ws(s, i + 1);
        lemma_string_member_bounds(s, j0, "\"id\""@);
        match spec_string_member(s, j0, "\"id\""@) {
            None => {},
            Some((sym, a1)) => {
                crate::json::lemma_comma_bounds(s, a1);
                match spec_comma(s, a1) {
                    None => {},
                    Some(b1) => {
                        lemma_string_member_bounds(s, b1, "\"type\""@);
                        match spec_string_member(s, b1, "\"type\""@) {
                            None => {},
                            Some((ty, a2)) => {
                                crate::json::lemma_comma_bounds(s, a2);
                                match spec_comma(s, a2) {
                                    None => {},
                                    Some(b2) => {
                                        lemma_opt_u64_member_bounds(s, b2, "\"availableSince\""@);
                                        match spec_opt_u64_member(s, b2, "\"availableSince\""@) {
                                            None => {},
                                            Some((since, a3)) => {
                                                crate::json::lemma_comma_bounds(s, a3);
                                                match spec_comma(s, a3) {
                                                    None => {},
                                                    Some(b3) => {
                                                        lemma_opt_u64_member_bounds(
                                                            s,
                                                            b3,
                                                            "\"availableTo\""@,
                                                        );
                                                        match spec_opt_u64_member(
                                                            s,
                                                            b3,
                                                            "\"availableTo\""@,
                                                        ) {
                                                            None => {},
                                                            Some((to, a4)) => {
                                                                lemma_skip_ws_bounds(s, a4);
                                                            },
                                                        }
                                                    },
                                                }
                                            },
                                        }
                                    },
                                }
                            },
                        }
                    },
                }
            },
        }
    }
}

/// The rest of the record array after one record: a comma and another
/// record, repeated, then the closing bracket and the end of the text.
pub open spec fn spec_parse_records_rest(
    s: Seq<char>,
    i: int,
    acc: Seq<RawRecordModel>,
) -> Option<Seq<RawRecordModel>>
    decreases s.len() - i,
    via spec_parse_records_rest_dec
{
    let j = spec_skip_ws(s, i);
    if j < s.len() && s[j] == ',' {
        match spec_parse_record(s, spec_skip_ws(s, j + 1)) {
            None => None,
            Some((m, k)) => spec_parse_records_rest(s, k, acc.push(m)),
        }
    } else if j < s.len() && s[j] == ']' {
        if spec_skip_ws(s, j + 1) == s.len() {
            Some(acc)
        } else {
            None
        }
    } else {
        None
    }
}

#[via_fn]
proof fn spec_parse_records_rest_dec(s: Seq<char>, i: int, acc: Seq<RawRecordModel>) {
    lemma_skip_ws_bounds(s, i);
    let j = spec_skip_ws(s, i);
    if j < s.len() && s[j] == ',' {
        lemma_skip_ws_bounds(s, j + 1);
        lemma_parse_record_bounds(s, spec_skip_ws(s, j + 1));
    }
}

/// A whole response body: a JSON array of records and nothing else.
pub open spec fn spec_parse_records(s: Seq<char>) -> Option<Seq<RawRecordModel>> {
    let i0 = spec_skip_ws(s, 0);
    if i0 < s.len() && s[i0] == '[' {
        let i1 = spec_skip_ws(s, i0 + 1);
        if i1 < s.len() && s[i1] == ']' {
            if spec_skip_ws(s, i1 + 1) == s.len() {
                Some(Seq::<RawRecordModel>::empty())
            } else {
                None
            }
        } else {
            match spec_parse_record(s, i1) {
                None => None,
                Some((m, k)) => spec_parse_records_rest(s, k, seq![m]),
            }
        }
    } else {
        None
    }
}

/// A whole response body holding exactly one record object.
pub open spec fn spec_parse_single_record(s: Seq<char>) -> Option<RawRecordModel> {
    let i0 = spec_skip_ws(s, 0);
    match spec_parse_record(s, i0) {
        None => None,
        Some((m, j)) => if spec_skip_ws(s, j) == s.len() {
            Some(m)
        } else {
            None
        },
    }
}

/// Parses a member whose value is a JSON string.
fn string_member(s: &str, i: usize, key: &str) -> (r: Option<(String, usize)>)
    requires
        i <= s@.len(),
    ensures
        (match (r, spec_string_member(s@, i as int, key@)) {
            (Some((v, j)), Some((sv, sj))) => v@ == sv && j as int == sj && i < j <= s@.len(),
            (None, None) => true,
            _ => false,
        }),
{
    let n = s.unicode_len();
    let m = key.unicode_len();
    if match_lit(s, i, key) {
        match expect_colon(s, i + m) {
            None => None,
            Some(j) => parse_string_at(s, j),
        }
    } else {
        None
    }
}

/// Parses an unsigned integer or `null`.
fn u64_or_null(s: &str, i: usize) -> (r: Option<(Option<u64>, usize)>)
    requires
        i <= s@.len(),
    ensures
        (match (r, spec_u64_or_null(s@, i as int)) {
            (Some((v, j)), Some((sv, sj))) => v == sv && j as int == sj && i <= j <= s@.len(),
            (None, None) => true,
            _ => false,
        }),
{
    proof {
        reveal_strlit("null");
    }
    let n = s.unicode_len();
    if match_lit(s, i, "null") {
        Some((None, i + 4))
    } else {
        match parse_u64_at(s, i) {
            None => None,
            Some((v, j)) => Some((Some(v), j)),
        }
    }
}

/// Parses a member whose value is an unsigned integer or `null`.
fn opt_u64_member(s: &str, i: usize, key: &str) -> (r: Option<(Option<u64>, usize)>)
    requires
        i <= s@.len(),
    ensures
        (match (r, spec_opt_u64_member(s@, i as int, key@)) {
            (Some((v, j)), Some((sv, sj))) => v == sv && j as int == sj && i <= j <= s@.len(),
            (None, None) => true,
            _ => false,
        }),
{
    let n = s.unicode_len();
    let m = key.unicode_len();
    if match_lit(s, i, key) {
        match expect_colon(s, i + m) {
            None => None,
            Some(j) => u64_or_null(s, j),
        }
    } else {
        None
    }
}

/// Parses one record object starting at `i`.
pub fn parse_record_at(s: &str, i: usize) -> (r: Option<(RawInstrumentRecord, usize)>)
    requires
        i <= s@.len(),
    ensures
        (match (r, spec_parse_record(s@, i as int)) {
            (Some((v, j)), Some((sv, sj))) => v@ == sv && j as int == sj && i < j <= s@.len(),
            (None, None) => true,
            _ => false,
        }),
{
    let n = s.unicode_len();
    if i >= n {
        return None;
    }
    if s.get_char(i) != '{' {
        return None;
    }
    let j0 = skip_ws(s, i + 1);
    match string_member(s, j0, "\"id\"") {
        None => None,
        Some((sym, a1)) => match expect_comma(s, a1) {
            None => None,
            Some(b1) => match string_member(s, b1, "\"type\"") {
                None => None,
                Some((ty, a2)) => match expect_comma(s, a2) {
                    None => None,
                    Some(b2) => match opt_u64_member(s, b2, "\"availableSince\"") {
                        None => None,
                        Some((since, a3)) => match expect_comma(s, a3) {
                            None => None,
                            Some(b3) => match opt_u64_member(s, b3, "\"availableTo\"") {
                                None => None,
                                Some((to, a4)) => {
                                    let j = skip_ws(s, a4);
                                    if j < n && s.get_char(j) == '}' {
                                        Some(
                                            (
                                                RawInstrumentRecord {
                                                    symbol: sym,
                                                    instrument_type: ty,
                                                    available_since: since,
                                                    available_to: to,
                                                },
                                                j + 1,
                                            ),
                                        )
                                    } else {
                                        None
                                    }
                                },
                            },
                        },
                    },
                },
            },
        },
    }
}

/// Parses the rest of the record array, accumulating into `acc`.
fn parse_records_rest(s: &str, i: usize, acc: Vec<RawInstrumentRecord>) -> (r: Option<
    Vec<RawInstrumentRecord>,
>)
    requires
        i <= s@.len(),
    ensures
        (match (r, spec_parse_records_rest(s@, i as int, records_view(acc@))) {
            (Some(v), Some(sv)) => records_view(v@) == sv,
            (None, None) => true,
            _ => false,
        }),
    decreases s@.len() - i,
{
    let n = s.unicode_len();
    let j = skip_ws(s, i);
    if j < n && s.get_char(j) == ',' {
        let x = skip_ws(s, j + 1);
        match parse_record_at(s, x) {
            None => None,
            Some((m, k)) => {
                let mut acc2 = acc;
                acc2.push(m);
                proof {
                    assert(records_view(acc2@) =~= records_view(acc@).push(m@));
                }
                parse_records_rest(s, k, acc2)
            },
        }
    } else if j < n && s.get_char(j) == ']' {
        if skip_ws(s, j + 1) == n {
            Some(acc)
        } else {
            None
        }
    } else {
        None
    }
}

/// Parses a whole response body as exactly one record object.
pub fn parse_single_record(s: &str) -> (r: Option<RawInstrumentRecord>)
    ensures
        (match (r, spec_parse_single_record(s@)) {
            (Some(v), Some(sv)) => v@ == sv,
            (None, None) => true,
            _ => false,
        }),
{
    let n = s.unicode_len();
    let i0 = skip_ws(s, 0);
    match parse_record_at(s, i0) {
        None => None,
        Some((m, j)) => {
            if skip_ws(s, j) == n {
                Some(m)
            } else {
                None
            }
        },
    }
}

/// Parses a whole response body as a JSON array of records.
pub fn parse_records(s: &str) -> (r: Option<Vec<RawInstrumentRecord>>)
    ensures
        (match (r, spec_parse_records(s@)) {
            (Some(v), Some(sv)) => records_view(v@) == sv,
            (None, None) => true,
            _ => false,
        }),
{
    let n = s.unicode_len();
    let i0 = skip_ws(s, 0);
    if i0 >= n {
        return None;
    }
    if s.get_char(i0) != '[' {
        return None;
    }
    let i1 = skip_ws(s, i0 + 1);
    if i1 < n && s.get_char(i1) == ']' {
        if skip_ws(s, i1 + 1) == n {
            let empty: Vec<RawInstrumentRecord> = Vec::new();
            proof {
                assert(records_view(empty@) =~= Seq::<RawRecordModel>::empty());
            }
            Some(empty)
        } else {
            None
        }
    } else {
        match parse_record_at(s, i1) {
            None => None,
            Some((m, k)) => {
                let mut acc: Vec<RawInstrumentRecord> = Vec::new();
                acc.push(m);
                proof {
                    assert(records_view(acc@) =~= seq![m@]);
                }
                parse_records_rest(s, k, acc)
            },
        }
    }
}

} // verus!
