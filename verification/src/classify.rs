//! Classification of non-success HTTP responses.
//!
//! The provider reports structured failures as a JSON object holding a
//! numeric `code` and a string `message`, in either order. A non-success
//! body that parses as such a payload yields an `ApiError` carrying the
//! payload's code and message; any other body yields an `ApiError` with
//! code zero and the raw body text as the message. Classification never
//! fails.

use vstd::prelude::*;
use vstd::string::StrSliceExecFns;

use crate::error::TardisError;
use crate::json::expect_colon;
use crate::json::match_lit;
use crate::json::matches_at;
use crate::json::parse_string_at;
use crate::json::parse_u64_at;
use crate::json::skip_ws;
use crate::json::spec_colon;
use crate::json::spec_parse_string;
use crate::json::spec_parse_u64;
use crate::json::spec_skip_ws;

verus! {

/// After the `"code"` key: its value, a comma, the `"message"` key, and
/// its value.
pub open spec fn spec_code_then_message(s: Seq<char>, i: int) -> Option<(u64, Seq<char>, int)> {
    match spec_colon(s, i) {
        None => None,
        Some(j) => match spec_parse_u64(s, j) {
            None => None,
            Some((code, j2)) => {
                let j3 = spec_skip_ws(s, j2);
                if j3 < s.len() && s[j3] == ',' {
                    let j4 = spec_skip_ws(s, j3 + 1);
                    if matches_at(s, j4, "\"message\""@) {
                        match spec_colon(s, j4 + "\"message\""@.len()) {
                            None => None,
                            Some(j5) => match spec_parse_string(s, j5) {
                                None => None,
                                Some((msg, j6)) => Some((code, msg, j6)),
                            },
                        }
                    } else {
                        None
                    }
                } else {
                    None
                }
            },
        },
    }
}

/// After the `"message"` key: its value, a comma, the `"code"` key, and
/// its value.
pub open spec fn spec_message_then_code(s: Seq<char>, i: int) -> Option<(u64, Seq<char>, int)> {
    match spec_colon(s, i) {
        None => None,
        Some(j) => match spec_parse_string(s, j) {
            None => None,
            Some((msg, j2)) => {
                let j3 = spec_skip_ws(s, j2);
                if j3 < s.len() && s[j3] == ',' {
                    let j4 = spec_skip_ws(s, j3 + 1);
                    if matches_at(s, j4, "\"code\""@) {
                        match spec_colon(s, j4 + "\"code\""@.len()) {
                            None => None,
                            Some(j5) => match spec_parse_u64(s, j5) {
                                None => None,
                                Some((code, j6)) => Some((code, msg, j6)),
                            },
                        }
                    } else {
                        None
                    }
                } else {
                    None
                }
            },
        },
    }
}

/// A structured provider error payload: a JSON object holding exactly a
/// numeric `code` and a string `message`, in either order, and nothing
/// after it.
pub open spec fn spec_parse_error_payload(s: Seq<char>) -> Option<(u64, Seq<char>)> {
    let i0 = spec_skip_ws(s, 0);
    if i0 < s.len() && s[i0] == '{' {
        let i1 = spec_skip_ws(s, i0 + 1);
        let inner = if matches_at(s, i1, "\"code\""@) {
            spec_code_then_message(s, i1 + "\"code\""@.len())
        } else if matches_at(s, i1, "\"message\""@) {
            spec_message_then_code(s, i1 + "\"message\""@.len())
        } else {
            None
        };
        match inner {
            None => None,
            Some((code, msg, j)) => {
                let j1 = spec_skip_ws(s, j);
                if j1 < s.len() && s[j1] == '}' && spec_skip_ws(s, j1 + 1) == s.len() {
                    Some((code, msg))
                } else {
                    None
                }
            },
        }
    } else {
        None
    }
}

/// Parses the value of `"code"` followed by the `"message"` member.
fn code_then_message(s: &str, i: usize) -> (r: Option<(u64, String, usize)>)
    requires
        i <= s@.len(),
    ensures
        (match (r, spec_code_then_message(s@, i as int)) {
            (Some((c, m, j)), Some((sc, sm, sj))) => c == sc && m@ == sm && j as int == sj && j
                <= s@.len(),
            (None, None) => true,
            _ => false,
        }),
{
    proof {
        reveal_strlit("\"message\"");
    }
    match expect_colon(s, i) {
        None => None,
        Some(j) => match parse_u64_at(s, j) {
            None => None,
            Some((code, j2)) => {
                let n = s.unicode_len();
                let j3 = skip_ws(s, j2);
                if j3 < n && s.get_char(j3) == ',' {
                    let j4 = skip_ws(s, j3 + 1);
                    if match_lit(s, j4, "\"message\"") {
                        match expect_colon(s, j4 + 9) {
                            None => None,
                            Some(j5) => match parse_string_at(s, j5) {
                                None => None,
                                Some((msg, j6)) => Some((code, msg, j6)),
                            },
                        }
                    } else {
                        None
                    }
                } else {
                    None
                }
            },
        },
    }
}

/// Parses the value of `"message"` followed by the `"code"` member.
fn message_then_code(s: &str, i: usize) -> (r: Option<(u64, String, usize)>)
    requires
        i <= s@.len(),
    ensures
        (match (r, spec_message_then_code(s@, i as int)) {
            (Some((c, m, j)), Some((sc, sm, sj))) => c == sc && m@ == sm && j as int == sj && j
                <= s@.len(),
            (None, None) => true,
            _ => false,
        }),
{
    proof {
        reveal_strlit("\"code\"");
    }
    match expect_colon(s, i) {
        None => None,
        Some(j) => match parse_string_at(s, j) {
            None => None,
            Some((msg, j2)) => {
                let n = s.unicode_len();
                let j3 = skip_ws(s, j2);
                if j3 < n && s.get_char(j3) == ',' {
                    let j4 = skip_ws(s, j3 + 1);
                    if match_lit(s, j4, "\"code\"") {
                        match expect_colon(s, j4 + 6) {
                            None => None,
                            Some(j5) => match parse_u64_at(s, j5) {
                                None => None,
                                Some((code, j6)) => Some((code, msg, j6)),
                            },
                        }
                    } else {
                        None
                    }
                } else {
                    None
                }
            },
        },
    }
}

/// Parses a whole structured error payload, or nothing.
pub fn parse_error_payload(s: &str) -> (r: Option<(u64, String)>)
    ensures
        (match (r, spec_parse_error_payload(s@)) {
            (Some((c, m)), Some((sc, sm))) => c == sc && m@ == sm,
            (None, None) => true,
            _ => false,
        }),
{
    proof {
        reveal_strlit("\"code\"");
        reveal_strlit("\"message\"");
    }
    let n = s.unicode_len();
    let i0 = skip_ws(s, 0);
    if i0 >= n {
        return None;
    }
    if s.get_char(i0) != '{' {
        return None;
    }
    let i1 = skip_ws(s, i0 + 1);
    let inner: Option<(u64, String, usize)> = if match_lit(s, i1, "\"code\"") {
        code_then_message(s, i1 + 6)
    } else if match_lit(s, i1, "\"message\"") {
        message_then_code(s, i1 + 9)
    } else {
        None
    };
    match inner {
        None => None,
        Some((code, msg, j)) => {
            let j1 = skip_ws(s, j);
            if j1 < n && s.get_char(j1) == '}' && skip_ws(s, j1 + 1) == n {
                Some((code, msg))
            } else {
                None
            }
        },
    }
}

/// Turns a non-success response into a classified failure: the payload's
/// code and message when the body is a structured error payload, else
/// code zero with the raw body text. Never fails.
pub fn classify_error_response(status: u16, body: &str) -> (r: TardisError)
    ensures
        (match spec_parse_error_payload(body@) {
            Some((code, msg)) => (r matches TardisError::ApiError {
                status: st,
                code: c,
                message: m,
            } && st == status && c == code && m@ == msg),
            None => (r matches TardisError::ApiError { status: st, code: c, message: m } && st
                == status && c == 0 && m@ == body@),
        }),
{
    match parse_error_payload(body) {
        Some((code, message)) => TardisError::ApiError { status, code, message },
        None => TardisError::ApiError { status, code: 0, message: body.to_owned() },
    }
}

} // verus!
