//! Adapter for the native engine's tagged responses.
//!
//! Every native call answers with UTF-8 text shaped either
//! `{"result":<payload>}` or `{"error":"<message>"}`. This module decodes
//! that union into the crate's own success/failure channel, passing the
//! error message through verbatim and failing loudly on any other shape.

use vstd::prelude::*;

use crate::error::WakuError;
use crate::topic::{dec_value, is_dec_seq, is_digit};

verus! {

/// The ten characters opening a success response, `{"result":`.
pub open spec fn result_prefix() -> Seq<char> {
    seq!['{', '"', 'r', 'e', 's', 'u', 'l', 't', '"', ':']
}

/// The ten characters opening an error response, `{"error":"`.
pub open spec fn error_prefix() -> Seq<char> {
    seq!['{', '"', 'e', 'r', 'r', 'o', 'r', '"', ':', '"']
}

/// `s` is `{"result":<payload>}` with a non-empty payload.
pub open spec fn is_result_shape(s: Seq<char>) -> bool {
    s.len() >= 12 && s.subrange(0, 10) == result_prefix() && s[s.len() - 1] == '}'
}

/// The payload text carried by a success response.
pub open spec fn result_payload(s: Seq<char>) -> Seq<char> {
    s.subrange(10, s.len() - 1)
}

/// `s` is `{"error":"<message>"}` with a quote-free message.
pub open spec fn is_error_shape(s: Seq<char>) -> bool {
    &&& s.len() >= 12
    &&& s.subrange(0, 10) == error_prefix()
    &&& s[s.len() - 2] == '"'
    &&& s[s.len() - 1] == '}'
    &&& forall|i: int| 10 <= i < s.len() - 2 ==> s[i] != '"'
}

/// The message text carried by an error response.
pub open spec fn error_message(s: Seq<char>) -> Seq<char> {
    s.subrange(10, s.len() - 2)
}

/// A decoded native response: the payload text of the success tag, or the
/// message of the error tag.
#[derive(Debug)]
pub enum JsonResponse {
    Success(String),
    Failure(String),
}

impl JsonResponse {
    /// Collapses the tagged union into a plain result, as callers consume it.
    pub fn into_result(self) -> (r: Result<String, String>)
        ensures
            match self {
                JsonResponse::Success(p) => r matches Ok(q) && q == p,
                JsonResponse::Failure(m) => r matches Err(q) && q == m,
            },
    {
        match self {
            JsonResponse::Success(p) => Ok(p),
            JsonResponse::Failure(m) => Err(m),
        }
    }
}

/// Decodes a native response into the tagged union; any text matching
/// neither tag shape is a decode failure, never a default value.
#[verifier::loop_isolation(false)]
pub fn decode_response(s: &str) -> (r: Result<JsonResponse, WakuError>)
    ensures
        match r {
            Ok(JsonResponse::Success(p)) => is_result_shape(s@) && p@ == result_payload(s@),
            Ok(JsonResponse::Failure(m)) => is_error_shape(s@) && m@ == error_message(s@),
            Err(e) => e is DecodeFailed && !is_result_shape(s@) && !is_error_shape(s@),
        },
{
    let n = s.unicode_len();
    if n < 12 {
        return Err(WakuError::DecodeFailed);
    }
    if !(s.get_char(0) == '{' && s.get_char(1) == '"') {
        proof {
            lemma_prefix_mismatch(s@, result_prefix());
            lemma_prefix_mismatch(s@, error_prefix());
        }
        return Err(WakuError::DecodeFailed);
    }
    let c2 = s.get_char(2);
    if c2 == 'r' {
        // only the success tag can still match: the error tag has 'e' here
        proof {
            lemma_prefix_mismatch(s@, error_prefix());
        }
        if !(s.get_char(3) == 'e' && s.get_char(4) == 's' && s.get_char(5) == 'u'
            && s.get_char(6) == 'l' && s.get_char(7) == 't' && s.get_char(8) == '"'
            && s.get_char(9) == ':' && s.get_char(n - 1) == '}') {
            proof {
                lemma_prefix_mismatch(s@, result_prefix());
            }
            return Err(WakuError::DecodeFailed);
        }
        proof {
            assert(s@.subrange(0, 10) =~= result_prefix());
        }
        let payload = String::from_str(s.substring_char(10, n - 1));
        Ok(JsonResponse::Success(payload))
    } else if c2 == 'e' {
        // only the error tag can still match: the success tag has 'r' here
        proof {
            lemma_prefix_mismatch(s@, result_prefix());
        }
        if !(s.get_char(3) == 'r' && s.get_char(4) == 'r' && s.get_char(5) == 'o'
            && s.get_char(6) == 'r' && s.get_char(7) == '"' && s.get_char(8) == ':'
            && s.get_char(9) == '"' && s.get_char(n - 2) == '"' && s.get_char(n - 1) == '}') {
            proof {
                lemma_prefix_mismatch(s@, error_prefix());
            }
            return Err(WakuError::DecodeFailed);
        }
        proof {
            assert(s@.subrange(0, 10) =~= error_prefix());
        }
        let mut i: usize = 10;
        while i < n - 2
            invariant
                10 <= i <= n - 2,
                n == s@.len(),
                12 <= n,
                forall|j: int| 10 <= j < i ==> s@[j] != '"',
            decreases n - i,
        {
            if s.get_char(i) == '"' {
                return Err(WakuError::DecodeFailed);
            }
            i = i + 1;
        }
        let message = String::from_str(s.substring_char(10, n - 2));
        Ok(JsonResponse::Failure(message))
    } else {
        proof {
            lemma_prefix_mismatch(s@, result_prefix());
            lemma_prefix_mismatch(s@, error_prefix());
        }
        Err(WakuError::DecodeFailed)
    }
}

/// A ten-character prefix differing from `s` at any one position rules the
/// shape out.
proof fn lemma_prefix_mismatch(s: Seq<char>, p: Seq<char>)
    requires
        s.len() >= 10,
        p.len() == 10,
    ensures
        s.subrange(0, 10) == p ==> forall|k: int| 0 <= k < 10 ==> s[k] == #[trigger] p[k],
{
    if s.subrange(0, 10) == p {
        assert forall|k: int| 0 <= k < 10 implies s[k] == #[trigger] p[k] by {
            assert(s.subrange(0, 10)[k] == s[k]);
        }
    }
}

// ------------------------------------------------------------------
// Typed reply decoders
// ------------------------------------------------------------------

/// `p` is a JSON string literal with no inner quote: `"<content>"`.
pub open spec fn is_json_string(p: Seq<char>) -> bool {
    &&& p.len() >= 2
    &&& p[0] == '"'
    &&& p[p.len() - 1] == '"'
    &&& forall|i: int| 1 <= i < p.len() - 1 ==> p[i] != '"'
}

/// The content of a JSON string literal.
pub open spec fn json_string_content(p: Seq<char>) -> Seq<char> {
    p.subrange(1, p.len() - 1)
}

/// Decodes a reply whose payload is irrelevant: any success payload is
/// accepted, an error is surfaced verbatim.
pub fn decode_unit_reply(s: &str) -> (r: Result<(), WakuError>)
    ensures
        is_result_shape(s@) ==> r is Ok,
        is_error_shape(s@) ==> (r matches Err(e) && e matches WakuError::NativeCallFailed(m)
            && m@ == error_message(s@)),
        !is_result_shape(s@) && !is_error_shape(s@) ==> (r matches Err(e) && e is DecodeFailed),
{
    match decode_response(s) {
        Ok(JsonResponse::Success(_)) => Ok(()),
        Ok(JsonResponse::Failure(m)) => Err(WakuError::NativeCallFailed(m)),
        Err(e) => Err(e),
    }
}

/// A response matches at most one of the two tag shapes: they differ at
/// the third character.
proof fn lemma_shapes_disjoint(s: Seq<char>)
    ensures
        !(is_result_shape(s) && is_error_shape(s)),
{
    if is_result_shape(s) && is_error_shape(s) {
        assert(s.subrange(0, 10)[2] == 'r');
        assert(s.subrange(0, 10)[2] == 'e');
    }
}

/// Decodes a reply and hands its success payload through verbatim.
pub fn decode_payload_reply(s: &str) -> (r: Result<String, WakuError>)
    ensures
        is_result_shape(s@) ==> (r matches Ok(v) && v@ == result_payload(s@)),
        is_error_shape(s@) ==> (r matches Err(e) && e matches WakuError::NativeCallFailed(m)
            && m@ == error_message(s@)),
        !is_result_shape(s@) && !is_error_shape(s@) ==> (r matches Err(e) && e is DecodeFailed),
{
    proof {
        lemma_shapes_disjoint(s@);
    }
    match decode_response(s) {
        Ok(JsonResponse::Success(p)) => Ok(p),
        Ok(JsonResponse::Failure(m)) => Err(WakuError::NativeCallFailed(m)),
        Err(e) => Err(e),
    }
}

/// Decodes a reply whose payload must be a JSON string; returns its content.
#[verifier::loop_isolation(false)]
pub fn decode_string_reply(s: &str) -> (r: Result<String, WakuError>)
    ensures
        is_result_shape(s@) && is_json_string(result_payload(s@)) ==> (r matches Ok(v)
            && v@ == json_string_content(result_payload(s@))),
        is_result_shape(s@) && !is_json_string(result_payload(s@)) ==> (r matches Err(e)
            && e is DecodeFailed),
        is_error_shape(s@) ==> (r matches Err(e) && e matches WakuError::NativeCallFailed(m)
            && m@ == error_message(s@)),
        !is_result_shape(s@) && !is_error_shape(s@) ==> (r matches Err(e) && e is DecodeFailed),
{
    proof {
        lemma_shapes_disjoint(s@);
    }
    match decode_response(s) {
        Ok(JsonResponse::Success(p)) => {
            let q = p.as_str();
            let k = q.unicode_len();
            if k < 2 || !(q.get_char(0) == '"' && q.get_char(k - 1) == '"') {
                return Err(WakuError::DecodeFailed);
            }
            let mut i: usize = 1;
            while i < k - 1
                invariant
                    1 <= i <= k - 1,
                    k == q@.len(),
                    2 <= k,
                    forall|j: int| 1 <= j < i ==> q@[j] != '"',
                decreases k - i,
            {
                if q.get_char(i) == '"' {
                    return Err(WakuError::DecodeFailed);
                }
                i = i + 1;
            }
            Ok(String::from_str(q.substring_char(1, k - 1)))
        },
        Ok(JsonResponse::Failure(m)) => Err(WakuError::NativeCallFailed(m)),
        Err(e) => Err(e),
    }
}

/// Decodes a reply whose payload must be a bare decimal integer.
pub fn decode_usize_reply(s: &str) -> (r: Result<usize, WakuError>)
    ensures
        ({
            let p = result_payload(s@);
            is_result_shape(s@) && is_dec_seq(p) && dec_value(p) <= usize::MAX ==> (r matches Ok(
                v,
            ) && v as nat == dec_value(p))
        }),
        ({
            let p = result_payload(s@);
            is_result_shape(s@) && !(is_dec_seq(p) && dec_value(p) <= usize::MAX) ==> (r matches Err(
                e,
            ) && e is DecodeFailed)
        }),
        is_error_shape(s@) ==> (r matches Err(e) && e matches WakuError::NativeCallFailed(m)
            && m@ == error_message(s@)),
        !is_result_shape(s@) && !is_error_shape(s@) ==> (r matches Err(e) && e is DecodeFailed),
{
    match decode_response(s) {
        Ok(JsonResponse::Success(p)) => {
            let q = p.as_str();
            let k = q.unicode_len();
            match parse_dec_str(q, k) {
                Some(v) => Ok(v),
                None => Err(WakuError::DecodeFailed),
            }
        },
        Ok(JsonResponse::Failure(m)) => Err(WakuError::NativeCallFailed(m)),
        Err(e) => Err(e),
    }
}

/// Parses a whole string of decimal digits.
fn parse_dec_str(q: &str, k: usize) -> (r: Option<usize>)
    requires
        k == q@.len(),
    ensures
        match r {
            Some(v) => is_dec_seq(q@) && v as nat == dec_value(q@),
            None => !(is_dec_seq(q@) && dec_value(q@) <= usize::MAX),
        },
{
    let ghost whole: Seq<char> = q@;
    let mut acc: usize = 0;
    let mut i: usize = 0;
    while i < k
        invariant
            0 <= i <= k,
            k == q@.len(),
            is_dec_seq(q@.subrange(0, i as int)),
            acc as nat == dec_value(q@.subrange(0, i as int)),
        decreases k - i,
    {
        let ghost prefix: Seq<char> = q@.subrange(0, i as int);
        let c = q.get_char(i);
        let cu = c as u32;
        if cu < 48 || cu > 57 {
            return None;
        }
        let d = (cu - 48) as usize;
        proof {
            assert(q@.subrange(0, i + 1 as int).drop_last() =~= prefix);
            assert(q@.subrange(0, i + 1 as int).last() == c);
        }
        if acc > (usize::MAX - d) / 10 {
            proof {
                let ext = q@.subrange(0, i + 1 as int);
                let x = (usize::MAX - d) as int;
                assert(x == 10 * (x / 10) + x % 10);
                assert(acc * 10 >= (x / 10) * 10 + 10);
                assert(dec_value(ext) > usize::MAX);
                if is_dec_seq(q@) {
                    crate::topic::lemma_dec_value_prefix(q@, i + 1);
                    assert(q@.subrange(0, i + 1 as int) =~= ext);
                }
            }
            return None;
        }
        proof {
            let x = (usize::MAX - d) as int;
            assert(x == 10 * (x / 10) + x % 10);
            assert(acc * 10 <= (x / 10) * 10);
        }
        acc = acc * 10 + d;
        i = i + 1;
        proof {
            assert(q@.subrange(0, i as int)[i - 1] == c);
            assert(forall|j: int| 0 <= j < i ==> is_digit(
                #[trigger] q@.subrange(0, i as int)[j],
            ));
        }
    }
    proof {
        assert(q@.subrange(0, i as int) =~= q@);
    }
    Some(acc)
}

/// Decodes a reply whose payload must be the literal `true` or `false`.
pub fn decode_bool_reply(s: &str) -> (r: Result<bool, WakuError>)
    ensures
        is_result_shape(s@) && result_payload(s@) == seq!['t', 'r', 'u', 'e'] ==> (r matches Ok(b)
            && b == true),
        is_result_shape(s@) && result_payload(s@) == seq!['f', 'a', 'l', 's', 'e'] ==> (r matches Ok(
            b,
        ) && b == false),
        is_result_shape(s@) && result_payload(s@) != seq!['t', 'r', 'u', 'e'] && result_payload(s@)
            != seq!['f', 'a', 'l', 's', 'e'] ==> (r matches Err(e) && e is DecodeFailed),
        is_error_shape(s@) ==> (r matches Err(e) && e matches WakuError::NativeCallFailed(m)
            && m@ == error_message(s@)),
        !is_result_shape(s@) && !is_error_shape(s@) ==> (r matches Err(e) && e is DecodeFailed),
{
    match decode_response(s) {
        Ok(JsonResponse::Success(p)) => {
            let q = p.as_str();
            let k = q.unicode_len();
            if k == 4 && q.get_char(0) == 't' && q.get_char(1) == 'r' && q.get_char(2) == 'u'
                && q.get_char(3) == 'e' {
                proof {
                    assert(q@ =~= seq!['t', 'r', 'u', 'e']);
                }
                Ok(true)
            } else if k == 5 && q.get_char(0) == 'f' && q.get_char(1) == 'a' && q.get_char(2)
                == 'l' && q.get_char(3) == 's' && q.get_char(4) == 'e' {
                proof {
                    assert(q@ =~= seq!['f', 'a', 'l', 's', 'e']);
                }
                Ok(false)
            } else {
                proof {
                    if q@ == seq!['t', 'r', 'u', 'e'] {
                        assert(q@[0] == 't' && q@[1] == 'r' && q@[2] == 'u' && q@[3] == 'e');
                    }
                    if q@ == seq!['f', 'a', 'l', 's', 'e'] {
                        assert(q@[0] == 'f' && q@[1] == 'a' && q@[2] == 'l' && q@[3] == 's'
                            && q@[4] == 'e');
                    }
                }
                Err(WakuError::DecodeFailed)
            }
        },
        Ok(JsonResponse::Failure(m)) => Err(WakuError::NativeCallFailed(m)),
        Err(e) => Err(e),
    }
}

} // verus!
