//! Addressing grammar for the two topic string formats and the encoding tag.
//!
//! A content topic reads `/{application-name}/{version}/{content-topic-name}/{encoding}`
//! and a pub/sub topic reads `/waku/2/{topic-name}/{encoding}`, with
//! `encoding` one of `proto`, `rlp`, `rfc26` (case-insensitive on parse,
//! lowercase on output). Parsing and formatting are inverse on canonical
//! strings; the round-trip lemmas at the end state that law.

use vstd::prelude::*;

use crate::error::WakuError;

verus! {

// ------------------------------------------------------------------
// Encoding tag
// ------------------------------------------------------------------

/// Payload encoding named by the last segment of a topic string.
#[derive(Copy, Clone, Debug, PartialEq, Eq, Structural)]
pub enum Encoding {
    Proto,
    Rlp,
    Rfc26,
}

/// Canonical lowercase token of an encoding.
pub open spec fn encoding_token(e: Encoding) -> Seq<char> {
    match e {
        Encoding::Proto => seq!['p', 'r', 'o', 't', 'o'],
        Encoding::Rlp => seq!['r', 'l', 'p'],
        Encoding::Rfc26 => seq!['r', 'f', 'c', '2', '6'],
    }
}

/// `c` equals the canonical character `l`, or is its ASCII uppercase form.
pub open spec fn char_matches_ci(c: char, l: char) -> bool {
    c == l || (97 <= l as int <= 122 && c as int == l as int - 32)
}

/// Which encoding, if any, the token `s` names, up to ASCII case.
pub open spec fn encoding_of(s: Seq<char>) -> Option<Encoding> {
    if s.len() == 5 && char_matches_ci(s[0], 'p') && char_matches_ci(s[1], 'r')
        && char_matches_ci(s[2], 'o') && char_matches_ci(s[3], 't') && char_matches_ci(s[4], 'o') {
        Some(Encoding::Proto)
    } else if s.len() == 3 && char_matches_ci(s[0], 'r') && char_matches_ci(s[1], 'l')
        && char_matches_ci(s[2], 'p') {
        Some(Encoding::Rlp)
    } else if s.len() == 5 && char_matches_ci(s[0], 'r') && char_matches_ci(s[1], 'f')
        && char_matches_ci(s[2], 'c') && char_matches_ci(s[3], '2') && char_matches_ci(s[4], '6') {
        Some(Encoding::Rfc26)
    } else {
        None
    }
}

/// `c` matches `l` up to ASCII case.
fn char_eq_ci(c: char, l: char) -> (r: bool)
    ensures
        r == char_matches_ci(c, l),
{
    let cu = c as u32;
    let lu = l as u32;
    cu == lu || (97 <= lu && lu <= 122 && cu + 32 == lu)
}

impl Encoding {
    /// Parses an encoding token, accepting any ASCII case.
    pub fn parse(s: &str) -> (r: Result<Encoding, WakuError>)
        ensures
            match r {
                Ok(e) => encoding_of(s@) == Some(e),
                Err(err) => encoding_of(s@) is None && err is MalformedTopic,
            },
    {
        let n = s.unicode_len();
        if n == 5 {
            let c0 = s.get_char(0);
            let c1 = s.get_char(1);
            let c2 = s.get_char(2);
            let c3 = s.get_char(3);
            let c4 = s.get_char(4);
            if char_eq_ci(c0, 'p') && char_eq_ci(c1, 'r') && char_eq_ci(c2, 'o')
                && char_eq_ci(c3, 't') && char_eq_ci(c4, 'o') {
                Ok(Encoding::Proto)
            } else if char_eq_ci(c0, 'r') && char_eq_ci(c1, 'f') && char_eq_ci(c2, 'c')
                && char_eq_ci(c3, '2') && char_eq_ci(c4, '6') {
                Ok(Encoding::Rfc26)
            } else {
                Err(WakuError::MalformedTopic(s.to_owned()))
            }
        } else if n == 3 {
            let c0 = s.get_char(0);
            let c1 = s.get_char(1);
            let c2 = s.get_char(2);
            if char_eq_ci(c0, 'r') && char_eq_ci(c1, 'l') && char_eq_ci(c2, 'p') {
                Ok(Encoding::Rlp)
            } else {
                Err(WakuError::MalformedTopic(s.to_owned()))
            }
        } else {
            Err(WakuError::MalformedTopic(s.to_owned()))
        }
    }

    /// The canonical lowercase token.
    pub fn as_str(&self) -> (r: &'static str)
        ensures
            r@ == encoding_token(*self),
    {
        proof {
            reveal_strlit("proto");
            reveal_strlit("rlp");
            reveal_strlit("rfc26");
        }
        let r = match self {
            Encoding::Proto => "proto",
            Encoding::Rlp => "rlp",
            Encoding::Rfc26 => "rfc26",
        };
        proof {
            assert(r@ =~= encoding_token(*self));
        }
        r
    }
}

/// The canonical token of every encoding parses back to that encoding.
pub proof fn lemma_encoding_token_of(e: Encoding)
    ensures
        encoding_of(encoding_token(e)) == Some(e),
{
}

// ------------------------------------------------------------------
// Decimal version segment
// ------------------------------------------------------------------

/// `c` is a decimal digit.
pub open spec fn is_digit(c: char) -> bool {
    48 <= c as int <= 57
}

/// Numeric value of a digit character.
pub open spec fn digit_val(c: char) -> nat {
    (c as int - 48) as nat
}

/// Digit character of a value below ten.
pub open spec fn digit_char(d: nat) -> char {
    if d == 0 { '0' } else if d == 1 { '1' } else if d == 2 { '2' } else if d == 3 { '3' }
    else if d == 4 { '4' } else if d == 5 { '5' } else if d == 6 { '6' } else if d == 7 { '7' }
    else if d == 8 { '8' } else { '9' }
}

/// Every character of `s` is a decimal digit.
pub open spec fn is_dec_seq(s: Seq<char>) -> bool {
    forall|i: int| 0 <= i < s.len() ==> is_digit(#[trigger] s[i])
}

/// Value of a digit string, most significant digit first.
pub open spec fn dec_value(s: Seq<char>) -> nat
    decreases s.len(),
{
    if s.len() == 0 {
        0
    } else {
        dec_value(s.drop_last()) * 10 + digit_val(s.last())
    }
}

/// Canonical digit string of `n`: no leading zeros, `"0"` for zero.
pub open spec fn dec_digits(n: nat) -> Seq<char>
    decreases n,
{
    if n < 10 {
        seq![digit_char(n)]
    } else {
        dec_digits(n / 10).push(digit_char(n % 10))
    }
}

/// The canonical digit string is non-empty, all digits, and reads back to `n`.
pub proof fn lemma_dec_digits(n: nat)
    ensures
        dec_digits(n).len() >= 1,
        is_dec_seq(dec_digits(n)),
        dec_value(dec_digits(n)) == n,
    decreases n,
{
    if n < 10 {
        assert(dec_value(dec_digits(n)) == dec_value(seq![digit_char(n)].drop_last()) * 10
            + digit_val(seq![digit_char(n)].last()));
        assert(seq![digit_char(n)].drop_last() =~= Seq::<char>::empty());
    } else {
        lemma_dec_digits(n / 10);
        let d = dec_digits(n / 10);
        let full = d.push(digit_char(n % 10));
        assert(full.drop_last() =~= d);
        assert(full.last() == digit_char(n % 10));
        assert(digit_val(digit_char(n % 10)) == n % 10);
        assert(dec_value(full) == (n / 10) * 10 + n % 10);
        assert(forall|i: int| 0 <= i < full.len() ==> is_digit(#[trigger] full[i]));
    }
}

/// Truncating a digit string never increases its value.
pub proof fn lemma_dec_value_prefix(s: Seq<char>, k: int)
    requires
        0 <= k <= s.len(),
    ensures
        dec_value(s.subrange(0, k)) <= dec_value(s),
    decreases s.len() - k,
{
    if k < s.len() {
        lemma_dec_value_prefix(s.drop_last(), k);
        assert(s.drop_last().subrange(0, k) =~= s.subrange(0, k));
        assert(dec_value(s) == dec_value(s.drop_last()) * 10 + digit_val(s.last()));
    } else {
        assert(s.subrange(0, k) =~= s);
    }
}

/// Digit string of `n`, canonical form.
fn format_dec(n: usize) -> (r: String)
    ensures
        r@ == dec_digits(n as nat),
    decreases n,
{
    if n < 10 {
        digit_string(n)
    } else {
        let mut prefix = format_dec(n / 10);
        let last = digit_string(n % 10);
        prefix.append(last.as_str());
        proof {
            assert(prefix@ =~= dec_digits(n as nat));
        }
        prefix
    }
}

/// One-character string of a digit below ten.
fn digit_string(d: usize) -> (r: String)
    requires
        d < 10,
    ensures
        r@ == seq![digit_char(d as nat)],
{
    proof {
        reveal_strlit("0");
        reveal_strlit("1");
        reveal_strlit("2");
        reveal_strlit("3");
        reveal_strlit("4");
        reveal_strlit("5");
        reveal_strlit("6");
        reveal_strlit("7");
        reveal_strlit("8");
        reveal_strlit("9");
    }
    let r = match d {
        0 => "0",
        1 => "1",
        2 => "2",
        3 => "3",
        4 => "4",
        5 => "5",
        6 => "6",
        7 => "7",
        8 => "8",
        _ => "9",
    };
    proof {
        assert(r@ =~= seq![digit_char(d as nat)]);
    }
    String::from_str(r)
}

/// Parses `s[from..to]` as a decimal number; `None` when a character is not
/// a digit or the value does not fit in `usize`.
fn parse_dec(s: &str, from: usize, to: usize) -> (r: Option<usize>)
    requires
        from <= to <= s@.len(),
    ensures
        match r {
            Some(v) => is_dec_seq(s@.subrange(from as int, to as int))
                && v as nat == dec_value(s@.subrange(from as int, to as int)),
            None => !(is_dec_seq(s@.subrange(from as int, to as int))
                && dec_value(s@.subrange(from as int, to as int)) <= usize::MAX),
        },
{
    let ghost whole: Seq<char> = s@.subrange(from as int, to as int);
    let mut acc: usize = 0;
    let mut i: usize = from;
    while i < to
        invariant
            from <= i <= to <= s@.len(),
            whole == s@.subrange(from as int, to as int),
            is_dec_seq(s@.subrange(from as int, i as int)),
            acc as nat == dec_value(s@.subrange(from as int, i as int)),
        decreases to - i,
    {
        let ghost prefix: Seq<char> = s@.subrange(from as int, i as int);
        let c = s.get_char(i);
        let cu = c as u32;
        if cu < 48 || cu > 57 {
            proof {
                assert(whole[i - from] == c);
                assert(!is_dec_seq(whole));
            }
            return None;
        }
        let d = (cu - 48) as usize;
        proof {
            assert(s@.subrange(from as int, i + 1 as int).drop_last() =~= prefix);
            assert(s@.subrange(from as int, i + 1 as int).last() == c);
        }
        if acc > (usize::MAX - d) / 10 {
            proof {
                let ext = s@.subrange(from as int, i + 1 as int);
                let x = (usize::MAX - d) as int;
                assert(x == 10 * (x / 10) + x % 10);
                assert(acc * 10 >= (x / 10) * 10 + 10);
                assert(dec_value(ext) == acc * 10 + d);
                assert(dec_value(ext) > usize::MAX);
                if is_dec_seq(whole) {
                    lemma_dec_value_prefix(whole, i + 1 - from);
                    assert(whole.subrange(0, i + 1 - from) =~= ext);
                }
            }
            return None;
        }
        proof {
            let x = (usize::MAX - d) as int;
            assert(x == 10 * (x / 10) + x % 10);
            assert(acc * 10 <= (x / 10) * 10);
        }
        acc = acc * 10 + d;
        i = i + 1;
        proof {
            assert(s@.subrange(from as int, i as int)[i - from - 1] == c);
            assert(forall|j: int| 0 <= j < i - from ==> is_digit(
                #[trigger] s@.subrange(from as int, i as int)[j],
            ));
        }
    }
    proof {
        assert(s@.subrange(from as int, i as int) =~= whole);
    }
    Some(acc)
}

// ------------------------------------------------------------------
// Slash scanning
// ------------------------------------------------------------------

/// Index of the first `'/'` at or after `from`, or the length when none.
pub open spec fn seg_end(s: Seq<char>, from: int) -> int
    decreases s.len() - from,
{
    if from >= s.len() {
        s.len() as int
    } else if s[from] == '/' {
        from
    } else {
        seg_end(s, from + 1)
    }
}

/// What `seg_end` returns: a slash position or the length, with no slash before it.
pub proof fn lemma_seg_end(s: Seq<char>, from: int)
    requires
        0 <= from <= s.len(),
    ensures
        from <= seg_end(s, from),
        seg_end(s, from) <= s.len(),
        seg_end(s, from) < s.len() ==> s[seg_end(s, from)] == '/',
        forall|j: int| from <= j < seg_end(s, from) ==> s[j] != '/',
    decreases s.len() - from,
{
    if from < s.len() && s[from] != '/' {
        lemma_seg_end(s, from + 1);
    }
}

/// `seg_end` is `k` when `[from, k)` is slash-free and `k` is a slash or the end.
pub proof fn lemma_seg_end_at(s: Seq<char>, from: int, k: int)
    requires
        0 <= from <= k <= s.len(),
        forall|j: int| from <= j < k ==> s[j] != '/',
        k == s.len() || s[k] == '/',
    ensures
        seg_end(s, from) == k,
    decreases k - from,
{
    if from < k {
        lemma_seg_end_at(s, from + 1, k);
    }
}

/// First slash of `s` at or after `from`.
fn find_slash(s: &str, from: usize, n: usize) -> (r: usize)
    requires
        n == s@.len(),
        from <= n,
    ensures
        r == seg_end(s@, from as int),
        from <= r <= n,
{
    let mut i: usize = from;
    while i < n && s.get_char(i) != '/'
        invariant
            from <= i <= n,
            n == s@.len(),
            seg_end(s@, from as int) == seg_end(s@, i as int),
        decreases n - i,
    {
        i = i + 1;
    }
    proof {
        lemma_seg_end(s@, from as int);
    }
    i
}

/// No character of `s` is a slash.
pub open spec fn slash_free(s: Seq<char>) -> bool {
    forall|i: int| 0 <= i < s.len() ==> s[i] != '/'
}

// ------------------------------------------------------------------
// Content topic
// ------------------------------------------------------------------

/// Mathematical value of a content topic.
pub struct ContentTopicView {
    pub application_name: Seq<char>,
    pub version: nat,
    pub content_topic_name: Seq<char>,
    pub encoding: Encoding,
}

impl ContentTopicView {
    /// Both free-form segments are non-empty and slash-free, and the
    /// version fits the machine word it is carried in.
    pub open spec fn wf(self) -> bool {
        &&& self.application_name.len() > 0
        &&& slash_free(self.application_name)
        &&& self.content_topic_name.len() > 0
        &&& slash_free(self.content_topic_name)
        &&& self.version <= usize::MAX
    }
}

/// Canonical string of a content topic.
pub open spec fn fmt_content_topic(t: ContentTopicView) -> Seq<char> {
    seq!['/'] + t.application_name + seq!['/'] + dec_digits(t.version) + seq!['/']
        + t.content_topic_name + seq!['/'] + encoding_token(t.encoding)
}

/// The content topic a string denotes, when it matches the grammar.
pub open spec fn parse_content_topic_spec(s: Seq<char>) -> Option<ContentTopicView> {
    if s.len() == 0 || s[0] != '/' {
        None
    } else {
        let i1 = seg_end(s, 1);
        let i2 = seg_end(s, i1 + 1);
        let i3 = seg_end(s, i2 + 1);
        if 1 < i1 < s.len() && i1 + 1 < i2 < s.len() && i2 + 1 < i3 < s.len() && i3 + 1 < s.len()
            && seg_end(s, i3 + 1) == s.len() {
            let v = s.subrange(i1 + 1, i2);
            let e = s.subrange(i3 + 1, s.len() as int);
            if is_dec_seq(v) && dec_value(v) <= usize::MAX && encoding_of(e) is Some {
                Some(ContentTopicView {
                    application_name: s.subrange(1, i1),
                    version: dec_value(v),
                    content_topic_name: s.subrange(i2 + 1, i3),
                    encoding: encoding_of(e)->Some_0,
                })
            } else {
                None
            }
        } else {
            None
        }
    }
}

/// The content topic of a Waku message, `/{application-name}/{version}/{content-topic-name}/{encoding}`.
#[derive(Clone, Debug)]
pub struct WakuContentTopic {
    pub application_name: String,
    pub version: usize,
    pub content_topic_name: String,
    pub encoding: Encoding,
}

impl View for WakuContentTopic {
    type V = ContentTopicView;

    open spec fn view(&self) -> ContentTopicView {
        ContentTopicView {
            application_name: self.application_name@,
            version: self.version as nat,
            content_topic_name: self.content_topic_name@,
            encoding: self.encoding,
        }
    }
}

impl WakuContentTopic {
    /// Parses the four-segment content topic form; fails with a
    /// malformed-topic error carrying the input on any deviation.
    pub fn parse(s: &str) -> (r: Result<WakuContentTopic, WakuError>)
        ensures
            match r {
                Ok(t) => parse_content_topic_spec(s@) == Some(t@),
                Err(e) => {
                    &&& parse_content_topic_spec(s@) is None
                    &&& e matches WakuError::MalformedTopic(orig) && orig@ == s@
                },
            },
    {
        let n = s.unicode_len();
        if n == 0 || s.get_char(0) != '/' {
            return Err(WakuError::MalformedTopic(s.to_owned()));
        }
        let i1 = find_slash(s, 1, n);
        if i1 >= n {
            return Err(WakuError::MalformedTopic(s.to_owned()));
        }
        let i2 = find_slash(s, i1 + 1, n);
        if i2 >= n {
            return Err(WakuError::MalformedTopic(s.to_owned()));
        }
        let i3 = find_slash(s, i2 + 1, n);
        if i3 >= n {
            return Err(WakuError::MalformedTopic(s.to_owned()));
        }
        if !(1 < i1 && i1 + 1 < i2 && i2 + 1 < i3 && i3 + 1 < n) {
            return Err(WakuError::MalformedTopic(s.to_owned()));
        }
        let i4 = find_slash(s, i3 + 1, n);
        if i4 < n {
            return Err(WakuError::MalformedTopic(s.to_owned()));
        }
        let version = match parse_dec(s, i1 + 1, i2) {
            Some(v) => v,
            None => {
                return Err(WakuError::MalformedTopic(s.to_owned()));
            },
        };
        let encoding = match Encoding::parse(s.substring_char(i3 + 1, n)) {
            Ok(e) => e,
            Err(_) => {
                return Err(WakuError::MalformedTopic(s.to_owned()));
            },
        };
        let application_name = String::from_str(s.substring_char(1, i1));
        let content_topic_name = String::from_str(s.substring_char(i2 + 1, i3));
        let t = WakuContentTopic { application_name, version, content_topic_name, encoding };
        proof {
            assert(parse_content_topic_spec(s@) == Some(t@));
        }
        Ok(t)
    }

    /// The canonical string of this topic; total.
    pub fn format(&self) -> (r: String)
        ensures
            r@ == fmt_content_topic(self@),
    {
        proof {
            reveal_strlit("/");
        }
        let mut out = String::from_str("/");
        out.append(self.application_name.as_str());
        out.append("/");
        let version = format_dec(self.version);
        out.append(version.as_str());
        out.append("/");
        out.append(self.content_topic_name.as_str());
        out.append("/");
        out.append(self.encoding.as_str());
        proof {
            assert(out@ =~= fmt_content_topic(self@));
        }
        out
    }
}

// ------------------------------------------------------------------
// Pub/sub topic
// ------------------------------------------------------------------

/// The fixed `/waku/2/` prefix of every pub/sub topic string.
pub open spec fn pubsub_prefix() -> Seq<char> {
    seq!['/', 'w', 'a', 'k', 'u', '/', '2', '/']
}

/// Mathematical value of a pub/sub topic.
pub struct PubSubTopicView {
    pub topic_name: Seq<char>,
    pub encoding: Encoding,
}

impl PubSubTopicView {
    /// The topic name is non-empty and slash-free.
    pub open spec fn wf(self) -> bool {
        self.topic_name.len() > 0 && slash_free(self.topic_name)
    }
}

/// Canonical string of a pub/sub topic.
pub open spec fn fmt_pubsub_topic(t: PubSubTopicView) -> Seq<char> {
    pubsub_prefix() + t.topic_name + seq!['/'] + encoding_token(t.encoding)
}

/// The pub/sub topic a string denotes, when it matches the grammar.
pub open spec fn parse_pubsub_topic_spec(s: Seq<char>) -> Option<PubSubTopicView> {
    if s.len() <= 8 || s.subrange(0, 8) != pubsub_prefix() {
        None
    } else {
        let i = seg_end(s, 8);
        if 8 < i < s.len() && i + 1 < s.len() && seg_end(s, i + 1) == s.len() {
            let e = s.subrange(i + 1, s.len() as int);
            if encoding_of(e) is Some {
                Some(PubSubTopicView {
                    topic_name: s.subrange(8, i),
                    encoding: encoding_of(e)->Some_0,
                })
            } else {
                None
            }
        } else {
            None
        }
    }
}

/// The network-level topic over which messages are relayed, `/waku/2/{topic-name}/{encoding}`.
#[derive(Clone, Debug)]
pub struct WakuPubSubTopic {
    pub topic_name: String,
    pub encoding: Encoding,
}

impl View for WakuPubSubTopic {
    type V = PubSubTopicView;

    open spec fn view(&self) -> PubSubTopicView {
        PubSubTopicView { topic_name: self.topic_name@, encoding: self.encoding }
    }
}

impl WakuPubSubTopic {
    /// Parses the fixed-prefix pub/sub topic form; fails with a
    /// malformed-topic error carrying the input on any deviation.
    pub fn parse(s: &str) -> (r: Result<WakuPubSubTopic, WakuError>)
        ensures
            match r {
                Ok(t) => parse_pubsub_topic_spec(s@) == Some(t@),
                Err(e) => {
                    &&& parse_pubsub_topic_spec(s@) is None
                    &&& e matches WakuError::MalformedTopic(orig) && orig@ == s@
                },
            },
    {
        let n = s.unicode_len();
        if n <= 8 {
            proof {
                if parse_pubsub_topic_spec(s@) is Some {
                    assert(s@.len() > 8);
                }
            }
            return Err(WakuError::MalformedTopic(s.to_owned()));
        }
        if !(s.get_char(0) == '/' && s.get_char(1) == 'w' && s.get_char(2) == 'a'
            && s.get_char(3) == 'k' && s.get_char(4) == 'u' && s.get_char(5) == '/'
            && s.get_char(6) == '2' && s.get_char(7) == '/') {
            proof {
                assert(s@.subrange(0, 8) != pubsub_prefix()) by {
                    if s@.subrange(0, 8) == pubsub_prefix() {
                        assert(forall|k: int| 0 <= k < 8 ==> s@[k] == #[trigger] pubsub_prefix()[k]);
                    }
                }
            }
            return Err(WakuError::MalformedTopic(s.to_owned()));
        }
        proof {
            assert(s@.subrange(0, 8) =~= pubsub_prefix());
        }
        let i = find_slash(s, 8, n);
        if !(8 < i && i < n && i + 1 < n) {
            return Err(WakuError::MalformedTopic(s.to_owned()));
        }
        let i2 = find_slash(s, i + 1, n);
        if i2 < n {
            return Err(WakuError::MalformedTopic(s.to_owned()));
        }
        let encoding = match Encoding::parse(s.substring_char(i + 1, n)) {
            Ok(e) => e,
            Err(_) => {
                return Err(WakuError::MalformedTopic(s.to_owned()));
            },
        };
        let topic_name = String::from_str(s.substring_char(8, i));
        let t = WakuPubSubTopic { topic_name, encoding };
        proof {
            assert(parse_pubsub_topic_spec(s@) == Some(t@));
        }
        Ok(t)
    }

    /// The canonical string of this topic; total.
    pub fn format(&self) -> (r: String)
        ensures
            r@ == fmt_pubsub_topic(self@),
    {
        proof {
            reveal_strlit("/waku/2/");
            reveal_strlit("/");
        }
        let mut out = String::from_str("/waku/2/");
        out.append(self.topic_name.as_str());
        out.append("/");
        out.append(self.encoding.as_str());
        proof {
            assert(out@ =~= fmt_pubsub_topic(self@));
        }
        out
    }
}

/// The fixed well-known topic used when no topic is supplied to relay and
/// store operations that accept an optional one.
pub fn default_pubsub_topic() -> (r: WakuPubSubTopic)
    ensures
        r@.topic_name == "default-waku"@,
        r@.encoding == Encoding::Proto,
{
    WakuPubSubTopic { topic_name: String::from_str("default-waku"), encoding: Encoding::Proto }
}

/// Assembles a content topic from its parts, unchanged.
pub fn waku_create_content_topic(
    application_name: String,
    version: usize,
    content_topic_name: String,
    encoding: Encoding,
) -> (r: WakuContentTopic)
    ensures
        r@.application_name == application_name@,
        r@.version == version as nat,
        r@.content_topic_name == content_topic_name@,
        r@.encoding == encoding,
{
    WakuContentTopic { application_name, version, content_topic_name, encoding }
}

/// Assembles a pub/sub topic from its parts, unchanged.
pub fn waku_create_pubsub_topic(topic_name: String, encoding: Encoding) -> (r: WakuPubSubTopic)
    ensures
        r@.topic_name == topic_name@,
        r@.encoding == encoding,
{
    WakuPubSubTopic { topic_name, encoding }
}

// ------------------------------------------------------------------
// Round-trip laws
// ------------------------------------------------------------------

/// The canonical token of an encoding contains no slash.
proof fn lemma_encoding_token_slash_free(e: Encoding)
    ensures
        slash_free(encoding_token(e)),
{
}

/// Parsing the canonical string of a well-formed content topic gives back
/// exactly that topic.
pub proof fn lemma_parse_format_content(t: ContentTopicView)
    requires
        t.wf(),
    ensures
        parse_content_topic_spec(fmt_content_topic(t)) == Some(t),
{
    let s = fmt_content_topic(t);
    let a = t.application_name;
    let d = dec_digits(t.version);
    let m = t.content_topic_name;
    let e = encoding_token(t.encoding);
    lemma_dec_digits(t.version);
    lemma_encoding_token_slash_free(t.encoding);
    let p1 = 1 + a.len() as int;
    let p2 = p1 + 1 + d.len() as int;
    let p3 = p2 + 1 + m.len() as int;
    assert(s.len() == p3 + 1 + e.len());
    assert(s[0] == '/');
    assert(s[p1] == '/');
    assert(s[p2] == '/');
    assert(s[p3] == '/');
    assert forall|j: int| 1 <= j < p1 implies s[j] != '/' by {
        assert(s[j] == a[j - 1]);
    }
    assert forall|j: int| p1 + 1 <= j < p2 implies s[j] != '/' by {
        assert(s[j] == d[j - p1 - 1]);
        assert(is_digit(d[j - p1 - 1]));
    }
    assert forall|j: int| p2 + 1 <= j < p3 implies s[j] != '/' by {
        assert(s[j] == m[j - p2 - 1]);
    }
    assert forall|j: int| p3 + 1 <= j < s.len() implies s[j] != '/' by {
        assert(s[j] == e[j - p3 - 1]);
    }
    lemma_seg_end_at(s, 1, p1);
    lemma_seg_end_at(s, p1 + 1, p2);
    lemma_seg_end_at(s, p2 + 1, p3);
    lemma_seg_end_at(s, p3 + 1, s.len() as int);
    assert(s.subrange(1, p1) =~= a);
    assert(s.subrange(p1 + 1, p2) =~= d);
    assert(s.subrange(p2 + 1, p3) =~= m);
    assert(s.subrange(p3 + 1, s.len() as int) =~= e);
    lemma_encoding_token_of(t.encoding);
}

/// Every content topic that parsing accepts is well-formed, so its
/// canonical form parses back to it in turn.
pub proof fn lemma_parse_content_wf(s: Seq<char>)
    requires
        parse_content_topic_spec(s) is Some,
    ensures
        parse_content_topic_spec(s)->Some_0.wf(),
{
    let i1 = seg_end(s, 1);
    let i2 = seg_end(s, i1 + 1);
    let i3 = seg_end(s, i2 + 1);
    lemma_seg_end(s, 1);
    lemma_seg_end(s, i1 + 1);
    lemma_seg_end(s, i2 + 1);
    let t = parse_content_topic_spec(s)->Some_0;
    assert forall|j: int| 0 <= j < t.application_name.len() implies t.application_name[j]
        != '/' by {
        assert(t.application_name[j] == s[1 + j]);
    }
    assert forall|j: int| 0 <= j < t.content_topic_name.len() implies t.content_topic_name[j]
        != '/' by {
        assert(t.content_topic_name[j] == s[i2 + 1 + j]);
    }
}

/// Law: formatting the parse of a canonically formatted content-topic
/// string yields that string unchanged.
pub proof fn lemma_content_topic_round_trip(s: Seq<char>)
    requires
        exists|t: ContentTopicView| t.wf() && s == fmt_content_topic(t),
    ensures
        parse_content_topic_spec(s) is Some,
        fmt_content_topic(parse_content_topic_spec(s)->Some_0) == s,
{
    let t = choose|t: ContentTopicView| t.wf() && s == fmt_content_topic(t);
    lemma_parse_format_content(t);
}

/// Parsing the canonical string of a well-formed pub/sub topic gives back
/// exactly that topic.
pub proof fn lemma_parse_format_pubsub(t: PubSubTopicView)
    requires
        t.wf(),
    ensures
        parse_pubsub_topic_spec(fmt_pubsub_topic(t)) == Some(t),
{
    let s = fmt_pubsub_topic(t);
    let m = t.topic_name;
    let e = encoding_token(t.encoding);
    lemma_encoding_token_slash_free(t.encoding);
    let p1 = 8 + m.len() as int;
    assert(s.len() == p1 + 1 + e.len());
    assert(s.subrange(0, 8) =~= pubsub_prefix());
    assert(s[p1] == '/');
    assert forall|j: int| 8 <= j < p1 implies s[j] != '/' by {
        assert(s[j] == m[j - 8]);
    }
    assert forall|j: int| p1 + 1 <= j < s.len() implies s[j] != '/' by {
        assert(s[j] == e[j - p1 - 1]);
    }
    lemma_seg_end_at(s, 8, p1);
    lemma_seg_end_at(s, p1 + 1, s.len() as int);
    assert(s.subrange(8, p1) =~= m);
    assert(s.subrange(p1 + 1, s.len() as int) =~= e);
    lemma_encoding_token_of(t.encoding);
}

/// Every pub/sub topic that parsing accepts is well-formed, so its
/// canonical form parses back to it in turn.
pub proof fn lemma_parse_pubsub_wf(s: Seq<char>)
    requires
        parse_pubsub_topic_spec(s) is Some,
    ensures
        parse_pubsub_topic_spec(s)->Some_0.wf(),
{
    lemma_seg_end(s, 8);
    let t = parse_pubsub_topic_spec(s)->Some_0;
    assert forall|j: int| 0 <= j < t.topic_name.len() implies t.topic_name[j] != '/' by {
        assert(t.topic_name[j] == s[8 + j]);
    }
}

/// Law: formatting the parse of a canonically formatted pub/sub-topic
/// string yields that string unchanged.
pub proof fn lemma_pubsub_topic_round_trip(s: Seq<char>)
    requires
        exists|t: PubSubTopicView| t.wf() && s == fmt_pubsub_topic(t),
    ensures
        parse_pubsub_topic_spec(s) is Some,
        fmt_pubsub_topic(parse_pubsub_topic_spec(s)->Some_0) == s,
{
    let t = choose|t: PubSubTopicView| t.wf() && s == fmt_pubsub_topic(t);
    lemma_parse_format_pubsub(t);
}

/// The supplied topic, or the fixed well-known one when none is given.
pub fn topic_or_default(topic: Option<WakuPubSubTopic>) -> (r: WakuPubSubTopic)
    ensures
        match topic {
            Some(t) => r@ == t@,
            None => r@.topic_name == "default-waku"@ && r@.encoding == Encoding::Proto,
        },
{
    match topic {
        Some(t) => t,
        None => default_pubsub_topic(),
    }
}

} // verus!
