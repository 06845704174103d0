//! Who sends a request: the key in its Authorization header.

use hyper::header::{HeaderMap, HeaderValue};
use vstd::prelude::*;
use vstd::string::*;

use crate::failure;
use crate::failure::{HttpFailure, HttpFailureView};

verus! {

/// The headers of a request, `hyper::header::HeaderMap`.
#[verifier::external_type_specification]
#[verifier::external_body]
#[verifier::reject_recursive_types(T)]
pub struct ExHeaderMap<T>(hyper::header::HeaderMap<T>);

/// The value of one header, `hyper::header::HeaderValue`.
#[verifier::external_type_specification]
#[verifier::external_body]
pub struct ExHeaderValue(hyper::header::HeaderValue);

/// The bytes of a header's value.
pub uninterp spec fn header_bytes(value: HeaderValue) -> Seq<u8>;

/// For the name of each header in a map, in lower case, the bytes of the first
/// value that the map has under it.
pub uninterp spec fn first_values(headers: HeaderMap<HeaderValue>) -> Map<Seq<char>, Seq<u8>>;

/// The first value of a request's Authorization header, if it has one.
pub open spec fn authorization(headers: HeaderMap<HeaderValue>) -> Option<Seq<u8>> {
    if first_values(headers).contains_key("authorization"@) {
        Some(first_values(headers)["authorization"@])
    } else {
        None
    }
}

/// Calls `hyper::HeaderMap::get` with `hyper::header::AUTHORIZATION`: the first
/// value under that name, or nothing where there is none.
#[verifier::external_body]
fn get_authorization(headers: &HeaderMap<HeaderValue>) -> (value: Option<&HeaderValue>)
    ensures
        value is Some <==> first_values(*headers).contains_key("authorization"@),
        value matches Some(v) ==> header_bytes(*v) == first_values(*headers)["authorization"@],
{
    headers.get(hyper::header::AUTHORIZATION)
}

/// A byte that can stand in a header's text: visible ASCII, a space or a tab.
pub open spec fn is_text_byte(byte: u8) -> bool {
    32 <= byte < 127 || byte == 9
}

/// The text of a header's value, where all of its bytes are text.
pub open spec fn header_text(bytes: Seq<u8>) -> Option<Seq<char>> {
    if forall|i: int| 0 <= i < bytes.len() ==> is_text_byte(#[trigger] bytes[i]) {
        Some(Seq::new(bytes.len(), |i: int| bytes[i] as char))
    } else {
        None
    }
}

/// Calls `hyper::header::HeaderValue::to_str`: the value as a string of ASCII
/// characters, or nothing where one of its bytes is neither visible ASCII nor a
/// space nor a tab.
#[verifier::external_body]
fn value_to_str(value: &HeaderValue) -> (text: Option<&str>)
    ensures
        match text {
            Some(t) => header_text(header_bytes(*value)) == Some(t@),
            None => header_text(header_bytes(*value)) is None,
        },
{
    value.to_str().ok()
}

/// A character with the Unicode property White_Space.
pub open spec fn is_white_space(c: char) -> bool {
    ||| '\u{9}' <= c <= '\u{d}'
    ||| c == ' '
    ||| c == '\u{85}'
    ||| c == '\u{a0}'
    ||| c == '\u{1680}'
    ||| '\u{2000}' <= c <= '\u{200a}'
    ||| c == '\u{2028}'
    ||| c == '\u{2029}'
    ||| c == '\u{202f}'
    ||| c == '\u{205f}'
    ||| c == '\u{3000}'
}

/// How many characters stand before the first white space.
pub open spec fn leading_word_len(text: Seq<char>) -> nat
    decreases text.len(),
{
    if text.len() == 0 || is_white_space(text[0]) {
        0
    } else {
        1 + leading_word_len(text.skip(1))
    }
}

/// The first word of a text is no longer than the text.
pub proof fn lemma_leading_word_len(text: Seq<char>)
    ensures
        leading_word_len(text) <= text.len(),
    decreases text.len(),
{
    if text.len() > 0 && !is_white_space(text[0]) {
        lemma_leading_word_len(text.skip(1));
    }
}

/// The longest stretches of `text` without white space, in order.
pub open spec fn words(text: Seq<char>) -> Seq<Seq<char>>
    decreases text.len(),
{
    if text.len() == 0 {
        Seq::empty()
    } else if is_white_space(text[0]) {
        words(text.skip(1))
    } else {
        let len = leading_word_len(text) as int;
        proof {
            lemma_leading_word_len(text);
        }
        seq![text.take(len)] + words(text.skip(len))
    }
}

/// `c` in lower case, where it is an ASCII letter.
pub open spec fn ascii_lower(c: char) -> char {
    if 'A' <= c <= 'Z' {
        (c as u32 + 32) as char
    } else {
        c
    }
}

/// `text` with its ASCII letters in lower case.
pub open spec fn lower_case(text: Seq<char>) -> Seq<char> {
    text.map_values(|c: char| ascii_lower(c))
}

/// The name of the one accepted scheme, in any mixture of cases.
pub open spec fn is_bearer(scheme: Seq<char>) -> bool {
    lower_case(scheme) == "bearer"@
}

/// The key in the text of an Authorization header: the second of exactly two
/// words, where the first is the name of the scheme.
pub open spec fn text_key(text: Seq<char>) -> Option<Seq<char>> {
    if words(text).len() == 2 && is_bearer(words(text)[0]) {
        Some(words(text)[1])
    } else {
        None
    }
}

/// The key that a request presents, given the value of its Authorization
/// header.
pub open spec fn presented_key(authorization: Option<Seq<u8>>) -> Option<Seq<char>> {
    match authorization {
        Some(bytes) => match header_text(bytes) {
            Some(text) => text_key(text),
            None => None,
        },
        None => None,
    }
}

/// Whether `c` is white space.
pub fn white_space(c: char) -> (r: bool)
    ensures
        r == is_white_space(c),
{
    ('\u{9}' <= c && c <= '\u{d}') || c == ' ' || c == '\u{85}' || c == '\u{a0}' || c == '\u{1680}' || (
    '\u{2000}' <= c && c <= '\u{200a}') || c == '\u{2028}' || c == '\u{2029}' || c == '\u{202f}' || c
        == '\u{205f}' || c == '\u{3000}'
}

/// The words that spans of a text stand for.
spec fn spanned(text: Seq<char>, spans: Seq<(usize, usize)>) -> Seq<Seq<char>> {
    spans.map_values(|span: (usize, usize)| text.subrange(span.0 as int, span.1 as int))
}

proof fn lemma_leading_word(text: Seq<char>, len: nat)
    requires
        len <= text.len(),
        forall|i: int| 0 <= i < len ==> !is_white_space(#[trigger] text[i]),
        len < text.len() ==> is_white_space(text[len as int]),
    ensures
        leading_word_len(text) == len,
    decreases len,
{
    if len > 0 {
        let rest = text.skip(1);
        assert forall|i: int| 0 <= i < len - 1 implies !is_white_space(#[trigger] rest[i]) by {
            assert(rest[i] == text[i + 1]);
        }
        assert(!is_white_space(text[0]));
        lemma_leading_word(rest, (len - 1) as nat);
    }
}

/// The characters of a string, one by one.
fn characters(text: &str) -> (chars: Vec<char>)
    ensures
        chars@ == text@,
{
    let mut chars: Vec<char> = Vec::new();
    for c in it: text.chars()
        invariant
            it.seq() == text@,
            chars@ == text@.take(it.index() as int),
    {
        chars.push(c);
        assert(text@.take(it.index() as int).push(c) =~= text@.take(it.index() as int + 1));
    }
    assert(text@.take(text@.len() as int) =~= text@);
    chars
}

/// Where the words of a text start and end.
fn word_spans(text: &Vec<char>) -> (spans: Vec<(usize, usize)>)
    ensures
        spanned(text@, spans@) == words(text@),
        forall|k: int|
            0 <= k < spans@.len() ==> (#[trigger] spans@[k]).0 <= spans@[k].1 <= text@.len(),
{
    let mut spans: Vec<(usize, usize)> = Vec::new();
    let mut at: usize = 0;
    assert(text@.skip(0) =~= text@);
    assert(spanned(text@, spans@) + words(text@) =~= words(text@));
    while at < text.len()
        invariant
            at <= text@.len(),
            spanned(text@, spans@) + words(text@.skip(at as int)) == words(text@),
            forall|k: int|
                0 <= k < spans@.len() ==> (#[trigger] spans@[k]).0 <= spans@[k].1 <= text@.len(),
        decreases text@.len() - at,
    {
        let ghost rest = text@.skip(at as int);
        if white_space(text[at]) {
            assert(rest.skip(1) =~= text@.skip(at as int + 1));
            at = at + 1;
        } else {
            let start: usize = at;
            while at < text.len() && !white_space(text[at])
                invariant
                    start <= at <= text@.len(),
                    forall|i: int| start <= i < at ==> !is_white_space(#[trigger] text@[i]),
                decreases text@.len() - at,
            {
                at = at + 1;
            }
            proof {
                let len = (at - start) as nat;
                assert forall|i: int| 0 <= i < len implies !is_white_space(#[trigger] rest[i]) by {
                    assert(rest[i] == text@[start + i]);
                }
                lemma_leading_word(rest, len);
                assert(rest.take(len as int) =~= text@.subrange(start as int, at as int));
                assert(rest.skip(len as int) =~= text@.skip(at as int));
            }
            let ghost before = spans@;
            spans.push((start, at));
            assert(spanned(text@, spans@) =~= spanned(text@, before).push(
                text@.subrange(start as int, at as int),
            ));
            assert(spanned(text@, spans@) + words(text@.skip(at as int)) =~= spanned(text@, before)
                + (seq![text@.subrange(start as int, at as int)] + words(text@.skip(at as int))));
        }
    }
    assert(spanned(text@, spans@) + words(text@.skip(at as int)) =~= spanned(text@, spans@));
    spans
}

/// Whether a character is `lower`, an ASCII letter in lower case, or the same
/// letter in upper case.
fn letter_is(c: char, lower: char, upper: char) -> (r: bool)
    requires
        'a' <= lower <= 'z',
        upper as u32 + 32 == lower as u32,
    ensures
        r == (ascii_lower(c) == lower),
{
    c == lower || c == upper
}

/// Whether `scheme` names the accepted scheme.
fn names_bearer(scheme: &Vec<char>) -> (r: bool)
    ensures
        r == is_bearer(scheme@),
{
    proof {
        reveal_strlit("bearer");
    }
    let r = scheme.len() == 6 && letter_is(scheme[0], 'b', 'B') && letter_is(scheme[1], 'e', 'E')
        && letter_is(scheme[2], 'a', 'A') && letter_is(scheme[3], 'r', 'R') && letter_is(
        scheme[4],
        'e',
        'E',
    ) && letter_is(scheme[5], 'r', 'R');
    proof {
        let lowered = lower_case(scheme@);
        if r {
            assert(lowered =~= "bearer"@);
        } else if lowered == "bearer"@ {
            assert(lowered.len() == 6);
            assert(lowered[0] == 'b' && lowered[1] == 'e' && lowered[2] == 'a');
            assert(lowered[3] == 'r' && lowered[4] == 'e' && lowered[5] == 'r');
        }
    }
    r
}

/// The key in the text of an Authorization header, if the text is a scheme and
/// a key and the scheme is the accepted one.
pub fn key_in_text(text: &str) -> (key: Option<String>)
    ensures
        match key {
            Some(k) => text_key(text@) == Some(k@),
            None => text_key(text@) is None,
        },
{
    let chars = characters(text);
    let spans = word_spans(&chars);
    assert(spanned(text@, spans@).len() == spans@.len());
    if spans.len() != 2 {
        return None;
    }
    let (scheme_start, scheme_end) = spans[0];
    let (key_start, key_end) = spans[1];
    assert(words(text@)[0] == text@.subrange(scheme_start as int, scheme_end as int));
    assert(words(text@)[1] == text@.subrange(key_start as int, key_end as int));
    let scheme = characters(text.substring_char(scheme_start, scheme_end));
    if names_bearer(&scheme) {
        Some(text.substring_char(key_start, key_end).to_owned())
    } else {
        None
    }
}

/// Who a key belongs to, and what the key allows.
#[derive(Debug)]
pub struct Auth {
    /// The host that enrolled the key.
    pub host: String,
    /// Whether the key allows a look at the jobs of every host.
    pub global_view: bool,
}

/// What an [`Auth`] holds.
pub struct AuthView {
    pub host: Seq<char>,
    pub global_view: bool,
}

impl View for Auth {
    type V = AuthView;

    open spec fn view(&self) -> AuthView {
        AuthView { host: self.host@, global_view: self.global_view }
    }
}

/// What the key store said of a key: whose it is, that it does not know the
/// key, or that it failed, with its error written out.
pub open spec fn key_answer(checked: Result<Option<Auth>, String>) -> Result<
    Option<AuthView>,
    Seq<char>,
> {
    match checked {
        Ok(Some(auth)) => Ok(Some(auth@)),
        Ok(None) => Ok(None),
        Err(detail) => Err(detail@),
    }
}

/// What a request is told that presents no key, or one that is not known.
pub open spec fn not_authorized() -> HttpFailureView {
    failure::client_failure(failure::UNAUTHORIZED, "invalid Authorization header"@)
}

/// What follows from the key store's answer.
pub open spec fn authorized(answer: Result<Option<AuthView>, Seq<char>>) -> Result<
    AuthView,
    HttpFailureView,
> {
    match answer {
        Ok(Some(auth)) => Ok(auth),
        Ok(None) => Err(not_authorized()),
        Err(detail) => Err(failure::internal_failure("internal error: "@ + detail)),
    }
}

fn refuse() -> (failure: HttpFailure)
    ensures
        failure@ == not_authorized(),
{
    failure::client_error(failure::UNAUTHORIZED, "invalid Authorization header")
}

/// The key that a request presents, which is then looked up in the key store.
/// A request without one is refused.
pub fn require_auth(headers: &HeaderMap<HeaderValue>) -> (key: Result<String, HttpFailure>)
    ensures
        match key {
            Ok(k) => presented_key(authorization(*headers)) == Some(k@),
            Err(failure) => {
                &&& presented_key(authorization(*headers)) is None
                &&& failure@ == not_authorized()
                &&& failure.status_code == 401
                &&& failure.error_code is None
                &&& failure.external_message@ == "invalid Authorization header"@
                &&& failure.internal_message@ == "invalid Authorization header"@
            },
        },
{
    if let Some(value) = get_authorization(headers) {
        if let Some(text) = value_to_str(value) {
            if let Some(key) = key_in_text(text) {
                return Ok(key);
            }
        }
    }
    Err(refuse())
}

/// Goes on from the key store's answer on the key that a request presented.
pub fn key_checked(checked: Result<Option<Auth>, String>) -> (r: Result<Auth, HttpFailure>)
    ensures
        match r {
            Ok(auth) => authorized(key_answer(checked)) == Ok::<AuthView, HttpFailureView>(auth@),
            Err(failure) => authorized(key_answer(checked)) == Err::<AuthView, HttpFailureView>(
                failure@,
            ),
        },
        match checked {
            Ok(Some(auth)) => r == Ok::<Auth, HttpFailure>(auth),
            Ok(None) => r matches Err(failure) && {
                &&& failure.status_code == 401
                &&& failure.error_code is None
                &&& failure.external_message@ == "invalid Authorization header"@
                &&& failure.internal_message@ == "invalid Authorization header"@
            },
            Err(detail) => r matches Err(failure) && {
                &&& failure.status_code == 500
                &&& failure.error_code matches Some(code) && code@ == "Internal"@
                &&& failure.external_message@ == "Internal Server Error"@
                &&& failure.internal_message@ == "internal error: "@ + detail@
            },
        },
{
    match failure::or_500(checked)? {
        Some(auth) => Ok(auth),
        None => Err(refuse()),
    }
}

/// Nothing but white space.
pub open spec fn is_blank(text: Seq<char>) -> bool {
    forall|i: int| 0 <= i < text.len() ==> is_white_space(#[trigger] text[i])
}

/// At least one character, and no white space.
pub open spec fn is_word(text: Seq<char>) -> bool {
    &&& text.len() > 0
    &&& forall|i: int| 0 <= i < text.len() ==> !is_white_space(#[trigger] text[i])
}

proof fn lemma_words_after_blank(blank: Seq<char>, text: Seq<char>)
    requires
        is_blank(blank),
    ensures
        words(blank + text) == words(text),
    decreases blank.len(),
{
    if blank.len() == 0 {
        assert(blank + text =~= text);
    } else {
        let rest = blank.skip(1);
        assert forall|i: int| 0 <= i < rest.len() implies is_white_space(#[trigger] rest[i]) by {
            assert(rest[i] == blank[i + 1]);
        }
        lemma_words_after_blank(rest, text);
        assert((blank + text)[0] == blank[0]);
        assert((blank + text).skip(1) =~= rest + text);
    }
}

proof fn lemma_words_of_word(word: Seq<char>, text: Seq<char>)
    requires
        is_word(word),
        text.len() > 0 ==> is_white_space(text[0]),
    ensures
        words(word + text) == seq![word] + words(text),
{
    let whole = word + text;
    assert forall|i: int| 0 <= i < word.len() implies !is_white_space(#[trigger] whole[i]) by {
        assert(whole[i] == word[i]);
    }
    if text.len() > 0 {
        assert(whole[word.len() as int] == text[0]);
    }
    lemma_leading_word(whole, word.len());
    assert(whole.take(word.len() as int) =~= word);
    assert(whole.skip(word.len() as int) =~= text);
}

/// A scheme and a key, with white space between them and perhaps around them,
/// present the key, in whatever case the name of the scheme is written.
pub proof fn law_spelling_does_not_matter(
    before: Seq<char>,
    scheme: Seq<char>,
    between: Seq<char>,
    key: Seq<char>,
    after: Seq<char>,
)
    requires
        is_blank(before) && is_blank(between) && is_blank(after),
        between.len() > 0,
        is_word(scheme) && is_word(key),
    ensures
        text_key(before + scheme + between + key + after) == if is_bearer(scheme) {
            Some(key)
        } else {
            None
        },
{
    let text = before + scheme + between + key + after;
    assert(text =~= before + (scheme + (between + (key + after))));
    lemma_words_after_blank(before, scheme + (between + (key + after)));
    lemma_words_of_word(scheme, between + (key + after));
    lemma_words_after_blank(between, key + after);
    lemma_words_of_word(key, after);
    assert(after =~= after + Seq::<char>::empty());
    lemma_words_after_blank(after, Seq::empty());
    assert(words(text) =~= seq![scheme, key]);
}

proof fn lemma_words_are_words(text: Seq<char>)
    ensures
        forall|k: int| 0 <= k < words(text).len() ==> is_word(#[trigger] words(text)[k]),
    decreases text.len(),
{
    if text.len() > 0 {
        if is_white_space(text[0]) {
            lemma_words_are_words(text.skip(1));
            assert(words(text) == words(text.skip(1)));
        } else {
            let len = leading_word_len(text);
            lemma_leading_word_len(text);
            lemma_leading_word_is_word(text);
            lemma_words_are_words(text.skip(len as int));
            let first = text.take(len as int);
            assert forall|i: int| 0 <= i < first.len() implies !is_white_space(
                #[trigger] first[i],
            ) by {
                assert(first[i] == text[i]);
            }
            let rest = words(text.skip(len as int));
            assert forall|k: int| 0 <= k < words(text).len() implies is_word(
                #[trigger] words(text)[k],
            ) by {
                if k > 0 {
                    assert(words(text)[k] == rest[k - 1]);
                }
            }
        }
    }
}

proof fn lemma_leading_word_is_word(text: Seq<char>)
    ensures
        forall|i: int| 0 <= i < leading_word_len(text) ==> !is_white_space(#[trigger] text[i]),
    decreases text.len(),
{
    if text.len() > 0 && !is_white_space(text[0]) {
        lemma_leading_word_len(text);
        lemma_leading_word_is_word(text.skip(1));
        assert forall|i: int| 0 <= i < leading_word_len(text) implies !is_white_space(
            #[trigger] text[i],
        ) by {
            if i > 0 {
                assert(text[i] == text.skip(1)[i - 1]);
            }
        }
    }
}

/// The key store is asked about no key that is empty or holds white space.
pub proof fn law_keys_are_words(authorization: Option<Seq<u8>>)
    ensures
        presented_key(authorization) matches Some(key) ==> is_word(key),
{
    if let Some(key) = presented_key(authorization) {
        lemma_words_are_words(header_text(authorization->0)->0);
    }
}

/// The name of the scheme is six letters, each in either case.
pub proof fn law_scheme_is_bearer_in_any_case(scheme: Seq<char>)
    ensures
        is_bearer(scheme) <==> {
            &&& scheme.len() == 6
            &&& scheme[0] == 'b' || scheme[0] == 'B'
            &&& scheme[1] == 'e' || scheme[1] == 'E'
            &&& scheme[2] == 'a' || scheme[2] == 'A'
            &&& scheme[3] == 'r' || scheme[3] == 'R'
            &&& scheme[4] == 'e' || scheme[4] == 'E'
            &&& scheme[5] == 'r' || scheme[5] == 'R'
        },
{
    reveal_strlit("bearer");
    let lowered = lower_case(scheme);
    if scheme.len() == 6 {
        assert(lowered[0] == ascii_lower(scheme[0]) && lowered[1] == ascii_lower(scheme[1]));
        assert(lowered[2] == ascii_lower(scheme[2]) && lowered[3] == ascii_lower(scheme[3]));
        assert(lowered[4] == ascii_lower(scheme[4]) && lowered[5] == ascii_lower(scheme[5]));
        if lowered[0] == 'b' && lowered[1] == 'e' && lowered[2] == 'a' && lowered[3] == 'r'
            && lowered[4] == 'e' && lowered[5] == 'r' {
            assert(lowered =~= "bearer"@);
        }
    } else {
        assert(lowered.len() != 6);
    }
}

/// A text without words is blank.
proof fn lemma_no_words(text: Seq<char>)
    requires
        words(text).len() == 0,
    ensures
        is_blank(text),
    decreases text.len(),
{
    if text.len() > 0 {
        if is_white_space(text[0]) {
            lemma_no_words(text.skip(1));
            assert forall|i: int| 0 <= i < text.len() implies is_white_space(
                #[trigger] text[i],
            ) by {
                if i > 0 {
                    assert(text[i] == text.skip(1)[i - 1]);
                }
            }
        } else {
            lemma_leading_word_len(text);
        }
    }
}

/// Where the first word of a text stands.
proof fn lemma_first_word(text: Seq<char>) -> (span: (int, int))
    requires
        words(text).len() > 0,
    ensures
        0 <= span.0 < span.1 <= text.len(),
        is_blank(text.take(span.0)),
        is_word(text.subrange(span.0, span.1)),
        span.1 < text.len() ==> is_white_space(text[span.1]),
        words(text) == seq![text.subrange(span.0, span.1)] + words(text.skip(span.1)),
    decreases text.len(),
{
    if is_white_space(text[0]) {
        let rest = text.skip(1);
        let (start, end) = lemma_first_word(rest);
        assert(text.subrange(start + 1, end + 1) =~= rest.subrange(start, end));
        assert(text.skip(end + 1) =~= rest.skip(end));
        assert forall|i: int| 0 <= i < start + 1 implies is_white_space(
            #[trigger] text.take(start + 1)[i],
        ) by {
            if i > 0 {
                assert(rest.take(start)[i - 1] == text[i]);
            }
        }
        (start + 1, end + 1)
    } else {
        let len = leading_word_len(text) as int;
        lemma_leading_word_len(text);
        lemma_leading_word_is_word(text);
        lemma_after_leading_word(text);
        assert(text.subrange(0, len) =~= text.take(len));
        (0, len)
    }
}

proof fn lemma_after_leading_word(text: Seq<char>)
    ensures
        leading_word_len(text) < text.len() ==> is_white_space(text[leading_word_len(text) as int]),
    decreases text.len(),
{
    if text.len() > 0 && !is_white_space(text[0]) {
        lemma_after_leading_word(text.skip(1));
    }
}

/// Whether the bytes of a header's value are blanks, the name of the scheme,
/// blanks, a key of visible ASCII, and blanks, where a blank is a space or a tab.
pub open spec fn spells(
    bytes: Seq<u8>,
    before: Seq<u8>,
    scheme: Seq<u8>,
    between: Seq<u8>,
    key: Seq<u8>,
    after: Seq<u8>,
) -> bool {
    &&& bytes == before + scheme + between + key + after
    &&& forall|i: int| 0 <= i < before.len() ==> #[trigger] before[i] == 32 || before[i] == 9
    &&& scheme.len() == 6
    &&& scheme[0] == 98 || scheme[0] == 66
    &&& scheme[1] == 101 || scheme[1] == 69
    &&& scheme[2] == 97 || scheme[2] == 65
    &&& scheme[3] == 114 || scheme[3] == 82
    &&& scheme[4] == 101 || scheme[4] == 69
    &&& scheme[5] == 114 || scheme[5] == 82
    &&& between.len() > 0
    &&& forall|i: int| 0 <= i < between.len() ==> #[trigger] between[i] == 32 || between[i] == 9
    &&& key.len() > 0
    &&& forall|i: int| 0 <= i < key.len() ==> 33 <= #[trigger] key[i] <= 126
    &&& forall|i: int| 0 <= i < after.len() ==> #[trigger] after[i] == 32 || after[i] == 9
}

/// The characters of bytes that are ASCII.
spec fn ascii(bytes: Seq<u8>) -> Seq<char> {
    Seq::new(bytes.len(), |i: int| bytes[i] as char)
}

proof fn lemma_spelled_key(
    bytes: Seq<u8>,
    before: Seq<u8>,
    scheme: Seq<u8>,
    between: Seq<u8>,
    key: Seq<u8>,
    after: Seq<u8>,
)
    requires
        spells(bytes, before, scheme, between, key, after),
    ensures
        header_text(bytes) == Some(ascii(bytes)),
        text_key(ascii(bytes)) == Some(ascii(key)),
{
    let (a, b, c) = (before.len() as int, before.len() + 6, before.len() + 6 + between.len());
    assert forall|i: int| 0 <= i < bytes.len() implies is_text_byte(#[trigger] bytes[i]) by {
        if i < a {
            assert(bytes[i] == before[i]);
        } else if i < b {
            assert(bytes[i] == scheme[i - a]);
        } else if i < c {
            assert(bytes[i] == between[i - b]);
        } else if i < c + key.len() {
            assert(bytes[i] == key[i - c]);
        } else {
            assert(bytes[i] == after[i - c - key.len()]);
        }
    }
    assert(ascii(bytes) =~= ascii(before) + ascii(scheme) + ascii(between) + ascii(key) + ascii(
        after,
    ));
    law_scheme_is_bearer_in_any_case(ascii(scheme));
    assert forall|i: int| 0 <= i < 6 implies !is_white_space(#[trigger] ascii(scheme)[i]) by {
        assert(65 <= scheme[i] <= 122) by {
            assert(i == 0 || i == 1 || i == 2 || i == 3 || i == 4 || i == 5);
        }
    }
    law_spelling_does_not_matter(
        ascii(before),
        ascii(scheme),
        ascii(between),
        ascii(key),
        ascii(after),
    );
}

/// The key that the key store is asked about is the whole key that the bytes of
/// the request's Authorization header spell, of whatever length.
pub proof fn law_whole_key_is_presented(
    headers: HeaderMap<HeaderValue>,
    before: Seq<u8>,
    scheme: Seq<u8>,
    between: Seq<u8>,
    key: Seq<u8>,
    after: Seq<u8>,
)
    requires
        first_values(headers).contains_key("authorization"@),
        spells(first_values(headers)["authorization"@], before, scheme, between, key, after),
    ensures
        presented_key(authorization(headers)) matches Some(presented) && {
            &&& presented.len() == key.len()
            &&& forall|i: int|
                0 <= i < key.len() ==> #[trigger] presented[i] as int == key[i] as int
        },
{
    let bytes = first_values(headers)["authorization"@];
    lemma_spelled_key(bytes, before, scheme, between, key, after);
}

/// A request presents a key only if it has an Authorization header whose bytes
/// spell it.
pub proof fn law_no_other_key_is_presented(headers: HeaderMap<HeaderValue>)
    ensures
        presented_key(authorization(headers)) matches Some(presented) ==> {
            &&& first_values(headers).contains_key("authorization"@)
            &&& exists|
                before: Seq<u8>,
                scheme: Seq<u8>,
                between: Seq<u8>,
                key: Seq<u8>,
                after: Seq<u8>,
            |
                {
                    &&& #[trigger] spells(
                        first_values(headers)["authorization"@],
                        before,
                        scheme,
                        between,
                        key,
                        after,
                    )
                    &&& presented.len() == key.len()
                    &&& forall|i: int|
                        0 <= i < key.len() ==> #[trigger] presented[i] as int == key[i] as int
                }
        },
{
    if let Some(presented) = presented_key(authorization(headers)) {
        let bytes = first_values(headers)["authorization"@];
        let text = ascii(bytes);
        assert(header_text(bytes) == Some(text));
        let (a, b) = lemma_first_word(text);
        let rest = text.skip(b);
        assert(words(text)[1] == words(rest)[0]);
        let (c, d) = lemma_first_word(rest);
        let (c, d) = (b + c, b + d);
        assert(rest.subrange(c - b, d - b) =~= text.subrange(c, d));
        let tail = rest.skip(d - b);
        lemma_no_words(tail);
        let before = bytes.take(a);
        let scheme = bytes.subrange(a, b);
        let between = bytes.subrange(b, c);
        let key = bytes.subrange(c, d);
        let after = bytes.skip(d);
        assert(bytes =~= before + scheme + between + key + after);
        assert(text.subrange(a, b) =~= ascii(scheme));
        assert(presented =~= ascii(key));
        law_scheme_is_bearer_in_any_case(ascii(scheme));
        assert forall|i: int| 0 <= i < before.len() implies #[trigger] before[i] == 32 || before[i]
            == 9 by {
            assert(is_white_space(text.take(a)[i]));
            assert(is_text_byte(bytes[i]));
        }
        assert forall|i: int| 0 <= i < between.len() implies #[trigger] between[i] == 32
            || between[i] == 9 by {
            assert(is_white_space(rest.take(c - b)[i]));
            assert(is_text_byte(bytes[b + i]));
        }
        assert forall|i: int| 0 <= i < key.len() implies 33 <= #[trigger] key[i] <= 126 by {
            assert(!is_white_space(presented[i]));
            assert(is_text_byte(bytes[c + i]));
        }
        assert forall|i: int| 0 <= i < after.len() implies #[trigger] after[i] == 32 || after[i]
            == 9 by {
            assert(is_white_space(tail[i]));
            assert(is_text_byte(bytes[d + i]));
        }
        assert(between.len() > 0) by {
            if b == c {
                assert(rest[0] == text[b]);
                assert(!is_white_space(rest.subrange(0, d - b)[0]));
            }
        }
        assert(scheme[0] == bytes[a]);
        assert(spells(bytes, before, scheme, between, key, after));
    }
}

/// A text presents a key only if it is a scheme and that key, with white space
/// between them and perhaps around them.
pub proof fn law_no_other_text_holds_a_key(text: Seq<char>)
    ensures
        text_key(text) matches Some(key) ==> exists|a: int, b: int, c: int, d: int|
            {
                &&& 0 <= a < b < c < d <= text.len()
                &&& is_blank(text.take(a))
                &&& is_bearer(#[trigger] text.subrange(a, b))
                &&& is_blank(text.subrange(b, c))
                &&& is_word(key) && key == #[trigger] text.subrange(c, d)
                &&& is_blank(text.skip(d))
            },
{
    if let Some(key) = text_key(text) {
        let (a, b) = lemma_first_word(text);
        let rest = text.skip(b);
        assert(words(text)[1] == words(rest)[0]);
        let (c, d) = lemma_first_word(rest);
        assert(rest.subrange(c, d) =~= text.subrange(b + c, b + d));
        assert(rest.take(c) =~= text.subrange(b, b + c));
        assert(rest.skip(d) =~= text.skip(b + d));
        lemma_no_words(rest.skip(d));
        assert(c > 0) by {
            if c == 0 {
                assert(rest[0] == text[b]);
                assert(!is_white_space(rest.subrange(0, d)[0]));
            }
        }
        assert(is_bearer(text.subrange(a, b)) && key == text.subrange(b + c, b + d));
    }
}

/// What follows from the key store's answer: a known key is whose the key store
/// says it is, an unknown one is refused, and a failure is the service's.
pub proof fn law_key_store_decides(answer: Result<Option<AuthView>, Seq<char>>)
    ensures
        match answer {
            Ok(Some(known)) => authorized(answer) matches Ok(auth) && auth.host == known.host
                && auth.global_view == known.global_view,
            Ok(None) => authorized(answer) matches Err(failure) && {
                &&& failure.status_code == 401
                &&& failure.error_code is None
                &&& failure.external_message == "invalid Authorization header"@
                &&& failure.internal_message == "invalid Authorization header"@
            },
            Err(detail) => authorized(answer) matches Err(failure) && {
                &&& failure.status_code == 500
                &&& failure.error_code matches Some(code) && code == "Internal"@
                &&& failure.external_message == "Internal Server Error"@
                &&& failure.internal_message == "internal error: "@ + detail
            },
        },
{
}

} // verus!
