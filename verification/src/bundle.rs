//! Token extraction from the vendor's web-player script bundle.
//!
//! The vendor publishes no credentials; the application id and the
//! candidate signing secrets are recovered from a versioned script bundle
//! referenced by the login page.  Extraction is staged: find the bundle
//! path in the login page, find the application id in the bundle text,
//! then derive candidate secrets from obfuscated per-locale fragments,
//! falling back to a directly embedded hex literal.

use vstd::prelude::*;
use vstd::string::StrSliceExecFns;
use vstd::string::StringExecFns;
use vstd::utf8::decode_utf8;
use vstd::utf8::valid_utf8;

use crate::error::ApiError;
use crate::text::digits_end;
use crate::text::hex_end;
use crate::text::is_digit_char;
use crate::text::is_lower_char;
use crate::text::lower_end;
use crate::text::match_at;
use crate::text::scan_digits;
use crate::text::scan_hex;
use crate::text::scan_lower;
use crate::text::scan_word_eq;
use crate::text::str_match_at;
use crate::text::word_eq_end;

verus! {

/// Application id and candidate secrets recovered from one bundle.
///
/// Produced once per client lifetime and immutable afterwards; the
/// secrets list is non-empty, in order of discovery.
#[derive(Debug, Clone)]
pub struct BundleTokens {
    pub app_id: String,
    pub secrets: Vec<String>,
}

/// End of a version tag `<digits>.<digits>.<digits>-<letter><3 digits>`
/// starting at `i`, if one starts there.
pub open spec fn version_tag_end(s: Seq<char>, i: int) -> Option<int> {
    let d1 = digits_end(s, i);
    if d1 == i || d1 >= s.len() || s[d1] != '.' {
        None
    } else {
        let d2 = digits_end(s, d1 + 1);
        if d2 == d1 + 1 || d2 >= s.len() || s[d2] != '.' {
            None
        } else {
            let d3 = digits_end(s, d2 + 1);
            if d3 == d2 + 1 || d3 >= s.len() || s[d3] != '-' {
                None
            } else if s.len() - d3 < 5 {
                None
            } else if is_lower_char(s[d3 + 1]) && is_digit_char(s[d3 + 2]) && is_digit_char(
                s[d3 + 3],
            ) && is_digit_char(s[d3 + 4]) {
                Some(d3 + 5)
            } else {
                None
            }
        }
    }
}

fn version_end_exec(s: &str, i: usize) -> (r: Option<usize>)
    requires
        i <= s@.len(),
    ensures
        r matches Some(v) ==> version_tag_end(s@, i as int) == Some(v as int) && i <= v
            <= s@.len(),
        r is None ==> version_tag_end(s@, i as int) is None,
{
    let n = s.unicode_len();
    let d1 = scan_digits(s, i);
    if d1 == i || d1 >= n {
        return None;
    }
    if s.get_char(d1) != '.' {
        return None;
    }
    let d2 = scan_digits(s, d1 + 1);
    if d2 == d1 + 1 || d2 >= n {
        return None;
    }
    if s.get_char(d2) != '.' {
        return None;
    }
    let d3 = scan_digits(s, d2 + 1);
    if d3 == d2 + 1 || d3 >= n {
        return None;
    }
    if s.get_char(d3) != '-' {
        return None;
    }
    if n - d3 < 5 {
        return None;
    }
    let c1 = s.get_char(d3 + 1);
    if !('a' <= c1 && c1 <= 'z') {
        return None;
    }
    let c2 = s.get_char(d3 + 2);
    if !('0' <= c2 && c2 <= '9') {
        return None;
    }
    let c3 = s.get_char(d3 + 3);
    if !('0' <= c3 && c3 <= '9') {
        return None;
    }
    let c4 = s.get_char(d3 + 4);
    if !('0' <= c4 && c4 <= '9') {
        return None;
    }
    Some(d3 + 5)
}

/// The bundle path captured by a versioned-script match starting at `i`:
/// for `<script src="<path>"></script>` with a well-formed version tag,
/// the `<path>` between the quotes.
pub open spec fn bundle_url_capture(s: Seq<char>, i: int) -> Option<Seq<char>> {
    if !match_at(s, i, ("<script src=\"")@) {
        None
    } else {
        let p = i + ("<script src=\"")@.len();
        if !match_at(s, p, ("/resources/")@) {
            None
        } else {
            match version_tag_end(s, p + ("/resources/")@.len()) {
                None => None,
                Some(v) => {
                    if match_at(s, v, ("/bundle.js")@) && match_at(
                        s,
                        v + ("/bundle.js")@.len(),
                        ("\"></script>")@,
                    ) {
                        Some(s.subrange(p, v + ("/bundle.js")@.len()))
                    } else {
                        None
                    }
                },
            }
        }
    }
}

/// The first versioned-script match in `s` at or after position `i`.
pub open spec fn first_bundle_url(s: Seq<char>, i: int) -> Option<Seq<char>>
    decreases s.len() - i,
{
    if !(0 <= i < s.len()) {
        None
    } else if bundle_url_capture(s, i) is Some {
        bundle_url_capture(s, i)
    } else {
        first_bundle_url(s, i + 1)
    }
}

fn try_bundle_url_at(s: &str, i: usize) -> (r: Option<String>)
    requires
        i <= s@.len(),
    ensures
        r matches Some(u) ==> bundle_url_capture(s@, i as int) == Some(u@),
        r is None ==> bundle_url_capture(s@, i as int) is None,
{
    // Pins the text's length to a machine word, for the index sums below.
    let _n = s.unicode_len();
    if !str_match_at(s, i, "<script src=\"") {
        return None;
    }
    let p = i + "<script src=\"".unicode_len();
    if !str_match_at(s, p, "/resources/") {
        return None;
    }
    let q = p + "/resources/".unicode_len();
    let v = match version_end_exec(s, q) {
        Some(v) => v,
        None => {
            return None;
        },
    };
    if !str_match_at(s, v, "/bundle.js") {
        return None;
    }
    let e = v + "/bundle.js".unicode_len();
    if !str_match_at(s, e, "\"></script>") {
        return None;
    }
    Some(s.substring_char(p, e).to_owned())
}

/// Locate the single versioned bundle script path in the login page.
///
/// Returns the first capture of the pattern
/// `<script src="/resources/<semver>-<letter><3 digits>/bundle.js"></script>`,
/// or a `BundleExtractionError` when no such script tag occurs.
pub fn extract_bundle_url(html: &str) -> (r: Result<String, ApiError>)
    ensures
        r is Ok <==> first_bundle_url(html@, 0) is Some,
        r matches Ok(u) ==> first_bundle_url(html@, 0) == Some(u@),
        r matches Err(e) ==> e matches ApiError::BundleExtractionError(m) && m@ == (
        "Bundle URL not found")@,
{
    let n = html.unicode_len();
    let mut i: usize = 0;
    while i < n
        invariant
            i <= n == html@.len(),
            first_bundle_url(html@, 0) == first_bundle_url(html@, i as int),
        decreases n - i,
    {
        match try_bundle_url_at(html, i) {
            Some(u) => {
                return Ok(u);
            },
            None => {
                i = i + 1;
            },
        }
    }
    Err(ApiError::BundleExtractionError(String::from_str("Bundle URL not found")))
}

/// The nine-digit application id captured by a match of
/// `production:{api:{appId:"<9 digits>"` starting at `i`.
pub open spec fn app_id_capture(s: Seq<char>, i: int) -> Option<Seq<char>> {
    let pre = ("production:{api:{appId:\"")@;
    if !match_at(s, i, pre) {
        None
    } else {
        let a = i + pre.len();
        if a + 10 <= s.len() && (forall|k: int| 0 <= k < 9 ==> #[trigger] is_digit_char(s[a + k])) && s[a + 9]
            == '"' {
            Some(s.subrange(a, a + 9))
        } else {
            None
        }
    }
}

/// The first application-id match in `s` at or after position `i`.
pub open spec fn first_app_id(s: Seq<char>, i: int) -> Option<Seq<char>>
    decreases s.len() - i,
{
    if !(0 <= i < s.len()) {
        None
    } else if app_id_capture(s, i) is Some {
        app_id_capture(s, i)
    } else {
        first_app_id(s, i + 1)
    }
}

fn try_app_id_at(s: &str, i: usize) -> (r: Option<String>)
    requires
        i <= s@.len(),
    ensures
        r matches Some(u) ==> app_id_capture(s@, i as int) == Some(u@),
        r is None ==> app_id_capture(s@, i as int) is None,
{
    let n = s.unicode_len();
    if !str_match_at(s, i, "production:{api:{appId:\"") {
        return None;
    }
    let a = i + "production:{api:{appId:\"".unicode_len();
    if n - a < 10 {
        return None;
    }
    let mut k: usize = 0;
    while k < 9
        invariant
            k <= 9,
            i + ("production:{api:{appId:\"")@.len() == a,
            match_at(s@, i as int, ("production:{api:{appId:\"")@),
            a + 10 <= n == s@.len(),
            forall|j: int| 0 <= j < k ==> #[trigger] is_digit_char(s@[a + j]),
        decreases 9 - k,
    {
        let c = s.get_char(a + k);
        if !('0' <= c && c <= '9') {
            assert(app_id_capture(s@, i as int) is None) by {
                assert(!is_digit_char(s@[a + k]));
            }
            return None;
        }
        k = k + 1;
    }
    if s.get_char(a + 9) != '"' {
        return None;
    }
    Some(s.substring_char(a, a + 9).to_owned())
}

/// Extract the application id: a nine-digit literal following the fixed
/// structural marker `production:{api:{appId:"` in the bundle text.
pub fn extract_app_id(bundle: &str) -> (r: Result<String, ApiError>)
    ensures
        r is Ok <==> first_app_id(bundle@, 0) is Some,
        r matches Ok(u) ==> first_app_id(bundle@, 0) == Some(u@),
        r matches Err(e) ==> e matches ApiError::BundleExtractionError(m) && m@ == (
        "App ID not found")@,
{
    let n = bundle.unicode_len();
    let mut i: usize = 0;
    while i < n
        invariant
            i <= n == bundle@.len(),
            first_app_id(bundle@, 0) == first_app_id(bundle@, i as int),
        decreases n - i,
    {
        match try_app_id_at(bundle, i) {
            Some(u) => {
                return Ok(u);
            },
            None => {
                i = i + 1;
            },
        }
    }
    Err(ApiError::BundleExtractionError(String::from_str("App ID not found")))
}

/// What the base64 crate's standard-alphabet decoder returns for a given
/// text: `Some` decoded bytes, or `None` for text it rejects.
pub uninterp spec fn b64_decode_of(s: Seq<char>) -> Option<Seq<u8>>;

/// Relies on the base64 crate's `STANDARD` engine: `decode` rejects or
/// decodes a text as a function of that text alone (fixed alphabet,
/// canonical padding).
#[verifier::external_body]
fn b64_decode(s: &str) -> (r: Option<Vec<u8>>)
    ensures
        r matches Some(v) ==> b64_decode_of(s@) == Some(v@),
        r is None ==> b64_decode_of(s@) is None,
{
    match base64::Engine::decode(&base64::engine::general_purpose::STANDARD, s) {
        Ok(v) => Some(v),
        Err(_) => None,
    }
}

/// Relies on `String::from_utf8` of std: it succeeds exactly on valid
/// UTF-8 input and yields its decoding.
#[verifier::external_body]
fn utf8_to_string(bytes: Vec<u8>) -> (r: Option<String>)
    ensures
        r matches Some(t) ==> valid_utf8(bytes@) && t@ == decode_utf8(bytes@),
        r is None ==> !valid_utf8(bytes@),
{
    String::from_utf8(bytes).ok()
}

/// The view of a list of `(timezone, seed)` pairs.
pub open spec fn pairs_view(v: Seq<(String, String)>) -> Seq<(Seq<char>, Seq<char>)> {
    Seq::new(v.len(), |k: int| (v[k].0@, v[k].1@))
}

/// The view of a list of secrets.
pub open spec fn secrets_view(v: Seq<String>) -> Seq<Seq<char>> {
    Seq::new(v.len(), |k: int| v[k]@)
}

/// A per-locale seeding call
/// `<letter>.initialSeed("<seed>",window.utimezone.<timezone>)`
/// starting at `i`: its `(timezone, seed, end)`.
pub open spec fn seed_match_at(s: Seq<char>, i: int) -> Option<(Seq<char>, Seq<char>, int)> {
    if !(0 <= i < s.len() && is_lower_char(s[i])) {
        None
    } else if !match_at(s, i + 1, (".initialSeed(\"")@) {
        None
    } else {
        let a = i + 1 + (".initialSeed(\"")@.len();
        let b = word_eq_end(s, a);
        if b == a || !match_at(s, b, ("\",window.utimezone.")@) {
            None
        } else {
            let c = b + ("\",window.utimezone.")@.len();
            let d = lower_end(s, c);
            if d == c || !(d < s.len() && s[d] == ')') {
                None
            } else {
                Some((s.subrange(c, d), s.subrange(a, b), d + 1))
            }
        }
    }
}

/// All `(timezone, seed)` pairs found scanning left to right from `i`,
/// non-overlapping, in match order.
pub open spec fn seed_pairs(s: Seq<char>, i: int) -> Seq<(Seq<char>, Seq<char>)>
    decreases s.len() - i,
{
    if !(0 <= i < s.len()) {
        Seq::empty()
    } else {
        match seed_match_at(s, i) {
            None => seed_pairs(s, i + 1),
            Some(m) => {
                let next = if i < m.2 <= s.len() {
                    m.2
                } else {
                    i + 1
                };
                seq![(m.0, m.1)] + seed_pairs(s, next)
            },
        }
    }
}

/// The seed of the last pair carrying `tz`: later seeding calls for a
/// timezone overwrite earlier ones.
pub open spec fn last_seed(pairs: Seq<(Seq<char>, Seq<char>)>, tz: Seq<char>) -> Option<Seq<char>>
    decreases pairs.len(),
{
    if pairs.len() == 0 {
        None
    } else if pairs.last().0 == tz {
        Some(pairs.last().1)
    } else {
        last_seed(pairs.drop_last(), tz)
    }
}

/// A `"<timezone>":{info:"<info>",extras:"<extras>"` fragment starting at
/// `i`: its `(timezone, info, extras, end)`.
pub open spec fn triple_match_at(s: Seq<char>, i: int) -> Option<
    (Seq<char>, Seq<char>, Seq<char>, int),
> {
    if !(0 <= i < s.len() && s[i] == '"') {
        None
    } else {
        let t0 = i + 1;
        let t1 = lower_end(s, t0);
        if t1 == t0 || !match_at(s, t1, ("\":{info:\"")@) {
            None
        } else {
            let a = t1 + ("\":{info:\"")@.len();
            let b = word_eq_end(s, a);
            if b == a || !match_at(s, b, ("\",extras:\"")@) {
                None
            } else {
                let c = b + ("\",extras:\"")@.len();
                let d = word_eq_end(s, c);
                if d == c || !(d < s.len() && s[d] == '"') {
                    None
                } else {
                    Some((s.subrange(t0, t1), s.subrange(a, b), s.subrange(c, d), d + 1))
                }
            }
        }
    }
}

/// The candidate secret a triple yields: concatenate the timezone's last
/// seed with `info` and `extras`, strip the trailing 44 characters,
/// base64-decode the remainder, and read the bytes as UTF-8; `None` when
/// any step fails.
pub open spec fn triple_secret(
    pairs: Seq<(Seq<char>, Seq<char>)>,
    tz: Seq<char>,
    info: Seq<char>,
    extras: Seq<char>,
) -> Option<Seq<char>> {
    match last_seed(pairs, tz) {
        None => None,
        Some(seed) => {
            let combined = seed + info + extras;
            if combined.len() > 44 {
                match b64_decode_of(combined.subrange(0, combined.len() - 44)) {
                    None => None,
                    Some(bytes) => if valid_utf8(bytes) {
                        Some(decode_utf8(bytes))
                    } else {
                        None
                    },
                }
            } else {
                None
            }
        },
    }
}

/// The secrets the layered extraction derives from triples at or after
/// `i`, in match order, skipping triples whose derivation fails.
pub open spec fn complex_secrets_from(s: Seq<char>, i: int) -> Seq<Seq<char>>
    decreases s.len() - i,
{
    if !(0 <= i < s.len()) {
        Seq::empty()
    } else {
        match triple_match_at(s, i) {
            None => complex_secrets_from(s, i + 1),
            Some(m) => {
                let next = if i < m.3 <= s.len() {
                    m.3
                } else {
                    i + 1
                };
                let rest = complex_secrets_from(s, next);
                match triple_secret(seed_pairs(s, 0), m.0, m.1, m.2) {
                    None => rest,
                    Some(sec) => seq![sec] + rest,
                }
            },
        }
    }
}

/// A directly embedded `appSecret:"<32 lower-hex digits>"` literal
/// starting at `i`: its `(secret, end)`.
pub open spec fn simple_match_at(s: Seq<char>, i: int) -> Option<(Seq<char>, int)> {
    if !match_at(s, i, ("appSecret:\"")@) {
        None
    } else {
        let a = i + ("appSecret:\"")@.len();
        let b = hex_end(s, a);
        if b == a + 32 && b < s.len() && s[b] == '"' {
            Some((s.subrange(a, b), b + 1))
        } else {
            None
        }
    }
}

/// All directly embedded hex secrets at or after `i`, in match order.
pub open spec fn simple_secrets_from(s: Seq<char>, i: int) -> Seq<Seq<char>>
    decreases s.len() - i,
{
    if !(0 <= i < s.len()) {
        Seq::empty()
    } else {
        match simple_match_at(s, i) {
            None => simple_secrets_from(s, i + 1),
            Some(m) => {
                let next = if i < m.1 <= s.len() {
                    m.1
                } else {
                    i + 1
                };
                seq![m.0] + simple_secrets_from(s, next)
            },
        }
    }
}

/// What secret extraction yields for a bundle text: the layered
/// derivation from seed/info/extras fragments, or, when that yields
/// nothing, the directly embedded hex literals.
pub open spec fn extracted_secrets(s: Seq<char>) -> Seq<Seq<char>> {
    if complex_secrets_from(s, 0).len() > 0 {
        complex_secrets_from(s, 0)
    } else {
        simple_secrets_from(s, 0)
    }
}

proof fn lemma_complex_empty_without_matches(s: Seq<char>, i: int)
    requires
        forall|j: int| triple_match_at(s, j) is None,
        0 <= i,
    ensures
        complex_secrets_from(s, i).len() == 0,
    decreases s.len() - i,
{
    if i < s.len() {
        lemma_complex_empty_without_matches(s, i + 1);
    }
}

proof fn lemma_simple_empty_without_matches(s: Seq<char>, i: int)
    requires
        forall|j: int| simple_match_at(s, j) is None,
        0 <= i,
    ensures
        simple_secrets_from(s, i).len() == 0,
    decreases s.len() - i,
{
    if i < s.len() {
        lemma_simple_empty_without_matches(s, i + 1);
    }
}

/// A text in which no seed/info/extras fragment and no directly embedded
/// hex literal matches anywhere yields no secrets at all, so the
/// top-level extraction fails on it.
pub proof fn lemma_no_patterns_no_secrets(s: Seq<char>)
    requires
        forall|j: int| triple_match_at(s, j) is None,
        forall|j: int| simple_match_at(s, j) is None,
    ensures
        extracted_secrets(s).len() == 0,
{
    lemma_complex_empty_without_matches(s, 0);
    lemma_simple_empty_without_matches(s, 0);
}

fn try_seed_at(s: &str, i: usize) -> (r: Option<(String, String, usize)>)
    requires
        i <= s@.len(),
    ensures
        r matches Some(m) ==> seed_match_at(s@, i as int) == Some((m.0@, m.1@, m.2 as int)) && i
            < m.2 <= s@.len(),
        r is None ==> seed_match_at(s@, i as int) is None,
{
    let n = s.unicode_len();
    if i >= n {
        return None;
    }
    let c0 = s.get_char(i);
    if !('a' <= c0 && c0 <= 'z') {
        return None;
    }
    if !str_match_at(s, i + 1, ".initialSeed(\"") {
        return None;
    }
    let a = i + 1 + ".initialSeed(\"".unicode_len();
    let b = scan_word_eq(s, a);
    if b == a {
        return None;
    }
    if !str_match_at(s, b, "\",window.utimezone.") {
        return None;
    }
    let c = b + "\",window.utimezone.".unicode_len();
    let d = scan_lower(s, c);
    if d == c {
        return None;
    }
    if d >= n {
        return None;
    }
    if s.get_char(d) != ')' {
        return None;
    }
    Some((s.substring_char(c, d).to_owned(), s.substring_char(a, b).to_owned(), d + 1))
}

fn try_triple_at(s: &str, i: usize) -> (r: Option<(String, String, String, usize)>)
    requires
        i <= s@.len(),
    ensures
        r matches Some(m) ==> triple_match_at(s@, i as int) == Some(
            (m.0@, m.1@, m.2@, m.3 as int),
        ) && i < m.3 <= s@.len(),
        r is None ==> triple_match_at(s@, i as int) is None,
{
    let n = s.unicode_len();
    if i >= n {
        return None;
    }
    if s.get_char(i) != '"' {
        return None;
    }
    let t0 = i + 1;
    let t1 = scan_lower(s, t0);
    if t1 == t0 {
        return None;
    }
    if !str_match_at(s, t1, "\":{info:\"") {
        return None;
    }
    let a = t1 + "\":{info:\"".unicode_len();
    let b = scan_word_eq(s, a);
    if b == a {
        return None;
    }
    if !str_match_at(s, b, "\",extras:\"") {
        return None;
    }
    let c = b + "\",extras:\"".unicode_len();
    let d = scan_word_eq(s, c);
    if d == c {
        return None;
    }
    if d >= n {
        return None;
    }
    if s.get_char(d) != '"' {
        return None;
    }
    Some(
        (
            s.substring_char(t0, t1).to_owned(),
            s.substring_char(a, b).to_owned(),
            s.substring_char(c, d).to_owned(),
            d + 1,
        ),
    )
}

fn try_simple_at(s: &str, i: usize) -> (r: Option<(String, usize)>)
    requires
        i <= s@.len(),
    ensures
        r matches Some(m) ==> simple_match_at(s@, i as int) == Some((m.0@, m.1 as int)) && i < m.1
            <= s@.len(),
        r is None ==> simple_match_at(s@, i as int) is None,
{
    let n = s.unicode_len();
    if !str_match_at(s, i, "appSecret:\"") {
        return None;
    }
    let a = i + "appSecret:\"".unicode_len();
    let b = scan_hex(s, a);
    if !(b - a == 32) {
        return None;
    }
    if b >= n {
        return None;
    }
    if s.get_char(b) != '"' {
        return None;
    }
    Some((s.substring_char(a, b).to_owned(), b + 1))
}

fn find_seed_pairs(s: &str) -> (r: Vec<(String, String)>)
    ensures
        pairs_view(r@) == seed_pairs(s@, 0),
{
    let n = s.unicode_len();
    let mut acc: Vec<(String, String)> = Vec::new();
    let mut i: usize = 0;
    while i < n
        invariant
            i <= n == s@.len(),
            seed_pairs(s@, 0) =~= pairs_view(acc@) + seed_pairs(s@, i as int),
        decreases n - i,
    {
        match try_seed_at(s, i) {
            Some(m) => {
                let ghost prev = acc@;
                let (tz, seed, end) = m;
                let ghost pair = (tz@, seed@);
                acc.push((tz, seed));
                proof {
                    assert(pairs_view(acc@) =~= pairs_view(prev).push(pair));
                    assert(pairs_view(prev) + (seq![pair] + seed_pairs(s@, end as int))
                        =~= pairs_view(prev).push(pair) + seed_pairs(s@, end as int));
                }
                i = end;
            },
            None => {
                i = i + 1;
            },
        }
    }
    proof {
        assert(seed_pairs(s@, i as int) =~= Seq::<(Seq<char>, Seq<char>)>::empty());
        assert(pairs_view(acc@) + Seq::<(Seq<char>, Seq<char>)>::empty() =~= pairs_view(acc@));
    }
    acc
}

fn lookup_last_seed(pairs: &Vec<(String, String)>, tz: &String) -> (r: Option<String>)
    ensures
        r matches Some(seed) ==> last_seed(pairs_view(pairs@), tz@) == Some(seed@),
        r is None ==> last_seed(pairs_view(pairs@), tz@) is None,
{
    let ghost pv = pairs_view(pairs@);
    let mut k: usize = pairs.len();
    proof {
        assert(pv.take(k as int) =~= pv);
    }
    while k > 0
        invariant
            k <= pairs.len(),
            pv == pairs_view(pairs@),
            last_seed(pv, tz@) == last_seed(pv.take(k as int), tz@),
        decreases k,
    {
        k = k - 1;
        if pairs[k].0 == *tz {
            proof {
                assert(pv.take(k as int + 1).last() == pv[k as int]);
                assert(pv[k as int].0 == tz@);
            }
            return Some(pairs[k].1.clone());
        }
        proof {
            assert(pv.take(k as int + 1).last() == pv[k as int]);
            assert(pv.take(k as int + 1).drop_last() =~= pv.take(k as int));
        }
    }
    proof {
        assert(pv.take(0) =~= Seq::<(Seq<char>, Seq<char>)>::empty());
    }
    None
}

fn secret_from_triple(
    pairs: &Vec<(String, String)>,
    tz: &String,
    info: &String,
    extras: &String,
) -> (r: Option<String>)
    ensures
        r matches Some(sec) ==> triple_secret(pairs_view(pairs@), tz@, info@, extras@) == Some(
            sec@,
        ),
        r is None ==> triple_secret(pairs_view(pairs@), tz@, info@, extras@) is None,
{
    let seed = match lookup_last_seed(pairs, tz) {
        Some(seed) => seed,
        None => {
            return None;
        },
    };
    let combined = seed.concat(info.as_str()).concat(extras.as_str());
    let clen = combined.as_str().unicode_len();
    if clen <= 44 {
        return None;
    }
    let trimmed = combined.as_str().substring_char(0, clen - 44);
    let bytes = match b64_decode(trimmed) {
        Some(b) => b,
        None => {
            return None;
        },
    };
    utf8_to_string(bytes)
}

fn collect_complex_secrets(s: &str, pairs: &Vec<(String, String)>) -> (r: Vec<String>)
    requires
        pairs_view(pairs@) == seed_pairs(s@, 0),
    ensures
        secrets_view(r@) == complex_secrets_from(s@, 0),
{
    let n = s.unicode_len();
    let mut acc: Vec<String> = Vec::new();
    let mut i: usize = 0;
    while i < n
        invariant
            i <= n == s@.len(),
            pairs_view(pairs@) == seed_pairs(s@, 0),
            complex_secrets_from(s@, 0) =~= secrets_view(acc@) + complex_secrets_from(
                s@,
                i as int,
            ),
        decreases n - i,
    {
        match try_triple_at(s, i) {
            Some(m) => {
                let (tz, info, extras, end) = m;
                match secret_from_triple(pairs, &tz, &info, &extras) {
                    Some(sec) => {
                        let ghost prev = acc@;
                        let ghost secv = sec@;
                        acc.push(sec);
                        proof {
                            assert(secrets_view(acc@) =~= secrets_view(prev).push(secv));
                            assert(secrets_view(prev) + (seq![secv] + complex_secrets_from(
                                s@,
                                end as int,
                            )) =~= secrets_view(prev).push(secv) + complex_secrets_from(
                                s@,
                                end as int,
                            ));
                        }
                    },
                    None => {
                    },
                }
                i = end;
            },
            None => {
                i = i + 1;
            },
        }
    }
    proof {
        assert(complex_secrets_from(s@, i as int) =~= Seq::<Seq<char>>::empty());
        assert(secrets_view(acc@) + Seq::<Seq<char>>::empty() =~= secrets_view(acc@));
    }
    acc
}

fn collect_simple_secrets(s: &str) -> (r: Vec<String>)
    ensures
        secrets_view(r@) == simple_secrets_from(s@, 0),
{
    let n = s.unicode_len();
    let mut acc: Vec<String> = Vec::new();
    let mut i: usize = 0;
    while i < n
        invariant
            i <= n == s@.len(),
            simple_secrets_from(s@, 0) =~= secrets_view(acc@) + simple_secrets_from(s@, i as int),
        decreases n - i,
    {
        match try_simple_at(s, i) {
            Some(m) => {
                let (sec, end) = m;
                let ghost prev = acc@;
                let ghost secv = sec@;
                acc.push(sec);
                proof {
                    assert(secrets_view(acc@) =~= secrets_view(prev).push(secv));
                    assert(secrets_view(prev) + (seq![secv] + simple_secrets_from(s@, end as int))
                        =~= secrets_view(prev).push(secv) + simple_secrets_from(s@, end as int));
                }
                i = end;
            },
            None => {
                i = i + 1;
            },
        }
    }
    proof {
        assert(simple_secrets_from(s@, i as int) =~= Seq::<Seq<char>>::empty());
        assert(secrets_view(acc@) + Seq::<Seq<char>>::empty() =~= secrets_view(acc@));
    }
    acc
}

/// Extract candidate secrets from the bundle text.
///
/// First derives secrets from obfuscated seed/info/extras fragments per
/// locale; when that yields none, falls back to directly embedded
/// 32-hex-digit literals.  Order of discovery is preserved; the list may
/// be empty.
pub fn extract_secrets(bundle: &str) -> (r: Vec<String>)
    ensures
        secrets_view(r@) == extracted_secrets(bundle@),
{
    let pairs = find_seed_pairs(bundle);
    let complex = collect_complex_secrets(bundle, &pairs);
    if complex.len() > 0 {
        complex
    } else {
        proof {
            assert(secrets_view(complex@).len() == 0);
        }
        collect_simple_secrets(bundle)
    }
}

/// Extract application id and secrets from a fetched bundle text and
/// assemble them, failing with a `BundleExtractionError` when the app id
/// is absent or no secret can be derived.
pub fn extract_bundle_tokens(bundle: &str) -> (r: Result<BundleTokens, ApiError>)
    ensures
        r is Ok <==> first_app_id(bundle@, 0) is Some && extracted_secrets(bundle@).len() > 0,
        r matches Ok(t) ==> first_app_id(bundle@, 0) == Some(t.app_id@) && secrets_view(t.secrets@)
            == extracted_secrets(bundle@) && t.secrets.len() > 0,
        r matches Err(e) ==> e is BundleExtractionError,
        first_app_id(bundle@, 0) is None ==> (r matches Err(e) && e matches
            ApiError::BundleExtractionError(m) && m@ == ("App ID not found")@),
        first_app_id(bundle@, 0) is Some && extracted_secrets(bundle@).len() == 0 ==> (r matches
            Err(e) && e matches ApiError::BundleExtractionError(m) && m@ == (
        "No secrets found in bundle")@),
{
    let app_id = match extract_app_id(bundle) {
        Ok(a) => a,
        Err(e) => {
            return Err(e);
        },
    };
    let secrets = extract_secrets(bundle);
    if secrets.len() == 0 {
        proof {
            assert(secrets_view(secrets@).len() == 0);
        }
        return Err(ApiError::BundleExtractionError(String::from_str("No secrets found in bundle")));
    }
    proof {
        assert(secrets_view(secrets@).len() > 0);
    }
    Ok(BundleTokens { app_id, secrets })
}

} // verus!
