//! The process adapter: argument lists for the external fetch tool,
//! normalization of its newline-delimited JSON listing output, upload
//! date conversion, and classification of its error output.

use vstd::prelude::*;
use vstd::string::{StrSliceExecFns, StringExecFns};
use crate::events::CoreError;
use crate::numbers::{dec_val, digit_val, lemma_dec_val_take_le};
use crate::progress::{all_digits, digit_value_of, is_digit_char};
use crate::sanitize::{joined, tail_joined, words_from, words_of};
use crate::text::{char_is_space, chars_contain, chars_match_at, chars_of, contains_seq, is_space_char, string_of};

verus! {

/// The YouTube listing and metadata calls.
pub struct YouTubeFetcher;

/// The Patreon listing calls, which authenticate with a cookie file.
pub struct PatreonFetcher;

/// One normalized listing row: what the sync path keeps of a line of
/// the fetch tool's listing output.
#[derive(Debug)]
pub struct ListingRow {
    pub id: String,
    pub title: String,
    pub thumbnail: Option<String>,
    pub duration: Option<i64>,
    pub upload_date: Option<String>,
}

/// The fields picked out of one line of listing output, before
/// normalization.
#[derive(Debug)]
pub struct RawListingRow {
    pub id: Option<String>,
    pub title: Option<String>,
    pub thumbnail: Option<String>,
    pub first_thumbnail_url: Option<String>,
    pub duration_seconds: Option<i64>,
    pub upload_date: Option<String>,
    pub timestamp: Option<i64>,
    pub release_timestamp: Option<i64>,
    pub url_basename: Option<String>,
}

pub struct ListingRowView {
    pub id: Seq<char>,
    pub title: Seq<char>,
    pub thumbnail: Option<Seq<char>>,
    pub duration: Option<i64>,
    pub upload_date: Option<Seq<char>>,
}

impl View for ListingRow {
    type V = ListingRowView;

    open spec fn view(&self) -> ListingRowView {
        ListingRowView {
            id: self.id@,
            title: self.title@,
            thumbnail: opt_string_view(self.thumbnail),
            duration: self.duration,
            upload_date: opt_string_view(self.upload_date),
        }
    }
}

pub struct RawListingRowView {
    pub id: Option<Seq<char>>,
    pub title: Option<Seq<char>>,
    pub thumbnail: Option<Seq<char>>,
    pub first_thumbnail_url: Option<Seq<char>>,
    pub duration_seconds: Option<i64>,
    pub upload_date: Option<Seq<char>>,
    pub timestamp: Option<i64>,
    pub release_timestamp: Option<i64>,
    pub url_basename: Option<Seq<char>>,
}

impl View for RawListingRow {
    type V = RawListingRowView;

    open spec fn view(&self) -> RawListingRowView {
        RawListingRowView {
            id: opt_string_view(self.id),
            title: opt_string_view(self.title),
            thumbnail: opt_string_view(self.thumbnail),
            first_thumbnail_url: opt_string_view(self.first_thumbnail_url),
            duration_seconds: self.duration_seconds,
            upload_date: opt_string_view(self.upload_date),
            timestamp: self.timestamp,
            release_timestamp: self.release_timestamp,
            url_basename: opt_string_view(self.url_basename),
        }
    }
}

/// The view of an optional listing row.
pub open spec fn opt_row_view(o: Option<ListingRow>) -> Option<ListingRowView> {
    match o {
        Some(row) => Some(row@),
        None => None,
    }
}

/// What parsing one line of listing output picks out: `None` for a
/// line that is not valid JSON, else the raw fields of the object. A
/// function of the line alone.
pub uninterp spec fn raw_row_of(line: Seq<char>) -> Option<RawListingRowView>;

/// Relies on `serde_json::from_str` and `serde_json::Value`'s accessors
/// (`get`, `as_str`, `as_i64`, `as_f64`): parses one line as a JSON
/// object and picks out the fields the listing normalization reads.
/// `None` when the line is not valid JSON.
#[verifier::external_body]
pub fn parse_listing_line(line: &str) -> (r: Option<RawListingRow>)
    ensures
        match r {
            Some(raw) => raw_row_of(line@) == Some(raw@),
            None => raw_row_of(line@) is None,
        },
{
    let v: serde_json::Value = serde_json::from_str(line).ok()?;
    let text = |f: &str| v[f].as_str().map(str::to_string);
    Some(RawListingRow {
        id: text("id"),
        title: text("title"),
        thumbnail: text("thumbnail"),
        first_thumbnail_url: v["thumbnails"].get(0).and_then(|t| t["url"].as_str()).map(str::to_string),
        duration_seconds: v["duration"].as_f64().map(|d| d as i64),
        upload_date: text("upload_date"),
        timestamp: v["timestamp"].as_i64(),
        release_timestamp: v["release_timestamp"].as_i64(),
        url_basename: text("webpage_url_basename"),
    })
}

/// The `YYYYMMDD` digits that formatting a Unix timestamp as a UTC
/// calendar date yields; empty for a timestamp out of the calendar's
/// range. A function of the timestamp alone.
pub uninterp spec fn date_digits_of(ts: int) -> Seq<char>;

/// Relies on `chrono::DateTime::from_timestamp` and its `%Y%m%d`
/// formatting: the UTC calendar date of a Unix timestamp, as digits;
/// the result depends on the timestamp alone. Empty when the timestamp
/// is out of range.
#[verifier::external_body]
pub fn format_utc_date(ts: i64) -> (r: String)
    ensures
        r@ == date_digits_of(ts as int),
{
    match chrono::DateTime::from_timestamp(ts, 0) {
        Some(dt) => dt.format("%Y%m%d").to_string(),
        None => String::new(),
    }
}

/// The uppercase mapping of a character; a function of the character
/// alone.
pub uninterp spec fn upper_of(c: char) -> Seq<char>;

/// Relies on `char::to_uppercase`: the Unicode uppercase mapping of one
/// character, which may be several characters long and depends on the
/// character alone.
#[verifier::external_body]
pub fn upper_chars(c: char) -> (r: Vec<char>)
    ensures
        r@ == upper_of(c),
{
    c.to_uppercase().collect()
}

impl YouTubeFetcher {
    /// Converts a `YYYYMMDD` upload date to ISO 8601 midnight UTC; any
    /// input not eight characters long gives `None`.
    pub fn parse_upload_date(upload_date: &str) -> (r: Option<String>)
        ensures
            opt_string_view(r) == parse_upload_date_spec(upload_date@),
    {
        parse_upload_date_impl(upload_date)
    }
}

impl PatreonFetcher {
    /// Converts a `YYYYMMDD` upload date to ISO 8601 midnight UTC; any
    /// input not eight characters long gives `None`.
    pub fn parse_upload_date(upload_date: &str) -> (r: Option<String>)
        ensures
            opt_string_view(r) == parse_upload_date_spec(upload_date@),
    {
        parse_upload_date_impl(upload_date)
    }
}

/// What converting an upload date yields: for an eight-character
/// `YYYYMMDD` value, the ISO 8601 string
/// `YYYY-MM-DDT00:00:00Z`; `None` otherwise.
pub open spec fn parse_upload_date_spec(s: Seq<char>) -> Option<Seq<char>> {
    if s.len() == 8 {
        Some(s.take(4) + "-"@ + s.subrange(4, 6) + "-"@ + s.subrange(6, 8) + "T00:00:00Z"@)
    } else {
        None
    }
}

/// Spec-level view of an optional string result.
pub open spec fn opt_string_view(o: Option<String>) -> Option<Seq<char>> {
    match o {
        Some(s) => Some(s@),
        None => None,
    }
}

fn parse_upload_date_impl(upload_date: &str) -> (r: Option<String>)
    ensures
        opt_string_view(r) == parse_upload_date_spec(upload_date@),
{
    if upload_date.unicode_len() != 8 {
        return None;
    }
    let mut r = upload_date.substring_char(0, 4).to_owned();
    r.append("-");
    r.append(upload_date.substring_char(4, 6));
    r.append("-");
    r.append(upload_date.substring_char(6, 8));
    r.append("T00:00:00Z");
    proof {
        assert(r@ =~= parse_upload_date_spec(upload_date@)->0);
    }
    Some(r)
}

/// The upload date a YouTube listing row carries: the `upload_date`
/// field when present, else the calendar date of its timestamp (or
/// release timestamp), when that date is within range.
pub open spec fn youtube_upload_date_of(raw: RawListingRowView) -> Option<Seq<char>> {
    match raw.upload_date {
        Some(d) => Some(d),
        None => {
            let ts = if raw.timestamp is Some {
                raw.timestamp
            } else {
                raw.release_timestamp
            };
            match ts {
                Some(t) => {
                    if date_digits_of(t as int).len() > 0 {
                        Some(date_digits_of(t as int))
                    } else {
                        None
                    }
                },
                None => None,
            }
        },
    }
}

/// The thumbnail a listing row carries: the `thumbnail` field when
/// present, else the URL of its first thumbnail entry.
pub open spec fn thumbnail_of(raw: RawListingRowView) -> Option<Seq<char>> {
    match raw.thumbnail {
        Some(t) => Some(t),
        None => match raw.first_thumbnail_url {
            Some(t) => Some(t),
            None => None,
        },
    }
}

/// What normalizing one raw YouTube listing row yields: rows without
/// a non-empty id and title are dropped; the thumbnail and upload
/// date fall back as the raw row allows.
pub open spec fn normalize_youtube_spec(raw: RawListingRowView) -> Option<ListingRowView> {
    match (raw.id, raw.title) {
        (Some(id), Some(title)) => {
            if id.len() > 0 && title.len() > 0 {
                Some(
                    ListingRowView {
                        id,
                        title,
                        thumbnail: thumbnail_of(raw),
                        duration: raw.duration_seconds,
                        upload_date: youtube_upload_date_of(raw),
                    },
                )
            } else {
                None
            }
        },
        _ => None,
    }
}

/// What normalizing one raw Patreon listing row yields: rows without
/// a non-empty id are dropped, the title falls back to the
/// slug-derived form and must end up non-empty, and the upload date
/// comes from the `upload_date` field alone.
pub open spec fn normalize_patreon_spec(raw: RawListingRowView) -> Option<ListingRowView> {
    match raw.id {
        Some(id) => {
            if id.len() == 0 {
                None
            } else {
                match patreon_title_of(raw) {
                    Some(title) => {
                        if title.len() == 0 {
                            None
                        } else {
                            Some(
                                ListingRowView {
                                    id,
                                    title,
                                    thumbnail: thumbnail_of(raw),
                                    duration: raw.duration_seconds,
                                    upload_date: raw.upload_date,
                                },
                            )
                        }
                    },
                    None => None,
                }
            }
        },
        None => None,
    }
}

/// Normalizes one raw YouTube listing row, exactly as
/// [`normalize_youtube_spec`] says: a row without a non-empty id and
/// title is dropped; the thumbnail and upload date fall back as the
/// raw row allows.
pub fn normalize_youtube_row(raw: RawListingRow) -> (r: Option<ListingRow>)
    ensures
        opt_row_view(r) == normalize_youtube_spec(raw@),
{
    let id = match raw.id {
        Some(id) => id,
        None => {
            return None;
        },
    };
    let title = match raw.title {
        Some(t) => t,
        None => {
            return None;
        },
    };
    if id.as_str().unicode_len() == 0 || title.as_str().unicode_len() == 0 {
        return None;
    }
    let thumbnail = match raw.thumbnail {
        Some(t) => Some(t),
        None => raw.first_thumbnail_url,
    };
    let upload_date = match raw.upload_date {
        Some(d) => Some(d),
        None => {
            let ts = match raw.timestamp {
                Some(t) => Some(t),
                None => raw.release_timestamp,
            };
            match ts {
                Some(t) => {
                    let digits = format_utc_date(t);
                    if digits.as_str().unicode_len() > 0 {
                        Some(digits)
                    } else {
                        None
                    }
                },
                None => None,
            }
        },
    };
    Some(
        ListingRow {
            id,
            title,
            thumbnail,
            duration: raw.duration_seconds,
            upload_date,
        },
    )
}

/// Whether `s` is the decimal form of a number that fits an unsigned
/// sixty-four bit integer.
pub open spec fn is_u64_digits(s: Seq<char>) -> bool {
    s.len() > 0 && all_digits(s) && dec_val(s) <= u64::MAX
}

/// The position after the last `-` of `s`, or zero when `s` has none.
pub open spec fn after_last_dash(s: Seq<char>) -> int
    decreases s.len(),
{
    if s.len() == 0 {
        0
    } else if s.last() == '-' {
        s.len() as int
    } else {
        after_last_dash(s.drop_last())
    }
}

/// The title a Patreon post draws from its URL basename: the numeric
/// post identifier after the final dash is dropped, remaining dashes
/// become spaces, and each word is capitalized.
pub open spec fn patreon_slug_title(basename: Seq<char>) -> Seq<char> {
    let cut = after_last_dash(basename);
    let stem = if 0 < cut <= basename.len() && is_u64_digits(basename.skip(cut)) {
        basename.take(cut - 1)
    } else {
        basename
    };
    let spaced = stem.map_values(|c: char| if c == '-' { ' ' } else { c });
    joined(words_of(spaced).map_values(|w: Seq<char>| capitalized(w)))
}

/// A word with its first character uppercased.
pub open spec fn capitalized(w: Seq<char>) -> Seq<char> {
    if w.len() == 0 {
        w
    } else {
        upper_of(w[0]) + w.drop_first()
    }
}

/// Builds the slug-derived title of a Patreon post from its URL
/// basename.
pub fn patreon_slug(basename: &str) -> (r: String)
    ensures
        r@ == patreon_slug_title(basename@),
{
    let v = chars_of(basename);
    let n = v.len();
    // position after the last dash
    let mut j: usize = n;
    proof {
        assert(v@.take(n as int) =~= v@);
    }
    while j > 0 && v[j - 1] != '-'
        invariant
            n == v@.len(),
            j <= n,
            after_last_dash(v@) == after_last_dash(v@.take(j as int)),
        decreases j,
    {
        proof {
            let cur = v@.take(j as int);
            assert(cur.last() == v@[j as int - 1]);
            assert(cur.drop_last() =~= v@.take(j as int - 1));
        }
        j -= 1;
    }
    let cut = j;
    proof {
        let cur = v@.take(cut as int);
        if cut > 0 {
            assert(cur.last() == v@[cut as int - 1]);
            assert(after_last_dash(cur) == cut as int);
        } else {
            assert(cur =~= Seq::<char>::empty());
        }
        assert(after_last_dash(v@) == cut as int);
    }
    // does the suffix after the last dash parse as an unsigned number?
    let mut numeric = cut > 0 && cut < n;
    let ghost suffix = v@.skip(cut as int);
    let mut acc: u64 = 0;
    let mut k: usize = cut;
    proof {
        assert(suffix.take(0) =~= Seq::<char>::empty());
    }
    while numeric && k < n
        invariant
            n == v@.len(),
            cut <= k <= n,
            suffix == v@.skip(cut as int),
            numeric ==> acc == dec_val(suffix.take(k - cut)) && all_digits(suffix.take(k - cut)),
            !numeric ==> !is_u64_digits(suffix) || cut == 0 || cut >= n,
            cut == 0 || cut >= n ==> !numeric,
        decreases n - k, if numeric { 1int } else { 0int },
    {
        let d = digit_value_of(v[k]);
        proof {
            assert(suffix[k - cut] == v@[k as int]);
            assert(suffix.take(k - cut + 1).drop_last() =~= suffix.take(k - cut));
            assert(suffix.take(k - cut + 1).last() == suffix[k - cut]);
        }
        if d == 10 {
            proof {
                assert(!is_digit_char(suffix[k - cut]));
                assert(!all_digits(suffix));
            }
            numeric = false;
        } else if acc > u64::MAX / 10 || (acc == u64::MAX / 10 && d > u64::MAX % 10) {
            proof {
                assert(dec_val(suffix.take(k - cut)) * 10 + digit_val(suffix[k - cut]) > u64::MAX)
                    by (nonlinear_arith)
                    requires
                        acc == dec_val(suffix.take(k - cut)),
                        d == digit_val(suffix[k - cut]),
                        acc > u64::MAX / 10 || (acc == u64::MAX / 10 && d > u64::MAX % 10),
                        d <= 10,
                ;
                assert(dec_val(suffix.take(k - cut + 1)) > u64::MAX);
                lemma_dec_val_take_le(suffix, k - cut + 1);
                assert(!is_u64_digits(suffix));
            }
            numeric = false;
        } else {
            acc = acc * 10 + d;
            k += 1;
        }
    }
    proof {
        if numeric {
            assert(suffix.take(n - cut) =~= suffix);
        }
    }
    let stem_end = if numeric {
        cut - 1
    } else {
        n
    };
    let ghost stem = if 0 < cut && cut <= n && is_u64_digits(suffix) {
        v@.take(cut as int - 1)
    } else {
        v@
    };
    proof {
        if numeric {
            assert(is_u64_digits(suffix));
        } else {
            if 0 < cut && cut < n {
                assert(!is_u64_digits(suffix));
            } else if cut >= n && cut > 0 {
                assert(suffix =~= Seq::<char>::empty());
                assert(!is_u64_digits(suffix));
            }
        }
        assert(stem =~= v@.take(stem_end as int));
    }
    // dashes to spaces
    let ghost spaced = stem.map_values(|c: char| if c == '-' { ' ' } else { c });
    let mut sp: Vec<char> = Vec::new();
    let mut i: usize = 0;
    while i < stem_end
        invariant
            stem_end <= v@.len(),
            i <= stem_end,
            stem == v@.take(stem_end as int),
            spaced == stem.map_values(|c: char| if c == '-' { ' ' } else { c }),
            sp@ == spaced.take(i as int),
        decreases stem_end - i,
    {
        let c = v[i];
        let mc = if c == '-' {
            ' '
        } else {
            c
        };
        proof {
            assert(stem[i as int] == v@[i as int]);
            assert(spaced[i as int] == (if stem[i as int] == '-' {
                ' '
            } else {
                stem[i as int]
            }));
        }
        sp.push(mc);
        proof {
            assert(sp@ =~= spaced.take(i as int + 1));
        }
        i += 1;
    }
    proof {
        assert(sp@ =~= spaced);
    }
    // split into words, capitalize each, join with single spaces
    let words = words_from(&sp);
    let ghost ws = words_of(spaced);
    let ghost caps = ws.map_values(|w: Seq<char>| capitalized(w));
    let mut out: Vec<char> = Vec::new();
    if words.len() == 0 {
        proof {
            assert(ws =~= Seq::<Seq<char>>::empty());
            assert(caps =~= Seq::<Seq<char>>::empty());
            assert(out@ =~= joined(caps));
        }
        return string_of(&out);
    }
    let wn = words.len();
    let mut q: usize = 0;
    while q < wn
        invariant
            wn == words@.len(),
            q <= wn,
            words@.map_values(|w: Vec<char>| w@) == ws,
            caps == ws.map_values(|w: Seq<char>| capitalized(w)),
            q == 0 ==> out@.len() == 0,
            q > 0 ==> joined(caps) == out@ + tail_joined(caps.skip(q as int)),
        decreases wn - q,
    {
        let ghost out_pre = out@;
        if q > 0 {
            out.push(' ');
        }
        let w = &words[q];
        let ghost wv = w@;
        let ghost mid = if q > 0 {
            out_pre.push(' ')
        } else {
            out_pre
        };
        if w.len() > 0 {
            let mut ups = upper_chars(w[0]);
            let um = ups.len();
            let mut t: usize = 0;
            while t < um
                invariant
                    um == ups@.len(),
                    t <= um,
                    out@ == mid + ups@.take(t as int),
                    mid == if q > 0 {
                        out_pre.push(' ')
                    } else {
                        out_pre
                    },
                decreases um - t,
            {
                out.push(ups[t]);
                proof {
                    assert(out@ =~= mid + ups@.take(t as int + 1));
                }
                t += 1;
            }
            let m2 = w.len();
            let mut t2: usize = 1;
            proof {
                assert(ups@.take(um as int) =~= ups@);
                assert(wv.subrange(1, 1) =~= Seq::<char>::empty());
                assert(out@ =~= mid + ups@ + wv.subrange(1, 1));
            }
            while t2 < m2
                invariant
                    m2 == wv.len(),
                    1 <= t2 <= m2,
                    wv == w@,
                    out@ == mid + ups@ + wv.subrange(1, t2 as int),
                    mid == if q > 0 {
                        out_pre.push(' ')
                    } else {
                        out_pre
                    },
                decreases m2 - t2,
            {
                out.push(w[t2]);
                proof {
                    assert(out@ =~= mid + ups@ + wv.subrange(1, t2 as int + 1));
                }
                t2 += 1;
            }
            proof {
                assert(wv.subrange(1, m2 as int) =~= wv.drop_first());
                assert(capitalized(wv) == upper_of(wv[0]) + wv.drop_first());
                assert(out@ =~= mid + capitalized(wv));
            }
        } else {
            proof {
                assert(capitalized(wv) == wv);
                assert(wv =~= Seq::<char>::empty());
                assert(out@ =~= mid + capitalized(wv));
            }
        }
        proof {
            let f = |w2: Vec<char>| w2@;
            assert(words@.map_values(f)[q as int] == wv);
            assert(caps[q as int] == capitalized(wv));
            if q == 0 {
                assert(out@ =~= caps[0]);
                assert(joined(caps) == caps[0] + tail_joined(caps.drop_first()));
                assert(caps.drop_first() =~= caps.skip(1));
            } else {
                let suf = caps.skip(q as int);
                assert(suf[0] == caps[q as int]);
                assert(tail_joined(suf) == seq![' '] + suf[0] + tail_joined(suf.drop_first()));
                assert(suf.drop_first() =~= caps.skip(q as int + 1));
                assert(out@ =~= out_pre + (seq![' '] + caps[q as int]));
                assert(out_pre + (seq![' '] + caps[q as int]) + tail_joined(
                    caps.skip(q as int + 1),
                ) =~= out_pre + tail_joined(suf));
            }
        }
        q += 1;
    }
    proof {
        assert(caps.skip(wn as int) =~= Seq::<Seq<char>>::empty());
        assert(joined(caps) == out@);
    }
    string_of(&out)
}

/// The title a Patreon listing row carries: the `title` field when
/// present, else the slug-derived title from the URL basename.
pub open spec fn patreon_title_of(raw: RawListingRowView) -> Option<Seq<char>> {
    match raw.title {
        Some(t) => Some(t),
        None => match raw.url_basename {
            Some(b) => Some(patreon_slug_title(b)),
            None => None,
        },
    }
}

/// Normalizes one raw Patreon listing row, exactly as
/// [`normalize_patreon_spec`] says: a row without a non-empty id is
/// dropped; the title falls back to the slug-derived form, and a row
/// whose title stays empty is dropped; the upload date comes from the
/// `upload_date` field alone.
pub fn normalize_patreon_row(raw: RawListingRow) -> (r: Option<ListingRow>)
    ensures
        opt_row_view(r) == normalize_patreon_spec(raw@),
{
    let id = match raw.id {
        Some(id) => id,
        None => {
            return None;
        },
    };
    if id.as_str().unicode_len() == 0 {
        return None;
    }
    let title = match &raw.title {
        Some(t) => t.clone(),
        None => match &raw.url_basename {
            Some(b) => patreon_slug(b.as_str()),
            None => {
                return None;
            },
        },
    };
    if title.as_str().unicode_len() == 0 {
        return None;
    }
    let thumbnail = match raw.thumbnail {
        Some(t) => Some(t),
        None => raw.first_thumbnail_url,
    };
    Some(
        ListingRow {
            id,
            title,
            thumbnail,
            duration: raw.duration_seconds,
            upload_date: raw.upload_date,
        },
    )
}

/// An authentication failure of the fetch tool, recognized from its
/// error output: an unable-to-download or unauthorized indicator.
pub open spec fn is_auth_error(stderr: Seq<char>) -> bool {
    contains_seq(stderr, "Unable to download"@) || contains_seq(stderr, "HTTP Error 401"@)
}

/// Whether the fetch tool's error output indicates an authentication
/// failure rather than a generic failure.
pub fn stderr_is_auth_error(stderr: &str) -> (r: bool)
    ensures
        r == is_auth_error(stderr@),
{
    let v = chars_of(stderr);
    let needle1 = chars_of("Unable to download");
    if chars_contain(&v, &needle1) {
        return true;
    }
    let needle2 = chars_of("HTTP Error 401");
    chars_contain(&v, &needle2)
}

/// The watch URL of a YouTube video.
pub open spec fn youtube_watch_url_spec(external_id: Seq<char>) -> Seq<char> {
    "https://www.youtube.com/watch?v="@ + external_id
}

/// Builds the watch URL of a YouTube video.
pub fn youtube_watch_url(external_id: &str) -> (r: String)
    ensures
        r@ == youtube_watch_url_spec(external_id@),
{
    let mut r = "https://www.youtube.com/watch?v=".to_owned();
    r.append(external_id);
    r
}

/// `s` with trailing slashes removed.
pub open spec fn trim_back_slash(s: Seq<char>) -> Seq<char>
    decreases s.len(),
{
    if s.len() > 0 && s.last() == '/' {
        trim_back_slash(s.drop_last())
    } else {
        s
    }
}

/// The posts listing URL of a Patreon creator page: the URL itself
/// when it already ends in `/posts`, else the URL without trailing
/// slashes with `/posts` appended.
pub open spec fn patreon_posts_url_spec(url: Seq<char>) -> Seq<char> {
    if url.len() >= 6 && url.skip(url.len() - 6) == "/posts"@ {
        url
    } else {
        trim_back_slash(url) + "/posts"@
    }
}

/// Builds the posts listing URL of a Patreon creator page.
pub fn patreon_posts_url(creator_url: &str) -> (r: String)
    ensures
        r@ == patreon_posts_url_spec(creator_url@),
{
    let v = chars_of(creator_url);
    let n = v.len();
    let suffix = chars_of("/posts");
    proof {
        reveal_strlit("/posts");
    }
    if n >= 6 && chars_match_at(&v, n - 6, &suffix) {
        proof {
            assert(v@.subrange(n - 6, n as int) =~= v@.skip(n - 6));
        }
        return creator_url.to_owned();
    }
    proof {
        if n >= 6 {
            assert(v@.subrange(n - 6, n as int) =~= v@.skip(n - 6));
        }
        assert(v@.take(n as int) =~= v@);
    }
    let mut hi: usize = n;
    while hi > 0 && v[hi - 1] == '/'
        invariant
            n == v@.len(),
            hi <= n,
            trim_back_slash(v@) == trim_back_slash(v@.take(hi as int)),
        decreases hi,
    {
        proof {
            let cur = v@.take(hi as int);
            assert(cur.last() == v@[hi as int - 1]);
            assert(cur.drop_last() =~= v@.take(hi as int - 1));
        }
        hi -= 1;
    }
    proof {
        let cur = v@.take(hi as int);
        if hi > 0 {
            assert(cur.last() == v@[hi as int - 1]);
            assert(trim_back_slash(cur) =~= cur);
        } else {
            assert(cur =~= Seq::<char>::empty());
            assert(trim_back_slash(cur) =~= cur);
        }
    }
    let mut out: Vec<char> = Vec::new();
    let mut i: usize = 0;
    while i < hi
        invariant
            i <= hi <= v@.len(),
            out@ == v@.subrange(0, i as int),
        decreases hi - i,
    {
        out.push(v[i]);
        proof {
            assert(out@ =~= v@.subrange(0, i as int + 1));
        }
        i += 1;
    }
    proof {
        assert(out@ =~= v@.take(hi as int));
    }
    let mut r = string_of(&out);
    r.append("/posts");
    r
}

/// The arguments of an unauthenticated flat listing call.
pub fn youtube_listing_args(channel_url: &str) -> (r: Vec<String>)
    ensures
        r@.len() == 4,
        r@[0]@ == "--flat-playlist"@,
        r@[1]@ == "--dump-json"@,
        r@[2]@ == "--no-warnings"@,
        r@[3]@ == channel_url@,
{
    let mut r: Vec<String> = Vec::new();
    r.push("--flat-playlist".to_owned());
    r.push("--dump-json".to_owned());
    r.push("--no-warnings".to_owned());
    r.push(channel_url.to_owned());
    r
}

/// The arguments of a cookie-authenticated listing call, limited to
/// the fifty most recent posts, against the creator's posts URL.
pub fn patreon_listing_args(creator_url: &str, cookie_path: &str) -> (r: Vec<String>)
    ensures
        r@.len() == 8,
        r@[0]@ == "--flat-playlist"@,
        r@[1]@ == "--dump-json"@,
        r@[2]@ == "--no-warnings"@,
        r@[3]@ == "--cookies"@,
        r@[4]@ == cookie_path@,
        r@[5]@ == "--playlist-end"@,
        r@[6]@ == "50"@,
        r@[7]@ == patreon_posts_url_spec(creator_url@),
{
    let mut r: Vec<String> = Vec::new();
    r.push("--flat-playlist".to_owned());
    r.push("--dump-json".to_owned());
    r.push("--no-warnings".to_owned());
    r.push("--cookies".to_owned());
    r.push(cookie_path.to_owned());
    r.push("--playlist-end".to_owned());
    r.push("50".to_owned());
    r.push(patreon_posts_url(creator_url));
    r
}

/// The arguments of a single-video metadata call.
pub fn metadata_args(video_url: &str) -> (r: Vec<String>)
    ensures
        r@.len() == 4,
        r@[0]@ == "--dump-json"@,
        r@[1]@ == "--no-download"@,
        r@[2]@ == "--no-warnings"@,
        r@[3]@ == video_url@,
{
    let mut r: Vec<String> = Vec::new();
    r.push("--dump-json".to_owned());
    r.push("--no-download".to_owned());
    r.push("--no-warnings".to_owned());
    r.push(video_url.to_owned());
    r
}

/// The arguments of a download call: best available streams, merged to
/// the destination path, with line-buffered progress output.
pub fn download_args(output_path: &str, video_url: &str) -> (r: Vec<String>)
    ensures
        r@.len() == 7,
        r@[0]@ == "-f"@,
        r@[1]@ == "bestvideo[ext=mp4]+bestaudio[ext=m4a]/best[ext=mp4]/best"@,
        r@[2]@ == "-o"@,
        r@[3]@ == output_path@,
        r@[4]@ == "--newline"@,
        r@[5]@ == "--no-warnings"@,
        r@[6]@ == video_url@,
{
    let mut r: Vec<String> = Vec::new();
    r.push("-f".to_owned());
    r.push("bestvideo[ext=mp4]+bestaudio[ext=m4a]/best[ext=mp4]/best".to_owned());
    r.push("-o".to_owned());
    r.push(output_path.to_owned());
    r.push("--newline".to_owned());
    r.push("--no-warnings".to_owned());
    r.push(video_url.to_owned());
    r
}

/// A line with a trailing carriage return dropped.
pub open spec fn strip_cr(l: Seq<char>) -> Seq<char> {
    if l.len() > 0 && l.last() == '\r' {
        l.drop_last()
    } else {
        l
    }
}

/// A blank line: empty or whitespace only.
pub open spec fn is_blank_line(l: Seq<char>) -> bool {
    forall|m: int| 0 <= m < l.len() ==> is_space_char(#[trigger] l[m])
}

/// The rows one line of listing output contributes: none for a blank
/// or non-JSON line or a row that does not normalize, else the one
/// normalized row.
pub open spec fn rows_of_line(l: Seq<char>, youtube: bool) -> Seq<ListingRowView> {
    if is_blank_line(l) {
        Seq::empty()
    } else {
        match raw_row_of(strip_cr(l)) {
            Some(raw) => match (if youtube {
                normalize_youtube_spec(raw)
            } else {
                normalize_patreon_spec(raw)
            }) {
                Some(row) => seq![row],
                None => Seq::empty(),
            },
            None => Seq::empty(),
        }
    }
}

/// The rows of the listing output that follows a partially read line
/// `cur`: a newline closes the current line and any other character
/// extends it; the final line needs no newline.
pub open spec fn listing_rows_acc(s: Seq<char>, cur: Seq<char>, youtube: bool) -> Seq<
    ListingRowView,
>
    decreases s.len(),
{
    if s.len() == 0 {
        rows_of_line(cur, youtube)
    } else if s[0] == '\n' {
        rows_of_line(cur, youtube) + listing_rows_acc(s.drop_first(), Seq::empty(), youtube)
    } else {
        listing_rows_acc(s.drop_first(), cur.push(s[0]), youtube)
    }
}

/// What parsing a listing output yields: the normalized rows of its
/// non-blank lines, in line order.
pub open spec fn listing_rows_of(s: Seq<char>, youtube: bool) -> Seq<ListingRowView> {
    listing_rows_acc(s, Seq::empty(), youtube)
}

/// Splits the listing output into lines (dropping a trailing carriage
/// return on each), parses each non-blank line as a JSON row, and
/// keeps exactly the rows that normalize, in line order.
pub fn parse_youtube_listing(stdout: &str) -> (r: Vec<ListingRow>)
    ensures
        r@.map_values(|x: ListingRow| x@) == listing_rows_of(stdout@, true),
{
    parse_listing(stdout, true)
}

/// The Patreon form of listing parsing: rows normalize with the
/// slug-derived title fallback, and — as the authenticated platform's
/// listing should never be empty — an output that is blank throughout
/// is a tool failure, not an empty success.
pub fn parse_patreon_listing(stdout: &str) -> (r: Result<Vec<ListingRow>, CoreError>)
    ensures
        (r is Err) == is_blank_line(stdout@),
        r is Err ==> r->Err_0 == CoreError::ToolExecutionFailed,
        r is Ok ==> (r->Ok_0)@.map_values(|x: ListingRow| x@) == listing_rows_of(stdout@, false),
{
    let v = chars_of(stdout);
    if line_is_blank(&v) {
        return Err(CoreError::ToolExecutionFailed);
    }
    Ok(parse_listing(stdout, false))
}

/// Whether a line is blank (empty or whitespace only).
fn line_is_blank(line: &Vec<char>) -> (r: bool)
    ensures
        r == is_blank_line(line@),
{
    let n = line.len();
    let mut i: usize = 0;
    while i < n
        invariant
            n == line@.len(),
            i <= n,
            forall|m: int| 0 <= m < i ==> is_space_char(#[trigger] line@[m]),
        decreases n - i,
    {
        if !char_is_space(line[i]) {
            return false;
        }
        i += 1;
    }
    true
}

fn parse_listing(stdout: &str, youtube: bool) -> (r: Vec<ListingRow>)
    ensures
        r@.map_values(|x: ListingRow| x@) == listing_rows_of(stdout@, youtube),
{
    let v = chars_of(stdout);
    let n = v.len();
    let mut rows: Vec<ListingRow> = Vec::new();
    let mut line: Vec<char> = Vec::new();
    let mut i: usize = 0;
    proof {
        assert(v@.skip(0) =~= v@);
        assert(rows@.map_values(|x: ListingRow| x@) =~= Seq::<ListingRowView>::empty());
        assert(Seq::<ListingRowView>::empty() + listing_rows_acc(v@, line@, youtube)
            =~= listing_rows_acc(v@, line@, youtube));
    }
    while i < n
        invariant
            n == v@.len(),
            i <= n,
            listing_rows_of(stdout@, youtube) == rows@.map_values(|x: ListingRow| x@)
                + listing_rows_acc(v@.skip(i as int), line@, youtube),
        decreases n - i,
    {
        let ghost rows_pre = rows@;
        let ghost line_pre = line@;
        let ghost suf = v@.skip(i as int);
        proof {
            assert(suf[0] == v@[i as int]);
            assert(suf.drop_first() =~= v@.skip(i as int + 1));
        }
        let c = v[i];
        if c == '\n' {
            push_parsed_line(&mut rows, &mut line, youtube);
            proof {
                assert(line@ =~= Seq::<char>::empty());
                assert(rows_pre.map_values(|x: ListingRow| x@) + (rows_of_line(line_pre, youtube)
                    + listing_rows_acc(v@.skip(i as int + 1), line@, youtube)) =~= (rows_pre
                    .map_values(|x: ListingRow| x@) + rows_of_line(line_pre, youtube))
                    + listing_rows_acc(v@.skip(i as int + 1), line@, youtube));
            }
        } else {
            line.push(c);
            proof {
                assert(line@ == line_pre.push(v@[i as int]));
            }
        }
        i += 1;
    }
    proof {
        assert(v@.skip(n as int) =~= Seq::<char>::empty());
    }
    let ghost rows_pre = rows@;
    let ghost line_pre = line@;
    push_parsed_line(&mut rows, &mut line, youtube);
    rows
}

/// Parses one accumulated line, appending exactly the rows the line
/// contributes; the line buffer is cleared.
fn push_parsed_line(rows: &mut Vec<ListingRow>, line: &mut Vec<char>, youtube: bool)
    ensures
        final(rows)@.map_values(|x: ListingRow| x@) == old(rows)@.map_values(|x: ListingRow| x@)
            + rows_of_line(old(line)@, youtube),
        final(line)@.len() == 0,
{
    let ghost f = |x: ListingRow| x@;
    let mut owned: Vec<char> = Vec::new();
    core::mem::swap(line, &mut owned);
    if owned.len() > 0 && !line_is_blank(&owned) {
        let mut trimmed = owned;
        if trimmed.len() > 0 && trimmed[trimmed.len() - 1] == '\r' {
            trimmed.pop();
        }
        proof {
            assert(trimmed@ =~= strip_cr(old(line)@));
        }
        let text = string_of(&trimmed);
        if let Some(raw) = parse_listing_line(text.as_str()) {
            let normalized = if youtube {
                normalize_youtube_row(raw)
            } else {
                normalize_patreon_row(raw)
            };
            if let Some(row) = normalized {
                let ghost rows_pre = rows@;
                rows.push(row);
                proof {
                    assert(rows@.map_values(f) =~= rows_pre.map_values(f) + rows_of_line(
                        old(line)@,
                        youtube,
                    ));
                }
            } else {
                proof {
                    assert(rows@.map_values(f) =~= rows@.map_values(f) + rows_of_line(
                        old(line)@,
                        youtube,
                    ));
                }
            }
        } else {
            proof {
                assert(rows@.map_values(f) =~= rows@.map_values(f) + rows_of_line(
                    old(line)@,
                    youtube,
                ));
            }
        }
    } else {
        proof {
            assert(is_blank_line(old(line)@));
            assert(rows@.map_values(f) =~= rows@.map_values(f) + rows_of_line(
                old(line)@,
                youtube,
            ));
        }
    }
}

/// The row the single-item metadata call yields: a missing id falls
/// back to the requested video id, a missing title to empty, the
/// thumbnail and upload date fall back as in listing rows. `None` for
/// output that is not valid JSON.
pub open spec fn metadata_row_of(doc: Seq<char>, video_id: Seq<char>) -> Option<ListingRowView> {
    match raw_row_of(doc) {
        Some(raw) => Some(
            ListingRowView {
                id: (match raw.id {
                    Some(id) => id,
                    None => video_id,
                }),
                title: (match raw.title {
                    Some(t) => t,
                    None => Seq::empty(),
                }),
                thumbnail: thumbnail_of(raw),
                duration: raw.duration_seconds,
                upload_date: youtube_upload_date_of(raw),
            },
        ),
        None => None,
    }
}

/// Parses the single JSON document a metadata call prints into one
/// row, exactly as [`metadata_row_of`] says; its upload date,
/// duration and thumbnail are what the per-item merge records.
pub fn parse_metadata_output(stdout: &str, video_id: &str) -> (r: Option<ListingRow>)
    ensures
        opt_row_view(r) == metadata_row_of(stdout@, video_id@),
{
    let raw = match parse_listing_line(stdout) {
        Some(raw) => raw,
        None => {
            return None;
        },
    };
    let id = match raw.id {
        Some(id) => id,
        None => video_id.to_owned(),
    };
    let title = match raw.title {
        Some(t) => t,
        None => String::new(),
    };
    let thumbnail = match raw.thumbnail {
        Some(t) => Some(t),
        None => raw.first_thumbnail_url,
    };
    let upload_date = match raw.upload_date {
        Some(d) => Some(d),
        None => {
            let ts = match raw.timestamp {
                Some(t) => Some(t),
                None => raw.release_timestamp,
            };
            match ts {
                Some(t) => {
                    let digits = format_utc_date(t);
                    if digits.as_str().unicode_len() > 0 {
                        Some(digits)
                    } else {
                        None
                    }
                },
                None => None,
            }
        },
    };
    Some(
        ListingRow {
            id,
            title,
            thumbnail,
            duration: raw.duration_seconds,
            upload_date,
        },
    )
}

/// The page URL of a Patreon post.
pub open spec fn patreon_post_url_spec(external_id: Seq<char>) -> Seq<char> {
    "https://www.patreon.com/posts/"@ + external_id
}

/// Builds the page URL of a Patreon post.
pub fn patreon_post_url(external_id: &str) -> (r: String)
    ensures
        r@ == patreon_post_url_spec(external_id@),
{
    let mut r = "https://www.patreon.com/posts/".to_owned();
    r.append(external_id);
    r
}

/// The arguments of a cookie-authenticated single-post metadata call.
pub fn patreon_metadata_args(external_id: &str, cookie_path: &str) -> (r: Vec<String>)
    ensures
        r@.len() == 6,
        r@[0]@ == "--dump-json"@,
        r@[1]@ == "--no-download"@,
        r@[2]@ == "--no-warnings"@,
        r@[3]@ == "--cookies"@,
        r@[4]@ == cookie_path@,
        r@[5]@ == patreon_post_url_spec(external_id@),
{
    let mut r: Vec<String> = Vec::new();
    r.push("--dump-json".to_owned());
    r.push("--no-download".to_owned());
    r.push("--no-warnings".to_owned());
    r.push("--cookies".to_owned());
    r.push(cookie_path.to_owned());
    r.push(patreon_post_url(external_id));
    r
}

} // verus!
