//! Making untrusted text safe for file names, building destination
//! paths, and escaping full-text-search queries.

use vstd::prelude::*;
use crate::text::{
    char_is_control, char_is_path_special, char_is_space, chars_of, is_control_char,
    is_path_special, is_space_char, string_of, trim_chars, trimmed_ws,
};

verus! {

/// One character of a name, made safe: path separators, characters
/// refused by common filesystems, and control characters become `_`.
pub open spec fn safe_char(c: char) -> char {
    if is_path_special(c) || is_control_char(c) {
        '_'
    } else {
        c
    }
}

/// `s` with trailing dots and spaces removed.
pub open spec fn trim_back_dot_space(s: Seq<char>) -> Seq<char>
    decreases s.len(),
{
    if s.len() > 0 && (s.last() == '.' || s.last() == ' ') {
        trim_back_dot_space(s.drop_last())
    } else {
        s
    }
}

/// What sanitizing a name yields: each character made safe, the result
/// cut to one hundred characters, whitespace trimmed on both ends, and
/// trailing dots and spaces removed.
pub open spec fn sanitize_spec(s: Seq<char>) -> Seq<char> {
    let mapped = s.map_values(|c: char| safe_char(c));
    let cut = if mapped.len() <= 100 {
        mapped
    } else {
        mapped.take(100)
    };
    trim_back_dot_space(trimmed_ws(cut))
}

/// Makes a name safe for use as a file or directory name.
pub fn sanitize_filename(name: &str) -> (r: String)
    ensures
        r@ == sanitize_spec(name@),
{
    let v = chars_of(name);
    let n = v.len();
    let limit = if n <= 100 {
        n
    } else {
        100
    };
    let ghost mapped = v@.map_values(|c: char| safe_char(c));
    let ghost cut = if mapped.len() <= 100 {
        mapped
    } else {
        mapped.take(100)
    };
    let mut m: Vec<char> = Vec::new();
    let mut i: usize = 0;
    while i < limit
        invariant
            n == v@.len(),
            limit == if n <= 100 {
                n as int
            } else {
                100int
            },
            i <= limit,
            mapped == v@.map_values(|c: char| safe_char(c)),
            m@ == mapped.take(i as int),
        decreases limit - i,
    {
        let c = v[i];
        let mc = if char_is_path_special(c) || char_is_control(c) {
            '_'
        } else {
            c
        };
        proof {
            assert(mapped[i as int] == safe_char(v@[i as int]));
        }
        m.push(mc);
        proof {
            assert(m@ =~= mapped.take(i as int + 1));
        }
        i += 1;
    }
    proof {
        assert(m@ =~= cut);
    }
    let t = trim_chars(&m);
    let mut hi = t.len();
    proof {
        assert(t@.take(t@.len() as int) =~= t@);
    }
    while hi > 0 && (t[hi - 1] == '.' || t[hi - 1] == ' ')
        invariant
            hi <= t@.len(),
            trim_back_dot_space(t@) == trim_back_dot_space(t@.take(hi as int)),
        decreases hi,
    {
        proof {
            let cur = t@.take(hi as int);
            assert(cur.drop_last() =~= t@.take(hi as int - 1));
            assert(cur.last() == t@[hi as int - 1]);
        }
        hi -= 1;
    }
    proof {
        let cur = t@.take(hi as int);
        if hi > 0 {
            assert(cur.last() == t@[hi as int - 1]);
            assert(trim_back_dot_space(cur) =~= cur);
        } else {
            assert(cur =~= Seq::<char>::empty());
            assert(trim_back_dot_space(cur) =~= cur);
        }
        assert(t@.take(t@.len() as int) =~= t@);
    }
    let mut r: Vec<char> = Vec::new();
    let mut j: usize = 0;
    while j < hi
        invariant
            j <= hi <= t@.len(),
            r@ == t@.subrange(0, j as int),
        decreases hi - j,
    {
        r.push(t[j]);
        proof {
            assert(r@ =~= t@.subrange(0, j as int + 1));
        }
        j += 1;
    }
    proof {
        assert(r@ =~= t@.take(hi as int));
    }
    string_of(&r)
}

/// A character with meaning to the full-text-search engine; it is
/// replaced by a space before the query is rebuilt.
pub open spec fn is_fts_special(c: char) -> bool {
    c == '"' || c == '*' || c == '(' || c == ')' || c == ':' || c == '^' || c == '-' || c == '+'
}

/// The whitespace-separated words of `s` that follow a partial word
/// `cur` already read: scanning character by character, whitespace
/// closes the current word (empty words are dropped) and any other
/// character extends it.
pub open spec fn words_acc(s: Seq<char>, cur: Seq<char>) -> Seq<Seq<char>>
    decreases s.len(),
{
    if s.len() == 0 {
        if cur.len() > 0 {
            seq![cur]
        } else {
            Seq::empty()
        }
    } else if is_space_char(s[0]) {
        (if cur.len() > 0 {
            seq![cur]
        } else {
            Seq::<Seq<char>>::empty()
        }) + words_acc(s.drop_first(), Seq::empty())
    } else {
        words_acc(s.drop_first(), cur.push(s[0]))
    }
}

/// The whitespace-separated words of `s`, in order, without empties.
pub open spec fn words_of(s: Seq<char>) -> Seq<Seq<char>> {
    words_acc(s, Seq::empty())
}

/// Words joined with single spaces.
pub open spec fn joined(ws: Seq<Seq<char>>) -> Seq<char>
    decreases ws.len(),
{
    if ws.len() == 0 {
        Seq::empty()
    } else {
        ws[0] + tail_joined(ws.drop_first())
    }
}

/// The continuation of a join: each word preceded by one space.
pub open spec fn tail_joined(ws: Seq<Seq<char>>) -> Seq<char>
    decreases ws.len(),
{
    if ws.len() == 0 {
        Seq::empty()
    } else {
        seq![' '] + ws[0] + tail_joined(ws.drop_first())
    }
}

/// What escaping a query yields: every character with meaning to the
/// search engine replaced by a space, the remaining words each turned
/// into a prefix search by a trailing `*`, joined with single spaces.
pub open spec fn escape_fts_spec(s: Seq<char>) -> Seq<char> {
    let cleaned = s.map_values(|c: char| if is_fts_special(c) { ' ' } else { c });
    joined(words_of(cleaned).map_values(|w: Seq<char>| w.push('*')))
}

/// Collects the whitespace-separated words of `v`.
pub fn words_from(v: &Vec<char>) -> (r: Vec<Vec<char>>)
    ensures
        r@.map_values(|w: Vec<char>| w@) == words_of(v@),
{
    let n = v.len();
    let mut r: Vec<Vec<char>> = Vec::new();
    let mut cur: Vec<char> = Vec::new();
    let ghost mut done: Seq<Seq<char>> = Seq::empty();
    let mut i: usize = 0;
    proof {
        assert(v@.skip(0) =~= v@);
        assert(Seq::<Seq<char>>::empty() + words_acc(v@, cur@) =~= words_acc(v@, cur@));
    }
    while i < n
        invariant
            n == v@.len(),
            i <= n,
            done.len() == r@.len(),
            forall|k: int| 0 <= k < done.len() ==> done[k] == (#[trigger] r@[k])@,
            words_of(v@) == done + words_acc(v@.skip(i as int), cur@),
        decreases n - i,
    {
        let ghost done_pre = done;
        let ghost cur_pre = cur@;
        let ghost suf = v@.skip(i as int);
        proof {
            assert(suf[0] == v@[i as int]);
            assert(suf.drop_first() =~= v@.skip(i as int + 1));
        }
        let c = v[i];
        if char_is_space(c) {
            if cur.len() > 0 {
                r.push(cur);
                cur = Vec::new();
                proof {
                    done = done_pre.push(cur_pre);
                    assert(words_acc(suf, cur_pre) == seq![cur_pre] + words_acc(
                        v@.skip(i as int + 1),
                        Seq::empty(),
                    ));
                    assert(done_pre.push(cur_pre) + words_acc(v@.skip(i as int + 1), Seq::empty())
                        =~= done_pre + (seq![cur_pre] + words_acc(
                        v@.skip(i as int + 1),
                        Seq::empty(),
                    )));
                }
            } else {
                proof {
                    assert(cur_pre.len() == 0);
                    assert(words_acc(suf, cur_pre) == Seq::<Seq<char>>::empty() + words_acc(
                        v@.skip(i as int + 1),
                        Seq::empty(),
                    ));
                    assert(Seq::<Seq<char>>::empty() + words_acc(
                        v@.skip(i as int + 1),
                        Seq::empty(),
                    ) =~= words_acc(v@.skip(i as int + 1), Seq::empty()));
                    assert(cur_pre =~= Seq::<char>::empty());
                }
            }
        } else {
            cur.push(c);
            proof {
                assert(words_acc(suf, cur_pre) == words_acc(
                    v@.skip(i as int + 1),
                    cur_pre.push(v@[i as int]),
                ));
            }
        }
        i += 1;
    }
    proof {
        assert(v@.skip(n as int) =~= Seq::<char>::empty());
    }
    if cur.len() > 0 {
        let ghost done_pre = done;
        let ghost cur_pre = cur@;
        r.push(cur);
        proof {
            done = done_pre.push(cur_pre);
            assert(words_acc(Seq::<char>::empty(), cur_pre) =~= seq![cur_pre]);
            assert(done_pre + seq![cur_pre] =~= done_pre.push(cur_pre));
        }
    } else {
        proof {
            assert(words_acc(Seq::<char>::empty(), cur@) =~= Seq::<Seq<char>>::empty());
            assert(done + Seq::<Seq<char>>::empty() =~= done);
        }
    }
    proof {
        assert(r@.map_values(|w: Vec<char>| w@) =~= done);
    }
    r
}

/// Escapes a raw query for the full-text-search engine: special
/// characters become spaces, and each remaining word becomes a prefix
/// search (`word*`), joined with single spaces.
pub fn escape_fts_query(query: &str) -> (r: String)
    ensures
        r@ == escape_fts_spec(query@),
{
    let v = chars_of(query);
    let n = v.len();
    let ghost cleaned_s = v@.map_values(|c: char| if is_fts_special(c) { ' ' } else { c });
    let mut cleaned: Vec<char> = Vec::new();
    let mut i: usize = 0;
    while i < n
        invariant
            n == v@.len(),
            i <= n,
            cleaned_s == v@.map_values(|c: char| if is_fts_special(c) { ' ' } else { c }),
            cleaned@ == cleaned_s.take(i as int),
        decreases n - i,
    {
        let c = v[i];
        let mc = if c == '"' || c == '*' || c == '(' || c == ')' || c == ':' || c == '^' || c
            == '-' || c == '+' {
            ' '
        } else {
            c
        };
        proof {
            assert(cleaned_s[i as int] == (if is_fts_special(v@[i as int]) {
                ' '
            } else {
                v@[i as int]
            }));
        }
        cleaned.push(mc);
        proof {
            assert(cleaned@ =~= cleaned_s.take(i as int + 1));
        }
        i += 1;
    }
    proof {
        assert(cleaned@ =~= cleaned_s);
        assert(cleaned@.skip(0) =~= cleaned@);
    }
    let words = words_from(&cleaned);
    let ghost ws = words_of(cleaned_s);
    let ghost starred = ws.map_values(|w: Seq<char>| w.push('*'));
    let mut out: Vec<char> = Vec::new();
    if words.len() == 0 {
        proof {
            assert(ws =~= Seq::<Seq<char>>::empty());
            assert(starred =~= Seq::<Seq<char>>::empty());
            assert(out@ =~= joined(starred));
        }
        return string_of(&out);
    }
    let wn = words.len();
    let mut k: usize = 0;
    while k < wn
        invariant
            wn == words@.len(),
            k <= wn,
            words@.map_values(|w: Vec<char>| w@) == ws,
            starred == ws.map_values(|w: Seq<char>| w.push('*')),
            k == 0 ==> out@.len() == 0,
            k > 0 ==> joined(starred) == out@ + tail_joined(starred.skip(k as int)),
        decreases wn - k,
    {
        let ghost out_pre = out@;
        if k > 0 {
            out.push(' ');
        }
        let w = &words[k];
        let m = w.len();
        let mut t: usize = 0;
        while t < m
            invariant
                m == w@.len(),
                t <= m,
                out@ == (if k > 0 {
                    out_pre.push(' ')
                } else {
                    out_pre
                }) + w@.take(t as int),
            decreases m - t,
        {
            out.push(w[t]);
            proof {
                assert(out@ =~= (if k > 0 {
                    out_pre.push(' ')
                } else {
                    out_pre
                }) + w@.take(t as int + 1));
            }
            t += 1;
        }
        out.push('*');
        proof {
            let f = |w2: Vec<char>| w2@;
            assert(words@.map_values(f)[k as int] == w@);
            assert(starred[k as int] == w@.push('*'));
            assert(w@.take(m as int) =~= w@);
            if k == 0 {
                assert(out@ =~= starred[0]);
                assert(joined(starred) == starred[0] + tail_joined(starred.drop_first()));
                assert(starred.drop_first() =~= starred.skip(1));
                assert(joined(starred) == out@ + tail_joined(starred.skip(1)));
            } else {
                let suf = starred.skip(k as int);
                assert(suf[0] == starred[k as int]);
                assert(tail_joined(suf) == seq![' '] + suf[0] + tail_joined(suf.drop_first()));
                assert(suf.drop_first() =~= starred.skip(k as int + 1));
                assert(out@ =~= out_pre + (seq![' '] + starred[k as int]));
                assert(out_pre + (seq![' '] + starred[k as int]) + tail_joined(
                    starred.skip(k as int + 1),
                ) =~= out_pre + tail_joined(suf));
            }
        }
        k += 1;
    }
    proof {
        assert(starred.skip(wn as int) =~= Seq::<Seq<char>>::empty());
        assert(joined(starred) == out@);
    }
    string_of(&out)
}

/// The destination path of a download:
/// `{library}/{creator}/{platform}/{external_id}__{title}.mp4`, with
/// the creator, platform and title made safe for the filesystem.
pub open spec fn output_path_spec(
    library: Seq<char>,
    creator: Seq<char>,
    platform: Seq<char>,
    external_id: Seq<char>,
    title: Seq<char>,
) -> Seq<char> {
    library + "/"@ + sanitize_spec(creator) + "/"@ + sanitize_spec(platform) + "/"@ + external_id
        + "__"@ + sanitize_spec(title) + ".mp4"@
}

/// Builds the destination path of a download.
pub fn build_output_path(
    library_path: &str,
    creator_name: &str,
    platform: &str,
    external_id: &str,
    title: &str,
) -> (r: String)
    ensures
        r@ == output_path_spec(library_path@, creator_name@, platform@, external_id@, title@),
{
    let mut r = library_path.to_owned();
    r.append("/");
    let creator = sanitize_filename(creator_name);
    r.append(creator.as_str());
    r.append("/");
    let platform_part = sanitize_filename(platform);
    r.append(platform_part.as_str());
    r.append("/");
    r.append(external_id);
    r.append("__");
    let title_part = sanitize_filename(title);
    r.append(title_part.as_str());
    r.append(".mp4");
    proof {
        assert(r@ =~= output_path_spec(
            library_path@,
            creator_name@,
            platform@,
            external_id@,
            title@,
        ));
    }
    r
}

/// The destination path of a manual import:
/// `{library}/{creator}/{platform}/{title}.{extension}`, with the
/// creator, platform and title made safe for the filesystem.
pub open spec fn import_path_spec(
    library: Seq<char>,
    creator: Seq<char>,
    platform: Seq<char>,
    title: Seq<char>,
    extension: Seq<char>,
) -> Seq<char> {
    library + "/"@ + sanitize_spec(creator) + "/"@ + sanitize_spec(platform) + "/"@
        + sanitize_spec(title) + "."@ + extension
}

/// Builds the destination path of a manual import.
pub fn build_import_path(
    library_path: &str,
    creator_name: &str,
    platform: &str,
    title: &str,
    extension: &str,
) -> (r: String)
    ensures
        r@ == import_path_spec(library_path@, creator_name@, platform@, title@, extension@),
{
    let mut r = library_path.to_owned();
    r.append("/");
    let creator = sanitize_filename(creator_name);
    r.append(creator.as_str());
    r.append("/");
    let platform_part = sanitize_filename(platform);
    r.append(platform_part.as_str());
    r.append("/");
    let title_part = sanitize_filename(title);
    r.append(title_part.as_str());
    r.append(".");
    r.append(extension);
    proof {
        assert(r@ =~= import_path_spec(
            library_path@,
            creator_name@,
            platform@,
            title@,
            extension@,
        ));
    }
    r
}

} // verus!
