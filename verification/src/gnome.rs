//! The GNOME backend's logic: Window Calls records, query matching, the
//! window records it yields, and window ids.

use vstd::prelude::*;
use vstd::string::StringExecFns;

use crate::backend::{WindowInfo, WindowView};
use crate::error::WasError;
use crate::text::{
    char_vecs_view, chars_of, contains_chars, contains_seq, decimal, decimal_string, is_white_space,
    lemma_parse_decimal, lemma_tokens_split, lemma_whitespace_only_has_no_tokens, lowercase, parse_u32, parse_u32_chars,
    split_whitespace_chars, to_lowercase, whitespace_tokens,
};

verus! {

/// One window as the Window Calls extension lists it. Title and class may be
/// null (`None`); the workspace is 0-based, -1 for sticky windows, and may
/// be missing.
#[derive(Debug, Clone, PartialEq, Eq)]
pub struct GnomeWindow {
    pub id: u32,
    pub title: Option<String>,
    pub wm_class: Option<String>,
    pub workspace: Option<i32>,
}

/// The text of an optional field, empty when absent.
pub open spec fn opt_text(o: Option<String>) -> Seq<char> {
    match o {
        Some(s) => s@,
        None => Seq::empty(),
    }
}

/// Every token occurs in the title or in the class.
pub open spec fn all_tokens_match(title: Seq<char>, wm_class: Seq<char>, tokens: Seq<Seq<char>>) -> bool {
    forall|i: int|
        0 <= i < tokens.len() ==> contains_seq(title, #[trigger] tokens[i]) || contains_seq(
            wm_class,
            tokens[i],
        )
}

/// Whether window `w` matches `query`: every whitespace-separated token of
/// the lowercased query occurs in the lowercased title or the lowercased
/// class (a null field counts as empty).
pub open spec fn window_matches(w: GnomeWindow, query: Seq<char>) -> bool {
    all_tokens_match(
        lowercase(opt_text(w.title)),
        lowercase(opt_text(w.wm_class)),
        whitespace_tokens(lowercase(query)),
    )
}

fn opt_str(o: &Option<String>) -> (s: &str)
    ensures
        s@ == opt_text(*o),
{
    match o {
        Some(t) => t.as_str(),
        None => {
            let e = "";
            proof {
                reveal_strlit("");
            }
            e
        },
    }
}

/// Whether every token of `tokens` occurs in `title` or in `wm_class`.
fn fields_match_tokens(title: &str, wm_class: &str, tokens: &Vec<Vec<char>>) -> (b: bool)
    ensures
        b == all_tokens_match(title@, wm_class@, char_vecs_view(tokens@)),
{
    let title_chars = chars_of(title);
    let class_chars = chars_of(wm_class);
    let ghost toks = char_vecs_view(tokens@);
    for i in 0..tokens.len()
        invariant
            toks == char_vecs_view(tokens@),
            title_chars@ == title@,
            class_chars@ == wm_class@,
            forall|j: int|
                0 <= j < i ==> contains_seq(title@, #[trigger] toks[j]) || contains_seq(
                    wm_class@,
                    toks[j],
                ),
    {
        assert(toks[i as int] == tokens@[i as int]@);
        if !(contains_chars(&title_chars, &tokens[i]) || contains_chars(&class_chars, &tokens[i])) {
            return false;
        }
    }
    true
}

/// Whether every whitespace-separated token of `query` occurs in `title` or
/// in `wm_class`, all three already lowercased. An empty query matches.
pub fn lowered_fields_match(title: &str, wm_class: &str, query: &str) -> (b: bool)
    ensures
        b == all_tokens_match(title@, wm_class@, whitespace_tokens(query@)),
{
    let chars = chars_of(query);
    let tokens = split_whitespace_chars(&chars);
    fields_match_tokens(title, wm_class, &tokens)
}

/// Whether window `w` matches `query`: every whitespace-separated query
/// token occurs, ignoring case, in the title or in the class. An empty
/// query, or one of whitespace only, matches every window.
pub fn matches_query(w: &GnomeWindow, query: &str) -> (b: bool)
    ensures
        b == window_matches(*w, query@),
        (forall|i: int| 0 <= i < query@.len() ==> is_white_space(#[trigger] query@[i])) ==> b,
{
    let title = to_lowercase(opt_str(&w.title));
    let wm_class = to_lowercase(opt_str(&w.wm_class));
    let lowered_query = to_lowercase(query);
    proof {
        if forall|i: int| 0 <= i < query@.len() ==> is_white_space(#[trigger] query@[i]) {
            lemma_whitespace_only_has_no_tokens(lowered_query@);
        }
    }
    lowered_fields_match(title.as_str(), wm_class.as_str(), lowered_query.as_str())
}

/// The subtext for a window on `workspace`: the workspace shown 1-based,
/// or the generic text for sticky windows (-1) and missing workspaces.
pub open spec fn workspace_subtext(workspace: Option<i32>) -> Seq<char> {
    match workspace {
        Some(n) => if n >= 0 {
            "Activate running window on workspace "@ + decimal((n + 1) as nat)
        } else {
            "Activate running window"@
        },
        None => "Activate running window"@,
    }
}

/// The window record for a Window Calls window.
pub open spec fn gnome_window_view(w: GnomeWindow) -> WindowView {
    WindowView {
        id: decimal(w.id as nat),
        title: opt_text(w.title),
        icon: Seq::empty(),
        subtext: workspace_subtext(w.workspace),
    }
}

/// Turns a Window Calls window into a window record: the id in decimal,
/// the title (empty when null), no icon, and the workspace subtext.
pub fn window_info_from_gnome_window(w: GnomeWindow) -> (info: WindowInfo)
    ensures
        info@ == gnome_window_view(w),
        info.id@ == decimal(w.id as nat),
        info.title@ == opt_text(w.title),
        info.icon@.len() == 0,
        w.workspace matches Some(n) ==> (n >= 0 ==> info.subtext@
            == "Activate running window on workspace "@ + decimal((n + 1) as nat)),
        w.workspace matches Some(n) ==> (n < 0 ==> info.subtext@ == "Activate running window"@),
        w.workspace is None ==> info.subtext@ == "Activate running window"@,
{
    let id = decimal_string(w.id as u64);
    let subtext = match w.workspace {
        Some(n) => if n >= 0 {
            let mut t = String::from_str("Activate running window on workspace ");
            let number = decimal_string(n as u64 + 1);
            t.append(number.as_str());
            t
        } else {
            String::from_str("Activate running window")
        },
        None => String::from_str("Activate running window"),
    };
    let title = match w.title {
        Some(t) => t,
        None => String::new(),
    };
    WindowInfo { id, title, icon: String::new(), subtext }
}

/// Reads a window id as the number the Window Calls extension expects:
/// decimal digits after an optional '+', within `u32` range; anything else
/// is an invalid id, reported with the id.
pub fn parse_window_id(id: &str) -> (r: Result<u32, WasError>)
    ensures
        match parse_u32(id@) {
            Some(v) => r == Ok::<u32, WasError>(v),
            None => r matches Err(WasError::InvalidWindowId { id: x }) && x@ == id@,
        },
{
    let chars = chars_of(id);
    match parse_u32_chars(&chars) {
        Some(v) => Ok(v),
        None => Err(WasError::InvalidWindowId { id: String::from_str(id) }),
    }
}

/// Every id that the GNOME backend lists is one that it accepts back for
/// activation, as the same window number.
pub proof fn law_listed_id_parses_back(w: GnomeWindow)
    ensures
        parse_u32(gnome_window_view(w).id) == Some(w.id),
{
    lemma_parse_decimal(w.id);
}

/// A parsed Window Calls listing: the matching windows, and one warning
/// per record that could not be read.
#[derive(Debug)]
pub struct GnomeListing {
    pub windows: Vec<WindowInfo>,
    pub skipped: Vec<String>,
}

/// The window records that a listing yields for `query`: the records that
/// were read and match, in order.
pub open spec fn listed_views(records: Seq<Result<GnomeWindow, String>>, query: Seq<char>) -> Seq<WindowView>
    decreases records.len(),
{
    if records.len() == 0 {
        Seq::empty()
    } else {
        let before = listed_views(records.drop_last(), query);
        match records.last() {
            Ok(w) => if window_matches(w, query) {
                before.push(gnome_window_view(w))
            } else {
                before
            },
            Err(_) => before,
        }
    }
}

/// The window records of every record that was read, in order.
pub open spec fn readable_views(records: Seq<Result<GnomeWindow, String>>) -> Seq<WindowView>
    decreases records.len(),
{
    if records.len() == 0 {
        Seq::empty()
    } else {
        let before = readable_views(records.drop_last());
        match records.last() {
            Ok(w) => before.push(gnome_window_view(w)),
            Err(_) => before,
        }
    }
}

/// The warning for a record that could not be read.
pub open spec fn skip_warning(detail: Seq<char>) -> Seq<char> {
    "was: skipping unparseable window from Window Calls: "@ + detail
}

/// The warnings of a listing, one per unreadable record, in order.
pub open spec fn skipped_warnings(records: Seq<Result<GnomeWindow, String>>) -> Seq<Seq<char>>
    decreases records.len(),
{
    if records.len() == 0 {
        Seq::empty()
    } else {
        let before = skipped_warnings(records.drop_last());
        match records.last() {
            Ok(_) => before,
            Err(e) => before.push(skip_warning(e@)),
        }
    }
}

/// When every window matches, the listing keeps every readable record.
proof fn lemma_listed_all(records: Seq<Result<GnomeWindow, String>>, query: Seq<char>)
    requires
        forall|w: GnomeWindow| window_matches(w, query),
    ensures
        listed_views(records, query) == readable_views(records),
    decreases records.len(),
{
    if records.len() > 0 {
        lemma_listed_all(records.drop_last(), query);
    }
}

/// Selects the windows matching `query` among the Window Calls records
/// (each one read or not), and turns them into window records. Unreadable
/// records are skipped with a warning; the rest are kept in order. A query
/// without words (empty, or whitespace only) keeps every readable record.
pub fn windows_matching(records: Vec<Result<GnomeWindow, String>>, query: &str) -> (listing: GnomeListing)
    ensures
        listing.windows@.map_values(|w: WindowInfo| w@) == listed_views(records@, query@),
        listing.skipped@.map_values(|s: String| s@) == skipped_warnings(records@),
        (forall|i: int| 0 <= i < query@.len() ==> is_white_space(#[trigger] query@[i]))
            ==> listed_views(records@, query@) == readable_views(records@),
{
    let lowered_query = to_lowercase(query);
    let query_chars = chars_of(lowered_query.as_str());
    let tokens = split_whitespace_chars(&query_chars);
    proof {
        if forall|i: int| 0 <= i < query@.len() ==> is_white_space(#[trigger] query@[i]) {
            lemma_whitespace_only_has_no_tokens(lowered_query@);
        }
    }
    let ghost all = records@;
    let mut rest = records;
    let mut windows: Vec<WindowInfo> = Vec::new();
    let mut skipped: Vec<String> = Vec::new();
    let n = rest.len();
    for k in 0..n
        invariant
            n == all.len(),
            rest@ == all.skip(k as int),
            char_vecs_view(tokens@) == whitespace_tokens(lowercase(query@)),
            windows@.map_values(|w: WindowInfo| w@) == listed_views(all.take(k as int), query@),
            skipped@.map_values(|s: String| s@) == skipped_warnings(all.take(k as int)),
    {
        let ghost prev_windows = windows@.map_values(|w: WindowInfo| w@);
        let ghost prev_skipped = skipped@.map_values(|s: String| s@);
        assert(all.take(k + 1).drop_last() =~= all.take(k as int));
        let record = rest.remove(0);
        assert(record == all[k as int]);
        assert(all.take(k + 1).last() == all[k as int]);
        assert(rest@ =~= all.skip(k + 1));
        match record {
            Ok(w) => {
                let title = to_lowercase(opt_str(&w.title));
                let wm_class = to_lowercase(opt_str(&w.wm_class));
                if fields_match_tokens(title.as_str(), wm_class.as_str(), &tokens) {
                    let info = window_info_from_gnome_window(w);
                    windows.push(info);
                    assert(windows@.map_values(|w: WindowInfo| w@) =~= prev_windows.push(info@));
                }
            },
            Err(detail) => {
                let mut warning = String::from_str("was: skipping unparseable window from Window Calls: ");
                warning.append(detail.as_str());
                skipped.push(warning);
                assert(skipped@.map_values(|s: String| s@) =~= prev_skipped.push(skip_warning(detail@)));
            },
        }
    }
    assert(all.take(n as int) =~= all);
    proof {
        if forall|i: int| 0 <= i < query@.len() ==> is_white_space(#[trigger] query@[i]) {
            assert(whitespace_tokens(lowercase(query@)).len() == 0);
            assert forall|w: GnomeWindow| window_matches(w, query@) by {}
            lemma_listed_all(all, query@);
        }
    }
    GnomeListing { windows, skipped }
}

/// A window matches a query exactly when every whitespace-separated token of
/// the lowercased query occurs in its lowercased title or in its lowercased
/// class (a null field counting as empty).
pub proof fn law_window_matches_by_tokens(w: GnomeWindow, query: Seq<char>)
    ensures
        window_matches(w, query) <==> (forall|i: int|
            0 <= i < whitespace_tokens(lowercase(query)).len() ==> contains_seq(
                lowercase(opt_text(w.title)),
                #[trigger] whitespace_tokens(lowercase(query))[i],
            ) || contains_seq(lowercase(opt_text(w.wm_class)), whitespace_tokens(lowercase(query))[i])),
{
}

/// Every readable record whose lowercased title or class holds each token
/// of the lowercased query is listed, as the window record of that window.
pub proof fn law_matching_record_is_listed(
    records: Seq<Result<GnomeWindow, String>>,
    query: Seq<char>,
    i: int,
    w: GnomeWindow,
)
    requires
        0 <= i < records.len(),
        records[i] == Ok::<GnomeWindow, String>(w),
        forall|k: int|
            0 <= k < whitespace_tokens(lowercase(query)).len() ==> contains_seq(
                lowercase(opt_text(w.title)),
                #[trigger] whitespace_tokens(lowercase(query))[k],
            ) || contains_seq(lowercase(opt_text(w.wm_class)), whitespace_tokens(lowercase(query))[k]),
    ensures
        listed_views(records, query).contains(
            WindowView {
                id: decimal(w.id as nat),
                title: opt_text(w.title),
                icon: Seq::empty(),
                subtext: workspace_subtext(w.workspace),
            },
        ),
    decreases records.len(),
{
    let v = WindowView {
        id: decimal(w.id as nat),
        title: opt_text(w.title),
        icon: Seq::empty(),
        subtext: workspace_subtext(w.workspace),
    };
    let before = listed_views(records.drop_last(), query);
    if i == records.len() - 1 {
        assert(window_matches(w, query));
        assert(listed_views(records, query) == before.push(v));
        assert(listed_views(records, query)[before.len() as int] == v);
    } else {
        assert(records.drop_last()[i] == records[i]);
        law_matching_record_is_listed(records.drop_last(), query, i, w);
        let j = choose|j: int| 0 <= j < before.len() && before[j] == v;
        let after = listed_views(records, query);
        assert(after.len() >= before.len());
        assert(after[j] == before[j]);
    }
}

/// Every listed window record is the window record of a readable record,
/// at or after the position of the previous one, whose lowercased title or
/// class holds each token of the lowercased query.
pub proof fn law_listed_record_matches(records: Seq<Result<GnomeWindow, String>>, query: Seq<char>, n: int)
    requires
        0 <= n < listed_views(records, query).len(),
    ensures
        exists|i: int, w: GnomeWindow|
            0 <= i < records.len() && records[i] == Ok::<GnomeWindow, String>(w)
                && listed_views(records, query)[n] == (WindowView {
                id: decimal(w.id as nat),
                title: opt_text(w.title),
                icon: Seq::empty(),
                subtext: workspace_subtext(w.workspace),
            }) && (forall|k: int|
                0 <= k < whitespace_tokens(lowercase(query)).len() ==> contains_seq(
                    lowercase(opt_text(w.title)),
                    #[trigger] whitespace_tokens(lowercase(query))[k],
                ) || contains_seq(
                    lowercase(opt_text(w.wm_class)),
                    whitespace_tokens(lowercase(query))[k],
                )),
    decreases records.len(),
{
    let before = listed_views(records.drop_last(), query);
    if n < before.len() {
        assert(listed_views(records, query)[n] == before[n]);
        law_listed_record_matches(records.drop_last(), query, n);
        let (i, w) = choose|i: int, w: GnomeWindow|
            0 <= i < records.drop_last().len() && records.drop_last()[i] == Ok::<GnomeWindow, String>(w)
                && before[n] == (WindowView {
                id: decimal(w.id as nat),
                title: opt_text(w.title),
                icon: Seq::empty(),
                subtext: workspace_subtext(w.workspace),
            }) && (forall|k: int|
                0 <= k < whitespace_tokens(lowercase(query)).len() ==> contains_seq(
                    lowercase(opt_text(w.title)),
                    #[trigger] whitespace_tokens(lowercase(query))[k],
                ) || contains_seq(
                    lowercase(opt_text(w.wm_class)),
                    whitespace_tokens(lowercase(query))[k],
                ));
        assert(records[i] == records.drop_last()[i]);
    } else {
        let last = records.last();
        match last {
            Ok(w) => {
                assert(window_matches(w, query));
                assert(records[records.len() - 1] == Ok::<GnomeWindow, String>(w));
            },
            Err(_) => {},
        }
    }
}

/// The listing is, in record order, the window record of each readable
/// record whose lowercased title or class holds every token of the
/// lowercased query, and nothing else.
pub proof fn law_listing_is_matching_records_in_order(
    records: Seq<Result<GnomeWindow, String>>,
    query: Seq<char>,
)
    ensures
        listed_views(records, query) == records.filter_map(
            |r: Result<GnomeWindow, String>|
                match r {
                    Ok(w) => if (forall|k: int|
                        0 <= k < whitespace_tokens(lowercase(query)).len() ==> contains_seq(
                            lowercase(opt_text(w.title)),
                            #[trigger] whitespace_tokens(lowercase(query))[k],
                        ) || contains_seq(
                            lowercase(opt_text(w.wm_class)),
                            whitespace_tokens(lowercase(query))[k],
                        )) {
                        Some(
                            WindowView {
                                id: decimal(w.id as nat),
                                title: opt_text(w.title),
                                icon: Seq::empty(),
                                subtext: workspace_subtext(w.workspace),
                            },
                        )
                    } else {
                        None
                    },
                    Err(_) => None,
                },
        ),
    decreases records.len(),
{
    if records.len() > 0 {
        law_listing_is_matching_records_in_order(records.drop_last(), query);
        let before = listed_views(records.drop_last(), query);
        match records.last() {
            Ok(w) => {
                if window_matches(w, query) {
                    assert(before.push(gnome_window_view(w)) =~= before + seq![gnome_window_view(w)]);
                }
            },
            Err(_) => {},
        }
    }
}

/// The warnings of a listing are, in record order, one for each unreadable
/// record, made of the fixed prefix and that record's error text.
pub proof fn law_one_warning_per_unreadable_record(records: Seq<Result<GnomeWindow, String>>)
    ensures
        skipped_warnings(records) == records.filter_map(
            |r: Result<GnomeWindow, String>|
                match r {
                    Ok(_) => None,
                    Err(e) => Some("was: skipping unparseable window from Window Calls: "@ + e@),
                },
        ),
    decreases records.len(),
{
    if records.len() > 0 {
        law_one_warning_per_unreadable_record(records.drop_last());
        let before = skipped_warnings(records.drop_last());
        match records.last() {
            Ok(_) => {},
            Err(e) => {
                assert(before.push(skip_warning(e@)) =~= before + seq![skip_warning(e@)]);
            },
        }
    }
}

/// A query of two parts separated by whitespace matches exactly when each
/// part matches: the words of a query narrow the match independently.
pub proof fn law_words_match_independently(
    title: Seq<char>,
    wm_class: Seq<char>,
    q1: Seq<char>,
    sep: char,
    q2: Seq<char>,
)
    requires
        is_white_space(sep),
    ensures
        all_tokens_match(title, wm_class, whitespace_tokens(q1 + seq![sep] + q2)) == (all_tokens_match(
            title,
            wm_class,
            whitespace_tokens(q1),
        ) && all_tokens_match(title, wm_class, whitespace_tokens(q2))),
{
    lemma_tokens_split(q1, sep, q2, Seq::empty());
    let t1 = whitespace_tokens(q1);
    let t2 = whitespace_tokens(q2);
    let t = t1 + t2;
    if all_tokens_match(title, wm_class, t) {
        assert forall|i: int| 0 <= i < t1.len() implies contains_seq(title, #[trigger] t1[i])
            || contains_seq(wm_class, t1[i]) by {
            assert(t[i] == t1[i]);
        }
        assert forall|i: int| 0 <= i < t2.len() implies contains_seq(title, #[trigger] t2[i])
            || contains_seq(wm_class, t2[i]) by {
            assert(t[t1.len() + i] == t2[i]);
        }
    }
    if all_tokens_match(title, wm_class, t1) && all_tokens_match(title, wm_class, t2) {
        assert forall|i: int| 0 <= i < t.len() implies contains_seq(title, #[trigger] t[i])
            || contains_seq(wm_class, t[i]) by {
            if i < t1.len() {
                assert(t[i] == t1[i]);
            } else {
                assert(t[i] == t2[i - t1.len()]);
            }
        }
    }
}

/// The order of the words of a query does not matter.
pub proof fn law_word_order_irrelevant(
    title: Seq<char>,
    wm_class: Seq<char>,
    q1: Seq<char>,
    sep: char,
    q2: Seq<char>,
)
    requires
        is_white_space(sep),
    ensures
        all_tokens_match(title, wm_class, whitespace_tokens(q1 + seq![sep] + q2)) == all_tokens_match(
            title,
            wm_class,
            whitespace_tokens(q2 + seq![sep] + q1),
        ),
{
    law_words_match_independently(title, wm_class, q1, sep, q2);
    law_words_match_independently(title, wm_class, q2, sep, q1);
}

/// Whether a window matches depends only on which tokens the query has,
/// not on their order or repetition.
pub proof fn law_tokens_as_set(title: Seq<char>, wm_class: Seq<char>, t1: Seq<Seq<char>>, t2: Seq<Seq<char>>)
    requires
        t1.to_set() == t2.to_set(),
    ensures
        all_tokens_match(title, wm_class, t1) == all_tokens_match(title, wm_class, t2),
{
    if all_tokens_match(title, wm_class, t1) {
        assert forall|i: int| 0 <= i < t2.len() implies contains_seq(title, #[trigger] t2[i])
            || contains_seq(wm_class, t2[i]) by {
            assert(t2.to_set().contains(t2[i]));
            assert(t1.to_set().contains(t2[i]));
            let j = choose|j: int| 0 <= j < t1.len() && t1[j] == t2[i];
            assert(t1[j] == t2[i]);
        }
    }
    if all_tokens_match(title, wm_class, t2) {
        assert forall|i: int| 0 <= i < t1.len() implies contains_seq(title, #[trigger] t1[i])
            || contains_seq(wm_class, t1[i]) by {
            assert(t1.to_set().contains(t1[i]));
            assert(t2.to_set().contains(t1[i]));
            let j = choose|j: int| 0 <= j < t2.len() && t2[j] == t1[i];
            assert(t2[j] == t1[i]);
        }
    }
}

} // verus!
