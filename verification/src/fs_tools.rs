//! What the file tools report: their messages, directory listings, name
//! searches, content searches and single-match edits.
use vstd::prelude::*;
use vstd::string::*;

use crate::text::{
    string_of, trimmed, trim, lines, strip_cr, newline_index, lemma_newline_index, chars_of, owned, concat2, concat3, views, join, join_strings, sorted_model, sort_strings, lemma_sorted_model, sorted,
    decimal, decimal_string, lowercase, to_lowercase, contains_seq, contains_chars, find_from,
    is_ascii_text, eq_ignore_ascii_case, lowercases_ascii, lemma_ascii_case_variants_lowercase,
    lemma_contains_trans,
    count_occurrences, occurrences, lemma_absent_pattern_has_no_occurrence, lemma_single_occurrence,
    occurs_at,
};
use vstd::utf8::encode_utf8;

verus! {

/// The message of a finished write of `content` to `path`, counting the
/// bytes of its UTF-8 form.
pub fn write_file_message(content: &str, path: &str) -> (r: String)
    requires
        content.spec_bytes().len() <= usize::MAX,
    ensures
        r@ == "wrote "@ + decimal(content.spec_bytes().len()) + " bytes to "@ + path@,
{
    let n = content.len();
    let d = decimal_string(n as u64);
    let mut r = concat3("wrote ", d.as_str(), " bytes to ");
    r.append(path);
    r
}

/// The message of a created directory.
pub fn create_directory_message(path: &str) -> (r: String)
    ensures
        r@ == "created directory "@ + path@,
{
    concat2("created directory ", path)
}

/// The message of a deleted file or directory.
pub fn delete_path_message(path: &str) -> (r: String)
    ensures
        r@ == "deleted "@ + path@,
{
    concat2("deleted ", path)
}

/// The message of a move.
pub fn move_path_message(src: &str, dest: &str) -> (r: String)
    ensures
        r@ == "moved "@ + src@ + " -> "@ + dest@,
{
    let mut r = concat3("moved ", src, " -> ");
    r.append(dest);
    r
}

// ---------------------------------------------------------------------------
// Directory listings
// ---------------------------------------------------------------------------

/// One entry of a directory: its name and whether it is a directory.
pub struct DirEntryInfo {
    pub name: String,
    pub is_dir: bool,
}

/// The line that lists one entry: its kind in brackets, then its name.
pub open spec fn entry_line(e: DirEntryInfo) -> Seq<char> {
    (if e.is_dir {
        "[dir] "@
    } else {
        "[file] "@
    }) + e.name@
}

/// A directory listing: the lines of the entries in ascending order, one per
/// line.
pub open spec fn listing_model(entries: Seq<DirEntryInfo>) -> Seq<char> {
    join(listing_lines(entries), "\n"@)
}

/// The lines of a directory listing: the entries' lines in ascending order.
pub open spec fn listing_lines(entries: Seq<DirEntryInfo>) -> Seq<Seq<char>> {
    sorted_model(entries.map_values(|e: DirEntryInfo| entry_line(e)))
}

/// A listing has one line for each entry, every entry included: `[dir] `
/// or `[file] ` and the entry's name, the lines in ascending order and
/// nothing else among them.
pub proof fn lemma_listing_has_every_entry(entries: Seq<DirEntryInfo>)
    ensures
        listing_model(entries) == join(listing_lines(entries), "\n"@),
        listing_lines(entries).len() == entries.len(),
        sorted(listing_lines(entries)),
        forall|i: int|
            #![trigger entries[i]]
            0 <= i < entries.len() ==> listing_lines(entries).contains(
                (if entries[i].is_dir {
                    "[dir] "@
                } else {
                    "[file] "@
                }) + entries[i].name@,
            ),
        forall|x: Seq<char>|
            listing_lines(entries).contains(x) ==> exists|i: int|
                #![trigger entries[i]]
                0 <= i < entries.len() && x == (if entries[i].is_dir {
                    "[dir] "@
                } else {
                    "[file] "@
                }) + entries[i].name@,
{
    let ls = entries.map_values(|e: DirEntryInfo| entry_line(e));
    lemma_sorted_model(ls);
    vstd::seq_lib::to_multiset_len(ls);
    vstd::seq_lib::to_multiset_len(listing_lines(entries));
    assert forall|i: int| #![trigger entries[i]] 0 <= i < entries.len() implies listing_lines(entries).contains(
        (if entries[i].is_dir {
            "[dir] "@
        } else {
            "[file] "@
        }) + entries[i].name@,
    ) by {
        assert(ls[i] == entry_line(entries[i]));
        assert(ls.contains(ls[i]));
    }
    assert forall|x: Seq<char>| listing_lines(entries).contains(x) implies exists|i: int|
        #![trigger entries[i]]
        0 <= i < entries.len() && x == (if entries[i].is_dir {
            "[dir] "@
        } else {
            "[file] "@
        }) + entries[i].name@ by {
        assert(ls.contains(x));
        let i = choose|i: int| 0 <= i < ls.len() && ls[i] == x;
        assert(ls[i] == entry_line(entries[i]));
    }
}

/// The listing of a directory with `entries`.
pub fn format_listing(entries: &Vec<DirEntryInfo>) -> (r: String)
    ensures
        r@ == listing_model(entries@),
{
    let mut lines: Vec<String> = Vec::new();
    let mut i: usize = 0;
    while i < entries.len()
        invariant
            i <= entries.len(),
            views(lines@) == entries@.take(i as int).map_values(|e: DirEntryInfo| entry_line(e)),
        decreases entries.len() - i,
    {
        let e = &entries[i];
        let line = if e.is_dir {
            concat2("[dir] ", e.name.as_str())
        } else {
            concat2("[file] ", e.name.as_str())
        };
        let ghost before = lines@;
        lines.push(line);
        assert(views(lines@) =~= views(before).push(entry_line(entries@[i as int])));
        assert(entries@.take(i + 1).map_values(|e: DirEntryInfo| entry_line(e)) =~= entries@.take(
            i as int,
        ).map_values(|e: DirEntryInfo| entry_line(e)).push(entry_line(entries@[i as int])));
        i += 1;
    }
    assert(entries@.take(entries.len() as int) =~= entries@);
    let sorted = sort_strings(&lines);
    join_strings(&sorted, "\n")
}

// ---------------------------------------------------------------------------
// Name search
// ---------------------------------------------------------------------------

/// One entry met while walking a tree: its file name, and its path relative
/// to the storage root when it has one.
pub struct WalkEntry {
    pub name: String,
    pub relative: Option<String>,
}

/// The relative paths of the entries whose lowercase name contains the
/// lowercase `pattern`, in walk order.
pub open spec fn search_hits(entries: Seq<WalkEntry>, pattern: Seq<char>) -> Seq<Seq<char>>
    decreases entries.len(),
{
    if entries.len() == 0 {
        seq![]
    } else {
        let prev = search_hits(entries.drop_last(), pattern);
        let e = entries.last();
        if contains_seq(lowercase(e.name@), lowercase(pattern)) && e.relative is Some {
            prev.push(e.relative->0@)
        } else {
            prev
        }
    }
}

/// The lines of a name search's report: the hits in ascending order.
pub open spec fn search_report_lines(entries: Seq<WalkEntry>, pattern: Seq<char>) -> Seq<Seq<char>> {
    sorted_model(search_hits(entries, pattern))
}

/// The report of a name search: its lines, one per line, or `no matches`
/// when there are none.
pub open spec fn search_report_model(entries: Seq<WalkEntry>, pattern: Seq<char>) -> Seq<char> {
    if search_hits(entries, pattern).len() == 0 {
        "no matches"@
    } else {
        join(search_report_lines(entries, pattern), "\n"@)
    }
}

/// A name search ignores the case of its pattern: two patterns with the
/// same lowercase form give the same report.
pub proof fn lemma_search_ignores_pattern_case(entries: Seq<WalkEntry>, p: Seq<char>, q: Seq<char>)
    requires
        lowercase(p) == lowercase(q),
    ensures
        search_report_model(entries, p) == search_report_model(entries, q),
{
    lemma_hits_ignore_pattern_case(entries, p, q);
}

/// A name search ignores the ASCII case of an ASCII pattern: patterns equal
/// up to ASCII case (such as a pattern and its upper-case form) give the
/// same report.  The last two conditions are what `search_report` states of
/// each pattern it is called with.
pub proof fn lemma_search_ignores_ascii_case(entries: Seq<WalkEntry>, p: Seq<char>, q: Seq<char>)
    requires
        is_ascii_text(p),
        is_ascii_text(q),
        eq_ignore_ascii_case(p, q),
        lowercases_ascii(p, lowercase(p)),
        lowercases_ascii(q, lowercase(q)),
    ensures
        search_report_model(entries, p) == search_report_model(entries, q),
{
    lemma_ascii_case_variants_lowercase(p, q);
    lemma_search_ignores_pattern_case(entries, p, q);
}

/// Narrowing a name search: when the lowercase form of `p2` holds that of
/// `p1`, every line of the report for `p2` is a line of the report for `p1`
/// (and a report with no lines reads `no matches`).
pub proof fn lemma_search_report_narrowing(entries: Seq<WalkEntry>, p1: Seq<char>, p2: Seq<char>)
    requires
        contains_seq(lowercase(p2), lowercase(p1)),
    ensures
        forall|x: Seq<char>| search_report_lines(entries, p2).contains(x)
            ==> search_report_lines(entries, p1).contains(x),
        search_report_lines(entries, p2).len() == search_hits(entries, p2).len(),
        search_report_lines(entries, p1).len() == search_hits(entries, p1).len(),
{
    lemma_search_narrowing(entries, p1, p2);
    lemma_sorted_model(search_hits(entries, p1));
    lemma_sorted_model(search_hits(entries, p2));
    vstd::seq_lib::to_multiset_len(search_hits(entries, p1));
    vstd::seq_lib::to_multiset_len(search_hits(entries, p2));
    vstd::seq_lib::to_multiset_len(search_report_lines(entries, p1));
    vstd::seq_lib::to_multiset_len(search_report_lines(entries, p2));
    let h1 = search_hits(entries, p1);
    let h2 = search_hits(entries, p2);
    assert forall|x: Seq<char>| search_report_lines(entries, p2).contains(x)
        implies search_report_lines(entries, p1).contains(x) by {
        assert(sorted_model(h2).contains(x) == h2.contains(x));
        assert(h2.contains(x) ==> h1.contains(x));
        assert(sorted_model(h1).contains(x) == h1.contains(x));
    }
}

/// A name search reports exactly the entries whose own name, lowercased,
/// holds the lowercased pattern and that have a path relative to the root:
/// each line is such an entry's relative path, every such entry's path is a
/// line, the lines are in ascending order, and a report without lines reads
/// `no matches`.
pub proof fn lemma_search_reports_matching_names(entries: Seq<WalkEntry>, pattern: Seq<char>)
    ensures
        search_report_model(entries, pattern) == if search_report_lines(entries, pattern).len() == 0 {
            "no matches"@
        } else {
            join(search_report_lines(entries, pattern), "\n"@)
        },
        sorted(search_report_lines(entries, pattern)),
        forall|x: Seq<char>|
            search_report_lines(entries, pattern).contains(x) <==> exists|i: int|
                #![trigger entries[i]]
                0 <= i < entries.len() && entries[i].relative is Some && entries[i].relative->0@ == x
                    && contains_seq(lowercase(entries[i].name@), lowercase(pattern)),
{
    let h = search_hits(entries, pattern);
    lemma_sorted_model(h);
    vstd::seq_lib::to_multiset_len(h);
    vstd::seq_lib::to_multiset_len(search_report_lines(entries, pattern));
    lemma_hits_are_matching_names(entries, pattern);
    assert forall|x: Seq<char>|
        search_report_lines(entries, pattern).contains(x) <==> exists|i: int|
            #![trigger entries[i]]
            0 <= i < entries.len() && entries[i].relative is Some && entries[i].relative->0@ == x
                && contains_seq(lowercase(entries[i].name@), lowercase(pattern)) by {
        assert(sorted_model(h).contains(x) == h.contains(x));
    }
}

proof fn lemma_hits_are_matching_names(entries: Seq<WalkEntry>, pattern: Seq<char>)
    ensures
        forall|x: Seq<char>|
            search_hits(entries, pattern).contains(x) <==> exists|i: int|
                #![trigger entries[i]]
                0 <= i < entries.len() && entries[i].relative is Some && entries[i].relative->0@ == x
                    && contains_seq(lowercase(entries[i].name@), lowercase(pattern)),
    decreases entries.len(),
{
    if entries.len() > 0 {
        let d = entries.drop_last();
        lemma_hits_are_matching_names(d, pattern);
        let h = search_hits(d, pattern);
        let e = entries.last();
        let last = entries.len() - 1;
        assert forall|x: Seq<char>| search_hits(entries, pattern).contains(x) <==> exists|i: int|
            #![trigger entries[i]]
            0 <= i < entries.len() && entries[i].relative is Some && entries[i].relative->0@ == x
                && contains_seq(lowercase(entries[i].name@), lowercase(pattern)) by {
            let hit = contains_seq(lowercase(e.name@), lowercase(pattern)) && e.relative is Some;
            if search_hits(entries, pattern).contains(x) {
                if hit && x == e.relative->0@ {
                    assert(entries[last] == e);
                } else {
                    if hit {
                        let k = choose|k: int| 0 <= k < h.push(e.relative->0@).len() && h.push(e.relative->0@)[k] == x;
                        assert(h[k] == x);
                    }
                    assert(h.contains(x));
                    let i = choose|i: int|
                        #![trigger d[i]]
                        0 <= i < d.len() && d[i].relative is Some && d[i].relative->0@ == x
                            && contains_seq(lowercase(d[i].name@), lowercase(pattern));
                    assert(entries[i] == d[i]);
                }
            }
            if exists|i: int|
                #![trigger entries[i]]
                0 <= i < entries.len() && entries[i].relative is Some && entries[i].relative->0@ == x
                    && contains_seq(lowercase(entries[i].name@), lowercase(pattern)) {
                let i = choose|i: int|
                    #![trigger entries[i]]
                    0 <= i < entries.len() && entries[i].relative is Some && entries[i].relative->0@ == x
                        && contains_seq(lowercase(entries[i].name@), lowercase(pattern));
                if i == last {
                    assert(h.push(e.relative->0@)[h.len() as int] == x);
                } else {
                    assert(d[i] == entries[i]);
                    assert(h.contains(x));
                    let k = choose|k: int| 0 <= k < h.len() && h[k] == x;
                    if hit {
                        assert(h.push(e.relative->0@)[k] == x);
                    }
                }
            }
        }
    }
}

/// Every hit for `p2` is a hit for `p1` when the lowercase form of `p2`
/// holds that of `p1`.
proof fn lemma_search_narrowing(entries: Seq<WalkEntry>, p1: Seq<char>, p2: Seq<char>)
    requires
        contains_seq(lowercase(p2), lowercase(p1)),
    ensures
        forall|x: Seq<char>| search_hits(entries, p2).contains(x) ==> search_hits(entries, p1).contains(x),
    decreases entries.len(),
{
    if entries.len() > 0 {
        lemma_search_narrowing(entries.drop_last(), p1, p2);
        let e = entries.last();
        let h1 = search_hits(entries.drop_last(), p1);
        let h2 = search_hits(entries.drop_last(), p2);
        if contains_seq(lowercase(e.name@), lowercase(p2)) && e.relative is Some {
            lemma_contains_trans(lowercase(e.name@), lowercase(p2), lowercase(p1));
            let y = e.relative->0@;
            assert forall|x: Seq<char>| h2.push(y).contains(x) implies h1.push(y).contains(x) by {
                if x != y {
                    let k = choose|k: int| 0 <= k < h2.push(y).len() && h2.push(y)[k] == x;
                    assert(h2[k] == x);
                    assert(h2.contains(x));
                    let m = choose|m: int| 0 <= m < h1.len() && h1[m] == x;
                    assert(h1.push(y)[m] == x);
                } else {
                    assert(h1.push(y)[h1.len() as int] == y);
                }
            }
        } else {
            assert forall|x: Seq<char>| h2.contains(x) implies search_hits(entries, p1).contains(x) by {
                let m = choose|m: int| 0 <= m < h1.len() && h1[m] == x;
                if contains_seq(lowercase(e.name@), lowercase(p1)) && e.relative is Some {
                    assert(h1.push(e.relative->0@)[m] == x);
                }
            }
        }
    }
}

proof fn lemma_hits_ignore_pattern_case(entries: Seq<WalkEntry>, p: Seq<char>, q: Seq<char>)
    requires
        lowercase(p) == lowercase(q),
    ensures
        search_hits(entries, p) == search_hits(entries, q),
    decreases entries.len(),
{
    if entries.len() > 0 {
        lemma_hits_ignore_pattern_case(entries.drop_last(), p, q);
    }
}

/// The report of a search for names containing `pattern`.
pub fn search_report(entries: &Vec<WalkEntry>, pattern: &str) -> (r: String)
    ensures
        r@ == search_report_model(entries@, pattern@),
        lowercases_ascii(pattern@, lowercase(pattern@)),
{
    let pat_lower = to_lowercase(pattern);
    let pat = chars_of(pat_lower.as_str());
    let mut hits: Vec<String> = Vec::new();
    let mut i: usize = 0;
    while i < entries.len()
        invariant
            i <= entries.len(),
            pat@ == lowercase(pattern@),
            views(hits@) == search_hits(entries@.take(i as int), pattern@),
        decreases entries.len() - i,
    {
        let e = &entries[i];
        let name_lower = to_lowercase(e.name.as_str());
        let name_chars = chars_of(name_lower.as_str());
        assert(entries@.take(i + 1).drop_last() =~= entries@.take(i as int));
        assert(entries@.take(i + 1).last() == entries@[i as int]);
        if contains_chars(&name_chars, &pat) {
            match &e.relative {
                Some(rel) => {
                    let ghost before = hits@;
                    hits.push(owned(rel.as_str()));
                    assert(views(hits@) =~= views(before).push(rel@));
                },
                None => {},
            }
        }
        i += 1;
    }
    assert(entries@.take(entries.len() as int) =~= entries@);
    if hits.len() == 0 {
        owned("no matches")
    } else {
        let sorted = sort_strings(&hits);
        join_strings(&sorted, "\n")
    }
}

// ---------------------------------------------------------------------------
// Content search
// ---------------------------------------------------------------------------

/// A readable file met while walking a tree: its path relative to the
/// storage root and its text.
pub struct FileText {
    pub relative: String,
    pub text: String,
}

/// The most matching lines that a content search reports.
pub const MAX_MATCHES: usize = 200;

/// The line that ends a content search that reached its limit.
pub open spec fn cap_message() -> Seq<char> {
    "... capped at 200 matches, narrow the pattern or path"@
}

/// The report line of a matching line: path, line number (from 1), and the
/// line without surrounding whitespace.
pub open spec fn match_line(relative: Seq<char>, number: nat, line: Seq<char>) -> Seq<char> {
    relative + ":"@ + decimal(number) + ": "@ + trim(line)
}

/// The report lines of the lines `ls` of one file whose lowercase form
/// contains `pat`, in order.
pub open spec fn file_matches(relative: Seq<char>, ls: Seq<Seq<char>>, pat: Seq<char>) -> Seq<
    Seq<char>,
>
    decreases ls.len(),
{
    if ls.len() == 0 {
        seq![]
    } else {
        let prev = file_matches(relative, ls.drop_last(), pat);
        if contains_seq(lowercase(ls.last()), pat) {
            prev.push(match_line(relative, ls.len(), ls.last()))
        } else {
            prev
        }
    }
}

/// The report lines of all files, file after file.
pub open spec fn all_matches(files: Seq<FileText>, pat: Seq<char>) -> Seq<Seq<char>>
    decreases files.len(),
{
    if files.len() == 0 {
        seq![]
    } else {
        all_matches(files.drop_last(), pat) + file_matches(
            files.last().relative@,
            lines(files.last().text@),
            pat,
        )
    }
}

/// The report of a content search: at the limit, the first matches and a
/// note that the search stopped; otherwise all matches, or `no matches`.
pub open spec fn grep_report_model(files: Seq<FileText>, pattern: Seq<char>) -> Seq<char> {
    let all = all_matches(files, lowercase(pattern));
    if all.len() >= MAX_MATCHES {
        join(all.take(MAX_MATCHES as int).push(cap_message()), "\n"@)
    } else if all.len() == 0 {
        "no matches"@
    } else {
        join(all, "\n"@)
    }
}

/// The items of a content search's report, one per line of it.
pub open spec fn grep_report_items(files: Seq<FileText>, pattern: Seq<char>) -> Seq<Seq<char>> {
    let all = all_matches(files, lowercase(pattern));
    if all.len() >= MAX_MATCHES {
        all.take(MAX_MATCHES as int).push(cap_message())
    } else if all.len() == 0 {
        seq!["no matches"@]
    } else {
        all
    }
}

/// The number of the lines `ls` whose lowercase form holds `pat`.
pub open spec fn count_matching_lines(ls: Seq<Seq<char>>, pat: Seq<char>) -> nat
    decreases ls.len(),
{
    if ls.len() == 0 {
        0
    } else {
        count_matching_lines(ls.drop_last(), pat) + if contains_seq(lowercase(ls.last()), pat) {
            1nat
        } else {
            0nat
        }
    }
}

/// The number of lines of all `files` whose lowercase form holds `pat`.
pub open spec fn count_matching_in_files(files: Seq<FileText>, pat: Seq<char>) -> nat
    decreases files.len(),
{
    if files.len() == 0 {
        0
    } else {
        count_matching_in_files(files.drop_last(), pat) + count_matching_lines(
            lines(files.last().text@),
            pat,
        )
    }
}

/// The number of matching lines that come before line `k` of file `f`:
/// those of the files before it, and those of its first `k` lines.
pub open spec fn matches_before(files: Seq<FileText>, pat: Seq<char>, f: int, k: int) -> nat {
    count_matching_in_files(files.take(f), pat) + count_matching_lines(
        lines(files[f].text@).take(k),
        pat,
    )
}

proof fn lemma_file_matches_at(rel: Seq<char>, ls: Seq<Seq<char>>, pat: Seq<char>, k: int)
    requires
        0 <= k < ls.len(),
        contains_seq(lowercase(ls[k]), pat),
    ensures
        file_matches(rel, ls, pat).len() == count_matching_lines(ls, pat),
        count_matching_lines(ls.take(k), pat) < file_matches(rel, ls, pat).len(),
        file_matches(rel, ls, pat)[count_matching_lines(ls.take(k), pat) as int] == match_line(
            rel,
            (k + 1) as nat,
            ls[k],
        ),
    decreases ls.len(),
{
    let d = ls.drop_last();
    lemma_file_matches_len(rel, d, pat);
    if k == ls.len() - 1 {
        assert(ls.take(k) =~= d);
    } else {
        assert(d.take(k) =~= ls.take(k));
        lemma_file_matches_at(rel, d, pat, k);
    }
}

proof fn lemma_file_matches_len(rel: Seq<char>, ls: Seq<Seq<char>>, pat: Seq<char>)
    ensures
        file_matches(rel, ls, pat).len() == count_matching_lines(ls, pat),
    decreases ls.len(),
{
    if ls.len() > 0 {
        lemma_file_matches_len(rel, ls.drop_last(), pat);
    }
}

proof fn lemma_all_matches_len(files: Seq<FileText>, pat: Seq<char>)
    ensures
        all_matches(files, pat).len() == count_matching_in_files(files, pat),
    decreases files.len(),
{
    if files.len() > 0 {
        lemma_all_matches_len(files.drop_last(), pat);
        lemma_file_matches_len(files.last().relative@, lines(files.last().text@), pat);
    }
}

proof fn lemma_all_matches_at(files: Seq<FileText>, pat: Seq<char>, f: int, k: int)
    requires
        0 <= f < files.len(),
        0 <= k < lines(files[f].text@).len(),
        contains_seq(lowercase(lines(files[f].text@)[k]), pat),
    ensures
        matches_before(files, pat, f, k) < all_matches(files, pat).len(),
        all_matches(files, pat)[matches_before(files, pat, f, k) as int] == match_line(
            files[f].relative@,
            (k + 1) as nat,
            lines(files[f].text@)[k],
        ),
    decreases files.len(),
{
    let d = files.drop_last();
    lemma_all_matches_len(d, pat);
    lemma_all_matches_len(files, pat);
    if f == files.len() - 1 {
        assert(files.take(f) =~= d);
        lemma_file_matches_at(files[f].relative@, lines(files[f].text@), pat, k);
    } else {
        assert(d.take(f) =~= files.take(f));
        assert(d[f] == files[f]);
        lemma_all_matches_at(d, pat, f, k);
    }
}

/// Every line of every file is searched: a line whose lowercase form holds
/// the lowercased pattern, with fewer than `MAX_MATCHES` matching lines
/// before it (in the files before its own, and in its own file above it),
/// is reported as the file's relative path, `:`, its line number counted
/// from 1, `: ` and the line without surrounding whitespace, at the place
/// that the matching lines before it leave for it.
pub proof fn lemma_grep_reports_every_matching_line(files: Seq<FileText>, pattern: Seq<char>, f: int, k: int)
    requires
        0 <= f < files.len(),
        0 <= k < lines(files[f].text@).len(),
        contains_seq(lowercase(lines(files[f].text@)[k]), lowercase(pattern)),
        matches_before(files, lowercase(pattern), f, k) < MAX_MATCHES,
    ensures
        grep_report_model(files, pattern) == join(grep_report_items(files, pattern), "\n"@),
        grep_report_items(files, pattern)[matches_before(files, lowercase(pattern), f, k) as int]
            == files[f].relative@ + ":"@ + decimal((k + 1) as nat) + ": "@ + trim(
            lines(files[f].text@)[k],
        ),
{
    lemma_grep_report_items(files, pattern);
    lemma_all_matches_at(files, lowercase(pattern), f, k);
}

/// A content search reports one item per matching line of all files, in
/// order: `no matches` when no line matches; the match lines when fewer than
/// `MAX_MATCHES` do; otherwise the first `MAX_MATCHES` of them and a last
/// line that says the search was capped.
pub proof fn lemma_grep_report_items(files: Seq<FileText>, pattern: Seq<char>)
    ensures
        grep_report_model(files, pattern) == join(grep_report_items(files, pattern), "\n"@),
        count_matching_in_files(files, lowercase(pattern)) == 0 ==> grep_report_items(files, pattern)
            == seq!["no matches"@],
        0 < count_matching_in_files(files, lowercase(pattern)) < MAX_MATCHES ==> grep_report_items(
            files,
            pattern,
        ).len() == count_matching_in_files(files, lowercase(pattern)),
        count_matching_in_files(files, lowercase(pattern)) >= MAX_MATCHES ==> {
            &&& grep_report_items(files, pattern).len() == MAX_MATCHES + 1
            &&& grep_report_items(files, pattern)[MAX_MATCHES as int]
                == "... capped at 200 matches, narrow the pattern or path"@
        },
{
    lemma_all_matches_len(files, lowercase(pattern));
    let items = grep_report_items(files, pattern);
    if all_matches(files, lowercase(pattern)).len() == 0 {
        assert(join(items, "\n"@) == items[0]);
    }
}

/// A content search ignores the case of its pattern: two patterns with the
/// same lowercase form give the same report.
pub proof fn lemma_grep_ignores_pattern_case(files: Seq<FileText>, p: Seq<char>, q: Seq<char>)
    requires
        lowercase(p) == lowercase(q),
    ensures
        grep_report_model(files, p) == grep_report_model(files, q),
{
}

/// A content search ignores the ASCII case of an ASCII pattern: patterns
/// equal up to ASCII case give the same report.  The last two conditions
/// are what `grep_report` states of each pattern it is called with.
pub proof fn lemma_grep_ignores_ascii_case(files: Seq<FileText>, p: Seq<char>, q: Seq<char>)
    requires
        is_ascii_text(p),
        is_ascii_text(q),
        eq_ignore_ascii_case(p, q),
        lowercases_ascii(p, lowercase(p)),
        lowercases_ascii(q, lowercase(q)),
    ensures
        grep_report_model(files, p) == grep_report_model(files, q),
{
    lemma_ascii_case_variants_lowercase(p, q);
}

/// `a` is a prefix of `b`.
pub open spec fn is_prefix(a: Seq<Seq<char>>, b: Seq<Seq<char>>) -> bool {
    a.len() <= b.len() && b.take(a.len() as int) == a
}

proof fn lemma_file_matches_prefix(relative: Seq<char>, ls: Seq<Seq<char>>, k: int, pat: Seq<char>)
    requires
        0 <= k <= ls.len(),
    ensures
        is_prefix(file_matches(relative, ls.take(k), pat), file_matches(relative, ls, pat)),
    decreases ls.len() - k,
{
    if k < ls.len() {
        assert(ls.drop_last().take(k) =~= ls.take(k));
        lemma_file_matches_prefix(relative, ls.drop_last(), k, pat);
        let a = file_matches(relative, ls.take(k), pat);
        let b = file_matches(relative, ls.drop_last(), pat);
        let c = file_matches(relative, ls, pat);
        assert(c.take(a.len() as int) =~= b.take(a.len() as int));
    } else {
        assert(ls.take(k) =~= ls);
        let c = file_matches(relative, ls, pat);
        assert(c.take(c.len() as int) =~= c);
    }
}

proof fn lemma_all_matches_prefix(files: Seq<FileText>, g: int, pat: Seq<char>)
    requires
        0 <= g <= files.len(),
    ensures
        is_prefix(all_matches(files.take(g), pat), all_matches(files, pat)),
    decreases files.len() - g,
{
    if g < files.len() {
        assert(files.drop_last().take(g) =~= files.take(g));
        lemma_all_matches_prefix(files.drop_last(), g, pat);
        let a = all_matches(files.take(g), pat);
        let b = all_matches(files.drop_last(), pat);
        let c = all_matches(files, pat);
        assert(c.take(a.len() as int) =~= b.take(a.len() as int));
    } else {
        assert(files.take(g) =~= files);
        let c = all_matches(files, pat);
        assert(c.take(c.len() as int) =~= c);
    }
}

proof fn lemma_prefix_trans(a: Seq<Seq<char>>, b: Seq<Seq<char>>, c: Seq<Seq<char>>)
    requires
        is_prefix(a, b),
        is_prefix(b, c),
    ensures
        is_prefix(a, c),
{
    assert(c.take(a.len() as int) =~= c.take(b.len() as int).take(a.len() as int));
}

proof fn lemma_prefix_append(p: Seq<Seq<char>>, a: Seq<Seq<char>>, b: Seq<Seq<char>>)
    requires
        is_prefix(a, b),
    ensures
        is_prefix(p + a, p + b),
{
    assert((p + b).take((p + a).len() as int) =~= p + a);
}

/// Adds the report lines of one file to `matches`; tells whether the limit
/// was reached, in which case `matches` holds exactly the first
/// `MAX_MATCHES` report lines of all files.
fn grep_file(
    files: &Vec<FileText>,
    f: usize,
    pat: &Vec<char>,
    matches: &mut Vec<String>,
) -> (capped: bool)
    requires
        f < files.len(),
        views(old(matches)@) == all_matches(files@.take(f as int), pat@),
        old(matches)@.len() < MAX_MATCHES,
    ensures
        capped ==> views(final(matches)@) == all_matches(files@, pat@).take(MAX_MATCHES as int)
            && all_matches(files@, pat@).len() >= MAX_MATCHES,
        !capped ==> views(final(matches)@) == all_matches(files@.take(f + 1), pat@)
            && final(matches)@.len() < MAX_MATCHES,
{
    let file = &files[f];
    let t = chars_of(file.text.as_str());
    let n = t.len();
    let ghost rel = file.relative@;
    let ghost before = all_matches(files@.take(f as int), pat@);
    let ghost mut done: Seq<Seq<char>> = seq![];
    let mut i: usize = 0;
    let mut line_no: usize = 0;
    proof {
        assert(t@.skip(0) =~= t@);
        assert(files@.take(f + 1).drop_last() =~= files@.take(f as int));
        assert(files@.take(f + 1).last() == files@[f as int]);
    }
    while i < n
        invariant
            i <= n,
            n == t.len(),
            line_no == done.len(),
            line_no <= i,
            t@ == file.text@,
            rel == file.relative@,
            *file == files@[f as int],
            f < files.len(),
            lines(t@) == done + lines(t@.skip(i as int)),
            views(matches@) == before + file_matches(rel, done, pat@),
            before == all_matches(files@.take(f as int), pat@),
            all_matches(files@.take(f + 1), pat@) == before + file_matches(rel, lines(t@), pat@),
            matches@.len() < MAX_MATCHES,
        decreases n - i,
    {
        let mut j = i;
        while j < n && t[j] != '\n'
            invariant
                i <= j <= n,
                n == t.len(),
                forall|m: int| i <= m < j ==> t@[m] != '\n',
            decreases n - j,
        {
            j += 1;
        }
        let e = if j < n && j > i && t[j - 1] == '\r' {
            j - 1
        } else {
            j
        };
        let ghost s = t@.skip(i as int);
        let ghost line = if j < n {
            strip_cr(t@.subrange(i as int, j as int))
        } else {
            t@.subrange(i as int, j as int)
        };
        proof {
            lemma_newline_index(s, j - i);
            if j < n {
                assert(s.take(j - i) =~= t@.subrange(i as int, j as int));
                assert(s.skip(j - i + 1) =~= t@.skip(j + 1));
                if j > i && t@[j - 1] == '\r' {
                    assert(t@.subrange(i as int, j as int).drop_last() =~= t@.subrange(i as int, e as int));
                } else {
                    assert(t@.subrange(i as int, e as int) =~= t@.subrange(i as int, j as int));
                }
                assert(lines(s) == seq![line] + lines(t@.skip(j + 1)));
            } else {
                assert(s =~= t@.subrange(i as int, j as int));
                assert(lines(s) == seq![line]);
                assert(t@.skip(n as int) =~= Seq::<char>::empty());
            }
            assert(line == t@.subrange(i as int, e as int));
        }
        let line_text = string_of(&t, i, e);
        let lower = to_lowercase(line_text.as_str());
        let lower_chars = chars_of(lower.as_str());
        let ghost new_done = done.push(line);
        proof {
            assert(new_done.drop_last() =~= done);
            assert(new_done.last() == line);
        }
        if contains_chars(&lower_chars, pat) {
            let number = decimal_string((line_no + 1) as u64);
            let trimmed_line = trimmed(line_text.as_str());
            let mut m = concat3(file.relative.as_str(), ":", number.as_str());
            m.append(": ");
            m.append(trimmed_line);
            let ghost old_m = matches@;
            matches.push(m);
            proof {
                assert(m@ == match_line(rel, new_done.len(), line));
                assert(views(matches@) =~= views(old_m).push(m@));
            }
            if matches.len() >= MAX_MATCHES {
                proof {
                    let whole = lines(t@);
                    let k = new_done.len() as int;
                    if j < n {
                        assert(whole == new_done + lines(t@.skip(j + 1)));
                    } else {
                        assert(whole == new_done + lines(t@.skip(n as int)));
                    }
                    assert(whole.take(k) =~= new_done);
                    lemma_file_matches_prefix(rel, whole, k, pat@);
                    lemma_prefix_append(before, file_matches(rel, new_done, pat@), file_matches(rel, whole, pat@));
                    lemma_all_matches_prefix(files@, f + 1, pat@);
                    lemma_prefix_trans(views(matches@), all_matches(files@.take(f + 1), pat@), all_matches(files@, pat@));
                }
                return true;
            }
        }
        proof {
            done = new_done;
            if j < n {
            } else {
                assert(t@.skip(n as int) =~= Seq::<char>::empty());
            }
        }
        line_no = line_no + 1;
        i = if j < n {
            j + 1
        } else {
            j
        };
    }
    proof {
        assert(t@.skip(n as int) =~= Seq::<char>::empty());
        assert(lines(t@.skip(n as int)) =~= Seq::<Seq<char>>::empty());
        assert(done =~= lines(t@));
    }
    false
}

/// The report of a search for lines containing `pattern`, ignoring case,
/// through `files` in the order given.
pub fn grep_report(files: &Vec<FileText>, pattern: &str) -> (r: String)
    ensures
        r@ == grep_report_model(files@, pattern@),
        lowercases_ascii(pattern@, lowercase(pattern@)),
{
    let pat_lower = to_lowercase(pattern);
    let pat = chars_of(pat_lower.as_str());
    let mut matches: Vec<String> = Vec::new();
    let mut f: usize = 0;
    assert(files@.take(0) =~= Seq::<FileText>::empty());
    while f < files.len()
        invariant
            f <= files.len(),
            pat@ == lowercase(pattern@),
            lowercases_ascii(pattern@, lowercase(pattern@)),
            views(matches@) == all_matches(files@.take(f as int), pat@),
            matches@.len() < MAX_MATCHES,
        decreases files.len() - f,
    {
        if grep_file(files, f, &pat, &mut matches) {
            let ghost old_m = matches@;
            matches.push(owned("... capped at 200 matches, narrow the pattern or path"));
            assert(views(matches@) =~= views(old_m).push(cap_message()));
            return join_strings(&matches, "\n");
        }
        f += 1;
    }
    assert(files@.take(files.len() as int) =~= files@);
    if matches.len() == 0 {
        owned("no matches")
    } else {
        join_strings(&matches, "\n")
    }
}

// ---------------------------------------------------------------------------
// Single-match edits
// ---------------------------------------------------------------------------

/// The result of an accepted edit: the new text of the file and the report.
pub struct EditPlan {
    pub updated: String,
    pub message: String,
}

/// The message for an `old_str` that the file does not hold.
pub open spec fn not_found_message(path: Seq<char>) -> Seq<char> {
    "old_str not found in "@ + path
        + " \u{2014} re-read the file and copy the exact text, including whitespace"@
}

/// The message for an `old_str` that the file holds `n` times.
pub open spec fn ambiguous_message(path: Seq<char>, n: nat) -> Seq<char> {
    "old_str matches "@ + decimal(n) + " locations in "@ + path
        + " \u{2014} widen old_str with surrounding context so it matches exactly one place"@
}

/// The report of an edit, with the sizes in bytes before and after.
pub open spec fn edited_message(path: Seq<char>, before: nat, after: nat) -> Seq<char> {
    "edited "@ + path + ": replaced 1 occurrence ("@ + decimal(before) + " bytes -> "@ + decimal(
        after,
    ) + " bytes)"@
}

/// `s` with the occurrence of `old` at `i` replaced by `new`.
pub open spec fn replaced_at(s: Seq<char>, old: Seq<char>, new: Seq<char>, i: int) -> Seq<char> {
    s.take(i) + new + s.skip(i + old.len())
}

/// The number of bytes of the UTF-8 form of `s`.
pub open spec fn byte_len(s: Seq<char>) -> nat {
    encode_utf8(s).len()
}

proof fn lemma_encode_concat(a: Seq<char>, b: Seq<char>)
    ensures
        encode_utf8(a + b) == encode_utf8(a) + encode_utf8(b),
    decreases a.len(),
{
    if a.len() == 0 {
        assert(a + b =~= b);
        assert(encode_utf8(a) + encode_utf8(b) =~= encode_utf8(b));
    } else {
        assert((a + b).drop_first() =~= a.drop_first() + b);
        assert((a + b)[0] == a[0]);
        lemma_encode_concat(a.drop_first(), b);
        let x = vstd::utf8::encode_scalar(a[0] as u32);
        assert(x + (encode_utf8(a.drop_first()) + encode_utf8(b)) =~= (x + encode_utf8(
            a.drop_first(),
        )) + encode_utf8(b));
    }
}

/// What the edit of `old` by `new` makes of `content`: when `old` occurs at
/// exactly one position, that occurrence replaced; otherwise nothing.
pub open spec fn edit_result(content: Seq<char>, old: Seq<char>, new: Seq<char>) -> Option<Seq<char>> {
    if occurrences(content, old) == 1 {
        Some(replaced_at(content, old, new, choose|i: int| occurs_at(content, old, i)))
    } else {
        None
    }
}

proof fn lemma_some_occurrence(s: Seq<char>, p: Seq<char>)
    requires
        occurrences(s, p) > 0,
    ensures
        exists|i: int| occurs_at(s, p, i),
{
    if !exists|i: int| occurs_at(s, p, i) {
        lemma_absent_pattern_has_no_occurrence(s, p);
    }
}

/// The edit of a single occurrence replaces it at the one position where it
/// occurs.
proof fn lemma_edit_result_at(content: Seq<char>, old: Seq<char>, new: Seq<char>, i: int)
    requires
        occurrences(content, old) == 1,
        occurs_at(content, old, i),
    ensures
        edit_result(content, old, new) == Some(replaced_at(content, old, new, i)),
{
    let k = choose|k: int| occurs_at(content, old, k);
    lemma_single_occurrence(content, old, i, k);
}

proof fn lemma_replaced_bytes(s: Seq<char>, old: Seq<char>, new: Seq<char>, i: int)
    requires
        occurs_at(s, old, i),
    ensures
        byte_len(replaced_at(s, old, new, i)) + byte_len(old) == byte_len(s) + byte_len(new),
{
    assert(s =~= s.take(i) + old + s.skip(i + old.len()));
    lemma_encode_concat(s.take(i) + old, s.skip(i + old.len()));
    lemma_encode_concat(s.take(i), old);
    lemma_encode_concat(s.take(i) + new, s.skip(i + old.len()));
    lemma_encode_concat(s.take(i), new);
}

/// An edit can be undone: when the edit of `old` by `new` turned `c` into
/// `c2`, and `new` occurs at exactly one position of `c2`, the edit of `new`
/// by `old` turns `c2` back into `c`.
pub proof fn lemma_edit_round_trip(c: Seq<char>, old: Seq<char>, new: Seq<char>, c2: Seq<char>)
    requires
        edit_result(c, old, new) == Some(c2),
        occurrences(c2, new) == 1,
    ensures
        edit_result(c2, new, old) == Some(c),
{
    lemma_some_occurrence(c, old);
    let i = choose|i: int| occurs_at(c, old, i);
    assert(occurs_at(c, old, i));
    assert(c2 == replaced_at(c, old, new, i));
    lemma_replaced_then_back(c, old, new, i);
    lemma_edit_result_at(c2, new, old, i);
}

proof fn lemma_replaced_then_back(c: Seq<char>, old: Seq<char>, new: Seq<char>, i: int)
    requires
        occurs_at(c, old, i),
    ensures
        occurs_at(replaced_at(c, old, new, i), new, i),
        replaced_at(replaced_at(c, old, new, i), new, old, i) == c,
{
    let head = c.take(i);
    let tail = c.skip(i + old.len());
    let c2 = head + new + tail;
    assert(c2 == replaced_at(c, old, new, i));
    assert(c2.subrange(i, i + new.len()) =~= new);
    assert(c2.take(i) =~= head);
    assert(c2.skip(i + new.len()) =~= tail);
    assert(c =~= head + old + tail);
}

/// The edit that replaces `old` by `new` in `content`: accepted when `old`
/// occurs at exactly one position (overlapping occurrences each counted),
/// refused when it occurs nowhere or at more than one position, with the
/// number of positions in the message.  An accepted edit replaces that one
/// occurrence, and its size in bytes changes by the difference of the sizes
/// of `new` and `old`.
pub fn plan_edit(path: &str, content: &str, old: &str, new: &str) -> (r: Result<EditPlan, String>)
    requires
        content@.len() < usize::MAX,
        byte_len(content@) + byte_len(new@) <= usize::MAX,
    ensures
        match r {
            Ok(p) => {
                &&& occurrences(content@, old@) == 1
                &&& edit_result(content@, old@, new@) == Some(p.updated@)
                &&& exists|i: int|
                    occurs_at(content@, old@, i) && p.updated@ == replaced_at(
                        content@,
                        old@,
                        new@,
                        i,
                    )
                &&& byte_len(p.updated@) + byte_len(old@) == byte_len(content@) + byte_len(new@)
                &&& p.message@ == edited_message(path@, byte_len(content@), byte_len(p.updated@))
            },
            Err(e) => {
                &&& occurrences(content@, old@) != 1
                &&& edit_result(content@, old@, new@) is None
                &&& e@ == if occurrences(content@, old@) == 0 {
                    not_found_message(path@)
                } else {
                    ambiguous_message(path@, occurrences(content@, old@))
                }
            },
        },
{
    let c = chars_of(content);
    let o = chars_of(old);
    let count = count_occurrences(&c, &o);
    if count == 0 {
        let mut e = concat2("old_str not found in ", path);
        e.append(" \u{2014} re-read the file and copy the exact text, including whitespace");
        return Err(e);
    }
    if count > 1 {
        let d = decimal_string(count as u64);
        let mut e = concat3("old_str matches ", d.as_str(), " locations in ");
        e.append(path);
        e.append(" \u{2014} widen old_str with surrounding context so it matches exactly one place");
        return Err(e);
    }
    let first = find_from(&c, &o, 0);
    proof {
        if first is None {
            // no occurrence at all would mean a count of zero
            lemma_absent_pattern_has_no_occurrence(c@, o@);
        }
    }
    let i = first.unwrap();
    let head = content.substring_char(0, i);
    let tail = content.substring_char(i + o.len(), c.len());
    let mut updated = concat2(head, new);
    updated.append(tail);
    proof {
        assert(updated@ == replaced_at(content@, old@, new@, i as int));
        lemma_edit_result_at(content@, old@, new@, i as int);
        lemma_replaced_bytes(content@, old@, new@, i as int);
    }
    let before = content.len();
    let after = updated.as_str().len();
    let db = decimal_string(before as u64);
    let da = decimal_string(after as u64);
    let mut message = concat3("edited ", path, ": replaced 1 occurrence (");
    message.append(db.as_str());
    message.append(" bytes -> ");
    message.append(da.as_str());
    message.append(" bytes)");
    Ok(EditPlan { updated, message })
}

} // verus!
