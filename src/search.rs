//! Selecting the lines of a text that contain a query.
use vstd::prelude::*;
use crate::config::Config;
use crate::text::{contains, has_substring, lines_of, lower_of, split_lines, to_lower, views};

verus! {

/// Holds of the lines that contain `query`.
pub open spec fn holds_query(query: Seq<char>) -> spec_fn(Seq<char>) -> bool {
    |line: Seq<char>| has_substring(line, query)
}

/// Holds of the lines whose lower-case form contains that of `query`.
pub open spec fn holds_query_folded(query: Seq<char>) -> spec_fn(Seq<char>) -> bool {
    |line: Seq<char>| has_substring(lower_of(line), lower_of(query))
}

/// The lines of `contents` that contain `query`, in their original order.
pub open spec fn search_result(query: Seq<char>, contents: Seq<char>) -> Seq<Seq<char>> {
    lines_of(contents).filter(holds_query(query))
}

/// The lines of `contents` whose lower-case form contains the lower-case form
/// of `query`, in their original order and as they stand in `contents`.
pub open spec fn search_case_insensitive_result(query: Seq<char>, contents: Seq<char>) -> Seq<
    Seq<char>,
> {
    lines_of(contents).filter(holds_query_folded(query))
}

/// Appending one more line to a filtered prefix of `lines`.
proof fn lemma_filter_step(lines: Seq<Seq<char>>, i: int, pred: spec_fn(Seq<char>) -> bool)
    requires
        0 <= i < lines.len(),
    ensures
        lines.take(i + 1).filter(pred) == if pred(lines[i]) {
            lines.take(i).filter(pred).push(lines[i])
        } else {
            lines.take(i).filter(pred)
        },
{
    assert(lines.take(i + 1) =~= lines.take(i).push(lines[i]));
    lines.take(i).lemma_filter_push(lines[i], pred);
}

/// Returns the lines of `contents` that contain `query`, in order. Each is a
/// slice of `contents`, without its line ending.
pub fn search<'a>(query: &str, contents: &'a str) -> (r: Vec<&'a str>)
    ensures
        views(r@) == search_result(query@, contents@),
{
    let lines = split_lines(contents);
    let mut results: Vec<&'a str> = Vec::new();
    let mut i: usize = 0;
    while i < lines.len()
        invariant
            i <= lines.len(),
            views(lines@) == lines_of(contents@),
            views(results@) == views(lines@).take(i as int).filter(holds_query(query@)),
        decreases lines.len() - i,
    {
        let line = lines[i];
        proof {
            lemma_filter_step(views(lines@), i as int, holds_query(query@));
            assert(views(lines@)[i as int] == line@);
        }
        if contains(line, query) {
            results.push(line);
            assert(views(results@) =~= views(lines@).take(i as int).filter(holds_query(query@)).push(
                line@,
            ));
        }
        i += 1;
    }
    assert(views(lines@).take(i as int) =~= views(lines@));
    results
}

/// Returns the lines of `contents` that contain `query` when both are taken in
/// lower case, in order. Each is a slice of `contents` as it stands there.
pub fn search_case_insensitive<'a>(query: &str, contents: &'a str) -> (r: Vec<&'a str>)
    ensures
        views(r@) == search_case_insensitive_result(query@, contents@),
{
    let folded_query = to_lower(query);
    let lines = split_lines(contents);
    let mut results: Vec<&'a str> = Vec::new();
    let mut i: usize = 0;
    while i < lines.len()
        invariant
            i <= lines.len(),
            folded_query@ == lower_of(query@),
            views(lines@) == lines_of(contents@),
            views(results@) == views(lines@).take(i as int).filter(holds_query_folded(query@)),
        decreases lines.len() - i,
    {
        let line = lines[i];
        proof {
            lemma_filter_step(views(lines@), i as int, holds_query_folded(query@));
            assert(views(lines@)[i as int] == line@);
        }
        let folded_line = to_lower(line);
        if contains(folded_line.as_str(), folded_query.as_str()) {
            results.push(line);
            assert(views(results@) =~= views(lines@).take(i as int).filter(
                holds_query_folded(query@),
            ).push(line@));
        }
        i += 1;
    }
    assert(views(lines@).take(i as int) =~= views(lines@));
    results
}

/// Returns the matching lines of `contents` under the settings: those that
/// contain the query when letter case matters, else those that contain it when
/// both are taken in lower case.
pub fn matching_lines<'a>(config: &Config, contents: &'a str) -> (r: Vec<&'a str>)
    ensures
        views(r@) == if config.case_sensitive {
            search_result(config.query@, contents@)
        } else {
            search_case_insensitive_result(config.query@, contents@)
        },
{
    if config.case_sensitive {
        search(config.query, contents)
    } else {
        search_case_insensitive(config.query, contents)
    }
}

/// Filtering by a predicate that holds of every element keeps them all.
proof fn lemma_filter_all<A>(s: Seq<A>, pred: spec_fn(A) -> bool)
    requires
        forall|i: int| 0 <= i < s.len() ==> pred(#[trigger] s[i]),
    ensures
        s.filter(pred) == s,
    decreases s.len(),
{
    reveal(Seq::filter);
    if s.len() > 0 {
        assert forall|i: int| 0 <= i < s.drop_last().len() implies pred(#[trigger] s.drop_last()[i]) by {
            assert(s.drop_last()[i] == s[i]);
        }
        lemma_filter_all(s.drop_last(), pred);
        assert(s.drop_last().push(s.last()) =~= s);
    }
}

/// Where `weak` holds of every element of which `strong` holds, filtering by
/// `strong` gives what filtering by `weak` and then by `strong` gives.
proof fn lemma_filter_narrows<A>(s: Seq<A>, strong: spec_fn(A) -> bool, weak: spec_fn(A) -> bool)
    requires
        forall|i: int| 0 <= i < s.len() && strong(#[trigger] s[i]) ==> weak(s[i]),
    ensures
        s.filter(strong) == s.filter(weak).filter(strong),
    decreases s.len(),
{
    reveal(Seq::filter);
    if s.len() > 0 {
        let init = s.drop_last();
        assert forall|i: int| 0 <= i < init.len() && strong(#[trigger] init[i]) implies weak(init[i]) by {
            assert(init[i] == s[i]);
        }
        lemma_filter_narrows(init, strong, weak);
        assert(init.push(s.last()) =~= s);
        init.lemma_filter_push(s.last(), weak);
        init.filter(weak).lemma_filter_push(s.last(), strong);
    }
}

/// The empty query is contained in every line, so searching for it returns
/// every line of the text, in order.
pub proof fn lemma_empty_query_matches_every_line(contents: Seq<char>)
    ensures
        search_result(Seq::empty(), contents) == lines_of(contents),
{
    let lines = lines_of(contents);
    assert forall|i: int| 0 <= i < lines.len() implies holds_query(Seq::empty())(
        #[trigger] lines[i],
    ) by {
        let empty = Seq::<char>::empty();
        assert(lines[i].subrange(0, 0 + empty.len() as int) =~= empty);
        assert(has_substring(lines[i], empty));
    }
    lemma_filter_all(lines, holds_query(Seq::empty()));
}

/// Where folding to lower case keeps each occurrence of the query in the lines
/// of the text, the case-sensitive matches are exactly those case-insensitive
/// matches that contain the query: every case-sensitive match is also a
/// case-insensitive one, and they come in the same order.
pub proof fn lemma_search_within_case_insensitive(query: Seq<char>, contents: Seq<char>)
    requires
        forall|line: Seq<char>|
            lines_of(contents).contains(line) && has_substring(line, query) ==> has_substring(
                lower_of(line),
                lower_of(query),
            ),
    ensures
        search_result(query, contents) == search_case_insensitive_result(query, contents).filter(
            holds_query(query),
        ),
{
    let lines = lines_of(contents);
    assert forall|i: int| 0 <= i < lines.len() && holds_query(query)(#[trigger] lines[i]) implies holds_query_folded(query)(lines[i]) by {
        assert(lines.contains(lines[i]));
    }
    lemma_filter_narrows(lines, holds_query(query), holds_query_folded(query));
}

/// Both searches depend on the text of the query and of the contents alone:
/// searching again with the same inputs gives the same lines.
pub proof fn lemma_search_repeatable(query1: &str, contents1: &str, query2: &str, contents2: &str)
    requires
        query1@ == query2@,
        contents1@ == contents2@,
    ensures
        search_result(query1@, contents1@) == search_result(query2@, contents2@),
        search_case_insensitive_result(query1@, contents1@) == search_case_insensitive_result(
            query2@,
            contents2@,
        ),
{
}

} // verus!
