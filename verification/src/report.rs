//! The report of a search in words: what was found, result by result.

use vstd::prelude::*;
use vstd::string::{StringExecFns, StringSliceAdditionalSpecFns};
use vstd::utf8::{decode_utf8, encode_utf8, encode_utf8_decode_utf8, is_char_boundary};
use crate::numeral::{decimal_text, spec_decimal};

verus! {

/// How many bytes of a result's content the report shows.
pub const EXCERPT_BYTES: usize = 200;

/// One result, as the report shows it. The similarity is already written
/// out, with two decimals.
#[derive(Debug, PartialEq, Eq)]
pub struct SearchHit {
    pub result_type: String,
    pub similarity: String,
    pub content: String,
}

/// The mathematical value of a [`SearchHit`].
pub struct SearchHitView {
    pub result_type: Seq<char>,
    pub similarity: Seq<char>,
    pub content: Seq<char>,
}

impl View for SearchHit {
    type V = SearchHitView;

    open spec fn view(&self) -> SearchHitView {
        SearchHitView {
            result_type: self.result_type@,
            similarity: self.similarity@,
            content: self.content@,
        }
    }
}

/// The mathematical value of a list of hits.
pub open spec fn hits_view(hits: Vec<SearchHit>) -> Seq<SearchHitView> {
    Seq::new(hits.len() as nat, |i: int| hits[i]@)
}

/// Whether a content can be cut for the report: it is short enough to be
/// shown whole, or its first [`EXCERPT_BYTES`] bytes end with a character.
pub open spec fn spec_can_excerpt(content: Seq<char>) -> bool {
    encode_utf8(content).len() > 200 ==> is_char_boundary(encode_utf8(content), 200)
}

/// A content as the report shows it: whole where it is at most
/// [`EXCERPT_BYTES`] bytes long, else the characters of its first
/// [`EXCERPT_BYTES`] bytes, and three dots.
pub open spec fn spec_excerpt(content: Seq<char>) -> Seq<char> {
    if encode_utf8(content).len() > 200 {
        decode_utf8(encode_utf8(content).subrange(0, 200)) + "..."@
    } else {
        content
    }
}

/// The line of the hit that is shown as number `number`.
pub open spec fn spec_hit_line(number: nat, hit: SearchHitView) -> Seq<char> {
    spec_decimal(number) + ". ["@ + hit.result_type + "] (similarity: "@ + hit.similarity + ")\n"@
        + spec_excerpt(hit.content) + "\n\n"@
}

/// The lines of `hits`, numbered from one.
pub open spec fn spec_hit_lines(hits: Seq<SearchHitView>) -> Seq<char>
    decreases hits.len(),
{
    if hits.len() == 0 {
        Seq::empty()
    } else {
        spec_hit_lines(hits.drop_last()) + spec_hit_line(hits.len(), hits.last())
    }
}

/// The head of a report: how much was found, and for which query where one
/// was given.
pub open spec fn spec_report_head(total: nat, query: Seq<char>) -> Seq<char> {
    "Found "@ + spec_decimal(total) + " results"@ + (if query.len() > 0 {
        " for query \""@ + query + "\""@
    } else {
        Seq::empty()
    })
}

/// The report of a search that found `total` results for `query`, of which
/// `hits` are shown.
pub open spec fn spec_report(total: nat, query: Seq<char>, hits: Seq<SearchHitView>) -> Seq<char> {
    spec_report_head(total, query) + (if hits.len() > 0 {
        ":\n\n"@ + spec_hit_lines(hits)
    } else {
        Seq::empty()
    })
}

/// The line that sums up how many results came back.
pub open spec fn spec_results_line(count: nat) -> Seq<char> {
    if count == 0 {
        "No results found"@
    } else if count == 1 {
        "1 result"@
    } else {
        spec_decimal(count) + " results"@
    }
}

/// Whether `content` can be cut for the report.
pub fn can_excerpt(content: &str) -> (can: bool)
    ensures
        can == spec_can_excerpt(content@),
{
    content.as_bytes().len() <= EXCERPT_BYTES || content.is_char_boundary(EXCERPT_BYTES)
}

/// Cuts `content` for the report; `None` where the cut would fall inside a
/// character.
pub fn excerpt(content: &str) -> (text: Option<String>)
    ensures
        text is Some <==> spec_can_excerpt(content@),
        text is Some ==> text->Some_0@ == spec_excerpt(content@),
{
    if content.as_bytes().len() <= EXCERPT_BYTES {
        Some(String::from_str(content))
    } else if content.is_char_boundary(EXCERPT_BYTES) {
        let (head, _) = content.split_at(EXCERPT_BYTES);
        proof {
            encode_utf8_decode_utf8(head@);
        }
        let mut text = String::from_str(head);
        text.append("...");
        Some(text)
    } else {
        None
    }
}

/// Words the report of a search that found `total` results for `query`, of
/// which `hits` are shown; `None` where the content of a hit cannot be cut.
pub fn report(total: usize, query: &str, hits: &Vec<SearchHit>) -> (text: Option<String>)
    ensures
        text is Some <==> forall|i: int|
            0 <= i < hits.len() ==> spec_can_excerpt((#[trigger] hits[i]).content@),
        text is Some ==> text->Some_0@ == spec_report(total as nat, query@, hits_view(*hits)),
{
    let mut text = String::from_str("Found ");
    text.append(decimal_text(total as u64).as_str());
    text.append(" results");
    if !query.is_empty() {
        text.append(" for query \"");
        text.append(query);
        text.append("\"");
    }
    assert(text@ =~= spec_report_head(total as nat, query@));
    if hits.len() == 0 {
        assert(text@ =~= spec_report(total as nat, query@, hits_view(*hits)));
        return Some(text);
    }
    text.append(":\n\n");
    let ghost head = text@;
    let mut i: usize = 0;
    assert(hits_view(*hits).take(0) =~= Seq::empty());
    assert(text@ =~= head + spec_hit_lines(hits_view(*hits).take(0)));
    while i < hits.len()
        invariant
            i <= hits.len(),
            text@ == head + spec_hit_lines(hits_view(*hits).take(i as int)),
            forall|j: int| 0 <= j < i ==> spec_can_excerpt((#[trigger] hits[j]).content@),
        decreases hits.len() - i,
    {
        let hit = &hits[i];
        let shown = match excerpt(hit.content.as_str()) {
            Some(shown) => shown,
            None => {
                return None;
            },
        };
        let ghost before = text@;
        text.append(decimal_text((i + 1) as u64).as_str());
        text.append(". [");
        text.append(hit.result_type.as_str());
        text.append("] (similarity: ");
        text.append(hit.similarity.as_str());
        text.append(")\n");
        text.append(shown.as_str());
        text.append("\n\n");
        proof {
            let seen = hits_view(*hits).take(i + 1);
            assert(seen.drop_last() =~= hits_view(*hits).take(i as int));
            assert(seen.last() == hit@);
            assert(text@ =~= before + spec_hit_line((i + 1) as nat, hit@));
        }
        i = i + 1;
    }
    assert(hits_view(*hits).take(i as int) =~= hits_view(*hits));
    assert(text@ =~= spec_report(total as nat, query@, hits_view(*hits)));
    Some(text)
}

/// Words the line that sums up how many results came back.
pub fn results_line(count: usize) -> (text: String)
    ensures
        text@ == spec_results_line(count as nat),
{
    if count == 0 {
        String::from_str("No results found")
    } else if count == 1 {
        String::from_str("1 result")
    } else {
        let mut text = decimal_text(count as u64);
        text.append(" results");
        text
    }
}

} // verus!
