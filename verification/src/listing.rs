//! Reading the results table: from the markup to rows of cells, and from
//! rows of cells to challenge records.

use crate::challenge::{Challenge, ChallengeView};
use crate::markup::{
    document_matches, document_of, element_attr, element_attr_of, element_matches, element_text,
    element_text_of, parse_document, parse_selector, select_in_document, select_in_element,
    selector_of,
};
use crate::score::{is_digit, is_score_text, lemma_score_holds_a_digit, Score};
use crate::search::{Arch, Language, Platform};
use crate::text::{trim, trim_of};
use scraper::{ElementRef, Selector};
use vstd::prelude::*;

verus! {

/// What an anchor holds, as mathematical values.
pub struct LinkView {
    pub href: Option<Seq<char>>,
    pub text: Seq<char>,
}

/// An anchor inside a table cell: its address, where it has one, and its
/// text.
#[derive(Debug, Clone, PartialEq, Eq)]
pub struct Link {
    pub href: Option<String>,
    pub text: String,
}

impl View for Link {
    type V = LinkView;

    open spec fn view(&self) -> LinkView {
        LinkView { href: self.href.deep_view(), text: self.text@ }
    }
}

impl DeepView for Link {
    type V = LinkView;

    open spec fn deep_view(&self) -> LinkView {
        self@
    }
}

/// What a table cell holds, as mathematical values.
pub struct CellView {
    pub text: Seq<char>,
    pub link: Option<LinkView>,
}

/// One cell of a result row: all of its text, and its first anchor where it
/// has one.
#[derive(Debug, Clone, PartialEq, Eq)]
pub struct Cell {
    pub text: String,
    pub link: Option<Link>,
}

impl View for Cell {
    type V = CellView;

    open spec fn view(&self) -> CellView {
        CellView { text: self.text@, link: self.link.deep_view() }
    }
}

impl DeepView for Cell {
    type V = CellView;

    open spec fn deep_view(&self) -> CellView {
        self@
    }
}

/// The number of cells that the catalog's table gives each entry: name,
/// author, language, architecture, difficulty, quality, platform, date and
/// number of write-ups, in that order.
pub const ROW_CELLS: usize = 9;

/// The record that a row of cells describes, or `None` where the row is no
/// valid entry.
///
/// A row is valid when it has at least `ROW_CELLS` cells, its first cell
/// holds an anchor with an address, its second cell holds an anchor, and
/// the trimmed texts of its fifth and sixth cells write scores. Language,
/// architecture and platform are read from the trimmed texts of the third,
/// fourth and seventh cells; what the vocabulary does not know is `Other`.
pub open spec fn challenge_of_row(row: Seq<CellView>) -> Option<ChallengeView> {
    if row.len() < ROW_CELLS {
        None
    } else if row[0].link is None || row[0].link->0.href is None || row[1].link is None {
        None
    } else if !is_score_text(trim_of(row[4].text)) || !is_score_text(trim_of(row[5].text)) {
        None
    } else {
        Some(
            ChallengeView {
                language: Language::of_wire(trim_of(row[2].text)),
                author: trim_of(row[1].link->0.text),
                name: trim_of(row[0].link->0.text),
                url: row[0].link->0.href->0,
                arch: Arch::of_wire(trim_of(row[3].text)),
                difficulty: trim_of(row[4].text),
                quality: trim_of(row[5].text),
                platform: Platform::of_wire(trim_of(row[6].text)),
            },
        )
    }
}

/// The records of the valid rows among `rows`, in the order of their rows.
pub open spec fn challenges_of_rows(rows: Seq<Seq<CellView>>) -> Seq<ChallengeView> {
    rows.filter_map(|row: Seq<CellView>| challenge_of_row(row))
}

/// Whether a row of cells is a valid entry.
pub open spec fn is_valid_row(row: Seq<CellView>) -> bool {
    challenge_of_row(row) is Some
}

/// A row is a valid entry exactly when it has its nine cells, an anchor
/// with an address in the first, an anchor in the second, and decimal
/// numbers as the trimmed texts of the fifth and sixth. What the language,
/// architecture and platform cells hold never makes a row invalid. The
/// scores of its record are those trimmed texts, and each holds a digit.
pub proof fn lemma_valid_rows_have_numeric_scores(row: Seq<CellView>)
    ensures
        is_valid_row(row) <==> {
            &&& row.len() >= ROW_CELLS
            &&& row[0].link is Some
            &&& row[0].link->0.href is Some
            &&& row[1].link is Some
            &&& is_score_text(trim_of(row[4].text))
            &&& is_score_text(trim_of(row[5].text))
        },
        is_valid_row(row) ==> {
            let record = challenge_of_row(row)->0;
            &&& record.difficulty == trim_of(row[4].text)
            &&& record.quality == trim_of(row[5].text)
            &&& exists|i: int|
                0 <= i < record.difficulty.len() && is_digit(#[trigger] record.difficulty[i])
            &&& exists|i: int|
                0 <= i < record.quality.len() && is_digit(#[trigger] record.quality[i])
        },
{
    if is_valid_row(row) {
        lemma_score_holds_a_digit(trim_of(row[4].text));
        lemma_score_holds_a_digit(trim_of(row[5].text));
    }
}

/// Reading a table keeps exactly its valid rows: there are as many records
/// as valid rows, and the records are those of the valid rows in the order
/// of their rows, however many other rows stand between them.
pub proof fn lemma_valid_rows_kept_in_order(rows: Seq<Seq<CellView>>)
    ensures
        challenges_of_rows(rows).len() == rows.filter(|row: Seq<CellView>| is_valid_row(row)).len(),
        challenges_of_rows(rows) == rows.filter(|row: Seq<CellView>| is_valid_row(row)).map_values(
            |row: Seq<CellView>| challenge_of_row(row)->0,
        ),
    decreases rows.len(),
{
    reveal(Seq::filter);
    let read = |row: Seq<CellView>| challenge_of_row(row);
    let valid = |row: Seq<CellView>| is_valid_row(row);
    let record = |row: Seq<CellView>| challenge_of_row(row)->0;
    if rows.len() > 0 {
        lemma_valid_rows_kept_in_order(rows.drop_last());
        let before = rows.drop_last();
        if is_valid_row(rows.last()) {
            assert(rows.filter(valid) == before.filter(valid).push(rows.last()));
            assert(rows.filter(valid).map_values(record) =~= before.filter(valid).map_values(
                record,
            ).push(record(rows.last())));
            assert(rows.filter_map(read) =~= before.filter_map(read).push(record(rows.last())));
        } else {
            assert(rows.filter(valid) == before.filter(valid));
        }
    } else {
        assert(rows.filter(valid).map_values(record) =~= Seq::empty());
    }
}

/// Reads one row of the results table. A row that is no valid entry gives
/// `None`.
pub fn parse_challenge_row(row: &Vec<Cell>) -> (parsed: Option<Challenge>)
    ensures
        parsed.deep_view() == challenge_of_row(row.deep_view()),
{
    if row.len() < ROW_CELLS {
        return None;
    }
    let link = match &row[0].link {
        Some(link) => link,
        None => {
            return None;
        },
    };
    let url = match &link.href {
        Some(href) => href.clone(),
        None => {
            return None;
        },
    };
    let name = trim(link.text.as_str()).to_owned();
    let author = match &row[1].link {
        Some(link) => trim(link.text.as_str()).to_owned(),
        None => {
            return None;
        },
    };
    let language = Language::from(trim(row[2].text.as_str()));
    let arch = Arch::from(trim(row[3].text.as_str()));
    let difficulty = match Score::parse(trim(row[4].text.as_str())) {
        Some(score) => score,
        None => {
            return None;
        },
    };
    let quality = match Score::parse(trim(row[5].text.as_str())) {
        Some(score) => score,
        None => {
            return None;
        },
    };
    let platform = Platform::from(trim(row[6].text.as_str()));
    Some(Challenge { language, author, name, url, arch, difficulty, quality, platform })
}

/// The outcome of reading a results table.
#[derive(Debug, Clone, PartialEq, Eq)]
pub struct Listing {
    /// The records of the valid rows, in the order of their rows.
    pub challenges: Vec<Challenge>,
    /// The number of rows that were passed over as no valid entry.
    pub skipped: usize,
}

/// Reads every row of a results table, passing over the rows that are no
/// valid entry and counting them.
pub fn collect_challenges(rows: &Vec<Vec<Cell>>) -> (listing: Listing)
    ensures
        listing.challenges.deep_view() == challenges_of_rows(rows.deep_view()),
        listing.challenges.len() + listing.skipped == rows.len(),
{
    let ghost read = |row: Seq<CellView>| challenge_of_row(row);
    let ghost all = rows.deep_view();
    let mut challenges: Vec<Challenge> = Vec::new();
    let mut skipped: usize = 0;
    let mut i: usize = 0;
    while i < rows.len()
        invariant
            0 <= i <= rows.len(),
            all == rows.deep_view(),
            read == |row: Seq<CellView>| challenge_of_row(row),
            challenges.deep_view() == all.take(i as int).filter_map(read),
            challenges.len() + skipped == i,
        decreases rows.len() - i,
    {
        let ghost before = challenges.deep_view();
        let parsed = parse_challenge_row(&rows[i]);
        proof {
            all.lemma_filter_map_take_succ(read, i as int);
            assert(all[i as int] == rows[i as int].deep_view());
        }
        match parsed {
            Some(challenge) => {
                challenges.push(challenge);
                assert(challenges.deep_view() =~= before + seq![challenge@]);
            },
            None => {
                skipped += 1;
            },
        }
        i += 1;
    }
    assert(all.take(rows.len() as int) =~= all);
    Listing { challenges, skipped }
}

/// The selector of the rows of the results table.
pub open spec fn row_selector() -> Seq<char> {
    "tbody#content-list > tr"@
}

/// The selector of the cells of a row.
pub open spec fn cell_selector() -> Seq<char> {
    "td"@
}

/// The selector of the anchors of a cell.
pub open spec fn link_selector() -> Seq<char> {
    "a"@
}

/// The anchor that an element is: its `href` attribute and its text.
pub open spec fn link_of(el: ElementRef<'static>) -> LinkView {
    LinkView { href: element_attr_of(el, "href"@), text: element_text_of(el) }
}

/// The cell that an element is: its text, and the first of the anchors
/// below it.
pub open spec fn cell_of(el: ElementRef<'static>, links: Selector) -> CellView {
    let anchors = element_matches(el, links);
    CellView {
        text: element_text_of(el),
        link: if anchors.len() > 0 {
            Some(link_of(anchors[0]))
        } else {
            None
        },
    }
}

/// The row that an element is: the cells below it, in document order.
pub open spec fn row_of(
    el: ElementRef<'static>,
    cells: Selector,
    links: Selector,
) -> Seq<CellView> {
    element_matches(el, cells).map_values(|cell: ElementRef<'static>| cell_of(cell, links))
}

/// The rows of the results table of a document, in the order in which the
/// document yields them. A document without such a table has no rows.
pub open spec fn rows_of_document(html: Seq<char>) -> Seq<Seq<CellView>> {
    let rows = selector_of(row_selector());
    let cells = selector_of(cell_selector());
    let links = selector_of(link_selector());
    if rows is Some && cells is Some && links is Some {
        document_matches(document_of(html), rows->0).map_values(
            |row: ElementRef<'static>| row_of(row, cells->0, links->0),
        )
    } else {
        Seq::empty()
    }
}

fn read_link(el: &ElementRef<'_>) -> (link: Link)
    ensures
        link@ == link_of(*el),
{
    Link { href: element_attr(el, "href"), text: element_text(el) }
}

fn read_cell(el: &ElementRef<'_>, links: &Selector) -> (cell: Cell)
    ensures
        cell@ == cell_of(*el, *links),
{
    let anchors = select_in_element(el, links);
    let link = if anchors.len() > 0 {
        Some(read_link(&anchors[0]))
    } else {
        None
    };
    Cell { text: element_text(el), link }
}

fn read_row(el: &ElementRef<'_>, cells: &Selector, links: &Selector) -> (row: Vec<Cell>)
    ensures
        row.deep_view() == row_of(*el, *cells, *links),
{
    let found = select_in_element(el, cells);
    let mut row: Vec<Cell> = Vec::new();
    let mut i: usize = 0;
    while i < found.len()
        invariant
            0 <= i <= found.len(),
            found@ == element_matches(*el, *cells),
            row.len() == i,
            forall|j: int| 0 <= j < i ==> row[j]@ == cell_of(found[j], *links),
        decreases found.len() - i,
    {
        row.push(read_cell(&found[i], links));
        i += 1;
    }
    assert(row.deep_view() =~= row_of(*el, *cells, *links));
    row
}

/// Reads the rows of the results table out of a document.
pub fn read_rows(html: &str) -> (rows: Vec<Vec<Cell>>)
    ensures
        rows.deep_view() == rows_of_document(html@),
{
    let mut rows: Vec<Vec<Cell>> = Vec::new();
    let row_sel = match parse_selector("tbody#content-list > tr") {
        Some(sel) => sel,
        None => {
            assert(rows.deep_view() =~= rows_of_document(html@));
            return rows;
        },
    };
    let cell_sel = match parse_selector("td") {
        Some(sel) => sel,
        None => {
            assert(rows.deep_view() =~= rows_of_document(html@));
            return rows;
        },
    };
    let link_sel = match parse_selector("a") {
        Some(sel) => sel,
        None => {
            assert(rows.deep_view() =~= rows_of_document(html@));
            return rows;
        },
    };
    let doc = parse_document(html);
    let found = select_in_document(&doc, &row_sel);
    let mut i: usize = 0;
    while i < found.len()
        invariant
            0 <= i <= found.len(),
            found@ == document_matches(doc, row_sel),
            rows.len() == i,
            forall|j: int|
                0 <= j < i ==> (#[trigger] rows[j]).deep_view() == row_of(
                    found[j],
                    cell_sel,
                    link_sel,
                ),
        decreases found.len() - i,
    {
        rows.push(read_row(&found[i], &cell_sel, &link_sel));
        i += 1;
    }
    assert(rows.deep_view() =~= rows_of_document(html@));
    rows
}

/// Reads the challenge records out of the document that answers a search.
///
/// The result is the records of the valid rows of the results table, in
/// document order. A document without such a table, or without a valid
/// row, gives an empty listing.
pub fn parse_challenge_list(html: &str) -> (listing: Listing)
    ensures
        listing.challenges.deep_view() == challenges_of_rows(rows_of_document(html@)),
        listing.challenges.len() + listing.skipped == rows_of_document(html@).len(),
{
    let rows = read_rows(html);
    collect_challenges(&rows)
}

} // verus!
