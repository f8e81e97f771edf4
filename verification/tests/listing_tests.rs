use cracked::challenge::Challenge;
use cracked::score::Score;
use cracked::listing::{
    collect_challenges, parse_challenge_list, parse_challenge_row, read_rows, Cell, Link,
};
use cracked::search::{Arch, Language, Platform};

fn plain(text: &str) -> Cell {
    Cell { text: text.to_string(), link: None }
}

fn linked(text: &str, href: &str) -> Cell {
    Cell {
        text: text.to_string(),
        link: Some(Link { href: Some(href.to_string()), text: text.to_string() }),
    }
}

fn row_of(cells: [&str; 9], href: &str) -> Vec<Cell> {
    let mut row = vec![linked(cells[0], href), linked(cells[1], "/user")];
    for text in &cells[2..] {
        row.push(plain(text));
    }
    row
}

fn foo_cells() -> [&'static str; 9] {
    ["Foo", "Bar", "C/C++", "x86-64", "3.5", "4.0", "Windows", "2020-01-01", "2"]
}

fn foo() -> Challenge {
    Challenge {
        language: Language::Ccpp,
        author: "Bar".to_string(),
        name: "Foo".to_string(),
        url: "/foo123".to_string(),
        arch: Arch::X8664,
        difficulty: Score::parse("3.5").unwrap(),
        quality: Score::parse("4.0").unwrap(),
        platform: Platform::Windows,
    }
}

fn markup_row(name: &str, href: &str, difficulty: &str) -> String {
    format!(
        "<tr><td><a href=\"{}\">{}</a></td><td><a href=\"/user/bar\">Bar</a></td><td>C/C++</td><td>x86-64</td><td>{}</td><td>4.0</td><td>Windows</td><td>2020-01-01</td><td>2</td></tr>",
        href, name, difficulty
    )
}

fn page(rows: &[String]) -> String {
    format!(
        "<html><body><table><thead><tr><th>Name</th></tr></thead><tbody id=\"content-list\">{}</tbody></table></body></html>",
        rows.concat()
    )
}

#[test]
fn well_formed_row_gives_its_record() {
    let parsed = parse_challenge_row(&row_of(foo_cells(), "/foo123")).unwrap();
    assert_eq!(parsed, foo());
    assert_eq!(parsed.name, "Foo");
    assert_eq!(parsed.author, "Bar");
    assert_eq!(parsed.url, "/foo123");
    assert_eq!(parsed.language, Language::Ccpp);
    assert_eq!(parsed.arch, Arch::X8664);
    assert_eq!(parsed.platform, Platform::Windows);
    assert_eq!(parsed.difficulty.as_str().parse::<f32>(), Ok(3.5));
    assert_eq!(parsed.quality.as_str().parse::<f32>(), Ok(4.0));
}

#[test]
fn well_formed_markup_row_gives_its_record() {
    let listing = parse_challenge_list(&page(&[markup_row("Foo", "/foo123", "3.5")]));
    assert_eq!(listing.challenges, vec![foo()]);
    assert_eq!(listing.skipped, 0);
}

#[test]
fn cell_texts_are_trimmed() {
    let mut row = row_of(
        ["Foo", "Bar", " C/C++\n", "\tx86-64 ", "\n  3.5  ", " 4.0\u{a0}", "  Windows  ", "", ""],
        "/foo123",
    );
    row[0].link = Some(Link { href: Some("/foo123".to_string()), text: "\n   Foo \t".to_string() });
    row[1].link = Some(Link { href: None, text: "  Bar  ".to_string() });
    assert_eq!(parse_challenge_row(&row), Some(foo()));
}

#[test]
fn address_is_kept_as_it_is() {
    let row = row_of(foo_cells(), " /foo 123 ");
    assert_eq!(parse_challenge_row(&row).unwrap().url, " /foo 123 ");
}

#[test]
fn name_comes_from_the_anchor_not_the_cell() {
    let mut row = row_of(foo_cells(), "/foo123");
    row[0].text = "new! Foo".to_string();
    row[1].text = "by Bar".to_string();
    assert_eq!(parse_challenge_row(&row), Some(foo()));
}

#[test]
fn unknown_vocabulary_is_other() {
    let row = row_of(
        ["Foo", "Bar", "Cobol", "z80", "1", "2", "CP/M", "2020-01-01", "0"],
        "/x",
    );
    let parsed = parse_challenge_row(&row).unwrap();
    assert_eq!(parsed.language, Language::Other);
    assert_eq!(parsed.arch, Arch::Other);
    assert_eq!(parsed.platform, Platform::Other);
}

#[test]
fn short_row_is_skipped() {
    let mut row = row_of(foo_cells(), "/foo123");
    row.pop();
    assert_eq!(row.len(), 8);
    assert_eq!(parse_challenge_row(&row), None);
    assert_eq!(parse_challenge_row(&Vec::new()), None);
}

#[test]
fn longer_row_is_read_by_its_first_cells() {
    let mut row = row_of(foo_cells(), "/foo123");
    row.push(plain("extra"));
    assert_eq!(parse_challenge_row(&row), Some(foo()));
}

#[test]
fn row_without_name_anchor_is_skipped() {
    let mut row = row_of(foo_cells(), "/foo123");
    row[0].link = None;
    assert_eq!(parse_challenge_row(&row), None);
}

#[test]
fn row_without_address_is_skipped() {
    let mut row = row_of(foo_cells(), "/foo123");
    row[0].link = Some(Link { href: None, text: "Foo".to_string() });
    assert_eq!(parse_challenge_row(&row), None);
}

#[test]
fn row_without_author_anchor_is_skipped() {
    let mut row = row_of(foo_cells(), "/foo123");
    row[1].link = None;
    assert_eq!(parse_challenge_row(&row), None);
}

#[test]
fn row_with_non_numeric_difficulty_is_skipped() {
    let mut cells = foo_cells();
    cells[4] = "n/a";
    assert_eq!(parse_challenge_row(&row_of(cells, "/foo123")), None);
}

#[test]
fn row_with_non_numeric_quality_is_skipped() {
    let mut cells = foo_cells();
    cells[5] = "";
    assert_eq!(parse_challenge_row(&row_of(cells, "/foo123")), None);
    cells[5] = "4,0";
    assert_eq!(parse_challenge_row(&row_of(cells, "/foo123")), None);
}

#[test]
fn row_whose_score_names_no_number_is_skipped() {
    for word in ["NaN", "nan", "inf", "-inf", "Infinity", "+infinity"] {
        let mut cells = foo_cells();
        cells[4] = word;
        assert_eq!(parse_challenge_row(&row_of(cells, "/foo123")), None, "{}", word);
        let mut cells = foo_cells();
        cells[5] = word;
        assert_eq!(parse_challenge_row(&row_of(cells, "/foo123")), None, "{}", word);
    }
}

#[test]
fn markup_row_whose_difficulty_reads_nan_is_skipped() {
    let rows = [
        markup_row("One", "/1", "1.0"),
        markup_row("Foo", "/foo123", "NaN"),
        markup_row("Three", "/3", " 3.0 "),
    ];
    let listing = parse_challenge_list(&page(&rows));
    let names: Vec<&str> = listing.challenges.iter().map(|c| c.name.as_str()).collect();
    assert_eq!(names, vec!["One", "Three"]);
    assert_eq!(listing.skipped, 1);
}

#[test]
fn malformed_row_does_not_stop_the_rest() {
    let rows = [
        markup_row("One", "/1", "1.0"),
        markup_row("Two", "/2", "n/a"),
        markup_row("Three", "/3", "3.0"),
    ];
    let listing = parse_challenge_list(&page(&rows));
    let names: Vec<&str> = listing.challenges.iter().map(|c| c.name.as_str()).collect();
    assert_eq!(names, vec!["One", "Three"]);
    assert_eq!(listing.skipped, 1);
}

#[test]
fn valid_rows_keep_their_order_among_malformed_ones() {
    let rows = [
        "<tr><td>short</td></tr>".to_string(),
        markup_row("A", "/a", "1"),
        "<tr><td>no anchor</td><td><a>Bar</a></td><td>C/C++</td><td>x86</td><td>1</td><td>1</td><td>DOS</td><td></td><td></td></tr>".to_string(),
        markup_row("B", "/b", "2"),
        markup_row("C", "/c", "three"),
        markup_row("D", "/d", "4"),
        "<tr></tr>".to_string(),
    ];
    let listing = parse_challenge_list(&page(&rows));
    let names: Vec<&str> = listing.challenges.iter().map(|c| c.name.as_str()).collect();
    assert_eq!(names, vec!["A", "B", "D"]);
    assert_eq!(listing.challenges.len(), 3);
    assert_eq!(listing.skipped, 4);
}

#[test]
fn rows_as_values_keep_their_order_among_malformed_ones() {
    let mut bad = foo_cells();
    bad[4] = "n/a";
    let mut one = foo_cells();
    one[0] = "One";
    let mut two = foo_cells();
    two[0] = "Two";
    let rows = vec![
        row_of(bad, "/bad"),
        row_of(one, "/1"),
        vec![plain("short")],
        row_of(two, "/2"),
        Vec::new(),
    ];
    let listing = collect_challenges(&rows);
    let names: Vec<&str> = listing.challenges.iter().map(|c| c.name.as_str()).collect();
    assert_eq!(names, vec!["One", "Two"]);
    assert_eq!(listing.skipped, 3);
    assert_eq!(listing.challenges[0].url, "/1");
    assert_eq!(listing.challenges[1].url, "/2");
}

#[test]
fn no_rows_give_an_empty_listing() {
    let listing = collect_challenges(&Vec::new());
    assert_eq!(listing.challenges, Vec::new());
    assert_eq!(listing.skipped, 0);
}

#[test]
fn empty_document_gives_an_empty_listing() {
    let listing = parse_challenge_list("");
    assert_eq!(listing.challenges, Vec::new());
    assert_eq!(listing.skipped, 0);
}

#[test]
fn bare_document_gives_an_empty_listing() {
    let listing = parse_challenge_list("<html></html>");
    assert_eq!(listing.challenges, Vec::new());
    assert_eq!(listing.skipped, 0);
}

#[test]
fn table_without_matching_rows_gives_an_empty_listing() {
    let listing = parse_challenge_list(&page(&[]));
    assert_eq!(listing.challenges, Vec::new());
    assert_eq!(listing.skipped, 0);
}

#[test]
fn rows_of_another_table_are_not_read() {
    let html = format!(
        "<table><tbody id=\"other\">{}</tbody></table>",
        markup_row("Foo", "/foo123", "3.5")
    );
    assert_eq!(read_rows(&html), Vec::<Vec<Cell>>::new());
    assert_eq!(parse_challenge_list(&html).challenges, Vec::new());
}

#[test]
fn cells_are_read_with_their_text_and_first_anchor() {
    let html = page(&[
        "<tr><td> <b>new</b> <a href=\"/one\">On<i>e</i></a> <a href=\"/two\">Two</a></td><td><a>Bar</a></td><td>plain</td></tr>"
            .to_string(),
    ]);
    let rows = read_rows(&html);
    assert_eq!(
        rows,
        vec![vec![
            Cell {
                text: " new One Two".to_string(),
                link: Some(Link { href: Some("/one".to_string()), text: "One".to_string() }),
            },
            Cell {
                text: "Bar".to_string(),
                link: Some(Link { href: None, text: "Bar".to_string() }),
            },
            Cell { text: "plain".to_string(), link: None },
        ]]
    );
}

#[test]
fn markup_entities_are_decoded() {
    let listing = parse_challenge_list(&page(&[markup_row("Tom &amp; Jerry", "/t?a=1&amp;b=2", "2.5")]));
    assert_eq!(listing.challenges.len(), 1);
    assert_eq!(listing.challenges[0].name, "Tom & Jerry");
    assert_eq!(listing.challenges[0].url, "/t?a=1&b=2");
}
