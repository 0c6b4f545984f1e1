//! Reading the balance out of the portal's page.
//!
//! The page is handed to `scraper`, which parses it and returns the cells of
//! the tariff table. The fourth cell reads like `1.234,56 EUR`: an amount in
//! German notation, whitespace, and a currency. From there on everything is
//! decided here: which cell is taken, how it is split into words, and how the
//! amount is rewritten.

use crate::text::{
    chars_of, is_blank, is_space, is_word, lemma_word_end, lemma_word_end_at, lemma_word_start,
    lemma_word_start_at, skip_spaces, skip_word, text_between, words, words_from,
};
use vstd::prelude::*;

verus! {

/// The cells of the tariff table: every `td` in a row of class `odd`, in a
/// table inside the element with the identifier `rechner_tarif_details`.
pub const BALANCE_SELECTOR: &'static str = "#rechner_tarif_details table tr.odd td";

/// The position, counted from zero, of the cell that holds the balance.
pub const BALANCE_CELL: usize = 3;

/// Why no balance could be read from a page.
#[derive(Debug, Clone, Copy, PartialEq, Eq, Structural)]
pub enum ExtractError {
    /// The page has fewer cells than the position of the balance asks for.
    NotFound,
    /// The cell does not hold two words, an amount and a currency.
    UnexpectedFormat,
}

impl ExtractError {
    /// What the error says to a reader.
    pub open spec fn message_text(self) -> Seq<char> {
        match self {
            ExtractError::NotFound => "Field with balance not found"@,
            ExtractError::UnexpectedFormat => "Balance field has unexpected format"@,
        }
    }

    /// What the error says to a reader.
    pub fn message(self) -> (r: &'static str)
        ensures
            r@ == self.message_text(),
    {
        match self {
            ExtractError::NotFound => "Field with balance not found",
            ExtractError::UnexpectedFormat => "Balance field has unexpected format",
        }
    }
}

/// What a reading yields as a value of specifications: the amount and the
/// currency, or the reason why there is none.
pub type Reading = Result<(Seq<char>, Seq<char>), ExtractError>;

/// The inner HTML of each element that `selector` matches in `document`, in
/// the order in which `scraper` yields the matches; `None` where `scraper`
/// does not accept `selector` as a CSS selector group.
pub uninterp spec fn selected_inner_html(document: Seq<char>, selector: Seq<char>) -> Option<
    Seq<Seq<char>>,
>;

/// The view of an executable selection.
pub open spec fn selection_view(selection: Option<Vec<String>>) -> Option<Seq<Seq<char>>> {
    match selection {
        Some(cells) => Some(cells.deep_view()),
        None => None,
    }
}

/// Parses `document` with `scraper::Html::parse_document`, parses `selector`
/// with `scraper::Selector::parse`, walks `Html::select` and takes
/// `ElementRef::inner_html` of every match.
///
/// The contract gives the outcome its name, `selected_inner_html`, and says
/// nothing of what it holds: the parsing of HTML and the matching of selectors
/// are `scraper`'s.
#[verifier::external_body]
fn select_inner_html(document: &str, selector: &str) -> (r: Option<Vec<String>>)
    ensures
        selection_view(r) == selected_inner_html(document@, selector@),
{
    let selector = scraper::Selector::parse(selector).ok()?;
    let html = scraper::Html::parse_document(document);
    Some(html.select(&selector).map(|cell| cell.inner_html()).collect())
}

/// An amount without the points that group its thousands.
pub open spec fn without_grouping(amount: Seq<char>) -> Seq<char> {
    amount.filter(|c: char| c != '.')
}

/// An amount with each comma turned into a point.
pub open spec fn with_decimal_point(amount: Seq<char>) -> Seq<char> {
    amount.map_values(
        |c: char|
            if c == ',' {
                '.'
            } else {
                c
            },
    )
}

/// An amount in machine notation: the points that group the thousands are
/// dropped, then the decimal comma becomes a point.
pub open spec fn normalized_amount(amount: Seq<char>) -> Seq<char> {
    with_decimal_point(without_grouping(amount))
}

/// Normalizing goes character by character: a point leaves nothing behind, a
/// comma leaves a point, and any other character leaves itself.
pub proof fn lemma_normalized_push(amount: Seq<char>, c: char)
    ensures
        normalized_amount(amount.push(c)) == if c == '.' {
            normalized_amount(amount)
        } else if c == ',' {
            normalized_amount(amount).push('.')
        } else {
            normalized_amount(amount).push(c)
        },
        normalized_amount(Seq::empty()) == Seq::<char>::empty(),
{
    reveal(Seq::filter);
    assert(amount.push(c).drop_last() =~= amount);
}

/// What a cell yields: its first word as the amount, normalized, and its
/// second word as the currency, untouched. A cell of fewer than two words
/// yields nothing.
pub open spec fn balance_of_cell(cell: Seq<char>) -> Reading {
    let found = words(cell);
    if found.len() < 2 {
        Err(ExtractError::UnexpectedFormat)
    } else {
        Ok((normalized_amount(found[0]), found[1]))
    }
}

/// What the selected cells yield: what the cell at `BALANCE_CELL` yields, and
/// nothing where there are too few cells.
pub open spec fn balance_of_cells(cells: Seq<Seq<char>>) -> Reading {
    if cells.len() <= BALANCE_CELL {
        Err(ExtractError::NotFound)
    } else {
        balance_of_cell(cells[BALANCE_CELL as int])
    }
}

/// What a selection yields: what its cells yield, and nothing where the
/// selector was not accepted.
pub open spec fn balance_of_selection(selection: Option<Seq<Seq<char>>>) -> Reading {
    match selection {
        Some(cells) => balance_of_cells(cells),
        None => Err(ExtractError::NotFound),
    }
}

/// The view of an executable reading.
pub open spec fn reading_view(r: Result<(String, String), ExtractError>) -> Reading {
    match r {
        Ok((amount, currency)) => Ok((amount@, currency@)),
        Err(e) => Err(e),
    }
}

/// A cell that reads as an amount, whitespace, and a currency yields the
/// amount normalized and the currency as it stands. Whitespace in front of the
/// amount changes nothing, nor does anything that follows the currency after
/// more whitespace.
pub proof fn lemma_amount_and_currency(
    lead: Seq<char>,
    amount: Seq<char>,
    gap: Seq<char>,
    currency: Seq<char>,
    rest: Seq<char>,
)
    requires
        is_blank(lead),
        is_word(amount),
        is_blank(gap) && gap.len() > 0,
        is_word(currency),
        rest.len() > 0 ==> is_space(rest[0]),
    ensures
        balance_of_cell(lead + amount + gap + currency + rest) == Ok::<_, ExtractError>(
            (normalized_amount(amount), currency),
        ),
{
    let cell = lead + amount + gap + currency + rest;
    let a = lead.len() as int;
    let b = a + amount.len();
    let c = b + gap.len();
    let d = c + currency.len();
    lemma_word_start_at(cell, 0, a);
    lemma_word_end_at(cell, a, b);
    lemma_word_start_at(cell, b, c);
    lemma_word_end_at(cell, c, d);
    assert(cell.subrange(a, b) =~= amount);
    assert(cell.subrange(c, d) =~= currency);
    assert(words_from(cell, b) == seq![currency] + words_from(cell, d));
}

/// A cell of one word or none has an unexpected format: so the empty cell,
/// and so a cell of whitespace only.
pub proof fn lemma_too_few_words(lead: Seq<char>, word: Seq<char>, trail: Seq<char>)
    requires
        is_blank(lead),
        word.len() == 0 || is_word(word),
        is_blank(trail),
    ensures
        balance_of_cell(lead + word + trail) == Err::<(Seq<char>, Seq<char>), _>(
            ExtractError::UnexpectedFormat,
        ),
{
    let cell = lead + word + trail;
    let a = lead.len() as int;
    let b = a + word.len();
    let n = cell.len() as int;
    if word.len() == 0 {
        lemma_word_start_at(cell, 0, n);
    } else {
        lemma_word_start_at(cell, 0, a);
        lemma_word_end_at(cell, a, b);
        lemma_word_start_at(cell, b, n);
        assert(words_from(cell, b) =~= Seq::<Seq<char>>::empty());
    }
}

/// Rewrites the characters of `v` from `from` up to `to` as an amount in
/// machine notation.
fn normalize_between(v: &Vec<char>, from: usize, to: usize) -> (r: String)
    requires
        from <= to <= v.len(),
    ensures
        r@ == normalized_amount(v@.subrange(from as int, to as int)),
{
    let mut out = String::new();
    let mut i: usize = from;
    while i < to
        invariant
            from <= i <= to <= v.len(),
            out@ == normalized_amount(v@.subrange(from as int, i as int)),
        decreases to - i,
    {
        let c: char = v[i];
        proof {
            lemma_normalized_push(v@.subrange(from as int, i as int), c);
            assert(v@.subrange(from as int, i + 1) =~= v@.subrange(from as int, i as int).push(c));
        }
        if c == ',' {
            out.push('.');
        } else if c != '.' {
            out.push(c);
        }
        i += 1;
    }
    out
}

/// Rewrites an amount in German notation as one in machine notation:
/// `1.234,56` becomes `1234.56`.
pub fn normalize_amount(amount: &str) -> (r: String)
    ensures
        r@ == normalized_amount(amount@),
{
    let v = chars_of(amount);
    assert(v@.subrange(0, v@.len() as int) =~= v@);
    normalize_between(&v, 0, v.len())
}

/// Reads the amount and the currency out of the text of one cell.
///
/// The first word is the amount and is normalized; the second is the currency
/// and is kept as it stands; further words are ignored. With fewer than two
/// words the cell has an unexpected format.
pub fn parse_balance(cell: &str) -> (r: Result<(String, String), ExtractError>)
    ensures
        reading_view(r) == balance_of_cell(cell@),
        r is Err <==> words(cell@).len() < 2,
        r matches Ok((_, currency)) ==> is_word(currency@),
{
    let v = chars_of(cell);
    let amount_start: usize = skip_spaces(&v, 0);
    if amount_start >= v.len() {
        return Err(ExtractError::UnexpectedFormat);
    }
    let amount_end: usize = skip_word(&v, amount_start);
    let currency_start: usize = skip_spaces(&v, amount_end);
    proof {
        assert(words(v@) == seq![v@.subrange(amount_start as int, amount_end as int)] + words_from(
            v@,
            amount_end as int,
        ));
    }
    if currency_start >= v.len() {
        return Err(ExtractError::UnexpectedFormat);
    }
    let currency_end: usize = skip_word(&v, currency_start);
    proof {
        lemma_word_start(v@, amount_end as int);
        lemma_word_end(v@, currency_start as int);
    }
    let amount = normalize_between(&v, amount_start, amount_end);
    let currency = text_between(&v, currency_start, currency_end);
    Ok((amount, currency))
}

/// Reads the balance out of the cells that the selector matched: the cell at
/// `BALANCE_CELL` is the one that holds it.
pub fn balance_from_cells(cells: &Vec<String>) -> (r: Result<(String, String), ExtractError>)
    ensures
        reading_view(r) == balance_of_cells(cells.deep_view()),
        cells.len() <= BALANCE_CELL ==> r == Err::<(String, String), _>(ExtractError::NotFound),
{
    if cells.len() <= BALANCE_CELL {
        return Err(ExtractError::NotFound);
    }
    parse_balance(cells[BALANCE_CELL].as_str())
}

/// Reads the balance out of what the selection of the cells gave.
pub fn balance_from_selection(selection: &Option<Vec<String>>) -> (r: Result<
    (String, String),
    ExtractError,
>)
    ensures
        reading_view(r) == balance_of_selection(selection_view(*selection)),
{
    match selection {
        Some(cells) => balance_from_cells(cells),
        None => Err(ExtractError::NotFound),
    }
}

/// Reads the balance out of the portal's page.
///
/// The page is parsed leniently, so markup that is broken yields fewer cells
/// and not a failure of its own.
pub fn extract_balance(page: &str) -> (r: Result<(String, String), ExtractError>)
    ensures
        reading_view(r) == balance_of_selection(selected_inner_html(page@, BALANCE_SELECTOR@)),
        match selected_inner_html(page@, BALANCE_SELECTOR@) {
            Some(cells) => {
                &&& cells.len() <= BALANCE_CELL ==> r == Err::<(String, String), _>(
                    ExtractError::NotFound,
                )
                &&& cells.len() > BALANCE_CELL && words(cells[BALANCE_CELL as int]).len() < 2 ==> r
                    == Err::<(String, String), _>(ExtractError::UnexpectedFormat)
                &&& cells.len() > BALANCE_CELL && words(cells[BALANCE_CELL as int]).len() >= 2
                    ==> r is Ok
            },
            None => r == Err::<(String, String), _>(ExtractError::NotFound),
        },
{
    let selection = select_inner_html(page, BALANCE_SELECTOR);
    balance_from_selection(&selection)
}

} // verus!
