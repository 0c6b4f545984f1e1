use lbsync::balance::{
    balance_from_cells, balance_from_selection, extract_balance, normalize_amount, parse_balance,
    ExtractError, BALANCE_CELL, BALANCE_SELECTOR,
};

fn balance(amount: &str, currency: &str) -> Result<(String, String), ExtractError> {
    Ok((amount.to_string(), currency.to_string()))
}

fn cells(texts: &[&str]) -> Vec<String> {
    texts.iter().map(|t| t.to_string()).collect()
}

fn page(rows: &str) -> String {
    format!(
        "<!DOCTYPE html><html><head><title>LBS</title></head><body>\
         <div id=\"rechner_tarif_details\"><table>{}</table></div></body></html>",
        rows
    )
}

const TARIFF_ROWS: &str = "\
    <tr class=\"odd\"><td>Vertrag</td><td>12345678</td></tr>\
    <tr class=\"even\"><td>Tarif</td><td>Classic</td></tr>\
    <tr class=\"odd\"><td>Guthaben</td><td>1.234,56 EUR</td></tr>\
    <tr class=\"even\"><td>Zins</td><td>0,25 %</td></tr>";

#[test]
fn amount_and_currency_are_read() {
    assert_eq!(parse_balance("1.234,56 EUR"), balance("1234.56", "EUR"));
}

#[test]
fn amount_without_separators_is_kept() {
    assert_eq!(parse_balance("12 EUR"), balance("12", "EUR"));
}

#[test]
fn currency_is_taken_as_written() {
    assert_eq!(parse_balance("0,99 €"), balance("0.99", "€"));
    assert_eq!(parse_balance("5,00 1.000,0"), balance("5.00", "1.000,0"));
}

#[test]
fn whitespace_around_the_words_is_ignored() {
    assert_eq!(parse_balance("  1.234,56 \t\n EUR  "), balance("1234.56", "EUR"));
    assert_eq!(parse_balance("\n1.234,56\u{a0}EUR\n"), balance("1234.56", "EUR"));
}

#[test]
fn words_after_the_currency_are_ignored() {
    assert_eq!(parse_balance("1.234,56 EUR Stand heute"), balance("1234.56", "EUR"));
}

#[test]
fn markup_in_the_cell_is_split_like_text() {
    assert_eq!(parse_balance("<b>1.234,56</b> EUR"), balance("<b>1234.56</b>", "EUR"));
}

#[test]
fn empty_cell_has_unexpected_format() {
    assert_eq!(parse_balance(""), Err(ExtractError::UnexpectedFormat));
}

#[test]
fn blank_cell_has_unexpected_format() {
    assert_eq!(parse_balance(" \t \n"), Err(ExtractError::UnexpectedFormat));
}

#[test]
fn single_word_has_unexpected_format() {
    assert_eq!(parse_balance("1.234,56"), Err(ExtractError::UnexpectedFormat));
    assert_eq!(parse_balance("  1.234,56  "), Err(ExtractError::UnexpectedFormat));
    assert_eq!(parse_balance("1.234,56EUR"), Err(ExtractError::UnexpectedFormat));
}

#[test]
fn words_are_split_as_std_splits_whitespace() {
    let cells = [
        "",
        " ",
        "a",
        "a b",
        " a  b ",
        "a\tb\nc",
        "1.234,56\u{a0}EUR",
        "1.234,56\u{2003}EUR\u{3000}",
        "\u{85}x\u{1680}y",
        "x\u{200b}y z",
        "€ 5",
        "\r\n1,0\r\nCHF\r\n",
    ];
    for cell in cells {
        let mut words = cell.split_whitespace();
        let expected = match (words.next(), words.next()) {
            (Some(amount), Some(currency)) => {
                Ok((amount.replace('.', "").replace(',', "."), currency.to_string()))
            }
            _ => Err(ExtractError::UnexpectedFormat),
        };
        assert_eq!(parse_balance(cell), expected, "{:?}", cell);
    }
}

#[test]
fn normalize_drops_points_and_turns_commas() {
    assert_eq!(normalize_amount("1.234,56"), "1234.56");
    assert_eq!(normalize_amount("1.234.567,89"), "1234567.89");
    assert_eq!(normalize_amount("12"), "12");
    assert_eq!(normalize_amount("-0,5"), "-0.5");
    assert_eq!(normalize_amount(""), "");
    assert_eq!(normalize_amount("..."), "");
    assert_eq!(normalize_amount(",,"), "..");
    assert_eq!(normalize_amount("1,2,3.4"), "1.2.34");
}

#[test]
fn normalize_agrees_with_two_replacements() {
    for text in ["1.234,56", "", ".", ",", ".,.,", "a.b,c", "12,50", "1.000.000"] {
        assert_eq!(normalize_amount(text), text.replace('.', "").replace(',', "."));
    }
}

#[test]
fn the_fourth_cell_holds_the_balance() {
    assert_eq!(BALANCE_CELL, 3);
    assert_eq!(
        balance_from_cells(&cells(&["a b", "c d", "e f", "1.234,56 EUR"])),
        balance("1234.56", "EUR")
    );
    assert_eq!(
        balance_from_cells(&cells(&["1 A", "2 B", "3 C", "4 D", "5 E"])),
        balance("4", "D")
    );
}

#[test]
fn fewer_than_four_cells_is_not_found() {
    assert_eq!(balance_from_cells(&cells(&[])), Err(ExtractError::NotFound));
    assert_eq!(balance_from_cells(&cells(&["1.234,56 EUR"])), Err(ExtractError::NotFound));
    assert_eq!(
        balance_from_cells(&cells(&["1 EUR", "2 EUR", "3 EUR"])),
        Err(ExtractError::NotFound)
    );
}

#[test]
fn fourth_cell_of_one_word_has_unexpected_format() {
    assert_eq!(
        balance_from_cells(&cells(&["a b", "c d", "e f", ""])),
        Err(ExtractError::UnexpectedFormat)
    );
    assert_eq!(
        balance_from_cells(&cells(&["a b", "c d", "e f", "EUR"])),
        Err(ExtractError::UnexpectedFormat)
    );
}

#[test]
fn selection_without_cells_is_not_found() {
    assert_eq!(balance_from_selection(&None), Err(ExtractError::NotFound));
    assert_eq!(balance_from_selection(&Some(cells(&[]))), Err(ExtractError::NotFound));
    assert_eq!(
        balance_from_selection(&Some(cells(&["a", "b", "c", "7,5 CHF"]))),
        balance("7.5", "CHF")
    );
}

#[test]
fn the_selector_is_the_tariff_table() {
    assert_eq!(BALANCE_SELECTOR, "#rechner_tarif_details table tr.odd td");
}

#[test]
fn balance_is_read_from_the_page() {
    assert_eq!(extract_balance(&page(TARIFF_ROWS)), balance("1234.56", "EUR"));
}

#[test]
fn only_odd_rows_are_counted() {
    let rows = "\
        <tr class=\"even\"><td>1 A</td><td>2 B</td><td>3 C</td><td>4 D</td></tr>\
        <tr class=\"odd\"><td>5 E</td><td>6 F</td><td>7 G</td><td>8 H</td></tr>";
    assert_eq!(extract_balance(&page(rows)), balance("8", "H"));
}

#[test]
fn cells_outside_the_container_are_not_counted() {
    let text = format!(
        "<html><body><table><tr class=\"odd\"><td>1 A</td><td>2 B</td><td>3 C</td>\
         <td>4 D</td></tr></table>{}</body></html>",
        "<div id=\"rechner_tarif_details\"><table><tr class=\"odd\"><td>5 E</td><td>6 F</td>\
         <td>7 G</td><td>9,5 EUR</td></tr></table></div>"
    );
    assert_eq!(extract_balance(&text), balance("9.5", "EUR"));
}

#[test]
fn page_without_the_container_is_not_found() {
    let text = "<html><body><table><tr class=\"odd\"><td>1 A</td><td>2 B</td><td>3 C</td>\
                <td>1.234,56 EUR</td></tr></table></body></html>";
    assert_eq!(extract_balance(text), Err(ExtractError::NotFound));
}

#[test]
fn page_with_three_cells_is_not_found() {
    let rows = "<tr class=\"odd\"><td>1 A</td><td>2 B</td><td>1.234,56 EUR</td></tr>";
    assert_eq!(extract_balance(&page(rows)), Err(ExtractError::NotFound));
}

#[test]
fn empty_page_is_not_found() {
    assert_eq!(extract_balance(""), Err(ExtractError::NotFound));
}

#[test]
fn broken_markup_does_not_stop_the_reading() {
    let text = "<div id=rechner_tarif_details><table><tr class=odd><td>1 A<td>2 B\
                <tr class=odd><td>3 C<td>1.234,56 EUR</table";
    assert_eq!(extract_balance(text), balance("1234.56", "EUR"));
    assert_eq!(extract_balance("<<<>>></td></table><div"), Err(ExtractError::NotFound));
}

#[test]
fn page_with_an_empty_fourth_cell_has_unexpected_format() {
    let rows = "<tr class=\"odd\"><td>1 A</td><td>2 B</td><td>3 C</td><td></td></tr>";
    assert_eq!(extract_balance(&page(rows)), Err(ExtractError::UnexpectedFormat));
}

#[test]
fn inner_markup_of_the_cell_is_part_of_its_text() {
    let rows = "<tr class=\"odd\"><td>1 A</td><td>2 B</td><td>3 C</td>\
                <td><span class=\"sum\">1.234,56</span> EUR</td></tr>";
    assert_eq!(
        extract_balance(&page(rows)),
        balance("<span", "class=\"sum\">1.234,56</span>")
    );
}

#[test]
fn extract_errors_say_what_was_missing() {
    assert_eq!(ExtractError::NotFound.message(), "Field with balance not found");
    assert_eq!(
        ExtractError::UnexpectedFormat.message(),
        "Balance field has unexpected format"
    );
}
