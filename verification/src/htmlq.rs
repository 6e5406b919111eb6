use vstd::prelude::*;

verus! {

/// The named attribute of the first element that the CSS selector matches
/// in the document, or `None` where the selector is invalid, nothing
/// matches, or the element lacks the attribute. A function of the three
/// texts alone.
pub uninterp spec fn selected_attr_of(
    html: Seq<char>,
    selector: Seq<char>,
    attr: Seq<char>,
) -> Option<Seq<char>>;

/// Relies on scraper::Html::parse_document, scraper::Selector::parse,
/// scraper::Html::select and scraper::ElementRef::attr: the attribute of
/// the first match of the selector.
#[verifier::external_body]
pub(crate) fn select_first_attr(html: &str, selector: &str, attr: &str) -> (r: Option<String>)
    ensures
        match r {
            Some(v) => selected_attr_of(html@, selector@, attr@) == Some(v@),
            None => selected_attr_of(html@, selector@, attr@) is None,
        },
{
    let doc = scraper::Html::parse_document(html);
    let sel = match scraper::Selector::parse(selector) {
        Ok(sel) => sel,
        Err(_) => {
            return None;
        },
    };
    doc.select(&sel).next().and_then(|el| el.value().attr(attr)).map(|v| v.to_string())
}

/// The concatenated text content of the first element that the CSS
/// selector matches, or `None` where the selector is invalid or nothing
/// matches. A function of the two texts alone.
pub uninterp spec fn selected_text_of(html: Seq<char>, selector: Seq<char>) -> Option<Seq<char>>;

/// Relies on scraper::Html::parse_document, scraper::Selector::parse,
/// scraper::Html::select and scraper::ElementRef::text: the text of the
/// first match of the selector.
#[verifier::external_body]
pub(crate) fn select_first_text(html: &str, selector: &str) -> (r: Option<String>)
    ensures
        match r {
            Some(v) => selected_text_of(html@, selector@) == Some(v@),
            None => selected_text_of(html@, selector@) is None,
        },
{
    let doc = scraper::Html::parse_document(html);
    let sel = match scraper::Selector::parse(selector) {
        Ok(sel) => sel,
        Err(_) => {
            return None;
        },
    };
    doc.select(&sel).next().map(|el| el.text().collect::<String>())
}

} // verus!
