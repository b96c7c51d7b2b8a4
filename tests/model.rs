use ficwright::model::{AgeRating, ArchiveWarning, FicCategory, FileFormat, HtmlRoute, UseByValue};

#[test]
fn rating_values_match_the_form() {
    assert_eq!(AgeRating::NotRated.as_value(), "Not Rated");
    assert_eq!(AgeRating::TeenAud.as_value(), "Teen And Up Audiences");
    assert_eq!(AgeRating::Explicit.as_value(), "Explicit");
}

#[test]
fn warning_values_and_ids_match_the_form() {
    assert_eq!(ArchiveWarning::CNTUAW.as_value(), "Chose Not To Use Archive Warnings");
    assert_eq!(ArchiveWarning::NonCon.as_value(), "Rape/Non-Con");
    assert_eq!(
        ArchiveWarning::NonCon.checkbox_id(),
        "work_archive_warning_strings_rapenon-con"
    );
}

#[test]
fn category_values_and_ids_match_the_form() {
    assert_eq!(FicCategory::FM.as_value(), "F/M");
    assert_eq!(FicCategory::Multi.checkbox_id(), "work_category_strings_multi");
}

#[test]
fn string_value_is_itself() {
    assert_eq!("Mr. Darcy".to_string().as_value(), "Mr. Darcy");
}

#[test]
fn formats_route_to_their_conversion() {
    assert_eq!(FileFormat::HTML.html_route(), HtmlRoute::Passthrough);
    assert_eq!(FileFormat::Markdown.html_route(), HtmlRoute::ConvertMarkdown);
    assert_eq!(FileFormat::Typst.html_route(), HtmlRoute::Unsupported);
    assert_eq!(FileFormat::default_format(), FileFormat::Markdown);
}
