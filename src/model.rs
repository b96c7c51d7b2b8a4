//! The fixed vocabularies of the work form and their on-page values.
use vstd::prelude::*;

verus! {

/// How a chapter's text is written before it becomes rich text.
#[derive(Debug, Clone, Copy, PartialEq, Eq, Structural)]
pub enum FileFormat {
    Typst,
    Markdown,
    HTML,
}

/// What has to happen to a chapter's text before it can be pasted.
#[derive(Debug, Clone, Copy, PartialEq, Eq, Structural)]
pub enum HtmlRoute {
    /// The text is already rich text.
    Passthrough,
    /// The text goes through the external markup converter.
    ConvertMarkdown,
    /// No converter exists for this format.
    Unsupported,
}

impl FileFormat {
    /// The format a new document starts with.
    pub fn default_format() -> (r: FileFormat)
        ensures
            r == FileFormat::Markdown,
    {
        FileFormat::Markdown
    }

    /// Which conversion a text in this format needs.
    pub fn html_route(self) -> (r: HtmlRoute)
        ensures
            self == FileFormat::HTML ==> r == HtmlRoute::Passthrough,
            self == FileFormat::Markdown ==> r == HtmlRoute::ConvertMarkdown,
            self == FileFormat::Typst ==> r == HtmlRoute::Unsupported,
    {
        match self {
            FileFormat::Typst => HtmlRoute::Unsupported,
            FileFormat::Markdown => HtmlRoute::ConvertMarkdown,
            FileFormat::HTML => HtmlRoute::Passthrough,
        }
    }
}

/// The relationship categories a work can be filed under.
#[derive(Debug, Clone, Copy, PartialEq, Eq, Structural)]
pub enum FicCategory {
    FF,
    MM,
    FM,
    Gen,
    Multi,
    Other,
}

/// The archive's content warnings; `CNTUAW` is the "no warning chosen" sentinel.
#[derive(Debug, Clone, Copy, PartialEq, Eq, Structural)]
pub enum ArchiveWarning {
    CNTUAW,
    Violence,
    MCDeath,
    NA,
    NonCon,
    Underage,
}

/// The audience rating of a work.
#[derive(Debug, Clone, Copy, PartialEq, Eq, Structural)]
pub enum AgeRating {
    NotRated,
    GenAud,
    TeenAud,
    MatureAud,
    Explicit,
}

/// A value that a form control identifies by its `value` attribute.
pub trait UseByValue {
    /// The attribute value that stands for `self` on the page.
    spec fn value_view(&self) -> Seq<char>;

    fn as_value(&self) -> (r: String)
        ensures
            r@ == self.value_view(),
    ;
}

impl FicCategory {
    pub open spec fn spec_value(self) -> Seq<char> {
        match self {
            FicCategory::FF => "F/F"@,
            FicCategory::MM => "M/M"@,
            FicCategory::FM => "F/M"@,
            FicCategory::Gen => "Gen"@,
            FicCategory::Multi => "Multi"@,
            FicCategory::Other => "Other"@,
        }
    }

    /// The id of this category's checkbox on the work form.
    pub open spec fn spec_checkbox_id(self) -> Seq<char> {
        match self {
            FicCategory::FF => "work_category_strings_ff"@,
            FicCategory::MM => "work_category_strings_mm"@,
            FicCategory::FM => "work_category_strings_fm"@,
            FicCategory::Gen => "work_category_strings_gen"@,
            FicCategory::Multi => "work_category_strings_multi"@,
            FicCategory::Other => "work_category_strings_other"@,
        }
    }

    pub fn checkbox_id(&self) -> (r: String)
        ensures
            r@ == self.spec_checkbox_id(),
    {
        match self {
            FicCategory::FF => "work_category_strings_ff".to_owned(),
            FicCategory::MM => "work_category_strings_mm".to_owned(),
            FicCategory::FM => "work_category_strings_fm".to_owned(),
            FicCategory::Gen => "work_category_strings_gen".to_owned(),
            FicCategory::Multi => "work_category_strings_multi".to_owned(),
            FicCategory::Other => "work_category_strings_other".to_owned(),
        }
    }
}

impl UseByValue for FicCategory {
    open spec fn value_view(&self) -> Seq<char> {
        self.spec_value()
    }

    fn as_value(&self) -> (r: String) {
        match self {
            FicCategory::FF => "F/F".to_owned(),
            FicCategory::MM => "M/M".to_owned(),
            FicCategory::FM => "F/M".to_owned(),
            FicCategory::Gen => "Gen".to_owned(),
            FicCategory::Multi => "Multi".to_owned(),
            FicCategory::Other => "Other".to_owned(),
        }
    }
}

impl ArchiveWarning {
    pub open spec fn spec_value(self) -> Seq<char> {
        match self {
            ArchiveWarning::CNTUAW => "Chose Not To Use Archive Warnings"@,
            ArchiveWarning::Violence => "Graphic Depictions Of Violence"@,
            ArchiveWarning::MCDeath => "Major Character Death"@,
            ArchiveWarning::NA => "No Archive Warnings Apply"@,
            ArchiveWarning::NonCon => "Rape/Non-Con"@,
            ArchiveWarning::Underage => "Underage Sex"@,
        }
    }

    /// The id of this warning's checkbox on the work form.
    pub open spec fn spec_checkbox_id(self) -> Seq<char> {
        match self {
            ArchiveWarning::CNTUAW => "work_archive_warning_strings_choose_not_to_use_archive_warnings"@,
            ArchiveWarning::Violence => "work_archive_warning_strings_graphic_depictions_of_violence"@,
            ArchiveWarning::MCDeath => "work_archive_warning_strings_major_character_death"@,
            ArchiveWarning::NA => "work_archive_warning_strings_no_archive_warnings_apply"@,
            ArchiveWarning::NonCon => "work_archive_warning_strings_rapenon-con"@,
            ArchiveWarning::Underage => "work_archive_warning_strings_underage_sex"@,
        }
    }

    pub fn checkbox_id(&self) -> (r: String)
        ensures
            r@ == self.spec_checkbox_id(),
    {
        match self {
            ArchiveWarning::CNTUAW => "work_archive_warning_strings_choose_not_to_use_archive_warnings".to_owned(),
            ArchiveWarning::Violence => "work_archive_warning_strings_graphic_depictions_of_violence".to_owned(),
            ArchiveWarning::MCDeath => "work_archive_warning_strings_major_character_death".to_owned(),
            ArchiveWarning::NA => "work_archive_warning_strings_no_archive_warnings_apply".to_owned(),
            ArchiveWarning::NonCon => "work_archive_warning_strings_rapenon-con".to_owned(),
            ArchiveWarning::Underage => "work_archive_warning_strings_underage_sex".to_owned(),
        }
    }
}

impl UseByValue for ArchiveWarning {
    open spec fn value_view(&self) -> Seq<char> {
        self.spec_value()
    }

    fn as_value(&self) -> (r: String) {
        match self {
            ArchiveWarning::CNTUAW => "Chose Not To Use Archive Warnings".to_owned(),
            ArchiveWarning::Violence => "Graphic Depictions Of Violence".to_owned(),
            ArchiveWarning::MCDeath => "Major Character Death".to_owned(),
            ArchiveWarning::NA => "No Archive Warnings Apply".to_owned(),
            ArchiveWarning::NonCon => "Rape/Non-Con".to_owned(),
            ArchiveWarning::Underage => "Underage Sex".to_owned(),
        }
    }
}

impl AgeRating {
    pub open spec fn spec_value(self) -> Seq<char> {
        match self {
            AgeRating::NotRated => "Not Rated"@,
            AgeRating::GenAud => "General Audiences"@,
            AgeRating::TeenAud => "Teen And Up Audiences"@,
            AgeRating::MatureAud => "Mature"@,
            AgeRating::Explicit => "Explicit"@,
        }
    }

    /// The rating a new document starts with.
    pub fn default_rating() -> (r: AgeRating)
        ensures
            r == AgeRating::NotRated,
    {
        AgeRating::NotRated
    }
}

impl UseByValue for AgeRating {
    open spec fn value_view(&self) -> Seq<char> {
        self.spec_value()
    }

    fn as_value(&self) -> (r: String) {
        match self {
            AgeRating::NotRated => "Not Rated".to_owned(),
            AgeRating::GenAud => "General Audiences".to_owned(),
            AgeRating::TeenAud => "Teen And Up Audiences".to_owned(),
            AgeRating::MatureAud => "Mature".to_owned(),
            AgeRating::Explicit => "Explicit".to_owned(),
        }
    }
}

impl UseByValue for String {
    open spec fn value_view(&self) -> Seq<char> {
        self@
    }

    fn as_value(&self) -> (r: String) {
        self.clone()
    }
}

} // verus!
