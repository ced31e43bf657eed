//! The fixed table of supported languages: display name, the CSS class the
//! highlighter recognises, and the icon asset (base path plus native
//! extension).

use vstd::prelude::*;
use vstd::string::StringExecFns;

use crate::images::{build_webp_url, webp_url};

verus! {

/// What a language descriptor holds, at the specification level.
pub struct LanguageView {
    pub name: Seq<char>,
    pub css_class: Seq<char>,
    pub image_file: Seq<char>,
    pub image_file_extension: Seq<char>,
}

/// One supported language. Descriptors are immutable: they are only ever
/// created by `list_languages` and copied around.
#[derive(Clone)]
pub struct ProgrammingLanguage {
    pub name: String,
    pub css_class: String,
    pub image_file: String,
    pub image_file_extension: String,
}

impl View for ProgrammingLanguage {
    type V = LanguageView;

    open spec fn view(&self) -> LanguageView {
        LanguageView {
            name: self.name@,
            css_class: self.css_class@,
            image_file: self.image_file@,
            image_file_extension: self.image_file_extension@,
        }
    }
}

/// The twelve catalog entries, in the fixed order used for both the intro
/// listing and the dropdown.
pub open spec fn catalog() -> Seq<LanguageView> {
    seq![
        (LanguageView {
            name: "C / C++"@,
            css_class: "cpp"@,
            image_file: "images/cpp"@,
            image_file_extension: "png"@,
        }),
        (LanguageView {
            name: "C#"@,
            css_class: "csharp"@,
            image_file: "images/csharp"@,
            image_file_extension: "png"@,
        }),
        (LanguageView {
            name: "Python"@,
            css_class: "python"@,
            image_file: "images/python"@,
            image_file_extension: "png"@,
        }),
        (LanguageView {
            name: "CSS"@,
            css_class: "css"@,
            image_file: "images/css"@,
            image_file_extension: "png"@,
        }),
        (LanguageView {
            name: "Delphi"@,
            css_class: "delphi"@,
            image_file: "images/delphi"@,
            image_file_extension: "png"@,
        }),
        (LanguageView {
            name: "VisualBasic"@,
            css_class: "vb"@,
            image_file: "images/viauslbasic"@,
            image_file_extension: "svg"@,
        }),
        (LanguageView {
            name: "Java"@,
            css_class: "java"@,
            image_file: "images/java"@,
            image_file_extension: "png"@,
        }),
        (LanguageView {
            name: "JavaScript"@,
            css_class: "js"@,
            image_file: "images/javascript"@,
            image_file_extension: "png"@,
        }),
        (LanguageView {
            name: "Ruby"@,
            css_class: "ruby"@,
            image_file: "images/ruby"@,
            image_file_extension: "png"@,
        }),
        (LanguageView {
            name: "SQL"@,
            css_class: "sql"@,
            image_file: "images/sql"@,
            image_file_extension: "png"@,
        }),
        (LanguageView {
            name: "HTML / XML"@,
            css_class: "xml"@,
            image_file: "images/html"@,
            image_file_extension: "png"@,
        }),
        (LanguageView {
            name: "PHP"@,
            css_class: "php"@,
            image_file: "images/php"@,
            image_file_extension: "png"@,
        }),
    ]
}

/// Whether `l` is one of the catalog entries.
pub open spec fn in_catalog(l: LanguageView) -> bool {
    catalog().contains(l)
}

/// Builds one descriptor from its four fields.
fn make_language(
    name: &str,
    css_class: &str,
    image_file: &str,
    image_file_extension: &str,
) -> (r: ProgrammingLanguage)
    ensures
        r@ == (LanguageView {
            name: name@,
            css_class: css_class@,
            image_file: image_file@,
            image_file_extension: image_file_extension@,
        }),
{
    ProgrammingLanguage {
        name: String::from_str(name),
        css_class: String::from_str(css_class),
        image_file: String::from_str(image_file),
        image_file_extension: String::from_str(image_file_extension),
    }
}

/// The catalog as a vector, in its fixed order: exactly the twelve entries
/// of `catalog`, each one a member of the catalog.
pub fn list_languages() -> (r: Vec<ProgrammingLanguage>)
    ensures
        r@.len() == catalog().len(),
        forall|i: int| 0 <= i < r@.len() ==> #[trigger] r@[i]@ == catalog()[i],
        forall|i: int| 0 <= i < r@.len() ==> in_catalog(#[trigger] r@[i]@),
{
    let mut r: Vec<ProgrammingLanguage> = Vec::new();
    r.push(make_language("C / C++", "cpp", "images/cpp", "png"));
    r.push(make_language("C#", "csharp", "images/csharp", "png"));
    r.push(make_language("Python", "python", "images/python", "png"));
    r.push(make_language("CSS", "css", "images/css", "png"));
    r.push(make_language("Delphi", "delphi", "images/delphi", "png"));
    r.push(make_language("VisualBasic", "vb", "images/viauslbasic", "svg"));
    r.push(make_language("Java", "java", "images/java", "png"));
    r.push(make_language("JavaScript", "js", "images/javascript", "png"));
    r.push(make_language("Ruby", "ruby", "images/ruby", "png"));
    r.push(make_language("SQL", "sql", "images/sql", "png"));
    r.push(make_language("HTML / XML", "xml", "images/html", "png"));
    r.push(make_language("PHP", "php", "images/php", "png"));
    proof {
        assert forall|i: int| 0 <= i < r@.len() implies #[trigger] r@[i]@ == catalog()[i] by {
            assert(catalog()[i] == catalog()[i]);
        }
    }
    r
}

impl ProgrammingLanguage {
    /// The icon URL for this language, given whether the browser renders webp.
    pub fn to_img_url(&self, webp_support: bool) -> (url: String)
        ensures
            url@ == webp_url(self@.image_file, self@.image_file_extension, webp_support),
    {
        build_webp_url(
            self.image_file.as_str(),
            self.image_file_extension.as_str(),
            webp_support,
        )
    }
}

} // verus!
