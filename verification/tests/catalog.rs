use codestyle::catalog::list_languages;

#[test]
fn catalog_has_twelve_entries_in_fixed_order() {
    let names: Vec<String> = list_languages().into_iter().map(|l| l.name).collect();
    assert_eq!(
        names,
        vec![
            "C / C++",
            "C#",
            "Python",
            "CSS",
            "Delphi",
            "VisualBasic",
            "Java",
            "JavaScript",
            "Ruby",
            "SQL",
            "HTML / XML",
            "PHP",
        ]
    );
}

#[test]
fn catalog_css_classes() {
    let classes: Vec<String> = list_languages().into_iter().map(|l| l.css_class).collect();
    assert_eq!(
        classes,
        vec![
            "cpp", "csharp", "python", "css", "delphi", "vb", "java", "js", "ruby", "sql", "xml",
            "php",
        ]
    );
}

#[test]
fn catalog_image_files_and_extensions() {
    for language in list_languages() {
        if language.css_class == "vb" {
            assert_eq!(language.image_file, "images/viauslbasic");
            assert_eq!(language.image_file_extension, "svg");
        } else {
            assert_eq!(language.image_file_extension, "png");
            assert!(language.image_file.starts_with("images/"));
        }
    }
}

#[test]
fn img_url_follows_webp_support() {
    let languages = list_languages();
    let cpp = &languages[0];
    assert_eq!(cpp.to_img_url(true), "images/cpp.webp");
    assert_eq!(cpp.to_img_url(false), "images/cpp.png");
    let vb = &languages[5];
    assert_eq!(vb.to_img_url(true), "images/viauslbasic.svg");
    assert_eq!(vb.to_img_url(false), "images/viauslbasic.svg");
}
