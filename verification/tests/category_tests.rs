use dirtidy::file_category::Category;
use dirtidy::file_category::FileMapper;

#[test]
fn test_category_dir_names() {
    assert_eq!(Category::Image.dir_name(), "images");
    assert_eq!(Category::Audio.dir_name(), "audio");
    assert_eq!(Category::Video.dir_name(), "videos");
    assert_eq!(Category::Document.dir_name(), "documents");
    assert_eq!(Category::Archive.dir_name(), "archives");
    assert_eq!(Category::Code.dir_name(), "code");
    assert_eq!(Category::Spreadsheet.dir_name(), "spreadsheets");
    assert_eq!(Category::Presentation.dir_name(), "presentations");
    assert_eq!(Category::Font.dir_name(), "fonts");
    assert_eq!(Category::Other.dir_name(), "other");
}

#[test]
fn test_category_descriptions() {
    assert_eq!(Category::Image.description(), "Image files");
    assert_eq!(Category::Code.description(), "Source code files");
    assert_eq!(Category::Other.description(), "Other files");
}

#[test]
fn test_mime_to_category_images() {
    let mapper = FileMapper::default();
    assert_eq!(mapper.mime_to_category("image/png"), Some(Category::Image));
    assert_eq!(mapper.mime_to_category("image/jpeg"), Some(Category::Image));
    assert_eq!(mapper.mime_to_category("image/gif"), Some(Category::Image));
}

#[test]
fn test_mime_to_category_audio() {
    let mapper = FileMapper::default();
    assert_eq!(mapper.mime_to_category("audio/mpeg"), Some(Category::Audio));
    assert_eq!(mapper.mime_to_category("audio/wav"), Some(Category::Audio));
}

#[test]
fn test_mime_to_category_unknown() {
    let mapper = FileMapper::default();
    assert_eq!(mapper.mime_to_category("unknown/type"), None);
}

#[test]
fn test_mime_to_category_case_insensitive() {
    let mapper = FileMapper::default();
    assert_eq!(mapper.mime_to_category("IMAGE/PNG"), Some(Category::Image));
    assert_eq!(mapper.mime_to_category("Image/Png"), Some(Category::Image));
}

#[test]
fn test_extension_to_category() {
    let mapper = FileMapper::default();
    assert_eq!(mapper.extension_to_category("pdf"), Some(Category::Document));
    assert_eq!(mapper.extension_to_category("mp3"), Some(Category::Audio));
    assert_eq!(mapper.extension_to_category("rs"), Some(Category::Code));
}

#[test]
fn test_extension_to_category_case_insensitive() {
    let mapper = FileMapper::default();
    assert_eq!(mapper.extension_to_category("PDF"), Some(Category::Document));
    assert_eq!(mapper.extension_to_category("Mp3"), Some(Category::Audio));
}

#[test]
fn test_categorize_with_mime() {
    let mapper = FileMapper::default();
    assert_eq!(mapper.categorize(Some("image/png"), Some("txt")), Category::Image);
}

#[test]
fn test_categorize_fallback_to_extension() {
    let mapper = FileMapper::default();
    assert_eq!(mapper.categorize(None, Some("pdf")), Category::Document);
}

#[test]
fn test_categorize_defaults_to_other() {
    let mapper = FileMapper::default();
    assert_eq!(mapper.categorize(None, None), Category::Other);
    assert_eq!(mapper.categorize(Some("unknown/type"), Some("xyz")), Category::Other);
}

#[test]
fn test_custom_mapping() {
    let mut mapper = FileMapper::default();
    mapper.add_mime_mapping("application/custom", Category::Code);
    mapper.add_extension_mapping("custom", Category::Code);

    assert_eq!(mapper.mime_to_category("application/custom"), Some(Category::Code));
    assert_eq!(mapper.extension_to_category("custom"), Some(Category::Code));
}

#[test]
fn test_custom_mapping_overrides_standard() {
    let mut mapper = FileMapper::default();
    assert_eq!(mapper.extension_to_category("png"), Some(Category::Image));
    mapper.add_extension_mapping("png", Category::Other);
    assert_eq!(mapper.extension_to_category("png"), Some(Category::Other));
}
