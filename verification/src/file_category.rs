//! File categorization: mapping MIME types and file extensions to a fixed
//! set of categories.
//!
//! The mapping tables are ordinary vectors of key/category pairs; a lookup
//! folds ASCII case and takes the most recently added match, so a later
//! addition for an existing key wins.

use vstd::prelude::*;

use crate::strpath::spec_lower;
use crate::strpath::str_eq_ignore_case;

verus! {

/// A broad file category used to group files into subdirectories.
#[derive(Debug, Clone, Copy, PartialEq, Eq, Hash, Structural)]
pub enum Category {
    /// Image files (PNG, JPG, GIF, ...)
    Image,
    /// Audio files (MP3, WAV, FLAC, ...)
    Audio,
    /// Video files (MP4, MKV, AVI, ...)
    Video,
    /// Document files (PDF, DOCX, TXT, ...)
    Document,
    /// Archive files (ZIP, RAR, 7Z, ...)
    Archive,
    /// Source code files (Rust, Python, JavaScript, ...)
    Code,
    /// Spreadsheet files (XLSX, CSV, ODS, ...)
    Spreadsheet,
    /// Presentation files (PPTX, ODP, ...)
    Presentation,
    /// Font files (TTF, OTF, WOFF, ...)
    Font,
    /// Unknown or uncategorized files
    Other,
}

/// The fixed directory name of each category.
pub open spec fn spec_dir_name(c: Category) -> Seq<char> {
    match c {
        Category::Image => "images"@,
        Category::Audio => "audio"@,
        Category::Video => "videos"@,
        Category::Document => "documents"@,
        Category::Archive => "archives"@,
        Category::Code => "code"@,
        Category::Spreadsheet => "spreadsheets"@,
        Category::Presentation => "presentations"@,
        Category::Font => "fonts"@,
        Category::Other => "other"@,
    }
}

impl Category {
    /// Returns the directory name files of this category are moved into.
    pub fn dir_name(&self) -> (r: &'static str)
        ensures
            r@ == spec_dir_name(*self),
    {
        match self {
            Category::Image => "images",
            Category::Audio => "audio",
            Category::Video => "videos",
            Category::Document => "documents",
            Category::Archive => "archives",
            Category::Code => "code",
            Category::Spreadsheet => "spreadsheets",
            Category::Presentation => "presentations",
            Category::Font => "fonts",
            Category::Other => "other",
        }
    }

    /// Returns a human-readable description of this category.
    pub fn description(&self) -> (r: &'static str)
        ensures
            r@ == match *self {
                Category::Image => "Image files"@,
                Category::Audio => "Audio files"@,
                Category::Video => "Video files"@,
                Category::Document => "Document files"@,
                Category::Archive => "Archive files"@,
                Category::Code => "Source code files"@,
                Category::Spreadsheet => "Spreadsheet files"@,
                Category::Presentation => "Presentation files"@,
                Category::Font => "Font files"@,
                Category::Other => "Other files"@,
            },
    {
        match self {
            Category::Image => "Image files",
            Category::Audio => "Audio files",
            Category::Video => "Video files",
            Category::Document => "Document files",
            Category::Archive => "Archive files",
            Category::Code => "Source code files",
            Category::Spreadsheet => "Spreadsheet files",
            Category::Presentation => "Presentation files",
            Category::Font => "Font files",
            Category::Other => "Other files",
        }
    }
}

/// The mathematical view of a mapping table: each key as its character
/// sequence, paired with its category.
pub open spec fn entries_view(v: Seq<(String, Category)>) -> Seq<(Seq<char>, Category)> {
    v.map_values(|p: (String, Category)| (p.0@, p.1))
}

/// Case-insensitive lookup in a mapping table; the most recently added
/// match wins.
pub open spec fn spec_lookup(entries: Seq<(Seq<char>, Category)>, key: Seq<char>) -> Option<
    Category,
>
    decreases entries.len(),
{
    if entries.len() == 0 {
        None
    } else if spec_lower(entries.last().0) == spec_lower(key) {
        Some(entries.last().1)
    } else {
        spec_lookup(entries.drop_last(), key)
    }
}


/// Maps MIME types and file extensions to categories.
///
/// Lookups are case-insensitive; keys are kept as given and compared by
/// their ASCII lowercase folding, so adding a mapping for an existing key
/// (in any case) overrides the earlier one.
#[derive(Debug, Clone)]
pub struct FileMapper {
    mime_map: Vec<(String, Category)>,
    extension_map: Vec<(String, Category)>,
}

impl FileMapper {
    /// The MIME mapping table as a sequence of key/category pairs.
    pub closed spec fn mime_view(&self) -> Seq<(Seq<char>, Category)> {
        entries_view(self.mime_map@)
    }

    /// The extension mapping table as a sequence of key/category pairs.
    pub closed spec fn extension_view(&self) -> Seq<(Seq<char>, Category)> {
        entries_view(self.extension_map@)
    }

    /// Creates a new `FileMapper` holding exactly the standard mappings.
    pub fn new() -> (r: Self)
        ensures
            r.mime_view() == standard_mime_table(),
            r.extension_view() == standard_extension_table(),
    {
        let mut mapper = Self { mime_map: Vec::new(), extension_map: Vec::new() };
        proof {
            assert(mapper.mime_view() =~= Seq::<(Seq<char>, Category)>::empty());
            assert(mapper.extension_view() =~= Seq::<(Seq<char>, Category)>::empty());
        }
        mapper.populate_standard_mappings();
        mapper
    }

    /// Adds a MIME type to category mapping, overriding any earlier
    /// mapping for the same key.
    pub fn add_mime_mapping(&mut self, mime: &str, category: Category)
        ensures
            final(self).mime_view() == old(self).mime_view().push((mime@, category)),
            final(self).extension_view() == old(self).extension_view(),
    {
        self.mime_map.push((mime.to_owned(), category));
        proof {
            assert(self.mime_view() =~= old(self).mime_view().push((mime@, category)));
        }
    }

    /// Adds a file extension to category mapping, overriding any earlier
    /// mapping for the same key.
    pub fn add_extension_mapping(&mut self, ext: &str, category: Category)
        ensures
            final(self).extension_view() == old(self).extension_view().push((ext@, category)),
            final(self).mime_view() == old(self).mime_view(),
    {
        self.extension_map.push((ext.to_owned(), category));
        proof {
            assert(self.extension_view() =~= old(self).extension_view().push((ext@, category)));
        }
    }

    /// Maps a MIME type to a category, if the table knows it.
    pub fn mime_to_category(&self, mime_type: &str) -> (r: Option<Category>)
        ensures
            r == spec_lookup(self.mime_view(), mime_type@),
    {
        lookup_entries(&self.mime_map, mime_type)
    }

    /// Maps a file extension to a category, if the table knows it.
    pub fn extension_to_category(&self, ext: &str) -> (r: Option<Category>)
        ensures
            r == spec_lookup(self.extension_view(), ext@),
    {
        lookup_entries(&self.extension_map, ext)
    }

    /// Determines the category for a file from its MIME type and/or
    /// extension: a known MIME type wins, a known extension is the
    /// fallback, and `Other` is the default.
    pub fn categorize(&self, mime_type: Option<&str>, ext: Option<&str>) -> (r: Category)
        ensures
            r == spec_categorize(self.mime_view(), self.extension_view(), opt_str_view(mime_type), opt_str_view(ext)),
    {
        if let Some(mime) = mime_type {
            if let Some(category) = self.mime_to_category(mime) {
                return category;
            }
        }
        if let Some(extension) = ext {
            if let Some(category) = self.extension_to_category(extension) {
                return category;
            }
        }
        Category::Other
    }
}

impl Default for FileMapper {
    /// A fresh mapper with the standard tables.
    fn default() -> (r: Self)
        ensures
            r.mime_view() == standard_mime_table(),
            r.extension_view() == standard_extension_table(),
    {
        Self::new()
    }
}

/// The view of an optional string.
pub open spec fn opt_str_view(o: Option<&str>) -> Option<Seq<char>> {
    match o {
        Some(s) => Some(s@),
        None => None,
    }
}

/// How a category is chosen from the two tables: MIME lookup first, then
/// extension lookup, then `Other`.
pub open spec fn spec_categorize(
    mime_table: Seq<(Seq<char>, Category)>,
    ext_table: Seq<(Seq<char>, Category)>,
    mime: Option<Seq<char>>,
    ext: Option<Seq<char>>,
) -> Category {
    if mime is Some && spec_lookup(mime_table, mime.unwrap()) is Some {
        spec_lookup(mime_table, mime.unwrap()).unwrap()
    } else if ext is Some && spec_lookup(ext_table, ext.unwrap()) is Some {
        spec_lookup(ext_table, ext.unwrap()).unwrap()
    } else {
        Category::Other
    }
}

/// Case-insensitive scan of a mapping table from its most recent entry.
fn lookup_entries(entries: &Vec<(String, Category)>, key: &str) -> (r: Option<Category>)
    ensures
        r == spec_lookup(entries_view(entries@), key@),
{
    let ghost view: Seq<(Seq<char>, Category)> = entries_view(entries@);
    let mut i: usize = entries.len();
    proof {
        assert(view.take(i as int) =~= view);
    }
    while i > 0
        invariant
            i <= entries@.len(),
            view == entries_view(entries@),
            view.len() == entries@.len(),
            spec_lookup(view, key@) == spec_lookup(view.take(i as int), key@),
        decreases i,
    {
        let pair = &entries[i - 1];
        if str_eq_ignore_case(pair.0.as_str(), key) {
            proof {
                assert(view.take(i as int).last() == view[i as int - 1]);
            }
            return Some(pair.1);
        }
        proof {
            assert(view.take(i as int).last() == view[i as int - 1]);
            assert(view.take(i as int).drop_last() =~= view.take(i as int - 1));
        }
        i -= 1;
    }
    None
}

impl FileMapper {
    /// Populates a fresh mapper with the standard MIME and extension
    /// mappings.
    fn populate_standard_mappings(&mut self)
        requires
            old(self).mime_view() == Seq::<(Seq<char>, Category)>::empty(),
            old(self).extension_view() == Seq::<(Seq<char>, Category)>::empty(),
        ensures
            final(self).mime_view() == standard_mime_table(),
            final(self).extension_view() == standard_extension_table(),
    {
        self.populate_mime_mappings();
        self.populate_extension_mappings();
    }

    /// The MIME half of the standard table.
    #[verifier::rlimit(100)]
    fn populate_mime_mappings(&mut self)
        requires
            old(self).mime_view() == Seq::<(Seq<char>, Category)>::empty(),
        ensures
            final(self).mime_view() == standard_mime_table(),
            final(self).extension_view() == old(self).extension_view(),
    {
        self.add_mime_mapping("image/png", Category::Image);
        self.add_mime_mapping("image/jpeg", Category::Image);
        self.add_mime_mapping("image/jpg", Category::Image);
        self.add_mime_mapping("image/gif", Category::Image);
        self.add_mime_mapping("image/webp", Category::Image);
        self.add_mime_mapping("image/svg+xml", Category::Image);
        self.add_mime_mapping("image/bmp", Category::Image);
        self.add_mime_mapping("image/tiff", Category::Image);
        self.add_mime_mapping("image/heic", Category::Image);
        self.add_mime_mapping("image/heif", Category::Image);
        proof {
            assert(self.mime_view() =~= standard_mime_table().take(10));
        }
        self.add_mime_mapping("audio/mpeg", Category::Audio);
        self.add_mime_mapping("audio/wav", Category::Audio);
        self.add_mime_mapping("audio/ogg", Category::Audio);
        self.add_mime_mapping("audio/flac", Category::Audio);
        self.add_mime_mapping("audio/aac", Category::Audio);
        self.add_mime_mapping("audio/x-m4a", Category::Audio);
        self.add_mime_mapping("audio/webm", Category::Audio);
        self.add_mime_mapping("video/mp4", Category::Video);
        self.add_mime_mapping("video/mpeg", Category::Video);
        self.add_mime_mapping("video/quicktime", Category::Video);
        proof {
            assert(self.mime_view() =~= standard_mime_table().take(20));
        }
        self.add_mime_mapping("video/x-msvideo", Category::Video);
        self.add_mime_mapping("video/x-matroska", Category::Video);
        self.add_mime_mapping("video/webm", Category::Video);
        self.add_mime_mapping("video/x-flv", Category::Video);
        self.add_mime_mapping("video/3gpp", Category::Video);
        self.add_mime_mapping("application/pdf", Category::Document);
        self.add_mime_mapping("text/plain", Category::Document);
        self.add_mime_mapping("text/html", Category::Document);
        self.add_mime_mapping("text/markdown", Category::Document);
        self.add_mime_mapping("application/msword", Category::Document);
        proof {
            assert(self.mime_view() =~= standard_mime_table().take(30));
        }
        self.add_mime_mapping("application/vnd.openxmlformats-officedocument.wordprocessingml.document", Category::Document);
        self.add_mime_mapping("application/rtf", Category::Document);
        self.add_mime_mapping("application/vnd.oasis.opendocument.text", Category::Document);
        self.add_mime_mapping("application/zip", Category::Archive);
        self.add_mime_mapping("application/x-rar-compressed", Category::Archive);
        self.add_mime_mapping("application/x-7z-compressed", Category::Archive);
        self.add_mime_mapping("application/x-tar", Category::Archive);
        self.add_mime_mapping("application/gzip", Category::Archive);
        self.add_mime_mapping("application/x-bzip2", Category::Archive);
        self.add_mime_mapping("text/x-python", Category::Code);
        proof {
            assert(self.mime_view() =~= standard_mime_table().take(40));
        }
        self.add_mime_mapping("text/x-java", Category::Code);
        self.add_mime_mapping("text/x-c", Category::Code);
        self.add_mime_mapping("text/x-c++src", Category::Code);
        self.add_mime_mapping("text/x-javascript", Category::Code);
        self.add_mime_mapping("application/javascript", Category::Code);
        self.add_mime_mapping("text/x-shellscript", Category::Code);
        self.add_mime_mapping("text/x-rust", Category::Code);
        self.add_mime_mapping("application/json", Category::Code);
        self.add_mime_mapping("application/xml", Category::Code);
        self.add_mime_mapping("text/xml", Category::Code);
        proof {
            assert(self.mime_view() =~= standard_mime_table().take(50));
        }
        self.add_mime_mapping("text/x-yaml", Category::Code);
        self.add_mime_mapping("text/x-toml", Category::Code);
        self.add_mime_mapping("text/csv", Category::Spreadsheet);
        self.add_mime_mapping("application/vnd.ms-excel", Category::Spreadsheet);
        self.add_mime_mapping("application/vnd.openxmlformats-officedocument.spreadsheetml.sheet", Category::Spreadsheet);
        self.add_mime_mapping("application/vnd.oasis.opendocument.spreadsheet", Category::Spreadsheet);
        self.add_mime_mapping("application/vnd.ms-powerpoint", Category::Presentation);
        self.add_mime_mapping("application/vnd.openxmlformats-officedocument.presentationml.presentation", Category::Presentation);
        self.add_mime_mapping("application/vnd.oasis.opendocument.presentation", Category::Presentation);
        self.add_mime_mapping("font/ttf", Category::Font);
        proof {
            assert(self.mime_view() =~= standard_mime_table().take(60));
        }
        self.add_mime_mapping("font/otf", Category::Font);
        self.add_mime_mapping("font/woff", Category::Font);
        self.add_mime_mapping("font/woff2", Category::Font);
        self.add_mime_mapping("application/x-font-ttf", Category::Font);
        self.add_mime_mapping("application/x-font-otf", Category::Font);
        proof {
            assert(self.mime_view() =~= standard_mime_table().take(65));
        }
        proof {
            assert(standard_mime_table().take(65) =~= standard_mime_table());
        }
    }

    /// The extension half of the standard table.
    #[verifier::rlimit(100)]
    fn populate_extension_mappings(&mut self)
        requires
            old(self).extension_view() == Seq::<(Seq<char>, Category)>::empty(),
        ensures
            final(self).extension_view() == standard_extension_table(),
            final(self).mime_view() == old(self).mime_view(),
    {
        self.add_extension_mapping("png", Category::Image);
        self.add_extension_mapping("jpg", Category::Image);
        self.add_extension_mapping("jpeg", Category::Image);
        self.add_extension_mapping("gif", Category::Image);
        self.add_extension_mapping("webp", Category::Image);
        self.add_extension_mapping("svg", Category::Image);
        self.add_extension_mapping("bmp", Category::Image);
        self.add_extension_mapping("tiff", Category::Image);
        self.add_extension_mapping("ico", Category::Image);
        self.add_extension_mapping("heic", Category::Image);
        proof {
            assert(self.extension_view() =~= standard_extension_table().take(10));
        }
        self.add_extension_mapping("mp3", Category::Audio);
        self.add_extension_mapping("wav", Category::Audio);
        self.add_extension_mapping("ogg", Category::Audio);
        self.add_extension_mapping("flac", Category::Audio);
        self.add_extension_mapping("aac", Category::Audio);
        self.add_extension_mapping("m4a", Category::Audio);
        self.add_extension_mapping("wma", Category::Audio);
        self.add_extension_mapping("mp4", Category::Video);
        self.add_extension_mapping("mkv", Category::Video);
        self.add_extension_mapping("avi", Category::Video);
        proof {
            assert(self.extension_view() =~= standard_extension_table().take(20));
        }
        self.add_extension_mapping("mov", Category::Video);
        self.add_extension_mapping("flv", Category::Video);
        self.add_extension_mapping("wmv", Category::Video);
        self.add_extension_mapping("webm", Category::Video);
        self.add_extension_mapping("3gp", Category::Video);
        self.add_extension_mapping("pdf", Category::Document);
        self.add_extension_mapping("txt", Category::Document);
        self.add_extension_mapping("doc", Category::Document);
        self.add_extension_mapping("docx", Category::Document);
        self.add_extension_mapping("html", Category::Document);
        proof {
            assert(self.extension_view() =~= standard_extension_table().take(30));
        }
        self.add_extension_mapping("htm", Category::Document);
        self.add_extension_mapping("md", Category::Document);
        self.add_extension_mapping("rtf", Category::Document);
        self.add_extension_mapping("odt", Category::Document);
        self.add_extension_mapping("zip", Category::Archive);
        self.add_extension_mapping("rar", Category::Archive);
        self.add_extension_mapping("7z", Category::Archive);
        self.add_extension_mapping("tar", Category::Archive);
        self.add_extension_mapping("gz", Category::Archive);
        self.add_extension_mapping("bz2", Category::Archive);
        proof {
            assert(self.extension_view() =~= standard_extension_table().take(40));
        }
        self.add_extension_mapping("xz", Category::Archive);
        self.add_extension_mapping("py", Category::Code);
        self.add_extension_mapping("java", Category::Code);
        self.add_extension_mapping("c", Category::Code);
        self.add_extension_mapping("cpp", Category::Code);
        self.add_extension_mapping("h", Category::Code);
        self.add_extension_mapping("hpp", Category::Code);
        self.add_extension_mapping("js", Category::Code);
        self.add_extension_mapping("ts", Category::Code);
        self.add_extension_mapping("rs", Category::Code);
        proof {
            assert(self.extension_view() =~= standard_extension_table().take(50));
        }
        self.add_extension_mapping("go", Category::Code);
        self.add_extension_mapping("sh", Category::Code);
        self.add_extension_mapping("bash", Category::Code);
        self.add_extension_mapping("json", Category::Code);
        self.add_extension_mapping("xml", Category::Code);
        self.add_extension_mapping("yaml", Category::Code);
        self.add_extension_mapping("yml", Category::Code);
        self.add_extension_mapping("toml", Category::Code);
        self.add_extension_mapping("csv", Category::Spreadsheet);
        self.add_extension_mapping("xls", Category::Spreadsheet);
        proof {
            assert(self.extension_view() =~= standard_extension_table().take(60));
        }
        self.add_extension_mapping("xlsx", Category::Spreadsheet);
        self.add_extension_mapping("ods", Category::Spreadsheet);
        self.add_extension_mapping("ppt", Category::Presentation);
        self.add_extension_mapping("pptx", Category::Presentation);
        self.add_extension_mapping("odp", Category::Presentation);
        self.add_extension_mapping("ttf", Category::Font);
        self.add_extension_mapping("otf", Category::Font);
        self.add_extension_mapping("woff", Category::Font);
        self.add_extension_mapping("woff2", Category::Font);
        proof {
            assert(self.extension_view() =~= standard_extension_table().take(69));
        }
        proof {
            assert(standard_extension_table().take(69) =~= standard_extension_table());
        }
    }
}

/// The standard MIME table, in the order the mappings are added.
pub open spec fn standard_mime_table() -> Seq<(Seq<char>, Category)> {
    seq![
        ("image/png"@, Category::Image),
        ("image/jpeg"@, Category::Image),
        ("image/jpg"@, Category::Image),
        ("image/gif"@, Category::Image),
        ("image/webp"@, Category::Image),
        ("image/svg+xml"@, Category::Image),
        ("image/bmp"@, Category::Image),
        ("image/tiff"@, Category::Image),
        ("image/heic"@, Category::Image),
        ("image/heif"@, Category::Image),
        ("audio/mpeg"@, Category::Audio),
        ("audio/wav"@, Category::Audio),
        ("audio/ogg"@, Category::Audio),
        ("audio/flac"@, Category::Audio),
        ("audio/aac"@, Category::Audio),
        ("audio/x-m4a"@, Category::Audio),
        ("audio/webm"@, Category::Audio),
        ("video/mp4"@, Category::Video),
        ("video/mpeg"@, Category::Video),
        ("video/quicktime"@, Category::Video),
        ("video/x-msvideo"@, Category::Video),
        ("video/x-matroska"@, Category::Video),
        ("video/webm"@, Category::Video),
        ("video/x-flv"@, Category::Video),
        ("video/3gpp"@, Category::Video),
        ("application/pdf"@, Category::Document),
        ("text/plain"@, Category::Document),
        ("text/html"@, Category::Document),
        ("text/markdown"@, Category::Document),
        ("application/msword"@, Category::Document),
        ("application/vnd.openxmlformats-officedocument.wordprocessingml.document"@, Category::Document),
        ("application/rtf"@, Category::Document),
        ("application/vnd.oasis.opendocument.text"@, Category::Document),
        ("application/zip"@, Category::Archive),
        ("application/x-rar-compressed"@, Category::Archive),
        ("application/x-7z-compressed"@, Category::Archive),
        ("application/x-tar"@, Category::Archive),
        ("application/gzip"@, Category::Archive),
        ("application/x-bzip2"@, Category::Archive),
        ("text/x-python"@, Category::Code),
        ("text/x-java"@, Category::Code),
        ("text/x-c"@, Category::Code),
        ("text/x-c++src"@, Category::Code),
        ("text/x-javascript"@, Category::Code),
        ("application/javascript"@, Category::Code),
        ("text/x-shellscript"@, Category::Code),
        ("text/x-rust"@, Category::Code),
        ("application/json"@, Category::Code),
        ("application/xml"@, Category::Code),
        ("text/xml"@, Category::Code),
        ("text/x-yaml"@, Category::Code),
        ("text/x-toml"@, Category::Code),
        ("text/csv"@, Category::Spreadsheet),
        ("application/vnd.ms-excel"@, Category::Spreadsheet),
        ("application/vnd.openxmlformats-officedocument.spreadsheetml.sheet"@, Category::Spreadsheet),
        ("application/vnd.oasis.opendocument.spreadsheet"@, Category::Spreadsheet),
        ("application/vnd.ms-powerpoint"@, Category::Presentation),
        ("application/vnd.openxmlformats-officedocument.presentationml.presentation"@, Category::Presentation),
        ("application/vnd.oasis.opendocument.presentation"@, Category::Presentation),
        ("font/ttf"@, Category::Font),
        ("font/otf"@, Category::Font),
        ("font/woff"@, Category::Font),
        ("font/woff2"@, Category::Font),
        ("application/x-font-ttf"@, Category::Font),
        ("application/x-font-otf"@, Category::Font),
    ]
}

/// The standard extension table, in the order the mappings are added.
pub open spec fn standard_extension_table() -> Seq<(Seq<char>, Category)> {
    seq![
        ("png"@, Category::Image),
        ("jpg"@, Category::Image),
        ("jpeg"@, Category::Image),
        ("gif"@, Category::Image),
        ("webp"@, Category::Image),
        ("svg"@, Category::Image),
        ("bmp"@, Category::Image),
        ("tiff"@, Category::Image),
        ("ico"@, Category::Image),
        ("heic"@, Category::Image),
        ("mp3"@, Category::Audio),
        ("wav"@, Category::Audio),
        ("ogg"@, Category::Audio),
        ("flac"@, Category::Audio),
        ("aac"@, Category::Audio),
        ("m4a"@, Category::Audio),
        ("wma"@, Category::Audio),
        ("mp4"@, Category::Video),
        ("mkv"@, Category::Video),
        ("avi"@, Category::Video),
        ("mov"@, Category::Video),
        ("flv"@, Category::Video),
        ("wmv"@, Category::Video),
        ("webm"@, Category::Video),
        ("3gp"@, Category::Video),
        ("pdf"@, Category::Document),
        ("txt"@, Category::Document),
        ("doc"@, Category::Document),
        ("docx"@, Category::Document),
        ("html"@, Category::Document),
        ("htm"@, Category::Document),
        ("md"@, Category::Document),
        ("rtf"@, Category::Document),
        ("odt"@, Category::Document),
        ("zip"@, Category::Archive),
        ("rar"@, Category::Archive),
        ("7z"@, Category::Archive),
        ("tar"@, Category::Archive),
        ("gz"@, Category::Archive),
        ("bz2"@, Category::Archive),
        ("xz"@, Category::Archive),
        ("py"@, Category::Code),
        ("java"@, Category::Code),
        ("c"@, Category::Code),
        ("cpp"@, Category::Code),
        ("h"@, Category::Code),
        ("hpp"@, Category::Code),
        ("js"@, Category::Code),
        ("ts"@, Category::Code),
        ("rs"@, Category::Code),
        ("go"@, Category::Code),
        ("sh"@, Category::Code),
        ("bash"@, Category::Code),
        ("json"@, Category::Code),
        ("xml"@, Category::Code),
        ("yaml"@, Category::Code),
        ("yml"@, Category::Code),
        ("toml"@, Category::Code),
        ("csv"@, Category::Spreadsheet),
        ("xls"@, Category::Spreadsheet),
        ("xlsx"@, Category::Spreadsheet),
        ("ods"@, Category::Spreadsheet),
        ("ppt"@, Category::Presentation),
        ("pptx"@, Category::Presentation),
        ("odp"@, Category::Presentation),
        ("ttf"@, Category::Font),
        ("otf"@, Category::Font),
        ("woff"@, Category::Font),
        ("woff2"@, Category::Font),
    ]
}

} // verus!
