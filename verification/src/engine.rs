//! Scanning decisions: which files of a directory listing take part, what
//! type each one has, and what a dry run would report.
//!
//! The caller reads the directory and the file bytes; everything after
//! that — filtering, content-based type detection, categorization and the
//! per-category tally — is decided here.

use vstd::prelude::*;

use crate::config::CompiledFilters;
use crate::file_category::Category;
use crate::file_category::FileMapper;
use crate::file_category::spec_categorize;
use crate::file_category::spec_dir_name;
use crate::strpath::extension_of;
use crate::strpath::spec_extension;

verus! {

/// A file with its detected type information and category.
#[derive(Debug, Clone)]
pub struct FileInfo {
    /// The name of the file.
    pub name: String,
    /// The full path of the file.
    pub path: String,
    /// The detected file type (the signature's usual extension).
    pub file_type: Option<String>,
    /// The detected MIME type.
    pub mime_type: Option<String>,
    /// The resolved category.
    pub category: Category,
}

/// A command to execute against a directory.
#[derive(Debug, Clone, Copy)]
pub enum OrganizeCommand {
    /// Organize the files of the directory.
    Organize {
        /// When set, only report what would happen.
        dry_run: bool,
    },
    /// Undo the previous organization.
    Undo,
}

/// One immediate directory entry as the caller scanned it: its name, its
/// full path, whether it is a regular file, and its bytes when they
/// could be read.
#[derive(Debug, Clone)]
pub struct ScanEntry {
    /// The entry's name.
    pub name: String,
    /// The entry's full path.
    pub path: String,
    /// Whether the entry is a regular file.
    pub is_file: bool,
    /// The file's content, when it was readable.
    pub data: Option<Vec<u8>>,
}

/// What `infer::get` detects for a byte buffer: the matched signature's
/// usual extension and MIME type.  The detection walks a fixed table of
/// matchers, so the result is a function of the bytes alone.
pub uninterp spec fn sniff_of(data: Seq<u8>) -> Option<(Seq<char>, Seq<char>)>;

/// Relies on infer::get and infer::Type::extension / mime_type: the
/// detection depends on the buffer alone.
#[verifier::external_body]
fn sniff_bytes(data: &[u8]) -> (r: Option<(String, String)>)
    ensures
        match r {
            Some(p) => sniff_of(data@) == Some((p.0@, p.1@)),
            None => sniff_of(data@) is None,
        },
{
    match infer::get(data) {
        Some(kind) => Some((kind.extension().to_string(), kind.mime_type().to_string())),
        None => None,
    }
}

/// The view of an optional owned string.
pub open spec fn opt_string_view(o: Option<String>) -> Option<Seq<char>> {
    match o {
        Some(s) => Some(s@),
        None => None,
    }
}

/// The view of an optional byte buffer.
pub open spec fn opt_data_view(o: Option<Vec<u8>>) -> Option<Seq<u8>> {
    match o {
        Some(d) => Some(d@),
        None => None,
    }
}

/// The detected (file type, MIME type) pair for a file whose bytes were
/// read or not.
pub open spec fn spec_detect(data: Option<Seq<u8>>) -> (Option<Seq<char>>, Option<Seq<char>>) {
    match data {
        Some(d) => match sniff_of(d) {
            Some(p) => (Some(p.0), Some(p.1)),
            None => (None, None),
        },
        None => (None, None),
    }
}

/// The extension that categorization works with: the detected
/// signature's extension when content sniffing matched, and otherwise
/// the extension of the file's own name.
pub open spec fn spec_category_extension(entry: ScanEntry) -> Option<Seq<char>> {
    match spec_detect(opt_data_view(entry.data)).0 {
        Some(e) => Some(e),
        None => spec_extension(entry.name@),
    }
}

/// The info record a scan entry must produce: the entry's own name and
/// path, the detection of its bytes, and the category the mapper gives
/// the detected MIME type with the filename extension as fallback.
pub open spec fn spec_info_of(
    mime_table: Seq<(Seq<char>, Category)>,
    ext_table: Seq<(Seq<char>, Category)>,
    entry: ScanEntry,
    info: FileInfo,
) -> bool {
    let detected = spec_detect(opt_data_view(entry.data));
    &&& info.name@ == entry.name@
    &&& info.path@ == entry.path@
    &&& opt_string_view(info.file_type) == detected.0
    &&& opt_string_view(info.mime_type) == detected.1
    &&& info.category == spec_categorize(
        mime_table,
        ext_table,
        detected.1,
        spec_category_extension(entry),
    )
}

/// Detects a file's type from its bytes and resolves its category: the
/// MIME type of a recognized content signature wins; when no signature
/// matches (or the bytes could not be read), the extension of the file's
/// name is the fallback.
pub fn detect_file_type(name: String, path: String, data: Option<&Vec<u8>>, mapper: &FileMapper) -> (r:
    FileInfo)
    ensures
        spec_info_of(
            mapper.mime_view(),
            mapper.extension_view(),
            ScanEntry {
                name,
                path,
                is_file: true,
                data: match data {
                    Some(d) => Some(*d),
                    None => None,
                },
            },
            r,
        ),
{
    let detected: Option<(String, String)> = match data {
        Some(bytes) => sniff_bytes(bytes.as_slice()),
        None => None,
    };
    let (file_type, mime_type) = match detected {
        Some((ext, mime)) => (Some(ext), Some(mime)),
        None => (None, None),
    };
    let category_ext: Option<String> = match &file_type {
        Some(e) => Some(e.clone()),
        None => extension_of(name.as_str()),
    };
    let category = mapper.categorize(
        match &mime_type {
            Some(m) => Some(m.as_str()),
            None => None,
        },
        match &category_ext {
            Some(e) => Some(e.as_str()),
            None => None,
        },
    );
    FileInfo { name, path, file_type, mime_type, category }
}

/// Whether a scanned entry takes part in organization: it is a regular
/// file and the filters include it.
pub open spec fn spec_eligible(f: &CompiledFilters, entry: ScanEntry) -> bool {
    entry.is_file && f.spec_should_include(entry.path@)
}

/// The eligible entries of a listing, in listing order.
pub open spec fn spec_eligible_entries(f: &CompiledFilters, entries: Seq<ScanEntry>) -> Seq<
    ScanEntry,
>
    decreases entries.len(),
{
    if entries.len() == 0 {
        Seq::empty()
    } else {
        let rest = spec_eligible_entries(f, entries.drop_last());
        if spec_eligible(f, entries.last()) {
            rest.push(entries.last())
        } else {
            rest
        }
    }
}

/// Applies the filters to a directory listing and detects the type of
/// each eligible file: the result holds exactly the eligible entries'
/// infos, in listing order.
pub fn collect_file_infos(
    filters: &CompiledFilters,
    mapper: &FileMapper,
    entries: Vec<ScanEntry>,
) -> (r: Vec<FileInfo>)
    ensures
        r@.len() == spec_eligible_entries(filters, entries@).len(),
        forall|i: int|
            0 <= i < r@.len() ==> spec_info_of(
                mapper.mime_view(),
                mapper.extension_view(),
                spec_eligible_entries(filters, entries@)[i],
                #[trigger] r@[i],
            ),
{
    let mut out: Vec<FileInfo> = Vec::new();
    let mut i: usize = 0;
    proof {
        assert(entries@.take(0) =~= Seq::<ScanEntry>::empty());
    }
    while i < entries.len()
        invariant
            i <= entries@.len(),
            out@.len() == spec_eligible_entries(filters, entries@.take(i as int)).len(),
            forall|j: int|
                0 <= j < out@.len() ==> spec_info_of(
                    mapper.mime_view(),
                    mapper.extension_view(),
                    spec_eligible_entries(filters, entries@.take(i as int))[j],
                    #[trigger] out@[j],
                ),
        decreases entries@.len() - i,
    {
        let entry = &entries[i];
        if entry.is_file && filters.should_include(entry.path.as_str()) {
            let info = detect_file_type(
                entry.name.clone(),
                entry.path.clone(),
                match &entry.data {
                    Some(d) => Some(d),
                    None => None,
                },
                mapper,
            );
            out.push(info);
        }
        proof {
            assert(entries@.take(i as int + 1).drop_last() =~= entries@.take(i as int));
            assert(entries@.take(i as int + 1).last() == entries@[i as int]);
        }
        i += 1;
    }
    proof {
        assert(entries@.take(entries@.len() as int) =~= entries@);
    }
    out
}

/// A listing without eligible entries plans nothing.
pub proof fn lemma_no_eligible_entries(f: &CompiledFilters, entries: Seq<ScanEntry>)
    requires
        forall|i: int| 0 <= i < entries.len() ==> !spec_eligible(f, #[trigger] entries[i]),
    ensures
        spec_eligible_entries(f, entries) == Seq::<ScanEntry>::empty(),
    decreases entries.len(),
{
    if entries.len() > 0 {
        lemma_no_eligible_entries(f, entries.drop_last());
        assert(spec_eligible_entries(f, entries) =~= Seq::<ScanEntry>::empty());
    }
}

/// Organizing twice in a row is a no-op the second time: a run moves
/// every eligible file out of the scanned root, so the second scan's
/// entries are category directories, the history file, or files the
/// first run already declined — none of them eligible — and the second
/// run plans no moves.
pub proof fn lemma_organize_idempotent(f: &CompiledFilters, second: Seq<ScanEntry>)
    requires
        forall|i: int|
            0 <= i < second.len() ==> !(#[trigger] second[i]).is_file || !f.spec_should_include(
                second[i].path@,
            ),
    ensures
        spec_eligible_entries(f, second) == Seq::<ScanEntry>::empty(),
{
    lemma_no_eligible_entries(f, second);
}

/// How many of the infos fall in the given category.
pub open spec fn spec_category_count(infos: Seq<FileInfo>, c: Category) -> int
    decreases infos.len(),
{
    if infos.len() == 0 {
        0
    } else {
        spec_category_count(infos.drop_last(), c) + if infos.last().category == c {
            1int
        } else {
            0int
        }
    }
}

/// Every category, in the alphabetical order of its directory name.
pub open spec fn all_categories() -> Seq<Category> {
    seq![
        Category::Archive,
        Category::Audio,
        Category::Code,
        Category::Document,
        Category::Font,
        Category::Image,
        Category::Other,
        Category::Presentation,
        Category::Spreadsheet,
        Category::Video,
    ]
}

/// The dry-run tally over the categories from index `k` on: each
/// category that holds at least one file, with its directory name and
/// its count, in the enumeration order.
pub open spec fn spec_summary_from(infos: Seq<FileInfo>, cats: Seq<Category>, k: int) -> Seq<
    (Seq<char>, int),
>
    decreases cats.len() - k,
{
    if k < 0 || k >= cats.len() {
        Seq::empty()
    } else {
        let n = spec_category_count(infos, cats[k]);
        let rest = spec_summary_from(infos, cats, k + 1);
        if n > 0 {
            seq![(spec_dir_name(cats[k]), n)] + rest
        } else {
            rest
        }
    }
}

/// The view of a rendered tally.
pub open spec fn summary_view(v: Seq<(String, usize)>) -> Seq<(Seq<char>, int)> {
    v.map_values(|p: (String, usize)| (p.0@, p.1 as int))
}

/// Counts the infos of one category.
fn count_category(infos: &Vec<FileInfo>, c: Category) -> (r: usize)
    ensures
        r == spec_category_count(infos@, c),
{
    let mut count: usize = 0;
    let mut i: usize = 0;
    proof {
        assert(infos@.take(0) =~= Seq::<FileInfo>::empty());
    }
    while i < infos.len()
        invariant
            i <= infos@.len(),
            count == spec_category_count(infos@.take(i as int), c),
            count <= i,
        decreases infos@.len() - i,
    {
        proof {
            assert(infos@.take(i as int + 1).drop_last() =~= infos@.take(i as int));
            assert(infos@.take(i as int + 1).last() == infos@[i as int]);
        }
        if infos[i].category == c {
            count += 1;
        }
        i += 1;
    }
    proof {
        assert(infos@.take(infos@.len() as int) =~= infos@);
    }
    count
}

/// The tally over the categories from index `k` on.
fn summary_from(infos: &Vec<FileInfo>, cats: &Vec<Category>, k: usize) -> (r: Vec<(String, usize)>)
    ensures
        summary_view(r@) == spec_summary_from(infos@, cats@, k as int),
    decreases cats@.len() - k,
{
    if k >= cats.len() {
        let empty_summary: Vec<(String, usize)> = Vec::new();
        proof {
            assert(summary_view(empty_summary@) =~= Seq::<(Seq<char>, int)>::empty());
        }
        empty_summary
    } else {
        let n = count_category(infos, cats[k]);
        let mut rest = summary_from(infos, cats, k + 1);
        if n > 0 {
            rest.insert(0, (cats[k].dir_name().to_owned(), n));
            proof {
                assert(summary_view(rest@) =~= seq![(spec_dir_name(cats@[k as int]), n as int)]
                    + summary_view(rest@.drop_first()));
            }
        }
        rest
    }
}

/// The summary a dry run reports: for each category holding at least
/// one of the files, its directory name and how many files would move
/// there, ordered alphabetically by directory name.
pub fn dry_run_summary(infos: &Vec<FileInfo>) -> (r: Vec<(String, usize)>)
    ensures
        summary_view(r@) == spec_summary_from(infos@, all_categories(), 0),
{
    let mut cats: Vec<Category> = Vec::new();
    cats.push(Category::Archive);
    cats.push(Category::Audio);
    cats.push(Category::Code);
    cats.push(Category::Document);
    cats.push(Category::Font);
    cats.push(Category::Image);
    cats.push(Category::Other);
    cats.push(Category::Presentation);
    cats.push(Category::Spreadsheet);
    cats.push(Category::Video);
    proof {
        assert(cats@ =~= all_categories());
    }
    summary_from(infos, &cats, 0)
}

} // verus!
