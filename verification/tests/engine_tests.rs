use dirtidy::config::FilterConfig;
use dirtidy::engine::FileInfo;
use dirtidy::engine::OrganizeCommand;
use dirtidy::engine::ScanEntry;
use dirtidy::engine::collect_file_infos;
use dirtidy::engine::detect_file_type;
use dirtidy::engine::dry_run_summary;
use dirtidy::file_category::Category;
use dirtidy::file_category::FileMapper;
use dirtidy::file_organizer::FileOrganizer;

fn png_bytes() -> Vec<u8> {
    vec![0x89, 0x50, 0x4E, 0x47, 0x0D, 0x0A, 0x1A, 0x0A, 0x00, 0x00]
}

fn pdf_bytes() -> Vec<u8> {
    b"%PDF-1.4 minimal".to_vec()
}

fn mp3_bytes() -> Vec<u8> {
    vec![0x49, 0x44, 0x33, 0x04, 0x00, 0x00]
}

#[test]
fn test_file_info_creation() {
    let file_info = FileInfo {
        name: "test.txt".to_string(),
        path: "/path/to/test.txt".to_string(),
        file_type: Some("txt".to_string()),
        mime_type: Some("text/plain".to_string()),
        category: Category::Document,
    };

    assert_eq!(file_info.name, "test.txt");
    assert_eq!(file_info.file_type, Some("txt".to_string()));
}

#[test]
fn test_organize_command_enum() {
    let organize = OrganizeCommand::Organize { dry_run: false };
    let organize_dry_run = OrganizeCommand::Organize { dry_run: true };
    let undo = OrganizeCommand::Undo;

    matches!(organize, OrganizeCommand::Organize { dry_run: false });
    matches!(organize_dry_run, OrganizeCommand::Organize { dry_run: true });
    matches!(undo, OrganizeCommand::Undo);
}

#[test]
fn test_detect_png_signature_wins_over_extension() {
    let mapper = FileMapper::default();
    let data = png_bytes();
    let info = detect_file_type(
        "photo.txt".to_string(),
        "/base/photo.txt".to_string(),
        Some(&data),
        &mapper,
    );
    assert_eq!(info.mime_type, Some("image/png".to_string()));
    assert_eq!(info.category, Category::Image);
}

#[test]
fn test_detect_pdf_signature() {
    let mapper = FileMapper::default();
    let data = pdf_bytes();
    let info = detect_file_type(
        "report.pdf".to_string(),
        "/base/report.pdf".to_string(),
        Some(&data),
        &mapper,
    );
    assert_eq!(info.mime_type, Some("application/pdf".to_string()));
    assert_eq!(info.category, Category::Document);
}

#[test]
fn test_detect_mp3_signature() {
    let mapper = FileMapper::default();
    let data = mp3_bytes();
    let info = detect_file_type(
        "song.mp3".to_string(),
        "/base/song.mp3".to_string(),
        Some(&data),
        &mapper,
    );
    assert_eq!(info.mime_type, Some("audio/mpeg".to_string()));
    assert_eq!(info.category, Category::Audio);
}

#[test]
fn test_extension_fallback_on_sniff_miss() {
    let mapper = FileMapper::default();
    let data = b"plain text notes, no signature".to_vec();
    let info = detect_file_type(
        "notes.txt".to_string(),
        "/base/notes.txt".to_string(),
        Some(&data),
        &mapper,
    );
    assert_eq!(info.mime_type, None);
    assert_eq!(info.file_type, None);
    assert_eq!(info.category, Category::Document);
}

#[test]
fn test_extension_fallback_code_file() {
    let mapper = FileMapper::default();
    let data = b"print('hello')".to_vec();
    let info = detect_file_type(
        "program.py".to_string(),
        "/base/program.py".to_string(),
        Some(&data),
        &mapper,
    );
    assert_eq!(info.category, Category::Code);
}

#[test]
fn test_extension_fallback_unreadable_file() {
    let mapper = FileMapper::default();
    let info = detect_file_type(
        "sheet.csv".to_string(),
        "/base/sheet.csv".to_string(),
        None,
        &mapper,
    );
    assert_eq!(info.mime_type, None);
    assert_eq!(info.category, Category::Spreadsheet);
}

#[test]
fn test_extension_fallback_case_insensitive() {
    let mapper = FileMapper::default();
    let data = b"not a real pdf".to_vec();
    let info = detect_file_type(
        "REPORT.PDF".to_string(),
        "/base/REPORT.PDF".to_string(),
        Some(&data),
        &mapper,
    );
    assert_eq!(info.category, Category::Document);
}

#[test]
fn test_detect_unknown_bytes_falls_back_to_other() {
    let mapper = FileMapper::default();
    let data = b"Just some text".to_vec();
    let info = detect_file_type(
        "unknown.xyz".to_string(),
        "/base/unknown.xyz".to_string(),
        Some(&data),
        &mapper,
    );
    assert_eq!(info.mime_type, None);
    assert_eq!(info.category, Category::Other);
}

fn entry(name: &str, is_file: bool, data: Option<Vec<u8>>) -> ScanEntry {
    ScanEntry {
        name: name.to_string(),
        path: format!("/base/{}", name),
        is_file,
        data,
    }
}

#[test]
fn test_collect_file_infos_filters_and_categorizes() {
    let filters = FilterConfig::default().compile().unwrap();
    let mapper = FileMapper::default();
    let entries = vec![
        entry("photo.png", true, Some(png_bytes())),
        entry(".hidden", true, Some(b"x".to_vec())),
        entry("subdir", false, None),
        entry("report.pdf", true, Some(pdf_bytes())),
    ];

    let infos = collect_file_infos(&filters, &mapper, entries);
    assert_eq!(infos.len(), 2);
    assert_eq!(infos[0].name, "photo.png");
    assert_eq!(infos[0].category, Category::Image);
    assert_eq!(infos[1].name, "report.pdf");
    assert_eq!(infos[1].category, Category::Document);
}

#[test]
fn test_second_scan_collects_nothing() {
    let filters = FilterConfig::default().compile().unwrap();
    let mapper = FileMapper::default();

    let first = vec![
        entry("photo.png", true, Some(png_bytes())),
        entry("report.pdf", true, Some(pdf_bytes())),
    ];
    let planned = collect_file_infos(&filters, &mapper, first);
    assert_eq!(planned.len(), 2);

    // After the moves, the root holds the category directories and the
    // history file; none of them is an eligible file.
    let second = vec![
        entry("images", false, None),
        entry("documents", false, None),
        entry(".dirtidy_history.json", true, Some(b"{}".to_vec())),
    ];
    let replanned = collect_file_infos(&filters, &mapper, second);
    assert_eq!(replanned.len(), 0);
}

#[test]
fn test_collect_keeps_listing_order() {
    let filters = FilterConfig::default().compile().unwrap();
    let mapper = FileMapper::default();
    let entries = vec![
        entry("c.mp3", true, Some(mp3_bytes())),
        entry("a.png", true, Some(png_bytes())),
        entry("b.pdf", true, Some(pdf_bytes())),
    ];
    let infos = collect_file_infos(&filters, &mapper, entries);
    assert_eq!(infos.len(), 3);
    assert_eq!(infos[0].name, "c.mp3");
    assert_eq!(infos[1].name, "a.png");
    assert_eq!(infos[2].name, "b.pdf");
}

#[test]
fn test_dry_run_summary_counts() {
    let mapper = FileMapper::default();
    let mut infos: Vec<FileInfo> = Vec::new();
    for name in ["a.png", "b.png", "c.png"] {
        let data = png_bytes();
        infos.push(detect_file_type(
            name.to_string(),
            format!("/base/{}", name),
            Some(&data),
            &mapper,
        ));
    }
    for name in ["d.pdf", "e.pdf"] {
        let data = pdf_bytes();
        infos.push(detect_file_type(
            name.to_string(),
            format!("/base/{}", name),
            Some(&data),
            &mapper,
        ));
    }

    let summary = dry_run_summary(&infos);
    assert_eq!(
        summary,
        vec![("documents".to_string(), 2), ("images".to_string(), 3)]
    );
}

#[test]
fn test_signature_scenario_destinations() {
    let filters = FilterConfig::default().compile().unwrap();
    let mapper = FileMapper::default();
    let entries = vec![
        entry("photo.png", true, Some(png_bytes())),
        entry("report.pdf", true, Some(pdf_bytes())),
        entry("song.mp3", true, Some(mp3_bytes())),
    ];
    let infos = collect_file_infos(&filters, &mapper, entries);
    assert_eq!(infos.len(), 3);

    let mut destinations: Vec<String> = Vec::new();
    for info in &infos {
        let plan =
            FileOrganizer::move_to_category("/base", &info.path, info.category.dir_name(), true)
                .unwrap();
        destinations.push(plan.operation.new_path);
    }
    assert_eq!(
        destinations,
        vec![
            "/base/images/photo.png".to_string(),
            "/base/documents/report.pdf".to_string(),
            "/base/audio/song.mp3".to_string(),
        ]
    );
}

#[test]
fn test_dry_run_summary_empty() {
    let infos: Vec<FileInfo> = Vec::new();
    let summary = dry_run_summary(&infos);
    assert!(summary.is_empty());
}
