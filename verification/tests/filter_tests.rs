use dirtidy::config::ConfigError;
use dirtidy::config::ExcludeRules;
use dirtidy::config::FilterConfig;
use dirtidy::config::FilterRules;
use dirtidy::config::IncludeRules;

fn config_with(rules: FilterRules) -> FilterConfig {
    FilterConfig { filters: rules }
}

#[test]
fn test_default_config_hides_hidden_files() {
    let config = FilterConfig::default();
    assert!(!config.filters.enable_hidden_files);
}

#[test]
fn test_compile_valid_config() {
    let config = FilterConfig::default();
    let compiled = config.compile();
    assert!(compiled.is_ok());
}

#[test]
fn test_hidden_file_excluded_by_default() {
    let config = FilterConfig::default();
    let compiled = config.compile().unwrap();

    assert!(!compiled.should_include(".DS_Store"));
    assert!(!compiled.should_include(".gitignore"));
}

#[test]
fn test_hidden_file_included_when_enabled() {
    let config = config_with(FilterRules {
        enable_hidden_files: true,
        exclude: ExcludeRules::default(),
        include_rules: IncludeRules::default(),
    });
    let compiled = config.compile().unwrap();

    assert!(compiled.should_include(".DS_Store"));
}

#[test]
fn test_exclude_exact_filename() {
    let config = config_with(FilterRules {
        enable_hidden_files: true,
        exclude: ExcludeRules {
            filenames: vec!["Thumbs.db".to_string(), ".DS_Store".to_string()],
            ..Default::default()
        },
        include_rules: IncludeRules::default(),
    });
    let compiled = config.compile().unwrap();

    assert!(!compiled.should_include("Thumbs.db"));
    assert!(compiled.should_include("image.jpg"));
}

#[test]
fn test_exclude_extensions() {
    let config = config_with(FilterRules {
        enable_hidden_files: true,
        exclude: ExcludeRules {
            extensions: vec!["bak".to_string(), "tmp".to_string()],
            ..Default::default()
        },
        include_rules: IncludeRules::default(),
    });
    let compiled = config.compile().unwrap();

    assert!(!compiled.should_include("file.bak"));
    assert!(!compiled.should_include("file.tmp"));
    assert!(!compiled.should_include("file.BAK"));
    assert!(compiled.should_include("file.txt"));
}

#[test]
fn test_exclude_glob_patterns() {
    let config = config_with(FilterRules {
        enable_hidden_files: true,
        exclude: ExcludeRules {
            patterns: vec!["*.cache".to_string(), "node_modules/**".to_string()],
            ..Default::default()
        },
        include_rules: IncludeRules::default(),
    });
    let compiled = config.compile().unwrap();

    assert!(!compiled.should_include("file.cache"));
    assert!(!compiled.should_include("node_modules/package.json"));
    assert!(compiled.should_include("file.txt"));
}

#[test]
fn test_include_overrides_exclude() {
    let config = config_with(FilterRules {
        enable_hidden_files: false,
        exclude: ExcludeRules::default(),
        include_rules: IncludeRules { patterns: vec![".important".to_string()] },
    });
    let compiled = config.compile().unwrap();

    assert!(compiled.should_include(".important"));
    assert!(!compiled.should_include(".other"));
}

#[test]
fn test_exclude_regex() {
    let config = config_with(FilterRules {
        enable_hidden_files: true,
        exclude: ExcludeRules {
            regex: vec![r"^test_.*\.txt$".to_string()],
            ..Default::default()
        },
        include_rules: IncludeRules::default(),
    });
    let compiled = config.compile().unwrap();

    assert!(!compiled.should_include("test_file.txt"));
    assert!(!compiled.should_include("test_another.txt"));
    assert!(compiled.should_include("file.txt"));
}

#[test]
fn test_invalid_regex_returns_error() {
    let config = config_with(FilterRules {
        enable_hidden_files: true,
        exclude: ExcludeRules {
            regex: vec!["[invalid(".to_string()],
            ..Default::default()
        },
        include_rules: IncludeRules::default(),
    });

    let result = config.compile();
    assert!(result.is_err());
    match result {
        Err(ConfigError::InvalidRegexPattern { pattern, .. }) => {
            assert_eq!(pattern, "[invalid(");
        }
        _ => panic!("expected an invalid regex pattern error"),
    }
}

#[test]
fn test_glob_pattern_directory_boundary_semantics() {
    let config = config_with(FilterRules {
        enable_hidden_files: true,
        exclude: ExcludeRules {
            patterns: vec!["**/logs/**".to_string()],
            ..Default::default()
        },
        include_rules: IncludeRules::default(),
    });
    let compiled = config.compile().unwrap();

    assert!(!compiled.should_include("logs/file.txt"));
    assert!(!compiled.should_include("app/logs/file.txt"));

    assert!(compiled.should_include("my_logs/file.txt"));
    assert!(compiled.should_include("app/my_logs/file.txt"));
}

#[test]
fn test_glob_pattern_complex_nested_directories() {
    let config = config_with(FilterRules {
        enable_hidden_files: true,
        exclude: ExcludeRules {
            patterns: vec!["**/src/**/test_*.rs".to_string()],
            ..Default::default()
        },
        include_rules: IncludeRules::default(),
    });
    let compiled = config.compile().unwrap();

    assert!(!compiled.should_include("src/test_main.rs"));
    assert!(!compiled.should_include("src/utils/test_helpers.rs"));
    assert!(!compiled.should_include("project/src/deep/nested/path/test_utils.rs"));

    assert!(compiled.should_include("src/main.rs"));
    assert!(compiled.should_include("src/utils/helpers.rs"));
    assert!(compiled.should_include("test_main.rs"));
}

#[test]
fn test_glob_pattern_multiple_patterns() {
    let config = config_with(FilterRules {
        enable_hidden_files: true,
        exclude: ExcludeRules {
            patterns: vec![
                "**/logs/**".to_string(),
                "**/cache/**".to_string(),
                "**/tmp/**".to_string(),
            ],
            ..Default::default()
        },
        include_rules: IncludeRules::default(),
    });
    let compiled = config.compile().unwrap();

    assert!(!compiled.should_include("logs/app.log"));
    assert!(!compiled.should_include("app/logs/debug.log"));
    assert!(!compiled.should_include("cache/data.bin"));
    assert!(!compiled.should_include("tmp/tempfile.txt"));

    assert!(compiled.should_include("src/main.rs"));
    assert!(compiled.should_include("data/app.log"));
}

#[test]
fn test_glob_pattern_character_class() {
    let config = config_with(FilterRules {
        enable_hidden_files: true,
        exclude: ExcludeRules {
            patterns: vec!["[0-9]*.tmp".to_string()],
            ..Default::default()
        },
        include_rules: IncludeRules::default(),
    });
    let compiled = config.compile().unwrap();

    assert!(!compiled.should_include("1cache.tmp"));
    assert!(!compiled.should_include("99data.tmp"));

    assert!(compiled.should_include("cache.tmp"));
    assert!(compiled.should_include("a1cache.tmp"));
}

#[test]
fn test_glob_pattern_recursive_directory_matching() {
    let config = config_with(FilterRules {
        enable_hidden_files: true,
        exclude: ExcludeRules {
            patterns: vec!["**/node_modules/**".to_string()],
            ..Default::default()
        },
        include_rules: IncludeRules::default(),
    });
    let compiled = config.compile().unwrap();

    assert!(!compiled.should_include("node_modules/pkg/index.js"));
    assert!(!compiled.should_include("src/node_modules/pkg/index.js"));
    assert!(!compiled.should_include("a/b/c/node_modules/pkg/index.js"));

    assert!(compiled.should_include("src/pkg/index.js"));
    assert!(compiled.should_include("my_node_modules/pkg/index.js"));
}

#[test]
fn test_glob_pattern_single_char_wildcard() {
    let config = config_with(FilterRules {
        enable_hidden_files: true,
        exclude: ExcludeRules {
            patterns: vec!["file?.txt".to_string()],
            ..Default::default()
        },
        include_rules: IncludeRules::default(),
    });
    let compiled = config.compile().unwrap();

    assert!(!compiled.should_include("file1.txt"));
    assert!(!compiled.should_include("filea.txt"));

    assert!(compiled.should_include("file.txt"));
    assert!(compiled.should_include("file12.txt"));
}

#[test]
fn test_invalid_glob_pattern_returns_error() {
    let config = config_with(FilterRules {
        enable_hidden_files: true,
        exclude: ExcludeRules {
            patterns: vec!["[invalid".to_string()],
            ..Default::default()
        },
        include_rules: IncludeRules::default(),
    });

    let result = config.compile();
    assert!(result.is_err());
    match result {
        Err(ConfigError::InvalidGlobPattern(pattern)) => {
            assert_eq!(pattern, "[invalid");
        }
        _ => panic!("expected an invalid glob pattern error"),
    }
}

#[test]
fn test_should_include_idempotent() {
    let config = config_with(FilterRules {
        enable_hidden_files: false,
        exclude: ExcludeRules {
            extensions: vec!["tmp".to_string()],
            ..Default::default()
        },
        include_rules: IncludeRules::default(),
    });
    let compiled = config.compile().unwrap();

    for path in ["file.tmp", "file.txt", ".hidden", "dir/file.tmp"] {
        let first = compiled.should_include(path);
        let second = compiled.should_include(path);
        assert_eq!(first, second);
    }
}

#[test]
fn test_config_error_messages() {
    let e = ConfigError::InvalidGlobPattern("[bad".to_string());
    assert_eq!(e.message(), "Invalid glob pattern '[bad': expected *.ext or dir/**");
    let e = ConfigError::IoError("denied".to_string());
    assert_eq!(e.message(), "IO error reading configuration: denied");
}
