use clipwatch::filedrop::{check_dropped_files, classify_path, FileType};
use clipwatch::tables::{get_code_extensions, get_excel_extensions, get_image_extensions,
    CategoryTables};
use clipwatch::EngineState;

fn default_tables() -> CategoryTables {
    CategoryTables::new(get_image_extensions(), get_excel_extensions(), get_code_extensions())
}

#[test]
fn default_tables_hold_the_expected_extensions() {
    let image = get_image_extensions();
    let excel = get_excel_extensions();
    let code = get_code_extensions();
    assert_eq!(image.len(), 8);
    assert_eq!(excel.len(), 4);
    assert_eq!(code.len(), 16);
    assert!(image.iter().any(|e| e == ".png"));
    assert!(excel.iter().any(|e| e == ".csv"));
    assert!(code.iter().any(|e| e == ".rs"));
    assert!(!code.iter().any(|e| e == ".txt"));
}

#[test]
fn dropped_batch_keeps_matching_paths_only() {
    let tables = default_tables();
    let paths = vec!["a.png".to_string(), "b.txt".to_string(), "c.RS".to_string()];
    let entries = check_dropped_files(&tables, &paths, 7, &"editor.exe".to_string());
    assert_eq!(entries.len(), 2);

    assert_eq!(entries[0].name, "a.png");
    assert_eq!(entries[0].path, "a.png");
    assert_eq!(entries[0].extension, ".png");
    assert_eq!(entries[0].file_type, FileType::IMAGE);
    assert_eq!(entries[0].pid, 7);
    assert_eq!(entries[0].pname, "editor.exe");

    assert_eq!(entries[1].name, "c.RS");
    assert_eq!(entries[1].path, "c.RS");
    assert_eq!(entries[1].extension, ".rs");
    assert_eq!(entries[1].file_type, FileType::CODE);
}

#[test]
fn extension_is_lowered_and_file_name_split_from_path() {
    let tables = default_tables();
    let path = "C:\\Users\\me\\Pictures\\Shot One.JPG".to_string();
    let entry = classify_path(&tables, &path, 3, &"explorer.exe".to_string()).unwrap();
    assert_eq!(entry.name, "Shot One.JPG");
    assert_eq!(entry.path, path);
    assert_eq!(entry.extension, ".jpg");
    assert_eq!(entry.file_type, FileType::IMAGE);
}

#[test]
fn forward_slash_paths_split_too() {
    let tables = default_tables();
    let path = "/tmp/data/report.XLSX".to_string();
    let entry = classify_path(&tables, &path, 3, &"sheet.exe".to_string()).unwrap();
    assert_eq!(entry.name, "report.XLSX");
    assert_eq!(entry.extension, ".xlsx");
    assert_eq!(entry.file_type, FileType::EXCEL);
}

#[test]
fn paths_without_usable_extension_are_excluded() {
    let tables = default_tables();
    let owner = "shell.exe".to_string();
    // no extension at all
    assert!(classify_path(&tables, &"noext".to_string(), 1, &owner).is_none());
    // a dot only at the start of the file name is no extension
    assert!(classify_path(&tables, &".gitignore".to_string(), 1, &owner).is_none());
    // the dot of a directory does not give the file an extension
    assert!(classify_path(&tables, &"dir.v/file".to_string(), 1, &owner).is_none());
    // a trailing dot leaves an empty extension, which no table holds
    assert!(classify_path(&tables, &"a.".to_string(), 1, &owner).is_none());
    // a known extension of the wrong case still matches ...
    assert!(classify_path(&tables, &"x.PnG".to_string(), 1, &owner).is_some());
    // ... an unknown one does not
    assert!(classify_path(&tables, &"x.txt".to_string(), 1, &owner).is_none());
}

#[test]
fn last_extension_wins_for_double_extensions() {
    let tables = default_tables();
    let owner = "shell.exe".to_string();
    // .tar.gz ends in .gz, which no table holds
    assert!(classify_path(&tables, &"archive.tar.gz".to_string(), 1, &owner).is_none());
    // backup.csv.png ends in .png
    let entry = classify_path(&tables, &"backup.csv.png".to_string(), 1, &owner).unwrap();
    assert_eq!(entry.extension, ".png");
    assert_eq!(entry.file_type, FileType::IMAGE);
}

#[test]
fn image_table_wins_over_later_tables() {
    // an extension placed in every table resolves to the image category
    let every = vec![".dup".to_string()];
    let tables = CategoryTables::new(every.clone(), every.clone(), every);
    let entry = classify_path(&tables, &"f.DUP".to_string(), 1, &"p".to_string()).unwrap();
    assert_eq!(entry.file_type, FileType::IMAGE);
}

#[test]
fn empty_batch_produces_no_event() {
    let engine = EngineState::new(default_tables());
    let owner = "shell.exe".to_string();
    assert!(engine.handle_file_drop(&vec![], 1, &owner).is_none());
    // a non-empty batch with no matching path produces no event either
    let paths = vec!["readme.txt".to_string(), "notes.md".to_string()];
    assert!(engine.handle_file_drop(&paths, 1, &owner).is_none());
}

#[test]
fn matching_batch_is_delivered_as_one_event() {
    let engine = EngineState::new(default_tables());
    let paths = vec!["one.bmp".to_string(), "two.sql".to_string(), "three.doc".to_string()];
    let event = engine.handle_file_drop(&paths, 42, &"word.exe".to_string()).unwrap();
    assert_eq!(event.len(), 2);
    assert_eq!(event[0].extension, ".bmp");
    assert_eq!(event[1].extension, ".sql");
    assert_eq!(event[1].pid, 42);
}
