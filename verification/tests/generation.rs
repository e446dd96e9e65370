use build_script_file_gen::GenError;
use build_script_file_gen::OutDir;
use build_script_file_gen::join_path;

#[test]
fn it_works() {
    assert_eq!(2 + 2, 4);
}

#[test]
fn round_trip_exact_content() {
    let mut dir = OutDir::from_env(Some(String::from("out")));
    assert_eq!(dir.generate("x", "Hello World!"), Ok(()));
    assert_eq!(dir.file_str("x"), Ok(String::from("Hello World!")));
}

#[test]
fn round_trip_empty_content() {
    let mut dir = OutDir::from_env(Some(String::from("out")));
    assert_eq!(dir.generate("empty.txt", ""), Ok(()));
    assert_eq!(dir.file_str("empty.txt"), Ok(String::new()));
}

#[test]
fn repeated_identical_generate_is_idempotent() {
    let mut dir = OutDir::from_env(Some(String::from("out")));
    assert_eq!(dir.generate("hello.txt", "Hello World!"), Ok(()));
    assert_eq!(dir.generate("hello.txt", "Hello World!"), Ok(()));
    assert_eq!(dir.file_str("hello.txt"), Ok(String::from("Hello World!")));
}

#[test]
fn second_generate_overwrites_first() {
    let mut dir = OutDir::from_env(Some(String::from("out")));
    assert_eq!(dir.generate("hello.txt", "first content"), Ok(()));
    assert_eq!(dir.generate("hello.txt", "second content"), Ok(()));
    assert_eq!(dir.file_str("hello.txt"), Ok(String::from("second content")));
}

#[test]
fn distinct_names_hold_distinct_content() {
    let mut dir = OutDir::from_env(Some(String::from("out")));
    assert_eq!(dir.generate("a.txt", "alpha"), Ok(()));
    assert_eq!(dir.generate("b.txt", "beta"), Ok(()));
    assert_eq!(dir.file_str("a.txt"), Ok(String::from("alpha")));
    assert_eq!(dir.file_str("b.txt"), Ok(String::from("beta")));
}

#[test]
fn generate_fails_when_variable_unset() {
    let mut dir = OutDir::from_env(None);
    assert_eq!(dir.generate("hello.txt", "Hello World!"), Err(GenError::MissingOutDir));
    // Nothing was written: the file is still absent once the directory is
    // configured the same way a later phase would see it.
    assert!(!dir.is_configured());
    assert_eq!(dir.file_str("hello.txt"), Err(GenError::MissingOutDir));
}

#[test]
fn reading_an_ungenerated_name_fails() {
    let mut dir = OutDir::from_env(Some(String::from("out")));
    assert_eq!(dir.generate("present.txt", "here"), Ok(()));
    assert_eq!(dir.file_str("absent.txt"), Err(GenError::MissingFile));
}

#[test]
fn source_text_comes_back_verbatim() {
    // The source-splicing reader consumes the same raw text as the
    // string-constant reader: one statement in, exactly that statement out,
    // with no delimiters or scope added around it.
    let statement = r#"recordEvent("Hello World!");"#;
    let mut dir = OutDir::from_env(Some(String::from("out")));
    assert_eq!(dir.generate("hello.rs", statement), Ok(()));
    let text = dir.file_str("hello.rs").unwrap();
    assert_eq!(text, statement);
    assert!(!text.starts_with('{') && !text.ends_with('}'));
}

#[test]
fn join_path_is_dir_separator_name() {
    assert_eq!(join_path("out", "hello.txt"), "out/hello.txt");
    assert_eq!(join_path("", "hello.txt"), "/hello.txt");
}

#[test]
fn dest_path_resolves_against_the_directory() {
    let dir = OutDir::from_env(Some(String::from("/build/out")));
    assert_eq!(dir.dest_path("hello.txt"), Ok(String::from("/build/out/hello.txt")));
}

#[test]
fn dest_path_fails_when_variable_unset() {
    let dir = OutDir::from_env(None);
    assert_eq!(dir.dest_path("hello.txt"), Err(GenError::MissingOutDir));
}

#[test]
fn configuration_is_visible() {
    assert!(OutDir::from_env(Some(String::from("out"))).is_configured());
    assert!(!OutDir::from_env(None).is_configured());
}
