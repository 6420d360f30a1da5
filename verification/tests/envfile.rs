use agproc::envfile::{collect, load, EnvSource};
use agproc::envmap::EnvMap;
use agproc::paths::FsPath;

fn parse(text: &str) -> Result<EnvMap, String> {
    load(
        &FsPath::from_text(".env"),
        &EnvSource::Bytes(text.as_bytes().to_vec()),
    )
}

#[test]
fn reads_comments_export_and_quotes() {
    let vars = parse(
        "\
# a comment\n\
\n\
PLAIN=value\n\
export EXPORTED=\"other value\"\n\
SINGLE='literal $HOME'\n\
ESCAPED=\"a\\nb\"\n\
TRAILING=end # trailing comment\n\
HASH=keep#this\n",
    )
    .unwrap();
    assert_eq!(vars.get("PLAIN"), Some("value"));
    assert_eq!(vars.get("EXPORTED"), Some("other value"));
    // Single quotes are literal: no substitution, no escapes.
    assert_eq!(vars.get("SINGLE"), Some("literal $HOME"));
    assert_eq!(vars.get("ESCAPED"), Some("a\nb"));
    assert_eq!(vars.get("TRAILING"), Some("end"));
    assert_eq!(vars.get("HASH"), Some("keep#this"));
}

#[test]
fn substitutes_from_the_file() {
    let vars = parse(
        "\
HOST=db.internal\n\
URL=\"http://${HOST}:5432\"\n\
BRACED=${HOST}/x\n\
BARE=$HOST/y\n",
    )
    .unwrap();
    assert_eq!(vars.get("URL"), Some("http://db.internal:5432"));
    assert_eq!(vars.get("BRACED"), Some("db.internal/x"));
    assert_eq!(vars.get("BARE"), Some("db.internal/y"));
}

#[test]
fn unquoted_spaces_are_rejected_with_the_fix_in_the_message() {
    // dotenv requires quoting here; guessing would silently truncate the value.
    let text = parse("KEY=two words\n").unwrap_err();
    assert!(text.contains("cannot parse env-file"), "{text}");
    assert!(text.contains("two words"), "{text}");
    assert!(text.contains("must be quoted"), "{text}");

    // Quoting it is all it takes.
    assert_eq!(
        parse("KEY=\"two words\"\n").unwrap().get("KEY"),
        Some("two words")
    );

    // A line that is not a KEY=VALUE pair at all gets the same fix.
    let err = parse("JUST WORDS\n").unwrap_err();
    assert!(err.contains("must be KEY=VALUE"), "{err}");
}

#[test]
fn duplicate_keys_are_rejected() {
    let text = parse("PORT=1\nOTHER=2\nPORT=3\n").unwrap_err();
    assert!(text.contains("more than once"), "{text}");
    assert!(text.contains("PORT"), "{text}");
    assert_eq!(
        text,
        "env-file .env: \"PORT\" is declared more than once; keep a single line"
    );
}

#[test]
fn broken_lines_are_rejected() {
    for text in ["THIS IS NOT A LINE\n", "1BAD=1\n"] {
        let err = parse(text).unwrap_err();
        assert!(err.contains("cannot parse env-file"), "{err}");
    }
}

#[test]
fn nul_bytes_are_rejected() {
    let text = parse("KEY=before\0after\n").unwrap_err();
    assert!(text.contains("NUL"), "{text}");
    assert!(text.contains("KEY"), "{text}");
}

#[test]
fn missing_file_reports_the_path() {
    let path = FsPath::from_text("/tmp/project/nope.env");
    let text = load(
        &path,
        &EnvSource::Unopened("No such file or directory (os error 2)".to_string()),
    )
    .unwrap_err();
    assert!(text.contains("cannot read env-file"), "{text}");
    assert!(text.contains("/tmp/project/nope.env"), "{text}");
}

#[test]
fn load_reads_a_real_file() {
    let vars = parse("# hi\nA=1\nB=\"two words\"\n").unwrap();
    assert_eq!(vars.len(), 2);
    assert_eq!(vars.get("A"), Some("1"));
    assert_eq!(vars.get("B"), Some("two words"));
}

#[test]
fn a_directory_is_an_error_not_a_panic() {
    let text = load(
        &FsPath::from_text("/tmp/project"),
        &EnvSource::Broken("Is a directory (os error 21)".to_string()),
    )
    .unwrap_err();
    assert!(text.contains("env-file"), "{text}");
    assert!(text.contains("/tmp/project"), "{text}");
    assert_eq!(
        text,
        "cannot parse env-file /tmp/project: Is a directory (os error 21)"
    );
}

#[test]
fn the_first_problem_of_a_file_is_reported() {
    let path = FsPath::from_text("e");
    let pair = |key: &str, value: &str| Ok((key.to_string(), value.to_string()));
    let err = collect(
        &path,
        &vec![
            pair("A", "1"),
            pair("A", "2"),
            Err((true, "later".to_string())),
        ],
    )
    .unwrap_err();
    assert_eq!(
        err,
        "env-file e: \"A\" is declared more than once; keep a single line"
    );
    let err = collect(&path, &vec![Err((false, "why".to_string())), pair("A", "1")]).unwrap_err();
    assert_eq!(err, "cannot parse env-file e: why");
    let err = collect(&path, &vec![Err((true, "why".to_string()))]).unwrap_err();
    assert_eq!(
        err,
        "cannot parse env-file e: why (a line must be KEY=VALUE, and a value containing spaces or '#' must be quoted: KEY=\"a value\")"
    );
    // Bytes that are no text are a failure of the line, without the hint.
    let err = load(&path, &EnvSource::Bytes(vec![65, 61, 255, 10])).unwrap_err();
    assert!(err.starts_with("cannot parse env-file e: "), "{err}");
    assert!(!err.contains("must be quoted"), "{err}");
}

#[test]
fn tables_hold_each_name_once() {
    let mut vars = EnvMap::new();
    assert_eq!(vars.len(), 0);
    vars.insert("A".to_string(), "1".to_string());
    vars.insert("B".to_string(), "2".to_string());
    vars.insert("A".to_string(), "3".to_string());
    assert_eq!(vars.len(), 2);
    assert_eq!(vars.get("A"), Some("3"));
    assert_eq!(vars.get("C"), None);
    let mut over = EnvMap::new();
    over.insert("B".to_string(), "9".to_string());
    over.insert("C".to_string(), "4".to_string());
    vars.extend(&over);
    assert_eq!(vars.len(), 3);
    assert_eq!(vars.get("B"), Some("9"));
    assert_eq!(vars.get("C"), Some("4"));
}

#[test]
fn substitution_changes_neither_names_nor_failures() {
    // Names are those of the file, wherever a `$` stands.
    let vars = parse("# costs $5\nA=1\nB='$A'\nC=$A-${A}\nexport D=\"\\$A\"\n").unwrap();
    assert_eq!(vars.len(), 4);
    assert_eq!(vars.get("A"), Some("1"));
    assert_eq!(vars.get("B"), Some("$A"));
    assert_eq!(vars.get("D"), Some("$A"));
    assert!(vars.get("C").is_some());

    // A broken line stops the reading beside a substitution.
    let text = parse("A=$AGPROC_UNSET_VARIABLE\nB=two words\n").unwrap_err();
    assert_eq!(
        text,
        "cannot parse env-file .env: Error parsing line: 'two words', error at line index: 4 (a line must be KEY=VALUE, and a value containing spaces or '#' must be quoted: KEY=\"a value\")"
    );
    let text = parse("A=${OPEN\n").unwrap_err();
    assert!(text.contains("cannot parse env-file"), "{text}");

    // So does a name that is declared twice.
    assert_eq!(
        parse("A=$B\nC=1\nA=$C\n").unwrap_err(),
        "env-file .env: \"A\" is declared more than once; keep a single line"
    );
}
