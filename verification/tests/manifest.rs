use poetry_to_requirements::constraint::parse_spec;
use poetry_to_requirements::load::{parse_lockfile, LoadError};
use poetry_to_requirements::model::{LockFile, Package};

fn pkg(category: &str, name: &str, version: &str, python_versions: &str) -> Package {
    Package {
        category: String::from(category),
        description: String::from(""),
        name: String::from(name),
        optional: false,
        python_versions: String::from(python_versions),
        version: String::from(version),
    }
}

#[test]
fn test_string_to_lockfile() {
    let lock_file_text = r#"
        [[package]]
        category = "dev"
        description = "An abstract syntax tree for Python with inference support."
        name = "astroid"
        optional = false
        python-versions = ">=3.4.*"
        version = "2.2.5"

        [package.dependencies]
        lazy-object-proxy = "*"
        six = "*"
        typed-ast = ">=1.3.0"
        wrapt = "*"
        [[package]]
        category = "dev"
        description = "Atomic file writes."
        name = "atomicwrites"
        optional = false
        python-versions = ">=2.7, !=3.0.*, !=3.1.*, !=3.2.*, !=3.3.*"
        version = "1.3.0"
    "#;

    let lock_file = parse_lockfile(lock_file_text);

    assert_eq!(
        lock_file,
        Ok(LockFile {
            package: vec![
                Package {
                    category: "dev".to_string(),
                    description: "An abstract syntax tree for Python with inference support."
                        .to_string(),
                    name: "astroid".to_string(),
                    optional: false,
                    python_versions: ">=3.4.*".to_string(),
                    version: "2.2.5".to_string()
                },
                Package {
                    category: "dev".to_string(),
                    description: "Atomic file writes.".to_string(),
                    name: "atomicwrites".to_string(),
                    optional: false,
                    python_versions: ">=2.7, !=3.0.*, !=3.1.*, !=3.2.*, !=3.3.*".to_string(),
                    version: "1.3.0".to_string()
                }
            ]
        })
    );
}

#[test]
fn test_parse_spec_single_clause() {
    let clauses = parse_spec(">=3.4").unwrap();
    assert_eq!(clauses.len(), 1);
    assert_eq!(clauses[0].op, ">=");
    assert_eq!(clauses[0].ver, "3.4");
}

#[test]
fn test_parse_spec_multi_clause() {
    let clauses = parse_spec(">=2.7, !=3.0.*, !=3.1.*").unwrap();
    assert_eq!(clauses.len(), 3);
    assert_eq!(clauses[0].op, ">=");
    assert_eq!(clauses[0].ver, "2.7");
    assert_eq!(clauses[1].op, "!=");
    assert_eq!(clauses[1].ver, "3.0.*");
    assert_eq!(clauses[2].op, "!=");
    assert_eq!(clauses[2].ver, "3.1.*");
}

#[test]
fn test_parse_spec_discards_other_characters() {
    let clauses = parse_spec(" ~= 2.7rc1 ").unwrap();
    assert_eq!(clauses.len(), 1);
    assert_eq!(clauses[0].op, "~=");
    assert_eq!(clauses[0].ver, "2.71");
}

#[test]
fn test_parse_spec_segment_without_operator() {
    let clauses = parse_spec("banana").unwrap();
    assert_eq!(clauses.len(), 1);
    assert_eq!(clauses[0].op, "");
    assert_eq!(clauses[0].ver, "");
}

#[test]
fn test_constraint_rendering_single() {
    let lock = LockFile { package: vec![pkg("main", "demo", "1.0", ">=3.4")] };
    assert_eq!(lock.to_requirements(false), "demo==1.0; python_version >= \"3.4\"");
}

#[test]
fn test_constraint_rendering_multi() {
    let lock = LockFile { package: vec![pkg("main", "demo", "1.0", ">=2.7, !=3.0.*, !=3.1.*")] };
    assert_eq!(
        lock.to_requirements(false),
        "demo==1.0; python_version >= \"2.7\" and python_version != \"3.0.*\" and python_version != \"3.1.*\""
    );
}

#[test]
fn test_empty_segment_rendered() {
    let lock = LockFile { package: vec![pkg("main", "demo", "1.0", "banana")] };
    assert_eq!(lock.to_requirements(false), "demo==1.0; python_version  \"\"");
}

#[test]
fn test_wildcard_has_no_suffix() {
    let lock = LockFile { package: vec![pkg("main", "demo", "1.0", "*")] };
    assert_eq!(lock.to_requirements(false), "demo==1.0");
    assert_eq!(lock.to_requirements(true), "demo==1.0");
}

#[test]
fn test_filter_by_category() {
    let lock = LockFile {
        package: vec![
            pkg("main", "alpha", "1.0", "*"),
            pkg("dev", "beta", "2.0", "*"),
            pkg("extras", "gamma", "3.0", "*"),
            pkg("main", "delta", "4.0", "*"),
        ],
    };
    assert_eq!(lock.to_requirements(false), "alpha==1.0\ndelta==4.0");
    assert_eq!(lock.to_requirements(true), "alpha==1.0\nbeta==2.0\ndelta==4.0");
}

#[test]
fn test_determinism() {
    let text = "package = [ { category = \"main\", description = \"\", name = \"demo\", optional = false, python-versions = \">=3.4\", version = \"1.0\" } ]";
    let first = parse_lockfile(text).unwrap().to_requirements(true);
    let second = parse_lockfile(text).unwrap().to_requirements(true);
    assert_eq!(first, second);
}

#[test]
fn test_empty_package_list() {
    let lock = parse_lockfile("package = []").unwrap();
    assert_eq!(lock.package.len(), 0);
    assert_eq!(lock.to_requirements(false), "");
    assert_eq!(lock.to_requirements(true), "");
}

#[test]
fn test_invalid_document_is_syntax_error() {
    assert_eq!(parse_lockfile("not [ valid toml"), Err(LoadError::Syntax));
}

#[test]
fn test_missing_package_list_is_schema_error() {
    assert_eq!(parse_lockfile("title = \"nothing\""), Err(LoadError::Schema));
}

#[test]
fn test_missing_name_is_schema_error() {
    let text = r#"
        [[package]]
        category = "main"
        description = "No name at all."
        optional = false
        python-versions = "*"
        version = "1.0"
    "#;
    assert_eq!(parse_lockfile(text), Err(LoadError::Schema));
}

#[test]
fn test_mistyped_optional_is_schema_error() {
    let text = r#"
        [[package]]
        category = "main"
        description = ""
        name = "demo"
        optional = "yes"
        python-versions = "*"
        version = "1.0"
    "#;
    assert_eq!(parse_lockfile(text), Err(LoadError::Schema));
}

#[test]
fn test_unicode_fields_pass_through() {
    let lock = LockFile { package: vec![pkg("main", "café", "1.0α", "≥=3.4")] };
    assert_eq!(lock.to_requirements(false), "café==1.0α; python_version = \"3.4\"");
}

#[test]
fn test_end_to_end_scenario() {
    let lock = LockFile {
        package: vec![
            pkg("dev", "astroid", "2.2.5", ">=3.4.*"),
            pkg("dev", "atomicwrites", "1.3.0", ">=2.7, !=3.0.*, !=3.1.*, !=3.2.*, !=3.3.*"),
        ],
    };
    assert_eq!(
        lock.to_requirements(true),
        "astroid==2.2.5; python_version >= \"3.4.*\"\n\
         atomicwrites==1.3.0; python_version >= \"2.7\" and python_version != \"3.0.*\" and python_version != \"3.1.*\" and python_version != \"3.2.*\" and python_version != \"3.3.*\""
    );
    assert_eq!(lock.to_requirements(false), "");
}
