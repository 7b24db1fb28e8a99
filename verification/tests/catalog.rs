use dvenv::data::{NixFlakeData, ShellInfo};
use dvenv::document::Json;
use dvenv::errors::FetchError;
use dvenv::reader::ToolOutput;
use dvenv::table::Table;

const ONE_SHELL: &str =
    r#"{"devShells":{"x86_64-linux":{"default":{"name":"default","type":"devShell"}}}}"#;

const TWO_PLATFORMS: &str = r#"{
    "devShells": {
        "x86_64-linux": {
            "rust": {"name": "rust-env", "type": "derivation"},
            "python": {"name": "python-env", "type": "derivation", "description": "py"}
        },
        "aarch64-darwin": {
            "rust": {"name": "rust-env", "type": "derivation"}
        }
    },
    "packages": {"x86_64-linux": {"hello": {"name": "hello-2.12", "type": "derivation"}}},
    "overlays": {"default": {"type": "nixpkgs-overlay"}}
}"#;

fn wrote(bytes: &[u8]) -> Option<ToolOutput> {
    Some(ToolOutput { success: true, stdout: bytes.to_vec() })
}

fn sorted(mut names: Vec<String>) -> Vec<String> {
    names.sort();
    names
}

fn info(name: &str, kind: &str) -> ShellInfo {
    ShellInfo { name: name.to_string(), kind: kind.to_string() }
}

#[test]
fn lists_the_one_shell_of_the_platform() {
    let data = NixFlakeData::from_json(ONE_SHELL).unwrap();
    assert_eq!(data.list_names("x86_64-linux"), vec!["default".to_string()]);
    assert_eq!(data.print_shells("x86_64-linux"), vec!["default".to_string()]);
}

#[test]
fn finds_the_shell_and_no_other() {
    let data = NixFlakeData::from_json(ONE_SHELL).unwrap();
    assert!(data.shell_exists("x86_64-linux", "default"));
    assert!(!data.shell_exists("x86_64-linux", "missing"));
    assert!(!data.shell_exists("x86_64-linux", ""));
    assert!(!data.shell_exists("x86_64-linux", "Default"));
}

#[test]
fn a_platform_that_is_not_there_has_no_shell_and_no_name() {
    let data = NixFlakeData::from_json(ONE_SHELL).unwrap();
    assert!(!data.shell_exists("aarch64-darwin", "default"));
    assert!(!data.shell_exists("", "default"));
    assert_eq!(data.list_names("aarch64-darwin"), Vec::<String>::new());
    assert_eq!(
        data.print_shells("aarch64-darwin"),
        vec!["No devshells found for aarch64-darwin".to_string()]
    );
}

#[test]
fn a_platform_without_shells_gets_the_notice() {
    let data = NixFlakeData::from_json(r#"{"devShells":{"x86_64-linux":{}}}"#).unwrap();
    assert_eq!(data.list_names("x86_64-linux"), Vec::<String>::new());
    assert_eq!(
        data.print_shells("x86_64-linux"),
        vec!["No devshells found for x86_64-linux".to_string()]
    );
}

#[test]
fn a_catalog_without_platforms_is_a_catalog() {
    let data = NixFlakeData::from_json(r#"{"devShells":{}}"#).unwrap();
    assert!(!data.shell_exists("x86_64-linux", "default"));
    assert_eq!(data.list_names("x86_64-linux"), Vec::<String>::new());
}

#[test]
fn reads_every_platform_and_passes_over_other_members() {
    let data = NixFlakeData::from_json(TWO_PLATFORMS).unwrap();
    assert_eq!(
        sorted(data.list_names("x86_64-linux")),
        vec!["python".to_string(), "rust".to_string()]
    );
    assert_eq!(data.list_names("aarch64-darwin"), vec!["rust".to_string()]);
    assert!(data.shell_exists("x86_64-linux", "python"));
    assert!(!data.shell_exists("aarch64-darwin", "python"));
    assert!(!data.shell_exists("x86_64-linux", "hello"));
    let shells = data.devshells.get("x86_64-linux").unwrap();
    assert_eq!(shells.get("python"), Some(&info("python-env", "derivation")));
    assert_eq!(shells.get("rust"), Some(&info("rust-env", "derivation")));
    assert_eq!(shells.get("hello"), None);
}

#[test]
fn the_names_do_not_depend_on_the_order_of_the_text() {
    let one = NixFlakeData::from_json(
        r#"{"devShells":{"p":{"a":{"name":"1","type":"t"},"b":{"type":"t","name":"2"}},"q":{}}}"#,
    )
    .unwrap();
    let other = NixFlakeData::from_json(
        r#"{"devShells":{"q":{},"p":{"b":{"name":"2","type":"t"},"a":{"name":"1","type":"t"}}}}"#,
    )
    .unwrap();
    assert_eq!(sorted(one.list_names("p")), sorted(other.list_names("p")));
    assert_eq!(sorted(one.list_names("p")), vec!["a".to_string(), "b".to_string()]);
    assert_eq!(one.list_names("q"), other.list_names("q"));
    let shells = other.devshells.get("p").unwrap();
    assert_eq!(shells.get("b"), Some(&info("2", "t")));
}

#[test]
fn a_catalog_that_was_written_out_reads_back() {
    let data = NixFlakeData::from_json(TWO_PLATFORMS).unwrap();
    let back = NixFlakeData::from_document(&data.to_document()).unwrap();
    for archi in ["x86_64-linux", "aarch64-darwin", "riscv64-linux"] {
        assert_eq!(back.list_names(archi), data.list_names(archi));
    }
    let shells = back.devshells.get("x86_64-linux").unwrap();
    assert_eq!(shells.get("python"), Some(&info("python-env", "derivation")));
}

#[test]
fn the_document_of_a_catalog_has_the_tool_s_shape() {
    let mut shells: Table<ShellInfo> = Table::new();
    shells.insert("default".to_string(), info("default", "devShell"));
    let mut platforms: Table<Table<ShellInfo>> = Table::new();
    platforms.insert("x86_64-linux".to_string(), shells);
    let data = NixFlakeData::with_platforms(platforms);
    assert_eq!(data.to_document(), Json::read(ONE_SHELL).unwrap());
    assert_eq!(
        info("default", "devShell").to_document(),
        Json::Object(vec![
            ("name".to_string(), Json::Text("default".to_string())),
            ("type".to_string(), Json::Text("devShell".to_string())),
        ])
    );
}

#[test]
fn a_catalog_built_by_hand_knows_its_shells() {
    let mut shells: Table<ShellInfo> = Table::new();
    shells.insert("zeta".to_string(), info("z", "devShell"));
    shells.insert("alpha".to_string(), info("a", "devShell"));
    let mut platforms: Table<Table<ShellInfo>> = Table::new();
    platforms.insert("x86_64-linux".to_string(), shells);
    let data = NixFlakeData::with_platforms(platforms);
    assert!(data.shell_exists("x86_64-linux", "alpha"));
    assert!(!data.shell_exists("x86_64-linux", "beta"));
    assert_eq!(data.list_names("x86_64-linux"), vec!["zeta".to_string(), "alpha".to_string()]);
}

#[test]
fn refuses_a_document_without_the_namespace() {
    assert_eq!(
        NixFlakeData::from_json(r#"{"packages":{}}"#).err(),
        Some(FetchError::CatalogParseError)
    );
    assert_eq!(NixFlakeData::from_json("{}").err(), Some(FetchError::CatalogParseError));
    assert_eq!(
        NixFlakeData::from_json(r#"{"devshells":{}}"#).err(),
        Some(FetchError::CatalogParseError)
    );
}

#[test]
fn refuses_what_is_not_json() {
    for text in ["", "not json", "{", r#"{"devShells":{}"#, r#"{"devShells":{}} trailing"#] {
        assert_eq!(NixFlakeData::from_json(text).err(), Some(FetchError::CatalogParseError));
    }
}

#[test]
fn refuses_json_of_another_shape() {
    for text in [
        "null",
        "[]",
        r#""devShells""#,
        "17",
        r#"{"devShells":[]}"#,
        r#"{"devShells":null}"#,
        r#"{"devShells":{"x86_64-linux":[]}}"#,
        r#"{"devShells":{"x86_64-linux":"default"}}"#,
        r#"{"devShells":{"x86_64-linux":{"default":"devShell"}}}"#,
        r#"{"devShells":{"x86_64-linux":{"default":{"name":"default"}}}}"#,
        r#"{"devShells":{"x86_64-linux":{"default":{"type":"devShell"}}}}"#,
        r#"{"devShells":{"x86_64-linux":{"default":{"name":1,"type":"devShell"}}}}"#,
        r#"{"devShells":{"x86_64-linux":{"default":{"name":"default","type":null}}}}"#,
        r#"{"devShells":{"a":{},"b":{"x":{"name":"x","type":"t"},"y":{}}}}"#,
    ] {
        assert_eq!(
            NixFlakeData::from_json(text).err(),
            Some(FetchError::CatalogParseError),
            "{}",
            text
        );
    }
}

#[test]
fn a_key_that_is_named_twice_holds_what_comes_last() {
    let doc = Json::Object(vec![
        ("devShells".to_string(), Json::Number),
        (
            "devShells".to_string(),
            Json::Object(vec![
                (
                    "p".to_string(),
                    Json::Object(vec![("a".to_string(), info("a", "t").to_document())]),
                ),
                (
                    "p".to_string(),
                    Json::Object(vec![("b".to_string(), info("b", "t").to_document())]),
                ),
            ]),
        ),
    ]);
    let data = NixFlakeData::from_document(&doc).unwrap();
    assert_eq!(data.list_names("p"), vec!["b".to_string()]);
    assert!(!data.shell_exists("p", "a"));
}

#[test]
fn fetches_a_catalog_from_what_the_tool_wrote() {
    let data = NixFlakeData::fetch(wrote(ONE_SHELL.as_bytes())).unwrap();
    assert!(data.shell_exists("x86_64-linux", "default"));
    let accented = r#"{"devShells":{"p":{"café":{"name":"é","type":"t"}}}}"#;
    let data = NixFlakeData::fetch(wrote(accented.as_bytes())).unwrap();
    assert_eq!(data.list_names("p"), vec!["café".to_string()]);
}

#[test]
fn fetch_says_why_there_is_no_catalog() {
    assert_eq!(NixFlakeData::fetch(None).err(), Some(FetchError::ToolInvocationFailed));
    assert_eq!(NixFlakeData::fetch(wrote(b"")).err(), Some(FetchError::CatalogParseError));
    assert_eq!(
        NixFlakeData::fetch(wrote(&[0xff, 0xfe, 0x7b, 0x7d])).err(),
        Some(FetchError::CatalogParseError)
    );
    assert_eq!(
        NixFlakeData::fetch(wrote(b"{\"packages\":{}}")).err(),
        Some(FetchError::CatalogParseError)
    );
    let failed = ToolOutput { success: false, stdout: ONE_SHELL.as_bytes().to_vec() };
    assert_eq!(NixFlakeData::fetch(Some(failed)).err(), Some(FetchError::ToolInvocationFailed));
    let failed = ToolOutput { success: false, stdout: Vec::new() };
    assert_eq!(NixFlakeData::fetch(Some(failed)).err(), Some(FetchError::ToolInvocationFailed));
}
