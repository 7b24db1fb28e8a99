use dvenv::cmd::{Launch, NixFlake, TOOL};
use dvenv::errors::FetchError;
use dvenv::reader::ToolOutput;

fn wrote(bytes: &[u8]) -> Option<ToolOutput> {
    Some(ToolOutput { success: true, stdout: bytes.to_vec() })
}

fn strings(words: &[&str]) -> Vec<String> {
    words.iter().map(|w| w.to_string()).collect()
}

#[test]
fn a_flake_keeps_what_it_was_made_with() {
    let flake = NixFlake::new("x86_64-linux", "/srv/flake", "default");
    assert_eq!(flake.archi, "x86_64-linux");
    assert_eq!(flake.path, "/srv/flake");
    assert_eq!(flake.name, "default");
    let empty = NixFlake::new("", "", "");
    assert_eq!((empty.archi.as_str(), empty.path.as_str(), empty.name.as_str()), ("", "", ""));
}

#[test]
fn the_tool_is_nix() {
    assert_eq!(TOOL, "nix");
}

#[test]
fn the_listing_is_asked_for_by_path() {
    let flake = NixFlake::new("x86_64-linux", "/srv/flake", "");
    assert_eq!(flake.show_args(), strings(&["flake", "show", "path:/srv/flake", "--json"]));
    let relative = NixFlake::new("x86_64-linux", "./my flake", "rust");
    assert_eq!(relative.show_args(), strings(&["flake", "show", "path:./my flake", "--json"]));
}

#[test]
fn a_shell_is_addressed_by_directory_and_name() {
    let flake = NixFlake::new("x86_64-linux", "/srv/flake", "rust");
    assert_eq!(flake.reference(), "/srv/flake#rust");
    assert_eq!(flake.shell_args(), strings(&["develop", "/srv/flake#rust"]));
    assert_eq!(NixFlake::new("a", ".", "").reference(), ".#");
}

#[test]
fn entering_a_shell_calls_develop_and_says_goodbye() {
    let flake = NixFlake::new("x86_64-linux", "/srv/flake", "rust");
    let launch = flake.spawn_shell();
    assert_eq!(
        launch,
        Launch {
            args: strings(&["develop", "/srv/flake#rust"]),
            done: Some("Nix DevShell: Bye! Leaving /srv/flake#rust".to_string()),
            failed: "Nix DevShell didn't start".to_string(),
        }
    );
    assert_eq!(
        launch.report(true),
        Some("Nix DevShell: Bye! Leaving /srv/flake#rust".to_string())
    );
    assert_eq!(launch.report(false), Some("Nix DevShell didn't start".to_string()));
}

#[test]
fn running_a_command_goes_through_bash() {
    let flake = NixFlake::new("x86_64-linux", "/srv/flake", "rust");
    let launch = flake.run_command("cargo test -- --nocapture");
    assert_eq!(
        launch.args,
        strings(&[
            "develop",
            "/srv/flake#rust",
            "--command",
            "bash",
            "-c",
            "cargo test -- --nocapture"
        ])
    );
    assert_eq!(
        flake.command_args("ls"),
        strings(&["develop", "/srv/flake#rust", "--command", "bash", "-c", "ls"])
    );
    assert_eq!(launch.done, None);
    assert_eq!(launch.report(true), None);
    assert_eq!(launch.report(false), Some("Error: Could not run command".to_string()));
}

#[test]
fn the_tool_s_answer_is_text_or_a_reason() {
    let flake = NixFlake::new("x86_64-linux", "/srv/flake", "");
    assert_eq!(flake.to_json(wrote(b"{\"devShells\":{}}")), Ok("{\"devShells\":{}}".to_string()));
    assert_eq!(flake.to_json(wrote(b"no json")), Ok("no json".to_string()));
    assert_eq!(flake.to_json(wrote(&[0xff])), Err(FetchError::CatalogParseError));
    assert_eq!(flake.to_json(None), Err(FetchError::ToolInvocationFailed));
    let failed = ToolOutput { success: false, stdout: b"{}".to_vec() };
    assert_eq!(flake.to_json(Some(failed)), Err(FetchError::ToolInvocationFailed));
}
