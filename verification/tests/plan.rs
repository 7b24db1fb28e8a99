use dvenv::cli::Commands;
use dvenv::cmd::Launch;
use dvenv::data::NixFlakeData;
use dvenv::plan::{dispatch, Step, ARCHI};

const ONE_SHELL: &str =
    r#"{"devShells":{"x86_64-linux":{"default":{"name":"default","type":"devShell"}}}}"#;

fn strings(words: &[&str]) -> Vec<String> {
    words.iter().map(|w| w.to_string()).collect()
}

fn use_shell(name: &str) -> Commands {
    Commands::Use { name: name.to_string() }
}

fn run_in(name: &str, cmd: &str) -> Commands {
    Commands::Run { name: name.to_string(), cmd: cmd.to_string() }
}

#[test]
fn the_platform_is_fixed() {
    assert_eq!(ARCHI, "x86_64-linux");
}

#[test]
fn list_prints_exactly_the_one_name() {
    let data = NixFlakeData::from_json(ONE_SHELL).unwrap();
    let step = dispatch(&Commands::List, "x86_64-linux", "/srv/flake", &data);
    assert_eq!(step, Step::Print(strings(&["default"])));
}

#[test]
fn list_says_so_where_the_platform_has_no_shell() {
    let data = NixFlakeData::from_json(ONE_SHELL).unwrap();
    let step = dispatch(&Commands::List, "aarch64-linux", "/srv/flake", &data);
    assert_eq!(step, Step::Print(strings(&["No devshells found for aarch64-linux"])));
}

#[test]
fn use_of_a_shell_that_is_missing_does_nothing() {
    let data = NixFlakeData::from_json(ONE_SHELL).unwrap();
    assert_eq!(dispatch(&use_shell("missing"), ARCHI, "/srv/flake", &data), Step::Nothing);
    assert_eq!(
        dispatch(&use_shell("default"), "aarch64-linux", "/srv/flake", &data),
        Step::Nothing
    );
}

#[test]
fn use_of_a_shell_that_is_there_enters_it() {
    let data = NixFlakeData::from_json(ONE_SHELL).unwrap();
    let step = dispatch(&use_shell("default"), ARCHI, "/srv/flake", &data);
    assert_eq!(
        step,
        Step::Call(Launch {
            args: strings(&["develop", "/srv/flake#default"]),
            done: Some("Nix DevShell: Bye! Leaving /srv/flake#default".to_string()),
            failed: "Nix DevShell didn't start".to_string(),
        })
    );
}

#[test]
fn run_is_gated_like_use() {
    let data = NixFlakeData::from_json(ONE_SHELL).unwrap();
    assert_eq!(dispatch(&run_in("missing", "ls"), ARCHI, "/srv/flake", &data), Step::Nothing);
    let step = dispatch(&run_in("default", "ls -l"), ARCHI, "/srv/flake", &data);
    assert_eq!(
        step,
        Step::Call(Launch {
            args: strings(&["develop", "/srv/flake#default", "--command", "bash", "-c", "ls -l"]),
            done: None,
            failed: "Error: Could not run command".to_string(),
        })
    );
}

#[test]
fn a_command_names_its_shell() {
    assert_eq!(Commands::List.shell_name(), "");
    assert_eq!(use_shell("rust").shell_name(), "rust");
    assert_eq!(run_in("python", "true").shell_name(), "python");
}
