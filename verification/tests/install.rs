use acp_agent::commands::install::{
    command_detail, install_agent, install_dir_in, install_from_registry, run_command,
    user_install_dir, CommandOutput, InstallError, InstallMethod, InstallOutcome, InstallPlan,
};
use acp_agent::registry::{
    AgentDistribution, BinaryDistribution, BinaryTarget, PackageDistribution, Registry,
    RegistryAgent,
};
use acp_agent::path::PathStyle;
use acp_agent::runtime::binary::PreparationFailure;
use acp_agent::runtime::cache::{CacheLookup, CacheNext, CachedBinary, StoreError, StoreFailure};
use acp_agent::runtime::distribution::{resolve_cmd_path, PreparedBinary};
use acp_agent::runtime::process::ProcessStatus;
use std::path::Path;

fn sample_agent() -> RegistryAgent {
    RegistryAgent {
        id: "demo".to_string(),
        name: "Demo".to_string(),
        version: "1.0.0".to_string(),
        description: "Demo agent".to_string(),
        repository: None,
        website: None,
        authors: vec!["ACP".to_string()],
        license: "MIT".to_string(),
        icon: None,
        distribution: AgentDistribution {
            binary: None,
            npx: None,
            uvx: None,
        },
    }
}

fn package(name: &str) -> PackageDistribution {
    PackageDistribution {
        package: name.to_string(),
        args: None,
        env: None,
    }
}

fn binary(cmd: &str) -> BinaryDistribution {
    BinaryDistribution {
        linux_x86_64: Some(BinaryTarget {
            archive: "https://example.com/demo.zip".to_string(),
            cmd: cmd.to_string(),
            args: None,
            env: None,
        }),
        ..Default::default()
    }
}

#[test]
fn resolves_relative_cmd_paths() {
    let base = "/tmp/acp-agent";
    let resolved = resolve_cmd_path(
        PathStyle::Unix,
        base.as_bytes(),
        "./dist-package/cursor-agent",
    );
    assert_eq!(
        Path::new(&String::from_utf8(resolved.clone()).unwrap()),
        Path::new(base).join("dist-package").join("cursor-agent")
    );
    assert_eq!(resolved, b"/tmp/acp-agent/dist-package/cursor-agent");
}

#[test]
fn resolves_plain_and_absolute_cmd_paths() {
    let resolved = |base: &[u8], cmd: &str| resolve_cmd_path(PathStyle::Unix, base, cmd);
    assert_eq!(resolved(b"/x", "tool"), b"/x/tool");
    assert_eq!(resolved(b"/x/", "tool"), b"/x/tool");
    assert_eq!(resolved(b"/x", "/bin/tool"), b"/bin/tool");
    assert_eq!(resolved(b"/x", ".//bin/tool"), b"/bin/tool");
    assert_eq!(resolved(b"/x", "././tool"), b"/x/./tool");
    assert_eq!(resolved(b"/\xff", "./t\u{e9}"), b"/\xff/t\xc3\xa9");
}

#[test]
fn reports_missing_distribution() {
    let agent = sample_agent();

    let error = install_from_registry(&agent, "linux", "x86_64")
        .err()
        .expect("install should fail");

    assert_eq!(
        error.message(),
        "agent \"demo\" does not have an installable distribution"
    );
}

#[test]
fn binary_comes_before_npm_and_npm_before_uv() {
    let mut agent = sample_agent();
    agent.distribution.uvx = Some(package("demo-uv"));
    match install_from_registry(&agent, "linux", "x86_64").ok().unwrap() {
        InstallPlan::Package(install) => {
            assert_eq!(install.program, "uv");
            assert_eq!(install.args, ["tool", "install", "demo-uv"]);
            assert_eq!(install.subject, "uv package demo-uv");
            assert_eq!(install.method, InstallMethod::Uvx);
        }
        InstallPlan::Binary(_) => panic!("unexpected plan"),
    }
    agent.distribution.npx = Some(package("@demo/npm"));
    match install_from_registry(&agent, "linux", "x86_64").ok().unwrap() {
        InstallPlan::Package(install) => {
            assert_eq!(install.program, "npm");
            assert_eq!(install.args, ["i", "-g", "@demo/npm"]);
            assert_eq!(install.subject, "npm package @demo/npm");
            assert_eq!(install.method, InstallMethod::Npx);
        }
        InstallPlan::Binary(_) => panic!("unexpected plan"),
    }
    agent.distribution.binary = Some(binary("./demo"));
    assert!(matches!(
        install_from_registry(&agent, "linux", "x86_64"),
        Ok(InstallPlan::Binary(_))
    ));
    // No binary for the platform: the packages are the fallback.
    assert!(matches!(
        install_from_registry(&agent, "macos", "aarch64"),
        Ok(InstallPlan::Package(_))
    ));
    // So they are on an unknown platform.
    match install_from_registry(&agent, "plan9", "mips").ok().unwrap() {
        InstallPlan::Package(install) => {
            assert_eq!(install.program, "npm");
            assert_eq!(install.package, "@demo/npm");
        }
        InstallPlan::Binary(_) => panic!("unexpected plan"),
    }
    // Without packages it fails.
    agent.distribution.npx = None;
    agent.distribution.uvx = None;
    assert_eq!(
        install_from_registry(&agent, "plan9", "mips")
            .err()
            .unwrap()
            .message(),
        "unsupported platform: plan9-mips"
    );
}

#[test]
fn unknown_agents_are_not_installed() {
    let registry = Registry {
        version: "1".to_string(),
        agents: vec![sample_agent()],
        extensions: None,
    };
    assert_eq!(
        install_agent(&registry, "nope", "linux", "x86_64")
            .err()
            .unwrap()
            .message(),
        "agent with id \"nope\" was not found"
    );
    assert_eq!(
        install_agent(&registry, "demo", "linux", "x86_64")
            .err()
            .unwrap()
            .message(),
        "agent \"demo\" does not have an installable distribution"
    );
}

fn output(code: i32, stdout: &[u8], stderr: &[u8]) -> CommandOutput {
    CommandOutput {
        status: ProcessStatus {
            code: Some(code),
            signal: None,
        },
        stdout: stdout.to_vec(),
        stderr: stderr.to_vec(),
    }
}

#[test]
fn package_manager_failures_say_what_the_manager_said() {
    let failure = |outcome: Result<CommandOutput, String>| -> String {
        run_command("npm", "npm package x", outcome)
            .unwrap_err()
            .message()
    };
    assert_eq!(failure(Err("no such file".to_string())), "failed to run npm");
    assert_eq!(
        run_command("npm", "s", Err("no such file".to_string()))
            .unwrap_err()
            .cause(),
        Some("no such file".to_string())
    );
    assert_eq!(
        failure(Ok(output(1, b"out\n", b"  err \n"))),
        "failed to run npm for npm package x: err"
    );
    assert_eq!(
        failure(Ok(output(1, b"\tout\n", b" \n"))),
        "failed to run npm for npm package x: out"
    );
    assert_eq!(
        failure(Ok(output(2, b"", b""))),
        "failed to run npm for npm package x"
    );
    assert_eq!(
        failure(Ok(output(1, b"", b"bad \xff byte"))),
        "failed to run npm for npm package x: bad \u{fffd} byte"
    );
    assert_eq!(run_command("npm", "s", Ok(output(0, b"", b"noise"))), Ok(()));
    let signalled = CommandOutput {
        status: ProcessStatus {
            code: None,
            signal: Some(9),
        },
        stdout: vec![],
        stderr: vec![],
    };
    assert!(matches!(
        run_command("npm", "s", Ok(signalled)),
        Err(InstallError::CommandFailed { .. })
    ));
}

#[test]
fn details_prefer_standard_error() {
    assert_eq!(command_detail("out", "err"), "err");
    assert_eq!(command_detail(" out ", "\u{2028}"), "out");
    assert_eq!(command_detail("", ""), "");
}

#[test]
fn installed_packages_are_described() {
    let mut agent = sample_agent();
    agent.distribution.npx = Some(package("@demo/npm"));
    let plan = install_from_registry(&agent, "linux", "x86_64").ok().unwrap();
    let InstallPlan::Package(install) = plan else {
        panic!("unexpected plan");
    };
    let outcome = install.finished(Ok(output(0, b"", b""))).unwrap();
    assert_eq!(outcome.message(), "Installed demo via npm: @demo/npm");
    let manual = InstallOutcome::PackageManager {
        agent_id: "a".to_string(),
        method: InstallMethod::Binary,
        package: "p".to_string(),
    };
    assert_eq!(manual.message(), "Installed a via binary: p");
}

#[test]
fn user_directory_lies_below_the_home_directory() {
    assert_eq!(
        install_dir_in(PathStyle::Unix, Some(b"/home/u".to_vec())).unwrap(),
        b"/home/u/.local/bin"
    );
    assert_eq!(
        install_dir_in(PathStyle::Windows, Some(b"C:\\Users\\A".to_vec())).unwrap(),
        b"C:\\Users\\A\\.acp-agent\\bin"
    );
    assert_eq!(
        install_dir_in(PathStyle::Unix, None).unwrap_err().message(),
        "could not determine the current user's home directory"
    );
    assert_eq!(
        install_dir_in(PathStyle::Windows, Some(b"\\\\?\\C:\\Users\\A".to_vec())).unwrap(),
        b"\\\\?\\C:\\Users\\A\\.acp-agent\\bin"
    );
    // A home directory need not be UTF-8.
    assert_eq!(
        install_dir_in(PathStyle::Unix, Some(b"/home/\xff".to_vec())).unwrap(),
        b"/home/\xff/.local/bin"
    );
    match dirs::home_dir() {
        Some(home) => assert_eq!(
            user_install_dir(PathStyle::Unix).unwrap(),
            home.join(".local").join("bin").into_os_string().into_encoded_bytes()
        ),
        None => assert_eq!(
            user_install_dir(PathStyle::Unix).unwrap_err(),
            InstallError::NoHomeDirectory
        ),
    }
}

#[test]
fn binary_is_copied_under_its_own_name() {
    let mut agent = sample_agent();
    agent.distribution.binary = Some(binary("./bin/demo"));
    let start = || match install_from_registry(&agent, "linux", "x86_64").ok().unwrap() {
        InstallPlan::Binary(install) => install,
        InstallPlan::Package(_) => panic!("unexpected plan"),
    };
    let cached = |executable: &str| -> CachedBinary {
        let payload = PreparedBinary {
            executable_path: executable.as_bytes().to_vec(),
            extracted_dir: b"/c/e/extracted".to_vec(),
        };
        match start().cache().looked_up(CacheLookup::Fresh(payload)) {
            CacheNext::Ready(cached) => cached,
            CacheNext::Populate(_) => panic!("the payload is fresh"),
        }
    };
    let dir = || Ok(b"/home/u/.local/bin".to_vec());
    let source = || cached("/c/e/extracted/bin/demo");

    let error = start()
        .install_binary(Err(PreparationFailure::TempDir("full".to_string())))
        .err()
        .unwrap();
    assert_eq!(error.message(), "failed to create temporary directory");
    assert_eq!(error.cause(), Some("full".to_string()));
    assert_eq!(
        start()
            .install_binary_to(source(), Err(InstallError::NoHomeDirectory))
            .err()
            .unwrap(),
        InstallError::NoHomeDirectory
    );
    let created = || start().install_binary_to(source(), dir()).ok().unwrap();
    let error = created().created(Err("denied".to_string())).err().unwrap();
    assert_eq!(error.message(), "failed to create /home/u/.local/bin");
    assert_eq!(error.cause(), Some("denied".to_string()));
    assert_eq!(
        start()
            .install_binary_to(cached("/tmp/.."), dir())
            .ok()
            .unwrap()
            .created(Ok(()))
            .err()
            .unwrap()
            .message(),
        "invalid binary command path: ./bin/demo"
    );
    let copy = || created().created(Ok(())).ok().unwrap();
    assert_eq!(copy().source(), b"/c/e/extracted/bin/demo");
    assert_eq!(copy().destination, b"/home/u/.local/bin/demo");
    let error = copy().copied(Err("full".to_string())).err().unwrap();
    assert_eq!(
        error.message(),
        "failed to copy /c/e/extracted/bin/demo to /home/u/.local/bin/demo"
    );
    assert_eq!(error.cause(), Some("full".to_string()));
    let permission = || copy().copied(Ok(())).ok().unwrap();
    let error = permission()
        .marked(Err("chmod failed".to_string()))
        .err()
        .unwrap();
    assert_eq!(error.message(), "chmod failed");
    assert_eq!(error.cause(), None);
    assert_eq!(
        permission().marked(Ok(())).unwrap().message(),
        "Installed demo to /home/u/.local/bin/demo"
    );
}

#[test]
fn binaries_are_installed_only_from_the_cache() {
    let mut agent = sample_agent();
    agent.distribution.binary = Some(binary("./bin/demo"));
    let InstallPlan::Binary(install) = install_from_registry(&agent, "linux", "x86_64").ok().unwrap()
    else {
        panic!("unexpected plan");
    };
    let CacheNext::Populate(step) = install.cache().looked_up(CacheLookup::Missing) else {
        panic!("there is no payload");
    };
    let ready = step
        .created::<String>(Ok(Ok(b"/t".to_vec())))
        .ok()
        .unwrap()
        .downloaded::<String>(Ok(b"/t/demo.zip".to_vec()))
        .ok()
        .unwrap()
        .created::<String>(Ok(()))
        .ok()
        .unwrap()
        .extracted::<String>(Ok(()))
        .ok()
        .unwrap()
        .inspected::<String>(Some(true))
        .ok()
        .unwrap()
        .marked::<String>(Ok(()))
        .ok()
        .unwrap();
    let unstored: StoreFailure = ready.store_in(None).err().unwrap();
    assert_eq!(unstored.error, StoreError::NoCacheDirectory);
    let error = install.install_binary(Ok(Err(unstored))).err().unwrap();
    assert_eq!(
        error.message(),
        "could not determine the current user's cache directory"
    );
    assert_eq!(error.cause(), None);
}

#[test]
fn binaries_are_installed_below_any_home_directory() {
    let mut agent = sample_agent();
    agent.distribution.binary = Some(binary("./bin/demo"));
    let InstallPlan::Binary(install) = install_from_registry(&agent, "linux", "x86_64").ok().unwrap()
    else {
        panic!("unexpected plan");
    };
    let payload = PreparedBinary {
        executable_path: b"/c/\xfe/extracted/bin/demo".to_vec(),
        extracted_dir: b"/c/\xfe/extracted".to_vec(),
    };
    let CacheNext::Ready(cached) = install.cache().looked_up(CacheLookup::Fresh(payload)) else {
        panic!("the payload is fresh");
    };
    let dir = install_dir_in(PathStyle::Unix, Some(b"/home/\xff".to_vec()));
    let created = install.install_binary_to(cached, dir).ok().unwrap();
    assert_eq!(created.install_dir, b"/home/\xff/.local/bin");
    let copy = created.created(Ok(())).ok().unwrap();
    assert_eq!(copy.source(), b"/c/\xfe/extracted/bin/demo");
    assert_eq!(copy.destination, b"/home/\xff/.local/bin/demo");
    let outcome = copy.copied(Ok(())).ok().unwrap().marked(Ok(())).unwrap();
    assert_eq!(
        outcome,
        InstallOutcome::Binary {
            agent_id: "demo".to_string(),
            path: b"/home/\xff/.local/bin/demo".to_vec(),
        }
    );
    // Only what is shown to people has the byte replaced.
    assert_eq!(
        outcome.message(),
        "Installed demo to /home/\u{fffd}/.local/bin/demo"
    );
}
