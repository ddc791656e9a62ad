use stacksight::clock::create_environment_record;
use stacksight::command_line::CommandLine;
use stacksight::virtenv::{
    EnvironmentHealth, HealthStatus,
    composer_packages, creation_steps, default_templates, determine_env_path, install_steps,
    new_environment, node_packages, packages_from_entries, parse_bundle_list, parse_maven_list,
    python_env_roots, rust_packages, ComposerEntry, CreateEnvironmentRequest, DependencySpec,
    EnvRegistry, Language, PackageOperation, PackageOperationType, Step, VirtEnvError,
};
use std::collections::HashMap;

fn s(x: &str) -> String {
    x.to_string()
}

fn request(name: &str, language: Language) -> CreateEnvironmentRequest {
    CreateEnvironmentRequest {
        name: s(name),
        language,
        version: None,
        template: None,
        project_path: None,
        packages: vec![],
        location: None,
    }
}

#[test]
fn language_names() {
    assert_eq!(Language::Python.as_str(), "python");
    assert_eq!(Language::Php.as_str(), "php");
    assert_eq!(Language::Other(s("elixir")).as_str(), "elixir");
}

#[test]
fn environment_paths() {
    assert_eq!(determine_env_path(&request("ml", Language::Python), Some(s("/home/u"))), Ok(s("/home/u/.virtualenvs/ml")));
    assert_eq!(determine_env_path(&request("web", Language::Node), Some(s("/home/u/"))), Ok(s("/home/u/.nvm/environments/web")));
    assert_eq!(determine_env_path(&request("svc", Language::Rust), Some(s("/home/u"))), Ok(s("/home/u/.devenv/rust/svc")));
    let mut r = request("x", Language::Ruby);
    r.location = Some(s("/srv"));
    assert_eq!(determine_env_path(&r, None), Ok(s("/srv/x")));
    assert_eq!(determine_env_path(&request("x", Language::Java), None), Err(VirtEnvError::HomeNotSet));
    assert_eq!(VirtEnvError::HomeNotSet.message(), "HOME environment variable not set");
    assert_eq!(VirtEnvError::NotFound(s("e1")).message(), "Environment not found: e1");
    assert_eq!(VirtEnvError::UnsupportedLanguage(s("go")).message(), "Language not supported: go");
    assert_eq!(VirtEnvError::InstallUnsupported(s("go")).message(), "Package installation not supported for go");
    assert_eq!(VirtEnvError::MavenManual.message(), "Maven package installation requires manual editing of pom.xml");
    assert_eq!(VirtEnvError::GradleManual.message(), "Gradle package installation requires manual editing of build.gradle");
    assert_eq!(VirtEnvError::NoJavaProject.message(), "No Maven or Gradle project detected");
}

#[test]
fn new_environment_records() {
    let e = new_environment(&request("ml", Language::Python), s("id1"), s("/p"), s("now")).unwrap();
    assert_eq!(e.id, "id1");
    assert_eq!(e.version, "3.11");
    assert!(!e.is_active);
    assert!(e.packages.is_empty());
    let r = new_environment(&request("x", Language::Other(s("go"))), s("id2"), s("/p"), s("now"));
    assert_eq!(r, Err(VirtEnvError::UnsupportedLanguage(s("go"))));
    let fresh = create_environment_record(&request("ml", Language::Node), s("/p")).unwrap();
    assert_eq!(fresh.id.len(), 36);
    assert_eq!(fresh.name, "ml");
    let other = create_environment_record(&request("ml", Language::Node), s("/p")).unwrap();
    assert_ne!(fresh.id, other.id);
}

#[test]
fn registry_activation() {
    let mut reg = EnvRegistry::new();
    let a = new_environment(&request("a", Language::Python), s("a"), s("/a"), s("t0")).unwrap();
    let b = new_environment(&request("b", Language::Python), s("b"), s("/b"), s("t0")).unwrap();
    reg.insert(a);
    reg.insert(b);
    assert_eq!(reg.activate("a", s("t1")), Ok(()));
    assert_eq!(reg.activate("b", s("t2")), Ok(()));
    assert!(!reg.environments[0].is_active);
    assert!(reg.environments[1].is_active);
    assert_eq!(reg.environments[1].last_used, Some(s("t2")));
    assert_eq!(reg.active_env, Some(s("b")));
    assert_eq!(reg.activate("zz", s("t3")), Err(VirtEnvError::NotFound(s("zz"))));
    assert!(reg.deactivate("b"));
    assert_eq!(reg.active_env, None);
    assert!(!reg.environments[1].is_active);
    assert!(!reg.deactivate("zz"));
    assert_eq!(reg.remove("a").unwrap().id, "a");
    assert_eq!(reg.environments.len(), 1);
    assert_eq!(reg.remove("a"), Err(VirtEnvError::NotFound(s("a"))));
    assert_eq!(reg.activate_now("b"), Ok(()));
    assert!(reg.environments[0].is_active);
    assert_eq!(reg.get_environments().len(), 1);
    assert_eq!(reg.get_templates().len(), 2);
    assert_eq!(reg.get_templates()[1].id, "python-data-science");
}

fn run_cmd(step: &Step) -> &CommandLine {
    match step {
        Step::Run { command, .. } => command,
        other => panic!("not a command: {:?}", other),
    }
}

#[test]
fn creating_environments() {
    let mut r = request("ml", Language::Python);
    r.packages = vec![s("numpy")];
    let steps = creation_steps(&r, &s("/e/ml"), &default_templates()).unwrap();
    assert_eq!(steps[0], Step::CreateDir(s("/e/ml")));
    assert_eq!(run_cmd(&steps[1]), &CommandLine { program: s("python3"), args: vec![s("-m"), s("venv"), s("/e/ml")], dir: None });
    let mut n = request("web", Language::Node);
    n.packages = vec![s("react"), s("vite")];
    let steps = creation_steps(&n, &s("/e/web"), &vec![]).unwrap();
    assert_eq!(steps.len(), 3);
    assert_eq!(
        run_cmd(&steps[2]),
        &CommandLine { program: s("npm"), args: vec![s("install"), s("react"), s("vite")], dir: Some(s("/e/web")) }
    );
    let steps = creation_steps(&request("svc", Language::Rust), &s("/e/svc"), &vec![]).unwrap();
    assert_eq!(
        run_cmd(&steps[1]),
        &CommandLine { program: s("cargo"), args: vec![s("init"), s("--vcs"), s("none")], dir: Some(s("/e/svc")) }
    );
    let j = creation_steps(&request("app", Language::Java), &s("/e/app"), &vec![]).unwrap();
    assert_eq!(j[1], Step::CreateDir(s("/e/app/src/main/java")));
    match &j[2] {
        Step::WriteFile { path, contents } => {
            assert_eq!(path, "/e/app/pom.xml");
            assert!(contents.contains("<artifactId>app</artifactId>"));
        }
        other => panic!("unexpected {:?}", other),
    }
    assert_eq!(
        creation_steps(&request("x", Language::Other(s("go"))), &s("/e/x"), &vec![]),
        Err(VirtEnvError::UnsupportedLanguage(s("go")))
    );
}

#[test]
fn installing_packages() {
    let env = new_environment(&request("ml", Language::Python), s("id"), s("/e/ml"), s("t")).unwrap();
    let op = PackageOperation {
        env_id: s("id"),
        operation: PackageOperationType::Uninstall,
        packages: vec![s("numpy")],
        options: HashMap::new(),
    };
    let steps = install_steps(&env, &op, false, false).unwrap();
    assert_eq!(steps.len(), 1);
    match &steps[0] {
        Step::FirstOf { commands, failure } => {
            let programs: Vec<&str> = commands.iter().map(|c| c.program.as_str()).collect();
            assert_eq!(programs, vec!["/e/ml/bin/pip", "/e/ml/Scripts/pip.exe", "pip", "pip3"]);
            assert_eq!(commands[0].args, vec![s("uninstall"), s("-y"), s("numpy")]);
            assert_eq!(failure, "Failed to execute pip operation in environment: /e/ml");
        }
        other => panic!("unexpected {:?}", other),
    }
    let java = new_environment(&request("app", Language::Java), s("j"), s("/e/app"), s("t")).unwrap();
    assert_eq!(install_steps(&java, &op, true, true), Err(VirtEnvError::MavenManual));
    assert_eq!(install_steps(&java, &op, false, true), Err(VirtEnvError::GradleManual));
    assert_eq!(install_steps(&java, &op, false, false), Err(VirtEnvError::NoJavaProject));
}

#[test]
fn package_listings() {
    let ruby = parse_bundle_list("Gems included by the bundle:\n  * rails (7.1.2)\n  * rack (3.0.8)\nUse `bundle info` to print more.\n");
    let names: Vec<(&str, &str)> = ruby.iter().map(|p| (p.name.as_str(), p.version.as_str())).collect();
    assert_eq!(names, vec![("rails", "7.1.2"), ("rack", "3.0.8")]);
    let mvn = parse_maven_list("[INFO] Scanning\n[INFO]    org.slf4j:slf4j-api:jar:2.0.9:compile\n[INFO]    bad:spec\n");
    assert_eq!(mvn.len(), 1);
    assert_eq!(mvn[0].name, "org.slf4j:slf4j-api");
    assert_eq!(mvn[0].version, "2.0.9");
    let rs = rust_packages(
        &vec![(s("serde"), DependencySpec::Version(s("1"))), (s("tokio"), DependencySpec::Table(None))],
        &vec![(s("proptest"), DependencySpec::Table(Some(s("1.4"))))],
    );
    let rv: Vec<(&str, &str, bool)> = rs.iter().map(|p| (p.name.as_str(), p.version.as_str(), p.is_dev_dependency)).collect();
    assert_eq!(rv, vec![("serde", "1", false), ("tokio", "*", false), ("proptest", "1.4", true)]);
    let py = packages_from_entries(&vec![(Some(s("numpy")), Some(s("1.26"))), (None, Some(s("1"))), (Some(s("pip")), None)]);
    assert_eq!(py.len(), 1);
    assert_eq!(py[0].name, "numpy");
    let node = node_packages(&vec![(s("react"), Some(s("18.2.0"))), (s("x"), None)]);
    assert_eq!(node.len(), 2);
    assert_eq!(node[0].version, "18.2.0");
    let php = composer_packages(&vec![
        ComposerEntry { name: Some(s("monolog/monolog")), version: Some(s("3.5.0")), description: Some(s("Logs")) },
        ComposerEntry { name: None, version: Some(s("1")), description: None },
    ]);
    assert_eq!(php.len(), 1);
    assert_eq!(php[0].description, Some(s("Logs")));
}

#[test]
fn roots_and_templates() {
    assert_eq!(
        python_env_roots(Some(s("/home/u")), Some(s("/w"))),
        vec![s("/home/u/.virtualenvs"), s("/home/u/.local/share/virtualenvs"), s("/home/u/.venvs"), s("/w")]
    );
    assert!(python_env_roots(None, None).is_empty());
    let t = default_templates();
    assert_eq!(t.len(), 2);
    assert_eq!(t[0].id, "python-basic");
    assert_eq!(t[0].packages, vec![s("pip"), s("setuptools"), s("wheel")]);
    assert_eq!(t[1].id, "python-data-science");
}

#[test]
fn default_health_is_unknown() {
    let h = EnvironmentHealth::default();
    assert_eq!(h.status, HealthStatus::Unknown);
    assert!(h.issues.is_empty());
    assert!(h.memory_usage.is_none());
    assert!(!h.last_check.is_empty());
}

#[test]
fn activation_now_and_fresh_records() {
    let mut reg = EnvRegistry::new();
    assert_eq!(reg.activate_now("nope"), Err(VirtEnvError::NotFound(s("nope"))));
    let mut r = request("web", Language::Python);
    r.template = Some(s("python-basic"));
    r.project_path = Some(s("/w"));
    let e = create_environment_record(&r, s("/e/web")).unwrap();
    assert_eq!(e.version, "3.11");
    assert_eq!(e.template, Some(s("python-basic")));
    assert_eq!(e.project_path, Some(s("/w")));
    assert!(!e.created_at.is_empty());
    assert_eq!(e.health.last_check, e.created_at);
    let id = e.id.clone();
    reg.insert(e);
    assert_eq!(reg.activate_now(&id), Ok(()));
    assert!(reg.environments[0].is_active);
    assert!(reg.environments[0].last_used.is_some());
    assert_eq!(reg.active_env, Some(id));
}
