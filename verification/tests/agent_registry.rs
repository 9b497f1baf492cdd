use acp_agent_cli::registry::{
    agents_dir, env_is_ordered, archive_kind, archive_kind_of, cmd_installed, cmd_list, cmd_search, cmd_show, command_path, current_platform_key,
    default_registry_config, find_target, has_update_targets, health_probe_paths, install_result, installed_agent_dir,
    insert_by_key, installed_files, installed_record, matches_lowered, npx_wrapper_script, plan_install, record_installation, record_update,
    registry_cache_dir, registry_url_with_override, resolve_agent_args, select_distribution, sort_installed_by_id,
    str_le, uninstall_paths, uninstall_result, update_candidates, update_entry, update_result, AgentEntry,
    ArchiveKind, Distribution, DistributionChoice, EnvVar, InstalledAgent, NpxDistribution, PlatformBinary,
    PlatformTarget, RegistryConfig, RegistryError,
};

fn npx(package: &str, args: &[&str], env: &[(&str, &str)]) -> NpxDistribution {
    NpxDistribution {
        package: package.to_string(),
        args: args.iter().map(|s| s.to_string()).collect(),
        env: env.iter().map(|(k, v)| EnvVar { key: k.to_string(), value: v.to_string() }).collect(),
    }
}

fn target(platform: &str, archive: &str, cmd: &str, args: &[&str]) -> PlatformTarget {
    PlatformTarget {
        platform: platform.to_string(),
        binary: PlatformBinary {
            archive: archive.to_string(),
            cmd: cmd.to_string(),
            args: args.iter().map(|s| s.to_string()).collect(),
        },
    }
}

fn entry(id: &str, name: &str, description: &str, npx: Option<NpxDistribution>, binary: Option<Vec<PlatformTarget>>) -> AgentEntry {
    AgentEntry {
        id: id.to_string(),
        name: name.to_string(),
        version: "2.0.0".to_string(),
        description: description.to_string(),
        repository: None,
        authors: Vec::new(),
        license: None,
        icon: None,
        distribution: Distribution { npx, binary },
    }
}

fn index() -> Vec<AgentEntry> {
    vec![
        entry("zed", "zeta", "Fast editor agent", Some(npx("@zed/agent", &["--acp"], &[])), None),
        entry("codex", "Codex", "OpenAI coding agent", None, Some(vec![target("linux-x86_64", "https://x/codex.tar.gz", "./codex", &["acp"])])),
        entry("alpha", "alpha", "Helper", None, None),
    ]
}

fn installed(id: &str, version: &str, exe: Option<&str>) -> InstalledAgent {
    InstalledAgent {
        id: id.to_string(),
        name: id.to_string(),
        version: version.to_string(),
        install_path: format!("/data/agents/{id}"),
        executable: exe.map(|s| s.to_string()),
        args: Vec::new(),
        distribution_type: None,
        installed_at: String::new(),
        source_registry: None,
        healthy: None,
    }
}

#[test]
fn registry_paths_and_urls() {
    assert_eq!(agents_dir("/data"), "/data/agents");
    assert_eq!(registry_cache_dir("/cache/"), "/cache/registry");
    assert_eq!(installed_agent_dir("/data", "codex"), "/data/agents/codex");
    assert_eq!(
        default_registry_config().url,
        "https://cdn.agentclientprotocol.com/registry/v1/latest/registry.json"
    );
    let config = RegistryConfig { url: "https://r.example/index.json//".to_string() };
    assert_eq!(registry_url_with_override(&config, None), "https://r.example/index.json");
    assert_eq!(registry_url_with_override(&config, Some("http://local/")), "http://local");
    assert_eq!(current_platform_key("macos", "aarch64"), "darwin-aarch64");
    assert_eq!(current_platform_key("linux", "x86_64"), "linux-x86_64");
    assert_eq!(current_platform_key("freebsd", "riscv64"), "unknown-unknown");
}

#[test]
fn search_matches_name_description_or_id_and_pages() {
    let r = cmd_search(index(), "AGENT", &[], None, false, 1, 20);
    assert_eq!(r.total, 2);
    assert_eq!(r.matches[0].id, "zed");
    assert_eq!(r.matches[1].id, "codex");
    let r = cmd_search(index(), "agent", &[], None, false, 2, 1);
    assert_eq!(r.total, 2);
    assert_eq!(r.matches.len(), 1);
    assert_eq!(r.matches[0].id, "codex");
    let r = cmd_search(index(), "", &[], None, false, 0, 0);
    assert_eq!(r.total, 3);
    assert_eq!(r.matches.len(), 1);
    assert_eq!(r.query, "");
    let r = cmd_search(index(), "agent", &[], None, false, 9, 5);
    assert!(r.matches.is_empty());
}

#[test]
fn show_finds_an_agent_or_refuses() {
    assert_eq!(cmd_show(index(), "codex", Some("1.0")).ok().unwrap().name, "Codex");
    let e = cmd_show(index(), "nope", None).err().unwrap();
    assert_eq!(e.message(), "agent 'nope' not found in registry");
}

#[test]
fn list_orders_by_name_ignoring_case() {
    let names: Vec<String> = cmd_list(index(), &[], None, false).into_iter().map(|a| a.name).collect();
    assert_eq!(names, vec!["alpha", "Codex", "zeta"]);
    assert!(str_le("abc", "abd"));
    assert!(str_le("ab", "abc"));
    assert!(!str_le("b", "a"));
}

#[test]
fn scanned_agents_are_ordered_by_id() {
    let sorted = sort_installed_by_id(vec![installed("b", "1", None), installed("a", "1", None), installed("c", "1", None)]);
    let ids: Vec<&str> = sorted.iter().map(|a| a.id.as_str()).collect();
    assert_eq!(ids, vec!["a", "b", "c"]);
}

#[test]
fn distribution_prefers_this_platforms_binary() {
    let idx = index();
    assert!(matches!(select_distribution(&idx[1], "linux-x86_64"), Ok(DistributionChoice::Binary(b)) if b.cmd == "./codex"));
    assert!(matches!(select_distribution(&idx[1], "darwin-aarch64"),
        Err(RegistryError::NoPlatformBinary(p)) if p == "darwin-aarch64"));
    assert!(matches!(select_distribution(&idx[0], "linux-x86_64"), Ok(DistributionChoice::Npx(n)) if n.package == "@zed/agent"));
    assert!(matches!(select_distribution(&idx[2], "linux-x86_64"), Err(RegistryError::NoDistribution(id)) if id == "alpha"));
    assert!(find_target(idx[1].distribution.binary.as_ref().unwrap(), "linux-x86_64").is_some());
    assert_eq!(RegistryError::NoPlatformBinary("p".to_string()).message(),
        "no binary distribution available for platform 'p' and no npx fallback");
    assert_eq!(RegistryError::NoDistribution("a".to_string()).message(), "agent 'a' has no distribution information");
    assert_eq!(RegistryError::AlreadyInstalled("a".to_string(), "/d".to_string()).message(), "agent 'a' is already installed at /d");
    assert_eq!(RegistryError::NotInstalled("a".to_string()).message(), "agent 'a' is not installed");
}

#[test]
fn archives_are_recognised_by_extension() {
    assert!(matches!(archive_kind("https://x/A.TAR.GZ"), Ok(ArchiveKind::TarGz)));
    assert!(matches!(archive_kind("https://x/a.tgz"), Ok(ArchiveKind::TarGz)));
    assert!(matches!(archive_kind("https://x/a.zip"), Ok(ArchiveKind::Zip)));
    let e = archive_kind("https://x/a.rar").err().unwrap();
    assert_eq!(e.message(), "unsupported archive format: https://x/a.rar");
}

#[test]
fn npx_wrappers_export_env_and_pass_args() {
    let d = npx("@scope/pkg", &["--acp", "-v"], &[("A", "1"), ("B", "two")]);
    assert_eq!(npx_wrapper_script(&d, false), "#!/bin/sh\nexport A=\"1\"\nexport B=\"two\"\nexec npx @scope/pkg --acp -v\n");
    assert_eq!(npx_wrapper_script(&d, true), "set A=1\nset B=two\nnpx @scope/pkg --acp -v\n");
    let choice = DistributionChoice::Npx(&d);
    let files = installed_files(&choice, false);
    assert_eq!(files.distribution_type, "npx");
    assert_eq!(files.executable.as_deref(), Some("run"));
    assert_eq!(files.args, vec!["--acp", "-v"]);
    assert_eq!(installed_files(&choice, true).executable.as_deref(), Some("run.bat"));
}

#[test]
fn installing_records_what_was_installed() {
    let plan = plan_install(index(), "/data", "codex").ok().unwrap();
    assert_eq!(plan.target_dir, "/data/agents/codex");
    assert!(matches!(plan_install(index(), "/data", "nope"), Err(RegistryError::NotInRegistry(id)) if id == "nope"));
    let idx = index();
    let files = installed_files(&select_distribution(&idx[1], "linux-x86_64").ok().unwrap(), false);
    assert_eq!(files.executable.as_deref(), Some("./codex"));
    assert_eq!(command_path(&plan.target_dir, "././codex"), "/data/agents/codex/codex");
    let record = installed_record("codex", &idx[1], None, &plan.target_dir, files, "2024".to_string(), "https://r");
    assert_eq!(record.version, "2.0.0");
    assert_eq!(record.distribution_type.as_deref(), Some("binary"));
    assert_eq!(record.args, vec!["acp"]);
    let result = install_result(&record);
    assert_eq!(result.status, "installed");
    assert_eq!(result.install_path, "/data/agents/codex");
    let files = installed_files(&select_distribution(&idx[0], "linux-x86_64").ok().unwrap(), false);
    let now = record_installation("zed", &idx[0], Some("9.9.9"), "/data/agents/zed", files, "https://r");
    assert_eq!(now.version, "9.9.9");
    assert!(!now.installed_at.is_empty());
}

#[test]
fn uninstalling_removes_the_install_directory() {
    let (target, config) = uninstall_paths("/data", "/config", "codex");
    assert_eq!(target, installed_agent_dir("/data", "codex"));
    assert_eq!(config, "/config/agents/codex");
    let r = uninstall_result("codex", &target);
    assert_eq!(r.status, "removed");
    assert_eq!(r.removed_path, "/data/agents/codex");
}

#[test]
fn health_is_probed_only_when_asked() {
    let agents = vec![installed("a", "1", Some("bin/a")), installed("b", "1", None)];
    let probes = health_probe_paths(&agents);
    assert_eq!(probes[0].as_deref(), Some("/data/agents/a/bin/a"));
    assert_eq!(probes[1], None);
    let r = cmd_installed(agents, true, false, &vec![false, true]);
    assert_eq!(r.total, 2);
    assert_eq!(r.agents[0].healthy, Some(false));
    assert_eq!(r.agents[1].healthy, None);
    let r = cmd_installed(vec![installed("a", "1", Some("x"))], false, true, &vec![true]);
    assert_eq!(r.agents[0].healthy, None);
}

#[test]
fn updates_concern_targets_with_a_different_version() {
    let installed_agents = vec![installed("codex", "1.0.0", Some("codex")), installed("zed", "2.0.0", Some("run")), installed("gone", "1", None)];
    assert!(has_update_targets(&installed_agents, None));
    assert!(has_update_targets(&installed_agents, Some("zed")));
    assert!(!has_update_targets(&installed_agents, Some("nope")));
    let idx = index();
    let c = update_candidates(&installed_agents, None, &idx, None);
    assert_eq!(c.len(), 1);
    assert_eq!(c[0].installed, 0);
    assert_eq!(c[0].remote, 1);
    assert_eq!(c[0].new_version, "2.0.0");
    let c = update_candidates(&installed_agents, Some("zed"), &idx, Some("3.0.0"));
    assert_eq!(c.len(), 1);
    assert_eq!(c[0].new_version, "3.0.0");
    let e = update_entry(&installed_agents[0], "2.0.0", true);
    assert_eq!(e.status, "update_available");
    assert_eq!(e.previous_version, "1.0.0");
    assert_eq!(update_entry(&installed_agents[0], "2.0.0", false).status, "updated");
    assert_eq!(update_result(None, Vec::new(), true).status, "no_updates_available");
    assert_eq!(update_result(Some("codex"), vec![e], true).status, "updates_available");
    let files = installed_files(&select_distribution(&idx[1], "linux-x86_64").ok().unwrap(), false);
    let updated = record_update(&installed_agents[0], "2.0.0", files, "https://r");
    assert_eq!(updated.version, "2.0.0");
    assert_eq!(updated.install_path, "/data/agents/codex");
    assert_eq!(updated.source_registry.as_deref(), Some("https://r"));
}

#[test]
fn launch_arguments_fall_back_to_the_registry() {
    let mut with_args = installed("codex", "1", Some("codex"));
    with_args.args = vec!["--stdio".to_string()];
    let idx = index();
    assert_eq!(resolve_agent_args("codex", &vec![with_args], Some(&idx), "linux-x86_64"), vec!["--stdio"]);
    assert_eq!(resolve_agent_args("codex", &Vec::new(), Some(&idx), "linux-x86_64"), vec!["acp"]);
    assert_eq!(resolve_agent_args("zed", &Vec::new(), Some(&idx), "linux-x86_64"), vec!["--acp"]);
    assert!(resolve_agent_args("codex", &Vec::new(), None, "linux-x86_64").is_empty());
}

#[test]
fn lowered_forms_decide_matches_and_archive_kinds() {
    assert!(matches_lowered("goose", "an agent", "g-1", "oos"));
    assert!(matches_lowered("goose", "an agent", "g-1", "g-"));
    assert!(!matches_lowered("goose", "an agent", "g-1", "GOOSE"));
    assert!(matches_lowered("goose", "an agent", "g-1", ""));
    assert!(matches!(archive_kind_of("https://x/A.TGZ", "https://x/a.tgz"), Ok(ArchiveKind::TarGz)));
    assert!(matches!(archive_kind_of("https://x/A.ZIP", "https://x/a.zip"), Ok(ArchiveKind::Zip)));
    match archive_kind_of("https://x/A.ZIP", "https://x/A.ZIP") {
        Err(RegistryError::UnsupportedArchive(u)) => assert_eq!(u, "https://x/A.ZIP"),
        _ => panic!("an upper-case ending is not lower-cased here"),
    }
}

#[test]
fn agents_are_inserted_after_equal_keys() {
    let mut out: Vec<AgentEntry> = Vec::new();
    let mut keys: Vec<String> = Vec::new();
    insert_by_key(&mut out, &mut keys, entry("b", "B", "", None, None), "b".to_string());
    insert_by_key(&mut out, &mut keys, entry("a", "A", "", None, None), "a".to_string());
    insert_by_key(&mut out, &mut keys, entry("b2", "b", "", None, None), "b".to_string());
    insert_by_key(&mut out, &mut keys, entry("c", "C", "", None, None), "c".to_string());
    let ids: Vec<&str> = out.iter().map(|a| a.id.as_str()).collect();
    assert_eq!(ids, vec!["a", "b", "b2", "c"]);
    assert_eq!(keys, vec!["a", "b", "b", "c"]);
}

#[test]
fn npx_environments_must_be_ordered_by_key() {
    assert!(env_is_ordered(&npx("p", &[], &[("A", "1"), ("B", "2"), ("b", "3")]).env));
    assert!(env_is_ordered(&npx("p", &[], &[]).env));
    assert!(!env_is_ordered(&npx("p", &[], &[("B", "1"), ("A", "2")]).env));
    assert!(!env_is_ordered(&npx("p", &[], &[("A", "1"), ("A", "2")]).env));
    assert!(!env_is_ordered(&npx("p", &[], &[("A", "1"), ("C", "2"), ("B", "3")]).env));
}
