use hangar_dashboard::deploy::{
    build_request, optional_trimmed, parse_participants, DeployForm, DeployMethod, DeployRequest,
};

fn form(method: DeployMethod) -> DeployForm {
    DeployForm {
        method,
        project_name: "demo".to_string(),
        participants: " bob, ,eve,bob ".to_string(),
        github_repo_url: "https://github.com/a/b".to_string(),
        github_branch: "  main ".to_string(),
        github_root_dir: "   ".to_string(),
        image_url: "nginx:1".to_string(),
        env_vars: "A=1\nB=2".to_string(),
        volume_path: " /data ".to_string(),
        create_database: true,
    }
}

#[test]
fn participants_are_trimmed_and_deduplicated() {
    assert_eq!(parse_participants(" bob, ,eve,bob "), vec!["bob".to_string(), "eve".to_string()]);
    assert!(parse_participants("").is_empty());
    assert!(parse_participants(" , ,").is_empty());
}

#[test]
fn blank_fields_are_absent() {
    assert_eq!(optional_trimmed(&"  x ".to_string()).as_deref(), Some("x"));
    assert_eq!(optional_trimmed(&"   ".to_string()), None);
}

#[test]
fn github_request() {
    let owner = "alice".to_string();
    match build_request(&form(DeployMethod::GitHub), Some(&owner)) {
        Ok(DeployRequest::Deploy(p)) => {
            assert_eq!(p.project_name, "demo");
            assert_eq!(p.participants, vec!["bob".to_string(), "eve".to_string()]);
            assert_eq!(p.env_vars.as_ref().map(|v| v.entries().len()), Some(2));
            assert_eq!(p.persistent_volume_path.as_deref(), Some("/data"));
            assert_eq!(p.create_database, Some(true));
            assert_eq!(p.github_repo_url.as_deref(), Some("https://github.com/a/b"));
            assert_eq!(p.github_branch.as_deref(), Some("main"));
            assert_eq!(p.github_root_dir, None);
            assert_eq!(p.image_url, None);
        }
        _ => panic!("expected a deployment"),
    }
}

#[test]
fn direct_request_without_env() {
    let mut f = form(DeployMethod::Direct);
    f.env_vars = "junk".to_string();
    f.create_database = false;
    match build_request(&f, None) {
        Ok(DeployRequest::Deploy(p)) => {
            assert!(p.env_vars.is_none());
            assert_eq!(p.create_database, None);
            assert_eq!(p.image_url.as_deref(), Some("nginx:1"));
            assert_eq!(p.github_repo_url, None);
        }
        _ => panic!("expected a deployment"),
    }
}

#[test]
fn owner_cannot_be_participant() {
    let bob = "bob".to_string();
    match build_request(&form(DeployMethod::GitHub), Some(&bob)) {
        Err(e) => assert_eq!(e.error_code, "OWNER_CANNOT_BE_PARTICIPANT"),
        _ => panic!("expected a refusal"),
    }
}

#[test]
fn database_request() {
    assert!(matches!(
        build_request(&form(DeployMethod::Database), None),
        Ok(DeployRequest::CreateDatabase)
    ));
}
