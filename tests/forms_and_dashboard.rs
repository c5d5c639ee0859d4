use hangar_dashboard::access::User;
use hangar_dashboard::api_error::{
    default_error_key, error_key, is_translation_missing, remedy_for, translation_or, ApiError,
    Remedy,
};
use hangar_dashboard::dashboard::{
    app_url, created_date, error_prompt, participants_line, Dashboard, DashboardView, FetchCall,
};
use hangar_dashboard::database::DatabaseCard;
use hangar_dashboard::forms::{
    after_delete, delete_failed_key, delete_prompt, name_prompt, update_mode, update_texts,
    DeleteOutcome, ImageCall, ImageUpdateForm, ParticipantForm, UpdateMode,
};
use hangar_dashboard::model::{DatabaseDetails, Project, ProjectDetails, Source};
use hangar_dashboard::text::interpolate;

fn github() -> Source {
    Source::Github { url: "https://github.com/a/b".to_string(), branch: None, root_dir: None }
}

fn details(database: Option<DatabaseDetails>) -> ProjectDetails {
    ProjectDetails {
        project: Project {
            id: 42,
            name: "demo".to_string(),
            owner: "alice".to_string(),
            source: github(),
            deployed_image_tag: "ghcr.io/a/b:1".to_string(),
            persistent_volume_path: None,
            env_vars: None,
            created_at: "2025-10-01T08:00:00Z".to_string(),
        },
        participants: vec!["bob".to_string()],
        database,
    }
}

fn api_err(code: &str) -> ApiError {
    ApiError { error_code: code.to_string(), details: None }
}

#[test]
fn participant_form_validates_and_clears() {
    let mut f = ParticipantForm::new();
    assert_eq!(f.submit(), None);
    f.input = "carol".to_string();
    assert_eq!(f.submit().as_deref(), Some("carol"));
    assert!(f.loading);
    assert_eq!(f.submit(), None);
    assert!(f.finish(Ok(())));
    assert_eq!(f.input, "");
    f.input = "alice".to_string();
    f.submit();
    assert!(!f.finish(Err(api_err("OWNER_CANNOT_BE_PARTICIPANT"))));
    assert_eq!(f.input, "alice");
    assert_eq!(f.error.as_ref().map(|e| e.error_code.as_str()), Some("OWNER_CANNOT_BE_PARTICIPANT"));
}

#[test]
fn confirmation_texts_name_the_target() {
    assert_eq!(name_prompt("Remove {name} from {name}?", "bob"), "Remove bob from bob?");
    assert_eq!(name_prompt("No slot", "bob"), "No slot");
    assert_eq!(
        delete_prompt("Delete {name}?", "demo", true, "The database goes too."),
        "Delete demo?\n\nThe database goes too."
    );
    assert_eq!(delete_prompt("Delete {name}?", "demo", false, "unused"), "Delete demo?");
    assert_eq!(interpolate("{a}{a}{", "{a}", "x"), "xx{");
}

#[test]
fn deletion_outcomes() {
    assert_eq!(after_delete(true), DeleteOutcome::NavigateHome);
    assert_eq!(after_delete(false), DeleteOutcome::ShowError);
    assert_eq!(delete_failed_key(), "errors.DELETE_FAILED");
}

#[test]
fn image_form_follows_source() {
    assert_eq!(update_mode(&github()), UpdateMode::Rebuild);
    let direct = Source::Direct { image_url: "nginx:1".to_string() };
    assert_eq!(update_mode(&direct), UpdateMode::UpdateImage);
    assert_eq!(update_texts(UpdateMode::Rebuild).confirm, "project_dashboard.confirm_rebuild");
    assert_eq!(
        update_texts(UpdateMode::UpdateImage).button,
        "project_dashboard.update_image_button"
    );

    let mut f = ImageUpdateForm::new(42, &github());
    assert!(matches!(f.submit(), Some(ImageCall::Rebuild { project_id: 42 })));
    assert!(f.updating);
    assert!(f.submit().is_none());
    assert!(f.finish(Ok(())));

    let mut g = ImageUpdateForm::new(7, &direct);
    assert!(g.submit().is_none());
    g.image_url = "nginx:2".to_string();
    match g.submit() {
        Some(ImageCall::UpdateImage { project_id, image_url }) => {
            assert_eq!(project_id, 7);
            assert_eq!(image_url, "nginx:2");
        }
        _ => panic!("expected an image update"),
    }
    assert!(!g.finish(Err(api_err("INVALID_IMAGE_URL"))));
    assert_eq!(g.image_url, "nginx:2");
    assert!(!g.updating);
}

#[test]
fn error_messages_fall_back_to_default() {
    assert_eq!(error_key("NOT_FOUND"), "errors.NOT_FOUND");
    assert_eq!(default_error_key(), "errors.DEFAULT");
    let missing = "Key 'errors.X' not found for language 'en'".to_string();
    assert!(is_translation_missing(&missing));
    assert!(!is_translation_missing("Key 'x' is fine"));
    assert!(!is_translation_missing("Not found"));
    assert_eq!(translation_or(missing, "Unexpected".to_string()), "Unexpected");
    assert_eq!(translation_or("Gone".to_string(), "Unexpected".to_string()), "Gone");
}

#[test]
fn remedies_by_code() {
    assert_eq!(remedy_for(&api_err("GITHUB_ACCOUNT_NOT_LINKED")), Remedy::InstallIntegration);
    assert_eq!(remedy_for(&api_err("GITHUB_REPO_NOT_ACCESSIBLE")), Remedy::ManageInstallations);
    let scan = ApiError {
        error_code: "IMAGE_SCAN_FAILED".to_string(),
        details: Some("CVE-1 high".to_string()),
    };
    assert_eq!(remedy_for(&scan), Remedy::ScanReport("CVE-1 high".to_string()));
    assert_eq!(remedy_for(&api_err("IMAGE_SCAN_FAILED")), Remedy::Message);
    assert_eq!(remedy_for(&api_err("UNAUTHORIZED")), Remedy::Message);
}

#[test]
fn dashboard_loads_then_shows_sections() {
    let (mut d, calls) = Dashboard::new(42);
    assert_eq!(calls, vec![FetchCall::Details { project_id: 42 }, FetchCall::PersonalDatabase]);
    let alice = User { login: "alice".to_string(), is_admin: false };
    assert_eq!(d.view(Some(&alice)), DashboardView::Loading);
    d.details_loaded(Ok(details(None)));
    assert_eq!(d.view(Some(&alice)), DashboardView::Loading);
    d.personal_database_loaded(Err(api_err("NOT_FOUND")));
    match d.view(Some(&alice)) {
        DashboardView::Ready(s) => {
            assert!(s.access.strong && s.access.weak);
            assert!(s.controls && s.participants && s.env_and_image && s.danger_zone);
            assert_eq!(s.database_card, DatabaseCard::CreateAndLink);
        }
        v => panic!("unexpected view {:?}", v),
    }
    let bob = User { login: "bob".to_string(), is_admin: false };
    match d.view(Some(&bob)) {
        DashboardView::Ready(s) => {
            assert!(!s.access.strong && s.access.weak);
            assert!(s.controls && s.env_and_image);
            assert!(!s.participants && !s.danger_zone);
            assert_eq!(s.database_card, DatabaseCard::NoneLinked);
        }
        v => panic!("unexpected view {:?}", v),
    }
    let carol = User { login: "carol".to_string(), is_admin: false };
    match d.view(Some(&carol)) {
        DashboardView::Ready(s) => assert!(!s.controls && !s.env_and_image && !s.danger_zone),
        v => panic!("unexpected view {:?}", v),
    }
}

#[test]
fn reload_refetches_both_records() {
    let (mut d, _) = Dashboard::new(5);
    let before = d.reload;
    let calls = d.request_reload();
    assert_eq!(d.reload, before + 1);
    assert_eq!(calls, vec![FetchCall::Details { project_id: 5 }, FetchCall::PersonalDatabase]);
}

#[test]
fn details_failure_fails_the_whole_view() {
    let (mut d, _) = Dashboard::new(5);
    d.personal_database_loaded(Err(api_err("NOT_FOUND")));
    d.details_loaded(Err("HTTP 403".to_string()));
    assert_eq!(d.view(None), DashboardView::Failed);
    assert_eq!(error_prompt("Could not load: {error}", "HTTP 403"), "Could not load: HTTP 403");
}

#[test]
fn project_info_helpers() {
    assert_eq!(created_date("2025-10-01T08:00:00Z"), "2025-10-01");
    assert_eq!(created_date("no-time"), "no-time");
    assert_eq!(participants_line(&vec!["bob".to_string(), "eve".to_string()]), "bob, eve");
    assert_eq!(participants_line(&vec![]), "");
    assert_eq!(app_url("demo"), "https://demo.hangar.garageisep.com");
}
