//! The forms of the dashboard: participants, image update, environment
//! variables and deletion. Each submission that succeeds asks the dashboard
//! to reload; each that fails keeps the error to show.

use vstd::prelude::*;
use crate::api_error::ApiError;
use crate::env::{parse_env, parse_env_text, env_text, EnvVars};
use crate::model::Source;
use crate::text::{concat, interpolate, replace_all};

verus! {

/// Fills the `{name}` slot of a confirmation text.
pub fn name_prompt(template: &str, name: &str) -> (r: String)
    ensures
        r@ == replace_all(template@, "{name}"@, name@),
{
    proof {
        reveal_strlit("{name}");
    }
    interpolate(template, "{name}", name)
}

/// Adding a participant by login.
pub struct ParticipantForm {
    pub input: String,
    pub loading: bool,
    pub error: Option<ApiError>,
}

impl ParticipantForm {
    pub fn new() -> (r: ParticipantForm)
        ensures
            r.input@.len() == 0,
            !r.loading,
            r.error is None,
    {
        ParticipantForm { input: String::new(), loading: false, error: None }
    }

    /// The login to add; nothing when the input is empty or a request is
    /// pending.
    pub fn submit(&mut self) -> (r: Option<String>)
        ensures
            old(self).loading || old(self).input@.len() == 0 ==> r is None && *final(self)
                == *old(self),
            !old(self).loading && old(self).input@.len() > 0 ==> r is Some && r->0@ == old(
                self,
            ).input@ && final(self).loading && final(self).error is None && final(self).input
                == old(self).input,
    {
        if self.loading || self.input.as_str().is_empty() {
            return None;
        }
        self.loading = true;
        self.error = None;
        Some(self.input.clone())
    }

    /// The request came back; returns whether to reload. Success clears the
    /// input.
    pub fn finish(&mut self, result: Result<(), ApiError>) -> (r: bool)
        ensures
            !final(self).loading,
            r == result is Ok,
            result is Ok ==> final(self).input@.len() == 0 && final(self).error is None,
            result matches Err(e) ==> final(self).error == Some(e) && final(self).input
                == old(self).input,
    {
        self.loading = false;
        match result {
            Ok(()) => {
                self.input = String::new();
                self.error = None;
                true
            },
            Err(e) => {
                self.error = Some(e);
                false
            },
        }
    }
}

/// The two flows behind the image form.
#[derive(PartialEq, Eq, Structural, Clone, Copy, Debug)]
pub enum UpdateMode {
    /// Rebuild from the repository the workload was created from.
    Rebuild,
    /// Deploy a new image given by URL.
    UpdateImage,
}

pub open spec fn mode_of(source: &Source) -> UpdateMode {
    match source {
        Source::Github { .. } => UpdateMode::Rebuild,
        Source::Direct { .. } => UpdateMode::UpdateImage,
    }
}

/// The flow that fits a workload's source.
pub fn update_mode(source: &Source) -> (r: UpdateMode)
    ensures
        r == mode_of(source),
{
    match source {
        Source::Github { .. } => UpdateMode::Rebuild,
        Source::Direct { .. } => UpdateMode::UpdateImage,
    }
}

/// Translation keys of the image form's texts.
pub struct UpdateTexts {
    pub title: String,
    pub description: String,
    pub button: String,
    pub button_loading: String,
    pub confirm: String,
}

/// The texts of the image form in a mode.
pub fn update_texts(mode: UpdateMode) -> (r: UpdateTexts)
    ensures
        mode == UpdateMode::Rebuild ==> r.title@ == "project_dashboard.card_title_rebuild"@
            && r.description@ == "project_dashboard.rebuild_description"@ && r.button@
            == "project_dashboard.rebuild_button"@ && r.button_loading@
            == "project_dashboard.rebuild_button_loading"@ && r.confirm@
            == "project_dashboard.confirm_rebuild"@,
        mode == UpdateMode::UpdateImage ==> r.title@ == "project_dashboard.card_title_update_image"@
            && r.description@ == "project_dashboard.update_image_description"@ && r.button@
            == "project_dashboard.update_image_button"@ && r.button_loading@
            == "project_dashboard.update_image_button_loading"@ && r.confirm@
            == "project_dashboard.confirm_update_image"@,
{
    match mode {
        UpdateMode::Rebuild => UpdateTexts {
            title: String::from_str("project_dashboard.card_title_rebuild"),
            description: String::from_str("project_dashboard.rebuild_description"),
            button: String::from_str("project_dashboard.rebuild_button"),
            button_loading: String::from_str("project_dashboard.rebuild_button_loading"),
            confirm: String::from_str("project_dashboard.confirm_rebuild"),
        },
        UpdateMode::UpdateImage => UpdateTexts {
            title: String::from_str("project_dashboard.card_title_update_image"),
            description: String::from_str("project_dashboard.update_image_description"),
            button: String::from_str("project_dashboard.update_image_button"),
            button_loading: String::from_str("project_dashboard.update_image_button_loading"),
            confirm: String::from_str("project_dashboard.confirm_update_image"),
        },
    }
}

/// A request of the image form.
pub enum ImageCall {
    Rebuild { project_id: i32 },
    UpdateImage { project_id: i32, image_url: String },
}

/// The image form: rebuilds from source, or deploys an image by URL.
pub struct ImageUpdateForm {
    pub project_id: i32,
    pub mode: UpdateMode,
    pub image_url: String,
    pub updating: bool,
    pub error: Option<ApiError>,
}

impl ImageUpdateForm {
    pub fn new(project_id: i32, source: &Source) -> (r: ImageUpdateForm)
        ensures
            r.project_id == project_id,
            r.mode == mode_of(source),
            r.image_url@.len() == 0,
            !r.updating,
            r.error is None,
    {
        ImageUpdateForm {
            project_id,
            mode: update_mode(source),
            image_url: String::new(),
            updating: false,
            error: None,
        }
    }

    /// The confirmed form is sent: the request to make, unless one is
    /// pending or, for an image update, the URL is empty.
    pub fn submit(&mut self) -> (r: Option<ImageCall>)
        ensures
            final(self).project_id == old(self).project_id,
            final(self).mode == old(self).mode,
            final(self).image_url == old(self).image_url,
            old(self).updating || (old(self).mode == UpdateMode::UpdateImage && old(
                self,
            ).image_url@.len() == 0) ==> r is None && *final(self) == *old(self),
            !old(self).updating && old(self).mode == UpdateMode::Rebuild ==> r == Some(
                ImageCall::Rebuild { project_id: old(self).project_id },
            ) && final(self).updating && final(self).error is None,
            !old(self).updating && old(self).mode == UpdateMode::UpdateImage && old(
                self,
            ).image_url@.len() > 0 ==> (r matches Some(ImageCall::UpdateImage { project_id, image_url })
                && project_id == old(self).project_id && image_url@ == old(self).image_url@)
                && final(self).updating && final(self).error is None,
    {
        if self.updating {
            return None;
        }
        match self.mode {
            UpdateMode::Rebuild => {
                self.updating = true;
                self.error = None;
                Some(ImageCall::Rebuild { project_id: self.project_id })
            },
            UpdateMode::UpdateImage => {
                if self.image_url.as_str().is_empty() {
                    return None;
                }
                self.updating = true;
                self.error = None;
                Some(ImageCall::UpdateImage { project_id: self.project_id, image_url: self.image_url.clone() })
            },
        }
    }

    /// The request came back; returns whether to reload. Success clears the
    /// URL.
    pub fn finish(&mut self, result: Result<(), ApiError>) -> (r: bool)
        ensures
            final(self).project_id == old(self).project_id,
            final(self).mode == old(self).mode,
            !final(self).updating,
            r == result is Ok,
            result is Ok ==> final(self).image_url@.len() == 0 && final(self).error is None,
            result matches Err(e) ==> final(self).error == Some(e) && final(self).image_url
                == old(self).image_url,
    {
        self.updating = false;
        match result {
            Ok(()) => {
                self.image_url = String::new();
                self.error = None;
                true
            },
            Err(e) => {
                self.error = Some(e);
                false
            },
        }
    }
}

/// The environment-variable editor: a text buffer seeded from the current
/// variables, read into a map on save.
pub struct EnvEditor {
    pub buffer: String,
    pub loading: bool,
    pub error: Option<ApiError>,
    /// The last save succeeded and the buffer is unchanged since.
    pub success: bool,
}

impl EnvEditor {
    /// An editor seeded with the current variables, one `KEY=VALUE` per line.
    pub fn new(current: Option<&EnvVars>) -> (r: EnvEditor)
        ensures
            match current {
                Some(vars) => r.buffer@ == env_text(vars.pairs()),
                None => r.buffer@.len() == 0,
            },
            !r.loading,
            r.error is None,
            !r.success,
    {
        let buffer = match current {
            Some(vars) => vars.to_text(),
            None => String::new(),
        };
        EnvEditor { buffer, loading: false, error: None, success: false }
    }

    /// The buffer is edited; the success note goes away.
    pub fn edit(&mut self, text: String)
        ensures
            final(self).buffer == text,
            !final(self).success,
            final(self).loading == old(self).loading,
            final(self).error == old(self).error,
    {
        self.buffer = text;
        self.success = false;
    }

    /// Save: the variables to send, unless a save is pending.
    pub fn submit(&mut self) -> (r: Option<EnvVars>)
        ensures
            final(self).buffer == old(self).buffer,
            old(self).loading ==> r is None && *final(self) == *old(self),
            !old(self).loading ==> r is Some && r->0.wf() && r->0@ == parse_env(old(self).buffer@)
                && final(self).loading && final(self).error is None && !final(self).success,
    {
        if self.loading {
            return None;
        }
        self.loading = true;
        self.error = None;
        self.success = false;
        Some(parse_env_text(self.buffer.as_str()))
    }

    /// The save came back; returns whether to reload.
    pub fn finish(&mut self, result: Result<(), ApiError>) -> (r: bool)
        ensures
            final(self).buffer == old(self).buffer,
            !final(self).loading,
            r == result is Ok,
            result is Ok ==> final(self).success && final(self).error is None,
            result matches Err(e) ==> final(self).error == Some(e) && !final(self).success,
    {
        self.loading = false;
        match result {
            Ok(()) => {
                self.success = true;
                self.error = None;
                true
            },
            Err(e) => {
                self.error = Some(e);
                self.success = false;
                false
            },
        }
    }
}

/// The confirmation text for deleting a workload: the template with the
/// name filled in, and the database warning after a blank line when a
/// database is linked.
pub fn delete_prompt(template: &str, name: &str, has_linked_database: bool, warning: &str) -> (r: String)
    ensures
        r@ == replace_all(template@, "{name}"@, name@) + if has_linked_database {
            "\n\n"@ + warning@
        } else {
            Seq::empty()
        },
{
    let base = name_prompt(template, name);
    if has_linked_database {
        let tail = concat("\n\n", warning);
        concat(base.as_str(), tail.as_str())
    } else {
        assert(base@ + Seq::<char>::empty() =~= base@);
        base
    }
}

/// What follows the deletion request.
#[derive(PartialEq, Eq, Structural, Clone, Copy, Debug)]
pub enum DeleteOutcome {
    /// Leave for the home view.
    NavigateHome,
    /// Stay and show the deletion error.
    ShowError,
}

pub fn after_delete(ok: bool) -> (r: DeleteOutcome)
    ensures
        ok ==> r == DeleteOutcome::NavigateHome,
        !ok ==> r == DeleteOutcome::ShowError,
{
    if ok {
        DeleteOutcome::NavigateHome
    } else {
        DeleteOutcome::ShowError
    }
}

/// Translation key of the deletion error.
pub fn delete_failed_key() -> (r: String)
    ensures
        r@ == "errors.DELETE_FAILED"@,
{
    String::from_str("errors.DELETE_FAILED")
}

} // verus!
