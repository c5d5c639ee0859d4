//! The request that the creation form sends: a new database, or a workload
//! deployed from a repository or from an image.

use vstd::prelude::*;
use crate::api_error::{owner_cannot_be_participant, ApiError};
use crate::env::{parse_env, parse_env_text, EnvVars};
use crate::text::{
    chars_of, pieces, ranges_within, split_on, split_ranges, string_from, trim, trim_range,
};

verus! {

#[derive(PartialEq, Eq, Structural, Clone, Copy, Debug)]
pub enum DeployMethod {
    GitHub,
    Direct,
    Database,
}

/// The creation form as the user filled it in.
pub struct DeployForm {
    pub method: DeployMethod,
    pub project_name: String,
    /// Comma-separated logins.
    pub participants: String,
    pub github_repo_url: String,
    pub github_branch: String,
    pub github_root_dir: String,
    pub image_url: String,
    /// `KEY=VALUE` lines.
    pub env_vars: String,
    pub volume_path: String,
    pub create_database: bool,
}

pub struct DeployPayload {
    pub project_name: String,
    pub participants: Vec<String>,
    pub env_vars: Option<EnvVars>,
    pub persistent_volume_path: Option<String>,
    pub create_database: Option<bool>,
    pub github_repo_url: Option<String>,
    pub github_branch: Option<String>,
    pub github_root_dir: Option<String>,
    pub image_url: Option<String>,
}

pub enum DeployRequest {
    CreateDatabase,
    Deploy(DeployPayload),
}

/// `s` without repeated items, each kept where it first occurs.
pub open spec fn dedup(s: Seq<Seq<char>>) -> Seq<Seq<char>>
    decreases s.len(),
{
    if s.len() == 0 {
        s
    } else {
        let d = dedup(s.drop_last());
        if d.contains(s.last()) {
            d
        } else {
            d.push(s.last())
        }
    }
}

/// The non-blank trimmed pieces of `s` between commas.
pub open spec fn trimmed_pieces(s: Seq<Seq<char>>) -> Seq<Seq<char>>
    decreases s.len(),
{
    if s.len() == 0 {
        s
    } else {
        let t = trim(s.last());
        if t.len() == 0 {
            trimmed_pieces(s.drop_last())
        } else {
            trimmed_pieces(s.drop_last()).push(t)
        }
    }
}

/// The logins named in a comma-separated list, each once.
pub open spec fn participant_list(text: Seq<char>) -> Seq<Seq<char>> {
    dedup(trimmed_pieces(split_on(text, ',')))
}

/// A trimmed field, absent when blank.
pub open spec fn optional_field(s: Seq<char>) -> Option<Seq<char>> {
    if trim(s).len() == 0 {
        None
    } else {
        Some(trim(s))
    }
}

pub open spec fn view_opt(o: Option<String>) -> Option<Seq<char>> {
    match o {
        Some(s) => Some(s@),
        None => None,
    }
}

pub open spec fn names(v: Seq<String>) -> Seq<Seq<char>> {
    v.map_values(|s: String| s@)
}

/// The request for a form, as the fields and the signed-in login decide it.
pub open spec fn payload_matches(p: DeployPayload, form: &DeployForm) -> bool {
    &&& p.project_name@ == form.project_name@
    &&& names(p.participants@) == participant_list(form.participants@)
    &&& match p.env_vars {
        Some(vars) => vars.wf() && vars@ == parse_env(form.env_vars@) && vars@ != Map::<
            Seq<char>,
            Seq<char>,
        >::empty(),
        None => parse_env(form.env_vars@) == Map::<Seq<char>, Seq<char>>::empty(),
    }
    &&& view_opt(p.persistent_volume_path) == optional_field(form.volume_path@)
    &&& p.create_database == if form.create_database {
        Some(true)
    } else {
        None
    }
    &&& form.method == DeployMethod::GitHub ==> {
        &&& view_opt(p.github_repo_url) == Some(form.github_repo_url@)
        &&& view_opt(p.github_branch) == optional_field(form.github_branch@)
        &&& view_opt(p.github_root_dir) == optional_field(form.github_root_dir@)
        &&& p.image_url is None
    }
    &&& form.method == DeployMethod::Direct ==> {
        &&& view_opt(p.image_url) == Some(form.image_url@)
        &&& p.github_repo_url is None
        &&& p.github_branch is None
        &&& p.github_root_dir is None
    }
}

/// The logins of a comma-separated list: trimmed, blanks dropped, each kept
/// once where it first occurs.
pub fn parse_participants(text: &str) -> (r: Vec<String>)
    ensures
        names(r@) == participant_list(text@),
{
    let v = chars_of(text);
    let ranges = split_ranges(&v, ',');
    let ghost ps = split_on(text@, ',');
    let mut out: Vec<String> = Vec::new();
    let mut k: usize = 0;
    while k < ranges.len()
        invariant
            k <= ranges.len(),
            v@ == text@,
            ps == split_on(text@, ','),
            ranges_within(ranges@, v.len() as int),
            pieces(v@, ranges@) == ps,
            names(out@) == dedup(trimmed_pieces(ps.take(k as int))),
        decreases ranges.len() - k,
    {
        let (a, b) = ranges[k];
        assert(ranges@[k as int].0 <= ranges@[k as int].1 <= v.len());
        assert(pieces(v@, ranges@)[k as int] == v@.subrange(a as int, b as int));
        assert(ps.take(k + 1).drop_last() =~= ps.take(k as int));
        assert(ps.take(k + 1).last() == ps[k as int]);
        let (s, e) = trim_range(&v, a, b);
        let ghost tp = trimmed_pieces(ps.take(k as int));
        let ghost t = trim(ps[k as int]);
        assert(t == v@.subrange(s as int, e as int));
        if s < e {
            assert(trimmed_pieces(ps.take(k + 1)) == tp.push(t));
            assert(tp.push(t).drop_last() =~= tp);
            assert(tp.push(t).last() == t);
            let name = string_from(&v, s, e);
            let ghost d = names(out@);
            let mut seen = false;
            let mut j: usize = 0;
            while j < out.len()
                invariant
                    j <= out.len(),
                    d == names(out@),
                    seen == exists|t: int| 0 <= t < j && out@[t]@ == name@,
                decreases out.len() - j,
            {
                if out[j] == name {
                    seen = true;
                }
                j = j + 1;
            }
            assert(seen == d.contains(name@)) by {
                if seen {
                    let t = choose|t: int| 0 <= t < out.len() && out@[t]@ == name@;
                    assert(d[t] == name@);
                }
                if d.contains(name@) {
                    let t = choose|t: int| 0 <= t < d.len() && d[t] == name@;
                    assert(out@[t]@ == name@);
                }
            }
            if !seen {
                out.push(name);
                assert(names(out@) =~= d.push(trim(ps[k as int])));
            }
        } else {
            assert(trimmed_pieces(ps.take(k + 1)) == tp);
        }
        k = k + 1;
    }
    assert(ps.take(ranges.len() as int) =~= ps);
    out
}

/// A field trimmed, absent when blank.
pub fn optional_trimmed(s: &String) -> (r: Option<String>)
    ensures
        view_opt(r) == optional_field(s@),
{
    let v = chars_of(s.as_str());
    let (a, b) = trim_range(&v, 0, v.len());
    assert(v@.subrange(0, v.len() as int) =~= v@);
    if a < b {
        Some(string_from(&v, a, b))
    } else {
        None
    }
}

fn contains_login(list: &Vec<String>, login: &String) -> (r: bool)
    ensures
        r == names(list@).contains(login@),
{
    let mut k: usize = 0;
    while k < list.len()
        invariant
            k <= list.len(),
            forall|t: int| 0 <= t < k ==> list@[t]@ != login@,
        decreases list.len() - k,
    {
        if list[k] == *login {
            assert(names(list@)[k as int] == login@);
            return true;
        }
        k = k + 1;
    }
    assert(!names(list@).contains(login@)) by {
        if names(list@).contains(login@) {
            let t = choose|t: int| 0 <= t < names(list@).len() && names(list@)[t] == login@;
            assert(list@[t]@ == login@);
        }
    }
    false
}

/// The request that a submitted form makes. A database needs nothing else;
/// a workload is refused when the signed-in owner lists themself as a
/// participant.
pub fn build_request(form: &DeployForm, login: Option<&String>) -> (r: Result<DeployRequest, ApiError>)
    ensures
        form.method == DeployMethod::Database ==> r matches Ok(DeployRequest::CreateDatabase),
        form.method != DeployMethod::Database ==> match login {
            Some(l) => if participant_list(form.participants@).contains(l@) {
                r matches Err(e) && e.error_code@ == "OWNER_CANNOT_BE_PARTICIPANT"@ && e.details is None
            } else {
                r matches Ok(DeployRequest::Deploy(p)) && payload_matches(p, form)
            },
            None => r matches Ok(DeployRequest::Deploy(p)) && payload_matches(p, form),
        },
{
    if form.method == DeployMethod::Database {
        return Ok(DeployRequest::CreateDatabase);
    }
    let participants = parse_participants(form.participants.as_str());
    match login {
        Some(l) => {
            if contains_login(&participants, l) {
                return Err(owner_cannot_be_participant());
            }
        },
        None => {},
    }
    let vars = parse_env_text(form.env_vars.as_str());
    let env_vars = if vars.is_empty() {
        None
    } else {
        Some(vars)
    };
    let mut payload = DeployPayload {
        project_name: String::from_str(form.project_name.as_str()),
        participants,
        env_vars,
        persistent_volume_path: optional_trimmed(&form.volume_path),
        create_database: if form.create_database {
            Some(true)
        } else {
            None
        },
        github_repo_url: None,
        github_branch: None,
        github_root_dir: None,
        image_url: None,
    };
    match form.method {
        DeployMethod::GitHub => {
            payload.github_repo_url = Some(String::from_str(form.github_repo_url.as_str()));
            payload.github_branch = optional_trimmed(&form.github_branch);
            payload.github_root_dir = optional_trimmed(&form.github_root_dir);
        },
        DeployMethod::Direct => {
            payload.image_url = Some(String::from_str(form.image_url.as_str()));
        },
        DeployMethod::Database => {},
    }
    Ok(DeployRequest::Deploy(payload))
}

} // verus!
