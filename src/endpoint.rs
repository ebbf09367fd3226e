use vstd::prelude::*;
use vstd::string::*;

use crate::error::DownloadError;

verus! {

/// The URL given to an alias by the first entry that names it.
pub open spec fn alias_url(entries: Seq<(Seq<char>, Seq<char>)>, alias: Seq<char>) -> Option<Seq<char>>
    decreases entries.len(),
{
    if entries.len() == 0 {
        None
    } else if entries[0].0 == alias {
        Some(entries[0].1)
    } else {
        alias_url(entries.drop_first(), alias)
    }
}

/// The registry settings of the project being worked on.
#[derive(Debug, Clone, PartialEq, Eq)]
pub struct ProjectConfig {
    /// Registry aliases and their URLs.
    pub registries: Vec<(String, String)>,
    /// The alias used when the user names none.
    pub default_registry: Option<String>,
}

/// What a project configuration says: its aliases and its default alias.
pub type ProjectView = (Seq<(Seq<char>, Seq<char>)>, Option<Seq<char>>);

pub open spec fn opt_view(s: Option<String>) -> Option<Seq<char>> {
    match s {
        Some(t) => Some(t@),
        None => None,
    }
}

impl View for ProjectConfig {
    type V = ProjectView;

    open spec fn view(&self) -> ProjectView {
        (self.registries@.map_values(|e: (String, String)| (e.0@, e.1@)), opt_view(self.default_registry))
    }
}

/// The user's registry client settings.
#[derive(Debug, Clone, PartialEq, Eq)]
pub struct ClientConfig {
    /// The registry used when the project configuration gives none.
    pub home_url: Option<String>,
}

/// The registry a download talks to.
#[derive(Debug, Clone, PartialEq, Eq)]
pub struct RegistryEndpoint {
    pub url: String,
    /// The project alias that gave the URL; `None` for the client's home registry.
    pub alias: Option<String>,
}

impl View for RegistryEndpoint {
    type V = (Seq<char>, Option<Seq<char>>);

    open spec fn view(&self) -> (Seq<char>, Option<Seq<char>>) {
        (self.url@, opt_view(self.alias))
    }
}

/// The alias looked up in the project configuration: the one asked for, else the
/// project's default alias.
pub open spec fn chosen_alias(alias: Option<Seq<char>>, project: Option<ProjectView>) -> Option<Seq<char>> {
    match alias {
        Some(a) => Some(a),
        None => match project {
            Some(p) => p.1,
            None => None,
        },
    }
}

/// The endpoint for an alias: the project's URL for it where the project defines
/// it, else the client's home URL; `None` where neither gives one.
pub open spec fn endpoint_of(
    alias: Option<Seq<char>>,
    project: Option<ProjectView>,
    home: Option<Seq<char>>,
) -> Option<(Seq<char>, Option<Seq<char>>)> {
    let name = chosen_alias(alias, project);
    if project.is_some() && name.is_some() && alias_url(project.unwrap().0, name.unwrap()).is_some() {
        Some((alias_url(project.unwrap().0, name.unwrap()).unwrap(), name))
    } else {
        match home {
            Some(h) => Some((h, None)),
            None => None,
        }
    }
}

pub open spec fn str_view(s: Option<&str>) -> Option<Seq<char>> {
    match s {
        Some(t) => Some(t@),
        None => None,
    }
}

pub open spec fn project_view(p: Option<&ProjectConfig>) -> Option<ProjectView> {
    match p {
        Some(c) => Some(c@),
        None => None,
    }
}

proof fn lemma_alias_url_skip(entries: Seq<(Seq<char>, Seq<char>)>, alias: Seq<char>, i: int)
    requires
        0 <= i < entries.len(),
        entries[i].0 != alias,
    ensures
        alias_url(entries.subrange(i, entries.len() as int), alias)
            == alias_url(entries.subrange(i + 1, entries.len() as int), alias),
{
    assert(entries.subrange(i, entries.len() as int).drop_first()
        =~= entries.subrange(i + 1, entries.len() as int));
}

impl ProjectConfig {
    /// The URL that the first entry for `alias` gives, if any.
    pub fn lookup(&self, alias: &String) -> (r: Option<&String>)
        ensures
            match r {
                Some(u) => alias_url(self@.0, alias@) == Some(u@),
                None => alias_url(self@.0, alias@).is_none(),
            },
    {
        let ghost entries = self@.0;
        let mut i: usize = 0;
        assert(entries.subrange(0, entries.len() as int) =~= entries);
        while i < self.registries.len()
            invariant
                entries == self@.0,
                entries.len() == self.registries@.len(),
                0 <= i <= self.registries.len(),
                alias_url(entries.subrange(i as int, entries.len() as int), alias@)
                    == alias_url(entries, alias@),
            decreases self.registries.len() - i,
        {
            let entry = &self.registries[i];
            if entry.0 == *alias {
                assert(entries.subrange(i as int, entries.len() as int)[0] == entries[i as int]);
                return Some(&entry.1);
            }
            proof {
                lemma_alias_url_skip(entries, alias@, i as int);
            }
            i = i + 1;
        }
        None
    }
}

/// Finds the registry to download from: the project's URL for the alias asked
/// for (or the project's default alias) where the project defines that alias,
/// else the client's home registry.
pub fn resolve_endpoint(
    alias: Option<&str>,
    project: Option<&ProjectConfig>,
    client: &ClientConfig,
) -> (r: Result<RegistryEndpoint, DownloadError>)
    ensures
        match r {
            Ok(ep) => endpoint_of(str_view(alias), project_view(project), opt_view(client.home_url))
                == Some(ep@),
            Err(e) => endpoint_of(str_view(alias), project_view(project), opt_view(client.home_url))
                .is_none() && (e matches DownloadError::RegistryNotConfigured(a)
                && opt_view(a) == chosen_alias(str_view(alias), project_view(project))),
        },
{
    let name: Option<String> = match alias {
        Some(a) => Some(String::from_str(a)),
        None => match project {
            Some(p) => p.default_registry.clone(),
            None => None,
        },
    };
    if let Some(p) = project {
        if let Some(n) = &name {
            if let Some(url) = p.lookup(n) {
                return Ok(RegistryEndpoint { url: url.clone(), alias: name });
            }
        }
    }
    match &client.home_url {
        Some(h) => Ok(RegistryEndpoint { url: h.clone(), alias: None }),
        None => Err(DownloadError::RegistryNotConfigured(name)),
    }
}

/// Endpoint precedence: an alias that the project defines takes the project's
/// URL; an alias that it does not define falls back to the client's home URL, as
/// does a download without a project configuration; with neither a project alias
/// nor a home URL there is no endpoint.
pub proof fn lemma_endpoint_precedence(
    project: ProjectView,
    defined: Seq<char>,
    undefined: Seq<char>,
    project_url: Seq<char>,
    home_url: Seq<char>,
)
    requires
        alias_url(project.0, defined) == Some(project_url),
        alias_url(project.0, undefined).is_none(),
    ensures
        endpoint_of(Some(defined), Some(project), Some(home_url)) == Some((project_url, Some(defined))),
        endpoint_of(Some(undefined), Some(project), Some(home_url)) == Some((home_url, None::<Seq<char>>)),
        endpoint_of(None, None, Some(home_url)) == Some((home_url, None::<Seq<char>>)),
        endpoint_of(None, None, None).is_none(),
        endpoint_of(Some(undefined), Some(project), None).is_none(),
{
}

} // verus!
