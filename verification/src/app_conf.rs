//! The configuration that the bridge runs under.

use vstd::prelude::*;
use crate::conf::conf_integer;
use crate::conf::conf_text;
use crate::conf::get_conf_val;
use crate::conf::get_conf_val_n;
use crate::conf::group_fault;
use crate::conf::key_texts;
use crate::conf::toml_element;
use crate::conf::toml_length;
use crate::conf::toml_member;
use crate::conf::toml_parsed;
use crate::conf::toml_text;
use crate::conf::validate_conf_group;
use crate::conf::ConfError;
use crate::ids::uuid_parsed;
use crate::ids::Id;

verus! {

/// Where the bridge listens and where it keeps its records.
pub struct GeneralConf {
    pub port: i64,
    pub db_name: String,
}

/// The bot's account on the chat platform.
pub struct BraidConf {
    pub name: String,
    pub api_url: String,
    pub site_url: String,
    pub app_id: String,
    pub token: String,
}

/// The secret that the tracker signs its webhooks with.
pub struct GithubConf {
    pub webhook_secret: String,
}

/// One repository of the tracker: its credentials, and the chat tag under
/// which threads about it are opened.
pub struct RepoConf {
    pub token: String,
    pub org: String,
    pub repo: String,
    pub tag_id: Id,
}

/// The whole configuration.
pub struct AppConf {
    pub general: GeneralConf,
    pub braid: BraidConf,
    pub github: GithubConf,
    pub repos: Vec<RepoConf>,
}

impl Clone for GeneralConf {
    fn clone(&self) -> (r: Self)
        ensures
            r == *self,
    {
        GeneralConf { port: self.port, db_name: self.db_name.clone() }
    }
}

impl Clone for BraidConf {
    fn clone(&self) -> (r: Self)
        ensures
            r == *self,
    {
        BraidConf {
            name: self.name.clone(),
            api_url: self.api_url.clone(),
            site_url: self.site_url.clone(),
            app_id: self.app_id.clone(),
            token: self.token.clone(),
        }
    }
}

impl Clone for GithubConf {
    fn clone(&self) -> (r: Self)
        ensures
            r == *self,
    {
        GithubConf { webhook_secret: self.webhook_secret.clone() }
    }
}

impl Clone for RepoConf {
    fn clone(&self) -> (r: Self)
        ensures
            r == *self,
    {
        RepoConf {
            token: self.token.clone(),
            org: self.org.clone(),
            repo: self.repo.clone(),
            tag_id: self.tag_id,
        }
    }
}

/// Copies of the repositories, in order.
pub fn clone_repos(repos: &Vec<RepoConf>) -> (r: Vec<RepoConf>)
    ensures
        r@ == repos@,
{
    let mut out: Vec<RepoConf> = Vec::new();
    let mut i: usize = 0;
    while i < repos.len()
        invariant
            i <= repos.len(),
            out@ == repos@.take(i as int),
        decreases repos.len() - i,
    {
        out.push(repos[i].clone());
        i = i + 1;
    }
    out
}

impl Clone for AppConf {
    fn clone(&self) -> (r: Self)
        ensures
            r.general == self.general,
            r.braid == self.braid,
            r.github == self.github,
            r.repos@ == self.repos@,
    {
        AppConf {
            general: self.general.clone(),
            braid: self.braid.clone(),
            github: self.github.clone(),
            repos: clone_repos(&self.repos),
        }
    }
}

/// The text that a table holds under a key.
pub open spec fn text_under(table: toml::Value, key: Seq<char>) -> Option<Seq<char>> {
    match toml_member(table, key) {
        Some(v) => toml_text(v),
        None => None,
    }
}

/// The tag that a table holds under `tag_id`: a text that spells an
/// identifier.
pub open spec fn tag_under(table: toml::Value) -> Option<Id> {
    match text_under(table, "tag_id"@) {
        Some(t) => match uuid_parsed(t) {
            Some(value) => Some(Id { value }),
            None => None,
        },
        None => None,
    }
}

/// Whether an entry of the list of repositories holds all that a repository
/// needs.
pub open spec fn repo_complete(entry: toml::Value) -> bool {
    text_under(entry, "token"@) is Some && text_under(entry, "org"@) is Some && text_under(
        entry,
        "repo"@,
    ) is Some && tag_under(entry) is Some
}

/// Whether `r` is the repository that the entry describes.
pub open spec fn repo_from(r: RepoConf, entry: toml::Value) -> bool {
    text_under(entry, "token"@) == Some(r.token@) && text_under(entry, "org"@) == Some(r.org@)
        && text_under(entry, "repo"@) == Some(r.repo@) && tag_under(entry) == Some(r.tag_id)
}

/// The settings that the three groups must hold.
pub open spec fn general_keys() -> Seq<Seq<char>> {
    seq!["port"@, "db_name"@]
}

pub open spec fn braid_keys() -> Seq<Seq<char>> {
    seq!["name"@, "api_url"@, "app_id"@, "token"@, "site_url"@]
}

pub open spec fn github_keys() -> Seq<Seq<char>> {
    seq!["webhook_secret"@]
}

/// What is wrong with the three groups of a document, the first fault
/// first: a group or a key that is missing, then a setting of a wrong type.
pub open spec fn settings_fault(doc: toml::Value) -> Option<ConfError> {
    if group_fault(doc, "general"@, general_keys()) is Some {
        group_fault(doc, "general"@, general_keys())
    } else if group_fault(doc, "braid"@, braid_keys()) is Some {
        group_fault(doc, "braid"@, braid_keys())
    } else if group_fault(doc, "github"@, github_keys()) is Some {
        group_fault(doc, "github"@, github_keys())
    } else if conf_integer(doc, "general"@, "port"@) is None || conf_text(
        doc,
        "general"@,
        "db_name"@,
    ) is None || conf_text(doc, "braid"@, "name"@) is None || conf_text(doc, "braid"@, "api_url"@)
        is None || conf_text(doc, "braid"@, "site_url"@) is None || conf_text(
        doc,
        "braid"@,
        "app_id"@,
    ) is None || conf_text(doc, "braid"@, "token"@) is None || conf_text(
        doc,
        "github"@,
        "webhook_secret"@,
    ) is None {
        Some(ConfError::WrongType)
    } else {
        None
    }
}

/// What is wrong with the list of repositories of a document.
pub open spec fn repos_fault(doc: toml::Value) -> Option<ConfError> {
    match toml_member(doc, "repos"@) {
        None => Some(ConfError::MissingRepos),
        Some(list) => match toml_length(list) {
            None => Some(ConfError::MissingRepos),
            Some(n) => if exists|i: int|
                0 <= i < n && !repo_complete((#[trigger] toml_element(list, i))->0) {
                Some(ConfError::BadRepo)
            } else {
                None
            },
        },
    }
}

/// What is wrong with a document: with its groups, or else with its list of
/// repositories.
pub open spec fn doc_fault(doc: toml::Value) -> Option<ConfError> {
    if settings_fault(doc) is Some {
        settings_fault(doc)
    } else {
        repos_fault(doc)
    }
}

/// What is wrong with the text of a configuration.
pub open spec fn conf_fault(contents: Seq<char>) -> Option<ConfError> {
    match toml_parsed(contents) {
        None => Some(ConfError::Unparsable),
        Some(doc) => doc_fault(doc),
    }
}

/// Whether `repos` are the repositories that the document lists, in order.
pub open spec fn repos_from(repos: Seq<RepoConf>, doc: toml::Value) -> bool {
    &&& toml_member(doc, "repos"@) is Some
    &&& toml_length(toml_member(doc, "repos"@)->0) == Some(repos.len())
    &&& forall|i: int|
        0 <= i < repos.len() ==> repo_from(
            #[trigger] repos[i],
            toml_element(toml_member(doc, "repos"@)->0, i)->0,
        )
}

/// Whether `conf` holds what the document says.
pub open spec fn conf_from(conf: AppConf, doc: toml::Value) -> bool {
    &&& conf_integer(doc, "general"@, "port"@) == Some(conf.general.port)
    &&& conf_text(doc, "general"@, "db_name"@) == Some(conf.general.db_name@)
    &&& conf_text(doc, "braid"@, "name"@) == Some(conf.braid.name@)
    &&& conf_text(doc, "braid"@, "api_url"@) == Some(conf.braid.api_url@)
    &&& conf_text(doc, "braid"@, "site_url"@) == Some(conf.braid.site_url@)
    &&& conf_text(doc, "braid"@, "app_id"@) == Some(conf.braid.app_id@)
    &&& conf_text(doc, "braid"@, "token"@) == Some(conf.braid.token@)
    &&& conf_text(doc, "github"@, "webhook_secret"@) == Some(conf.github.webhook_secret@)
    &&& repos_from(conf.repos@, doc)
}

/// The text that a table holds under a key.
fn text_in(table: &toml::Value, key: &str) -> (r: Option<String>)
    ensures
        match r {
            Some(t) => text_under(*table, key@) == Some(t@),
            None => text_under(*table, key@) is None,
        },
{
    match crate::conf::member(table, key) {
        Some(v) => crate::conf::text(v),
        None => None,
    }
}

/// The repository that an entry of the list describes.
fn repo_of(entry: &toml::Value) -> (r: Option<RepoConf>)
    ensures
        match r {
            Some(repo) => repo_from(repo, *entry),
            None => !repo_complete(*entry),
        },
{
    let token = match text_in(entry, "token") {
        Some(t) => t,
        None => { return None; },
    };
    let org = match text_in(entry, "org") {
        Some(t) => t,
        None => { return None; },
    };
    let repo = match text_in(entry, "repo") {
        Some(t) => t,
        None => { return None; },
    };
    let tag_text = match text_in(entry, "tag_id") {
        Some(t) => t,
        None => { return None; },
    };
    match Id::parse_str(tag_text.as_str()) {
        Some(tag_id) => Some(RepoConf { token, org, repo, tag_id }),
        None => None,
    }
}

/// The repositories that a document lists.
fn repos_of(doc: &toml::Value) -> (r: Result<Vec<RepoConf>, ConfError>)
    ensures
        match r {
            Ok(repos) => repos_fault(*doc) is None && repos_from(repos@, *doc),
            Err(e) => repos_fault(*doc) == Some(e),
        },
{
    let list = match crate::conf::member(doc, "repos") {
        Some(l) => l,
        None => { return Err(ConfError::MissingRepos); },
    };
    let n = match crate::conf::length(list) {
        Some(n) => n,
        None => { return Err(ConfError::MissingRepos); },
    };
    let mut repos: Vec<RepoConf> = Vec::new();
    let mut i: usize = 0;
    while i < n
        invariant
            i <= n,
            toml_member(*doc, "repos"@) == Some(*list),
            toml_length(*list) == Some(n as nat),
            repos@.len() == i,
            forall|k: int| 0 <= k < i ==> repo_complete((#[trigger] toml_element(*list, k))->0),
            forall|k: int|
                0 <= k < i ==> repo_from(#[trigger] repos@[k], toml_element(*list, k)->0),
        decreases n - i,
    {
        let entry = match crate::conf::element(list, i) {
            Some(e) => e,
            None => { return Err(ConfError::BadRepo); },
        };
        match repo_of(entry) {
            Some(repo) => repos.push(repo),
            None => {
                return Err(ConfError::BadRepo);
            },
        }
        i = i + 1;
    }
    Ok(repos)
}

/// Reads the configuration from the text of a file. A text that is no TOML,
/// a group or a setting that is missing or of a wrong type, and a list of
/// repositories that is missing or holds an entry that is not complete are
/// refused, each by its name.
pub fn load_conf(contents: &str) -> (r: Result<AppConf, ConfError>)
    ensures
        match r {
            Ok(conf) => conf_fault(contents@) is None && conf_from(conf, toml_parsed(contents@)->0),
            Err(e) => conf_fault(contents@) == Some(e),
        },
{
    let doc = match crate::conf::load_conf(contents) {
        Ok(d) => d,
        Err(e) => { return Err(e); },
    };
    let mut keys: Vec<&str> = Vec::new();
    keys.push("port");
    keys.push("db_name");
    assert(key_texts(keys@) =~= general_keys());
    match validate_conf_group(&doc, "general", keys.as_slice()) {
        Ok(_) => {},
        Err(e) => { return Err(e); },
    }
    let mut keys: Vec<&str> = Vec::new();
    keys.push("name");
    keys.push("api_url");
    keys.push("app_id");
    keys.push("token");
    keys.push("site_url");
    assert(key_texts(keys@) =~= braid_keys());
    match validate_conf_group(&doc, "braid", keys.as_slice()) {
        Ok(_) => {},
        Err(e) => { return Err(e); },
    }
    let mut keys: Vec<&str> = Vec::new();
    keys.push("webhook_secret");
    assert(key_texts(keys@) =~= github_keys());
    match validate_conf_group(&doc, "github", keys.as_slice()) {
        Ok(_) => {},
        Err(e) => { return Err(e); },
    }
    let port = get_conf_val_n(&doc, "general", "port");
    let db_name = get_conf_val(&doc, "general", "db_name");
    let name = get_conf_val(&doc, "braid", "name");
    let api_url = get_conf_val(&doc, "braid", "api_url");
    let site_url = get_conf_val(&doc, "braid", "site_url");
    let app_id = get_conf_val(&doc, "braid", "app_id");
    let token = get_conf_val(&doc, "braid", "token");
    let webhook_secret = get_conf_val(&doc, "github", "webhook_secret");
    match (port, db_name, name, api_url, site_url, app_id, token, webhook_secret) {
        (
            Some(port),
            Some(db_name),
            Some(name),
            Some(api_url),
            Some(site_url),
            Some(app_id),
            Some(token),
            Some(webhook_secret),
        ) => {
            match repos_of(&doc) {
                Ok(repos) => Ok(
                    AppConf {
                        general: GeneralConf { port, db_name },
                        braid: BraidConf { name, api_url, site_url, app_id, token },
                        github: GithubConf { webhook_secret },
                        repos,
                    },
                ),
                Err(e) => Err(e),
            }
        },
        _ => Err(ConfError::WrongType),
    }
}

} // verus!
