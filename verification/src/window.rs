//! Window routes and environment names, and their string forms.

use vstd::prelude::*;
use vstd::string::*;

use crate::strutil::str_eq;

verus! {

/// The routes of the tool's auxiliary windows.
#[derive(PartialEq, Eq, Structural, Clone, Copy, Debug)]
pub enum CostaRouter {
    Home,
    UrlEdit,
    DownloadApp,
    EnvEdit,
}

impl CostaRouter {
    /// The fixed path of this route.
    pub open spec fn spec_str(self) -> Seq<char> {
        match self {
            CostaRouter::Home => "/home"@,
            CostaRouter::UrlEdit => "/schema_editor"@,
            CostaRouter::DownloadApp => "/download_app"@,
            CostaRouter::EnvEdit => "/env_edit"@,
        }
    }

    /// Path of this route.
    pub fn as_str(&self) -> (r: &'static str)
        ensures
            r@ == self.spec_str(),
    {
        match self {
            CostaRouter::Home => "/home",
            CostaRouter::UrlEdit => "/schema_editor",
            CostaRouter::DownloadApp => "/download_app",
            CostaRouter::EnvEdit => "/env_edit",
        }
    }

    /// The route a path names; an unknown path resolves to the home
    /// route.
    pub open spec fn spec_parse(id: Seq<char>) -> CostaRouter {
        if id == "/home"@ {
            CostaRouter::Home
        } else if id == "/schema_editor"@ {
            CostaRouter::UrlEdit
        } else if id == "/download_app"@ {
            CostaRouter::DownloadApp
        } else if id == "/env_edit"@ {
            CostaRouter::EnvEdit
        } else {
            CostaRouter::Home
        }
    }

    /// Resolves a path to its route.
    pub fn parse(id: &str) -> (r: CostaRouter)
        ensures
            r == CostaRouter::spec_parse(id@),
    {
        if str_eq(id, "/home") {
            CostaRouter::Home
        } else if str_eq(id, "/schema_editor") {
            CostaRouter::UrlEdit
        } else if str_eq(id, "/download_app") {
            CostaRouter::DownloadApp
        } else if str_eq(id, "/env_edit") {
            CostaRouter::EnvEdit
        } else {
            CostaRouter::Home
        }
    }
}

/// The environments a host can be switched to.
#[derive(PartialEq, Eq, Structural, Clone, Copy, Debug)]
pub enum EnvName {
    BOE,
    PPE,
    ONLINE,
}

impl EnvName {
    /// The fixed name of this environment.
    pub open spec fn spec_str(self) -> Seq<char> {
        match self {
            EnvName::BOE => "boe"@,
            EnvName::PPE => "ppe"@,
            EnvName::ONLINE => "online"@,
        }
    }

    /// Name of this environment.
    pub fn as_str(&self) -> (r: &'static str)
        ensures
            r@ == self.spec_str(),
    {
        match self {
            EnvName::BOE => "boe",
            EnvName::PPE => "ppe",
            EnvName::ONLINE => "online",
        }
    }

    /// The environment a name denotes; an unknown name denotes the
    /// online environment.
    pub open spec fn spec_parse(id: Seq<char>) -> EnvName {
        if id == "boe"@ {
            EnvName::BOE
        } else if id == "ppe"@ {
            EnvName::PPE
        } else {
            EnvName::ONLINE
        }
    }

    /// Resolves a name to its environment.
    pub fn parse(id: &str) -> (r: EnvName)
        ensures
            r == EnvName::spec_parse(id@),
    {
        if str_eq(id, "boe") {
            EnvName::BOE
        } else if str_eq(id, "ppe") {
            EnvName::PPE
        } else {
            EnvName::ONLINE
        }
    }
}

} // verus!
