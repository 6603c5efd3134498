//! The client platform that a request claims to come from.

use vstd::prelude::*;
use vstd::string::StringExecFns;

verus! {

/// A client platform identity, with the version of its operating system.
#[derive(Debug, Clone)]
pub enum TalkApiAgent {
    /// The Windows desktop client.
    Win32(String),
    /// The Android client.
    Android(String),
}

impl TalkApiAgent {
    /// The path segment and header name of the platform.
    pub open spec fn spec_agent(&self) -> Seq<char> {
        match self {
            TalkApiAgent::Win32(_) => "win32"@,
            TalkApiAgent::Android(_) => "android"@,
        }
    }

    /// The short platform tag used in the user agent.
    pub open spec fn spec_os_tag(&self) -> Seq<char> {
        match self {
            TalkApiAgent::Win32(_) => "Wd/"@,
            TalkApiAgent::Android(_) => "An/"@,
        }
    }

    /// The operating system version.
    pub open spec fn spec_os_version(&self) -> Seq<char> {
        match self {
            TalkApiAgent::Win32(v) => v@,
            TalkApiAgent::Android(v) => v@,
        }
    }

    /// `KT/{version} {tag}{os version} {language}`.
    pub open spec fn spec_user_agent(&self, version: Seq<char>, language: Seq<char>) -> Seq<
        char,
    > {
        "KT/"@ + version + " "@ + self.spec_os_tag() + self.spec_os_version() + " "@ + language
    }

    pub fn agent(&self) -> (r: &'static str)
        ensures
            r@ == self.spec_agent(),
    {
        match self {
            TalkApiAgent::Win32(_) => "win32",
            TalkApiAgent::Android(_) => "android",
        }
    }

    fn os_tag(&self) -> (r: &'static str)
        ensures
            r@ == self.spec_os_tag(),
    {
        match self {
            TalkApiAgent::Win32(_) => "Wd/",
            TalkApiAgent::Android(_) => "An/",
        }
    }

    pub fn get_user_agent(&self, version: &str, language: &str) -> (r: String)
        ensures
            r@ == self.spec_user_agent(version@, language@),
    {
        let os_version = match self {
            TalkApiAgent::Win32(v) => v.as_str(),
            TalkApiAgent::Android(v) => v.as_str(),
        };
        let mut s = String::from_str("KT/");
        s.append(version);
        s.append(" ");
        s.append(self.os_tag());
        s.append(os_version);
        s.append(" ");
        s.append(language);
        assert(s@ =~= self.spec_user_agent(version@, language@));
        s
    }
}

} // verus!
