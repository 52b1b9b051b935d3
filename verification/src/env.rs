use vstd::prelude::*;

use crate::text::str_eq;

verus! {

/// The endpoints of one deployment of the service.
pub struct Env {
    pub sso_url: &'static str,
    pub neboapp_url: &'static str,
    pub client_id: &'static str,
    pub sso_redirect_uri: &'static str,
}

/// What an [`Env`] holds, as character sequences.
pub struct EnvSpec {
    pub sso_url: Seq<char>,
    pub neboapp_url: Seq<char>,
    pub client_id: Seq<char>,
    pub sso_redirect_uri: Seq<char>,
}

impl View for Env {
    type V = EnvSpec;

    open spec fn view(&self) -> EnvSpec {
        EnvSpec {
            sso_url: self.sso_url@,
            neboapp_url: self.neboapp_url@,
            client_id: self.client_id@,
            sso_redirect_uri: self.sso_redirect_uri@,
        }
    }
}

/// The deployments the tool knows, by name.
pub open spec fn env_of(name: Seq<char>) -> Option<EnvSpec> {
    if name == "local"@ {
        Some(EnvSpec {
            sso_url: "http://localhost:8080"@,
            neboapp_url: "http://localhost:8899"@,
            client_id: "nebowebap_cloudtest"@,
            sso_redirect_uri: "http://localhost:8099/ssocallback"@,
        })
    } else if name == "prod"@ {
        Some(EnvSpec {
            sso_url: "https://sso.myscript.com"@,
            neboapp_url: "https://www.nebo.app"@,
            client_id: "nebowebap"@,
            sso_redirect_uri: "https://nebo.app/callback"@,
        })
    } else if name == "cloudtest"@ {
        Some(EnvSpec {
            sso_url: "https://sso.corp.myscript.com"@,
            neboapp_url: "https://neboapp.corp.myscript.com"@,
            client_id: "nebowebap_cloudtest"@,
            sso_redirect_uri: "https://neboapp.corp.myscript.com/callback"@,
        })
    } else if name == "cloudtest2"@ {
        Some(EnvSpec {
            sso_url: "https://sso.corp.myscript.com"@,
            neboapp_url: "https://neboapp2.corp.myscript.com"@,
            client_id: "nebowebap_cloudtest"@,
            sso_redirect_uri: "https://neboapp2.corp.myscript.com/callback"@,
        })
    } else {
        None
    }
}

/// `name` is one of the deployments the tool knows.
pub open spec fn is_known_env(name: Seq<char>) -> bool {
    env_of(name) is Some
}

/// The deployment called `name`, if the tool knows it.
pub fn env_config(name: &str) -> (r: Option<Env>)
    ensures
        r is Some <==> is_known_env(name@),
        r matches Some(e) ==> env_of(name@) == Some(e@),
{
    if str_eq(name, "local") {
        Some(Env {
            sso_url: "http://localhost:8080",
            neboapp_url: "http://localhost:8899",
            client_id: "nebowebap_cloudtest",
            sso_redirect_uri: "http://localhost:8099/ssocallback",
        })
    } else if str_eq(name, "prod") {
        Some(Env {
            sso_url: "https://sso.myscript.com",
            neboapp_url: "https://www.nebo.app",
            client_id: "nebowebap",
            sso_redirect_uri: "https://nebo.app/callback",
        })
    } else if str_eq(name, "cloudtest") {
        Some(Env {
            sso_url: "https://sso.corp.myscript.com",
            neboapp_url: "https://neboapp.corp.myscript.com",
            client_id: "nebowebap_cloudtest",
            sso_redirect_uri: "https://neboapp.corp.myscript.com/callback",
        })
    } else if str_eq(name, "cloudtest2") {
        Some(Env {
            sso_url: "https://sso.corp.myscript.com",
            neboapp_url: "https://neboapp2.corp.myscript.com",
            client_id: "nebowebap_cloudtest",
            sso_redirect_uri: "https://neboapp2.corp.myscript.com/callback",
        })
    } else {
        None
    }
}

/// The names of the deployments, in the order the command line offers them.
pub fn env_names() -> (r: Vec<&'static str>)
    ensures
        r@.len() == 4,
        r@[0]@ == "local"@,
        r@[1]@ == "cloudtest"@,
        r@[2]@ == "cloudtest2"@,
        r@[3]@ == "prod"@,
{
    let mut v: Vec<&'static str> = Vec::new();
    v.push("local");
    v.push("cloudtest");
    v.push("cloudtest2");
    v.push("prod");
    v
}

/// Every deployment name the command line offers is known.
pub proof fn lemma_offered_envs_are_known()
    ensures
        is_known_env("local"@),
        is_known_env("cloudtest"@),
        is_known_env("cloudtest2"@),
        is_known_env("prod"@),
{
}

/// Path of the pages collection on the service.
pub fn pages_path() -> (r: &'static str)
    ensures
        r@ == pages_path_spec(),
{
    "/api/v2.0/nebo/pages"
}

/// Path of the pages collection on the service.
pub open spec fn pages_path_spec() -> Seq<char> {
    "/api/v2.0/nebo/pages"@
}

} // verus!
