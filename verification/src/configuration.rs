use vstd::prelude::*;

use crate::env::{Env, EnvSpec};
use crate::error::{ErrorSpec, NeboError, text_result_view};
use crate::http::{HttpReply, HttpRequest, Method, ReplySpec, RequestSpec, is_success, is_success_spec, sent_view, service_request, service_request_spec};
use crate::text::cat;

verus! {

/// The identity the storage is reached with.
#[derive(Debug)]
pub struct Credentials {
    pub access_token: String,
    pub identity_pool_id: String,
    pub region: String,
    pub identity_id: String,
    pub identity_provider: String,
}

/// Where and how pages are stored.
#[derive(Debug)]
pub struct S3Configuration {
    pub bucket: String,
    pub client_directory_prefix: String,
    pub region: String,
    pub kms_key: String,
    pub service_endpoint: Option<String>,
}

/// What the service tells a client about sharing.
#[derive(Debug)]
pub struct Configuration {
    pub sharing_url_prefix: String,
    pub s3: S3Configuration,
    pub credentials: Credentials,
}

impl Clone for Credentials {
    fn clone(&self) -> (r: Self)
        ensures
            r == *self,
    {
        Credentials {
            access_token: self.access_token.clone(),
            identity_pool_id: self.identity_pool_id.clone(),
            region: self.region.clone(),
            identity_id: self.identity_id.clone(),
            identity_provider: self.identity_provider.clone(),
        }
    }
}

impl Clone for S3Configuration {
    fn clone(&self) -> (r: Self)
        ensures
            r == *self,
    {
        S3Configuration {
            bucket: self.bucket.clone(),
            client_directory_prefix: self.client_directory_prefix.clone(),
            region: self.region.clone(),
            kms_key: self.kms_key.clone(),
            service_endpoint: match &self.service_endpoint {
                Some(e) => Some(e.clone()),
                None => None,
            },
        }
    }
}

impl Clone for Configuration {
    fn clone(&self) -> (r: Self)
        ensures
            r == *self,
    {
        Configuration {
            sharing_url_prefix: self.sharing_url_prefix.clone(),
            s3: self.s3.clone(),
            credentials: self.credentials.clone(),
        }
    }
}

/// URL of the configuration.
pub open spec fn configuration_url_spec(env: EnvSpec) -> Seq<char> {
    env.neboapp_url + "/api/v1.0/nebo/configuration"@
}

/// The request that fetches the configuration.
pub open spec fn configuration_request_spec(env: EnvSpec, token: Seq<char>) -> RequestSpec {
    service_request_spec(Method::Get, configuration_url_spec(env), token, None)
}

/// What fetching the configuration gives, by views.
pub open spec fn configuration_outcome_spec(reply: Result<ReplySpec, Seq<char>>) -> Result<Seq<char>, ErrorSpec> {
    match reply {
        Err(e) => Err(ErrorSpec::Transport(e)),
        Ok(rep) => match rep.body {
            Err(e) => Err(ErrorSpec::Transport(e)),
            Ok(b) => if is_success_spec(rep.status) {
                Ok(b)
            } else {
                Err(ErrorSpec::ConfigurationApi)
            },
        },
    }
}

impl Configuration {
    /// Builds the request that fetches the configuration for the holder of `token`.
    pub fn request(env: &Env, token: &str) -> (r: HttpRequest)
        ensures
            r@ == configuration_request_spec(env@, token@),
    {
        let url = cat(env.neboapp_url, "/api/v1.0/nebo/configuration");
        service_request(Method::Get, url, token, None)
    }

    /// What fetching the configuration gives: the body text to decode on a 2xx status; a
    /// body that cannot be read fails first, whatever the status.
    pub fn outcome(reply: Result<HttpReply, String>) -> (r: Result<String, NeboError>)
        ensures
            text_result_view(r) == configuration_outcome_spec(sent_view(reply)),
            match reply {
                Err(e) => r == Err::<String, NeboError>(NeboError::Transport(e)),
                Ok(rep) => match rep.body {
                    Err(e) => r == Err::<String, NeboError>(NeboError::Transport(e)),
                    Ok(b) => if is_success_spec(rep.status) {
                        r == Ok::<String, NeboError>(b)
                    } else {
                        r == Err::<String, NeboError>(NeboError::ConfigurationApi)
                    },
                },
            },
    {
        match reply {
            Err(e) => Err(NeboError::Transport(e)),
            Ok(rep) => {
                let status = rep.status;
                match rep.body {
                    Err(e) => Err(NeboError::Transport(e)),
                    Ok(b) => {
                        if is_success(status) {
                            Ok(b)
                        } else {
                            Err(NeboError::ConfigurationApi)
                        }
                    },
                }
            },
        }
    }
}

} // verus!
