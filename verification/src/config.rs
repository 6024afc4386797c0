//! Server configuration: how it is read from environment variables and when it is valid.

use vstd::prelude::*;

use crate::error::AppError;
use crate::text::{
    contains_char, decimal, law_decimal_reads_back, parse_u16, spec_parse_u16, starts_with, str_eq,
};

verus! {

/// The server's settings.
#[derive(Debug)]
pub struct Config {
    pub matrix_homeserver_url: String,
    pub matrix_access_token: String,
    pub matrix_user_id: String,
    pub matrix_domain: Option<String>,
    pub matrix_client_id: Option<String>,
    pub matrix_client_secret: Option<String>,
    pub port: u16,
    pub enable_oauth: bool,
    pub enable_token_exchange: bool,
    pub enable_https: bool,
    pub ssl_key_path: Option<String>,
    pub ssl_cert_path: Option<String>,
    pub cors_allowed_origins: Option<String>,
    pub idp_issuer_url: Option<String>,
    pub idp_authorization_url: Option<String>,
    pub idp_token_url: Option<String>,
    pub idp_registration_url: Option<String>,
    pub idp_revocation_url: Option<String>,
    pub oauth_callback_url: Option<String>,
    pub mcp_server_url: Option<String>,
    pub e2ee_enabled: bool,
    pub crypto_store_path: Option<String>,
    pub debug: bool,
    /// Start without signing in to Matrix (`SKIP_MATRIX_INIT=true`): the MCP
    /// protocol works, tool calls meet Matrix errors.
    pub skip_matrix_init: bool,
}

/// The settings as mathematical values.
pub struct ConfigView {
    pub matrix_homeserver_url: Seq<char>,
    pub matrix_access_token: Seq<char>,
    pub matrix_user_id: Seq<char>,
    pub matrix_domain: Option<Seq<char>>,
    pub matrix_client_id: Option<Seq<char>>,
    pub matrix_client_secret: Option<Seq<char>>,
    pub port: u16,
    pub enable_oauth: bool,
    pub enable_token_exchange: bool,
    pub enable_https: bool,
    pub ssl_key_path: Option<Seq<char>>,
    pub ssl_cert_path: Option<Seq<char>>,
    pub cors_allowed_origins: Option<Seq<char>>,
    pub idp_issuer_url: Option<Seq<char>>,
    pub idp_authorization_url: Option<Seq<char>>,
    pub idp_token_url: Option<Seq<char>>,
    pub idp_registration_url: Option<Seq<char>>,
    pub idp_revocation_url: Option<Seq<char>>,
    pub oauth_callback_url: Option<Seq<char>>,
    pub mcp_server_url: Option<Seq<char>>,
    pub e2ee_enabled: bool,
    pub crypto_store_path: Option<Seq<char>>,
    pub debug: bool,
    pub skip_matrix_init: bool,
}

/// An optional string by its characters.
pub open spec fn opt_view(o: Option<String>) -> Option<Seq<char>> {
    match o {
        Some(s) => Some(s@),
        None => None,
    }
}

impl View for Config {
    type V = ConfigView;

    open spec fn view(&self) -> ConfigView {
        ConfigView {
            matrix_homeserver_url: self.matrix_homeserver_url@,
            matrix_access_token: self.matrix_access_token@,
            matrix_user_id: self.matrix_user_id@,
            matrix_domain: opt_view(self.matrix_domain),
            matrix_client_id: opt_view(self.matrix_client_id),
            matrix_client_secret: opt_view(self.matrix_client_secret),
            port: self.port,
            enable_oauth: self.enable_oauth,
            enable_token_exchange: self.enable_token_exchange,
            enable_https: self.enable_https,
            ssl_key_path: opt_view(self.ssl_key_path),
            ssl_cert_path: opt_view(self.ssl_cert_path),
            cors_allowed_origins: opt_view(self.cors_allowed_origins),
            idp_issuer_url: opt_view(self.idp_issuer_url),
            idp_authorization_url: opt_view(self.idp_authorization_url),
            idp_token_url: opt_view(self.idp_token_url),
            idp_registration_url: opt_view(self.idp_registration_url),
            idp_revocation_url: opt_view(self.idp_revocation_url),
            oauth_callback_url: opt_view(self.oauth_callback_url),
            mcp_server_url: opt_view(self.mcp_server_url),
            e2ee_enabled: self.e2ee_enabled,
            crypto_store_path: opt_view(self.crypto_store_path),
            debug: self.debug,
            skip_matrix_init: self.skip_matrix_init,
        }
    }
}

/// The value of the first variable named `name` in `vars`, a list of (name, value) pairs.
pub open spec fn env_lookup(vars: Seq<(String, String)>, name: Seq<char>) -> Option<Seq<char>>
    decreases vars.len(),
{
    if vars.len() == 0 {
        None
    } else if vars[0].0@ == name {
        Some(vars[0].1@)
    } else {
        env_lookup(vars.drop_first(), name)
    }
}

/// A flag that is on exactly when its variable reads `true`.
pub open spec fn flag_true(v: Option<Seq<char>>) -> bool {
    v == Some("true"@)
}

/// A flag that is on exactly when its variable reads `true` or `1`.
pub open spec fn flag_true_or_one(v: Option<Seq<char>>) -> bool {
    v == Some("true"@) || v == Some("1"@)
}

/// The port: `PORT` if set, else `MCP_PORT`; 3000 when neither is set or the one read is not a number.
pub open spec fn spec_port(vars: Seq<(String, String)>) -> u16 {
    let chosen = match env_lookup(vars, "PORT"@) {
        Some(v) => Some(v),
        None => env_lookup(vars, "MCP_PORT"@),
    };
    match chosen {
        Some(v) => match spec_parse_u16(v) {
            Some(p) => p,
            None => 3000,
        },
        None => 3000,
    }
}

/// The configuration that the variables `vars` describe, or the message of the error.
pub open spec fn spec_config_from_env(vars: Seq<(String, String)>) -> Result<ConfigView, Seq<char>> {
    let url = env_lookup(vars, "MATRIX_HOMESERVER_URL"@);
    let token = env_lookup(vars, "MATRIX_ACCESS_TOKEN"@);
    let user = env_lookup(vars, "MATRIX_USER_ID"@);
    if url is None {
        Err("MATRIX_HOMESERVER_URL environment variable is required"@)
    } else if token is None {
        Err("MATRIX_ACCESS_TOKEN environment variable is required"@)
    } else if user is None {
        Err("MATRIX_USER_ID environment variable is required"@)
    } else {
        Ok(
            ConfigView {
                matrix_homeserver_url: url->0,
                matrix_access_token: token->0,
                matrix_user_id: user->0,
                matrix_domain: env_lookup(vars, "MATRIX_DOMAIN"@),
                matrix_client_id: env_lookup(vars, "MATRIX_CLIENT_ID"@),
                matrix_client_secret: env_lookup(vars, "MATRIX_CLIENT_SECRET"@),
                port: spec_port(vars),
                enable_oauth: flag_true(env_lookup(vars, "ENABLE_OAUTH"@)),
                enable_token_exchange: flag_true(env_lookup(vars, "ENABLE_TOKEN_EXCHANGE"@)),
                enable_https: flag_true(env_lookup(vars, "ENABLE_HTTPS"@)),
                ssl_key_path: env_lookup(vars, "SSL_KEY_PATH"@),
                ssl_cert_path: env_lookup(vars, "SSL_CERT_PATH"@),
                cors_allowed_origins: env_lookup(vars, "CORS_ALLOWED_ORIGINS"@),
                idp_issuer_url: env_lookup(vars, "IDP_ISSUER_URL"@),
                idp_authorization_url: env_lookup(vars, "IDP_AUTHORIZATION_URL"@),
                idp_token_url: env_lookup(vars, "IDP_TOKEN_URL"@),
                idp_registration_url: env_lookup(vars, "IDP_REGISTRATION_URL"@),
                idp_revocation_url: env_lookup(vars, "IDP_REVOCATION_URL"@),
                oauth_callback_url: env_lookup(vars, "OAUTH_CALLBACK_URL"@),
                mcp_server_url: env_lookup(vars, "MCP_SERVER_URL"@),
                e2ee_enabled: flag_true_or_one(env_lookup(vars, "E2EE_ENABLED"@)),
                crypto_store_path: env_lookup(vars, "CRYPTO_STORE_PATH"@),
                debug: flag_true_or_one(env_lookup(vars, "DEBUG"@)),
                skip_matrix_init: flag_true(env_lookup(vars, "SKIP_MATRIX_INIT"@)),
            },
        )
    }
}

/// The message of the error for a homeserver URL without an HTTP scheme.
pub open spec fn bad_url_message() -> Seq<char> {
    "MATRIX_HOMESERVER_URL must start with http:// or https://"@
}

/// The message of the error for a malformed user id.
pub open spec fn bad_user_id_message() -> Seq<char> {
    "MATRIX_USER_ID must be in format @user:domain.com"@
}

/// Whether a homeserver URL is accepted: it starts with `http://` or `https://`.
pub open spec fn url_ok(url: Seq<char>) -> bool {
    "http://"@.is_prefix_of(url) || "https://"@.is_prefix_of(url)
}

/// Whether a user id is accepted: it starts with `@` and holds a `:`.
pub open spec fn user_id_ok(user_id: Seq<char>) -> bool {
    user_id.len() > 0 && user_id[0] == '@' && user_id.contains(':')
}

/// The configuration can be read exactly when the homeserver URL, the access
/// token and the user id are all set.
pub proof fn law_required_variables(vars: Seq<(String, String)>)
    ensures
        spec_config_from_env(vars) is Ok <==> (env_lookup(vars, "MATRIX_HOMESERVER_URL"@) is Some
            && env_lookup(vars, "MATRIX_ACCESS_TOKEN"@) is Some && env_lookup(
            vars,
            "MATRIX_USER_ID"@,
        ) is Some),
{
}

/// The required variables are copied into the configuration as they are.
pub proof fn law_required_values_kept(vars: Seq<(String, String)>)
    requires
        spec_config_from_env(vars) is Ok,
    ensures
        Some(spec_config_from_env(vars)->Ok_0.matrix_homeserver_url) == env_lookup(
            vars,
            "MATRIX_HOMESERVER_URL"@,
        ),
        Some(spec_config_from_env(vars)->Ok_0.matrix_access_token) == env_lookup(
            vars,
            "MATRIX_ACCESS_TOKEN"@,
        ),
        Some(spec_config_from_env(vars)->Ok_0.matrix_user_id) == env_lookup(vars, "MATRIX_USER_ID"@),
{
}

/// A port set in `PORT` is the port, whatever `MCP_PORT` says.
pub proof fn law_port_variable_wins(vars: Seq<(String, String)>, port: u16)
    requires
        env_lookup(vars, "PORT"@) == Some(decimal(port as nat)),
    ensures
        spec_port(vars) == port,
{
    law_decimal_reads_back(port);
}

/// Without `PORT`, a port set in `MCP_PORT` is the port.
pub proof fn law_mcp_port_fallback(vars: Seq<(String, String)>, port: u16)
    requires
        env_lookup(vars, "PORT"@) is None,
        env_lookup(vars, "MCP_PORT"@) == Some(decimal(port as nat)),
    ensures
        spec_port(vars) == port,
{
    law_decimal_reads_back(port);
}

/// Without either variable the port is 3000.
pub proof fn law_port_default(vars: Seq<(String, String)>)
    requires
        env_lookup(vars, "PORT"@) is None,
        env_lookup(vars, "MCP_PORT"@) is None,
    ensures
        spec_port(vars) == 3000,
{
}

/// A user id is accepted only when it starts with `@` and holds a `:`, and
/// every `@{localpart}:{server}` is accepted.
pub proof fn law_user_id_form(user_id: Seq<char>, localpart: Seq<char>, server: Seq<char>)
    ensures
        user_id_ok(user_id) ==> user_id.len() > 0 && user_id[0] == '@',
        user_id_ok(user_id) ==> exists|i: int| 0 <= i < user_id.len() && user_id[i] == ':',
        user_id_ok(seq!['@'] + localpart + seq![':'] + server),
{
    let u = seq!['@'] + localpart + seq![':'] + server;
    assert(u[localpart.len() + 1 as int] == ':');
    assert(u.contains(':'));
}

/// A homeserver URL is accepted exactly when it starts with `http://` or
/// `https://`, whatever follows.
pub proof fn law_url_form(url: Seq<char>, rest: Seq<char>)
    ensures
        url_ok("http://"@ + rest),
        url_ok("https://"@ + rest),
        url_ok(url) ==> url.len() >= 7 && url[0] == 'h' && url[1] == 't' && url[2] == 't' && url[3] == 'p',
{
    reveal_strlit("http://");
    reveal_strlit("https://");
    assert(("http://"@ + rest).subrange(0, 7) =~= "http://"@);
    assert(("https://"@ + rest).subrange(0, 8) =~= "https://"@);
    if url_ok(url) {
        if "http://"@.is_prefix_of(url) {
            assert(url[0] == "http://"@[0]);
            assert(url[1] == "http://"@[1]);
            assert(url[2] == "http://"@[2]);
            assert(url[3] == "http://"@[3]);
        } else {
            assert(url[0] == "https://"@[0]);
            assert(url[1] == "https://"@[1]);
            assert(url[2] == "https://"@[2]);
            assert(url[3] == "https://"@[3]);
        }
    }
}

/// The value of the first variable named `name`.
pub fn lookup_var(vars: &Vec<(String, String)>, name: &str) -> (r: Option<String>)
    ensures
        opt_view(r) == env_lookup(vars@, name@),
{
    let mut i: usize = 0;
    assert(vars@.subrange(0, vars@.len() as int) =~= vars@);
    while i < vars.len()
        invariant
            i <= vars@.len(),
            env_lookup(vars@, name@) == env_lookup(vars@.subrange(i as int, vars@.len() as int), name@),
        decreases vars@.len() - i,
    {
        let ghost rest = vars@.subrange(i as int, vars@.len() as int);
        assert(rest.drop_first() =~= vars@.subrange(i + 1, vars@.len() as int));
        if str_eq(vars[i].0.as_str(), name) {
            return Some(vars[i].1.clone());
        }
        i = i + 1;
    }
    assert(vars@.subrange(i as int, vars@.len() as int).len() == 0);
    None
}

fn read_flag(vars: &Vec<(String, String)>, name: &str) -> (r: bool)
    ensures
        r == flag_true(env_lookup(vars@, name@)),
{
    match lookup_var(vars, name) {
        Some(v) => str_eq(v.as_str(), "true"),
        None => false,
    }
}

fn read_flag_or_one(vars: &Vec<(String, String)>, name: &str) -> (r: bool)
    ensures
        r == flag_true_or_one(env_lookup(vars@, name@)),
{
    match lookup_var(vars, name) {
        Some(v) => str_eq(v.as_str(), "true") || str_eq(v.as_str(), "1"),
        None => false,
    }
}

fn read_port(vars: &Vec<(String, String)>) -> (r: u16)
    ensures
        r == spec_port(vars@),
{
    let chosen = match lookup_var(vars, "PORT") {
        Some(v) => Some(v),
        None => lookup_var(vars, "MCP_PORT"),
    };
    match chosen {
        Some(v) => match parse_u16(v.as_str()) {
            Some(p) => p,
            None => 3000,
        },
        None => 3000,
    }
}

impl Config {
    /// Reads the configuration from environment variables, given as (name, value) pairs.
    /// The homeserver URL, access token and user id are required; the port defaults to 3000.
    pub fn from_env(vars: &Vec<(String, String)>) -> (r: Result<Config, AppError>)
        ensures
            match r {
                Ok(c) => spec_config_from_env(vars@) == Ok::<ConfigView, Seq<char>>(c@),
                Err(e) => e matches AppError::Config(m) && spec_config_from_env(vars@) == Err::<
                    ConfigView,
                    Seq<char>,
                >(m@),
            },
    {
        let matrix_homeserver_url = match lookup_var(vars, "MATRIX_HOMESERVER_URL") {
            Some(v) => v,
            None => {
                return Err(
                    AppError::Config(
                        String::from_str("MATRIX_HOMESERVER_URL environment variable is required"),
                    ),
                );
            },
        };
        let matrix_access_token = match lookup_var(vars, "MATRIX_ACCESS_TOKEN") {
            Some(v) => v,
            None => {
                return Err(
                    AppError::Config(
                        String::from_str("MATRIX_ACCESS_TOKEN environment variable is required"),
                    ),
                );
            },
        };
        let matrix_user_id = match lookup_var(vars, "MATRIX_USER_ID") {
            Some(v) => v,
            None => {
                return Err(
                    AppError::Config(String::from_str("MATRIX_USER_ID environment variable is required")),
                );
            },
        };
        let port = read_port(vars);
        let c = Config {
            matrix_homeserver_url,
            matrix_access_token,
            matrix_user_id,
            matrix_domain: lookup_var(vars, "MATRIX_DOMAIN"),
            matrix_client_id: lookup_var(vars, "MATRIX_CLIENT_ID"),
            matrix_client_secret: lookup_var(vars, "MATRIX_CLIENT_SECRET"),
            port,
            enable_oauth: read_flag(vars, "ENABLE_OAUTH"),
            enable_token_exchange: read_flag(vars, "ENABLE_TOKEN_EXCHANGE"),
            enable_https: read_flag(vars, "ENABLE_HTTPS"),
            ssl_key_path: lookup_var(vars, "SSL_KEY_PATH"),
            ssl_cert_path: lookup_var(vars, "SSL_CERT_PATH"),
            cors_allowed_origins: lookup_var(vars, "CORS_ALLOWED_ORIGINS"),
            idp_issuer_url: lookup_var(vars, "IDP_ISSUER_URL"),
            idp_authorization_url: lookup_var(vars, "IDP_AUTHORIZATION_URL"),
            idp_token_url: lookup_var(vars, "IDP_TOKEN_URL"),
            idp_registration_url: lookup_var(vars, "IDP_REGISTRATION_URL"),
            idp_revocation_url: lookup_var(vars, "IDP_REVOCATION_URL"),
            oauth_callback_url: lookup_var(vars, "OAUTH_CALLBACK_URL"),
            mcp_server_url: lookup_var(vars, "MCP_SERVER_URL"),
            e2ee_enabled: read_flag_or_one(vars, "E2EE_ENABLED"),
            crypto_store_path: lookup_var(vars, "CRYPTO_STORE_PATH"),
            debug: read_flag_or_one(vars, "DEBUG"),
            skip_matrix_init: read_flag(vars, "SKIP_MATRIX_INIT"),
        };
        Ok(c)
    }

    /// Checks that the homeserver URL has an HTTP scheme and that the user id
    /// has the form `@user:domain`; the URL is checked first.
    pub fn validate(&self) -> (r: Result<(), AppError>)
        ensures
            r is Ok <==> url_ok(self.matrix_homeserver_url@) && user_id_ok(self.matrix_user_id@),
            r matches Err(e) ==> e matches AppError::Config(m) && m@ == (if !url_ok(
                self.matrix_homeserver_url@,
            ) {
                bad_url_message()
            } else {
                bad_user_id_message()
            }),
    {
        let url = self.matrix_homeserver_url.as_str();
        if !starts_with(url, "http://") && !starts_with(url, "https://") {
            return Err(
                AppError::Config(
                    String::from_str("MATRIX_HOMESERVER_URL must start with http:// or https://"),
                ),
            );
        }
        let user = self.matrix_user_id.as_str();
        if !starts_with(user, "@") || !contains_char(user, ':') {
            proof {
                reveal_strlit("@");
            }
            return Err(
                AppError::Config(String::from_str("MATRIX_USER_ID must be in format @user:domain.com")),
            );
        }
        proof {
            reveal_strlit("@");
            assert("@"@.is_prefix_of(user@) ==> user@[0] == "@"@[0]);
        }
        Ok(())
    }
}

} // verus!
