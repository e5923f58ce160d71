//! The operations offered to the user interface. Each is a request to the
//! worker: a fixed method name and the parameters put together from the
//! operation's arguments.

use crate::json::{
    json_object, json_opt_bool, json_opt_str, json_str, json_strings, members_view, opt_bool_json,
    opt_str_json, push_member, strings_json, JsonValue, JsonView,
};
use crate::locate::Platform;
use crate::supervisor::{
    runtime_missing_marker, runtime_missing_text, script_missing_marker, script_missing_text,
    SidecarManager,
};
use crate::text::{contains, has_substring, occurs_at};
use vstd::prelude::*;
use vstd::string::*;

verus! {

/// How to reach the vault that holds an application's credential.
#[derive(Debug, Clone, PartialEq, Eq)]
pub struct KeyVaultConfig {
    pub uri: String,
    pub credential_type: String,
    pub cert_name: Option<String>,
    pub secret_name: Option<String>,
}

/// The application to acquire a token for.
#[derive(Debug, Clone, PartialEq, Eq)]
pub struct TokenAppConfig {
    pub client_id: String,
    pub tenant_id: String,
    pub key_vault: KeyVaultConfig,
}

/// A token as the worker returns it.
#[derive(Debug, Clone, PartialEq, Eq)]
pub struct TokenResponse {
    pub access_token: String,
    pub expires_on: String,
    pub token_type: String,
    pub scopes: Option<Vec<String>>,
}

/// The outcome of validating a vault's configuration.
#[derive(Debug, Clone, PartialEq, Eq)]
pub struct ValidationResult {
    pub valid: bool,
    pub credential_type: String,
    pub message: Option<String>,
}

/// Whether a credential store is available.
#[derive(Debug, Clone, PartialEq, Eq)]
pub struct CredentialStatus {
    pub available: bool,
    pub message: String,
}

/// Filters for listing application registrations.
#[derive(Debug, Clone, PartialEq, Eq)]
pub struct AzureAppFilters {
    pub search: Option<String>,
    pub app_id: Option<String>,
    pub display_name: Option<String>,
    pub identifier_uri: Option<String>,
    pub filter: Option<String>,
    pub show_mine: Option<bool>,
    pub all: Option<bool>,
}

/// A request to the worker: the method and its parameters.
#[derive(Debug, PartialEq, Eq)]
pub struct RpcCall {
    pub method: String,
    pub params: JsonValue,
}

fn no_members() -> (out: Vec<(String, JsonValue)>)
    ensures
        members_view(out@) == Seq::<(Seq<char>, JsonView)>::empty(),
{
    let out: Vec<(String, JsonValue)> = Vec::new();
    assert(members_view(out@) =~= Seq::empty());
    out
}

fn call(method: &str, members: Vec<(String, JsonValue)>) -> (out: RpcCall)
    ensures
        out.method@ == method@,
        out.params@ == JsonView::Object(members_view(members@)),
{
    RpcCall { method: method.to_owned(), params: json_object(members) }
}

impl KeyVaultConfig {
    /// The JSON form of this configuration.
    pub open spec fn json(self) -> JsonView {
        JsonView::Object(
            seq![
                ("uri"@, JsonView::Str(self.uri@)),
                ("credentialType"@, JsonView::Str(self.credential_type@)),
                ("certName"@, opt_str_json(self.cert_name)),
                ("secretName"@, opt_str_json(self.secret_name)),
            ],
        )
    }

    /// The JSON form of this configuration. An absent name is `null`.
    pub fn to_json(&self) -> (out: JsonValue)
        ensures
            out@ == self.json(),
    {
        let mut m = no_members();
        push_member(&mut m, "uri", json_str(self.uri.as_str()));
        push_member(&mut m, "credentialType", json_str(self.credential_type.as_str()));
        push_member(&mut m, "certName", json_opt_str(&self.cert_name));
        push_member(&mut m, "secretName", json_opt_str(&self.secret_name));
        assert(members_view(m@) =~= self.json()->Object_0);
        json_object(m)
    }
}

impl TokenAppConfig {
    /// The JSON form of this configuration.
    pub open spec fn json(self) -> JsonView {
        JsonView::Object(
            seq![
                ("clientId"@, JsonView::Str(self.client_id@)),
                ("tenantId"@, JsonView::Str(self.tenant_id@)),
                ("keyVault"@, self.key_vault.json()),
            ],
        )
    }

    /// The JSON form of this configuration.
    pub fn to_json(&self) -> (out: JsonValue)
        ensures
            out@ == self.json(),
    {
        let mut m = no_members();
        push_member(&mut m, "clientId", json_str(self.client_id.as_str()));
        push_member(&mut m, "tenantId", json_str(self.tenant_id.as_str()));
        push_member(&mut m, "keyVault", self.key_vault.to_json());
        assert(members_view(m@) =~= self.json()->Object_0);
        json_object(m)
    }
}

impl AzureAppFilters {
    /// The JSON form of these filters.
    pub open spec fn json(self) -> JsonView {
        JsonView::Object(
            seq![
                ("search"@, opt_str_json(self.search)),
                ("appId"@, opt_str_json(self.app_id)),
                ("displayName"@, opt_str_json(self.display_name)),
                ("identifierUri"@, opt_str_json(self.identifier_uri)),
                ("filter"@, opt_str_json(self.filter)),
                ("showMine"@, opt_bool_json(self.show_mine)),
                ("all"@, opt_bool_json(self.all)),
            ],
        )
    }

    /// The JSON form of these filters. A filter that is not set is `null`.
    pub fn to_json(&self) -> (out: JsonValue)
        ensures
            out@ == self.json(),
    {
        let mut m = no_members();
        push_member(&mut m, "search", json_opt_str(&self.search));
        push_member(&mut m, "appId", json_opt_str(&self.app_id));
        push_member(&mut m, "displayName", json_opt_str(&self.display_name));
        push_member(&mut m, "identifierUri", json_opt_str(&self.identifier_uri));
        push_member(&mut m, "filter", json_opt_str(&self.filter));
        push_member(&mut m, "showMine", json_opt_bool(&self.show_mine));
        push_member(&mut m, "all", json_opt_bool(&self.all));
        assert(members_view(m@) =~= self.json()->Object_0);
        json_object(m)
    }
}

/// Acquire a token for an application with the given scopes.
pub fn acquire_app_token(config: &TokenAppConfig, scopes: &Vec<String>) -> (out: RpcCall)
    ensures
        out.method@ == "acquire_app_token"@,
        out.params@ == JsonView::Object(
            seq![("config"@, config.json()), ("scopes"@, strings_json(scopes@))],
        ),
{
    let mut m = no_members();
    push_member(&mut m, "config", config.to_json());
    push_member(&mut m, "scopes", json_strings(scopes));
    assert(members_view(m@) =~= seq![("config"@, config.json()), ("scopes"@, strings_json(scopes@))]);
    call("acquire_app_token", m)
}

/// Check that the vault of `config` can be reached.
pub fn validate_keyvault(config: &KeyVaultConfig) -> (out: RpcCall)
    ensures
        out.method@ == "validate_keyvault"@,
        out.params@ == config.json(),
{
    RpcCall { method: "validate_keyvault".to_owned(), params: config.to_json() }
}

/// Ask whether a credential store is available.
pub fn get_credential_status() -> (out: RpcCall)
    ensures
        out.method@ == "get_credential_status"@,
        out.params@ == JsonView::Object(Seq::empty()),
{
    call("get_credential_status", no_members())
}

/// List the subscriptions of the signed-in account.
pub fn list_azure_subscriptions() -> (out: RpcCall)
    ensures
        out.method@ == "list_azure_subscriptions"@,
        out.params@ == JsonView::Object(Seq::empty()),
{
    call("list_azure_subscriptions", no_members())
}

/// List application registrations, filtered if filters are given.
pub fn list_azure_apps(filters: &Option<AzureAppFilters>) -> (out: RpcCall)
    ensures
        out.method@ == "list_azure_apps"@,
        out.params@ == match *filters {
            Some(f) => f.json(),
            None => JsonView::Object(Seq::empty()),
        },
{
    match filters {
        Some(f) => RpcCall { method: "list_azure_apps".to_owned(), params: f.to_json() },
        None => call("list_azure_apps", no_members()),
    }
}

/// List the vaults of a subscription, or of the default one.
pub fn list_keyvaults(subscription_id: &Option<String>) -> (out: RpcCall)
    ensures
        out.method@ == "list_keyvaults"@,
        out.params@ == JsonView::Object(seq![("subscriptionId"@, opt_str_json(*subscription_id))]),
{
    let mut m = no_members();
    push_member(&mut m, "subscriptionId", json_opt_str(subscription_id));
    assert(members_view(m@) =~= seq![("subscriptionId"@, opt_str_json(*subscription_id))]);
    call("list_keyvaults", m)
}

/// The parameters that name a vault.
pub open spec fn vault_params(vault_name: Seq<char>, subscription_id: Option<String>) -> JsonView {
    JsonView::Object(
        seq![
            ("vaultName"@, JsonView::Str(vault_name)),
            ("subscriptionId"@, opt_str_json(subscription_id)),
        ],
    )
}

fn vault_call(method: &str, vault_name: &str, subscription_id: &Option<String>) -> (out: RpcCall)
    ensures
        out.method@ == method@,
        out.params@ == vault_params(vault_name@, *subscription_id),
{
    let mut m = no_members();
    push_member(&mut m, "vaultName", json_str(vault_name));
    push_member(&mut m, "subscriptionId", json_opt_str(subscription_id));
    assert(members_view(m@) =~= vault_params(vault_name@, *subscription_id)->Object_0);
    call(method, m)
}

/// List the secrets of a vault.
pub fn list_keyvault_secrets(vault_name: &str, subscription_id: &Option<String>) -> (out: RpcCall)
    ensures
        out.method@ == "list_keyvault_secrets"@,
        out.params@ == vault_params(vault_name@, *subscription_id),
{
    vault_call("list_keyvault_secrets", vault_name, subscription_id)
}

/// List the certificates of a vault.
pub fn list_keyvault_certificates(vault_name: &str, subscription_id: &Option<String>) -> (out:
    RpcCall)
    ensures
        out.method@ == "list_keyvault_certificates"@,
        out.params@ == vault_params(vault_name@, *subscription_id),
{
    vault_call("list_keyvault_certificates", vault_name, subscription_id)
}

/// Acquire a token for a user, interactively unless `silent_only` is set.
pub fn acquire_user_token(
    client_id: &str,
    tenant_id: &str,
    scopes: &Vec<String>,
    prompt: &Option<String>,
    account_home_account_id: &Option<String>,
    silent_only: &Option<bool>,
) -> (out: RpcCall)
    ensures
        out.method@ == "acquire_user_token"@,
        out.params@ == JsonView::Object(
            seq![
                ("clientId"@, JsonView::Str(client_id@)),
                ("tenantId"@, JsonView::Str(tenant_id@)),
                ("scopes"@, strings_json(scopes@)),
                ("prompt"@, opt_str_json(*prompt)),
                ("accountHomeAccountId"@, opt_str_json(*account_home_account_id)),
                ("silentOnly"@, opt_bool_json(*silent_only)),
            ],
        ),
{
    let mut m = no_members();
    push_member(&mut m, "clientId", json_str(client_id));
    push_member(&mut m, "tenantId", json_str(tenant_id));
    push_member(&mut m, "scopes", json_strings(scopes));
    push_member(&mut m, "prompt", json_opt_str(prompt));
    push_member(&mut m, "accountHomeAccountId", json_opt_str(account_home_account_id));
    push_member(&mut m, "silentOnly", json_opt_bool(silent_only));
    assert(members_view(m@) =~= seq![
        ("clientId"@, JsonView::Str(client_id@)),
        ("tenantId"@, JsonView::Str(tenant_id@)),
        ("scopes"@, strings_json(scopes@)),
        ("prompt"@, opt_str_json(*prompt)),
        ("accountHomeAccountId"@, opt_str_json(*account_home_account_id)),
        ("silentOnly"@, opt_bool_json(*silent_only)),
    ]);
    call("acquire_user_token", m)
}

/// The parameters that name a client in a tenant.
pub open spec fn client_params(client_id: Seq<char>, tenant_id: Seq<char>) -> JsonView {
    JsonView::Object(
        seq![("clientId"@, JsonView::Str(client_id)), ("tenantId"@, JsonView::Str(tenant_id))],
    )
}

fn client_call(method: &str, client_id: &str, tenant_id: &str) -> (out: RpcCall)
    ensures
        out.method@ == method@,
        out.params@ == client_params(client_id@, tenant_id@),
{
    let mut m = no_members();
    push_member(&mut m, "clientId", json_str(client_id));
    push_member(&mut m, "tenantId", json_str(tenant_id));
    assert(members_view(m@) =~= client_params(client_id@, tenant_id@)->Object_0);
    call(method, m)
}

/// List the cached accounts of a client.
pub fn get_user_accounts(client_id: &str, tenant_id: &str) -> (out: RpcCall)
    ensures
        out.method@ == "get_user_accounts"@,
        out.params@ == client_params(client_id@, tenant_id@),
{
    client_call("get_user_accounts", client_id, tenant_id)
}

/// Forget the cached accounts and tokens of a client.
pub fn clear_user_cache(client_id: &str, tenant_id: &str) -> (out: RpcCall)
    ensures
        out.method@ == "clear_user_cache"@,
        out.params@ == client_params(client_id@, tenant_id@),
{
    client_call("clear_user_cache", client_id, tenant_id)
}

/// Ask how the token cache is stored.
pub fn get_auth_storage_status() -> (out: RpcCall)
    ensures
        out.method@ == "get_auth_storage_status"@,
        out.params@ == JsonView::Object(Seq::empty()),
{
    call("get_auth_storage_status", no_members())
}

/// The code that classifies the reason of a failed start: one for a
/// missing runtime, one for a missing entry script, none for anything else.
pub open spec fn error_code_of(error: Seq<char>) -> Option<Seq<char>> {
    if has_substring(error, runtime_missing_marker()) {
        Some("NODE_NOT_FOUND"@)
    } else if has_substring(error, script_missing_marker()) {
        Some("SIDECAR_SCRIPT_NOT_FOUND"@)
    } else {
        None
    }
}

/// The code that classifies the reason of a failed start.
pub fn error_code(error: &str) -> (out: Option<&'static str>)
    ensures
        match out {
            Some(code) => error_code_of(error@) == Some(code@),
            None => error_code_of(error@) is None,
        },
{
    if contains(error, "[NODE_NOT_FOUND]") {
        Some("NODE_NOT_FOUND")
    } else if contains(error, "Could not find sidecar") {
        Some("SIDECAR_SCRIPT_NOT_FOUND")
    } else {
        None
    }
}

/// The health report for a worker: whether it runs, the reason of the
/// last failed start, and that reason's code; `null` where there is none.
pub open spec fn health_of(running: bool, error: Option<Seq<char>>) -> JsonView {
    JsonView::Object(
        seq![
            ("running"@, JsonView::Bool(running)),
            (
                "error"@,
                match error {
                    Some(e) => JsonView::Str(e),
                    None => JsonView::Null,
                },
            ),
            (
                "errorCode"@,
                match error {
                    Some(e) => match error_code_of(e) {
                        Some(code) => JsonView::Str(code),
                        None => JsonView::Null,
                    },
                    None => JsonView::Null,
                },
            ),
        ],
    )
}

/// Reports the worker's health. No request is sent for it.
pub fn check_sidecar_health(manager: &SidecarManager) -> (out: JsonValue)
    ensures
        out@ == health_of(manager@.state is Running, manager@.last_error()),
{
    let error = manager.last_error();
    let code = match &error {
        Some(e) => match error_code(e.as_str()) {
            Some(code) => json_str(code),
            None => JsonValue::Null,
        },
        None => JsonValue::Null,
    };
    let mut m = no_members();
    push_member(&mut m, "running", JsonValue::Bool(manager.is_running()));
    push_member(&mut m, "error", json_opt_str(&error));
    push_member(&mut m, "errorCode", code);
    assert(members_view(m@) =~= health_of(
        manager@.state is Running,
        manager@.last_error(),
    )->Object_0);
    json_object(m)
}

/// The reason of a start that found no runtime is classified as such.
pub proof fn law_missing_runtime_is_classified(platform: Platform)
    ensures
        error_code_of(runtime_missing_text(platform)) == Some("NODE_NOT_FOUND"@),
{
    let text = runtime_missing_text(platform);
    let marker = runtime_missing_marker();
    assert(text.subrange(0, marker.len() as int) =~= marker);
    assert(occurs_at(text, marker, 0));
}

/// The reason of a start that found no entry script is classified as such,
/// unless a checked path holds the marker of a missing runtime.
pub proof fn law_missing_script_is_classified(checked: Seq<Seq<char>>)
    requires
        !has_substring(script_missing_text(checked), runtime_missing_marker()),
    ensures
        error_code_of(script_missing_text(checked)) == Some("SIDECAR_SCRIPT_NOT_FOUND"@),
{
    let text = script_missing_text(checked);
    let marker = script_missing_marker();
    assert(text.subrange(0, marker.len() as int) =~= marker);
    assert(occurs_at(text, marker, 0));
}

} // verus!
