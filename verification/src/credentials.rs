//! Credentials: where they come from, and what a connection is made with.

use vstd::prelude::*;
use vstd::string::*;

use crate::channels;
use crate::channels::{ChannelError, ChannelErrorView};
use crate::commands;
use crate::json;
use crate::json::{Json, JsonView};
use crate::quality::Quality;
use crate::text;

verus! {

// ---------------------------------------------------------------------------
// Saved and pasted credentials
// ---------------------------------------------------------------------------

/// What reading a file gave.
#[derive(Debug, PartialEq, Eq)]
pub enum FileRead {
    Contents(String),
    NotFound,
    /// With the message of the failure.
    Failed(String),
}

/// A text without white space around it, unless nothing is left.
pub open spec fn said_in(value: Seq<char>) -> Option<Seq<char>> {
    if text::trimmed(value).len() > 0 {
        Some(text::trimmed(value))
    } else {
        None
    }
}

/// A text without white space around it, unless nothing is left.
pub fn said_text(value: &str) -> (r: Option<String>)
    ensures
        commands::setting_view(r) == said_in(value@),
{
    let said = value.trim();
    if said.is_empty() {
        None
    } else {
        Some(said.to_owned())
    }
}

/// What a secret, or the failure to read one, says.
pub open spec fn secret_view(secret: Result<Option<String>, String>) -> Result<
    Option<Seq<char>>,
    Seq<char>,
> {
    match secret {
        Ok(value) => Ok(commands::setting_view(value)),
        Err(message) => Err(message@),
    }
}

/// The secret that a file holds: none when there is no file or nothing in it.
pub open spec fn secret_in(read: FileRead) -> Result<Option<Seq<char>>, Seq<char>> {
    match read {
        FileRead::Contents(contents) => Ok(said_in(contents@)),
        FileRead::NotFound => Ok(None),
        FileRead::Failed(message) => Err(message@),
    }
}

pub fn read_optional_secret_file(read: FileRead) -> (r: Result<Option<String>, String>)
    ensures
        secret_view(r) == secret_in(read),
{
    match read {
        FileRead::Contents(contents) => Ok(said_text(contents.as_str())),
        FileRead::NotFound => Ok(None),
        FileRead::Failed(message) => Err(message),
    }
}

/// The saved app id, from what reading its file gave.
pub fn load_saved_app_id(read: FileRead) -> (r: Result<Option<String>, String>)
    ensures
        secret_view(r) == secret_in(read),
{
    read_optional_secret_file(read)
}

/// The saved user token, from what reading its file gave.
pub fn load_saved_user_auth_token(read: FileRead) -> (r: Result<Option<String>, String>)
    ensures
        secret_view(r) == secret_in(read),
{
    read_optional_secret_file(read)
}

/// What was typed when `name` was asked for, which may not be blank.
pub fn prompt_required(name: &str, typed: &str) -> (r: Result<String, String>)
    ensures
        match r {
            Ok(value) => said_in(typed@) == Some(value@),
            Err(message) => said_in(typed@) is None && message@ == name@ + " cannot be empty"@,
        },
{
    match said_text(typed) {
        Some(value) => Ok(value),
        None => {
            let mut message = name.to_owned();
            message.append(" cannot be empty");
            Err(message)
        },
    }
}

/// The name of the file that the app id is saved in.
pub fn app_id_file() -> (r: &'static str)
    ensures
        r@ == "app_id"@,
{
    "app_id"
}

/// The name of the file that the user token is saved in.
pub fn user_auth_token_file() -> (r: &'static str)
    ensures
        r@ == "user_auth_token"@,
{
    "user_auth_token"
}

/// A secret as it is saved: the name of its file, and what the file is to hold.
#[derive(Debug, PartialEq, Eq)]
pub struct SecretFile {
    pub name: String,
    pub contents: String,
}

#[verifier::ext_equal]
pub struct SecretFileView {
    pub name: Seq<char>,
    pub contents: Seq<char>,
}

impl View for SecretFile {
    type V = SecretFileView;

    open spec fn view(&self) -> SecretFileView {
        SecretFileView { name: self.name@, contents: self.contents@ }
    }
}

/// What is saved of an app id: all of it.
pub fn save_app_id(app_id: &str) -> (r: SecretFile)
    ensures
        r@ == (SecretFileView { name: "app_id"@, contents: app_id@ }),
{
    SecretFile { name: app_id_file().to_owned(), contents: app_id.to_owned() }
}

/// What is saved of a user token: all of it.
pub fn save_user_auth_token(token: &str) -> (r: SecretFile)
    ensures
        r@ == (SecretFileView { name: "user_auth_token"@, contents: token@ }),
{
    SecretFile { name: user_auth_token_file().to_owned(), contents: token.to_owned() }
}

/// What is left to do for saving credentials as they are given.
#[derive(Debug, PartialEq, Eq)]
pub enum LoginStep {
    /// Ask for the setting of this name.
    Ask(String),
    /// Save the app id, and then the user token.
    Save(SecretFile, SecretFile),
}

pub enum LoginStepView {
    Ask(Seq<char>),
    Save(SecretFileView, SecretFileView),
}

impl View for LoginStep {
    type V = LoginStepView;

    open spec fn view(&self) -> LoginStepView {
        match self {
            LoginStep::Ask(name) => LoginStepView::Ask(name@),
            LoginStep::Save(app_id, token) => LoginStepView::Save(app_id@, token@),
        }
    }
}

/// What is left to do with the credentials that are there: the app id is asked
/// for first, and each is saved in the file of its name.
pub open spec fn login_step(app_id: Option<Seq<char>>, token: Option<Seq<char>>) -> LoginStepView {
    match (app_id, token) {
        (None, _) => LoginStepView::Ask("QOBUZ_APP_ID"@),
        (Some(_), None) => LoginStepView::Ask("QOBUZ_USER_AUTH_TOKEN"@),
        (Some(app_id), Some(token)) => LoginStepView::Save(
            SecretFileView { name: "app_id"@, contents: app_id },
            SecretFileView { name: "user_auth_token"@, contents: token },
        ),
    }
}

/// Saves credentials as they are given, and asks for those that are not.
pub fn manual_login(app_id: &Option<String>, user_auth_token: &Option<String>) -> (r: LoginStep)
    ensures
        r@ == login_step(
            commands::setting_view(*app_id),
            commands::setting_view(*user_auth_token),
        ),
{
    match (app_id, user_auth_token) {
        (None, _) => LoginStep::Ask("QOBUZ_APP_ID".to_owned()),
        (Some(_), None) => LoginStep::Ask("QOBUZ_USER_AUTH_TOKEN".to_owned()),
        (Some(app_id), Some(token)) => LoginStep::Save(
            save_app_id(app_id.as_str()),
            save_user_auth_token(token.as_str()),
        ),
    }
}

// ---------------------------------------------------------------------------
// Credentials from the server
// ---------------------------------------------------------------------------

/// What a connection is made with.
#[derive(Debug, PartialEq, Eq)]
pub struct QwsCredentials {
    pub endpoint: String,
    pub jwt: String,
}

pub struct QwsView {
    pub endpoint: Seq<char>,
    pub jwt: Seq<char>,
}

impl View for QwsCredentials {
    type V = QwsView;

    open spec fn view(&self) -> QwsView {
        QwsView { endpoint: self.endpoint@, jwt: self.jwt@ }
    }
}

/// Why the server's answer has no credentials in it.
#[derive(Debug, PartialEq, Eq)]
pub enum QwsError {
    Refused { status: String, preview: String },
    MissingJwtQws,
    MissingEndpoint,
    MissingJwt,
}

pub enum QwsErrorView {
    Refused { status: Seq<char>, preview: Seq<char> },
    MissingJwtQws,
    MissingEndpoint,
    MissingJwt,
}

impl View for QwsError {
    type V = QwsErrorView;

    open spec fn view(&self) -> QwsErrorView {
        match *self {
            QwsError::Refused { status, preview } => QwsErrorView::Refused {
                status: status@,
                preview: preview@,
            },
            QwsError::MissingJwtQws => QwsErrorView::MissingJwtQws,
            QwsError::MissingEndpoint => QwsErrorView::MissingEndpoint,
            QwsError::MissingJwt => QwsErrorView::MissingJwt,
        }
    }
}

impl QwsErrorView {
    pub open spec fn message(self) -> Seq<char> {
        match self {
            QwsErrorView::Refused { status, preview } => "qws/createToken returned "@ + status
                + ": "@ + preview,
            QwsErrorView::MissingJwtQws => "qws/createToken response missing jwt_qws"@,
            QwsErrorView::MissingEndpoint => "qws/createToken response missing jwt_qws.endpoint"@,
            QwsErrorView::MissingJwt => "qws/createToken response missing jwt_qws.jwt"@,
        }
    }
}

impl QwsError {
    pub fn message(&self) -> (r: String)
        ensures
            r@ == self@.message(),
    {
        match self {
            QwsError::Refused { status, preview } => {
                let mut line = "qws/createToken returned ".to_owned();
                line.append(status.as_str());
                line.append(": ");
                line.append(preview.as_str());
                line
            },
            QwsError::MissingJwtQws => "qws/createToken response missing jwt_qws".to_owned(),
            QwsError::MissingEndpoint =>
                "qws/createToken response missing jwt_qws.endpoint".to_owned(),
            QwsError::MissingJwt => "qws/createToken response missing jwt_qws.jwt".to_owned(),
        }
    }
}

/// How much of a refusal is shown.
pub const PREVIEW_CHARS: usize = 300;

/// The beginning of a text, as much as is shown of it.
pub open spec fn preview_of(s: Seq<char>) -> Seq<char> {
    if s.len() > PREVIEW_CHARS {
        s.take(PREVIEW_CHARS as int)
    } else {
        s
    }
}

fn preview_text(s: &str) -> (r: String)
    ensures
        r@ == preview_of(s@),
{
    if s.unicode_len() > PREVIEW_CHARS {
        let start = s.substring_char(0, PREVIEW_CHARS);
        assert(start@ =~= s@.take(PREVIEW_CHARS as int));
        start.to_owned()
    } else {
        s.to_owned()
    }
}

/// The member `key` of `v`, when that is a text that is not blank.
pub open spec fn solid_text(v: JsonView, key: Seq<char>) -> Option<Seq<char>> {
    match json::member_text(v, key) {
        Some(value) => if text::trimmed(value).len() > 0 {
            Some(value)
        } else {
            None
        },
        None => None,
    }
}

fn get_solid_text(v: &Json, key: &str) -> (r: Option<String>)
    ensures
        commands::setting_view(r) == solid_text(v@, key@),
{
    match v.get_str(key) {
        Some(value) => if value.trim().is_empty() {
            None
        } else {
            Some(value.to_owned())
        },
        None => None,
    }
}

/// The credentials in an answer of the server. `success` and `status` are the
/// answer's status, `written` is `body` as it was written.
pub open spec fn qws_in(success: bool, status: Seq<char>, body: JsonView, written: Seq<char>)
    -> Result<QwsView, QwsErrorView> {
    if !success {
        Err(QwsErrorView::Refused { status, preview: preview_of(written) })
    } else {
        match json::member(body, "jwt_qws"@) {
            None => Err(QwsErrorView::MissingJwtQws),
            Some(jwt_qws) => match solid_text(jwt_qws, "endpoint"@) {
                None => Err(QwsErrorView::MissingEndpoint),
                Some(endpoint) => match solid_text(jwt_qws, "jwt"@) {
                    None => Err(QwsErrorView::MissingJwt),
                    Some(jwt) => Ok(QwsView { endpoint, jwt }),
                },
            },
        }
    }
}

pub open spec fn qws_view(answer: Result<QwsCredentials, QwsError>) -> Result<
    QwsView,
    QwsErrorView,
> {
    match answer {
        Ok(credentials) => Ok(credentials@),
        Err(error) => Err(error@),
    }
}

/// Reads the credentials from an answer of the server.
pub fn read_qws_credentials(success: bool, status: &str, body: &Json, written: &str) -> (r: Result<
    QwsCredentials,
    QwsError,
>)
    ensures
        qws_view(r) == qws_in(success, status@, body@, written@),
{
    if !success {
        return Err(QwsError::Refused { status: status.to_owned(), preview: preview_text(written) });
    }
    match body.get("jwt_qws") {
        None => Err(QwsError::MissingJwtQws),
        Some(jwt_qws) => match get_solid_text(jwt_qws, "endpoint") {
            None => Err(QwsError::MissingEndpoint),
            Some(endpoint) => match get_solid_text(jwt_qws, "jwt") {
                None => Err(QwsError::MissingJwt),
                Some(jwt) => Ok(QwsCredentials { endpoint, jwt }),
            },
        },
    }
}

// ---------------------------------------------------------------------------
// The connection
// ---------------------------------------------------------------------------

/// What the user asks of the client.
#[derive(Debug, PartialEq, Eq)]
pub struct ClientOptions {
    pub endpoint: Option<String>,
    pub jwt_qws: Option<String>,
    pub app_id: Option<String>,
    pub user_auth_token: Option<String>,
    pub device_name: Option<String>,
    pub device_uuid: Option<String>,
    pub subscribe_channels_hex: Vec<String>,
    pub connect_timeout_ms: u64,
    pub reconnect_backoff_ms: u64,
    pub reconnect_backoff_max_ms: u64,
    pub keepalive_interval_ms: u64,
    pub qcloud_proto: u32,
    pub json: bool,
    pub audio_device: Option<String>,
    pub audio_quality: Quality,
    pub enable_mpris: bool,
}

/// What the connection is made with.
#[derive(Debug, PartialEq, Eq)]
pub struct WsTransportConfig {
    pub endpoint_url: String,
    pub jwt_qws: Option<String>,
    pub reconnect_backoff_ms: u64,
    pub reconnect_backoff_max_ms: u64,
    pub connect_timeout_ms: u64,
    pub keepalive_interval_ms: u64,
    pub auto_subscribe: bool,
    pub subscribe_channels: Vec<Vec<u8>>,
    pub qcloud_proto: u32,
}

pub struct ConfigView {
    pub endpoint_url: Seq<char>,
    pub jwt_qws: Option<Seq<char>>,
    pub reconnect_backoff_ms: u64,
    pub reconnect_backoff_max_ms: u64,
    pub connect_timeout_ms: u64,
    pub keepalive_interval_ms: u64,
    pub auto_subscribe: bool,
    pub subscribe_channels: Seq<Seq<u8>>,
    pub qcloud_proto: u32,
}

impl View for WsTransportConfig {
    type V = ConfigView;

    open spec fn view(&self) -> ConfigView {
        ConfigView {
            endpoint_url: self.endpoint_url@,
            jwt_qws: commands::setting_view(self.jwt_qws),
            reconnect_backoff_ms: self.reconnect_backoff_ms,
            reconnect_backoff_max_ms: self.reconnect_backoff_max_ms,
            connect_timeout_ms: self.connect_timeout_ms,
            keepalive_interval_ms: self.keepalive_interval_ms,
            auto_subscribe: self.auto_subscribe,
            subscribe_channels: channels::bytes_view(self.subscribe_channels@),
            qcloud_proto: self.qcloud_proto,
        }
    }
}

/// Why no connection can be made.
#[derive(Debug, PartialEq, Eq)]
pub enum ConfigError {
    MissingAppId,
    MissingUserAuthToken,
    MissingEndpoint,
    Channel(ChannelError),
    MissingAudioToken,
}

pub enum ConfigErrorView {
    MissingAppId,
    MissingUserAuthToken,
    MissingEndpoint,
    Channel(ChannelErrorView),
    MissingAudioToken,
}

impl View for ConfigError {
    type V = ConfigErrorView;

    open spec fn view(&self) -> ConfigErrorView {
        match *self {
            ConfigError::MissingAppId => ConfigErrorView::MissingAppId,
            ConfigError::MissingUserAuthToken => ConfigErrorView::MissingUserAuthToken,
            ConfigError::MissingEndpoint => ConfigErrorView::MissingEndpoint,
            ConfigError::Channel(error) => ConfigErrorView::Channel(error@),
            ConfigError::MissingAudioToken => ConfigErrorView::MissingAudioToken,
        }
    }
}

impl ConfigErrorView {
    pub open spec fn message(self) -> Seq<char> {
        match self {
            ConfigErrorView::MissingAppId =>
                "missing --app-id/QOBUZ_APP_ID; required when --endpoint and --jwt-qws are not both supplied"@,
            ConfigErrorView::MissingUserAuthToken =>
                "missing --user-auth-token/QOBUZ_USER_AUTH_TOKEN; required when --endpoint and --jwt-qws are not both supplied"@,
            ConfigErrorView::MissingEndpoint => "missing Qobuz Connect websocket endpoint"@,
            ConfigErrorView::Channel(error) => error.message(),
            ConfigErrorView::MissingAudioToken =>
                "audio playback requires --user-auth-token/QOBUZ_USER_AUTH_TOKEN; use serve --no-audio for state-only rendering"@,
        }
    }
}

impl ConfigError {
    pub fn message(&self) -> (r: String)
        ensures
            r@ == self@.message(),
    {
        match self {
            ConfigError::MissingAppId =>
                "missing --app-id/QOBUZ_APP_ID; required when --endpoint and --jwt-qws are not both supplied".to_owned(),
            ConfigError::MissingUserAuthToken =>
                "missing --user-auth-token/QOBUZ_USER_AUTH_TOKEN; required when --endpoint and --jwt-qws are not both supplied".to_owned(),
            ConfigError::MissingEndpoint => "missing Qobuz Connect websocket endpoint".to_owned(),
            ConfigError::Channel(error) => error.message(),
            ConfigError::MissingAudioToken =>
                "audio playback requires --user-auth-token/QOBUZ_USER_AUTH_TOKEN; use serve --no-audio for state-only rendering".to_owned(),
        }
    }
}

/// What is to be fetched from the server before a connection can be made.
#[derive(Debug, PartialEq, Eq)]
pub enum CredentialNeed {
    Nothing,
    Fetch { app_id: String, user_auth_token: String },
}

/// Decides what is to be fetched: nothing when the endpoint and the token for
/// it were both given, else credentials, for an app id and a user token.
pub fn credential_need(options: &ClientOptions) -> (r: Result<CredentialNeed, ConfigError>)
    ensures
        options.endpoint is Some && options.jwt_qws is Some <==> r == Ok::<
            CredentialNeed,
            ConfigError,
        >(CredentialNeed::Nothing),
        (options.endpoint is None || options.jwt_qws is None) ==> match r {
            Ok(CredentialNeed::Fetch { app_id, user_auth_token }) => {
                &&& options.app_id == Some(app_id)
                &&& options.user_auth_token == Some(user_auth_token)
            },
            Ok(CredentialNeed::Nothing) => false,
            Err(error) => if options.app_id is None {
                error@ is MissingAppId
            } else {
                error@ is MissingUserAuthToken && options.user_auth_token is None
            },
        },
{
    if options.endpoint.is_some() && options.jwt_qws.is_some() {
        return Ok(CredentialNeed::Nothing);
    }
    match &options.app_id {
        None => Err(ConfigError::MissingAppId),
        Some(app_id) => match &options.user_auth_token {
            None => Err(ConfigError::MissingUserAuthToken),
            Some(user_auth_token) => Ok(
                CredentialNeed::Fetch {
                    app_id: app_id.clone(),
                    user_auth_token: user_auth_token.clone(),
                },
            ),
        },
    }
}

/// A setting, or what takes its place.
pub open spec fn or_else(value: Option<String>, other: Option<Seq<char>>) -> Option<Seq<char>> {
    match value {
        Some(text) => Some(text@),
        None => other,
    }
}

/// What a connection is made with: what was given goes before what was fetched.
pub open spec fn config_of(options: ClientOptions, fetched: Option<QwsView>) -> Result<
    ConfigView,
    ConfigErrorView,
> {
    let endpoint = or_else(
        options.endpoint,
        match fetched {
            Some(credentials) => Some(credentials.endpoint),
            None => None,
        },
    );
    match endpoint {
        None => Err(ConfigErrorView::MissingEndpoint),
        Some(endpoint_url) => match channels::channels_of(
            channels::texts_view(options.subscribe_channels_hex@),
        ) {
            Err(error) => Err(ConfigErrorView::Channel(error)),
            Ok(subscribe_channels) => Ok(
                ConfigView {
                    endpoint_url,
                    jwt_qws: or_else(
                        options.jwt_qws,
                        match fetched {
                            Some(credentials) => Some(credentials.jwt),
                            None => None,
                        },
                    ),
                    reconnect_backoff_ms: options.reconnect_backoff_ms,
                    reconnect_backoff_max_ms: options.reconnect_backoff_max_ms,
                    connect_timeout_ms: options.connect_timeout_ms,
                    keepalive_interval_ms: options.keepalive_interval_ms,
                    auto_subscribe: true,
                    subscribe_channels,
                    qcloud_proto: options.qcloud_proto,
                },
            ),
        },
    }
}

pub open spec fn config_view(config: Result<WsTransportConfig, ConfigError>) -> Result<
    ConfigView,
    ConfigErrorView,
> {
    match config {
        Ok(c) => Ok(c@),
        Err(error) => Err(error@),
    }
}

pub open spec fn fetched_view(fetched: Option<QwsCredentials>) -> Option<QwsView> {
    match fetched {
        Some(credentials) => Some(credentials@),
        None => None,
    }
}

/// Makes up what a connection is made with, from what was given and what was
/// fetched.
pub fn resolve_transport_config(options: &ClientOptions, fetched: Option<QwsCredentials>) -> (r:
    Result<WsTransportConfig, ConfigError>)
    ensures
        config_view(r) == config_of(*options, fetched_view(fetched)),
{
    let (fetched_endpoint, fetched_jwt) = match fetched {
        Some(credentials) => (Some(credentials.endpoint), Some(credentials.jwt)),
        None => (None, None),
    };
    let endpoint = match &options.endpoint {
        Some(given) => Some(given.clone()),
        None => fetched_endpoint,
    };
    let jwt_qws = match &options.jwt_qws {
        Some(given) => Some(given.clone()),
        None => fetched_jwt,
    };
    match endpoint {
        None => Err(ConfigError::MissingEndpoint),
        Some(endpoint_url) => match channels::parse_subscribe_channels(
            &options.subscribe_channels_hex,
        ) {
            Err(error) => Err(ConfigError::Channel(error)),
            Ok(subscribe_channels) => Ok(
                WsTransportConfig {
                    endpoint_url,
                    jwt_qws,
                    reconnect_backoff_ms: options.reconnect_backoff_ms,
                    reconnect_backoff_max_ms: options.reconnect_backoff_max_ms,
                    connect_timeout_ms: options.connect_timeout_ms,
                    keepalive_interval_ms: options.keepalive_interval_ms,
                    auto_subscribe: true,
                    subscribe_channels,
                    qcloud_proto: options.qcloud_proto,
                },
            ),
        },
    }
}

/// The user token that tracks are fetched with.
pub fn audio_token(options: &ClientOptions) -> (r: Result<String, ConfigError>)
    ensures
        match r {
            Ok(token) => options.user_auth_token == Some(token),
            Err(error) => options.user_auth_token is None && error@ is MissingAudioToken,
        },
{
    match &options.user_auth_token {
        Some(token) => Ok(token.clone()),
        None => Err(ConfigError::MissingAudioToken),
    }
}

// ---------------------------------------------------------------------------
// Laws
// ---------------------------------------------------------------------------

/// A secret that was saved is read back without the white space around it, and
/// as it was where there is none, unless it is blank.
pub proof fn saved_secret_reads_back(secret: String)
    requires
        text::trimmed(secret@).len() > 0,
    ensures
        secret_in(FileRead::Contents(secret)) == Ok::<Option<Seq<char>>, Seq<char>>(
            Some(text::trimmed(secret@)),
        ),
        !text::is_white_space(secret@.first()) && !text::is_white_space(secret@.last())
            ==> text::trimmed(secret@) == secret@,
{
}

/// The files, each with what it holds, after one is written.
pub open spec fn written(
    files: Map<Seq<char>, Seq<char>>,
    saved: SecretFileView,
) -> Map<Seq<char>, Seq<char>> {
    files.insert(saved.name, saved.contents)
}

/// Whether reading the file of this name can give that.
pub open spec fn reads_as(
    files: Map<Seq<char>, Seq<char>>,
    name: Seq<char>,
    read: FileRead,
) -> bool {
    match read {
        FileRead::Contents(contents) => files.contains_key(name) && files[name] == contents@,
        FileRead::NotFound => !files.contains_key(name),
        FileRead::Failed(_) => false,
    }
}

/// The app id and the user token that are saved by hand are those that are
/// loaded, without the white space around them, whatever was saved before.
pub proof fn manual_login_reads_back(
    files: Map<Seq<char>, Seq<char>>,
    app_id: Seq<char>,
    token: Seq<char>,
    app_id_read: FileRead,
    token_read: FileRead,
)
    requires
        text::trimmed(app_id).len() > 0,
        text::trimmed(token).len() > 0,
        login_step(Some(app_id), Some(token)) matches LoginStepView::Save(first, second) && {
            let saved = written(written(files, first), second);
            reads_as(saved, "app_id"@, app_id_read) && reads_as(
                saved,
                "user_auth_token"@,
                token_read,
            )
        },
    ensures
        secret_in(app_id_read) == Ok::<Option<Seq<char>>, Seq<char>>(Some(text::trimmed(app_id))),
        secret_in(token_read) == Ok::<Option<Seq<char>>, Seq<char>>(Some(text::trimmed(token))),
{
    reveal_strlit("app_id");
    reveal_strlit("user_auth_token");
    assert("app_id"@.len() != "user_auth_token"@.len());
}

/// Nothing is saved by hand before both secrets are there, and what is missing
/// is asked for, the app id first.
pub proof fn both_secrets_are_asked_for(app_id: Option<Seq<char>>, token: Option<Seq<char>>)
    ensures
        login_step(app_id, token) is Save <==> app_id is Some && token is Some,
        app_id is None ==> login_step(app_id, token) == LoginStepView::Ask("QOBUZ_APP_ID"@),
        app_id is Some && token is None ==> login_step(app_id, token) == LoginStepView::Ask(
            "QOBUZ_USER_AUTH_TOKEN"@,
        ),
{
}

/// A secret is never blank, and has no white space around it.
pub proof fn secrets_are_trimmed(read: FileRead)
    ensures
        secret_in(read) matches Ok(Some(secret)) ==> {
            &&& secret.len() > 0
            &&& !text::is_white_space(secret.first())
            &&& !text::is_white_space(secret.last())
        },
{
    if let FileRead::Contents(contents) = read {
        text::trimmed_has_no_white_ends(contents@);
    }
}

/// Where the endpoint and its token were given, nothing that the server says
/// changes what the connection is made with.
pub proof fn given_credentials_are_used(options: ClientOptions, fetched: Option<QwsView>)
    requires
        options.endpoint is Some,
        options.jwt_qws is Some,
    ensures
        config_of(options, fetched) == config_of(options, None),
        config_of(options, fetched) matches Ok(config) ==> {
            &&& config.endpoint_url == options.endpoint->0@
            &&& config.jwt_qws == Some(options.jwt_qws->0@)
        },
{
}

/// With fetched credentials an endpoint is never missing.
pub proof fn fetched_credentials_suffice(options: ClientOptions, fetched: QwsView)
    ensures
        config_of(options, Some(fetched)) matches Err(error) ==> error is Channel,
        config_of(options, Some(fetched)) matches Ok(config) ==> config.jwt_qws is Some,
{
}

/// What a connection is made with is what was given: the endpoint and its
/// token, or else the fetched ones, and every other option as it stands; the
/// client always subscribes.
pub proof fn options_reach_the_connection(options: ClientOptions, fetched: Option<QwsView>)
    ensures
        config_of(options, fetched) matches Ok(config) ==> {
            &&& match (options.endpoint, fetched) {
                (Some(given), _) => config.endpoint_url == given@,
                (None, Some(credentials)) => config.endpoint_url == credentials.endpoint,
                (None, None) => false,
            }
            &&& match (options.jwt_qws, fetched) {
                (Some(given), _) => config.jwt_qws == Some(given@),
                (None, Some(credentials)) => config.jwt_qws == Some(credentials.jwt),
                (None, None) => config.jwt_qws is None,
            }
            &&& config.reconnect_backoff_ms == options.reconnect_backoff_ms
            &&& config.reconnect_backoff_max_ms == options.reconnect_backoff_max_ms
            &&& config.connect_timeout_ms == options.connect_timeout_ms
            &&& config.keepalive_interval_ms == options.keepalive_interval_ms
            &&& config.qcloud_proto == options.qcloud_proto
            &&& config.auto_subscribe
            &&& channels::channels_of(channels::texts_view(options.subscribe_channels_hex@)) == Ok::<
                Seq<Seq<u8>>,
                ChannelErrorView,
            >(config.subscribe_channels)
        },
        config_of(options, fetched) matches Err(error) ==> {
            let missing = options.endpoint is None && fetched is None;
            &&& missing <==> error is MissingEndpoint
            &&& !missing ==> (error matches ConfigErrorView::Channel(fault) && channels::channels_of(
                channels::texts_view(options.subscribe_channels_hex@),
            ) == Err::<Seq<Seq<u8>>, ChannelErrorView>(fault))
        },
        options.endpoint is None && fetched is None ==> config_of(options, fetched) is Err,
{
}

/// The credentials in an answer are its endpoint and its token as they stand,
/// where the answer is no refusal and neither is missing or blank.
pub proof fn answers_bring_their_credentials(
    success: bool,
    status: Seq<char>,
    body: JsonView,
    written: Seq<char>,
    endpoint: Seq<char>,
    jwt: Seq<char>,
)
    ensures
        qws_in(success, status, body, written) == Ok::<QwsView, QwsErrorView>(
            QwsView { endpoint, jwt },
        ) <==> success && (json::member(body, "jwt_qws"@) matches Some(inner) && json::member(
            inner,
            "endpoint"@,
        ) == Some(JsonView::Text(endpoint)) && json::member(inner, "jwt"@) == Some(
            JsonView::Text(jwt),
        )) && text::trimmed(endpoint).len() > 0 && text::trimmed(jwt).len() > 0,
{
}

/// A refusal is told with its status and no more than the beginning of what
/// was written, and any other failure by the first thing that is missing.
pub proof fn failed_answers_say_what_is_missing(
    success: bool,
    status: Seq<char>,
    body: JsonView,
    written: Seq<char>,
)
    ensures
        qws_in(success, status, body, written) matches Err(error) ==> match error {
            QwsErrorView::Refused { status: told, preview } => {
                &&& !success
                &&& told == status
                &&& preview.is_prefix_of(written)
                &&& preview.len() <= 300
                &&& written.len() <= 300 ==> preview == written
                &&& written.len() > 300 ==> preview.len() == 300
            },
            QwsErrorView::MissingJwtQws => success && json::member(body, "jwt_qws"@) is None,
            QwsErrorView::MissingEndpoint => success && (json::member(body, "jwt_qws"@)
                matches Some(inner) && match json::member_text(inner, "endpoint"@) {
                Some(said) => text::trimmed(said).len() == 0,
                None => true,
            }),
            QwsErrorView::MissingJwt => success && (json::member(body, "jwt_qws"@) matches Some(
                inner,
            ) && json::member_text(inner, "endpoint"@) is Some && match json::member_text(
                inner,
                "jwt"@,
            ) {
                Some(said) => text::trimmed(said).len() == 0,
                None => true,
            }),
        },
        !success ==> qws_in(success, status, body, written) is Err,
{
}

/// A file that is missing or blank holds no secret, and a failure to read one
/// is passed on as it was told.
pub proof fn unread_secrets_are_none(contents: String, message: String)
    ensures
        secret_in(FileRead::NotFound) == Ok::<Option<Seq<char>>, Seq<char>>(None),
        secret_in(FileRead::Failed(message)) == Err::<Option<Seq<char>>, Seq<char>>(message@),
        text::trimmed(contents@).len() == 0 ==> secret_in(FileRead::Contents(contents)) == Ok::<
            Option<Seq<char>>,
            Seq<char>,
        >(None),
{
}

/// Every failure has a message of its own.
pub proof fn failures_are_told_apart(error: ConfigErrorView, other: ConfigErrorView)
    requires
        !(error is Channel),
        !(other is Channel),
        error.message() == other.message(),
    ensures
        error == other,
{
    reveal_strlit(
        "missing --app-id/QOBUZ_APP_ID; required when --endpoint and --jwt-qws are not both supplied",
    );
    reveal_strlit(
        "missing --user-auth-token/QOBUZ_USER_AUTH_TOKEN; required when --endpoint and --jwt-qws are not both supplied",
    );
    reveal_strlit("missing Qobuz Connect websocket endpoint");
    reveal_strlit(
        "audio playback requires --user-auth-token/QOBUZ_USER_AUTH_TOKEN; use serve --no-audio for state-only rendering",
    );
    assert(ConfigErrorView::MissingAppId.message().len() == 91);
    assert(ConfigErrorView::MissingUserAuthToken.message().len() == 109);
    assert(ConfigErrorView::MissingEndpoint.message().len() == 40);
    assert(ConfigErrorView::MissingAudioToken.message().len() == 110);
}

/// A refusal shows its status and what was written, a missing part of an
/// answer its name, and a channel that cannot be read its own message.
pub proof fn failures_show_what_they_are_about(
    status: Seq<char>,
    preview: Seq<char>,
    fault: ChannelErrorView,
)
    ensures
        (QwsErrorView::Refused { status, preview }).message() == "qws/createToken returned "@
            + status + ": "@ + preview,
        QwsErrorView::MissingJwtQws.message() != QwsErrorView::MissingEndpoint.message(),
        QwsErrorView::MissingJwtQws.message() != QwsErrorView::MissingJwt.message(),
        QwsErrorView::MissingEndpoint.message() != QwsErrorView::MissingJwt.message(),
        QwsErrorView::MissingEndpoint.message() == QwsErrorView::MissingJwtQws.message()
            + ".endpoint"@,
        QwsErrorView::MissingJwt.message() == QwsErrorView::MissingJwtQws.message() + ".jwt"@,
        ConfigErrorView::Channel(fault).message() == fault.message(),
{
    reveal_strlit("qws/createToken response missing jwt_qws");
    reveal_strlit("qws/createToken response missing jwt_qws.endpoint");
    reveal_strlit("qws/createToken response missing jwt_qws.jwt");
    reveal_strlit(".endpoint");
    reveal_strlit(".jwt");
    assert("qws/createToken response missing jwt_qws"@.len() == 40);
    assert("qws/createToken response missing jwt_qws.endpoint"@.len() == 49);
    assert("qws/createToken response missing jwt_qws.jwt"@.len() == 44);
    assert("qws/createToken response missing jwt_qws.endpoint"@
        =~= "qws/createToken response missing jwt_qws"@ + ".endpoint"@);
    assert("qws/createToken response missing jwt_qws.jwt"@
        =~= "qws/createToken response missing jwt_qws"@ + ".jwt"@);
}

/// The secrets are saved as they were given, each in the file of its name.
pub proof fn secrets_are_saved_as_given(app_id: Seq<char>, token: Seq<char>)
    ensures
        login_step(Some(app_id), Some(token)) matches LoginStepView::Save(first, second) && {
            &&& first.name == "app_id"@
            &&& first.contents == app_id
            &&& second.name == "user_auth_token"@
            &&& second.contents == token
        },
{
}

} // verus!
