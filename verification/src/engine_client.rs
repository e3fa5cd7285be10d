//! What a client of the engine works with apart from the transport: its
//! connection options, the errors a call ends in, the protocol handshake
//! rule, the socket location rule, the issuer requests, and the mapping
//! between issuers and the messages the engine exchanges.
use vstd::prelude::*;
use core::time::Duration;
use crate::common::{
    lemma_uuid_text_injective, proto_timestamp_in_range, uuid_text, UtcInstant, Versioned, WriteOutcome,
};
use crate::domain::issuer::{
    is_brazil, issuer_builder_error_message, IssuerBuilder, issuer_name_error_message, Issuer, IssuerBuilderError,
    IssuerId, IssuerName, IssuerNameError, IssuerPatch, IssuerStatus, IssuerStatusError,
    ISSUER_NAME_MAX_LEN,
};
use crate::identifiers::cnpj::{cnpj_error_message, cnpj_parse};
use crate::identifiers::country_code::{
    country_error_message, country_normalize, country_parse_outcome, country_valid,
};
use crate::identifiers::lei::{lei_error_message, lei_parse};
use crate::identifiers::{Cnpj, CnpjError, CountryCode, CountryCodeError, Lei, LeiError};
use crate::text::{decimal, push_decimal, trimmed, unicode_uppercase};

verus! {

/// The name of the engine's socket file in its data directory.
pub const DEFAULT_RPC_SOCKET_FILE_NAME: &'static str = "valqeron.sock";

/// The environment variable that names the engine socket.
pub const SOCKET_ENV: &'static str = "VALQERON_SOCKET";

/// How to reach the engine; unset fields take the defaults.
#[derive(Debug, Clone, Default)]
pub struct ClientOptions {
    pub socket: Option<String>,
    pub connect_timeout: Option<Duration>,
    pub request_timeout: Option<Duration>,
}

impl ClientOptions {
    /// Connect to this socket instead of the resolved default.
    pub fn with_socket(self, socket: &str) -> (r: Self)
        ensures
            r.socket matches Some(s) && s@ == socket@,
            r.connect_timeout == self.connect_timeout,
            r.request_timeout == self.request_timeout,
    {
        ClientOptions {
            socket: Some(String::from_str(socket)),
            connect_timeout: self.connect_timeout,
            request_timeout: self.request_timeout,
        }
    }

    pub fn with_connect_timeout(self, timeout: Duration) -> (r: Self)
        ensures
            r.connect_timeout == Some(timeout),
            r.socket == self.socket,
            r.request_timeout == self.request_timeout,
    {
        ClientOptions {
            socket: self.socket,
            connect_timeout: Some(timeout),
            request_timeout: self.request_timeout,
        }
    }

    pub fn with_request_timeout(self, timeout: Duration) -> (r: Self)
        ensures
            r.request_timeout == Some(timeout),
            r.socket == self.socket,
            r.connect_timeout == self.connect_timeout,
    {
        ClientOptions {
            socket: self.socket,
            connect_timeout: self.connect_timeout,
            request_timeout: Some(timeout),
        }
    }
}

/// What the engine reports about itself on the health call.
#[derive(Debug, Clone)]
pub struct EngineInfo {
    pub engine_version: String,
    pub protocol_version: u32,
}

/// What the engine reports on the status call.
#[derive(Debug, Clone)]
pub struct EngineStatus {
    pub engine_version: String,
    pub protocol_version: u32,
    pub pid: u32,
}

#[derive(Debug)]
pub enum ClientError {
    NotRunning { socket: String },
    Unreachable { socket: String, message: String },
    VersionMismatch {
        client_protocol: u32,
        engine_protocol: u32,
        client_version: String,
        engine_version: String,
    },
    Rpc { code: String, message: String },
    Config(String),
    InvalidResponse(String),
    Runtime(String),
}

/// The text `Display` prints for a client error.
pub open spec fn client_error_message(e: ClientError) -> Seq<char> {
    match e {
        ClientError::NotRunning { socket } => "no engine is running on "@ + socket@
            + "; install and start the engine service (during development: `just engine-install`)"@,
        ClientError::Unreachable { socket, message } => "engine unreachable on "@ + socket@
            + ": "@ + message@,
        ClientError::VersionMismatch {
            client_protocol,
            engine_protocol,
            client_version,
            engine_version,
        } => "engine "@ + engine_version@ + " speaks protocol v"@ + decimal(
            engine_protocol as nat,
        ) + ", but this client (v"@ + client_version@ + ") requires protocol v"@ + decimal(
            client_protocol as nat,
        ) + "; upgrade the older side"@,
        ClientError::Rpc { code, message } => "rpc failed ("@ + code@ + "): "@ + message@,
        ClientError::Config(m) => "client configuration error: "@ + m@,
        ClientError::InvalidResponse(m) => "invalid response from engine: "@ + m@,
        ClientError::Runtime(m) => "failed to start the client runtime: "@ + m@,
    }
}

impl ClientError {
    pub fn is_not_running(&self) -> (r: bool)
        ensures
            r == (self is NotRunning),
    {
        matches!(self, ClientError::NotRunning { .. })
    }

    /// The human-readable text of the error, as `Display` prints it.
    pub fn to_string(&self) -> (r: String)
        ensures
            r@ == client_error_message(*self),
    {
        match self {
            ClientError::NotRunning { socket } => {
                let mut s = String::from_str("no engine is running on ");
                s.append(socket.as_str());
                s.append(
                    "; install and start the engine service (during development: `just engine-install`)",
                );
                s
            },
            ClientError::Unreachable { socket, message } => {
                let mut s = String::from_str("engine unreachable on ");
                s.append(socket.as_str());
                s.append(": ");
                s.append(message.as_str());
                s
            },
            ClientError::VersionMismatch {
                client_protocol,
                engine_protocol,
                client_version,
                engine_version,
            } => {
                let mut s = String::from_str("engine ");
                s.append(engine_version.as_str());
                s.append(" speaks protocol v");
                push_decimal(&mut s, *engine_protocol as u64);
                s.append(", but this client (v");
                s.append(client_version.as_str());
                s.append(") requires protocol v");
                push_decimal(&mut s, *client_protocol as u64);
                s.append("; upgrade the older side");
                s
            },
            ClientError::Rpc { code, message } => {
                let mut s = String::from_str("rpc failed (");
                s.append(code.as_str());
                s.append("): ");
                s.append(message.as_str());
                s
            },
            ClientError::Config(m) => {
                let mut s = String::from_str("client configuration error: ");
                s.append(m.as_str());
                s
            },
            ClientError::InvalidResponse(m) => {
                let mut s = String::from_str("invalid response from engine: ");
                s.append(m.as_str());
                s
            },
            ClientError::Runtime(m) => {
                let mut s = String::from_str("failed to start the client runtime: ");
                s.append(m.as_str());
                s
            },
        }
    }
}

/// The handshake rule: the engine's health answer is accepted only when the
/// engine speaks the client's protocol version; otherwise the call fails
/// with a mismatch that names both sides.
pub fn check_handshake(client_protocol: u32, client_version: &str, health: EngineInfo) -> (r: Result<
    EngineInfo,
    ClientError,
>)
    ensures
        health.protocol_version == client_protocol ==> (r matches Ok(info) && info == health),
        health.protocol_version != client_protocol ==> (r matches Err(
            ClientError::VersionMismatch {
                client_protocol: cp,
                engine_protocol: ep,
                client_version: cv,
                engine_version: ev,
            },
        ) && cp == client_protocol && ep == health.protocol_version && cv@ == client_version@
            && ev == health.engine_version),
{
    if health.protocol_version != client_protocol {
        return Err(
            ClientError::VersionMismatch {
                client_protocol,
                engine_protocol: health.protocol_version,
                client_version: String::from_str(client_version),
                engine_version: health.engine_version,
            },
        );
    }
    Ok(health)
}

/// The path `file` in the directory `dir`, as `Path::join` forms it.
pub uninterp spec fn path_joined(dir: Seq<char>, file: Seq<char>) -> Seq<char>;

/// Whether a Unix path is absolute: it starts at the root.
pub open spec fn path_is_absolute(p: Seq<char>) -> bool {
    p.len() > 0 && p[0] == '/'
}

/// Wraps `Path::join` on UTF-8 paths (so `to_string_lossy` changes nothing);
/// the result depends on the two paths alone. As `Path::join` documents it
/// on Unix, where the engine's socket lives: an absolute `file` replaces
/// `dir`, and a relative one extends a directory that does not end in a
/// separator with `/` and `file`. What it gives for an empty directory or
/// one that ends in `/` is left to the name.
#[verifier::external_body]
pub(crate) fn join_path(dir: &str, file: &str) -> (r: String)
    ensures
        r@ == path_joined(dir@, file@),
        path_is_absolute(file@) ==> r@ == file@,
        !path_is_absolute(file@) && dir@.len() > 0 && dir@.last() != '/' ==> r@ == dir@ + seq![
            '/',
        ] + file@,
{
    std::path::Path::new(dir).join(file).to_string_lossy().into_owned()
}

/// The location of the engine's socket.
#[derive(Clone, Eq, PartialEq, Hash, Debug)]
pub struct SocketPath(String);

impl SocketPath {
    pub closed spec fn view(self) -> Seq<char> {
        self.0@
    }

    pub fn as_str(&self) -> (r: &str)
        ensures
            r@ == self.view(),
    {
        self.0.as_str()
    }

    /// The socket location rule: a non-empty `VALQERON_SOCKET` value wins;
    /// otherwise the socket file in the engine's data directory, when the
    /// platform has one.
    pub fn resolve_with(env_value: Option<&str>, data_dir: Option<&str>) -> (r: Result<
        SocketPath,
        ClientError,
    >)
        ensures
            (env_value matches Some(v) && v@.len() > 0) ==> (r matches Ok(p) && p.view() == env_value->Some_0@),
            !(env_value matches Some(v) && v@.len() > 0) ==> match data_dir {
                Some(d) => (r matches Ok(p) && p.view() == path_joined(d@, "valqeron.sock"@)),
                None => (r matches Err(ClientError::Config(m)) && m@
                    == "could not determine socket path; set VALQERON_SOCKET"@),
            },
    {
        if let Some(value) = env_value {
            if value.unicode_len() > 0 {
                return Ok(SocketPath(String::from_str(value)));
            }
        }
        match data_dir {
            Some(dir) => {
                let file = DEFAULT_RPC_SOCKET_FILE_NAME;
                proof {
                    reveal_strlit("valqeron.sock");
                }
                Ok(SocketPath(join_path(dir, file)))
            },
            None => Err(
                ClientError::Config(
                    String::from_str("could not determine socket path; set VALQERON_SOCKET"),
                ),
            ),
        }
    }
}

/// A request to register an issuer, possibly as a rehearsal.
#[derive(Debug, Clone)]
pub struct RegisterIssuerRequest {
    issuer: Issuer,
    dry_run: bool,
}

impl RegisterIssuerRequest {
    pub closed spec fn issuer_spec(self) -> Issuer {
        self.issuer
    }

    pub closed spec fn dry_run_spec(self) -> bool {
        self.dry_run
    }

    pub fn new(issuer: Issuer) -> (r: Self)
        ensures
            r.issuer_spec() == issuer,
            !r.dry_run_spec(),
    {
        RegisterIssuerRequest { issuer, dry_run: false }
    }

    pub fn dry_run(self) -> (r: Self)
        ensures
            r.issuer_spec() == self.issuer_spec(),
            r.dry_run_spec(),
    {
        RegisterIssuerRequest { issuer: self.issuer, dry_run: true }
    }

    pub fn dry_run_if(self, dry_run: bool) -> (r: Self)
        ensures
            r.issuer_spec() == self.issuer_spec(),
            r.dry_run_spec() == dry_run,
    {
        RegisterIssuerRequest { issuer: self.issuer, dry_run }
    }

    pub fn issuer(&self) -> (r: &Issuer)
        ensures
            *r == self.issuer_spec(),
    {
        &self.issuer
    }

    pub fn is_dry_run(&self) -> (r: bool)
        ensures
            r == self.dry_run_spec(),
    {
        self.dry_run
    }
}

/// A request to patch an issuer at an expected version.
#[derive(Debug, Clone)]
pub struct PatchIssuerRequest {
    expected_version: u32,
    patch: IssuerPatch,
    dry_run: bool,
}

impl PatchIssuerRequest {
    pub closed spec fn expected_version_spec(self) -> u32 {
        self.expected_version
    }

    pub closed spec fn patch_spec(self) -> IssuerPatch {
        self.patch
    }

    pub closed spec fn dry_run_spec(self) -> bool {
        self.dry_run
    }

    pub fn new(expected_version: u32, patch: IssuerPatch) -> (r: Self)
        ensures
            r.expected_version_spec() == expected_version,
            r.patch_spec() == patch,
            !r.dry_run_spec(),
    {
        PatchIssuerRequest { expected_version, patch, dry_run: false }
    }

    pub fn dry_run(self) -> (r: Self)
        ensures
            r.expected_version_spec() == self.expected_version_spec(),
            r.patch_spec() == self.patch_spec(),
            r.dry_run_spec(),
    {
        PatchIssuerRequest { expected_version: self.expected_version, patch: self.patch, dry_run: true }
    }

    pub fn expected_version(&self) -> (r: u32)
        ensures
            r == self.expected_version_spec(),
    {
        self.expected_version
    }

    pub fn patch(&self) -> (r: &IssuerPatch)
        ensures
            *r == self.patch_spec(),
    {
        &self.patch
    }

    pub fn is_dry_run(&self) -> (r: bool)
        ensures
            r == self.dry_run_spec(),
    {
        self.dry_run
    }
}

/// A request to delete an issuer at an expected version.
#[derive(Debug, Clone, Copy)]
pub struct DeleteIssuerRequest {
    expected_version: u32,
    dry_run: bool,
}

impl DeleteIssuerRequest {
    pub closed spec fn expected_version_spec(self) -> u32 {
        self.expected_version
    }

    pub closed spec fn dry_run_spec(self) -> bool {
        self.dry_run
    }

    pub fn new(expected_version: u32) -> (r: Self)
        ensures
            r.expected_version_spec() == expected_version,
            !r.dry_run_spec(),
    {
        DeleteIssuerRequest { expected_version, dry_run: false }
    }

    pub fn dry_run(self) -> (r: Self)
        ensures
            r.expected_version_spec() == self.expected_version_spec(),
            r.dry_run_spec(),
    {
        DeleteIssuerRequest { expected_version: self.expected_version, dry_run: true }
    }

    pub fn expected_version(&self) -> (r: u32)
        ensures
            r == self.expected_version_spec(),
    {
        self.expected_version
    }

    pub fn is_dry_run(&self) -> (r: bool)
        ensures
            r == self.dry_run_spec(),
    {
        self.dry_run
    }
}

/// Why an issuer message from the engine could not be turned into an issuer.
#[derive(Debug)]
pub enum IssuerMappingError {
    InvalidId(String),
    InvalidTimestamp(String),
    Name(IssuerNameError),
    Status(IssuerStatusError),
    Cnpj(CnpjError),
    Lei(LeiError),
    CountryCode(CountryCodeError),
    Builder(IssuerBuilderError),
    MissingField(&'static str),
}

/// The text `Display` prints for a mapping error.
pub open spec fn issuer_mapping_error_message(e: IssuerMappingError) -> Seq<char> {
    match e {
        IssuerMappingError::InvalidId(m) => "invalid issuer id: "@ + m@,
        IssuerMappingError::InvalidTimestamp(m) => "invalid created_at timestamp: "@ + m@,
        IssuerMappingError::Name(n) => issuer_name_error_message(n),
        IssuerMappingError::Status(_) => "Invalid status. Must be one of: [\"ACTIVE\", \"RETIRED\"]"@,
        IssuerMappingError::Cnpj(c) => cnpj_error_message(c),
        IssuerMappingError::Lei(l) => lei_error_message(l),
        IssuerMappingError::CountryCode(c) => country_error_message(c),
        IssuerMappingError::Builder(b) => issuer_builder_error_message(b),
        IssuerMappingError::MissingField(f) => "missing required field `"@ + f@ + "`"@,
    }
}

impl IssuerMappingError {
    /// The human-readable text of the error, as `Display` prints it.
    pub fn to_string(&self) -> (r: String)
        ensures
            r@ == issuer_mapping_error_message(*self),
    {
        match self {
            IssuerMappingError::InvalidId(m) => {
                let mut s = String::from_str("invalid issuer id: ");
                s.append(m.as_str());
                s
            },
            IssuerMappingError::InvalidTimestamp(m) => {
                let mut s = String::from_str("invalid created_at timestamp: ");
                s.append(m.as_str());
                s
            },
            IssuerMappingError::Name(n) => n.to_string(),
            IssuerMappingError::Status(st) => st.to_string(),
            IssuerMappingError::Cnpj(c) => c.to_string(),
            IssuerMappingError::Lei(l) => l.to_string(),
            IssuerMappingError::CountryCode(c) => c.to_string(),
            IssuerMappingError::Builder(b) => b.to_string(),
            IssuerMappingError::MissingField(f) => {
                let mut s = String::from_str("missing required field `");
                s.append(f);
                s.append("`");
                s
            },
        }
    }
}

impl From<IssuerNameError> for IssuerMappingError {
    fn from(e: IssuerNameError) -> (r: IssuerMappingError) {
        IssuerMappingError::Name(e)
    }
}

impl vstd::std_specs::convert::FromSpecImpl<IssuerNameError> for IssuerMappingError {
    open spec fn obeys_from_spec() -> bool {
        true
    }

    open spec fn from_spec(v: IssuerNameError) -> IssuerMappingError {
        IssuerMappingError::Name(v)
    }
}

impl From<IssuerStatusError> for IssuerMappingError {
    fn from(e: IssuerStatusError) -> (r: IssuerMappingError) {
        IssuerMappingError::Status(e)
    }
}

impl vstd::std_specs::convert::FromSpecImpl<IssuerStatusError> for IssuerMappingError {
    open spec fn obeys_from_spec() -> bool {
        true
    }

    open spec fn from_spec(v: IssuerStatusError) -> IssuerMappingError {
        IssuerMappingError::Status(v)
    }
}

impl From<CnpjError> for IssuerMappingError {
    fn from(e: CnpjError) -> (r: IssuerMappingError) {
        IssuerMappingError::Cnpj(e)
    }
}

impl vstd::std_specs::convert::FromSpecImpl<CnpjError> for IssuerMappingError {
    open spec fn obeys_from_spec() -> bool {
        true
    }

    open spec fn from_spec(v: CnpjError) -> IssuerMappingError {
        IssuerMappingError::Cnpj(v)
    }
}

impl From<LeiError> for IssuerMappingError {
    fn from(e: LeiError) -> (r: IssuerMappingError) {
        IssuerMappingError::Lei(e)
    }
}

impl vstd::std_specs::convert::FromSpecImpl<LeiError> for IssuerMappingError {
    open spec fn obeys_from_spec() -> bool {
        true
    }

    open spec fn from_spec(v: LeiError) -> IssuerMappingError {
        IssuerMappingError::Lei(v)
    }
}

impl From<CountryCodeError> for IssuerMappingError {
    fn from(e: CountryCodeError) -> (r: IssuerMappingError) {
        IssuerMappingError::CountryCode(e)
    }
}

impl vstd::std_specs::convert::FromSpecImpl<CountryCodeError> for IssuerMappingError {
    open spec fn obeys_from_spec() -> bool {
        true
    }

    open spec fn from_spec(v: CountryCodeError) -> IssuerMappingError {
        IssuerMappingError::CountryCode(v)
    }
}

impl From<IssuerBuilderError> for IssuerMappingError {
    fn from(e: IssuerBuilderError) -> (r: IssuerMappingError) {
        IssuerMappingError::Builder(e)
    }
}

impl vstd::std_specs::convert::FromSpecImpl<IssuerBuilderError> for IssuerMappingError {
    open spec fn obeys_from_spec() -> bool {
        true
    }

    open spec fn from_spec(v: IssuerBuilderError) -> IssuerMappingError {
        IssuerMappingError::Builder(v)
    }
}


/// The outcome of a write, as the engine reports it.
#[derive(Debug, Clone, Copy, PartialEq, Eq, Structural)]
pub enum WriteOutcomeMessage {
    Applied,
    VersionMismatch { expected: u32, actual: u32 },
    Missing,
}

/// The write outcome a message reports; a message without one is refused.
pub fn write_outcome_from_message(msg: Option<WriteOutcomeMessage>) -> (r: Result<
    WriteOutcome,
    IssuerMappingError,
>)
    ensures
        match msg {
            None => (r matches Err(IssuerMappingError::MissingField(f)) && f@ == "outcome"@),
            Some(WriteOutcomeMessage::Applied) => r == Ok::<WriteOutcome, IssuerMappingError>(
                WriteOutcome::Applied,
            ),
            Some(WriteOutcomeMessage::VersionMismatch { expected, actual }) => r == Ok::<
                WriteOutcome,
                IssuerMappingError,
            >(WriteOutcome::VersionMismatch { expected, actual }),
            Some(WriteOutcomeMessage::Missing) => r == Ok::<WriteOutcome, IssuerMappingError>(
                WriteOutcome::Missing,
            ),
        },
{
    match msg {
        Some(WriteOutcomeMessage::Applied) => Ok(WriteOutcome::Applied),
        Some(WriteOutcomeMessage::VersionMismatch { expected, actual }) => Ok(
            WriteOutcome::VersionMismatch { expected, actual },
        ),
        Some(WriteOutcomeMessage::Missing) => Ok(WriteOutcome::Missing),
        None => {
            let field = "outcome";
            proof {
                reveal_strlit("outcome");
            }
            Err(IssuerMappingError::MissingField(field))
        },
    }
}

/// What `uuid::Uuid::parse_str` gives for a text: the sixteen bytes, or the
/// text of its error.
pub uninterp spec fn uuid_parsed(text: Seq<char>) -> Result<Seq<u8>, Seq<char>>;

/// Whether `t` is the hyphenated lower-case text of some sixteen bytes.
pub open spec fn is_uuid_text(t: Seq<char>) -> bool {
    exists|b: Seq<u8>| b.len() == 16 && #[trigger] uuid_text(b) == t
}

/// Wraps `uuid::Uuid::parse_str` (which `FromStr` calls). The result depends
/// on the text alone; the hyphenated lower-case form of sixteen bytes, one of
/// the formats the crate documents as accepted, parses to those bytes.
#[verifier::external_body]
fn parse_uuid(text: &str) -> (r: Result<[u8; 16], String>)
    ensures
        match uuid_parsed(text@) {
            Ok(b) => (r matches Ok(a) && a@ == b),
            Err(m) => (r matches Err(e) && e@ == m),
        },
        is_uuid_text(text@) ==> r is Ok && uuid_text(r.unwrap()@) == text@,
{
    match uuid::Uuid::parse_str(text) {
        Ok(u) => Ok(u.into_bytes()),
        Err(e) => Err(e.to_string()),
    }
}

/// What `chrono::DateTime::parse_from_rfc3339` gives for a text, read in UTC
/// as seconds and nanoseconds since the Unix epoch, or the text of its error.
pub uninterp spec fn rfc3339_parsed(text: Seq<char>) -> Result<UtcInstant, Seq<char>>;

/// Wraps `chrono::DateTime::parse_from_rfc3339`, read in UTC with
/// `timestamp` and `timestamp_subsec_nanos`; the result depends on the text
/// alone.
#[verifier::external_body]
fn parse_rfc3339(text: &str) -> (r: Result<UtcInstant, String>)
    ensures
        match rfc3339_parsed(text@) {
            Ok(t) => r == Ok::<UtcInstant, String>(t),
            Err(m) => (r matches Err(e) && e@ == m),
        },
{
    match chrono::DateTime::parse_from_rfc3339(text) {
        Ok(d) => {
            let u = d.with_timezone(&chrono::Utc);
            Ok(UtcInstant { seconds: u.timestamp(), nanos: u.timestamp_subsec_nanos() })
        },
        Err(e) => Err(e.to_string()),
    }
}

/// What `DateTime::<Utc>::to_rfc3339` prints for an instant given as
/// seconds and nanoseconds since the Unix epoch (the empty text for an
/// instant beyond the range of `DateTime`).
pub uninterp spec fn rfc3339_text(seconds: i64, nanos: u32) -> Seq<char>;

/// Wraps `chrono::DateTime::from_timestamp` and `to_rfc3339` for a UTC
/// instant; the text depends on the instant alone, down to the nanosecond.
/// An instant beyond the range of `DateTime` gives the empty text.
#[verifier::external_body]
pub(crate) fn format_rfc3339(t: UtcInstant) -> (r: String)
    ensures
        r@ == rfc3339_text(t.seconds, t.nanos),
{
    match chrono::DateTime::from_timestamp(t.seconds, t.nanos) {
        Some(d) => d.to_rfc3339(),
        None => String::new(),
    }
}

/// Reads an issuer id from its text.
pub fn parse_issuer_id(raw: &str) -> (r: Result<IssuerId, IssuerMappingError>)
    ensures
        match uuid_parsed(raw@) {
            Ok(b) => (r matches Ok(id) && id.view() == b),
            Err(m) => (r matches Err(IssuerMappingError::InvalidId(e)) && e@ == m),
        },
        forall|b: Seq<u8>| b.len() == 16 && raw@ == #[trigger] uuid_text(b) ==> (r matches Ok(id)
            && id.view() == b),
{
    match parse_uuid(raw) {
        Ok(bytes) => {
            proof {
                assert forall|b: Seq<u8>| b.len() == 16 && raw@ == #[trigger] uuid_text(b) implies b
                    == bytes@ by {
                    lemma_uuid_text_injective(b, bytes@);
                }
            }
            Ok(IssuerId::from_bytes(bytes))
        },
        Err(m) => Err(IssuerMappingError::InvalidId(m)),
    }
}

/// Reads a creation time from RFC 3339 text.
pub fn parse_timestamp(raw: &str) -> (r: Result<UtcInstant, IssuerMappingError>)
    ensures
        match rfc3339_parsed(raw@) {
            Ok(t) => r == Ok::<UtcInstant, IssuerMappingError>(t),
            Err(m) => (r matches Err(IssuerMappingError::InvalidTimestamp(e)) && e@ == m),
        },
{
    match parse_rfc3339(raw) {
        Ok(t) => Ok(t),
        Err(m) => Err(IssuerMappingError::InvalidTimestamp(m)),
    }
}

/// An issuer as the engine sends it.
#[derive(Debug, Clone)]
pub struct IssuerMessage {
    pub id: String,
    pub version: u32,
    pub name: Option<String>,
    pub status: String,
    pub cnpj: Option<String>,
    pub lei: Option<String>,
    pub country_code: Option<String>,
    pub created_at: String,
}

/// A registration as the client sends it.
#[derive(Debug, Clone)]
pub struct RegisterIssuerMessage {
    pub name: Option<String>,
    pub status: Option<String>,
    pub cnpj: Option<String>,
    pub lei: Option<String>,
    pub country_code: Option<String>,
    pub dry_run: bool,
}

/// A patch as the client sends it.
#[derive(Debug, Clone)]
pub struct PatchIssuerMessage {
    pub id: String,
    pub expected_version: u32,
    pub name: Option<String>,
    pub status: Option<String>,
    pub cnpj: Option<String>,
    pub lei: Option<String>,
    pub country_code: Option<String>,
    pub dry_run: bool,
}

/// A deletion as the client sends it.
#[derive(Debug, Clone)]
pub struct DeleteIssuerMessage {
    pub id: String,
    pub expected_version: u32,
    pub dry_run: bool,
}

/// The patch message for the issuer `id`: its id in hyphenated form, the
/// expected version, the text of each field the patch sets, and the
/// rehearsal flag.
pub fn patch_issuer_message(id: &IssuerId, request: &PatchIssuerRequest) -> (r: PatchIssuerMessage)
    ensures
        r.id@ == uuid_text(id.view()),
        r.expected_version == request.expected_version_spec(),
        r.dry_run == request.dry_run_spec(),
        r.name is Some <==> request.patch_spec().name_spec() is Some,
        r.name matches Some(n) ==> n@ == request.patch_spec().name_spec()->Some_0.view(),
        r.status is Some <==> request.patch_spec().status_spec() is Some,
        r.status matches Some(t) ==> t@ == request.patch_spec().status_spec()->Some_0.text(),
        r.cnpj is Some <==> request.patch_spec().cnpj_spec() is Some,
        r.cnpj matches Some(c) ==> c@ == crate::text::bytes_as_chars(
            request.patch_spec().cnpj_spec()->Some_0.view(),
        ),
        r.lei is Some <==> request.patch_spec().lei_spec() is Some,
        r.lei matches Some(l) ==> l@ == crate::text::bytes_as_chars(
            request.patch_spec().lei_spec()->Some_0.view(),
        ),
        r.country_code is Some <==> request.patch_spec().country_code_spec() is Some,
        r.country_code matches Some(c) ==> c@ == crate::text::bytes_as_chars(
            request.patch_spec().country_code_spec()->Some_0.view(),
        ),
{
    let patch = request.patch();
    let name = match patch.name() {
        Some(n) => Some(String::from_str(n.as_str())),
        None => None,
    };
    let status = match patch.status() {
        Some(t) => Some(String::from_str(t.as_str())),
        None => None,
    };
    let cnpj = match patch.cnpj() {
        Some(c) => Some(String::from_str(c.as_str())),
        None => None,
    };
    let lei = match patch.lei() {
        Some(l) => Some(String::from_str(l.as_str())),
        None => None,
    };
    let country_code = match patch.country_code() {
        Some(c) => Some(String::from_str(c.as_str())),
        None => None,
    };
    PatchIssuerMessage {
        id: id.value(),
        expected_version: request.expected_version(),
        name,
        status,
        cnpj,
        lei,
        country_code,
        dry_run: request.is_dry_run(),
    }
}

/// The deletion message for the issuer `id`.
pub fn delete_issuer_message(id: &IssuerId, request: &DeleteIssuerRequest) -> (r: DeleteIssuerMessage)
    ensures
        r.id@ == uuid_text(id.view()),
        r.expected_version == request.expected_version_spec(),
        r.dry_run == request.dry_run_spec(),
{
    DeleteIssuerMessage {
        id: id.value(),
        expected_version: request.expected_version(),
        dry_run: request.is_dry_run(),
    }
}

/// Whether a country text parses to an assigned code.
pub open spec fn country_text_ok(s: Seq<char>) -> bool {
    country_normalize(s) matches Ok(b) && country_valid(b)
}

/// Whether an optional name text fails to read as an issuer name.
pub open spec fn name_field_fails(name: Option<String>) -> bool {
    name matches Some(n) && !(0 < trimmed(n@).len() <= ISSUER_NAME_MAX_LEN)
}

/// `e` is the error that reading the optional name text gives: empty after
/// trimming, or longer than the limit.
pub open spec fn name_error_for(name: Option<String>, e: IssuerNameError) -> bool {
    name matches Some(n) && if trimmed(n@).len() == 0 {
        e == IssuerNameError::Empty
    } else {
        e == IssuerNameError::TooLong { max: ISSUER_NAME_MAX_LEN }
    }
}

/// Whether an optional CNPJ text fails to read.
pub open spec fn cnpj_field_fails(cnpj: Option<String>) -> bool {
    cnpj matches Some(c) && cnpj_parse(c@) is Err
}

/// Whether an optional LEI text fails to read.
pub open spec fn lei_field_fails(lei: Option<String>) -> bool {
    lei matches Some(l) && lei_parse(l@) is Err
}

/// Whether an optional country text fails to read.
pub open spec fn country_field_fails(country: Option<String>) -> bool {
    country matches Some(c) && !country_text_ok(c@)
}

/// The first step at which turning `msg` into an issuer fails, in the order
/// the fields are read: 1 the id, 2 the status, 3 the creation time, 4 the
/// name, 5 the CNPJ, 6 the LEI, 7 the country code, 8 the CNPJ-country rule;
/// 0 when none fails.
pub open spec fn issuer_message_failure(msg: IssuerMessage) -> int {
    if uuid_parsed(msg.id@) is Err {
        1
    } else if IssuerStatus::from_uppercase_spec(unicode_uppercase(msg.status@)) is Err {
        2
    } else if rfc3339_parsed(msg.created_at@) is Err {
        3
    } else if name_field_fails(msg.name) {
        4
    } else if cnpj_field_fails(msg.cnpj) {
        5
    } else if lei_field_fails(msg.lei) {
        6
    } else if country_field_fails(msg.country_code) {
        7
    } else if msg.cnpj is Some && (msg.country_code matches Some(c) && !is_brazil(
        country_normalize(c@)->Ok_0,
    )) {
        8
    } else {
        0
    }
}

/// The fields of a builder that are not the optional ones read from text.
pub open spec fn same_required_fields(a: IssuerBuilder, b: IssuerBuilder) -> bool {
    &&& a.id_spec() == b.id_spec()
    &&& a.status_spec() == b.status_spec()
    &&& a.created_at_spec() == b.created_at_spec()
}

/// Sets the name read from `name`, if there is one.
fn read_name_field(name: &Option<String>, builder: IssuerBuilder) -> (r: Result<
    IssuerBuilder,
    IssuerMappingError,
>)
    ensures
        r is Err <==> name_field_fails(*name),
        r is Err ==> (r matches Err(IssuerMappingError::Name(e)) && name_error_for(*name, e)),
        r matches Ok(b) ==> {
            &&& same_required_fields(builder, b)
            &&& b.cnpj_spec() == builder.cnpj_spec()
            &&& b.lei_spec() == builder.lei_spec()
            &&& b.country_code_spec() == builder.country_code_spec()
            &&& (name is None ==> b.name_spec() == builder.name_spec())
            &&& (name matches Some(n) ==> (b.name_spec() matches Some(v) && v.view() == trimmed(n@)))
        },
{
    match name {
        Some(n) => match IssuerName::new(n.as_str()) {
            Ok(v) => Ok(builder.name(v)),
            Err(e) => Err(IssuerMappingError::Name(e)),
        },
        None => Ok(builder),
    }
}

/// Sets the CNPJ read from `cnpj`, if there is one.
fn read_cnpj_field(cnpj: &Option<String>, builder: IssuerBuilder) -> (r: Result<
    IssuerBuilder,
    IssuerMappingError,
>)
    ensures
        r is Err <==> cnpj_field_fails(*cnpj),
        cnpj_field_fails(*cnpj) ==> r == Err::<IssuerBuilder, IssuerMappingError>(
            IssuerMappingError::Cnpj(cnpj_parse(cnpj->Some_0@)->Err_0),
        ),
        r matches Ok(b) ==> {
            &&& same_required_fields(builder, b)
            &&& b.name_spec() == builder.name_spec()
            &&& b.lei_spec() == builder.lei_spec()
            &&& b.country_code_spec() == builder.country_code_spec()
            &&& (cnpj is None ==> b.cnpj_spec() == builder.cnpj_spec())
            &&& (cnpj matches Some(c) ==> (b.cnpj_spec() matches Some(v) && v.view() == cnpj_parse(
                c@,
            )->Ok_0))
        },
{
    match cnpj {
        Some(c) => match Cnpj::parse(c.as_str()) {
            Ok(v) => Ok(builder.cnpj(v)),
            Err(e) => Err(IssuerMappingError::Cnpj(e)),
        },
        None => Ok(builder),
    }
}

/// Sets the LEI read from `lei`, if there is one.
fn read_lei_field(lei: &Option<String>, builder: IssuerBuilder) -> (r: Result<
    IssuerBuilder,
    IssuerMappingError,
>)
    ensures
        r is Err <==> lei_field_fails(*lei),
        lei_field_fails(*lei) ==> r == Err::<IssuerBuilder, IssuerMappingError>(
            IssuerMappingError::Lei(lei_parse(lei->Some_0@)->Err_0),
        ),
        r matches Ok(b) ==> {
            &&& same_required_fields(builder, b)
            &&& b.name_spec() == builder.name_spec()
            &&& b.cnpj_spec() == builder.cnpj_spec()
            &&& b.country_code_spec() == builder.country_code_spec()
            &&& (lei is None ==> b.lei_spec() == builder.lei_spec())
            &&& (lei matches Some(l) ==> (b.lei_spec() matches Some(v) && v.view() == lei_parse(
                l@,
            )->Ok_0))
        },
{
    match lei {
        Some(l) => match Lei::parse(l.as_str()) {
            Ok(v) => Ok(builder.lei(v)),
            Err(e) => Err(IssuerMappingError::Lei(e)),
        },
        None => Ok(builder),
    }
}

/// Sets the country code read from `country`, if there is one.
fn read_country_field(country: &Option<String>, builder: IssuerBuilder) -> (r: Result<
    IssuerBuilder,
    IssuerMappingError,
>)
    ensures
        r is Err <==> country_field_fails(*country),
        r is Err ==> (r matches Err(IssuerMappingError::CountryCode(e)) && country_parse_outcome(
            country->Some_0@,
            Err(e),
        )),
        r matches Ok(b) ==> {
            &&& same_required_fields(builder, b)
            &&& b.name_spec() == builder.name_spec()
            &&& b.cnpj_spec() == builder.cnpj_spec()
            &&& b.lei_spec() == builder.lei_spec()
            &&& (country is None ==> b.country_code_spec() == builder.country_code_spec())
            &&& (country matches Some(c) ==> (b.country_code_spec() matches Some(v) && v.view()
                == country_normalize(c@)->Ok_0))
        },
{
    match country {
        Some(c) => match CountryCode::parse(c.as_str()) {
            Ok(v) => Ok(builder.country_code(v)),
            Err(e) => Err(IssuerMappingError::CountryCode(e)),
        },
        None => Ok(builder),
    }
}

/// What the issuer read from a message holds, field by field.
pub open spec fn issuer_matches_message(i: Issuer, msg: IssuerMessage) -> bool {
    &&& i.id_spec().view() == uuid_parsed(msg.id@)->Ok_0
    &&& Ok::<IssuerStatus, IssuerStatusError>(i.status_spec()) == IssuerStatus::from_uppercase_spec(
        unicode_uppercase(msg.status@),
    )
    &&& i.created_at_spec() == rfc3339_parsed(msg.created_at@)->Ok_0
    &&& (i.name_spec() is Some <==> msg.name is Some)
    &&& (msg.name matches Some(n) ==> i.name_spec()->Some_0.view() == trimmed(n@))
    &&& (i.cnpj_spec() is Some <==> msg.cnpj is Some)
    &&& (msg.cnpj matches Some(c) ==> i.cnpj_spec()->Some_0.view() == cnpj_parse(c@)->Ok_0)
    &&& (i.lei_spec() is Some <==> msg.lei is Some)
    &&& (msg.lei matches Some(l) ==> i.lei_spec()->Some_0.view() == lei_parse(l@)->Ok_0)
    &&& (msg.country_code matches Some(c) ==> i.country_code_spec()->Some_0.view()
        == country_normalize(c@)->Ok_0)
    &&& ((msg.country_code is None && msg.cnpj is Some) ==> (i.country_code_spec() matches Some(c)
        && is_brazil(c.view())))
    &&& ((msg.country_code is None && msg.cnpj is None) ==> i.country_code_spec() is None)
}

/// Turns an issuer message from the engine into a versioned issuer, failing
/// at the first field that does not read (see `issuer_message_failure`).
pub fn issuer_from_message(msg: &IssuerMessage) -> (r: Result<Versioned<Issuer>, IssuerMappingError>)
    ensures
        r is Ok <==> issuer_message_failure(*msg) == 0,
        issuer_message_failure(*msg) == 1 ==> (r matches Err(IssuerMappingError::InvalidId(e))
            && e@ == uuid_parsed(msg.id@)->Err_0),
        issuer_message_failure(*msg) == 2 ==> r matches Err(IssuerMappingError::Status(_)),
        issuer_message_failure(*msg) == 3 ==> (r matches Err(IssuerMappingError::InvalidTimestamp(e))
            && e@ == rfc3339_parsed(msg.created_at@)->Err_0),
        issuer_message_failure(*msg) == 4 ==> (r matches Err(IssuerMappingError::Name(e))
            && name_error_for(msg.name, e)),
        issuer_message_failure(*msg) == 5 ==> r == Err::<Versioned<Issuer>, IssuerMappingError>(
            IssuerMappingError::Cnpj(cnpj_parse(msg.cnpj->Some_0@)->Err_0),
        ),
        issuer_message_failure(*msg) == 6 ==> r == Err::<Versioned<Issuer>, IssuerMappingError>(
            IssuerMappingError::Lei(lei_parse(msg.lei->Some_0@)->Err_0),
        ),
        issuer_message_failure(*msg) == 7 ==> (r matches Err(IssuerMappingError::CountryCode(e))
            && country_parse_outcome(msg.country_code->Some_0@, Err(e))),
        issuer_message_failure(*msg) == 8 ==> r matches Err(
            IssuerMappingError::Builder(IssuerBuilderError::InvalidCountryForCnpj(_)),
        ),
        r matches Ok(v) ==> v.version == msg.version && issuer_matches_message(v.data, *msg),
{
    let id = match parse_issuer_id(msg.id.as_str()) {
        Ok(id) => id,
        Err(e) => return Err(e),
    };
    let status = match IssuerStatus::from_text(msg.status.as_str()) {
        Ok(s) => s,
        Err(e) => return Err(IssuerMappingError::Status(e)),
    };
    let created_at = match parse_timestamp(msg.created_at.as_str()) {
        Ok(t) => t,
        Err(e) => return Err(e),
    };
    let builder = Issuer::builder().id(id).status(status).created_at(created_at);
    let builder = match read_name_field(&msg.name, builder) {
        Ok(b) => b,
        Err(e) => return Err(e),
    };
    let builder = match read_cnpj_field(&msg.cnpj, builder) {
        Ok(b) => b,
        Err(e) => return Err(e),
    };
    let builder = match read_lei_field(&msg.lei, builder) {
        Ok(b) => b,
        Err(e) => return Err(e),
    };
    let builder = match read_country_field(&msg.country_code, builder) {
        Ok(b) => b,
        Err(e) => return Err(e),
    };
    match builder.build() {
        Ok(issuer) => Ok(Versioned { data: issuer, version: msg.version }),
        Err(e) => Err(IssuerMappingError::Builder(e)),
    }
}

/// The registration message for an issuer.
pub fn issuer_to_register_message(issuer: &Issuer, dry_run: bool) -> (r: RegisterIssuerMessage)
    ensures
        r.dry_run == dry_run,
        r.name is Some <==> issuer.name_spec() is Some,
        r.name matches Some(n) ==> n@ == issuer.name_spec()->Some_0.view(),
        r.status matches Some(s) && s@ == issuer.status_spec().text(),
        r.cnpj is Some <==> issuer.cnpj_spec() is Some,
        r.cnpj matches Some(c) ==> c@ == crate::text::bytes_as_chars(issuer.cnpj_spec()->Some_0.view()),
        r.lei is Some <==> issuer.lei_spec() is Some,
        r.lei matches Some(l) ==> l@ == crate::text::bytes_as_chars(issuer.lei_spec()->Some_0.view()),
        r.country_code is Some <==> issuer.country_code_spec() is Some,
        r.country_code matches Some(c) ==> c@ == crate::text::bytes_as_chars(
            issuer.country_code_spec()->Some_0.view(),
        ),
{
    let name = match issuer.name() {
        Some(n) => Some(String::from_str(n.as_str())),
        None => None,
    };
    let cnpj = match issuer.cnpj() {
        Some(c) => Some(String::from_str(c.as_str())),
        None => None,
    };
    let lei = match issuer.lei() {
        Some(l) => Some(String::from_str(l.as_str())),
        None => None,
    };
    let country_code = match issuer.country_code() {
        Some(c) => Some(String::from_str(c.as_str())),
        None => None,
    };
    RegisterIssuerMessage {
        name,
        status: Some(String::from_str(issuer.status().as_str())),
        cnpj,
        lei,
        country_code,
        dry_run,
    }
}

} // verus!

verus! {

/// A background task as the engine reports it: the bytes of its id, its
/// name, and its creation time.
#[derive(Debug, Clone, PartialEq, Eq)]
pub struct BackgroundTaskDetail {
    pub id: [u8; 16],
    pub name: String,
    pub created_at: UtcInstant,
}

/// A protobuf timestamp as the engine sends it: seconds since the Unix
/// epoch and nanoseconds, not yet normalized.
#[derive(Debug, Clone, Copy, PartialEq, Eq)]
pub struct ProtoTimestamp {
    pub seconds: i64,
    pub nanos: i32,
}

/// A background task as it arrives from the engine: the bytes of its id,
/// its name, and its creation time, which may be missing.
#[derive(Debug, Clone)]
pub struct BackgroundTaskMessage {
    pub id: Vec<u8>,
    pub name: String,
    pub created_at: Option<ProtoTimestamp>,
}

/// Wraps `SystemTime::try_from` of `prost_types` on a protobuf timestamp,
/// read in UTC through `DateTime::<Utc>::from`, `timestamp` and
/// `timestamp_subsec_nanos`. `DateTime::<Utc>::from` panics beyond the range
/// of `DateTime`, which `requires` leaves out. A reading that succeeds is the
/// same instant, its nanoseconds carried into the seconds. Whether it
/// succeeds rests on the range of the platform's `SystemTime`, so that is not
/// stated, nor the text of a refusal.
#[verifier::external_body]
pub(crate) fn proto_timestamp_instant(seconds: i64, nanos: i32) -> (r: Result<UtcInstant, String>)
    requires
        proto_timestamp_in_range(seconds, nanos),
    ensures
        r matches Ok(i) ==> 0 <= i.nanos < 1_000_000_000 && i.seconds * 1_000_000_000 + i.nanos
            == seconds * 1_000_000_000 + nanos,
{
    match std::time::SystemTime::try_from(prost_types::Timestamp { seconds, nanos }) {
        Ok(st) => {
            let dt = chrono::DateTime::<chrono::Utc>::from(st);
            Ok(UtcInstant { seconds: dt.timestamp(), nanos: dt.timestamp_subsec_nanos() })
        },
        Err(e) => Err(e.to_string()),
    }
}

/// What `uuid::Uuid::from_slice` reports for a slice of the wrong length.
pub open spec fn uuid_length_error(len: nat) -> Seq<char> {
    "invalid length: expected 16 bytes, found "@ + decimal(len)
}

/// Wraps `uuid::Uuid::from_slice`: sixteen bytes are taken as they are; any
/// other length is refused with the crate's message, which names it.
#[verifier::external_body]
fn uuid_from_slice(b: &[u8]) -> (r: Result<[u8; 16], String>)
    ensures
        b@.len() == 16 ==> r is Ok && r.unwrap()@ == b@,
        b@.len() != 16 ==> r is Err && r.unwrap_err()@ == uuid_length_error(b@.len()),
{
    match uuid::Uuid::from_slice(b) {
        Ok(u) => Ok(u.into_bytes()),
        Err(e) => Err(e.to_string()),
    }
}

/// The message for a task whose id is not sixteen bytes.
pub open spec fn malformed_uuid_message(len: nat) -> Seq<char> {
    "Malformed UUID: "@ + uuid_length_error(len)
}

/// What reading one task gives, for the reading of its creation time: a
/// malformed id first, then a missing or refused creation time, each as an
/// invalid response.
pub open spec fn task_outcome(
    id: Seq<u8>,
    name: Seq<char>,
    created_at: Option<Result<UtcInstant, String>>,
    r: Result<BackgroundTaskDetail, ClientError>,
) -> bool {
    if id.len() != 16 {
        r matches Err(ClientError::InvalidResponse(m)) && m@ == malformed_uuid_message(id.len())
    } else {
        match created_at {
            None => r matches Err(ClientError::InvalidResponse(m)) && m@
                == "Missing created_at timestamp"@,
            Some(Err(e)) => r matches Err(ClientError::InvalidResponse(m)) && m@ == timestamp_refusal(e),
            Some(Ok(t)) => r matches Ok(d) && d.id@ == id && d.name@ == name && d.created_at == t,
        }
    }
}

/// Reads one background task, given the reading of its creation time.
pub fn background_task_detail(
    id: &Vec<u8>,
    name: &String,
    created_at: Option<Result<UtcInstant, String>>,
) -> (r: Result<BackgroundTaskDetail, ClientError>)
    ensures
        task_outcome(id@, name@, created_at, r),
{
    let id = match uuid_from_slice(id.as_slice()) {
        Ok(id) => id,
        Err(e) => {
            let mut m = String::from_str("Malformed UUID: ");
            m.append(e.as_str());
            return Err(ClientError::InvalidResponse(m));
        },
    };
    match created_at {
        None => Err(ClientError::InvalidResponse(String::from_str("Missing created_at timestamp"))),
        Some(Err(e)) => {
            let mut m = String::from_str("Invalid timestamp range: ");
            m.append(e.as_str());
            Err(ClientError::InvalidResponse(m))
        },
        Some(Ok(t)) => Ok(BackgroundTaskDetail { id, name: name.clone(), created_at: t }),
    }
}

/// Whether `read` can be the reading of the creation time `sent`: nothing
/// for a missing time; for a present one, the same instant with its
/// nanoseconds carried into the seconds, or a refusal.
pub open spec fn reads_created_at(sent: Option<ProtoTimestamp>, read: Option<Result<UtcInstant, String>>) -> bool {
    match sent {
        None => read is None,
        Some(t) => match read {
            None => false,
            Some(Err(_)) => true,
            Some(Ok(i)) => 0 <= i.nanos < 1_000_000_000 && i.seconds * 1_000_000_000 + i.nanos
                == t.seconds * 1_000_000_000 + t.nanos,
        },
    }
}

/// Whether a task's creation time, if it has one, lies within the range of
/// a `chrono::DateTime`.
pub open spec fn task_time_in_range(msg: BackgroundTaskMessage) -> bool {
    msg.created_at matches Some(t) ==> proto_timestamp_in_range(t.seconds, t.nanos)
}

/// What reading one task from the engine's reply gives: the outcome for
/// some reading of its creation time.
pub open spec fn task_read(msg: BackgroundTaskMessage, r: Result<BackgroundTaskDetail, ClientError>) -> bool {
    exists|read: Option<Result<UtcInstant, String>>|
        #![trigger reads_created_at(msg.created_at, read)]
        reads_created_at(msg.created_at, read) && task_outcome(msg.id@, msg.name@, read, r)
}

/// Reads one background task from the engine's reply, reading its creation
/// time in UTC.
pub fn background_task_from_message(msg: &BackgroundTaskMessage) -> (r: Result<
    BackgroundTaskDetail,
    ClientError,
>)
    requires
        task_time_in_range(*msg),
    ensures
        task_read(*msg, r),
{
    let read = match msg.created_at {
        None => None,
        Some(t) => Some(proto_timestamp_instant(t.seconds, t.nanos)),
    };
    let r = background_task_detail(&msg.id, &msg.name, read);
    assert(reads_created_at(msg.created_at, read));
    r
}

/// The message for a creation time that could not be read.
pub open spec fn timestamp_refusal(e: String) -> Seq<char> {
    "Invalid timestamp range: "@ + e@
}

/// Whether a task has what reading it needs: sixteen id bytes and a
/// creation time.
pub open spec fn task_reads(msg: BackgroundTaskMessage) -> bool {
    msg.id@.len() == 16 && msg.created_at is Some
}

/// Reads every background task of the engine's reply, in order; the first
/// task that does not read fails the whole reply.
pub fn background_tasks_from_messages(msgs: Vec<BackgroundTaskMessage>) -> (r: Result<
    Vec<BackgroundTaskDetail>,
    ClientError,
>)
    requires
        forall|i: int| 0 <= i < msgs@.len() ==> task_time_in_range(#[trigger] msgs@[i]),
    ensures
        r matches Ok(v) ==> v@.len() == msgs@.len() && forall|i: int|
            0 <= i < msgs@.len() ==> task_read(msgs@[i], Ok(#[trigger] v@[i])),
        r matches Err(e) ==> exists|i: int|
            0 <= i < msgs@.len() && task_read(#[trigger] msgs@[i], Err(e)) && forall|j: int|
                0 <= j < i ==> task_reads(#[trigger] msgs@[j]),
        (forall|i: int| 0 <= i < msgs@.len() ==> task_reads(#[trigger] msgs@[i])) ==> (r is Ok || (r matches Err(
            ClientError::InvalidResponse(m),
        ) && exists|x: String| #[trigger] timestamp_refusal(x) == m@)),
{
    let mut out: Vec<BackgroundTaskDetail> = Vec::new();
    let mut i: usize = 0;
    while i < msgs.len()
        invariant
            i <= msgs@.len(),
            out@.len() == i,
            forall|j: int| 0 <= j < msgs@.len() ==> task_time_in_range(#[trigger] msgs@[j]),
            forall|j: int| 0 <= j < i ==> task_read(msgs@[j], Ok(#[trigger] out@[j])),
            forall|j: int| 0 <= j < i ==> task_reads(#[trigger] msgs@[j]),
        decreases msgs@.len() - i,
    {
        let one = background_task_from_message(&msgs[i]);
        match one {
            Ok(d) => {
                proof {
                    let read = choose|read: Option<Result<UtcInstant, String>>|
                        reads_created_at(msgs@[i as int].created_at, read) && task_outcome(
                            msgs@[i as int].id@,
                            msgs@[i as int].name@,
                            read,
                            Ok(d),
                        );
                    assert(read is Some);
                }
                out.push(d);
            },
            Err(e) => {
                proof {
                    let read = choose|read: Option<Result<UtcInstant, String>>|
                        reads_created_at(msgs@[i as int].created_at, read) && task_outcome(
                            msgs@[i as int].id@,
                            msgs@[i as int].name@,
                            read,
                            Err(e),
                        );
                    if task_reads(msgs@[i as int]) {
                        assert(read matches Some(Err(x)) && e matches ClientError::InvalidResponse(m)
                            && timestamp_refusal(x) == m@);
                    }
                }
                return Err(e);
            },
        }
        i = i + 1;
    }
    Ok(out)
}

/// The status codes of a call, as gRPC names them (`Success` is the code
/// gRPC calls `Ok`).
#[derive(Debug, Clone, Copy, PartialEq, Eq, Structural)]
pub enum RpcCode {
    Success,
    Cancelled,
    Unknown,
    InvalidArgument,
    DeadlineExceeded,
    NotFound,
    AlreadyExists,
    PermissionDenied,
    ResourceExhausted,
    FailedPrecondition,
    Aborted,
    OutOfRange,
    Unimplemented,
    Internal,
    Unavailable,
    DataLoss,
    Unauthenticated,
}

impl RpcCode {
    /// The name of the code, as `Debug` prints it.
    pub open spec fn name(self) -> Seq<char> {
        match self {
            RpcCode::Success => "Ok"@,
            RpcCode::Cancelled => "Cancelled"@,
            RpcCode::Unknown => "Unknown"@,
            RpcCode::InvalidArgument => "InvalidArgument"@,
            RpcCode::DeadlineExceeded => "DeadlineExceeded"@,
            RpcCode::NotFound => "NotFound"@,
            RpcCode::AlreadyExists => "AlreadyExists"@,
            RpcCode::PermissionDenied => "PermissionDenied"@,
            RpcCode::ResourceExhausted => "ResourceExhausted"@,
            RpcCode::FailedPrecondition => "FailedPrecondition"@,
            RpcCode::Aborted => "Aborted"@,
            RpcCode::OutOfRange => "OutOfRange"@,
            RpcCode::Unimplemented => "Unimplemented"@,
            RpcCode::Internal => "Internal"@,
            RpcCode::Unavailable => "Unavailable"@,
            RpcCode::DataLoss => "DataLoss"@,
            RpcCode::Unauthenticated => "Unauthenticated"@,
        }
    }

    pub fn as_str(&self) -> (r: &'static str)
        ensures
            r@ == self.name(),
    {
        match self {
            RpcCode::Success => "Ok",
            RpcCode::Cancelled => "Cancelled",
            RpcCode::Unknown => "Unknown",
            RpcCode::InvalidArgument => "InvalidArgument",
            RpcCode::DeadlineExceeded => "DeadlineExceeded",
            RpcCode::NotFound => "NotFound",
            RpcCode::AlreadyExists => "AlreadyExists",
            RpcCode::PermissionDenied => "PermissionDenied",
            RpcCode::ResourceExhausted => "ResourceExhausted",
            RpcCode::FailedPrecondition => "FailedPrecondition",
            RpcCode::Aborted => "Aborted",
            RpcCode::OutOfRange => "OutOfRange",
            RpcCode::Unimplemented => "Unimplemented",
            RpcCode::Internal => "Internal",
            RpcCode::Unavailable => "Unavailable",
            RpcCode::DataLoss => "DataLoss",
            RpcCode::Unauthenticated => "Unauthenticated",
        }
    }
}

/// The error a failed call becomes: an unavailable engine is unreachable on
/// its socket; any other code is a failed call that names the code.
pub fn map_status(socket: &str, code: RpcCode, message: &str) -> (r: ClientError)
    ensures
        code == RpcCode::Unavailable ==> (r matches ClientError::Unreachable { socket: s, message: m }
            && s@ == socket@ && m@ == message@),
        code != RpcCode::Unavailable ==> (r matches ClientError::Rpc { code: c, message: m } && c@
            == code.name() && m@ == message@),
{
    match code {
        RpcCode::Unavailable => ClientError::Unreachable {
            socket: String::from_str(socket),
            message: String::from_str(message),
        },
        _ => ClientError::Rpc {
            code: String::from_str(code.as_str()),
            message: String::from_str(message),
        },
    }
}

/// The kind of an I/O error found underneath a failed connection.
#[derive(Debug, Clone, Copy, PartialEq, Eq, Structural)]
pub enum IoFailureKind {
    ConnectionRefused,
    NotFound,
    Other,
}

/// The first I/O error underneath a failed connection: its kind and its
/// message.
#[derive(Debug, Clone)]
pub struct IoFailure {
    pub kind: IoFailureKind,
    pub message: String,
}

/// The error a failed connection becomes: a refused connection or a missing
/// socket means no engine is running; another I/O error, or a failure with
/// none underneath, means the engine is unreachable, with that message.
pub fn classify_connect_error(socket: &str, io: Option<IoFailure>, transport_message: &str) -> (r:
    ClientError)
    ensures
        match io {
            Some(f) => if f.kind == IoFailureKind::ConnectionRefused || f.kind == IoFailureKind::NotFound {
                (r matches ClientError::NotRunning { socket: s } && s@ == socket@)
            } else {
                (r matches ClientError::Unreachable { socket: s, message: m } && s@ == socket@ && m@
                    == f.message@)
            },
            None => (r matches ClientError::Unreachable { socket: s, message: m } && s@ == socket@
                && m@ == transport_message@),
        },
{
    match io {
        Some(f) => match f.kind {
            IoFailureKind::ConnectionRefused | IoFailureKind::NotFound => ClientError::NotRunning {
                socket: String::from_str(socket),
            },
            IoFailureKind::Other => ClientError::Unreachable {
                socket: String::from_str(socket),
                message: f.message,
            },
        },
        None => ClientError::Unreachable {
            socket: String::from_str(socket),
            message: String::from_str(transport_message),
        },
    }
}

} // verus!
