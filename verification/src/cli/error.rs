//! The failures of a command and the problem documents they are reported
//! as: a type slug, a title, an exit status in the `sysexits` tradition,
//! the message, structured extension members and the chain of causes.
use vstd::prelude::*;
use crate::cli::problem::{
    json_object_parsed, json_string, json_string_text, members_view, parse_json_object,
    ProblemDetail,
};
use crate::domain::issuer::{
    issuer_builder_error_message, issuer_name_error_message, IssuerBuilderError, IssuerNameError,
    IssuerStatusError,
};
use crate::engine_client::{client_error_message, ClientError};
use crate::identifiers::cnpj::cnpj_error_message;
use crate::identifiers::country_code::country_error_message;
use crate::identifiers::lei::lei_error_message;
use crate::identifiers::{CnpjError, CountryCodeError, LeiError};
use crate::text::{decimal, push_decimal};

verus! {

/// Wrong command line arguments.
pub const EXIT_USAGE: u16 = 64;

/// The input data was incorrect in some way.
pub const EXIT_DATAERR: u16 = 65;

/// An input file could not be read or parsed.
pub const EXIT_NOINPUT: u16 = 66;

/// The engine is not running or cannot be reached.
pub const EXIT_UNAVAILABLE: u16 = 69;

/// An internal software error.
pub const EXIT_SOFTWARE: u16 = 70;

/// An I/O error.
pub const EXIT_IOERR: u16 = 74;

/// Something was misconfigured.
pub const EXIT_CONFIG: u16 = 78;

/// The hint given when no engine is running.
pub const NOT_RUNNING_HINT: &'static str = "start the engine with `valqeron-engine run` or install it with `valqeron-engine install`";

/// The statuses an issuer may have, as a JSON array.
pub const ALLOWED_STATUSES_JSON: &'static str = "[\"ACTIVE\",\"RETIRED\"]";

/// The kind of identifier that failed to parse.
#[derive(Debug, Clone, Copy, PartialEq, Eq, Structural)]
pub enum IdentifierKind {
    Cnpj,
    Lei,
    CountryCode,
}

impl IdentifierKind {
    /// The name of the kind in type slugs and messages.
    pub open spec fn slug_text(self) -> Seq<char> {
        match self {
            IdentifierKind::Cnpj => "cnpj"@,
            IdentifierKind::Lei => "lei"@,
            IdentifierKind::CountryCode => "country-code"@,
        }
    }

    /// The name of the input field the identifier comes from.
    pub open spec fn field_text(self) -> Seq<char> {
        match self {
            IdentifierKind::Cnpj => "cnpj"@,
            IdentifierKind::Lei => "lei"@,
            IdentifierKind::CountryCode => "country_code"@,
        }
    }

    pub fn slug(self) -> (r: &'static str)
        ensures
            r@ == self.slug_text(),
    {
        match self {
            IdentifierKind::Cnpj => "cnpj",
            IdentifierKind::Lei => "lei",
            IdentifierKind::CountryCode => "country-code",
        }
    }

    pub fn field(self) -> (r: &'static str)
        ensures
            r@ == self.field_text(),
    {
        match self {
            IdentifierKind::Cnpj => "cnpj",
            IdentifierKind::Lei => "lei",
            IdentifierKind::CountryCode => "country_code",
        }
    }

    /// The text `Display` prints: the slug.
    pub fn to_string(&self) -> (r: String)
        ensures
            r@ == self.slug_text(),
    {
        String::from_str(self.slug())
    }
}

/// A problem the engine reported, carried through unchanged. Its extension
/// members arrive as the text of a JSON object.
#[derive(Debug, Clone)]
pub struct EngineProblem {
    pub problem_type: String,
    pub title: String,
    pub status: i32,
    pub detail: String,
    pub extensions_json: String,
    pub causes: Vec<String>,
}

/// Why a command failed.
#[derive(Debug)]
pub enum AppError {
    /// The engine rejected the request with a problem document of its own.
    Engine(Box<EngineProblem>),
    /// The client could not reach or talk to the engine.
    Client(ClientError),
    IssuerBuilder(IssuerBuilderError),
    IssuerName(IssuerNameError),
    IssuerStatus(IssuerStatusError),
    /// An identifier did not parse; `extensions` holds the members to report.
    Identifier { kind: IdentifierKind, message: String, extensions: Vec<(String, String)> },
    InvalidId(String),
    Input(String),
    Io(String),
    Serialize(String),
    Config(String),
    InvalidCliFlag { flag: String, command: String },
}

/// The text `Display` prints for a command failure; an engine problem
/// prints its detail.
pub open spec fn app_error_message(e: AppError) -> Seq<char> {
    match e {
        AppError::Engine(p) => p.detail@,
        AppError::Client(c) => client_error_message(c),
        AppError::IssuerBuilder(b) => issuer_builder_error_message(b),
        AppError::IssuerName(n) => issuer_name_error_message(n),
        AppError::IssuerStatus(_) => "Invalid status. Must be one of: [\"ACTIVE\", \"RETIRED\"]"@,
        AppError::Identifier { kind, message, .. } => "invalid "@ + kind.slug_text()
            + " identifier: "@ + message@,
        AppError::InvalidId(m) => "invalid issuer id: "@ + m@,
        AppError::Input(m) => "failed to read JSON input: "@ + m@,
        AppError::Io(m) => "I/O error: "@ + m@,
        AppError::Serialize(m) => "failed to serialize output: "@ + m@,
        AppError::Config(m) => "configuration error: "@ + m@,
        AppError::InvalidCliFlag { flag, command } => "Command line flag `"@ + flag@
            + "` is not valid for `"@ + command@ + "`."@,
    }
}

/// The type slug of a command failure.
pub open spec fn app_error_type(e: AppError) -> Seq<char> {
    match e {
        AppError::Engine(_) => "engine/problem"@,
        AppError::Client(c) => match c {
            ClientError::NotRunning { .. } => "engine/not-running"@,
            ClientError::Unreachable { .. } => "engine/unreachable"@,
            ClientError::VersionMismatch { .. } => "engine/version-mismatch"@,
            ClientError::Rpc { .. } => "engine/rpc-failed"@,
            ClientError::Config(_) => "config/invalid"@,
            ClientError::InvalidResponse(_) => "engine/invalid-response"@,
            ClientError::Runtime(_) => "engine/client-runtime"@,
        },
        AppError::IssuerBuilder(b) => match b {
            IssuerBuilderError::InvalidCountryForCnpj(_) => "issuer/validation/country-cnpj-mismatch"@,
            IssuerBuilderError::NameError(_) => "issuer/validation/name"@,
            IssuerBuilderError::CountryCodeError(_) => "identifier/country-code-invalid"@,
        },
        AppError::IssuerName(n) => match n {
            IssuerNameError::Empty => "issuer/validation/name-empty"@,
            IssuerNameError::TooLong { .. } => "issuer/validation/name-too-long"@,
        },
        AppError::IssuerStatus(_) => "issuer/validation/status"@,
        AppError::Identifier { kind, .. } => match kind {
            IdentifierKind::Cnpj => "identifier/cnpj-invalid"@,
            IdentifierKind::Lei => "identifier/lei-invalid"@,
            IdentifierKind::CountryCode => "identifier/country-code-invalid"@,
        },
        AppError::InvalidId(_) => "issuer/invalid-id"@,
        AppError::Input(_) => "input/parse"@,
        AppError::Io(_) => "io/failed"@,
        AppError::Serialize(_) => "io/serialize-failed"@,
        AppError::Config(_) => "config/invalid"@,
        AppError::InvalidCliFlag { .. } => "cli/invalid-flag"@,
    }
}

/// The title of a command failure.
pub open spec fn app_error_title(e: AppError) -> Seq<char> {
    match e {
        AppError::Engine(p) => p.title@,
        AppError::Client(c) => match c {
            ClientError::NotRunning { .. } => "Engine not running"@,
            ClientError::Unreachable { .. } => "Engine unreachable"@,
            ClientError::VersionMismatch { .. } => "Engine version mismatch"@,
            ClientError::Rpc { .. } => "Engine call failed"@,
            ClientError::Config(_) => "Invalid configuration"@,
            ClientError::InvalidResponse(_) => "Invalid engine response"@,
            ClientError::Runtime(_) => "Client runtime error"@,
        },
        AppError::IssuerBuilder(_) => "Issuer validation failed"@,
        AppError::IssuerName(_) => "Issuer validation failed"@,
        AppError::IssuerStatus(_) => "Issuer validation failed"@,
        AppError::Identifier { .. } => "Invalid identifier"@,
        AppError::InvalidId(_) => "Invalid issuer id"@,
        AppError::Input(_) => "Invalid input"@,
        AppError::Io(_) => "I/O error"@,
        AppError::Serialize(_) => "Serialization error"@,
        AppError::Config(_) => "Invalid configuration"@,
        AppError::InvalidCliFlag { flag, command } => "Invalid flag `"@ + flag@ + "` for `"@
            + command@ + "`"@,
    }
}

/// The exit status an engine problem's status becomes: itself where it
/// lies in `0..=255`, 255 otherwise.
pub open spec fn engine_exit_status(status: i32) -> u16 {
    if 0 <= status <= 255 {
        status as u16
    } else {
        255
    }
}

/// The exit status of a command failure.
pub open spec fn app_error_status(e: AppError) -> u16 {
    match e {
        AppError::Engine(p) => engine_exit_status(p.status),
        AppError::Client(c) => match c {
            ClientError::NotRunning { .. } => EXIT_UNAVAILABLE,
            ClientError::Unreachable { .. } => EXIT_UNAVAILABLE,
            ClientError::VersionMismatch { .. } => EXIT_CONFIG,
            ClientError::Config(_) => EXIT_CONFIG,
            ClientError::Rpc { .. } => EXIT_SOFTWARE,
            ClientError::InvalidResponse(_) => EXIT_SOFTWARE,
            ClientError::Runtime(_) => EXIT_SOFTWARE,
        },
        AppError::IssuerBuilder(_) => EXIT_DATAERR,
        AppError::IssuerName(_) => EXIT_DATAERR,
        AppError::IssuerStatus(_) => EXIT_DATAERR,
        AppError::Identifier { .. } => EXIT_DATAERR,
        AppError::InvalidId(_) => EXIT_DATAERR,
        AppError::Input(_) => EXIT_NOINPUT,
        AppError::Io(_) => EXIT_IOERR,
        AppError::Serialize(_) => EXIT_SOFTWARE,
        AppError::Config(_) => EXIT_CONFIG,
        AppError::InvalidCliFlag { .. } => EXIT_USAGE,
    }
}

/// The extension members of a failure other than an engine problem, each
/// value as JSON text.
pub open spec fn app_error_extensions(e: AppError) -> Seq<(Seq<char>, Seq<char>)> {
    match e {
        AppError::Client(ClientError::NotRunning { socket }) => seq![
            ("socket"@, json_string_text(socket@)),
            ("hint"@, json_string_text(NOT_RUNNING_HINT@)),
        ],
        AppError::Client(ClientError::Unreachable { socket, .. }) => seq![
            ("socket"@, json_string_text(socket@)),
        ],
        AppError::Client(
            ClientError::VersionMismatch {
                client_protocol,
                engine_protocol,
                client_version,
                engine_version,
            },
        ) => seq![
            ("client_protocol"@, decimal(client_protocol as nat)),
            ("engine_protocol"@, decimal(engine_protocol as nat)),
            ("client_version"@, json_string_text(client_version@)),
            ("engine_version"@, json_string_text(engine_version@)),
        ],
        AppError::IssuerBuilder(IssuerBuilderError::InvalidCountryForCnpj(cc)) => seq![
            ("country_code"@, json_string_text(cc@)),
        ],
        AppError::IssuerName(IssuerNameError::TooLong { max }) => seq![
            ("max"@, decimal(max as nat)),
        ],
        AppError::IssuerStatus(_) => seq![("allowed"@, ALLOWED_STATUSES_JSON@)],
        AppError::Identifier { extensions, .. } => members_view(extensions@),
        _ => seq![],
    }
}

/// The messages of the errors underneath a failure, outermost first: the
/// name or country-code error inside a builder error.
pub open spec fn app_error_causes(e: AppError) -> Seq<Seq<char>> {
    match e {
        AppError::IssuerBuilder(IssuerBuilderError::NameError(n)) => seq![
            issuer_name_error_message(n),
        ],
        AppError::IssuerBuilder(IssuerBuilderError::CountryCodeError(c)) => seq![
            country_error_message(c),
        ],
        _ => seq![],
    }
}

/// Every failure reports a status that is a valid process exit code; a
/// failure of the command line itself (not one the engine reported) uses a
/// code of the `sysexits` set.
pub proof fn law_failure_status_is_exit_code(e: AppError)
    ensures
        app_error_status(e) <= 255,
        !(e is Engine) ==> {
            let s = app_error_status(e);
            s == EXIT_USAGE || s == EXIT_DATAERR || s == EXIT_NOINPUT || s == EXIT_UNAVAILABLE
                || s == EXIT_SOFTWARE || s == EXIT_IOERR || s == EXIT_CONFIG
        },
{
}

/// The texts of a list of strings.
pub open spec fn texts_view(v: Seq<String>) -> Seq<Seq<char>> {
    v.map_values(|s: String| s@)
}

/// The extension members of an identifier failure: the field, and for a
/// CNPJ with a wrong check digit its position and the digits expected and
/// found.
pub open spec fn identifier_members(kind: IdentifierKind, extra: Seq<(Seq<char>, Seq<char>)>) -> Seq<
    (Seq<char>, Seq<char>),
> {
    seq![("field"@, json_string_text(kind.field_text()))] + extra
}

/// The check-digit members a CNPJ error adds.
pub open spec fn cnpj_extra_members(e: CnpjError) -> Seq<(Seq<char>, Seq<char>)> {
    match e {
        CnpjError::InvalidCheckDigits { position, expected, found } => seq![
            ("position"@, decimal(position as nat)),
            ("expected"@, decimal(expected as nat)),
            ("found"@, decimal(found as nat)),
        ],
        _ => seq![],
    }
}


/// The decimal text of a number.
fn number_text(n: u64) -> (r: String)
    ensures
        r@ == decimal(n as nat),
{
    let mut s = String::new();
    push_decimal(&mut s, n);
    s
}

/// A copy of a list of strings.
fn copy_texts(v: &Vec<String>) -> (r: Vec<String>)
    ensures
        texts_view(r@) == texts_view(v@),
{
    let mut out: Vec<String> = Vec::new();
    let mut i: usize = 0;
    while i < v.len()
        invariant
            i <= v@.len(),
            texts_view(out@) == texts_view(v@.subrange(0, i as int)),
        decreases v@.len() - i,
    {
        out.push(v[i].clone());
        assert(texts_view(v@.subrange(0, i as int + 1)) =~= texts_view(v@.subrange(0, i as int))
            .push(v@[i as int]@));
        assert(texts_view(out@) =~= texts_view(v@.subrange(0, i as int)).push(v@[i as int]@));
        i = i + 1;
    }
    assert(v@.subrange(0, v@.len() as int) =~= v@);
    out
}

/// A copy of a list of extension members.
fn copy_members(v: &Vec<(String, String)>) -> (r: Vec<(String, String)>)
    ensures
        members_view(r@) == members_view(v@),
{
    let mut out: Vec<(String, String)> = Vec::new();
    let mut i: usize = 0;
    while i < v.len()
        invariant
            i <= v@.len(),
            members_view(out@) == members_view(v@.subrange(0, i as int)),
        decreases v@.len() - i,
    {
        let k = v[i].0.clone();
        let x = v[i].1.clone();
        out.push((k, x));
        assert(members_view(v@.subrange(0, i as int + 1)) =~= members_view(
            v@.subrange(0, i as int),
        ).push((v@[i as int].0@, v@[i as int].1@)));
        assert(members_view(out@) =~= members_view(v@.subrange(0, i as int)).push(
            (v@[i as int].0@, v@[i as int].1@),
        ));
        i = i + 1;
    }
    assert(v@.subrange(0, v@.len() as int) =~= v@);
    out
}

/// Appends a member to a list of extension members.
fn push_member(v: &mut Vec<(String, String)>, key: &str, value: String)
    ensures
        members_view(final(v)@) == members_view(old(v)@).push((key@, value@)),
{
    v.push((String::from_str(key), value));
    assert(members_view(final(v)@) =~= members_view(old(v)@).push((key@, value@)));
}

impl AppError {
    /// An identifier failure of `kind`, reporting the field and then `extra`.
    fn identifier(kind: IdentifierKind, message: String, extra: Vec<(String, String)>) -> (r: AppError)
        ensures
            r matches AppError::Identifier { kind: k, message: m, extensions } && k == kind && m@
                == message@ && members_view(extensions@) == identifier_members(kind, members_view(
                extra@,
            )),
    {
        let mut extensions: Vec<(String, String)> = Vec::new();
        push_member(&mut extensions, "field", json_string(kind.field()));
        proof {
            reveal_strlit("field");
        }
        let mut i: usize = 0;
        while i < extra.len()
            invariant
                i <= extra@.len(),
                members_view(extensions@) == identifier_members(kind, members_view(
                    extra@.subrange(0, i as int),
                )),
            decreases extra@.len() - i,
        {
            let k = extra[i].0.clone();
            let x = extra[i].1.clone();
            let ghost before = extensions@;
            let ghost y = (extra@[i as int].0@, extra@[i as int].1@);
            extensions.push((k, x));
            assert(members_view(extensions@) =~= members_view(before).push(y));
            assert(members_view(extra@.subrange(0, i as int + 1)) =~= members_view(
                extra@.subrange(0, i as int),
            ).push(y));
            assert(identifier_members(kind, members_view(extra@.subrange(0, i as int)).push(y))
                =~= identifier_members(kind, members_view(extra@.subrange(0, i as int))).push(y));
            assert(members_view(extensions@) =~= identifier_members(
                kind,
                members_view(extra@.subrange(0, i as int + 1)),
            ));
            i = i + 1;
        }
        assert(extra@.subrange(0, extra@.len() as int) =~= extra@);
        AppError::Identifier { kind, message, extensions }
    }

    /// The failure for a CNPJ that did not parse; a wrong check digit adds
    /// its position and the digits expected and found.
    pub fn from_cnpj_error(err: CnpjError) -> (r: AppError)
        ensures
            r matches AppError::Identifier { kind, message, extensions } && kind
                == IdentifierKind::Cnpj && message@ == cnpj_error_message(err) && members_view(
                extensions@,
            ) == identifier_members(IdentifierKind::Cnpj, cnpj_extra_members(err)),
    {
        let message = err.to_string();
        let mut extra: Vec<(String, String)> = Vec::new();
        if let CnpjError::InvalidCheckDigits { position, expected, found } = err {
            push_member(&mut extra, "position", number_text(position as u64));
            push_member(&mut extra, "expected", number_text(expected as u64));
            push_member(&mut extra, "found", number_text(found as u64));
            proof {
                reveal_strlit("position");
                reveal_strlit("expected");
                reveal_strlit("found");
            }
        }
        assert(members_view(extra@) =~= cnpj_extra_members(err));
        AppError::identifier(IdentifierKind::Cnpj, message, extra)
    }

    /// The failure for a LEI that did not parse.
    pub fn from_lei_error(err: LeiError) -> (r: AppError)
        ensures
            r matches AppError::Identifier { kind, message, extensions } && kind
                == IdentifierKind::Lei && message@ == lei_error_message(err) && members_view(
                extensions@,
            ) == identifier_members(IdentifierKind::Lei, seq![]),
    {
        let message = err.to_string();
        let extra: Vec<(String, String)> = Vec::new();
        assert(members_view(extra@) =~= seq![]);
        AppError::identifier(IdentifierKind::Lei, message, extra)
    }

    /// The failure for a country code that did not parse.
    pub fn from_country_code_error(err: CountryCodeError) -> (r: AppError)
        ensures
            r matches AppError::Identifier { kind, message, extensions } && kind
                == IdentifierKind::CountryCode && message@ == country_error_message(err)
                && members_view(extensions@) == identifier_members(IdentifierKind::CountryCode, seq![]),
    {
        let message = err.to_string();
        let extra: Vec<(String, String)> = Vec::new();
        assert(members_view(extra@) =~= seq![]);
        AppError::identifier(IdentifierKind::CountryCode, message, extra)
    }

    /// The human-readable text of the failure, as `Display` prints it.
    pub fn to_string(&self) -> (r: String)
        ensures
            r@ == app_error_message(*self),
    {
        match self {
            AppError::Engine(p) => p.detail.clone(),
            AppError::Client(c) => c.to_string(),
            AppError::IssuerBuilder(b) => b.to_string(),
            AppError::IssuerName(n) => n.to_string(),
            AppError::IssuerStatus(e) => e.to_string(),
            AppError::Identifier { kind, message, .. } => {
                let mut s = String::from_str("invalid ");
                s.append(kind.slug());
                s.append(" identifier: ");
                s.append(message.as_str());
                s
            },
            AppError::InvalidId(m) => {
                let mut s = String::from_str("invalid issuer id: ");
                s.append(m.as_str());
                s
            },
            AppError::Input(m) => {
                let mut s = String::from_str("failed to read JSON input: ");
                s.append(m.as_str());
                s
            },
            AppError::Io(m) => {
                let mut s = String::from_str("I/O error: ");
                s.append(m.as_str());
                s
            },
            AppError::Serialize(m) => {
                let mut s = String::from_str("failed to serialize output: ");
                s.append(m.as_str());
                s
            },
            AppError::Config(m) => {
                let mut s = String::from_str("configuration error: ");
                s.append(m.as_str());
                s
            },
            AppError::InvalidCliFlag { flag, command } => {
                let mut s = String::from_str("Command line flag `");
                s.append(flag.as_str());
                s.append("` is not valid for `");
                s.append(command.as_str());
                s.append("`.");
                s
            },
        }
    }

    /// The type slug of the failure.
    pub fn problem_type(&self) -> (r: &'static str)
        ensures
            r@ == app_error_type(*self),
    {
        match self {
            AppError::Engine(_) => "engine/problem",
            AppError::Client(e) => match e {
                ClientError::NotRunning { .. } => "engine/not-running",
                ClientError::Unreachable { .. } => "engine/unreachable",
                ClientError::VersionMismatch { .. } => "engine/version-mismatch",
                ClientError::Rpc { .. } => "engine/rpc-failed",
                ClientError::Config(_) => "config/invalid",
                ClientError::InvalidResponse(_) => "engine/invalid-response",
                ClientError::Runtime(_) => "engine/client-runtime",
            },
            AppError::IssuerBuilder(e) => match e {
                IssuerBuilderError::InvalidCountryForCnpj(_) => "issuer/validation/country-cnpj-mismatch",
                IssuerBuilderError::NameError(_) => "issuer/validation/name",
                IssuerBuilderError::CountryCodeError(_) => "identifier/country-code-invalid",
            },
            AppError::IssuerName(e) => match e {
                IssuerNameError::Empty => "issuer/validation/name-empty",
                IssuerNameError::TooLong { .. } => "issuer/validation/name-too-long",
            },
            AppError::IssuerStatus(_) => "issuer/validation/status",
            AppError::Identifier { kind, .. } => match kind {
                IdentifierKind::Cnpj => "identifier/cnpj-invalid",
                IdentifierKind::Lei => "identifier/lei-invalid",
                IdentifierKind::CountryCode => "identifier/country-code-invalid",
            },
            AppError::InvalidId(_) => "issuer/invalid-id",
            AppError::Input(_) => "input/parse",
            AppError::Io(_) => "io/failed",
            AppError::Serialize(_) => "io/serialize-failed",
            AppError::Config(_) => "config/invalid",
            AppError::InvalidCliFlag { .. } => "cli/invalid-flag",
        }
    }

    /// The title of the failure.
    pub fn title(&self) -> (r: String)
        ensures
            r@ == app_error_title(*self),
    {
        match self {
            AppError::Engine(p) => p.title.clone(),
            AppError::Client(e) => match e {
                ClientError::NotRunning { .. } => String::from_str("Engine not running"),
                ClientError::Unreachable { .. } => String::from_str("Engine unreachable"),
                ClientError::VersionMismatch { .. } => String::from_str("Engine version mismatch"),
                ClientError::Rpc { .. } => String::from_str("Engine call failed"),
                ClientError::Config(_) => String::from_str("Invalid configuration"),
                ClientError::InvalidResponse(_) => String::from_str("Invalid engine response"),
                ClientError::Runtime(_) => String::from_str("Client runtime error"),
            },
            AppError::IssuerBuilder(_) => String::from_str("Issuer validation failed"),
            AppError::IssuerName(_) => String::from_str("Issuer validation failed"),
            AppError::IssuerStatus(_) => String::from_str("Issuer validation failed"),
            AppError::Identifier { .. } => String::from_str("Invalid identifier"),
            AppError::InvalidId(_) => String::from_str("Invalid issuer id"),
            AppError::Input(_) => String::from_str("Invalid input"),
            AppError::Io(_) => String::from_str("I/O error"),
            AppError::Serialize(_) => String::from_str("Serialization error"),
            AppError::Config(_) => String::from_str("Invalid configuration"),
            AppError::InvalidCliFlag { flag, command } => {
                let mut s = String::from_str("Invalid flag `");
                s.append(flag.as_str());
                s.append("` for `");
                s.append(command.as_str());
                s.append("`");
                s
            },
        }
    }

    /// The exit status of the failure.
    pub fn status(&self) -> (r: u16)
        ensures
            r == app_error_status(*self),
    {
        match self {
            AppError::Engine(p) => {
                if 0 <= p.status && p.status <= 255 {
                    p.status as u16
                } else {
                    255
                }
            },
            AppError::Client(e) => match e {
                ClientError::NotRunning { .. } => EXIT_UNAVAILABLE,
                ClientError::Unreachable { .. } => EXIT_UNAVAILABLE,
                ClientError::VersionMismatch { .. } => EXIT_CONFIG,
                ClientError::Config(_) => EXIT_CONFIG,
                ClientError::Rpc { .. } => EXIT_SOFTWARE,
                ClientError::InvalidResponse(_) => EXIT_SOFTWARE,
                ClientError::Runtime(_) => EXIT_SOFTWARE,
            },
            AppError::IssuerBuilder(_) => EXIT_DATAERR,
            AppError::IssuerName(_) => EXIT_DATAERR,
            AppError::IssuerStatus(_) => EXIT_DATAERR,
            AppError::Identifier { .. } => EXIT_DATAERR,
            AppError::InvalidId(_) => EXIT_DATAERR,
            AppError::Input(_) => EXIT_NOINPUT,
            AppError::Io(_) => EXIT_IOERR,
            AppError::Serialize(_) => EXIT_SOFTWARE,
            AppError::Config(_) => EXIT_CONFIG,
            AppError::InvalidCliFlag { .. } => EXIT_USAGE,
        }
    }

    /// The extension members of the failure, each value as JSON text; an
    /// engine problem's own members are read by `problem`.
    pub fn extensions(&self) -> (r: Vec<(String, String)>)
        ensures
            members_view(r@) == app_error_extensions(*self),
    {
        let mut ext: Vec<(String, String)> = Vec::new();
        match self {
            AppError::Client(ClientError::NotRunning { socket }) => {
                push_member(&mut ext, "socket", json_string(socket.as_str()));
                push_member(&mut ext, "hint", json_string(NOT_RUNNING_HINT));
                proof {
                    reveal_strlit("socket");
                    reveal_strlit("hint");
                }
            },
            AppError::Client(ClientError::Unreachable { socket, .. }) => {
                push_member(&mut ext, "socket", json_string(socket.as_str()));
                proof {
                    reveal_strlit("socket");
                }
            },
            AppError::Client(
                ClientError::VersionMismatch {
                    client_protocol,
                    engine_protocol,
                    client_version,
                    engine_version,
                },
            ) => {
                push_member(&mut ext, "client_protocol", number_text(*client_protocol as u64));
                push_member(&mut ext, "engine_protocol", number_text(*engine_protocol as u64));
                push_member(&mut ext, "client_version", json_string(client_version.as_str()));
                push_member(&mut ext, "engine_version", json_string(engine_version.as_str()));
                proof {
                    reveal_strlit("client_protocol");
                    reveal_strlit("engine_protocol");
                    reveal_strlit("client_version");
                    reveal_strlit("engine_version");
                }
            },
            AppError::IssuerBuilder(IssuerBuilderError::InvalidCountryForCnpj(cc)) => {
                push_member(&mut ext, "country_code", json_string(cc.as_str()));
                proof {
                    reveal_strlit("country_code");
                }
            },
            AppError::IssuerName(IssuerNameError::TooLong { max }) => {
                push_member(&mut ext, "max", number_text(*max as u64));
                proof {
                    reveal_strlit("max");
                }
            },
            AppError::IssuerStatus(_) => {
                push_member(&mut ext, "allowed", String::from_str(ALLOWED_STATUSES_JSON));
                proof {
                    reveal_strlit("allowed");
                }
            },
            AppError::Identifier { extensions, .. } => {
                return copy_members(extensions);
            },
            _ => {},
        }
        assert(members_view(ext@) =~= app_error_extensions(*self));
        ext
    }

    /// The messages of the errors underneath the failure, outermost first.
    pub fn causes(&self) -> (r: Vec<String>)
        ensures
            texts_view(r@) == app_error_causes(*self),
    {
        let mut causes: Vec<String> = Vec::new();
        match self {
            AppError::IssuerBuilder(IssuerBuilderError::NameError(n)) => {
                causes.push(n.to_string());
            },
            AppError::IssuerBuilder(IssuerBuilderError::CountryCodeError(c)) => {
                causes.push(c.to_string());
            },
            _ => {},
        }
        assert(texts_view(causes@) =~= app_error_causes(*self));
        causes
    }

    /// The problem document of the failure built from its own parts: type,
    /// title, status, message, extension members and causes.
    pub fn to_problem_detail(&self) -> (r: ProblemDetail)
        ensures
            r.problem_type@ == app_error_type(*self),
            r.title@ == app_error_title(*self),
            r.status == app_error_status(*self),
            r.detail@ == app_error_message(*self),
            members_view(r.extensions@) == app_error_extensions(*self),
            texts_view(r.causes@) == app_error_causes(*self),
    {
        ProblemDetail {
            problem_type: String::from_str(self.problem_type()),
            title: self.title(),
            status: self.status(),
            detail: self.to_string(),
            extensions: self.extensions(),
            causes: self.causes(),
        }
    }

    /// The problem document reported for the failure: an engine problem
    /// passes through as the engine sent it (its members read from their
    /// JSON text, none where that text is not a JSON object, and its status
    /// capped to an exit status); any other failure is described by its own
    /// parts.
    pub fn problem(&self) -> (r: ProblemDetail)
        ensures
            match *self {
                AppError::Engine(p) => {
                    &&& r.problem_type@ == p.problem_type@
                    &&& r.title@ == p.title@
                    &&& r.status == engine_exit_status(p.status)
                    &&& r.detail@ == p.detail@
                    &&& members_view(r.extensions@) == match json_object_parsed(
                        p.extensions_json@,
                    ) {
                        Some(m) => m,
                        None => seq![],
                    }
                    &&& texts_view(r.causes@) == texts_view(p.causes@)
                },
                _ => {
                    &&& r.problem_type@ == app_error_type(*self)
                    &&& r.title@ == app_error_title(*self)
                    &&& r.status == app_error_status(*self)
                    &&& r.detail@ == app_error_message(*self)
                    &&& members_view(r.extensions@) == app_error_extensions(*self)
                    &&& texts_view(r.causes@) == app_error_causes(*self)
                },
            },
    {
        match self {
            AppError::Engine(p) => {
                let extensions = match parse_json_object(p.extensions_json.as_str()) {
                    Some(m) => m,
                    None => {
                        let empty: Vec<(String, String)> = Vec::new();
                        assert(members_view(empty@) =~= seq![]);
                        empty
                    },
                };
                ProblemDetail {
                    problem_type: p.problem_type.clone(),
                    title: p.title.clone(),
                    status: self.status(),
                    detail: p.detail.clone(),
                    extensions,
                    causes: copy_texts(&p.causes),
                }
            },
            _ => self.to_problem_detail(),
        }
    }
}

impl From<ClientError> for AppError {
    fn from(e: ClientError) -> (r: AppError) {
        AppError::Client(e)
    }
}

impl vstd::std_specs::convert::FromSpecImpl<ClientError> for AppError {
    open spec fn obeys_from_spec() -> bool {
        true
    }

    open spec fn from_spec(v: ClientError) -> AppError {
        AppError::Client(v)
    }
}

impl From<IssuerBuilderError> for AppError {
    fn from(e: IssuerBuilderError) -> (r: AppError) {
        AppError::IssuerBuilder(e)
    }
}

impl vstd::std_specs::convert::FromSpecImpl<IssuerBuilderError> for AppError {
    open spec fn obeys_from_spec() -> bool {
        true
    }

    open spec fn from_spec(v: IssuerBuilderError) -> AppError {
        AppError::IssuerBuilder(v)
    }
}

impl From<IssuerNameError> for AppError {
    fn from(e: IssuerNameError) -> (r: AppError) {
        AppError::IssuerName(e)
    }
}

impl vstd::std_specs::convert::FromSpecImpl<IssuerNameError> for AppError {
    open spec fn obeys_from_spec() -> bool {
        true
    }

    open spec fn from_spec(v: IssuerNameError) -> AppError {
        AppError::IssuerName(v)
    }
}

impl From<IssuerStatusError> for AppError {
    fn from(e: IssuerStatusError) -> (r: AppError) {
        AppError::IssuerStatus(e)
    }
}

impl vstd::std_specs::convert::FromSpecImpl<IssuerStatusError> for AppError {
    open spec fn obeys_from_spec() -> bool {
        true
    }

    open spec fn from_spec(v: IssuerStatusError) -> AppError {
        AppError::IssuerStatus(v)
    }
}

/// Exit statuses follow sysexits(3): a flag that does not belong to the
/// command is a usage error (64, EX_USAGE); input that does not validate is
/// a data error (65, EX_DATAERR); missing input is 66 (EX_NOINPUT); an engine
/// that is not running or cannot be reached is unavailable (69,
/// EX_UNAVAILABLE); a failed engine call, an invalid reply, a client runtime
/// failure or a serialization failure is an internal error (70,
/// EX_SOFTWARE); an I/O failure is 74 (EX_IOERR); a configuration error or a
/// version mismatch is 78 (EX_CONFIG). A problem the engine reports keeps its
/// own status where that lies in `0..=255`, and is 255 otherwise.
pub proof fn law_exit_statuses_follow_sysexits(e: AppError)
    ensures
        e matches AppError::InvalidCliFlag { .. } ==> app_error_status(e) == 64,
        (e matches AppError::IssuerBuilder(_) || e matches AppError::IssuerName(_)
            || e matches AppError::IssuerStatus(_) || e matches AppError::Identifier { .. }
            || e matches AppError::InvalidId(_)) ==> app_error_status(e) == 65,
        e matches AppError::Input(_) ==> app_error_status(e) == 66,
        (e matches AppError::Client(ClientError::NotRunning { .. }) || e matches AppError::Client(
            ClientError::Unreachable { .. },
        )) ==> app_error_status(e) == 69,
        (e matches AppError::Client(ClientError::Rpc { .. }) || e matches AppError::Client(
            ClientError::InvalidResponse(_),
        ) || e matches AppError::Client(ClientError::Runtime(_)) || e matches AppError::Serialize(_))
            ==> app_error_status(e) == 70,
        e matches AppError::Io(_) ==> app_error_status(e) == 74,
        (e matches AppError::Config(_) || e matches AppError::Client(ClientError::Config(_))
            || e matches AppError::Client(ClientError::VersionMismatch { .. })) ==> app_error_status(e)
            == 78,
        e matches AppError::Engine(p) ==> (0 <= p.status <= 255 ==> app_error_status(e) == p.status)
            && (!(0 <= p.status <= 255) ==> app_error_status(e) == 255),
{
}

/// An engine that cannot be reached fails a command exactly as one that is
/// not running does: both exit as unavailable.
pub proof fn law_unreachable_exits_as_not_running(socket: String, message: String, other: String)
    ensures
        app_error_status(AppError::Client(ClientError::Unreachable { socket, message }))
            == app_error_status(AppError::Client(ClientError::NotRunning { socket: other })),
        app_error_status(AppError::Client(ClientError::Unreachable { socket, message })) == 69,
{
}

} // verus!
