use std::cell::{Cell, RefCell};
use valqeron::cli::args::{
    Cli, Commands, EngineCommand, InfoArgs, ListArgs, ListBackgroundTasksArgs, LogLevel, PingArgs,
    RegisterArgs,
};
use valqeron::cli::commands::{issuer_page, BackgroundTaskDefinitionView, CommandError};
use valqeron::cli::config::{default_log_file, ProjectPaths, ValqeronConfig, LOG_FILE_NAME};
use valqeron::cli::context::{AppContext, InputSource, OutputDest};
use valqeron::cli::dto::{IssuerInput, IssuerView};
use valqeron::cli::error::{
    AppError, EngineProblem, IdentifierKind, EXIT_CONFIG, EXIT_DATAERR, EXIT_UNAVAILABLE,
};
use valqeron::cli::problem::ProblemDetail;
use valqeron::common::{os_str_is_off, LoadMode, UtcInstant, Versioned, WriteOutcome};
use valqeron::domain::issuer::{
    Issuer, IssuerBuilderError, IssuerId, IssuerName, IssuerNameError, IssuerPatch,
    IssuerRepository, IssuerStatus, RegisterIssuerError,
};
use valqeron::engine_client::{
    parse_issuer_id, parse_timestamp, BackgroundTaskDetail, ClientError,
};
use valqeron::identifiers::{Cnpj, Lei};
use valqeron::storage::StorageFault;

fn sample_dirs() -> Option<ProjectPaths> {
    Some(ProjectPaths {
        state_dir: Some("/home/u/.local/state/valqeron-cli".to_string()),
        data_dir: "/home/u/.local/share/valqeron-cli".to_string(),
    })
}

fn cli_with(verbose: u8, log_file: Option<&str>) -> Cli {
    Cli {
        command: Commands::Engine(EngineCommand::Ping(PingArgs {})),
        verbose,
        output: None,
        input: None,
        dry_run: false,
        pretty: false,
        socket: None,
        log_file: log_file.map(str::to_string),
        no_log_file: false,
    }
}

/// An issuer store that answers the uniqueness queries with fixed values,
/// serves a fixed list, and remembers what was inserted.
struct Store {
    cnpj_taken: bool,
    stored: Vec<Versioned<Issuer>>,
    inserted: Cell<bool>,
    last_limit: RefCell<Option<u32>>,
}

impl Store {
    fn new(cnpj_taken: bool, stored: Vec<Versioned<Issuer>>) -> Self {
        Store { cnpj_taken, stored, inserted: Cell::new(false), last_limit: RefCell::new(None) }
    }
}

impl IssuerRepository for Store {
    fn stores_id(&self, _id: IssuerId) -> bool {
        false
    }
    fn stores_cnpj(&self, _cnpj: Cnpj) -> bool {
        self.cnpj_taken
    }
    fn stores_lei(&self, _lei: Lei) -> bool {
        false
    }
    fn find_by_id(&self, id: &IssuerId, _mode: LoadMode) -> Result<Option<Versioned<Issuer>>, StorageFault> {
        Ok(self.stored.iter().find(|v| v.data.id() == id).cloned())
    }
    fn list_all(&self, _mode: LoadMode) -> Result<Vec<Versioned<Issuer>>, StorageFault> {
        Ok(self.stored.clone())
    }
    fn list_paged(&self, _after: Option<IssuerId>, limit: u32, _mode: LoadMode) -> Result<Vec<Versioned<Issuer>>, StorageFault> {
        *self.last_limit.borrow_mut() = Some(limit);
        Ok(self.stored.iter().take(limit as usize).cloned().collect())
    }
    fn exists_by_id(&self, _id: &IssuerId) -> Result<bool, StorageFault> {
        Ok(false)
    }
    fn exists_by_cnpj(&self, _cnpj: &Cnpj) -> Result<bool, StorageFault> {
        Ok(self.cnpj_taken)
    }
    fn exists_by_lei(&self, _lei: &Lei) -> Result<bool, StorageFault> {
        Ok(false)
    }
    fn insert(&self, _issuer: &Issuer) -> Result<(), StorageFault> {
        self.inserted.set(true);
        Ok(())
    }
    fn apply_patch(&self, _id: &IssuerId, _expected_version: u32, _patch: IssuerPatch) -> Result<WriteOutcome, StorageFault> {
        Ok(WriteOutcome::Applied)
    }
    fn update(&self, _issuer: &Issuer, _expected_version: u32) -> Result<WriteOutcome, StorageFault> {
        Ok(WriteOutcome::Applied)
    }
    fn delete(&self, _id: &IssuerId, _expected_version: u32) -> Result<WriteOutcome, StorageFault> {
        Ok(WriteOutcome::Applied)
    }
    fn find_by_id_answer(&self, id: IssuerId, mode: LoadMode) -> Result<Option<Versioned<Issuer>>, StorageFault> {
        self.find_by_id(&id, mode)
    }
    fn list_paged_answer(&self, after: Option<IssuerId>, limit: u32, mode: LoadMode) -> Result<Vec<Versioned<Issuer>>, StorageFault> {
        self.list_paged(after, limit, mode)
    }
    fn exists_by_id_answer(&self, id: IssuerId) -> Result<bool, StorageFault> {
        self.exists_by_id(&id)
    }
    fn exists_by_cnpj_answer(&self, cnpj: Cnpj) -> Result<bool, StorageFault> {
        self.exists_by_cnpj(&cnpj)
    }
    fn exists_by_lei_answer(&self, lei: Lei) -> Result<bool, StorageFault> {
        self.exists_by_lei(&lei)
    }
    fn insert_answer(&self, _issuer: Issuer) -> Result<(), StorageFault> {
        Ok(())
    }
    fn apply_patch_answer(&self, id: IssuerId, expected_version: u32, patch: IssuerPatch) -> Result<WriteOutcome, StorageFault> {
        self.apply_patch(&id, expected_version, patch)
    }
    fn delete_answer(&self, id: IssuerId, expected_version: u32) -> Result<WriteOutcome, StorageFault> {
        self.delete(&id, expected_version)
    }
}

fn stored_issuer(id: &str, version: u32) -> Versioned<Issuer> {
    let issuer = Issuer::builder()
        .id(parse_issuer_id(id).unwrap())
        .status(IssuerStatus::Active)
        .created_at(parse_timestamp("2026-08-31T20:00:00Z").unwrap())
        .name(IssuerName::new("Valqeron Corp").unwrap())
        .build()
        .unwrap();
    Versioned { data: issuer, version }
}

#[test]
fn explicit_log_file_flag_wins() {
    let cfg = ValqeronConfig::resolve(Some(Some("/tmp/out.log".to_string())), false, None, &sample_dirs())
        .unwrap();
    assert_eq!(cfg.log_file(), Some("/tmp/out.log"));
}

#[test]
fn log_file_flag_without_path_uses_default_location() {
    let cfg = ValqeronConfig::resolve(Some(None), false, None, &sample_dirs()).unwrap();
    let log = cfg.log_file().expect("default log path");
    assert!(log.ends_with(LOG_FILE_NAME));
}

#[test]
fn file_logging_is_on_by_default_when_flag_absent() {
    let cfg = ValqeronConfig::resolve(None, false, None, &sample_dirs()).unwrap();
    let log = cfg.log_file().expect("default log path when flag absent");
    assert!(log.ends_with(LOG_FILE_NAME));
}

#[test]
fn no_log_file_flag_disables_file_logging() {
    let cfg = ValqeronConfig::resolve(Some(Some("/tmp/out.log".to_string())), true, None, &sample_dirs())
        .unwrap();
    assert!(cfg.log_file().is_none());
}

#[test]
fn config_is_off_recognizes_disable_values() {
    for v in ["off", "OFF", "false", "0", "none", "  off  "] {
        assert!(os_str_is_off(v), "{v:?} should disable");
    }
    for v in ["on", "1", "true", "/tmp/logs/x.log"] {
        assert!(!os_str_is_off(v), "{v:?} should not disable");
    }
}

#[test]
fn log_file_environment_value_is_a_path_or_switches_off() {
    let cfg = ValqeronConfig::resolve(None, false, Some("/var/log/v.log"), &sample_dirs()).unwrap();
    assert_eq!(cfg.log_file(), Some("/var/log/v.log"));
    let off = ValqeronConfig::resolve(None, false, Some(" Off "), &sample_dirs()).unwrap();
    assert!(off.log_file().is_none());
}

#[test]
fn default_log_file_uses_state_dir_then_data_dir_logs() {
    assert_eq!(
        default_log_file(&sample_dirs()).unwrap(),
        "/home/u/.local/state/valqeron-cli/valqeron-cli.log"
    );
    let no_state = Some(ProjectPaths { state_dir: None, data_dir: "/data/v".to_string() });
    assert_eq!(default_log_file(&no_state).unwrap(), "/data/v/logs/valqeron-cli.log");
    assert_eq!(
        default_log_file(&None).unwrap_err(),
        "could not determine a home directory for application files"
    );
    assert!(ValqeronConfig::resolve(None, false, None, &None).is_err());
    assert!(ValqeronConfig::resolve(None, true, None, &None).is_ok());
}

#[test]
fn file_log_level_defaults_to_info() {
    let cfg = ValqeronConfig::resolve(None, true, None, &None).unwrap();
    assert_eq!(cfg.file_log_level(None), "info");
    assert_eq!(cfg.file_log_level(Some("debug")), "debug");
}

#[test]
fn verbosity_selects_the_stderr_level() {
    assert_eq!(cli_with(0, None).log_level(), LogLevel::Warn);
    assert_eq!(cli_with(1, None).log_level(), LogLevel::Info);
    assert_eq!(cli_with(2, None).log_level(), LogLevel::Debug);
    assert_eq!(cli_with(3, None).log_level(), LogLevel::Trace);
    assert_eq!(cli_with(9, None).log_level().as_str(), "TRACE");
}

#[test]
fn log_file_flag_reads_as_absent_default_or_path() {
    assert_eq!(cli_with(0, None).log_file_arg(), None);
    assert_eq!(cli_with(0, Some("")).log_file_arg(), Some(None));
    assert_eq!(cli_with(0, Some("/tmp/a.log")).log_file_arg(), Some(Some("/tmp/a.log".to_string())));
}

#[test]
fn input_and_output_arguments() {
    assert!(matches!(InputSource::from_arg("-"), InputSource::Stdin));
    assert!(matches!(InputSource::from_arg("in.json"), InputSource::File(p) if p == "in.json"));
    assert!(matches!(OutputDest::from_arg(None), OutputDest::Stdout));
    assert!(matches!(OutputDest::from_arg(Some("out.json")), OutputDest::File(p) if p == "out.json"));
    let ctx = AppContext::new(OutputDest::Stdout, None, true, false);
    assert!(ctx.dry_run());
    assert!(!ctx.pretty());
}

#[test]
fn engine_problems_pass_through_verbatim() {
    let err = AppError::Engine(Box::new(EngineProblem {
        problem_type: "issuer/duplicate-cnpj".into(),
        title: "Duplicate identifier".into(),
        status: 9,
        detail: "an issuer with this CNPJ already exists".into(),
        extensions_json: r#"{"field":"cnpj"}"#.into(),
        causes: vec![],
    }));
    let p = err.problem();
    assert_eq!(p.problem_type, "issuer/duplicate-cnpj");
    assert_eq!(p.status, 9);
    assert_eq!(p.exit_code(), 9);
    assert_eq!(p.extension("field").unwrap(), "\"cnpj\"");
}

#[test]
fn not_running_is_actionable_and_unavailable() {
    let err: AppError = ClientError::NotRunning { socket: "/tmp/x.sock".to_string() }.into();
    let p = err.problem();
    assert_eq!(p.problem_type, "engine/not-running");
    assert_eq!(p.status, EXIT_UNAVAILABLE);
    assert!(p.extension("hint").is_some(), "hint must be present");
    assert_eq!(p.extension("socket").unwrap(), "\"/tmp/x.sock\"");
}

#[test]
fn socket_extension_is_an_escaped_json_string() {
    let socket = "/tmp/a\"b\\c\n\u{1}d.sock".to_string();
    let err: AppError = ClientError::NotRunning { socket }.into();
    let p = err.problem();
    assert_eq!(p.extension("socket").unwrap(), r#""/tmp/a\"b\\c\n\u0001d.sock""#);
}

#[test]
fn version_mismatch_names_both_sides() {
    let err: AppError = ClientError::VersionMismatch {
        client_protocol: 1,
        engine_protocol: 2,
        client_version: "0.1.0".into(),
        engine_version: "0.2.0".into(),
    }
    .into();
    let p = err.problem();
    assert_eq!(p.problem_type, "engine/version-mismatch");
    assert_eq!(p.status, EXIT_CONFIG);
    assert_eq!(p.extension("client_protocol").unwrap(), "1");
    assert_eq!(p.extension("engine_protocol").unwrap(), "2");
}

#[test]
fn bad_cnpj_surfaces_check_digit_fields() {
    let err = AppError::from_cnpj_error(Cnpj::parse("00000000000192").unwrap_err());
    let p = err.problem();
    assert_eq!(p.problem_type, "identifier/cnpj-invalid");
    assert_eq!(p.status, EXIT_DATAERR);
    assert_eq!(p.extension("field").unwrap(), "\"cnpj\"");
    assert!(p.extension("position").is_some());
    assert!(p.extension("expected").is_some());
    assert!(p.extension("found").is_some());
}

#[test]
fn name_too_long_reports_max() {
    let err = AppError::IssuerName(IssuerNameError::TooLong { max: 200 });
    let p = err.problem();
    assert_eq!(p.problem_type, "issuer/validation/name-too-long");
    assert_eq!(p.status, EXIT_DATAERR);
    assert_eq!(p.extension("max").unwrap(), "200");
}

#[test]
fn unparsable_engine_extensions_degrade_to_empty() {
    let err = AppError::Engine(Box::new(EngineProblem {
        problem_type: "storage/failed".into(),
        title: "Storage error".into(),
        status: 80,
        detail: "boom".into(),
        extensions_json: "not-json".into(),
        causes: vec![],
    }));
    let p = err.problem();
    assert!(p.extensions.is_empty());
    assert_eq!(p.status, 80);
}

#[test]
fn engine_status_outside_exit_range_caps_at_255() {
    for status in [-1, 300, 70_000] {
        let err = AppError::Engine(Box::new(EngineProblem {
            problem_type: "x/y".into(),
            title: "T".into(),
            status,
            detail: String::new(),
            extensions_json: "{}".into(),
            causes: vec!["inner".to_string()],
        }));
        let p = err.problem();
        assert_eq!(p.status, 255);
        assert_eq!(p.causes, vec!["inner".to_string()]);
        assert_eq!(p.human_summary(), "T");
    }
}

#[test]
fn problem_detail_summary_and_exit_code() {
    let p = ProblemDetail {
        problem_type: "test/outer".into(),
        title: "Outer".into(),
        status: 65,
        detail: "outer failure".into(),
        extensions: vec![("field".into(), "\"x\"".into())],
        causes: vec!["inner failure".into()],
    };
    assert_eq!(p.exit_code(), 65);
    assert_eq!(p.human_summary(), "Outer: outer failure");
    assert_eq!(p.extension("field").unwrap(), "\"x\"");
    assert!(p.extension("missing").is_none());
}

#[test]
fn app_error_messages_titles_and_statuses() {
    let err = AppError::InvalidCliFlag { flag: "--x".into(), command: "list".into() };
    assert_eq!(err.to_string(), "Command line flag `--x` is not valid for `list`.");
    assert_eq!(err.title(), "Invalid flag `--x` for `list`");
    assert_eq!(err.status(), 64);
    assert_eq!(err.problem_type(), "cli/invalid-flag");

    let status: AppError = IssuerStatus::from_text("nope").unwrap_err().into();
    let p = status.problem();
    assert_eq!(p.problem_type, "issuer/validation/status");
    assert_eq!(p.extension("allowed").unwrap(), "[\"ACTIVE\",\"RETIRED\"]");

    let builder: AppError = IssuerBuilderError::NameError(IssuerNameError::Empty).into();
    let p = builder.problem();
    assert_eq!(p.problem_type, "issuer/validation/name");
    assert_eq!(p.detail, "Issuer name validation failed: issuer name cannot be empty");
    assert_eq!(p.causes, vec!["issuer name cannot be empty".to_string()]);

    let socket_with_quote: AppError =
        ClientError::Unreachable { socket: "/tmp/a\"b".into(), message: "refused".into() }.into();
    assert_eq!(socket_with_quote.problem().extension("socket").unwrap(), "\"/tmp/a\\\"b\"");
}

#[test]
fn identifier_kinds_name_their_fields() {
    assert_eq!(IdentifierKind::CountryCode.to_string(), "country-code");
    assert_eq!(IdentifierKind::CountryCode.field(), "country_code");
    let err = AppError::from_lei_error(Lei::parse("bad").unwrap_err());
    assert!(err.to_string().starts_with("invalid lei identifier: "));
    assert_eq!(err.problem().extension("field").unwrap(), "\"lei\"");
}

#[test]
fn flags_override_the_input() {
    let base = IssuerInput {
        name: Some("From file".into()),
        status: Some("RETIRED".into()),
        ..IssuerInput::default()
    };
    let merged = base.merge_flags(Some("From flag".into()), None, None, None, Some("BR".into()));
    assert_eq!(merged.name.as_deref(), Some("From flag"));
    assert_eq!(merged.status.as_deref(), Some("RETIRED"));
    assert_eq!(merged.country_code.as_deref(), Some("BR"));
    assert!(merged.cnpj.is_none());
}

#[test]
fn input_becomes_an_issuer_or_the_first_error() {
    let good = IssuerInput {
        name: Some(" Acme ".into()),
        cnpj: Some("11.222.333/0001-81".into()),
        ..IssuerInput::default()
    };
    let issuer = good.into_issuer().unwrap();
    assert_eq!(issuer.name().unwrap().as_str(), "Acme");
    assert_eq!(issuer.status(), IssuerStatus::Active);
    assert_eq!(issuer.country_code().unwrap().as_str(), "BR");

    let bad_name = IssuerInput { name: Some("  ".into()), status: Some("bad".into()), ..IssuerInput::default() };
    assert!(matches!(bad_name.into_issuer(), Err(AppError::IssuerName(IssuerNameError::Empty))));

    let bad_status = IssuerInput { status: Some("bad".into()), ..IssuerInput::default() };
    assert!(matches!(bad_status.into_issuer(), Err(AppError::IssuerStatus(_))));

    let bad_lei = IssuerInput { lei: Some("bad".into()), ..IssuerInput::default() };
    assert!(matches!(
        bad_lei.into_issuer(),
        Err(AppError::Identifier { kind: IdentifierKind::Lei, .. })
    ));

    let mismatch = IssuerInput {
        cnpj: Some("11222333000181".into()),
        country_code: Some("US".into()),
        ..IssuerInput::default()
    };
    assert!(matches!(
        mismatch.into_issuer(),
        Err(AppError::IssuerBuilder(IssuerBuilderError::InvalidCountryForCnpj(_)))
    ));
}

#[test]
fn issuer_view_shows_every_field() {
    let v = stored_issuer("018f6e80-8e2b-7b00-a54b-d7d8e9f01234", 3);
    let view = IssuerView::from_versioned(&v);
    assert_eq!(view.id, "018f6e80-8e2b-7b00-a54b-d7d8e9f01234");
    assert_eq!(view.status, "ACTIVE");
    assert_eq!(view.created_at, "2026-08-31T20:00:00+00:00");
    assert_eq!(view.version, 3);
    assert_eq!(view.name.as_deref(), Some("Valqeron Corp"));
    assert!(view.cnpj.is_none());
}

#[test]
fn issuer_view_prints_the_creation_time_to_the_nanosecond() {
    let issuer = Issuer::builder()
        .name(IssuerName::new("Valqeron Corp").unwrap())
        .created_at(parse_timestamp("2026-08-31T20:00:00.000000042Z").unwrap())
        .build()
        .unwrap();
    let view = IssuerView::new(&issuer, 1);
    assert_eq!(view.created_at, "2026-08-31T20:00:00.000000042+00:00");
}

#[test]
fn register_command_registers_or_reports() {
    let store = Store::new(false, Vec::new());
    let args = RegisterArgs {
        name: Some("Acme".into()),
        status: Some("ACTIVE".into()),
        cnpj: Some("11222333000181".into()),
        lei: None,
        country_code: None,
    };
    let view = args.execute(&store, IssuerInput::default()).unwrap();
    assert!(store.inserted.get());
    assert_eq!(view.version, 1);
    assert_eq!(view.name.as_deref(), Some("Acme"));
    assert_eq!(view.country_code.as_deref(), Some("BR"));

    let taken = Store::new(true, Vec::new());
    assert!(matches!(
        args.execute(&taken, IssuerInput::default()),
        Err(CommandError::Register(RegisterIssuerError::DuplicateCnpj))
    ));
    assert!(!taken.inserted.get());

    let unnamed = RegisterArgs { name: Some(String::new()), ..args.clone() };
    assert!(matches!(
        unnamed.execute(&store, IssuerInput::default()),
        Err(CommandError::App(AppError::IssuerName(_)))
    ));
}

#[test]
fn list_command_pages_with_a_cursor() {
    let store = Store::new(
        false,
        vec![
            stored_issuer("018f6e80-8e2b-7b00-a54b-d7d8e9f01234", 1),
            stored_issuer("018f6e80-8e2b-7b00-a54b-d7d8e9f05678", 2),
        ],
    );
    let page = ListArgs { limit: 1, after: None }.execute(&store).unwrap();
    assert_eq!(page.count, 1);
    assert_eq!(page.next_after.as_deref(), Some("018f6e80-8e2b-7b00-a54b-d7d8e9f01234"));
    assert_eq!(*store.last_limit.borrow(), Some(1));

    let bad = ListArgs { limit: 10, after: Some("not-a-uuid".into()) }.execute(&store);
    assert!(matches!(bad, Err(CommandError::App(AppError::InvalidId(_)))));

    let empty = issuer_page(&Vec::new());
    assert_eq!(empty.count, 0);
    assert!(empty.next_after.is_none());
}

#[test]
fn info_command_finds_zero_or_one() {
    let store = Store::new(false, vec![stored_issuer("018f6e80-8e2b-7b00-a54b-d7d8e9f01234", 1)]);
    let found = InfoArgs { id: "018f6e80-8e2b-7b00-a54b-d7d8e9f01234".into() }.execute(&store).unwrap();
    assert_eq!(found.count, 1);
    let missing = InfoArgs { id: "018f6e80-8e2b-7b00-a54b-d7d8e9f09999".into() }.execute(&store).unwrap();
    assert_eq!(missing.count, 0);
}

#[test]
fn background_task_cursor_is_a_uuid() {
    let ok = ListBackgroundTasksArgs { limit: 50, after: Some("018f6e80-8e2b-7b00-a54b-d7d8e9f01234".into()) };
    assert_eq!(ok.cursor().unwrap().unwrap()[0], 0x01);
    let none = ListBackgroundTasksArgs { limit: 50, after: None };
    assert_eq!(none.cursor().unwrap(), None);
    let bad = ListBackgroundTasksArgs { limit: 50, after: Some("zzz".into()) };
    assert_eq!(bad.cursor().unwrap_err(), "invalid background tasks pagination cursor: zzz");
}

#[test]
fn background_task_view_formats_id_and_times() {
    let id = *parse_issuer_id("018f6e80-8e2b-7b00-a54b-d7d8e9f01234").unwrap().as_bytes();
    let t = parse_timestamp("2026-08-31T20:00:00Z").unwrap();
    let view = BackgroundTaskDefinitionView::new(&id, "sync", t, t, 1);
    assert_eq!(view.id, "018f6e80-8e2b-7b00-a54b-d7d8e9f01234");
    assert_eq!(view.name, "sync");
    assert_eq!(view.created_at, "2026-08-31T20:00:00+00:00");
    assert_eq!(view.last_updated_at, "2026-08-31T20:00:00+00:00");
}

#[test]
fn listed_background_task_view_keeps_nanoseconds() {
    let id = *parse_issuer_id("018f6e80-8e2b-7b00-a54b-d7d8e9f01234").unwrap().as_bytes();
    let detail = BackgroundTaskDetail {
        id,
        name: "sync".to_string(),
        created_at: UtcInstant { seconds: 1_788_206_400, nanos: 123_456_789 },
    };
    let view = BackgroundTaskDefinitionView::from_detail(&detail);
    assert_eq!(view.id, "018f6e80-8e2b-7b00-a54b-d7d8e9f01234");
    assert_eq!(view.name, "sync");
    assert_eq!(view.created_at, "2026-08-31T20:00:00.123456789+00:00");
    assert_eq!(view.last_updated_at, view.created_at);
    assert_eq!(view.version, 1);
}

#[test]
fn issuer_name_error_message_is_kept() {
    let p: ProblemDetail = AppError::IssuerName(IssuerNameError::Empty).problem();
    assert_eq!(p.detail, "issuer name cannot be empty");
    assert_eq!(p.title, "Issuer validation failed");
    assert!(p.extensions.is_empty());
    assert!(p.causes.is_empty());
}
