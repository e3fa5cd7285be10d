use std::cell::Cell;
use std::str::FromStr;
use valqeron::domain::issuer::{
    delete_issuer_outcome, get_issuer_outcome, list_issuers_outcome, DeleteIssuerError,
    GetIssuerError, ListIssuersError,
};
use valqeron::common::{LoadMode, Loading, UtcInstant, Versioned, WriteOutcome};
use valqeron::domain::issuer::{
    register_issuer, Issuer, IssuerBuilderError, IssuerId, IssuerName, IssuerNameError,
    IssuerPatch, IssuerRepository, IssuerSnapshot, IssuerStatus, IssuerStatusError,
    RegisterIssuerError, ISSUER_NAME_MAX_LEN,
};
use valqeron::identifiers::{Cnpj, CountryCode, Lei};
use valqeron::storage::StorageFault;

fn now() -> UtcInstant {
    let n = chrono::Utc::now();
    UtcInstant { seconds: n.timestamp(), nanos: n.timestamp_subsec_nanos() }
}

const US_COUNTRY_CODE: &str = "US";

/// An issuer store that answers the uniqueness queries with fixed values and
/// remembers whether anything was inserted.
struct FixedIssuers {
    cnpj_taken: bool,
    lei_taken: bool,
    insert_fails: bool,
    inserted: Cell<bool>,
}

impl FixedIssuers {
    fn new(cnpj_taken: bool, lei_taken: bool) -> Self {
        FixedIssuers { cnpj_taken, lei_taken, insert_fails: false, inserted: Cell::new(false) }
    }
}

impl IssuerRepository for FixedIssuers {
    fn stores_id(&self, _id: IssuerId) -> bool {
        true
    }
    fn stores_cnpj(&self, _cnpj: Cnpj) -> bool {
        self.cnpj_taken
    }
    fn stores_lei(&self, _lei: Lei) -> bool {
        self.lei_taken
    }
    fn find_by_id(&self, _id: &IssuerId, _mode: LoadMode) -> Result<Option<Versioned<Issuer>>, StorageFault> {
        Ok(None)
    }
    fn list_all(&self, _mode: LoadMode) -> Result<Vec<Versioned<Issuer>>, StorageFault> {
        Ok(Vec::new())
    }
    fn list_paged(&self, _after: Option<IssuerId>, _limit: u32, _mode: LoadMode) -> Result<Vec<Versioned<Issuer>>, StorageFault> {
        Ok(Vec::new())
    }
    fn exists_by_id(&self, _id: &IssuerId) -> Result<bool, StorageFault> {
        Ok(true)
    }
    fn exists_by_cnpj(&self, _cnpj: &Cnpj) -> Result<bool, StorageFault> {
        Ok(self.cnpj_taken)
    }
    fn exists_by_lei(&self, _lei: &Lei) -> Result<bool, StorageFault> {
        Ok(self.lei_taken)
    }
    fn insert(&self, _issuer: &Issuer) -> Result<(), StorageFault> {
        self.inserted.set(true);
        if self.insert_fails {
            return Err(StorageFault::new("disk full"));
        }
        Ok(())
    }
    fn apply_patch(&self, _id: &IssuerId, _expected_version: u32, _patch: IssuerPatch) -> Result<WriteOutcome, StorageFault> {
        Ok(WriteOutcome::Applied)
    }
    fn update(&self, _issuer: &Issuer, _expected_version: u32) -> Result<WriteOutcome, StorageFault> {
        Ok(WriteOutcome::Applied)
    }
    fn delete(&self, _id: &IssuerId, _expected_version: u32) -> Result<WriteOutcome, StorageFault> {
        Ok(WriteOutcome::Applied)
    }
    fn find_by_id_answer(&self, id: IssuerId, mode: LoadMode) -> Result<Option<Versioned<Issuer>>, StorageFault> {
        self.find_by_id(&id, mode)
    }
    fn list_paged_answer(&self, after: Option<IssuerId>, limit: u32, mode: LoadMode) -> Result<Vec<Versioned<Issuer>>, StorageFault> {
        self.list_paged(after, limit, mode)
    }
    fn exists_by_id_answer(&self, id: IssuerId) -> Result<bool, StorageFault> {
        self.exists_by_id(&id)
    }
    fn exists_by_cnpj_answer(&self, cnpj: Cnpj) -> Result<bool, StorageFault> {
        self.exists_by_cnpj(&cnpj)
    }
    fn exists_by_lei_answer(&self, lei: Lei) -> Result<bool, StorageFault> {
        self.exists_by_lei(&lei)
    }
    fn insert_answer(&self, _issuer: Issuer) -> Result<(), StorageFault> {
        if self.insert_fails {
            return Err(StorageFault::new("disk full"));
        }
        Ok(())
    }
    fn apply_patch_answer(&self, id: IssuerId, expected_version: u32, patch: IssuerPatch) -> Result<WriteOutcome, StorageFault> {
        self.apply_patch(&id, expected_version, patch)
    }
    fn delete_answer(&self, id: IssuerId, expected_version: u32) -> Result<WriteOutcome, StorageFault> {
        self.delete(&id, expected_version)
    }
}

fn issuer_with_cnpj() -> Option<Issuer> {
    let cnpj_result = Cnpj::new("12.345.678/0001-95");
    let cnpj = cnpj_result.ok()?;
    Issuer::builder().cnpj(cnpj).build().ok()
}

#[test]
fn issuer_test_issuer_name_valid() {
    let name_result = IssuerName::new(" Acme Corp ");
    assert!(name_result.is_ok());
    let Some(name) = name_result.ok() else {
        return;
    };
    // Ensure it trims whitespace automatically
    assert_eq!(name.as_str(), "Acme Corp");
}

#[test]
fn issuer_test_issuer_name_empty_fails() {
    let result = IssuerName::new("   ");
    assert!(matches!(result, Err(IssuerNameError::Empty)));
}

#[test]
fn issuer_test_issuer_name_too_long_fails() {
    let long_string = "A".repeat(ISSUER_NAME_MAX_LEN + 1);
    let result = IssuerName::new(&long_string);
    assert!(matches!(result, Err(IssuerNameError::TooLong { max: 200 })));
}

#[test]
fn issuer_test_issuer_name_exact_max_len_succeeds() {
    let max_string = "A".repeat(ISSUER_NAME_MAX_LEN);
    let result = IssuerName::new(&max_string);
    assert!(result.is_ok());
}

#[test]
fn issuer_test_issuer_id_creation() {
    let id1 = IssuerId::new();
    let id2 = IssuerId::new();
    assert_ne!(id1, id2, "UUIDs should be unique");
}

#[test]
fn issuer_test_issuer_id_conversions() {
    let original_uuid = uuid::Uuid::now_v7();
    let id = IssuerId::from_bytes(*original_uuid.as_bytes());

    assert_eq!(id.value(), original_uuid.to_string());
    assert_eq!(id.as_bytes(), original_uuid.as_bytes());
}

#[test]
fn issuer_test_issuer_status_traits() {
    assert!(IssuerStatus::default().is_active());

    let active_str: String = IssuerStatus::Active.into();
    assert_eq!(active_str, "ACTIVE");

    let retired_str: String = IssuerStatus::Retired.into();
    assert_eq!(retired_str, "RETIRED");
}

#[test]
fn issuer_test_issuer_status_from_str() {
    assert!(matches!(
        IssuerStatus::from_str("ACTIVE"),
        Ok(IssuerStatus::Active)
    ));
    assert!(matches!(
        IssuerStatus::from_str("active"),
        Ok(IssuerStatus::Active)
    ));
    assert!(matches!(
        IssuerStatus::from_str("Retired"),
        Ok(IssuerStatus::Retired)
    ));

    assert!(matches!(
        IssuerStatus::from_str("UNKNOWN"),
        Err(IssuerStatusError::InvalidStatus)
    ));
}

#[test]
fn issuer_test_builder_resolves_defaults() {
    let issuer_result = Issuer::builder().build();
    assert!(issuer_result.is_ok());
    let Some(issuer) = issuer_result.ok() else {
        return;
    };

    assert!(issuer.status().is_active(), "Default status should be Active");
    assert!(issuer.name().is_none());
    assert!(issuer.cnpj().is_none());
    assert!(issuer.lei().is_none());
    assert!(issuer.country_code().is_none());
    assert!(issuer.created_at() <= now());
    assert!(
        matches!(issuer.securities(), Some(securities) if securities.is_empty()),
        "A newly built issuer is known to have no securities"
    );
}

#[test]
fn issuer_test_reconstitute_from_snapshot_defaults_to_not_loaded() {
    let snapshot = IssuerSnapshot {
        id: IssuerId::new(),
        status: IssuerStatus::Active,
        created_at: now(),
        name: None,
        cnpj: None,
        lei: None,
        country_code: None,
        securities: Loading::NotLoaded,
    };
    let issuer = Issuer::reconstitute(snapshot);

    assert!(
        issuer.securities().is_none(),
        "Lazy reconstitution must not pretend the relation is empty"
    );
}

#[test]
fn issuer_test_builder_with_all_valid_fields() {
    let custom_time = now();
    let name_result = IssuerName::new("Tech Global");
    assert!(name_result.is_ok());
    let Some(name) = name_result.ok() else {
        return;
    };
    let lei_result = Lei::new("5493000IBP32UQZ0KL24");
    assert!(lei_result.is_ok());
    let Some(lei) = lei_result.ok() else {
        return;
    };
    let country_result = CountryCode::from_str(US_COUNTRY_CODE);
    assert!(country_result.is_ok());
    let Some(country) = country_result.ok() else {
        return;
    };

    let issuer_result = Issuer::builder()
        .status(IssuerStatus::Retired)
        .created_at(custom_time)
        .name(name.clone())
        .lei(lei)
        .country_code(country)
        .build();
    assert!(issuer_result.is_ok());
    let Some(issuer) = issuer_result.ok() else {
        return;
    };

    assert!(issuer.status().is_retired());
    assert_eq!(issuer.created_at(), custom_time);
    assert!(matches!(issuer.name(), Some(value) if value == &name));
    assert!(
        matches!(issuer.country_code(), Some(country) if country.as_str() == US_COUNTRY_CODE)
    );
}

#[test]
fn issuer_test_builder_cnpj_validation_success_without_country() {
    let cnpj_result = Cnpj::new("12.345.678/0001-95");
    assert!(cnpj_result.is_ok());
    let Some(cnpj) = cnpj_result.ok() else {
        return;
    };

    let issuer_result = Issuer::builder().cnpj(cnpj).build();
    assert!(issuer_result.is_ok());
    let Some(issuer) = issuer_result.ok() else {
        return;
    };

    assert!(matches!(issuer.country_code(), Some(country) if country.as_str() == "BR"));
}

#[test]
fn issuer_test_builder_cnpj_validation_success_with_br() {
    let cnpj_result = Cnpj::new("12.345.678/0001-95");
    assert!(cnpj_result.is_ok());
    let Some(cnpj) = cnpj_result.ok() else {
        return;
    };
    let country_result = CountryCode::from_str("BR");
    assert!(country_result.is_ok());
    let Some(country_br) = country_result.ok() else {
        return;
    };

    let issuer_result = Issuer::builder()
        .cnpj(cnpj)
        .country_code(country_br)
        .build();
    assert!(issuer_result.is_ok());
    let Some(issuer) = issuer_result.ok() else {
        return;
    };

    assert!(matches!(issuer.country_code(), Some(country) if country.as_str() == "BR"));
}

#[test]
fn issuer_test_invalid_country_code_is_propagated_as_builder_error() {
    let country_code_result = CountryCode::from_str("ZZ");
    assert!(country_code_result.is_err());
    let Some(country_code_error) = country_code_result.err() else {
        return;
    };
    let builder_error: IssuerBuilderError = country_code_error.into();

    assert!(matches!(
        builder_error,
        IssuerBuilderError::CountryCodeError(_)
    ));
}

#[test]
fn issuer_test_builder_cnpj_validation_fails_with_foreign_country() {
    let cnpj_result = Cnpj::new("12.345.678/0001-95");
    assert!(cnpj_result.is_ok());
    let Some(cnpj) = cnpj_result.ok() else {
        return;
    };
    let country_us_result = CountryCode::from_str(US_COUNTRY_CODE);
    assert!(country_us_result.is_ok());
    let Some(country_us) = country_us_result.ok() else {
        return;
    };

    let result = Issuer::builder()
        .cnpj(cnpj)
        .country_code(country_us)
        .build();

    assert!(
        matches!(result, Err(IssuerBuilderError::InvalidCountryForCnpj(code)) if code == "US"),
        "Should reject non-BR country codes when a CNPJ is present"
    );
}

#[test]
fn issuer_single_field_patch_only_sets_that_field() {
    let name_result = IssuerName::new("Renamed Corp");
    assert!(name_result.is_ok());
    let Some(name) = name_result.ok() else {
        return;
    };
    let patch = IssuerPatch::builder().name(name.clone()).build();

    assert_eq!(patch.name(), Some(&name));
    assert!(patch.status().is_none());
    assert!(patch.cnpj().is_none());
    assert!(patch.lei().is_none());
    assert!(patch.country_code().is_none());
}

#[test]
fn issuer_register_reports_the_insert_fault() {
    let repo = FixedIssuers { insert_fails: true, ..FixedIssuers::new(false, false) };
    let Some(issuer) = issuer_with_cnpj() else {
        return;
    };
    match register_issuer(&repo, &issuer) {
        Err(RegisterIssuerError::Storage(f)) => assert_eq!(f.to_string(), "disk full"),
        other => panic!("unexpected {other:?}"),
    }
    assert!(repo.inserted.get());
}

#[test]
fn issuer_register_inserts_when_identifiers_are_free() {
    let repo = FixedIssuers::new(false, false);

    let Some(issuer) = issuer_with_cnpj() else {
        return;
    };
    assert!(register_issuer(&repo, &issuer).is_ok());
    assert!(repo.inserted.get());
}

#[test]
fn issuer_register_rejects_duplicate_cnpj_before_insert() {
    let repo = FixedIssuers::new(true, false);

    let Some(issuer) = issuer_with_cnpj() else {
        return;
    };
    assert!(matches!(
        register_issuer(&repo, &issuer),
        Err(RegisterIssuerError::DuplicateCnpj)
    ));
    // insert must never be called on a duplicate.
    assert!(!repo.inserted.get());
}

#[test]
fn service_register_inserts_when_identifiers_are_free() {
    let repo = FixedIssuers::new(false, false);

    let Some(issuer) = issuer_with_cnpj() else {
        return;
    };
    assert!(register_issuer(&repo, &issuer).is_ok());
    assert!(repo.inserted.get());
}

#[test]
fn service_register_rejects_duplicate_cnpj_before_insert() {
    let repo = FixedIssuers::new(true, false);

    let Some(issuer) = issuer_with_cnpj() else {
        return;
    };
    assert!(matches!(
        register_issuer(&repo, &issuer),
        Err(RegisterIssuerError::DuplicateCnpj)
    ));
    assert!(!repo.inserted.get());
}

#[test]
fn store_answers_pass_through_and_faults_become_storage_errors() {
    assert!(matches!(get_issuer_outcome(Ok(None)), Ok(None)));
    match get_issuer_outcome(Err(StorageFault::new("disk gone"))) {
        Err(GetIssuerError::Storage(f)) => assert_eq!(f.to_string(), "disk gone"),
        other => panic!("unexpected {other:?}"),
    }
    assert!(matches!(list_issuers_outcome(Ok(Vec::new())), Ok(v) if v.is_empty()));
    assert!(matches!(
        list_issuers_outcome(Err(StorageFault::new("x"))),
        Err(ListIssuersError::Storage(_))
    ));
    assert_eq!(
        delete_issuer_outcome(Ok(WriteOutcome::VersionMismatch { expected: 2, actual: 3 })).unwrap(),
        WriteOutcome::VersionMismatch { expected: 2, actual: 3 }
    );
    assert!(matches!(
        delete_issuer_outcome(Err(StorageFault::new("x"))),
        Err(DeleteIssuerError::Storage(_))
    ));
}
