use std::cell::Cell;
use std::str::FromStr;
use valqeron::common::{LoadMode, UtcInstant, Versioned, WriteOutcome};
use valqeron::domain::issuer::{Issuer, IssuerId, IssuerPatch, IssuerRepository};
use valqeron::domain::security::{
    register_security, DepositaryReceiptRatio, DrRatioError, RegisterSecurityError, Security,
    SecurityBuilderError, SecurityId, SecurityKind, SecurityKindError, SecurityName,
    SecurityNameError, SecurityPatch, SecurityRepository, SecurityStatus, SecurityStatusError,
    SECURITY_NAME_MAX_LEN,
};
use valqeron::identifiers::{Cnpj, Isin, Lei};
use valqeron::storage::StorageFault;

fn now() -> UtcInstant {
    let n = chrono::Utc::now();
    UtcInstant { seconds: n.timestamp(), nanos: n.timestamp_subsec_nanos() }
}

// Vale S.A. common share (B3: VALE3).
const VALE_ON_ISIN: &str = "BRVALEACNOR0";
// Vale S.A. sponsored ADR (NYSE: VALE).
const VALE_ADR_ISIN: &str = "US91912E1055";

/// An issuer store whose existence answer is fixed.
struct FixedIssuers {
    exists: bool,
}

impl IssuerRepository for FixedIssuers {
    fn stores_id(&self, _id: IssuerId) -> bool {
        self.exists
    }
    fn stores_cnpj(&self, _cnpj: Cnpj) -> bool {
        false
    }
    fn stores_lei(&self, _lei: Lei) -> bool {
        false
    }
    fn find_by_id(&self, _id: &IssuerId, _mode: LoadMode) -> Result<Option<Versioned<Issuer>>, StorageFault> {
        Ok(None)
    }
    fn list_all(&self, _mode: LoadMode) -> Result<Vec<Versioned<Issuer>>, StorageFault> {
        Ok(Vec::new())
    }
    fn list_paged(&self, _after: Option<IssuerId>, _limit: u32, _mode: LoadMode) -> Result<Vec<Versioned<Issuer>>, StorageFault> {
        Ok(Vec::new())
    }
    fn exists_by_id(&self, _id: &IssuerId) -> Result<bool, StorageFault> {
        Ok(self.exists)
    }
    fn exists_by_cnpj(&self, _cnpj: &Cnpj) -> Result<bool, StorageFault> {
        Ok(false)
    }
    fn exists_by_lei(&self, _lei: &Lei) -> Result<bool, StorageFault> {
        Ok(false)
    }
    fn insert(&self, _issuer: &Issuer) -> Result<(), StorageFault> {
        Ok(())
    }
    fn apply_patch(&self, _id: &IssuerId, _expected_version: u32, _patch: IssuerPatch) -> Result<WriteOutcome, StorageFault> {
        Ok(WriteOutcome::Applied)
    }
    fn update(&self, _issuer: &Issuer, _expected_version: u32) -> Result<WriteOutcome, StorageFault> {
        Ok(WriteOutcome::Applied)
    }
    fn delete(&self, _id: &IssuerId, _expected_version: u32) -> Result<WriteOutcome, StorageFault> {
        Ok(WriteOutcome::Applied)
    }
    fn find_by_id_answer(&self, id: IssuerId, mode: LoadMode) -> Result<Option<Versioned<Issuer>>, StorageFault> {
        self.find_by_id(&id, mode)
    }
    fn list_paged_answer(&self, after: Option<IssuerId>, limit: u32, mode: LoadMode) -> Result<Vec<Versioned<Issuer>>, StorageFault> {
        self.list_paged(after, limit, mode)
    }
    fn exists_by_id_answer(&self, id: IssuerId) -> Result<bool, StorageFault> {
        self.exists_by_id(&id)
    }
    fn exists_by_cnpj_answer(&self, cnpj: Cnpj) -> Result<bool, StorageFault> {
        self.exists_by_cnpj(&cnpj)
    }
    fn exists_by_lei_answer(&self, lei: Lei) -> Result<bool, StorageFault> {
        self.exists_by_lei(&lei)
    }
    fn insert_answer(&self, _issuer: Issuer) -> Result<(), StorageFault> {
        Ok(())
    }
    fn apply_patch_answer(&self, id: IssuerId, expected_version: u32, patch: IssuerPatch) -> Result<WriteOutcome, StorageFault> {
        self.apply_patch(&id, expected_version, patch)
    }
    fn delete_answer(&self, id: IssuerId, expected_version: u32) -> Result<WriteOutcome, StorageFault> {
        self.delete(&id, expected_version)
    }
}

/// A security store with fixed answers; it records whether anything was
/// inserted.
struct FixedSecurities {
    isin_taken: bool,
    underlying_exists: bool,
    inserted: Cell<bool>,
}

impl FixedSecurities {
    fn new(isin_taken: bool, underlying_exists: bool) -> Self {
        FixedSecurities { isin_taken, underlying_exists, inserted: Cell::new(false) }
    }
}

impl SecurityRepository for FixedSecurities {
    fn stores_id(&self, _id: SecurityId) -> bool {
        self.underlying_exists
    }
    fn stores_isin(&self, _isin: Isin) -> bool {
        self.isin_taken
    }
    fn find_by_id(&self, _id: &SecurityId) -> Result<Option<Versioned<Security>>, StorageFault> {
        Ok(None)
    }
    fn find_by_isin(&self, _isin: &Isin) -> Result<Option<Versioned<Security>>, StorageFault> {
        Ok(None)
    }
    fn list_all(&self) -> Result<Vec<Versioned<Security>>, StorageFault> {
        Ok(Vec::new())
    }
    fn list_by_issuer(&self, _issuer_id: &IssuerId) -> Result<Vec<Versioned<Security>>, StorageFault> {
        Ok(Vec::new())
    }
    fn list_paged(&self, _after: Option<SecurityId>, _limit: u32) -> Result<Vec<Versioned<Security>>, StorageFault> {
        Ok(Vec::new())
    }
    fn exists_by_id(&self, _id: &SecurityId) -> Result<bool, StorageFault> {
        Ok(self.underlying_exists)
    }
    fn exists_by_isin(&self, _isin: &Isin) -> Result<bool, StorageFault> {
        Ok(self.isin_taken)
    }
    fn insert(&self, _security: &Security) -> Result<(), StorageFault> {
        self.inserted.set(true);
        Ok(())
    }
    fn apply_patch(&self, _id: &SecurityId, _expected_version: u32, _patch: SecurityPatch) -> Result<WriteOutcome, StorageFault> {
        Ok(WriteOutcome::Applied)
    }
    fn update(&self, _security: &Security, _expected_version: u32) -> Result<WriteOutcome, StorageFault> {
        Ok(WriteOutcome::Applied)
    }
    fn delete(&self, _id: &SecurityId, _expected_version: u32) -> Result<WriteOutcome, StorageFault> {
        Ok(WriteOutcome::Applied)
    }
    fn exists_by_id_answer(&self, id: SecurityId) -> Result<bool, StorageFault> {
        self.exists_by_id(&id)
    }
    fn exists_by_isin_answer(&self, isin: Isin) -> Result<bool, StorageFault> {
        self.exists_by_isin(&isin)
    }
    fn insert_answer(&self, _security: Security) -> Result<(), StorageFault> {
        Ok(())
    }
}

fn common_share_with_isin() -> Option<Security> {
    let isin = Isin::new(VALE_ON_ISIN).ok()?;
    Security::builder(IssuerId::new(), SecurityKind::CommonShare)
        .isin(isin)
        .build()
        .ok()
}

fn adr_with_underlying(underlying: SecurityId) -> Option<Security> {
    Security::builder(IssuerId::new(), SecurityKind::DepositaryReceipt)
        .underlying_security_id(underlying)
        .build()
        .ok()
}

#[test]
fn security_security_name_trims_and_validates() {
    let name_result = SecurityName::new(" Vale ON ");
    assert!(name_result.is_ok());
    let Some(name) = name_result.ok() else {
        return;
    };
    assert_eq!(name.as_str(), "Vale ON");
}

#[test]
fn security_security_name_empty_fails() {
    assert!(matches!(
        SecurityName::new("   "),
        Err(SecurityNameError::Empty)
    ));
}

#[test]
fn security_security_name_too_long_fails() {
    let long_string = "A".repeat(SECURITY_NAME_MAX_LEN.saturating_add(1));
    assert!(matches!(
        SecurityName::new(&long_string),
        Err(SecurityNameError::TooLong { max: 200 })
    ));
}

#[test]
fn security_id_creation_and_conversions() {
    let original_uuid = uuid::Uuid::now_v7();
    let id = SecurityId::from_bytes(*original_uuid.as_bytes());

    assert_eq!(id.value(), original_uuid.to_string());
    assert_eq!(id.as_bytes(), original_uuid.as_bytes());
    assert_ne!(SecurityId::new(), SecurityId::new());
}

#[test]
fn security_security_kind_round_trips() {
    let kinds = [
        (SecurityKind::CommonShare, "COMMON_SHARE"),
        (SecurityKind::PreferredShare, "PREFERRED_SHARE"),
        (SecurityKind::Unit, "UNIT"),
        (SecurityKind::DepositaryReceipt, "DEPOSITARY_RECEIPT"),
    ];
    for (kind, canonical) in kinds {
        let as_string: String = kind.into();
        assert_eq!(as_string, canonical);
        assert!(matches!(
            SecurityKind::from_str(canonical),
            Ok(parsed) if parsed == kind
        ));
    }

    assert!(matches!(
        SecurityKind::from_str("common_share"),
        Ok(SecurityKind::CommonShare)
    ));
    assert!(matches!(
        SecurityKind::from_str("BOND"),
        Err(SecurityKindError::InvalidKind)
    ));
}

#[test]
fn security_security_status_round_trips() {
    assert!(SecurityStatus::default().is_active());

    let active_str: String = SecurityStatus::Active.into();
    assert_eq!(active_str, "ACTIVE");

    assert!(matches!(
        SecurityStatus::from_str("retired"),
        Ok(SecurityStatus::Retired)
    ));
    assert!(matches!(
        SecurityStatus::from_str("UNKNOWN"),
        Err(SecurityStatusError::InvalidStatus)
    ));
}

#[test]
fn security_dr_ratio_rejects_zero_on_either_side() {
    assert!(matches!(
        DepositaryReceiptRatio::new(0, 1),
        Err(DrRatioError::ZeroReceipts)
    ));
    assert!(matches!(
        DepositaryReceiptRatio::new(1, 0),
        Err(DrRatioError::ZeroUnderlying)
    ));

    let ratio_result = DepositaryReceiptRatio::new(1, 2);
    assert!(ratio_result.is_ok());
    let Some(ratio) = ratio_result.ok() else {
        return;
    };
    assert_eq!(ratio.receipts(), 1);
    assert_eq!(ratio.underlying(), 2);
}

#[test]
fn security_builder_resolves_defaults() {
    let security_result = Security::builder(IssuerId::new(), SecurityKind::CommonShare).build();
    assert!(security_result.is_ok());
    let Some(security) = security_result.ok() else {
        return;
    };

    assert!(security.status().is_active());
    assert!(matches!(security.kind(), SecurityKind::CommonShare));
    assert!(security.name().is_none());
    assert!(security.isin().is_none());
    assert!(security.cfi().is_none());
    assert!(security.underlying_security_id().is_none());
    assert!(security.dr_ratio().is_none());
    assert!(security.created_at() <= now());
}

#[test]
fn builder_accepts_common_share_with_isin() {
    let isin_result = Isin::new(VALE_ON_ISIN);
    assert!(isin_result.is_ok());
    let Some(isin) = isin_result.ok() else {
        return;
    };

    let security_result = Security::builder(IssuerId::new(), SecurityKind::CommonShare)
        .isin(isin)
        .build();
    assert!(security_result.is_ok());
    let Some(security) = security_result.ok() else {
        return;
    };

    assert!(matches!(security.isin(), Some(i) if i.as_str() == VALE_ON_ISIN));
}

#[test]
fn security_builder_accepts_depositary_receipt_with_underlying_and_ratio() {
    let underlying_id = SecurityId::new();
    let isin_result = Isin::new(VALE_ADR_ISIN);
    assert!(isin_result.is_ok());
    let Some(isin) = isin_result.ok() else {
        return;
    };
    let ratio_result = DepositaryReceiptRatio::new(1, 1);
    assert!(ratio_result.is_ok());
    let Some(ratio) = ratio_result.ok() else {
        return;
    };

    let adr_result = Security::builder(IssuerId::new(), SecurityKind::DepositaryReceipt)
        .isin(isin)
        .underlying_security_id(underlying_id)
        .dr_ratio(ratio)
        .build();
    assert!(adr_result.is_ok());
    let Some(adr) = adr_result.ok() else {
        return;
    };

    assert!(adr.kind().is_depositary_receipt());
    assert!(matches!(
        adr.underlying_security_id(),
        Some(id) if id == &underlying_id
    ));
    assert!(matches!(adr.dr_ratio(), Some(r) if r.receipts() == 1));
}

#[test]
fn builder_rejects_underlying_on_non_depositary_receipt() {
    let result = Security::builder(IssuerId::new(), SecurityKind::CommonShare)
        .underlying_security_id(SecurityId::new())
        .build();

    assert!(
        matches!(
            result,
            Err(SecurityBuilderError::UnderlyingRequiresDepositaryReceipt(kind))
                if kind == "COMMON_SHARE"
        ),
        "Only depositary receipts may reference an underlying security"
    );
}

#[test]
fn security_builder_rejects_dr_ratio_on_non_depositary_receipt() {
    let ratio_result = DepositaryReceiptRatio::new(1, 1);
    assert!(ratio_result.is_ok());
    let Some(ratio) = ratio_result.ok() else {
        return;
    };

    let result = Security::builder(IssuerId::new(), SecurityKind::PreferredShare)
        .dr_ratio(ratio)
        .build();

    assert!(matches!(
        result,
        Err(SecurityBuilderError::DrRatioRequiresDepositaryReceipt(kind))
            if kind == "PREFERRED_SHARE"
    ));
}

#[test]
fn security_builder_rejects_self_referencing_underlying() {
    let id = SecurityId::new();
    let result = Security::builder(IssuerId::new(), SecurityKind::DepositaryReceipt)
        .id(id)
        .underlying_security_id(id)
        .build();

    assert!(matches!(result, Err(SecurityBuilderError::SelfUnderlying)));
}

#[test]
fn security_single_field_patch_only_sets_that_field() {
    let name_result = SecurityName::new("Vale ADR");
    assert!(name_result.is_ok());
    let Some(name) = name_result.ok() else {
        return;
    };
    let patch = SecurityPatch::builder().name(name.clone()).build();

    assert_eq!(patch.name(), Some(&name));
    assert!(patch.status().is_none());
    assert!(patch.isin().is_none());
    assert!(patch.cfi().is_none());
    assert!(patch.dr_ratio().is_none());
}

#[test]
fn register_inserts_when_references_and_isin_are_valid() {
    let issuers = FixedIssuers { exists: true };
    let securities = FixedSecurities::new(false, true);

    let Some(security) = common_share_with_isin() else {
        return;
    };
    assert!(register_security(&securities, &issuers, &security).is_ok());
    assert!(securities.inserted.get());
}

#[test]
fn register_rejects_unknown_issuer_before_insert() {
    let issuers = FixedIssuers { exists: false };
    let securities = FixedSecurities::new(false, true);

    let Some(security) = common_share_with_isin() else {
        return;
    };
    assert!(matches!(
        register_security(&securities, &issuers, &security),
        Err(RegisterSecurityError::UnknownIssuer)
    ));
    // insert must never be called for an unknown issuer.
    assert!(!securities.inserted.get());
}

#[test]
fn register_rejects_duplicate_isin_before_insert() {
    let issuers = FixedIssuers { exists: true };
    let securities = FixedSecurities::new(true, true);

    let Some(security) = common_share_with_isin() else {
        return;
    };
    assert!(matches!(
        register_security(&securities, &issuers, &security),
        Err(RegisterSecurityError::DuplicateIsin)
    ));
    // insert must never be called on a duplicate ISIN.
    assert!(!securities.inserted.get());
}

#[test]
fn register_rejects_unknown_underlying_before_insert() {
    let issuers = FixedIssuers { exists: true };
    let securities = FixedSecurities::new(false, false);

    let Some(adr) = adr_with_underlying(SecurityId::new()) else {
        return;
    };
    assert!(matches!(
        register_security(&securities, &issuers, &adr),
        Err(RegisterSecurityError::UnknownUnderlyingSecurity)
    ));
    // insert must never be called when the underlying is missing.
    assert!(!securities.inserted.get());
}

#[test]
fn register_inserts_depositary_receipt_when_underlying_exists() {
    let issuers = FixedIssuers { exists: true };
    let securities = FixedSecurities::new(false, true);

    let Some(adr) = adr_with_underlying(SecurityId::new()) else {
        return;
    };
    assert!(register_security(&securities, &issuers, &adr).is_ok());
    assert!(securities.inserted.get());
}
