//! Security aggregate: an instrument issued by an issuer, such as a share
//! or a depositary receipt.
use vstd::prelude::*;
use core::marker::PhantomData;
use crate::common::{
    fresh_uuid_v7, now_instant, same_id_bytes, uuid_text, BuilderState, Empty, NonEmpty,
    UniqueIdentifier, UtcInstant, Versioned, WriteOutcome,
};
use crate::domain::issuer::{IssuerId, IssuerRepository};
use crate::identifiers::{Cfi, Isin};
use crate::storage::StorageFault;
use crate::text::{
    all_ascii_chars, unicode_uppercase, upper_all,
    decimal, message_with_number, str_eq, string_from_chars, to_uppercase, trimmed, trimmed_chars,
};

verus! {

/// Longest security name accepted, in characters.
pub const SECURITY_NAME_MAX_LEN: usize = 200;

/// The display name of a security: trimmed, 1 to 200 characters.
#[derive(Clone, Eq, PartialEq, Hash, Debug)]
pub struct SecurityName(String);

#[derive(Debug, PartialEq, Eq, Structural)]
pub enum SecurityNameError {
    Empty,
    TooLong { max: usize },
}

impl SecurityName {
    /// The characters of the name.
    pub closed spec fn view(self) -> Seq<char> {
        self.0@
    }

    /// Trims surrounding whitespace, then requires between 1 and
    /// 200 characters.
    pub fn new(value: &str) -> (r: Result<Self, SecurityNameError>)
        ensures
            trimmed(value@).len() == 0 ==> r == Err::<SecurityName, SecurityNameError>(SecurityNameError::Empty),
            0 < trimmed(value@).len() <= SECURITY_NAME_MAX_LEN ==> (r matches Ok(n) && n.view() == trimmed(
                value@,
            )),
            trimmed(value@).len() > SECURITY_NAME_MAX_LEN ==> r == Err::<SecurityName, SecurityNameError>(
                SecurityNameError::TooLong { max: SECURITY_NAME_MAX_LEN },
            ),
    {
        let t = trimmed_chars(value);
        if t.len() == 0 {
            return Err(SecurityNameError::Empty);
        }
        if t.len() > SECURITY_NAME_MAX_LEN {
            return Err(SecurityNameError::TooLong { max: SECURITY_NAME_MAX_LEN });
        }
        Ok(SecurityName(string_from_chars(&t)))
    }

    pub fn as_str(&self) -> (r: &str)
        ensures
            r@ == self.view(),
    {
        self.0.as_str()
    }
}

impl SecurityNameError {
    /// The human-readable text of the error, as `Display` prints it.
    pub fn to_string(&self) -> (msg: String)
        ensures
            msg@ == match self {
                SecurityNameError::Empty => "security name cannot be empty"@,
                SecurityNameError::TooLong { max } => "security name exceeds maximum length of "@ + decimal(
                    *max as nat,
                ) + " characters"@,
            },
    {
        match self {
            SecurityNameError::Empty => String::from_str("security name cannot be empty"),
            SecurityNameError::TooLong { max } => message_with_number(
                "security name exceeds maximum length of ",
                *max as u64,
                " characters",
            ),
        }
    }
}

/// Identity of a security: a version 7 UUID, kept as its sixteen bytes.
#[derive(Copy, Clone, Eq, PartialEq, Hash, Debug)]
pub struct SecurityId {
    bytes: [u8; 16],
}

impl SecurityId {
    /// The sixteen bytes.
    pub closed spec fn view(self) -> Seq<u8> {
        self.bytes@
    }

    /// A fresh time-ordered identity.
    pub fn new() -> (r: Self)
        ensures
            r.view()[6] / 16 == 7,
            r.view()[8] / 64 == 2,
    {
        SecurityId { bytes: fresh_uuid_v7() }
    }

    pub fn from_bytes(bytes: [u8; 16]) -> (r: Self)
        ensures
            r.view() == bytes@,
    {
        SecurityId { bytes }
    }

    /// The hyphenated lower-case hexadecimal form.
    pub fn value(&self) -> (r: String)
        ensures
            r@ == uuid_text(self.view()),
    {
        UniqueIdentifier::from_bytes(self.bytes).value()
    }

    pub fn as_bytes(&self) -> (r: &[u8; 16])
        ensures
            r@ == self.view(),
    {
        &self.bytes
    }
}

impl Default for SecurityId {
    fn default() -> (r: Self)
        ensures
            r.view()[6] / 16 == 7,
            r.view()[8] / 64 == 2,
    {
        SecurityId::new()
    }
}

/// What kind of instrument a security is.
#[derive(Debug, Clone, Copy, PartialEq, Eq, Hash, Structural)]
pub enum SecurityKind {
    CommonShare,
    PreferredShare,
    Unit,
    DepositaryReceipt,
}

#[derive(Debug, PartialEq, Eq, Structural)]
pub enum SecurityKindError {
    InvalidKind,
}

impl SecurityKind {
    pub fn is_depositary_receipt(&self) -> (r: bool)
        ensures
            r == (*self == SecurityKind::DepositaryReceipt),
    {
        matches!(self, SecurityKind::DepositaryReceipt)
    }

    /// The upper-case text of the value, as the `String` conversion gives it.
    pub open spec fn text(self) -> Seq<char> {
        match self {
            SecurityKind::CommonShare => "COMMON_SHARE"@,
            SecurityKind::PreferredShare => "PREFERRED_SHARE"@,
            SecurityKind::Unit => "UNIT"@,
            SecurityKind::DepositaryReceipt => "DEPOSITARY_RECEIPT"@,
        }
    }

    pub fn as_str(&self) -> (r: &'static str)
        ensures
            r@ == self.text(),
    {
        match self {
            SecurityKind::CommonShare => "COMMON_SHARE",
            SecurityKind::PreferredShare => "PREFERRED_SHARE",
            SecurityKind::Unit => "UNIT",
            SecurityKind::DepositaryReceipt => "DEPOSITARY_RECEIPT",
        }
    }

    /// Which value an already upper-cased text names.
    pub open spec fn from_uppercase_spec(upper: Seq<char>) -> Result<SecurityKind, SecurityKindError> {
        if upper == "COMMON_SHARE"@ {
            Ok(SecurityKind::CommonShare)
        } else if upper == "PREFERRED_SHARE"@ {
            Ok(SecurityKind::PreferredShare)
        } else if upper == "UNIT"@ {
            Ok(SecurityKind::Unit)
        } else if upper == "DEPOSITARY_RECEIPT"@ {
            Ok(SecurityKind::DepositaryReceipt)
        } else {
            Err(SecurityKindError::InvalidKind)
        }
    }

    /// Reads the value from text that is already upper-cased.
    pub fn from_uppercase(upper: &str) -> (r: Result<SecurityKind, SecurityKindError>)
        ensures
            r == SecurityKind::from_uppercase_spec(upper@),
    {
        if str_eq(upper, "COMMON_SHARE") {
            Ok(SecurityKind::CommonShare)
        } else if str_eq(upper, "PREFERRED_SHARE") {
            Ok(SecurityKind::PreferredShare)
        } else if str_eq(upper, "UNIT") {
            Ok(SecurityKind::Unit)
        } else if str_eq(upper, "DEPOSITARY_RECEIPT") {
            Ok(SecurityKind::DepositaryReceipt)
        } else {
            Err(SecurityKindError::InvalidKind)
        }
    }
}

impl SecurityKind {
    /// Reads the value from text in any letter case, as `FromStr` does.
    pub fn from_text(s: &str) -> (r: Result<SecurityKind, SecurityKindError>)
        ensures
            r == SecurityKind::from_uppercase_spec(unicode_uppercase(s@)),
            all_ascii_chars(s@) ==> r == SecurityKind::from_uppercase_spec(upper_all(s@)),
    {
        let upper = to_uppercase(s);
        Self::from_uppercase(upper.as_str())
    }
}

impl core::str::FromStr for SecurityKind {
    type Err = SecurityKindError;

    fn from_str(s: &str) -> (r: Result<Self, Self::Err>)
        ensures
            r == SecurityKind::from_uppercase_spec(unicode_uppercase(s@)),
            all_ascii_chars(s@) ==> r == SecurityKind::from_uppercase_spec(upper_all(s@)),
    {
        SecurityKind::from_text(s)
    }
}

/// Every value reads back from its own text: `SecurityKind::from_text(v.as_str())`,
/// and so `from_str` of `String::from(v)`, gives `v`.
pub proof fn law_security_kind_text_round_trip(v: SecurityKind)
    ensures
        all_ascii_chars(v.text()),
        SecurityKind::from_uppercase_spec(upper_all(v.text())) == Ok::<SecurityKind, SecurityKindError>(v),
{
    reveal_strlit("COMMON_SHARE");
    reveal_strlit("PREFERRED_SHARE");
    reveal_strlit("UNIT");
    reveal_strlit("DEPOSITARY_RECEIPT");
    assert(upper_all(v.text()) =~= v.text());
}

impl From<SecurityKind> for String {
    fn from(val: SecurityKind) -> (r: String)
        ensures
            r@ == val.text(),
    {
        String::from_str(val.as_str())
    }
}

impl vstd::std_specs::convert::FromSpecImpl<SecurityKind> for String {
    open spec fn obeys_from_spec() -> bool {
        false
    }

    open spec fn from_spec(v: SecurityKind) -> String {
        choose|s: String| s@ == v.text()
    }
}

impl SecurityKindError {
    /// The human-readable text of the error, as `Display` prints it.
    pub fn to_string(&self) -> (msg: String)
        ensures
            msg@ == "Invalid kind. Must be one of: [\"COMMON_SHARE\", \"PREFERRED_SHARE\", \"UNIT\", \"DEPOSITARY_RECEIPT\"]"@,
    {
        String::from_str("Invalid kind. Must be one of: [\"COMMON_SHARE\", \"PREFERRED_SHARE\", \"UNIT\", \"DEPOSITARY_RECEIPT\"]")
    }
}

/// Lifecycle status of a security.
#[derive(Debug, Clone, Copy, PartialEq, Eq, Hash, Structural)]
pub enum SecurityStatus {
    Active,
    Retired,
}

#[derive(Debug, PartialEq, Eq, Structural)]
pub enum SecurityStatusError {
    InvalidStatus,
}

impl SecurityStatus {
    pub fn is_active(&self) -> (r: bool)
        ensures
            r == (*self == SecurityStatus::Active),
    {
        matches!(self, SecurityStatus::Active)
    }

    pub fn is_retired(&self) -> (r: bool)
        ensures
            r == (*self == SecurityStatus::Retired),
    {
        matches!(self, SecurityStatus::Retired)
    }

    /// The upper-case text of the value, as the `String` conversion gives it.
    pub open spec fn text(self) -> Seq<char> {
        match self {
            SecurityStatus::Active => "ACTIVE"@,
            SecurityStatus::Retired => "RETIRED"@,
        }
    }

    pub fn as_str(&self) -> (r: &'static str)
        ensures
            r@ == self.text(),
    {
        match self {
            SecurityStatus::Active => "ACTIVE",
            SecurityStatus::Retired => "RETIRED",
        }
    }

    /// Which value an already upper-cased text names.
    pub open spec fn from_uppercase_spec(upper: Seq<char>) -> Result<SecurityStatus, SecurityStatusError> {
        if upper == "ACTIVE"@ {
            Ok(SecurityStatus::Active)
        } else if upper == "RETIRED"@ {
            Ok(SecurityStatus::Retired)
        } else {
            Err(SecurityStatusError::InvalidStatus)
        }
    }

    /// Reads the value from text that is already upper-cased.
    pub fn from_uppercase(upper: &str) -> (r: Result<SecurityStatus, SecurityStatusError>)
        ensures
            r == SecurityStatus::from_uppercase_spec(upper@),
    {
        if str_eq(upper, "ACTIVE") {
            Ok(SecurityStatus::Active)
        } else if str_eq(upper, "RETIRED") {
            Ok(SecurityStatus::Retired)
        } else {
            Err(SecurityStatusError::InvalidStatus)
        }
    }
}

impl Default for SecurityStatus {
    fn default() -> (r: Self)
        ensures
            r == SecurityStatus::Active,
    {
        SecurityStatus::Active
    }
}

impl SecurityStatus {
    /// Reads the value from text in any letter case, as `FromStr` does.
    pub fn from_text(s: &str) -> (r: Result<SecurityStatus, SecurityStatusError>)
        ensures
            r == SecurityStatus::from_uppercase_spec(unicode_uppercase(s@)),
            all_ascii_chars(s@) ==> r == SecurityStatus::from_uppercase_spec(upper_all(s@)),
    {
        let upper = to_uppercase(s);
        Self::from_uppercase(upper.as_str())
    }
}

impl core::str::FromStr for SecurityStatus {
    type Err = SecurityStatusError;

    fn from_str(s: &str) -> (r: Result<Self, Self::Err>)
        ensures
            r == SecurityStatus::from_uppercase_spec(unicode_uppercase(s@)),
            all_ascii_chars(s@) ==> r == SecurityStatus::from_uppercase_spec(upper_all(s@)),
    {
        SecurityStatus::from_text(s)
    }
}

/// Every value reads back from its own text: `SecurityStatus::from_text(v.as_str())`,
/// and so `from_str` of `String::from(v)`, gives `v`.
pub proof fn law_security_status_text_round_trip(v: SecurityStatus)
    ensures
        all_ascii_chars(v.text()),
        SecurityStatus::from_uppercase_spec(upper_all(v.text())) == Ok::<SecurityStatus, SecurityStatusError>(v),
{
    reveal_strlit("ACTIVE");
    reveal_strlit("RETIRED");
    assert(upper_all(v.text()) =~= v.text());
}

impl From<SecurityStatus> for String {
    fn from(val: SecurityStatus) -> (r: String)
        ensures
            r@ == val.text(),
    {
        String::from_str(val.as_str())
    }
}

impl vstd::std_specs::convert::FromSpecImpl<SecurityStatus> for String {
    open spec fn obeys_from_spec() -> bool {
        false
    }

    open spec fn from_spec(v: SecurityStatus) -> String {
        choose|s: String| s@ == v.text()
    }
}

impl SecurityStatusError {
    /// The human-readable text of the error, as `Display` prints it.
    pub fn to_string(&self) -> (msg: String)
        ensures
            msg@ == "Invalid status. Must be one of: [\"ACTIVE\", \"RETIRED\"]"@,
    {
        String::from_str("Invalid status. Must be one of: [\"ACTIVE\", \"RETIRED\"]")
    }
}

/// How many depositary receipts stand for how many underlying shares; both
/// sides are positive.
#[derive(Debug, Clone, Copy, PartialEq, Eq, Hash, Structural)]
pub struct DepositaryReceiptRatio {
    receipts: u32,
    underlying: u32,
}

#[derive(Debug, PartialEq, Eq, Structural)]
pub enum DrRatioError {
    ZeroReceipts,
    ZeroUnderlying,
}

impl DepositaryReceiptRatio {
    #[verifier::type_invariant]
    spec fn both_sides_positive(self) -> bool {
        self.receipts > 0 && self.underlying > 0
    }

    pub closed spec fn receipts_spec(self) -> u32 {
        self.receipts
    }

    pub closed spec fn underlying_spec(self) -> u32 {
        self.underlying
    }

    /// `receipts : underlying`; a zero side is refused, the receipts side
    /// first.
    pub fn new(receipts: u32, underlying: u32) -> (r: Result<Self, DrRatioError>)
        ensures
            receipts == 0 ==> r == Err::<DepositaryReceiptRatio, DrRatioError>(DrRatioError::ZeroReceipts),
            receipts > 0 && underlying == 0 ==> r == Err::<DepositaryReceiptRatio, DrRatioError>(
                DrRatioError::ZeroUnderlying,
            ),
            receipts > 0 && underlying > 0 ==> (r matches Ok(d) && d.receipts_spec() == receipts
                && d.underlying_spec() == underlying),
    {
        if receipts == 0 {
            return Err(DrRatioError::ZeroReceipts);
        }
        if underlying == 0 {
            return Err(DrRatioError::ZeroUnderlying);
        }
        Ok(DepositaryReceiptRatio { receipts, underlying })
    }

    pub fn receipts(&self) -> (r: u32)
        ensures
            r == self.receipts_spec(),
            r > 0,
    {
        proof {
            use_type_invariant(self);
        }
        self.receipts
    }

    pub fn underlying(&self) -> (r: u32)
        ensures
            r == self.underlying_spec(),
            r > 0,
    {
        proof {
            use_type_invariant(self);
        }
        self.underlying
    }
}

impl DrRatioError {
    /// The human-readable text of the error, as `Display` prints it.
    pub fn to_string(&self) -> (r: String)
        ensures
            r@ == match self {
                DrRatioError::ZeroReceipts => "depositary receipt ratio requires a non-zero receipts side"@,
                DrRatioError::ZeroUnderlying => "depositary receipt ratio requires a non-zero underlying side"@,
            },
    {
        match self {
            DrRatioError::ZeroReceipts => String::from_str(
                "depositary receipt ratio requires a non-zero receipts side",
            ),
            DrRatioError::ZeroUnderlying => String::from_str(
                "depositary receipt ratio requires a non-zero underlying side",
            ),
        }
    }
}

/// A security.
#[derive(Debug, Clone)]
pub struct Security {
    id: SecurityId,
    issuer_id: IssuerId,
    kind: SecurityKind,
    status: SecurityStatus,
    created_at: UtcInstant,
    name: Option<SecurityName>,
    isin: Option<Isin>,
    cfi: Option<Cfi>,
    underlying_security_id: Option<SecurityId>,
    dr_ratio: Option<DepositaryReceiptRatio>,
}

/// The stored fields of a security, to rebuild it from storage.
#[derive(Debug)]
pub struct SecuritySnapshot {
    pub id: SecurityId,
    pub issuer_id: IssuerId,
    pub kind: SecurityKind,
    pub status: SecurityStatus,
    pub created_at: UtcInstant,
    pub name: Option<SecurityName>,
    pub isin: Option<Isin>,
    pub cfi: Option<Cfi>,
    pub underlying_security_id: Option<SecurityId>,
    pub dr_ratio: Option<DepositaryReceiptRatio>,
}

impl Security {
    pub closed spec fn id_spec(self) -> SecurityId {
        self.id
    }

    pub closed spec fn issuer_id_spec(self) -> IssuerId {
        self.issuer_id
    }

    pub closed spec fn kind_spec(self) -> SecurityKind {
        self.kind
    }

    pub closed spec fn status_spec(self) -> SecurityStatus {
        self.status
    }

    pub closed spec fn created_at_spec(self) -> UtcInstant {
        self.created_at
    }

    pub closed spec fn name_spec(self) -> Option<SecurityName> {
        self.name
    }

    pub closed spec fn isin_spec(self) -> Option<Isin> {
        self.isin
    }

    pub closed spec fn cfi_spec(self) -> Option<Cfi> {
        self.cfi
    }

    pub closed spec fn underlying_security_id_spec(self) -> Option<SecurityId> {
        self.underlying_security_id
    }

    pub closed spec fn dr_ratio_spec(self) -> Option<DepositaryReceiptRatio> {
        self.dr_ratio
    }

    pub fn builder(issuer_id: IssuerId, kind: SecurityKind) -> (r: SecurityBuilder)
        ensures
            r == SecurityBuilder::new_spec(issuer_id, kind),
    {
        SecurityBuilder::new(issuer_id, kind)
    }

    pub fn id(&self) -> (r: &SecurityId)
        ensures
            *r == self.id_spec(),
    {
        &self.id
    }

    pub fn issuer_id(&self) -> (r: &IssuerId)
        ensures
            *r == self.issuer_id_spec(),
    {
        &self.issuer_id
    }

    pub fn kind(&self) -> (r: SecurityKind)
        ensures
            r == self.kind_spec(),
    {
        self.kind
    }

    pub fn status(&self) -> (r: SecurityStatus)
        ensures
            r == self.status_spec(),
    {
        self.status
    }

    /// When the security was created.
    pub fn created_at(&self) -> (r: UtcInstant)
        ensures
            r == self.created_at_spec(),
    {
        self.created_at
    }

    pub fn name(&self) -> (r: Option<&SecurityName>)
        ensures
            r is None <==> self.name_spec() is None,
            r matches Some(v) ==> self.name_spec() == Some(*v),
    {
        match &self.name {
            Some(v) => Some(v),
            None => None,
        }
    }

    pub fn isin(&self) -> (r: Option<&Isin>)
        ensures
            r is None <==> self.isin_spec() is None,
            r matches Some(v) ==> self.isin_spec() == Some(*v),
    {
        match &self.isin {
            Some(v) => Some(v),
            None => None,
        }
    }

    pub fn cfi(&self) -> (r: Option<&Cfi>)
        ensures
            r is None <==> self.cfi_spec() is None,
            r matches Some(v) ==> self.cfi_spec() == Some(*v),
    {
        match &self.cfi {
            Some(v) => Some(v),
            None => None,
        }
    }

    pub fn underlying_security_id(&self) -> (r: Option<&SecurityId>)
        ensures
            r is None <==> self.underlying_security_id_spec() is None,
            r matches Some(v) ==> self.underlying_security_id_spec() == Some(*v),
    {
        match &self.underlying_security_id {
            Some(v) => Some(v),
            None => None,
        }
    }

    pub fn dr_ratio(&self) -> (r: Option<&DepositaryReceiptRatio>)
        ensures
            r is None <==> self.dr_ratio_spec() is None,
            r matches Some(v) ==> self.dr_ratio_spec() == Some(*v),
    {
        match &self.dr_ratio {
            Some(v) => Some(v),
            None => None,
        }
    }

    /// A security as it was stored.
    pub fn reconstitute(snapshot: SecuritySnapshot) -> (r: Security)
        ensures
            r.id_spec() == snapshot.id,
            r.issuer_id_spec() == snapshot.issuer_id,
            r.kind_spec() == snapshot.kind,
            r.status_spec() == snapshot.status,
            r.created_at_spec() == snapshot.created_at,
            r.name_spec() == snapshot.name,
            r.isin_spec() == snapshot.isin,
            r.cfi_spec() == snapshot.cfi,
            r.underlying_security_id_spec() == snapshot.underlying_security_id,
            r.dr_ratio_spec() == snapshot.dr_ratio,
    {
        Security {
            id: snapshot.id,
            issuer_id: snapshot.issuer_id,
            kind: snapshot.kind,
            status: snapshot.status,
            created_at: snapshot.created_at,
            name: snapshot.name,
            isin: snapshot.isin,
            cfi: snapshot.cfi,
            underlying_security_id: snapshot.underlying_security_id,
            dr_ratio: snapshot.dr_ratio,
        }
    }
}

/// Assembles a security of an issuer; the kind is required.
pub struct SecurityBuilder {
    issuer_id: IssuerId,
    kind: SecurityKind,
    id: Option<SecurityId>,
    status: Option<SecurityStatus>,
    created_at: Option<UtcInstant>,
    name: Option<SecurityName>,
    isin: Option<Isin>,
    cfi: Option<Cfi>,
    underlying_security_id: Option<SecurityId>,
    dr_ratio: Option<DepositaryReceiptRatio>,
}

#[derive(Debug)]
pub enum SecurityBuilderError {
    UnderlyingRequiresDepositaryReceipt(String),
    DrRatioRequiresDepositaryReceipt(String),
    SelfUnderlying,
}

impl SecurityBuilderError {
    /// The human-readable text of the error, as `Display` prints it.
    pub fn to_string(&self) -> (r: String)
        ensures
            self matches SecurityBuilderError::UnderlyingRequiresDepositaryReceipt(k) ==> r@
                == "An underlying security may only be set on a DEPOSITARY_RECEIPT security. Found: "@
                + k@,
            self matches SecurityBuilderError::DrRatioRequiresDepositaryReceipt(k) ==> r@
                == "A depositary receipt ratio may only be set on a DEPOSITARY_RECEIPT security. Found: "@
                + k@,
            self is SelfUnderlying ==> r@ == "a security cannot reference itself as its underlying"@,
    {
        match self {
            SecurityBuilderError::UnderlyingRequiresDepositaryReceipt(k) => {
                let mut s = String::from_str(
                    "An underlying security may only be set on a DEPOSITARY_RECEIPT security. Found: ",
                );
                s.append(k.as_str());
                s
            },
            SecurityBuilderError::DrRatioRequiresDepositaryReceipt(k) => {
                let mut s = String::from_str(
                    "A depositary receipt ratio may only be set on a DEPOSITARY_RECEIPT security. Found: ",
                );
                s.append(k.as_str());
                s
            },
            SecurityBuilderError::SelfUnderlying => String::from_str(
                "a security cannot reference itself as its underlying",
            ),
        }
    }
}

impl SecurityBuilder {
    pub closed spec fn new_spec(issuer_id: IssuerId, kind: SecurityKind) -> SecurityBuilder {
        SecurityBuilder {
            issuer_id,
            kind,
            id: None,
            status: None,
            created_at: None,
            name: None,
            isin: None,
            cfi: None,
            underlying_security_id: None,
            dr_ratio: None,
        }
    }

    pub closed spec fn issuer_id_spec(self) -> IssuerId {
        self.issuer_id
    }

    pub closed spec fn kind_spec(self) -> SecurityKind {
        self.kind
    }

    pub closed spec fn id_spec(self) -> Option<SecurityId> {
        self.id
    }

    pub closed spec fn status_spec(self) -> Option<SecurityStatus> {
        self.status
    }

    pub closed spec fn created_at_spec(self) -> Option<UtcInstant> {
        self.created_at
    }

    pub closed spec fn name_spec(self) -> Option<SecurityName> {
        self.name
    }

    pub closed spec fn isin_spec(self) -> Option<Isin> {
        self.isin
    }

    pub closed spec fn cfi_spec(self) -> Option<Cfi> {
        self.cfi
    }

    pub closed spec fn underlying_security_id_spec(self) -> Option<SecurityId> {
        self.underlying_security_id
    }

    pub closed spec fn dr_ratio_spec(self) -> Option<DepositaryReceiptRatio> {
        self.dr_ratio
    }

    pub fn new(issuer_id: IssuerId, kind: SecurityKind) -> (r: Self)
        ensures
            r == SecurityBuilder::new_spec(issuer_id, kind),
    {
        SecurityBuilder {
            issuer_id,
            kind,
            id: None,
            status: None,
            created_at: None,
            name: None,
            isin: None,
            cfi: None,
            underlying_security_id: None,
            dr_ratio: None,
        }
    }

    pub fn id(self, id: SecurityId) -> (r: Self)
        ensures
            r.id_spec() == Some(id),
            r.issuer_id_spec() == self.issuer_id_spec(),
            r.kind_spec() == self.kind_spec(),
            r.status_spec() == self.status_spec(),
            r.created_at_spec() == self.created_at_spec(),
            r.name_spec() == self.name_spec(),
            r.isin_spec() == self.isin_spec(),
            r.cfi_spec() == self.cfi_spec(),
            r.underlying_security_id_spec() == self.underlying_security_id_spec(),
            r.dr_ratio_spec() == self.dr_ratio_spec(),
    {
        SecurityBuilder { id: Some(id), ..self }
    }

    pub fn status(self, status: SecurityStatus) -> (r: Self)
        ensures
            r.status_spec() == Some(status),
            r.issuer_id_spec() == self.issuer_id_spec(),
            r.kind_spec() == self.kind_spec(),
            r.id_spec() == self.id_spec(),
            r.created_at_spec() == self.created_at_spec(),
            r.name_spec() == self.name_spec(),
            r.isin_spec() == self.isin_spec(),
            r.cfi_spec() == self.cfi_spec(),
            r.underlying_security_id_spec() == self.underlying_security_id_spec(),
            r.dr_ratio_spec() == self.dr_ratio_spec(),
    {
        SecurityBuilder { status: Some(status), ..self }
    }

    /// Sets the creation time.
    pub fn created_at(self, created_at: UtcInstant) -> (r: Self)
        ensures
            r.created_at_spec() == Some(created_at),
            r.issuer_id_spec() == self.issuer_id_spec(),
            r.kind_spec() == self.kind_spec(),
            r.id_spec() == self.id_spec(),
            r.status_spec() == self.status_spec(),
            r.name_spec() == self.name_spec(),
            r.isin_spec() == self.isin_spec(),
            r.cfi_spec() == self.cfi_spec(),
            r.underlying_security_id_spec() == self.underlying_security_id_spec(),
            r.dr_ratio_spec() == self.dr_ratio_spec(),
    {
        SecurityBuilder { created_at: Some(created_at), ..self }
    }

    pub fn name(self, name: SecurityName) -> (r: Self)
        ensures
            r.name_spec() == Some(name),
            r.issuer_id_spec() == self.issuer_id_spec(),
            r.kind_spec() == self.kind_spec(),
            r.id_spec() == self.id_spec(),
            r.status_spec() == self.status_spec(),
            r.created_at_spec() == self.created_at_spec(),
            r.isin_spec() == self.isin_spec(),
            r.cfi_spec() == self.cfi_spec(),
            r.underlying_security_id_spec() == self.underlying_security_id_spec(),
            r.dr_ratio_spec() == self.dr_ratio_spec(),
    {
        SecurityBuilder { name: Some(name), ..self }
    }

    pub fn isin(self, isin: Isin) -> (r: Self)
        ensures
            r.isin_spec() == Some(isin),
            r.issuer_id_spec() == self.issuer_id_spec(),
            r.kind_spec() == self.kind_spec(),
            r.id_spec() == self.id_spec(),
            r.status_spec() == self.status_spec(),
            r.created_at_spec() == self.created_at_spec(),
            r.name_spec() == self.name_spec(),
            r.cfi_spec() == self.cfi_spec(),
            r.underlying_security_id_spec() == self.underlying_security_id_spec(),
            r.dr_ratio_spec() == self.dr_ratio_spec(),
    {
        SecurityBuilder { isin: Some(isin), ..self }
    }

    pub fn cfi(self, cfi: Cfi) -> (r: Self)
        ensures
            r.cfi_spec() == Some(cfi),
            r.issuer_id_spec() == self.issuer_id_spec(),
            r.kind_spec() == self.kind_spec(),
            r.id_spec() == self.id_spec(),
            r.status_spec() == self.status_spec(),
            r.created_at_spec() == self.created_at_spec(),
            r.name_spec() == self.name_spec(),
            r.isin_spec() == self.isin_spec(),
            r.underlying_security_id_spec() == self.underlying_security_id_spec(),
            r.dr_ratio_spec() == self.dr_ratio_spec(),
    {
        SecurityBuilder { cfi: Some(cfi), ..self }
    }

    pub fn underlying_security_id(self, underlying_security_id: SecurityId) -> (r: Self)
        ensures
            r.underlying_security_id_spec() == Some(underlying_security_id),
            r.issuer_id_spec() == self.issuer_id_spec(),
            r.kind_spec() == self.kind_spec(),
            r.id_spec() == self.id_spec(),
            r.status_spec() == self.status_spec(),
            r.created_at_spec() == self.created_at_spec(),
            r.name_spec() == self.name_spec(),
            r.isin_spec() == self.isin_spec(),
            r.cfi_spec() == self.cfi_spec(),
            r.dr_ratio_spec() == self.dr_ratio_spec(),
    {
        SecurityBuilder { underlying_security_id: Some(underlying_security_id), ..self }
    }

    pub fn dr_ratio(self, dr_ratio: DepositaryReceiptRatio) -> (r: Self)
        ensures
            r.dr_ratio_spec() == Some(dr_ratio),
            r.issuer_id_spec() == self.issuer_id_spec(),
            r.kind_spec() == self.kind_spec(),
            r.id_spec() == self.id_spec(),
            r.status_spec() == self.status_spec(),
            r.created_at_spec() == self.created_at_spec(),
            r.name_spec() == self.name_spec(),
            r.isin_spec() == self.isin_spec(),
            r.cfi_spec() == self.cfi_spec(),
            r.underlying_security_id_spec() == self.underlying_security_id_spec(),
    {
        SecurityBuilder { dr_ratio: Some(dr_ratio), ..self }
    }

    /// The security, after the cross-field rules: an underlying security and
    /// a receipt ratio are only for depositary receipts (checked in that
    /// order), and a security never wraps itself. Unset fields default to a
    /// fresh id, `Active` and the current time.
    pub fn build(self) -> (r: Result<Security, SecurityBuilderError>)
        ensures
            !(self.kind_spec() is DepositaryReceipt) && self.underlying_security_id_spec() is Some
                ==> (r matches Err(SecurityBuilderError::UnderlyingRequiresDepositaryReceipt(k))
                && k@ == self.kind_spec().text()),
            !(self.kind_spec() is DepositaryReceipt) && self.underlying_security_id_spec() is None
                && self.dr_ratio_spec() is Some ==> (r matches Err(
                SecurityBuilderError::DrRatioRequiresDepositaryReceipt(k),
            ) && k@ == self.kind_spec().text()),
            (self.kind_spec() is DepositaryReceipt && self.id_spec() is Some
                && self.underlying_security_id_spec() == self.id_spec()) ==> (r matches Err(
                SecurityBuilderError::SelfUnderlying,
            )),
            r matches Err(SecurityBuilderError::SelfUnderlying) ==> self.kind_spec() is DepositaryReceipt
                && self.underlying_security_id_spec() is Some && (self.id_spec() is Some
                ==> self.underlying_security_id_spec() == self.id_spec()),
            (self.kind_spec() is DepositaryReceipt || (self.underlying_security_id_spec() is None
                && self.dr_ratio_spec() is None)) && !(r matches Err(
                SecurityBuilderError::SelfUnderlying,
            )) ==> r is Ok,
            r matches Ok(s) ==> {
                &&& self.id_spec() matches Some(id) ==> s.id_spec() == id
                &&& s.issuer_id_spec() == self.issuer_id_spec()
                &&& s.kind_spec() == self.kind_spec()
                &&& s.status_spec() == (match self.status_spec() {
                    Some(st) => st,
                    None => SecurityStatus::Active,
                })
                &&& self.created_at_spec() matches Some(t) ==> s.created_at_spec() == t
                &&& s.name_spec() == self.name_spec()
                &&& s.isin_spec() == self.isin_spec()
                &&& s.cfi_spec() == self.cfi_spec()
                &&& s.underlying_security_id_spec() == self.underlying_security_id_spec()
                &&& s.dr_ratio_spec() == self.dr_ratio_spec()
                &&& s.underlying_security_id_spec() != Some(s.id_spec())
            },
    {
        let id = match self.id {
            Some(id) => id,
            None => SecurityId::new(),
        };
        let status = match self.status {
            Some(s) => s,
            None => SecurityStatus::Active,
        };
        let created_at = match self.created_at {
            Some(t) => t,
            None => now_instant(),
        };
        if !self.kind.is_depositary_receipt() {
            if self.underlying_security_id.is_some() {
                return Err(
                    SecurityBuilderError::UnderlyingRequiresDepositaryReceipt(
                        String::from_str(self.kind.as_str()),
                    ),
                );
            }
            if self.dr_ratio.is_some() {
                return Err(
                    SecurityBuilderError::DrRatioRequiresDepositaryReceipt(
                        String::from_str(self.kind.as_str()),
                    ),
                );
            }
        }
        if let Some(underlying) = &self.underlying_security_id {
            if same_id_bytes(underlying.as_bytes(), id.as_bytes()) {
                proof {
                    assert(underlying.bytes =~= id.bytes);
                }
                return Err(SecurityBuilderError::SelfUnderlying);
            }
        }
        Ok(
            Security {
                id,
                issuer_id: self.issuer_id,
                kind: self.kind,
                status,
                created_at,
                name: self.name,
                isin: self.isin,
                cfi: self.cfi,
                underlying_security_id: self.underlying_security_id,
                dr_ratio: self.dr_ratio,
            },
        )
    }
}

/// Partial update of a security: the fields that are set replace the stored ones.
#[derive(Debug, Clone)]
pub struct SecurityPatch {
    name: Option<SecurityName>,
    status: Option<SecurityStatus>,
    isin: Option<Isin>,
    cfi: Option<Cfi>,
    dr_ratio: Option<DepositaryReceiptRatio>,
}

impl SecurityPatch {
    /// Whether the patch sets at least one field.
    pub open spec fn any_field_set(self) -> bool {
        ||| self.name_spec() is Some
        ||| self.status_spec() is Some
        ||| self.isin_spec() is Some
        ||| self.cfi_spec() is Some
        ||| self.dr_ratio_spec() is Some
    }

    /// A builder with no field set yet.
    pub fn builder() -> (r: SecurityPatchBuilder<Empty>)
        ensures
            !r.pending().any_field_set(),
    {
        SecurityPatchBuilder::new()
    }

    fn empty() -> (r: Self)
        ensures
            !r.any_field_set(),
    {
        SecurityPatch { name: None, status: None, isin: None, cfi: None, dr_ratio: None }
    }

    pub closed spec fn name_spec(self) -> Option<SecurityName> {
        self.name
    }

    pub closed spec fn status_spec(self) -> Option<SecurityStatus> {
        self.status
    }

    pub closed spec fn isin_spec(self) -> Option<Isin> {
        self.isin
    }

    pub closed spec fn cfi_spec(self) -> Option<Cfi> {
        self.cfi
    }

    pub closed spec fn dr_ratio_spec(self) -> Option<DepositaryReceiptRatio> {
        self.dr_ratio
    }

    pub fn name(&self) -> (r: Option<&SecurityName>)
        ensures
            r is None <==> self.name_spec() is None,
            r matches Some(v) ==> self.name_spec() == Some(*v),
    {
        match &self.name {
            Some(v) => Some(v),
            None => None,
        }
    }

    pub fn status(&self) -> (r: Option<SecurityStatus>)
        ensures
            r == self.status_spec(),
    {
        self.status
    }

    pub fn isin(&self) -> (r: Option<&Isin>)
        ensures
            r is None <==> self.isin_spec() is None,
            r matches Some(v) ==> self.isin_spec() == Some(*v),
    {
        match &self.isin {
            Some(v) => Some(v),
            None => None,
        }
    }

    pub fn cfi(&self) -> (r: Option<&Cfi>)
        ensures
            r is None <==> self.cfi_spec() is None,
            r matches Some(v) ==> self.cfi_spec() == Some(*v),
    {
        match &self.cfi {
            Some(v) => Some(v),
            None => None,
        }
    }

    pub fn dr_ratio(&self) -> (r: Option<&DepositaryReceiptRatio>)
        ensures
            r is None <==> self.dr_ratio_spec() is None,
            r matches Some(v) ==> self.dr_ratio_spec() == Some(*v),
    {
        match &self.dr_ratio {
            Some(v) => Some(v),
            None => None,
        }
    }
}

/// Builds a patch; `build` is only available once a field has been set.
pub struct SecurityPatchBuilder<State: BuilderState> {
    inner: SecurityPatch,
    _state: PhantomData<State>,
}

impl<State: BuilderState> SecurityPatchBuilder<State> {
    /// A builder in a state that promises a set field has one.
    #[verifier::type_invariant]
    spec fn set_field_when_promised(self) -> bool {
        State::has_set_field() ==> self.inner.any_field_set()
    }

    /// The patch assembled so far.
    pub closed spec fn pending(self) -> SecurityPatch {
        self.inner
    }
}

impl SecurityPatchBuilder<Empty> {
    fn new() -> (r: Self)
        ensures
            !r.pending().any_field_set(),
    {
        SecurityPatchBuilder { inner: SecurityPatch::empty(), _state: PhantomData }
    }
}

impl<State: BuilderState> SecurityPatchBuilder<State> {
    pub fn name(self, name: SecurityName) -> (r: SecurityPatchBuilder<NonEmpty>)
        ensures
            r.pending().name_spec() == Some(name),
            r.pending().status_spec() == self.pending().status_spec(),
            r.pending().isin_spec() == self.pending().isin_spec(),
            r.pending().cfi_spec() == self.pending().cfi_spec(),
            r.pending().dr_ratio_spec() == self.pending().dr_ratio_spec(),
    {
        SecurityPatchBuilder {
            inner: SecurityPatch {
                name: Some(name),
                status: self.inner.status,
                isin: self.inner.isin,
                cfi: self.inner.cfi,
                dr_ratio: self.inner.dr_ratio,
            },
            _state: PhantomData,
        }
    }

    pub fn status(self, status: SecurityStatus) -> (r: SecurityPatchBuilder<NonEmpty>)
        ensures
            r.pending().status_spec() == Some(status),
            r.pending().name_spec() == self.pending().name_spec(),
            r.pending().isin_spec() == self.pending().isin_spec(),
            r.pending().cfi_spec() == self.pending().cfi_spec(),
            r.pending().dr_ratio_spec() == self.pending().dr_ratio_spec(),
    {
        SecurityPatchBuilder {
            inner: SecurityPatch {
                name: self.inner.name,
                status: Some(status),
                isin: self.inner.isin,
                cfi: self.inner.cfi,
                dr_ratio: self.inner.dr_ratio,
            },
            _state: PhantomData,
        }
    }

    pub fn isin(self, isin: Isin) -> (r: SecurityPatchBuilder<NonEmpty>)
        ensures
            r.pending().isin_spec() == Some(isin),
            r.pending().name_spec() == self.pending().name_spec(),
            r.pending().status_spec() == self.pending().status_spec(),
            r.pending().cfi_spec() == self.pending().cfi_spec(),
            r.pending().dr_ratio_spec() == self.pending().dr_ratio_spec(),
    {
        SecurityPatchBuilder {
            inner: SecurityPatch {
                name: self.inner.name,
                status: self.inner.status,
                isin: Some(isin),
                cfi: self.inner.cfi,
                dr_ratio: self.inner.dr_ratio,
            },
            _state: PhantomData,
        }
    }

    pub fn cfi(self, cfi: Cfi) -> (r: SecurityPatchBuilder<NonEmpty>)
        ensures
            r.pending().cfi_spec() == Some(cfi),
            r.pending().name_spec() == self.pending().name_spec(),
            r.pending().status_spec() == self.pending().status_spec(),
            r.pending().isin_spec() == self.pending().isin_spec(),
            r.pending().dr_ratio_spec() == self.pending().dr_ratio_spec(),
    {
        SecurityPatchBuilder {
            inner: SecurityPatch {
                name: self.inner.name,
                status: self.inner.status,
                isin: self.inner.isin,
                cfi: Some(cfi),
                dr_ratio: self.inner.dr_ratio,
            },
            _state: PhantomData,
        }
    }

    pub fn dr_ratio(self, dr_ratio: DepositaryReceiptRatio) -> (r: SecurityPatchBuilder<NonEmpty>)
        ensures
            r.pending().dr_ratio_spec() == Some(dr_ratio),
            r.pending().name_spec() == self.pending().name_spec(),
            r.pending().status_spec() == self.pending().status_spec(),
            r.pending().isin_spec() == self.pending().isin_spec(),
            r.pending().cfi_spec() == self.pending().cfi_spec(),
    {
        SecurityPatchBuilder {
            inner: SecurityPatch {
                name: self.inner.name,
                status: self.inner.status,
                isin: self.inner.isin,
                cfi: self.inner.cfi,
                dr_ratio: Some(dr_ratio),
            },
            _state: PhantomData,
        }
    }
}

impl SecurityPatchBuilder<NonEmpty> {
    pub fn build(self) -> (r: SecurityPatch)
        ensures
            r == self.pending(),
            r.any_field_set(),
    {
        proof {
            use_type_invariant(&self);
        }
        self.inner
    }
}

/// Storage of securities, implemented by a persistence backend. The answers
/// to the existence queries are tied to views of the stored securities,
/// which the registration rules are stated over; each call that the
/// services make gives the store's answer to it, named by a spec function
/// of the same arguments.
pub trait SecurityRepository {
    /// Whether a security with this id is stored.
    spec fn stores_id(&self, id: SecurityId) -> bool;

    /// Whether a security with this ISIN is stored.
    spec fn stores_isin(&self, isin: Isin) -> bool;

    /// The store's answer to asking whether an id is stored.
    spec fn exists_by_id_answer(&self, id: SecurityId) -> Result<bool, StorageFault>;

    /// The store's answer to asking whether an ISIN is stored.
    spec fn exists_by_isin_answer(&self, isin: Isin) -> Result<bool, StorageFault>;

    /// The store's answer to inserting a security.
    spec fn insert_answer(&self, security: Security) -> Result<(), StorageFault>;

    fn find_by_id(&self, id: &SecurityId) -> Result<Option<Versioned<Security>>, StorageFault>;

    fn find_by_isin(&self, isin: &Isin) -> Result<Option<Versioned<Security>>, StorageFault>;

    fn list_all(&self) -> Result<Vec<Versioned<Security>>, StorageFault>;

    fn list_by_issuer(&self, issuer_id: &IssuerId) -> Result<Vec<Versioned<Security>>, StorageFault>;

    fn list_paged(&self, after: Option<SecurityId>, limit: u32) -> Result<Vec<Versioned<Security>>, StorageFault>;

    fn exists_by_id(&self, id: &SecurityId) -> (r: Result<bool, StorageFault>)
        ensures
            r == self.exists_by_id_answer(*id),
            r matches Ok(b) ==> b == self.stores_id(*id),
    ;

    fn exists_by_isin(&self, isin: &Isin) -> (r: Result<bool, StorageFault>)
        ensures
            r == self.exists_by_isin_answer(*isin),
            r matches Ok(b) ==> b == self.stores_isin(*isin),
    ;

    fn insert(&self, security: &Security) -> (r: Result<(), StorageFault>)
        ensures
            r == self.insert_answer(*security),
    ;

    fn apply_patch(&self, id: &SecurityId, expected_version: u32, patch: SecurityPatch) -> Result<WriteOutcome, StorageFault>;

    fn update(&self, security: &Security, expected_version: u32) -> Result<WriteOutcome, StorageFault>;

    fn delete(&self, id: &SecurityId, expected_version: u32) -> Result<WriteOutcome, StorageFault>;
}

#[derive(Debug)]
pub enum RegisterSecurityError {
    UnknownIssuer,
    DuplicateIsin,
    UnknownUnderlyingSecurity,
    Storage(StorageFault),
}

impl From<StorageFault> for RegisterSecurityError {
    fn from(f: StorageFault) -> (r: RegisterSecurityError) {
        RegisterSecurityError::Storage(f)
    }
}

impl vstd::std_specs::convert::FromSpecImpl<StorageFault> for RegisterSecurityError {
    open spec fn obeys_from_spec() -> bool {
        true
    }

    open spec fn from_spec(v: StorageFault) -> RegisterSecurityError {
        RegisterSecurityError::Storage(v)
    }
}

impl RegisterSecurityError {
    /// The human-readable text of the error, as `Display` prints it.
    pub fn to_string(&self) -> (r: String)
        ensures
            self is UnknownIssuer ==> r@ == "the referenced issuer does not exist"@,
            self is DuplicateIsin ==> r@ == "a security with this ISIN already exists"@,
            self is UnknownUnderlyingSecurity ==> r@ == "the referenced underlying security does not exist"@,
            self matches RegisterSecurityError::Storage(f) ==> r@ == f.view(),
    {
        match self {
            RegisterSecurityError::UnknownIssuer => String::from_str("the referenced issuer does not exist"),
            RegisterSecurityError::DuplicateIsin => String::from_str("a security with this ISIN already exists"),
            RegisterSecurityError::UnknownUnderlyingSecurity => String::from_str(
                "the referenced underlying security does not exist",
            ),
            RegisterSecurityError::Storage(f) => f.to_string(),
        }
    }
}

/// What registering `security` answers when no storage fault occurs: the
/// issuer must exist, the ISIN (if any) must be free, and the underlying
/// security (if any) must exist, checked in that order.
pub open spec fn security_registration_verdict<S: SecurityRepository, I: IssuerRepository>(
    securities: &S,
    issuers: &I,
    security: Security,
) -> Option<RegisterSecurityError> {
    if !issuers.stores_id(security.issuer_id_spec()) {
        Some(RegisterSecurityError::UnknownIssuer)
    } else if security.isin_spec() matches Some(i) && securities.stores_isin(i) {
        Some(RegisterSecurityError::DuplicateIsin)
    } else if security.underlying_security_id_spec() matches Some(u) && !securities.stores_id(u) {
        Some(RegisterSecurityError::UnknownUnderlyingSecurity)
    } else {
        None
    }
}

/// What registering a security gives, over the stores' answers: the issuer
/// query, the ISIN query (when the security has one) and the underlying
/// security query (when it names one) are asked in that order, and the
/// first that faults or refuses decides; when all pass, the security is
/// inserted and the insert's answer decides.
pub open spec fn register_security_result<S: SecurityRepository, I: IssuerRepository>(
    securities: &S,
    issuers: &I,
    security: Security,
) -> Result<(), RegisterSecurityError> {
    let isin_answer: Result<bool, StorageFault> = match security.isin_spec() {
        Some(i) => securities.exists_by_isin_answer(i),
        None => Ok(false),
    };
    let underlying_answer: Result<bool, StorageFault> = match security.underlying_security_id_spec() {
        Some(u) => securities.exists_by_id_answer(u),
        None => Ok(true),
    };
    match issuers.exists_by_id_answer(security.issuer_id_spec()) {
        Err(f) => Err(RegisterSecurityError::Storage(f)),
        Ok(false) => Err(RegisterSecurityError::UnknownIssuer),
        Ok(true) => match isin_answer {
            Err(f) => Err(RegisterSecurityError::Storage(f)),
            Ok(true) => Err(RegisterSecurityError::DuplicateIsin),
            Ok(false) => match underlying_answer {
                Err(f) => Err(RegisterSecurityError::Storage(f)),
                Ok(false) => Err(RegisterSecurityError::UnknownUnderlyingSecurity),
                Ok(true) => match securities.insert_answer(security) {
                    Ok(_) => Ok(()),
                    Err(f) => Err(RegisterSecurityError::Storage(f)),
                },
            },
        },
    }
}

/// Stores a new security after checking its references and its ISIN. A
/// refusal other than a storage fault is the first rule it breaks.
pub fn register_security<S: SecurityRepository, I: IssuerRepository>(
    securities: &S,
    issuers: &I,
    security: &Security,
) -> (r: Result<(), RegisterSecurityError>)
    ensures
        r == register_security_result(securities, issuers, *security),
        r is Ok ==> security_registration_verdict(securities, issuers, *security) is None,
        r matches Err(e) ==> (e is Storage || security_registration_verdict(
            securities,
            issuers,
            *security,
        ) == Some(e)),
        security_registration_verdict(securities, issuers, *security) is Some ==> r is Err,
        security_registration_verdict(securities, issuers, *security) is None ==> (r is Ok
            || r matches Err(RegisterSecurityError::Storage(_))),
{
    match issuers.exists_by_id(&security.issuer_id) {
        Ok(true) => {},
        Ok(false) => return Err(RegisterSecurityError::UnknownIssuer),
        Err(f) => return Err(RegisterSecurityError::Storage(f)),
    }
    if let Some(isin) = &security.isin {
        match securities.exists_by_isin(isin) {
            Ok(true) => return Err(RegisterSecurityError::DuplicateIsin),
            Ok(false) => {},
            Err(f) => return Err(RegisterSecurityError::Storage(f)),
        }
    }
    if let Some(underlying) = &security.underlying_security_id {
        match securities.exists_by_id(underlying) {
            Ok(true) => {},
            Ok(false) => return Err(RegisterSecurityError::UnknownUnderlyingSecurity),
            Err(f) => return Err(RegisterSecurityError::Storage(f)),
        }
    }
    match securities.insert(security) {
        Ok(()) => Ok(()),
        Err(f) => Err(RegisterSecurityError::Storage(f)),
    }
}

} // verus!
