//! Issuer aggregate: the legal entity that issues securities.
use vstd::prelude::*;
use core::marker::PhantomData;
use crate::common::{
    fresh_uuid_v7, now_instant, uuid_text, BuilderState, Empty, LoadMode, Loading, NonEmpty,
    UniqueIdentifier, UtcInstant, Versioned, WriteOutcome,
};
use crate::domain::security::Security;
use crate::identifiers::{Cnpj, CountryCode, CountryCodeError, Lei};
use crate::storage::StorageFault;
use crate::text::{
    all_ascii_chars, unicode_uppercase, upper_all,
    decimal, message_with_number, str_eq, string_from_chars, to_uppercase, trimmed, trimmed_chars,
};

verus! {

/// Longest issuer name accepted, in characters.
pub const ISSUER_NAME_MAX_LEN: usize = 200;

/// The display name of an issuer: trimmed, 1 to 200 characters.
#[derive(Clone, Eq, PartialEq, Hash, Debug)]
pub struct IssuerName(String);

#[derive(Debug, PartialEq, Eq, Structural)]
pub enum IssuerNameError {
    Empty,
    TooLong { max: usize },
}

impl IssuerName {
    /// The characters of the name.
    pub closed spec fn view(self) -> Seq<char> {
        self.0@
    }

    /// Trims surrounding whitespace, then requires between 1 and
    /// 200 characters.
    pub fn new(value: &str) -> (r: Result<Self, IssuerNameError>)
        ensures
            trimmed(value@).len() == 0 ==> r == Err::<IssuerName, IssuerNameError>(IssuerNameError::Empty),
            0 < trimmed(value@).len() <= ISSUER_NAME_MAX_LEN ==> (r matches Ok(n) && n.view() == trimmed(
                value@,
            )),
            trimmed(value@).len() > ISSUER_NAME_MAX_LEN ==> r == Err::<IssuerName, IssuerNameError>(
                IssuerNameError::TooLong { max: ISSUER_NAME_MAX_LEN },
            ),
    {
        let t = trimmed_chars(value);
        if t.len() == 0 {
            return Err(IssuerNameError::Empty);
        }
        if t.len() > ISSUER_NAME_MAX_LEN {
            return Err(IssuerNameError::TooLong { max: ISSUER_NAME_MAX_LEN });
        }
        Ok(IssuerName(string_from_chars(&t)))
    }

    pub fn as_str(&self) -> (r: &str)
        ensures
            r@ == self.view(),
    {
        self.0.as_str()
    }
}

/// The text `Display` prints for an issuer-name error.
pub open spec fn issuer_name_error_message(e: IssuerNameError) -> Seq<char> {
    match e {
        IssuerNameError::Empty => "issuer name cannot be empty"@,
        IssuerNameError::TooLong { max } => "issuer name exceeds maximum length of "@ + decimal(
            max as nat,
        ) + " characters"@,
    }
}

impl IssuerNameError {
    /// The human-readable text of the error, as `Display` prints it.
    pub fn to_string(&self) -> (msg: String)
        ensures
            msg@ == issuer_name_error_message(*self),
    {
        match self {
            IssuerNameError::Empty => String::from_str("issuer name cannot be empty"),
            IssuerNameError::TooLong { max } => message_with_number(
                "issuer name exceeds maximum length of ",
                *max as u64,
                " characters",
            ),
        }
    }
}

/// Lifecycle status of an issuer.
#[derive(Debug, Clone, Copy, PartialEq, Eq, Hash, Structural)]
pub enum IssuerStatus {
    Active,
    Retired,
}

#[derive(Debug, PartialEq, Eq, Structural)]
pub enum IssuerStatusError {
    InvalidStatus,
}

impl IssuerStatus {
    pub fn is_active(&self) -> (r: bool)
        ensures
            r == (*self == IssuerStatus::Active),
    {
        matches!(self, IssuerStatus::Active)
    }

    pub fn is_retired(&self) -> (r: bool)
        ensures
            r == (*self == IssuerStatus::Retired),
    {
        matches!(self, IssuerStatus::Retired)
    }

    /// The upper-case text of the value, as the `String` conversion gives it.
    pub open spec fn text(self) -> Seq<char> {
        match self {
            IssuerStatus::Active => "ACTIVE"@,
            IssuerStatus::Retired => "RETIRED"@,
        }
    }

    pub fn as_str(&self) -> (r: &'static str)
        ensures
            r@ == self.text(),
    {
        match self {
            IssuerStatus::Active => "ACTIVE",
            IssuerStatus::Retired => "RETIRED",
        }
    }

    /// Which value an already upper-cased text names.
    pub open spec fn from_uppercase_spec(upper: Seq<char>) -> Result<IssuerStatus, IssuerStatusError> {
        if upper == "ACTIVE"@ {
            Ok(IssuerStatus::Active)
        } else if upper == "RETIRED"@ {
            Ok(IssuerStatus::Retired)
        } else {
            Err(IssuerStatusError::InvalidStatus)
        }
    }

    /// Reads the value from text that is already upper-cased.
    pub fn from_uppercase(upper: &str) -> (r: Result<IssuerStatus, IssuerStatusError>)
        ensures
            r == IssuerStatus::from_uppercase_spec(upper@),
    {
        if str_eq(upper, "ACTIVE") {
            Ok(IssuerStatus::Active)
        } else if str_eq(upper, "RETIRED") {
            Ok(IssuerStatus::Retired)
        } else {
            Err(IssuerStatusError::InvalidStatus)
        }
    }
}

impl Default for IssuerStatus {
    fn default() -> (r: Self)
        ensures
            r == IssuerStatus::Active,
    {
        IssuerStatus::Active
    }
}

impl IssuerStatus {
    /// Reads the value from text in any letter case, as `FromStr` does.
    pub fn from_text(s: &str) -> (r: Result<IssuerStatus, IssuerStatusError>)
        ensures
            r == IssuerStatus::from_uppercase_spec(unicode_uppercase(s@)),
            all_ascii_chars(s@) ==> r == IssuerStatus::from_uppercase_spec(upper_all(s@)),
    {
        let upper = to_uppercase(s);
        Self::from_uppercase(upper.as_str())
    }
}

impl core::str::FromStr for IssuerStatus {
    type Err = IssuerStatusError;

    fn from_str(s: &str) -> (r: Result<Self, Self::Err>)
        ensures
            r == IssuerStatus::from_uppercase_spec(unicode_uppercase(s@)),
            all_ascii_chars(s@) ==> r == IssuerStatus::from_uppercase_spec(upper_all(s@)),
    {
        IssuerStatus::from_text(s)
    }
}

/// Every value reads back from its own text: `IssuerStatus::from_text(v.as_str())`,
/// and so `from_str` of `String::from(v)`, gives `v`.
pub proof fn law_issuer_status_text_round_trip(v: IssuerStatus)
    ensures
        all_ascii_chars(v.text()),
        IssuerStatus::from_uppercase_spec(upper_all(v.text())) == Ok::<IssuerStatus, IssuerStatusError>(v),
{
    reveal_strlit("ACTIVE");
    reveal_strlit("RETIRED");
    assert(upper_all(v.text()) =~= v.text());
}

impl From<IssuerStatus> for String {
    fn from(val: IssuerStatus) -> (r: String)
        ensures
            r@ == val.text(),
    {
        String::from_str(val.as_str())
    }
}

impl vstd::std_specs::convert::FromSpecImpl<IssuerStatus> for String {
    open spec fn obeys_from_spec() -> bool {
        false
    }

    open spec fn from_spec(v: IssuerStatus) -> String {
        choose|s: String| s@ == v.text()
    }
}

impl IssuerStatusError {
    /// The human-readable text of the error, as `Display` prints it.
    pub fn to_string(&self) -> (msg: String)
        ensures
            msg@ == "Invalid status. Must be one of: [\"ACTIVE\", \"RETIRED\"]"@,
    {
        String::from_str("Invalid status. Must be one of: [\"ACTIVE\", \"RETIRED\"]")
    }
}

#[derive(Debug)]
pub enum IssuerBuilderError {
    InvalidCountryForCnpj(String),
    NameError(IssuerNameError),
    CountryCodeError(CountryCodeError),
}

impl From<IssuerNameError> for IssuerBuilderError {
    fn from(e: IssuerNameError) -> (r: IssuerBuilderError) {
        IssuerBuilderError::NameError(e)
    }
}

impl vstd::std_specs::convert::FromSpecImpl<IssuerNameError> for IssuerBuilderError {
    open spec fn obeys_from_spec() -> bool {
        true
    }

    open spec fn from_spec(v: IssuerNameError) -> IssuerBuilderError {
        IssuerBuilderError::NameError(v)
    }
}

impl From<CountryCodeError> for IssuerBuilderError {
    fn from(e: CountryCodeError) -> (r: IssuerBuilderError) {
        IssuerBuilderError::CountryCodeError(e)
    }
}

impl vstd::std_specs::convert::FromSpecImpl<CountryCodeError> for IssuerBuilderError {
    open spec fn obeys_from_spec() -> bool {
        true
    }

    open spec fn from_spec(v: CountryCodeError) -> IssuerBuilderError {
        IssuerBuilderError::CountryCodeError(v)
    }
}

/// The text `Display` prints for an issuer-builder error.
pub open spec fn issuer_builder_error_message(e: IssuerBuilderError) -> Seq<char> {
    match e {
        IssuerBuilderError::InvalidCountryForCnpj(code) =>
            "If a CNPJ is provided, the country code must be BR (Brazil). Found: "@ + code@,
        IssuerBuilderError::NameError(n) => "Issuer name validation failed: "@
            + issuer_name_error_message(n),
        IssuerBuilderError::CountryCodeError(c) => "country code validation failed: "@
            + crate::identifiers::country_code::country_error_message(c),
    }
}

impl IssuerBuilderError {
    /// The human-readable text of the error, as `Display` prints it.
    pub fn to_string(&self) -> (msg: String)
        ensures
            msg@ == issuer_builder_error_message(*self),
    {
        match self {
            IssuerBuilderError::InvalidCountryForCnpj(code) => {
                let mut s = String::from_str(
                    "If a CNPJ is provided, the country code must be BR (Brazil). Found: ",
                );
                s.append(code.as_str());
                s
            },
            IssuerBuilderError::NameError(e) => {
                let inner = e.to_string();
                let mut s = String::from_str("Issuer name validation failed: ");
                s.append(inner.as_str());
                s
            },
            IssuerBuilderError::CountryCodeError(e) => {
                let inner = e.to_string();
                let mut s = String::from_str("country code validation failed: ");
                s.append(inner.as_str());
                s
            },
        }
    }
}

/// Whether a country code is Brazil's, `BR`.
pub open spec fn is_brazil(code: Seq<u8>) -> bool {
    code == seq![66u8, 82u8]
}

/// The CNPJ cross-field rule of the issuer builder: a CNPJ is a Brazilian
/// registration, so it requires country `BR`, and implies it when no
/// country is given. Returns the country the issuer ends up with.
pub fn resolve_country_for_cnpj(has_cnpj: bool, country_code: Option<CountryCode>) -> (r: Result<
    Option<CountryCode>,
    IssuerBuilderError,
>)
    ensures
        !has_cnpj ==> (r matches Ok(c) && c == country_code),
        has_cnpj && country_code is None ==> (r matches Ok(Some(c)) && is_brazil(c.view())),
        has_cnpj && (country_code matches Some(c) && is_brazil(c.view())) ==> (r matches Ok(c2)
            && c2 == country_code),
        has_cnpj && (country_code matches Some(c) && !is_brazil(c.view())) ==> (r matches Err(
            IssuerBuilderError::InvalidCountryForCnpj(found),
        ) && found@ == crate::text::bytes_as_chars(country_code->Some_0.view())),
{
    if !has_cnpj {
        return Ok(country_code);
    }
    match country_code {
        Some(code) => {
            let b = code.as_bytes();
            if b[0] == 66 && b[1] == 82 {
                assert(b@ =~= seq![66u8, 82u8]);
                Ok(Some(code))
            } else {
                Err(IssuerBuilderError::InvalidCountryForCnpj(String::from_str(code.as_str())))
            }
        },
        None => {
            let br = brazil();
            Ok(Some(br))
        },
    }
}

/// The country code `BR`.
fn brazil() -> (r: CountryCode)
    ensures
        is_brazil(r.view()),
{
    let r = CountryCode::from_bytes([66, 82]);
    assert(crate::identifiers::country_code::country_assigned(66, 82));
    match r {
        Ok(c) => {
            assert(c.view() =~= seq![66u8, 82u8]);
            c
        },
        Err(_) => vstd::pervasive::unreached(),
    }
}

#[derive(Debug)]
pub enum RegisterIssuerError {
    DuplicateCnpj,
    DuplicateLei,
    Storage(StorageFault),
}

#[derive(Debug)]
pub enum GetIssuerError {
    Storage(StorageFault),
}

#[derive(Debug)]
pub enum ListIssuersError {
    Storage(StorageFault),
}

#[derive(Debug)]
pub enum PatchIssuerError {
    DuplicateCnpj,
    DuplicateLei,
    Storage(StorageFault),
}

#[derive(Debug)]
pub enum DeleteIssuerError {
    Storage(StorageFault),
}

/// Partial update of an issuer: the fields that are set replace the stored ones.
#[derive(Debug, Clone)]
pub struct IssuerPatch {
    name: Option<IssuerName>,
    status: Option<IssuerStatus>,
    cnpj: Option<Cnpj>,
    lei: Option<Lei>,
    country_code: Option<CountryCode>,
}

impl IssuerPatch {
    /// Whether the patch sets at least one field.
    pub open spec fn any_field_set(self) -> bool {
        ||| self.name_spec() is Some
        ||| self.status_spec() is Some
        ||| self.cnpj_spec() is Some
        ||| self.lei_spec() is Some
        ||| self.country_code_spec() is Some
    }

    /// A builder with no field set yet.
    pub fn builder() -> (r: IssuerPatchBuilder<Empty>)
        ensures
            !r.pending().any_field_set(),
    {
        IssuerPatchBuilder::new()
    }

    fn empty() -> (r: Self)
        ensures
            !r.any_field_set(),
    {
        IssuerPatch { name: None, status: None, cnpj: None, lei: None, country_code: None }
    }

    pub closed spec fn name_spec(self) -> Option<IssuerName> {
        self.name
    }

    pub closed spec fn status_spec(self) -> Option<IssuerStatus> {
        self.status
    }

    pub closed spec fn cnpj_spec(self) -> Option<Cnpj> {
        self.cnpj
    }

    pub closed spec fn lei_spec(self) -> Option<Lei> {
        self.lei
    }

    pub closed spec fn country_code_spec(self) -> Option<CountryCode> {
        self.country_code
    }

    pub fn name(&self) -> (r: Option<&IssuerName>)
        ensures
            r is None <==> self.name_spec() is None,
            r matches Some(v) ==> self.name_spec() == Some(*v),
    {
        match &self.name {
            Some(v) => Some(v),
            None => None,
        }
    }

    pub fn status(&self) -> (r: Option<IssuerStatus>)
        ensures
            r == self.status_spec(),
    {
        self.status
    }

    pub fn cnpj(&self) -> (r: Option<&Cnpj>)
        ensures
            r is None <==> self.cnpj_spec() is None,
            r matches Some(v) ==> self.cnpj_spec() == Some(*v),
    {
        match &self.cnpj {
            Some(v) => Some(v),
            None => None,
        }
    }

    pub fn lei(&self) -> (r: Option<&Lei>)
        ensures
            r is None <==> self.lei_spec() is None,
            r matches Some(v) ==> self.lei_spec() == Some(*v),
    {
        match &self.lei {
            Some(v) => Some(v),
            None => None,
        }
    }

    pub fn country_code(&self) -> (r: Option<&CountryCode>)
        ensures
            r is None <==> self.country_code_spec() is None,
            r matches Some(v) ==> self.country_code_spec() == Some(*v),
    {
        match &self.country_code {
            Some(v) => Some(v),
            None => None,
        }
    }
}

/// Builds a patch; `build` is only available once a field has been set.
pub struct IssuerPatchBuilder<State: BuilderState> {
    inner: IssuerPatch,
    _state: PhantomData<State>,
}

impl<State: BuilderState> IssuerPatchBuilder<State> {
    /// A builder in a state that promises a set field has one.
    #[verifier::type_invariant]
    spec fn set_field_when_promised(self) -> bool {
        State::has_set_field() ==> self.inner.any_field_set()
    }

    /// The patch assembled so far.
    pub closed spec fn pending(self) -> IssuerPatch {
        self.inner
    }
}

impl IssuerPatchBuilder<Empty> {
    fn new() -> (r: Self)
        ensures
            !r.pending().any_field_set(),
    {
        IssuerPatchBuilder { inner: IssuerPatch::empty(), _state: PhantomData }
    }
}

impl<State: BuilderState> IssuerPatchBuilder<State> {
    pub fn name(self, name: IssuerName) -> (r: IssuerPatchBuilder<NonEmpty>)
        ensures
            r.pending().name_spec() == Some(name),
            r.pending().status_spec() == self.pending().status_spec(),
            r.pending().cnpj_spec() == self.pending().cnpj_spec(),
            r.pending().lei_spec() == self.pending().lei_spec(),
            r.pending().country_code_spec() == self.pending().country_code_spec(),
    {
        IssuerPatchBuilder {
            inner: IssuerPatch {
                name: Some(name),
                status: self.inner.status,
                cnpj: self.inner.cnpj,
                lei: self.inner.lei,
                country_code: self.inner.country_code,
            },
            _state: PhantomData,
        }
    }

    pub fn status(self, status: IssuerStatus) -> (r: IssuerPatchBuilder<NonEmpty>)
        ensures
            r.pending().status_spec() == Some(status),
            r.pending().name_spec() == self.pending().name_spec(),
            r.pending().cnpj_spec() == self.pending().cnpj_spec(),
            r.pending().lei_spec() == self.pending().lei_spec(),
            r.pending().country_code_spec() == self.pending().country_code_spec(),
    {
        IssuerPatchBuilder {
            inner: IssuerPatch {
                name: self.inner.name,
                status: Some(status),
                cnpj: self.inner.cnpj,
                lei: self.inner.lei,
                country_code: self.inner.country_code,
            },
            _state: PhantomData,
        }
    }

    pub fn cnpj(self, cnpj: Cnpj) -> (r: IssuerPatchBuilder<NonEmpty>)
        ensures
            r.pending().cnpj_spec() == Some(cnpj),
            r.pending().name_spec() == self.pending().name_spec(),
            r.pending().status_spec() == self.pending().status_spec(),
            r.pending().lei_spec() == self.pending().lei_spec(),
            r.pending().country_code_spec() == self.pending().country_code_spec(),
    {
        IssuerPatchBuilder {
            inner: IssuerPatch {
                name: self.inner.name,
                status: self.inner.status,
                cnpj: Some(cnpj),
                lei: self.inner.lei,
                country_code: self.inner.country_code,
            },
            _state: PhantomData,
        }
    }

    pub fn lei(self, lei: Lei) -> (r: IssuerPatchBuilder<NonEmpty>)
        ensures
            r.pending().lei_spec() == Some(lei),
            r.pending().name_spec() == self.pending().name_spec(),
            r.pending().status_spec() == self.pending().status_spec(),
            r.pending().cnpj_spec() == self.pending().cnpj_spec(),
            r.pending().country_code_spec() == self.pending().country_code_spec(),
    {
        IssuerPatchBuilder {
            inner: IssuerPatch {
                name: self.inner.name,
                status: self.inner.status,
                cnpj: self.inner.cnpj,
                lei: Some(lei),
                country_code: self.inner.country_code,
            },
            _state: PhantomData,
        }
    }

    pub fn country_code(self, country_code: CountryCode) -> (r: IssuerPatchBuilder<NonEmpty>)
        ensures
            r.pending().country_code_spec() == Some(country_code),
            r.pending().name_spec() == self.pending().name_spec(),
            r.pending().status_spec() == self.pending().status_spec(),
            r.pending().cnpj_spec() == self.pending().cnpj_spec(),
            r.pending().lei_spec() == self.pending().lei_spec(),
    {
        IssuerPatchBuilder {
            inner: IssuerPatch {
                name: self.inner.name,
                status: self.inner.status,
                cnpj: self.inner.cnpj,
                lei: self.inner.lei,
                country_code: Some(country_code),
            },
            _state: PhantomData,
        }
    }
}

impl IssuerPatchBuilder<NonEmpty> {
    pub fn build(self) -> (r: IssuerPatch)
        ensures
            r == self.pending(),
            r.any_field_set(),
    {
        proof {
            use_type_invariant(&self);
        }
        self.inner
    }
}

/// Identity of an issuer: a version 7 UUID, kept as its sixteen bytes.
#[derive(Copy, Clone, Eq, PartialEq, Hash, Debug)]
pub struct IssuerId {
    bytes: [u8; 16],
}

impl IssuerId {
    /// The sixteen bytes.
    pub closed spec fn view(self) -> Seq<u8> {
        self.bytes@
    }

    /// A fresh time-ordered identity.
    pub fn new() -> (r: Self)
        ensures
            r.view()[6] / 16 == 7,
            r.view()[8] / 64 == 2,
    {
        IssuerId { bytes: fresh_uuid_v7() }
    }

    pub fn from_bytes(bytes: [u8; 16]) -> (r: Self)
        ensures
            r.view() == bytes@,
    {
        IssuerId { bytes }
    }

    /// The hyphenated lower-case hexadecimal form.
    pub fn value(&self) -> (r: String)
        ensures
            r@ == uuid_text(self.view()),
    {
        UniqueIdentifier::from_bytes(self.bytes).value()
    }

    pub fn as_bytes(&self) -> (r: &[u8; 16])
        ensures
            r@ == self.view(),
    {
        &self.bytes
    }
}

impl Default for IssuerId {
    fn default() -> (r: Self)
        ensures
            r.view()[6] / 16 == 7,
            r.view()[8] / 64 == 2,
    {
        IssuerId::new()
    }
}

/// An issuer: the legal entity behind securities.
#[derive(Debug, Clone)]
pub struct Issuer {
    id: IssuerId,
    status: IssuerStatus,
    created_at: UtcInstant,
    name: Option<IssuerName>,
    cnpj: Option<Cnpj>,
    lei: Option<Lei>,
    country_code: Option<CountryCode>,
    securities: Loading<Vec<Security>>,
}

/// The stored fields of an issuer, to rebuild it from storage.
#[derive(Debug)]
pub struct IssuerSnapshot {
    pub id: IssuerId,
    pub status: IssuerStatus,
    pub created_at: UtcInstant,
    pub name: Option<IssuerName>,
    pub cnpj: Option<Cnpj>,
    pub lei: Option<Lei>,
    pub country_code: Option<CountryCode>,
    pub securities: Loading<Vec<Security>>,
}

impl Issuer {
    pub closed spec fn id_spec(self) -> IssuerId {
        self.id
    }

    pub closed spec fn status_spec(self) -> IssuerStatus {
        self.status
    }

    pub closed spec fn created_at_spec(self) -> UtcInstant {
        self.created_at
    }

    pub closed spec fn name_spec(self) -> Option<IssuerName> {
        self.name
    }

    pub closed spec fn cnpj_spec(self) -> Option<Cnpj> {
        self.cnpj
    }

    pub closed spec fn lei_spec(self) -> Option<Lei> {
        self.lei
    }

    pub closed spec fn country_code_spec(self) -> Option<CountryCode> {
        self.country_code
    }

    pub closed spec fn securities_spec(self) -> Loading<Vec<Security>> {
        self.securities
    }

    pub fn builder() -> (r: IssuerBuilder)
        ensures
            r.id_spec() is None,
            r.status_spec() is None,
            r.created_at_spec() is None,
            r.name_spec() is None,
            r.cnpj_spec() is None,
            r.lei_spec() is None,
            r.country_code_spec() is None,
    {
        IssuerBuilder::new()
    }

    pub fn id(&self) -> (r: &IssuerId)
        ensures
            *r == self.id_spec(),
    {
        &self.id
    }

    pub fn status(&self) -> (r: IssuerStatus)
        ensures
            r == self.status_spec(),
    {
        self.status
    }

    /// When the issuer was created.
    pub fn created_at(&self) -> (r: UtcInstant)
        ensures
            r == self.created_at_spec(),
    {
        self.created_at
    }

    pub fn name(&self) -> (r: Option<&IssuerName>)
        ensures
            r is None <==> self.name_spec() is None,
            r matches Some(v) ==> self.name_spec() == Some(*v),
    {
        match &self.name {
            Some(v) => Some(v),
            None => None,
        }
    }

    pub fn cnpj(&self) -> (r: Option<&Cnpj>)
        ensures
            r is None <==> self.cnpj_spec() is None,
            r matches Some(v) ==> self.cnpj_spec() == Some(*v),
    {
        match &self.cnpj {
            Some(v) => Some(v),
            None => None,
        }
    }

    pub fn lei(&self) -> (r: Option<&Lei>)
        ensures
            r is None <==> self.lei_spec() is None,
            r matches Some(v) ==> self.lei_spec() == Some(*v),
    {
        match &self.lei {
            Some(v) => Some(v),
            None => None,
        }
    }

    pub fn country_code(&self) -> (r: Option<&CountryCode>)
        ensures
            r is None <==> self.country_code_spec() is None,
            r matches Some(v) ==> self.country_code_spec() == Some(*v),
    {
        match &self.country_code {
            Some(v) => Some(v),
            None => None,
        }
    }

    /// The issuer's securities, if they were loaded.
    pub fn securities(&self) -> (r: Option<&[Security]>)
        ensures
            r is None <==> self.securities_spec() is NotLoaded,
            r matches Some(v) ==> (self.securities_spec() matches Loading::Loaded(l) && l@ == v@),
    {
        match &self.securities {
            Loading::Loaded(v) => Some(v.as_slice()),
            Loading::NotLoaded => None,
        }
    }

    /// An issuer as it was stored.
    pub fn reconstitute(snapshot: IssuerSnapshot) -> (r: Issuer)
        ensures
            r.id_spec() == snapshot.id,
            r.status_spec() == snapshot.status,
            r.created_at_spec() == snapshot.created_at,
            r.name_spec() == snapshot.name,
            r.cnpj_spec() == snapshot.cnpj,
            r.lei_spec() == snapshot.lei,
            r.country_code_spec() == snapshot.country_code,
            r.securities_spec() == snapshot.securities,
    {
        Issuer {
            id: snapshot.id,
            status: snapshot.status,
            created_at: snapshot.created_at,
            name: snapshot.name,
            cnpj: snapshot.cnpj,
            lei: snapshot.lei,
            country_code: snapshot.country_code,
            securities: snapshot.securities,
        }
    }
}

/// Assembles an issuer; every field is optional.
#[derive(Debug)]
pub struct IssuerBuilder {
    id: Option<IssuerId>,
    status: Option<IssuerStatus>,
    created_at: Option<UtcInstant>,
    name: Option<IssuerName>,
    cnpj: Option<Cnpj>,
    lei: Option<Lei>,
    country_code: Option<CountryCode>,
}

impl Default for IssuerBuilder {
    fn default() -> (r: Self)
        ensures
            r.id_spec() is None,
            r.status_spec() is None,
            r.created_at_spec() is None,
            r.name_spec() is None,
            r.cnpj_spec() is None,
            r.lei_spec() is None,
            r.country_code_spec() is None,
    {
        IssuerBuilder {
            id: None,
            status: None,
            created_at: None,
            name: None,
            cnpj: None,
            lei: None,
            country_code: None,
        }
    }
}

impl IssuerBuilder {
    pub closed spec fn id_spec(self) -> Option<IssuerId> {
        self.id
    }

    pub closed spec fn status_spec(self) -> Option<IssuerStatus> {
        self.status
    }

    pub closed spec fn created_at_spec(self) -> Option<UtcInstant> {
        self.created_at
    }

    pub closed spec fn name_spec(self) -> Option<IssuerName> {
        self.name
    }

    pub closed spec fn cnpj_spec(self) -> Option<Cnpj> {
        self.cnpj
    }

    pub closed spec fn lei_spec(self) -> Option<Lei> {
        self.lei
    }

    pub closed spec fn country_code_spec(self) -> Option<CountryCode> {
        self.country_code
    }

    pub fn new() -> (r: Self)
        ensures
            r.id_spec() is None,
            r.status_spec() is None,
            r.created_at_spec() is None,
            r.name_spec() is None,
            r.cnpj_spec() is None,
            r.lei_spec() is None,
            r.country_code_spec() is None,
    {
        IssuerBuilder::default()
    }

    pub fn id(self, id: IssuerId) -> (r: Self)
        ensures
            r.id_spec() == Some(id),
            r.status_spec() == self.status_spec(),
            r.created_at_spec() == self.created_at_spec(),
            r.name_spec() == self.name_spec(),
            r.cnpj_spec() == self.cnpj_spec(),
            r.lei_spec() == self.lei_spec(),
            r.country_code_spec() == self.country_code_spec(),
    {
        IssuerBuilder { id: Some(id), ..self }
    }

    pub fn status(self, status: IssuerStatus) -> (r: Self)
        ensures
            r.status_spec() == Some(status),
            r.id_spec() == self.id_spec(),
            r.created_at_spec() == self.created_at_spec(),
            r.name_spec() == self.name_spec(),
            r.cnpj_spec() == self.cnpj_spec(),
            r.lei_spec() == self.lei_spec(),
            r.country_code_spec() == self.country_code_spec(),
    {
        IssuerBuilder { status: Some(status), ..self }
    }

    /// Sets the creation time.
    pub fn created_at(self, created_at: UtcInstant) -> (r: Self)
        ensures
            r.created_at_spec() == Some(created_at),
            r.id_spec() == self.id_spec(),
            r.status_spec() == self.status_spec(),
            r.name_spec() == self.name_spec(),
            r.cnpj_spec() == self.cnpj_spec(),
            r.lei_spec() == self.lei_spec(),
            r.country_code_spec() == self.country_code_spec(),
    {
        IssuerBuilder { created_at: Some(created_at), ..self }
    }

    pub fn name(self, name: IssuerName) -> (r: Self)
        ensures
            r.name_spec() == Some(name),
            r.id_spec() == self.id_spec(),
            r.status_spec() == self.status_spec(),
            r.created_at_spec() == self.created_at_spec(),
            r.cnpj_spec() == self.cnpj_spec(),
            r.lei_spec() == self.lei_spec(),
            r.country_code_spec() == self.country_code_spec(),
    {
        IssuerBuilder { name: Some(name), ..self }
    }

    pub fn cnpj(self, cnpj: Cnpj) -> (r: Self)
        ensures
            r.cnpj_spec() == Some(cnpj),
            r.id_spec() == self.id_spec(),
            r.status_spec() == self.status_spec(),
            r.created_at_spec() == self.created_at_spec(),
            r.name_spec() == self.name_spec(),
            r.lei_spec() == self.lei_spec(),
            r.country_code_spec() == self.country_code_spec(),
    {
        IssuerBuilder { cnpj: Some(cnpj), ..self }
    }

    pub fn lei(self, lei: Lei) -> (r: Self)
        ensures
            r.lei_spec() == Some(lei),
            r.id_spec() == self.id_spec(),
            r.status_spec() == self.status_spec(),
            r.created_at_spec() == self.created_at_spec(),
            r.name_spec() == self.name_spec(),
            r.cnpj_spec() == self.cnpj_spec(),
            r.country_code_spec() == self.country_code_spec(),
    {
        IssuerBuilder { lei: Some(lei), ..self }
    }

    pub fn country_code(self, country_code: CountryCode) -> (r: Self)
        ensures
            r.country_code_spec() == Some(country_code),
            r.id_spec() == self.id_spec(),
            r.status_spec() == self.status_spec(),
            r.created_at_spec() == self.created_at_spec(),
            r.name_spec() == self.name_spec(),
            r.cnpj_spec() == self.cnpj_spec(),
            r.lei_spec() == self.lei_spec(),
    {
        IssuerBuilder { country_code: Some(country_code), ..self }
    }

    /// The issuer, with the CNPJ rule applied: a CNPJ needs country `BR`
    /// and implies it when no country is set. Unset fields default to a
    /// fresh id, `Active` and the current time; a new issuer has its
    /// (empty) list of securities loaded.
    pub fn build(self) -> (r: Result<Issuer, IssuerBuilderError>)
        ensures
            (self.cnpj_spec() is Some && (self.country_code_spec() matches Some(c) && !is_brazil(
                c.view(),
            ))) <==> (r matches Err(IssuerBuilderError::InvalidCountryForCnpj(_))),
            r matches Err(IssuerBuilderError::InvalidCountryForCnpj(found)) ==> found@
                == crate::text::bytes_as_chars(self.country_code_spec()->Some_0.view()),
            r is Err ==> (r matches Err(IssuerBuilderError::InvalidCountryForCnpj(_))),
            r matches Ok(i) ==> {
                &&& self.id_spec() matches Some(id) ==> i.id_spec() == id
                &&& i.status_spec() == (match self.status_spec() {
                    Some(s) => s,
                    None => IssuerStatus::Active,
                })
                &&& self.created_at_spec() matches Some(t) ==> i.created_at_spec() == t
                &&& i.name_spec() == self.name_spec()
                &&& i.cnpj_spec() == self.cnpj_spec()
                &&& i.lei_spec() == self.lei_spec()
                &&& (self.cnpj_spec() is Some && self.country_code_spec() is None) ==> (
                i.country_code_spec() matches Some(c) && is_brazil(c.view()))
                &&& !(self.cnpj_spec() is Some && self.country_code_spec() is None)
                    ==> i.country_code_spec() == self.country_code_spec()
                &&& i.securities_spec() matches Loading::Loaded(v) && v@.len() == 0
            },
    {
        let id = match self.id {
            Some(id) => id,
            None => IssuerId::new(),
        };
        let status = match self.status {
            Some(s) => s,
            None => IssuerStatus::Active,
        };
        let created_at = match self.created_at {
            Some(t) => t,
            None => now_instant(),
        };
        let country_code = match resolve_country_for_cnpj(self.cnpj.is_some(), self.country_code) {
            Ok(c) => c,
            Err(e) => return Err(e),
        };
        Ok(
            Issuer {
                id,
                status,
                created_at,
                name: self.name,
                cnpj: self.cnpj,
                lei: self.lei,
                country_code,
                securities: Loading::Loaded(Vec::new()),
            },
        )
    }
}

/// Storage of issuers, implemented by a persistence backend. The answers to
/// the existence queries are tied to views of the stored issuers, which the
/// uniqueness rules are stated over. Each call that the services make gives
/// the store's answer to that call, named by a spec function of the same
/// arguments, so that what a service returns can be stated over the
/// answers it was given.
pub trait IssuerRepository {
    /// Whether an issuer with this id is stored.
    spec fn stores_id(&self, id: IssuerId) -> bool;

    /// Whether an issuer with this CNPJ is stored.
    spec fn stores_cnpj(&self, cnpj: Cnpj) -> bool;

    /// Whether an issuer with this LEI is stored.
    spec fn stores_lei(&self, lei: Lei) -> bool;

    /// The store's answer to looking an issuer up by id.
    spec fn find_by_id_answer(&self, id: IssuerId, mode: LoadMode) -> Result<
        Option<Versioned<Issuer>>,
        StorageFault,
    >;

    /// The store's answer to asking for a page of issuers.
    spec fn list_paged_answer(&self, after: Option<IssuerId>, limit: u32, mode: LoadMode) -> Result<
        Vec<Versioned<Issuer>>,
        StorageFault,
    >;

    /// The store's answer to asking whether an id is stored.
    spec fn exists_by_id_answer(&self, id: IssuerId) -> Result<bool, StorageFault>;

    /// The store's answer to asking whether a CNPJ is stored.
    spec fn exists_by_cnpj_answer(&self, cnpj: Cnpj) -> Result<bool, StorageFault>;

    /// The store's answer to asking whether an LEI is stored.
    spec fn exists_by_lei_answer(&self, lei: Lei) -> Result<bool, StorageFault>;

    /// The store's answer to inserting an issuer.
    spec fn insert_answer(&self, issuer: Issuer) -> Result<(), StorageFault>;

    /// The store's answer to patching an issuer at an expected version.
    spec fn apply_patch_answer(&self, id: IssuerId, expected_version: u32, patch: IssuerPatch) -> Result<
        WriteOutcome,
        StorageFault,
    >;

    /// The store's answer to deleting an issuer at an expected version.
    spec fn delete_answer(&self, id: IssuerId, expected_version: u32) -> Result<WriteOutcome, StorageFault>;

    /// The stored issuer with this id, if there is one.
    fn find_by_id(&self, id: &IssuerId, mode: LoadMode) -> (r: Result<Option<Versioned<Issuer>>, StorageFault>)
        ensures
            r == self.find_by_id_answer(*id, mode),
            r matches Ok(Some(v)) ==> v.data.id_spec() == *id,
    ;

    fn list_all(&self, mode: LoadMode) -> Result<Vec<Versioned<Issuer>>, StorageFault>;

    /// A page of at most `limit` stored issuers, after `after` when given.
    fn list_paged(&self, after: Option<IssuerId>, limit: u32, mode: LoadMode) -> (r: Result<Vec<Versioned<Issuer>>, StorageFault>)
        ensures
            r == self.list_paged_answer(after, limit, mode),
            r matches Ok(page) ==> page@.len() <= limit,
    ;

    fn exists_by_id(&self, id: &IssuerId) -> (r: Result<bool, StorageFault>)
        ensures
            r == self.exists_by_id_answer(*id),
            r matches Ok(b) ==> b == self.stores_id(*id),
    ;

    fn exists_by_cnpj(&self, cnpj: &Cnpj) -> (r: Result<bool, StorageFault>)
        ensures
            r == self.exists_by_cnpj_answer(*cnpj),
            r matches Ok(b) ==> b == self.stores_cnpj(*cnpj),
    ;

    fn exists_by_lei(&self, lei: &Lei) -> (r: Result<bool, StorageFault>)
        ensures
            r == self.exists_by_lei_answer(*lei),
            r matches Ok(b) ==> b == self.stores_lei(*lei),
    ;

    fn insert(&self, issuer: &Issuer) -> (r: Result<(), StorageFault>)
        ensures
            r == self.insert_answer(*issuer),
    ;

    fn apply_patch(&self, id: &IssuerId, expected_version: u32, patch: IssuerPatch) -> (r: Result<WriteOutcome, StorageFault>)
        ensures
            r == self.apply_patch_answer(*id, expected_version, patch),
            r matches Ok(WriteOutcome::VersionMismatch { expected, .. }) ==> expected == expected_version,
    ;

    fn update(&self, issuer: &Issuer, expected_version: u32) -> (r: Result<WriteOutcome, StorageFault>)
        ensures
            r matches Ok(WriteOutcome::VersionMismatch { expected, .. }) ==> expected == expected_version,
    ;

    fn delete(&self, id: &IssuerId, expected_version: u32) -> (r: Result<WriteOutcome, StorageFault>)
        ensures
            r == self.delete_answer(*id, expected_version),
            r matches Ok(WriteOutcome::VersionMismatch { expected, .. }) ==> expected == expected_version,
    ;
}

/// Whether the CNPJ or LEI of a new issuer, or of a patch, is already taken:
/// the uniqueness rule shared by registration and patching.
pub open spec fn cnpj_taken<R: IssuerRepository>(repo: &R, cnpj: Option<Cnpj>) -> bool {
    cnpj matches Some(c) && repo.stores_cnpj(c)
}

pub open spec fn lei_taken<R: IssuerRepository>(repo: &R, lei: Option<Lei>) -> bool {
    lei matches Some(l) && repo.stores_lei(l)
}

/// What registering an issuer gives, over the store's answers: the CNPJ
/// query, then the LEI query, each asked only when the issuer has that
/// identifier, refuse a taken one or pass on their fault; when both pass,
/// the issuer is inserted and the insert's answer decides.
pub open spec fn register_issuer_result<R: IssuerRepository>(repo: &R, issuer: Issuer) -> Result<
    (),
    RegisterIssuerError,
> {
    let cnpj_answer: Result<bool, StorageFault> = match issuer.cnpj_spec() {
        Some(c) => repo.exists_by_cnpj_answer(c),
        None => Ok(false),
    };
    let lei_answer: Result<bool, StorageFault> = match issuer.lei_spec() {
        Some(l) => repo.exists_by_lei_answer(l),
        None => Ok(false),
    };
    match cnpj_answer {
        Err(f) => Err(RegisterIssuerError::Storage(f)),
        Ok(true) => Err(RegisterIssuerError::DuplicateCnpj),
        Ok(false) => match lei_answer {
            Err(f) => Err(RegisterIssuerError::Storage(f)),
            Ok(true) => Err(RegisterIssuerError::DuplicateLei),
            Ok(false) => match repo.insert_answer(issuer) {
                Ok(_) => Ok(()),
                Err(f) => Err(RegisterIssuerError::Storage(f)),
            },
        },
    }
}

/// Stores a new issuer unless its CNPJ or LEI is already taken (checked in
/// that order).
pub fn register_issuer<R: IssuerRepository>(repo: &R, issuer: &Issuer) -> (r: Result<(), RegisterIssuerError>)
    ensures
        r == register_issuer_result(repo, *issuer),
        r is Ok ==> !cnpj_taken(repo, issuer.cnpj_spec()) && !lei_taken(repo, issuer.lei_spec()),
        r matches Err(RegisterIssuerError::DuplicateCnpj) ==> cnpj_taken(repo, issuer.cnpj_spec()),
        r matches Err(RegisterIssuerError::DuplicateLei) ==> !cnpj_taken(repo, issuer.cnpj_spec())
            && lei_taken(repo, issuer.lei_spec()),
        cnpj_taken(repo, issuer.cnpj_spec()) ==> r is Err,
        lei_taken(repo, issuer.lei_spec()) ==> r is Err,
        !cnpj_taken(repo, issuer.cnpj_spec()) && !lei_taken(repo, issuer.lei_spec()) ==> (r is Ok
            || r matches Err(RegisterIssuerError::Storage(_))),
{
    if let Some(cnpj) = &issuer.cnpj {
        match repo.exists_by_cnpj(cnpj) {
            Ok(true) => return Err(RegisterIssuerError::DuplicateCnpj),
            Ok(false) => {},
            Err(f) => return Err(RegisterIssuerError::Storage(f)),
        }
    }
    if let Some(lei) = &issuer.lei {
        match repo.exists_by_lei(lei) {
            Ok(true) => return Err(RegisterIssuerError::DuplicateLei),
            Ok(false) => {},
            Err(f) => return Err(RegisterIssuerError::Storage(f)),
        }
    }
    match repo.insert(issuer) {
        Ok(()) => Ok(()),
        Err(f) => Err(RegisterIssuerError::Storage(f)),
    }
}

/// Reads one issuer.
pub fn get_issuer<R: IssuerRepository>(repo: &R, id: &IssuerId, mode: LoadMode) -> (r: Result<
    Option<Versioned<Issuer>>,
    GetIssuerError,
>)
    ensures
        match repo.find_by_id_answer(*id, mode) {
            Ok(v) => r == Ok::<Option<Versioned<Issuer>>, GetIssuerError>(v),
            Err(f) => r == Err::<Option<Versioned<Issuer>>, GetIssuerError>(GetIssuerError::Storage(f)),
        },
        r matches Ok(Some(v)) ==> v.data.id_spec() == *id,
{
    get_issuer_outcome(repo.find_by_id(id, mode))
}

/// What reading one issuer gives for the store's answer: the answer
/// itself, or its fault as the error.
pub fn get_issuer_outcome(found: Result<Option<Versioned<Issuer>>, StorageFault>) -> (r: Result<
    Option<Versioned<Issuer>>,
    GetIssuerError,
>)
    ensures
        match found {
            Ok(v) => r == Ok::<Option<Versioned<Issuer>>, GetIssuerError>(v),
            Err(f) => r == Err::<Option<Versioned<Issuer>>, GetIssuerError>(GetIssuerError::Storage(f)),
        },
{
    match found {
        Ok(v) => Ok(v),
        Err(f) => Err(GetIssuerError::Storage(f)),
    }
}

/// Reads a page of issuers.
pub fn list_issuers<R: IssuerRepository>(
    repo: &R,
    after: Option<IssuerId>,
    limit: u32,
    mode: LoadMode,
) -> (r: Result<Vec<Versioned<Issuer>>, ListIssuersError>)
    ensures
        match repo.list_paged_answer(after, limit, mode) {
            Ok(p) => r == Ok::<Vec<Versioned<Issuer>>, ListIssuersError>(p),
            Err(f) => r == Err::<Vec<Versioned<Issuer>>, ListIssuersError>(ListIssuersError::Storage(f)),
        },
        r matches Ok(page) ==> page@.len() <= limit,
{
    list_issuers_outcome(repo.list_paged(after, limit, mode))
}

/// What reading a page of issuers gives for the store's answer: the page
/// itself, or its fault as the error.
pub fn list_issuers_outcome(page: Result<Vec<Versioned<Issuer>>, StorageFault>) -> (r: Result<
    Vec<Versioned<Issuer>>,
    ListIssuersError,
>)
    ensures
        match page {
            Ok(p) => r == Ok::<Vec<Versioned<Issuer>>, ListIssuersError>(p),
            Err(f) => r == Err::<Vec<Versioned<Issuer>>, ListIssuersError>(ListIssuersError::Storage(f)),
        },
{
    match page {
        Ok(p) => Ok(p),
        Err(f) => Err(ListIssuersError::Storage(f)),
    }
}

/// What patching an issuer gives, over the store's answers: the CNPJ query,
/// then the LEI query, each asked only when the patch sets that identifier,
/// refuse a taken one or pass on their fault; when both pass, the patch is
/// applied and the store's answer decides.
pub open spec fn patch_issuer_result<R: IssuerRepository>(
    repo: &R,
    id: IssuerId,
    expected_version: u32,
    patch: IssuerPatch,
) -> Result<WriteOutcome, PatchIssuerError> {
    let cnpj_answer: Result<bool, StorageFault> = match patch.cnpj_spec() {
        Some(c) => repo.exists_by_cnpj_answer(c),
        None => Ok(false),
    };
    let lei_answer: Result<bool, StorageFault> = match patch.lei_spec() {
        Some(l) => repo.exists_by_lei_answer(l),
        None => Ok(false),
    };
    match cnpj_answer {
        Err(f) => Err(PatchIssuerError::Storage(f)),
        Ok(true) => Err(PatchIssuerError::DuplicateCnpj),
        Ok(false) => match lei_answer {
            Err(f) => Err(PatchIssuerError::Storage(f)),
            Ok(true) => Err(PatchIssuerError::DuplicateLei),
            Ok(false) => match repo.apply_patch_answer(id, expected_version, patch) {
                Ok(o) => Ok(o),
                Err(f) => Err(PatchIssuerError::Storage(f)),
            },
        },
    }
}

/// Applies a patch unless it sets a CNPJ or LEI that is already taken
/// (checked in that order).
pub fn patch_issuer<R: IssuerRepository>(
    repo: &R,
    id: &IssuerId,
    expected_version: u32,
    patch: IssuerPatch,
) -> (r: Result<WriteOutcome, PatchIssuerError>)
    ensures
        r == patch_issuer_result(repo, *id, expected_version, patch),
        r is Ok ==> !cnpj_taken(repo, patch.cnpj_spec()) && !lei_taken(repo, patch.lei_spec()),
        r matches Err(PatchIssuerError::DuplicateCnpj) ==> cnpj_taken(repo, patch.cnpj_spec()),
        r matches Err(PatchIssuerError::DuplicateLei) ==> !cnpj_taken(repo, patch.cnpj_spec())
            && lei_taken(repo, patch.lei_spec()),
        cnpj_taken(repo, patch.cnpj_spec()) ==> r is Err,
        lei_taken(repo, patch.lei_spec()) ==> r is Err,
        !cnpj_taken(repo, patch.cnpj_spec()) && !lei_taken(repo, patch.lei_spec()) ==> (r is Ok
            || r matches Err(PatchIssuerError::Storage(_))),
        r matches Ok(WriteOutcome::VersionMismatch { expected, .. }) ==> expected == expected_version,
{
    if let Some(cnpj) = patch.cnpj() {
        match repo.exists_by_cnpj(cnpj) {
            Ok(true) => return Err(PatchIssuerError::DuplicateCnpj),
            Ok(false) => {},
            Err(f) => return Err(PatchIssuerError::Storage(f)),
        }
    }
    if let Some(lei) = patch.lei() {
        match repo.exists_by_lei(lei) {
            Ok(true) => return Err(PatchIssuerError::DuplicateLei),
            Ok(false) => {},
            Err(f) => return Err(PatchIssuerError::Storage(f)),
        }
    }
    match repo.apply_patch(id, expected_version, patch) {
        Ok(outcome) => Ok(outcome),
        Err(f) => Err(PatchIssuerError::Storage(f)),
    }
}

/// Deletes an issuer at the expected version.
pub fn delete_issuer<R: IssuerRepository>(repo: &R, id: &IssuerId, expected_version: u32) -> (r: Result<
    WriteOutcome,
    DeleteIssuerError,
>)
    ensures
        match repo.delete_answer(*id, expected_version) {
            Ok(o) => r == Ok::<WriteOutcome, DeleteIssuerError>(o),
            Err(f) => r == Err::<WriteOutcome, DeleteIssuerError>(DeleteIssuerError::Storage(f)),
        },
        r matches Ok(WriteOutcome::VersionMismatch { expected, .. }) ==> expected == expected_version,
{
    delete_issuer_outcome(repo.delete(id, expected_version))
}

/// What deleting an issuer gives for the store's answer: the outcome
/// itself, or its fault as the error.
pub fn delete_issuer_outcome(outcome: Result<WriteOutcome, StorageFault>) -> (r: Result<
    WriteOutcome,
    DeleteIssuerError,
>)
    ensures
        match outcome {
            Ok(o) => r == Ok::<WriteOutcome, DeleteIssuerError>(o),
            Err(f) => r == Err::<WriteOutcome, DeleteIssuerError>(DeleteIssuerError::Storage(f)),
        },
{
    match outcome {
        Ok(o) => Ok(o),
        Err(f) => Err(DeleteIssuerError::Storage(f)),
    }
}

impl RegisterIssuerError {
    /// The human-readable text of the error, as `Display` prints it.
    pub fn to_string(&self) -> (r: String)
        ensures
            self is DuplicateCnpj ==> r@ == "an issuer with this CNPJ already exists"@,
            self is DuplicateLei ==> r@ == "an issuer with this LEI already exists"@,
            self matches RegisterIssuerError::Storage(f) ==> r@ == f.view(),
    {
        match self {
            RegisterIssuerError::DuplicateCnpj => String::from_str("an issuer with this CNPJ already exists"),
            RegisterIssuerError::DuplicateLei => String::from_str("an issuer with this LEI already exists"),
            RegisterIssuerError::Storage(f) => f.to_string(),
        }
    }
}

impl PatchIssuerError {
    /// The human-readable text of the error, as `Display` prints it.
    pub fn to_string(&self) -> (r: String)
        ensures
            self is DuplicateCnpj ==> r@ == "an issuer with this CNPJ already exists"@,
            self is DuplicateLei ==> r@ == "an issuer with this LEI already exists"@,
            self matches PatchIssuerError::Storage(f) ==> r@ == f.view(),
    {
        match self {
            PatchIssuerError::DuplicateCnpj => String::from_str("an issuer with this CNPJ already exists"),
            PatchIssuerError::DuplicateLei => String::from_str("an issuer with this LEI already exists"),
            PatchIssuerError::Storage(f) => f.to_string(),
        }
    }
}

} // verus!
