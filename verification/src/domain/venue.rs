//! Trading venue aggregate: where securities are admitted to trading, keyed
//! by its ISO 10383 MIC (such as `BVMF` for B3 or `XNYS` for NYSE). The
//! operating/segment hierarchy and the country are read from the MIC
//! registry, not stored; the venue records only its identity here, a
//! display name and its lifecycle status.
use vstd::prelude::*;
use core::marker::PhantomData;
use crate::common::{
    fresh_uuid_v7, now_instant, uuid_text, BuilderState, Empty, NonEmpty, UniqueIdentifier,
    UtcInstant, Versioned, WriteOutcome,
};
use crate::identifiers::{CountryCode, Mic};
use crate::storage::StorageFault;
use crate::text::{
    all_ascii_chars, unicode_uppercase, upper_all,
    decimal, message_with_number, str_eq, string_from_chars, to_uppercase, trimmed, trimmed_chars,
};

verus! {

/// Longest venue name accepted, in characters.
pub const VENUE_NAME_MAX_LEN: usize = 200;

/// The display name of a venue: trimmed, 1 to 200 characters.
#[derive(Clone, Eq, PartialEq, Hash, Debug)]
pub struct VenueName(String);

#[derive(Debug, PartialEq, Eq, Structural)]
pub enum VenueNameError {
    Empty,
    TooLong { max: usize },
}

impl VenueName {
    /// The characters of the name.
    pub closed spec fn view(self) -> Seq<char> {
        self.0@
    }

    /// Trims surrounding whitespace, then requires between 1 and
    /// 200 characters.
    pub fn new(value: &str) -> (r: Result<Self, VenueNameError>)
        ensures
            trimmed(value@).len() == 0 ==> r == Err::<VenueName, VenueNameError>(VenueNameError::Empty),
            0 < trimmed(value@).len() <= VENUE_NAME_MAX_LEN ==> (r matches Ok(n) && n.view() == trimmed(
                value@,
            )),
            trimmed(value@).len() > VENUE_NAME_MAX_LEN ==> r == Err::<VenueName, VenueNameError>(
                VenueNameError::TooLong { max: VENUE_NAME_MAX_LEN },
            ),
    {
        let t = trimmed_chars(value);
        if t.len() == 0 {
            return Err(VenueNameError::Empty);
        }
        if t.len() > VENUE_NAME_MAX_LEN {
            return Err(VenueNameError::TooLong { max: VENUE_NAME_MAX_LEN });
        }
        Ok(VenueName(string_from_chars(&t)))
    }

    pub fn as_str(&self) -> (r: &str)
        ensures
            r@ == self.view(),
    {
        self.0.as_str()
    }
}

impl VenueNameError {
    /// The human-readable text of the error, as `Display` prints it.
    pub fn to_string(&self) -> (msg: String)
        ensures
            msg@ == match self {
                VenueNameError::Empty => "venue name cannot be empty"@,
                VenueNameError::TooLong { max } => "venue name exceeds maximum length of "@ + decimal(
                    *max as nat,
                ) + " characters"@,
            },
    {
        match self {
            VenueNameError::Empty => String::from_str("venue name cannot be empty"),
            VenueNameError::TooLong { max } => message_with_number(
                "venue name exceeds maximum length of ",
                *max as u64,
                " characters",
            ),
        }
    }
}

/// Identity of a venue: a version 7 UUID, kept as its sixteen bytes.
#[derive(Copy, Clone, Eq, PartialEq, Hash, Debug)]
pub struct VenueId {
    bytes: [u8; 16],
}

impl VenueId {
    /// The sixteen bytes.
    pub closed spec fn view(self) -> Seq<u8> {
        self.bytes@
    }

    /// A fresh time-ordered identity.
    pub fn new() -> (r: Self)
        ensures
            r.view()[6] / 16 == 7,
            r.view()[8] / 64 == 2,
    {
        VenueId { bytes: fresh_uuid_v7() }
    }

    pub fn from_bytes(bytes: [u8; 16]) -> (r: Self)
        ensures
            r.view() == bytes@,
    {
        VenueId { bytes }
    }

    /// The hyphenated lower-case hexadecimal form.
    pub fn value(&self) -> (r: String)
        ensures
            r@ == uuid_text(self.view()),
    {
        UniqueIdentifier::from_bytes(self.bytes).value()
    }

    pub fn as_bytes(&self) -> (r: &[u8; 16])
        ensures
            r@ == self.view(),
    {
        &self.bytes
    }
}

impl Default for VenueId {
    fn default() -> (r: Self)
        ensures
            r.view()[6] / 16 == 7,
            r.view()[8] / 64 == 2,
    {
        VenueId::new()
    }
}

/// Lifecycle status of a venue in this system; a retired venue takes no new listings,
/// whatever the MIC registry says of it.
#[derive(Debug, Clone, Copy, PartialEq, Eq, Hash, Structural)]
pub enum VenueStatus {
    Active,
    Retired,
}

#[derive(Debug, PartialEq, Eq, Structural)]
pub enum VenueStatusError {
    InvalidStatus,
}

impl VenueStatus {
    pub fn is_active(&self) -> (r: bool)
        ensures
            r == (*self == VenueStatus::Active),
    {
        matches!(self, VenueStatus::Active)
    }

    pub fn is_retired(&self) -> (r: bool)
        ensures
            r == (*self == VenueStatus::Retired),
    {
        matches!(self, VenueStatus::Retired)
    }

    /// The upper-case text of the value, as the `String` conversion gives it.
    pub open spec fn text(self) -> Seq<char> {
        match self {
            VenueStatus::Active => "ACTIVE"@,
            VenueStatus::Retired => "RETIRED"@,
        }
    }

    pub fn as_str(&self) -> (r: &'static str)
        ensures
            r@ == self.text(),
    {
        match self {
            VenueStatus::Active => "ACTIVE",
            VenueStatus::Retired => "RETIRED",
        }
    }

    /// Which value an already upper-cased text names.
    pub open spec fn from_uppercase_spec(upper: Seq<char>) -> Result<VenueStatus, VenueStatusError> {
        if upper == "ACTIVE"@ {
            Ok(VenueStatus::Active)
        } else if upper == "RETIRED"@ {
            Ok(VenueStatus::Retired)
        } else {
            Err(VenueStatusError::InvalidStatus)
        }
    }

    /// Reads the value from text that is already upper-cased.
    pub fn from_uppercase(upper: &str) -> (r: Result<VenueStatus, VenueStatusError>)
        ensures
            r == VenueStatus::from_uppercase_spec(upper@),
    {
        if str_eq(upper, "ACTIVE") {
            Ok(VenueStatus::Active)
        } else if str_eq(upper, "RETIRED") {
            Ok(VenueStatus::Retired)
        } else {
            Err(VenueStatusError::InvalidStatus)
        }
    }
}

impl Default for VenueStatus {
    fn default() -> (r: Self)
        ensures
            r == VenueStatus::Active,
    {
        VenueStatus::Active
    }
}

impl VenueStatus {
    /// Reads the value from text in any letter case, as `FromStr` does.
    pub fn from_text(s: &str) -> (r: Result<VenueStatus, VenueStatusError>)
        ensures
            r == VenueStatus::from_uppercase_spec(unicode_uppercase(s@)),
            all_ascii_chars(s@) ==> r == VenueStatus::from_uppercase_spec(upper_all(s@)),
    {
        let upper = to_uppercase(s);
        Self::from_uppercase(upper.as_str())
    }
}

impl core::str::FromStr for VenueStatus {
    type Err = VenueStatusError;

    fn from_str(s: &str) -> (r: Result<Self, Self::Err>)
        ensures
            r == VenueStatus::from_uppercase_spec(unicode_uppercase(s@)),
            all_ascii_chars(s@) ==> r == VenueStatus::from_uppercase_spec(upper_all(s@)),
    {
        VenueStatus::from_text(s)
    }
}

/// Every value reads back from its own text: `VenueStatus::from_text(v.as_str())`,
/// and so `from_str` of `String::from(v)`, gives `v`.
pub proof fn law_venue_status_text_round_trip(v: VenueStatus)
    ensures
        all_ascii_chars(v.text()),
        VenueStatus::from_uppercase_spec(upper_all(v.text())) == Ok::<VenueStatus, VenueStatusError>(v),
{
    reveal_strlit("ACTIVE");
    reveal_strlit("RETIRED");
    assert(upper_all(v.text()) =~= v.text());
}

impl From<VenueStatus> for String {
    fn from(val: VenueStatus) -> (r: String)
        ensures
            r@ == val.text(),
    {
        String::from_str(val.as_str())
    }
}

impl vstd::std_specs::convert::FromSpecImpl<VenueStatus> for String {
    open spec fn obeys_from_spec() -> bool {
        false
    }

    open spec fn from_spec(v: VenueStatus) -> String {
        choose|s: String| s@ == v.text()
    }
}

impl VenueStatusError {
    /// The human-readable text of the error, as `Display` prints it.
    pub fn to_string(&self) -> (msg: String)
        ensures
            msg@ == "Invalid status. Must be one of: [\"ACTIVE\", \"RETIRED\"]"@,
    {
        String::from_str("Invalid status. Must be one of: [\"ACTIVE\", \"RETIRED\"]")
    }
}

/// A trading venue.
#[derive(Debug)]
pub struct Venue {
    id: VenueId,
    mic: Mic,
    status: VenueStatus,
    created_at: UtcInstant,
    name: Option<VenueName>,
}

impl Venue {
    pub closed spec fn id_spec(self) -> VenueId {
        self.id
    }

    pub closed spec fn mic_spec(self) -> Mic {
        self.mic
    }

    pub closed spec fn status_spec(self) -> VenueStatus {
        self.status
    }

    pub closed spec fn created_at_spec(self) -> UtcInstant {
        self.created_at
    }

    pub closed spec fn name_spec(self) -> Option<VenueName> {
        self.name
    }

    pub fn builder(mic: Mic) -> (r: VenueBuilder)
        ensures
            r.mic_spec() == mic,
            r.id_spec() is None,
            r.status_spec() is None,
            r.created_at_spec() is None,
            r.name_spec() is None,
    {
        VenueBuilder::new(mic)
    }

    pub fn id(&self) -> (r: &VenueId)
        ensures
            *r == self.id_spec(),
    {
        &self.id
    }

    pub fn mic(&self) -> (r: &Mic)
        ensures
            *r == self.mic_spec(),
    {
        &self.mic
    }

    pub fn status(&self) -> (r: VenueStatus)
        ensures
            r == self.status_spec(),
    {
        self.status
    }

    /// When the venue was created.
    pub fn created_at(&self) -> (r: UtcInstant)
        ensures
            r == self.created_at_spec(),
    {
        self.created_at
    }

    pub fn name(&self) -> (r: Option<&VenueName>)
        ensures
            r is None <==> self.name_spec() is None,
            r matches Some(n) ==> self.name_spec() == Some(*n),
    {
        match &self.name {
            Some(n) => Some(n),
            None => None,
        }
    }

    /// The operating MIC that owns this venue in the registry; an operating
    /// venue reports itself.
    pub fn operating_mic(&self) -> (r: Mic)
        ensures
            r.view() == self.mic_spec().operating_mic_spec(),
    {
        self.mic.operating_mic()
    }

    /// The venue's country in the registry; `None` for the off-exchange
    /// pseudo-MICs published under `ZZ`.
    pub fn country_code(&self) -> (r: Option<CountryCode>)
        ensures
            r is Some <==> crate::identifiers::country_code::country_valid(
                self.mic_spec().entry().country@,
            ),
            r matches Some(c) ==> c.view() == self.mic_spec().entry().country@,
    {
        self.mic.country_code()
    }

    /// Whether the venue operates its own market (its operating MIC is itself).
    pub fn is_operating_venue(&self) -> (r: bool)
        ensures
            r == (self.mic_spec().operating_mic_spec() == self.mic_spec().view()),
    {
        self.mic.is_operating()
    }

    /// A venue as it was stored.
    pub fn reconstitute(
        id: VenueId,
        mic: Mic,
        status: VenueStatus,
        created_at: UtcInstant,
        name: Option<VenueName>,
    ) -> (r: Venue)
        ensures
            r.id_spec() == id,
            r.mic_spec() == mic,
            r.status_spec() == status,
            r.created_at_spec() == created_at,
            r.name_spec() == name,
    {
        Venue { id, mic, status, created_at, name }
    }
}

/// Assembles a venue; only the MIC is required.
pub struct VenueBuilder {
    mic: Mic,
    id: Option<VenueId>,
    status: Option<VenueStatus>,
    created_at: Option<UtcInstant>,
    name: Option<VenueName>,
}

impl VenueBuilder {
    pub closed spec fn mic_spec(self) -> Mic {
        self.mic
    }

    pub closed spec fn id_spec(self) -> Option<VenueId> {
        self.id
    }

    pub closed spec fn status_spec(self) -> Option<VenueStatus> {
        self.status
    }

    pub closed spec fn created_at_spec(self) -> Option<UtcInstant> {
        self.created_at
    }

    pub closed spec fn name_spec(self) -> Option<VenueName> {
        self.name
    }

    pub fn new(mic: Mic) -> (r: Self)
        ensures
            r.mic_spec() == mic,
            r.id_spec() is None,
            r.status_spec() is None,
            r.created_at_spec() is None,
            r.name_spec() is None,
    {
        VenueBuilder { mic, id: None, status: None, created_at: None, name: None }
    }

    pub fn id(self, id: VenueId) -> (r: Self)
        ensures
            r.id_spec() == Some(id),
            r.mic_spec() == self.mic_spec(),
            r.status_spec() == self.status_spec(),
            r.created_at_spec() == self.created_at_spec(),
            r.name_spec() == self.name_spec(),
    {
        VenueBuilder { id: Some(id), ..self }
    }

    pub fn status(self, status: VenueStatus) -> (r: Self)
        ensures
            r.status_spec() == Some(status),
            r.mic_spec() == self.mic_spec(),
            r.id_spec() == self.id_spec(),
            r.created_at_spec() == self.created_at_spec(),
            r.name_spec() == self.name_spec(),
    {
        VenueBuilder { status: Some(status), ..self }
    }

    /// Sets the creation time.
    pub fn created_at(self, created_at: UtcInstant) -> (r: Self)
        ensures
            r.created_at_spec() == Some(created_at),
            r.mic_spec() == self.mic_spec(),
            r.id_spec() == self.id_spec(),
            r.status_spec() == self.status_spec(),
            r.name_spec() == self.name_spec(),
    {
        VenueBuilder { created_at: Some(created_at), ..self }
    }

    pub fn name(self, name: VenueName) -> (r: Self)
        ensures
            r.name_spec() == Some(name),
            r.mic_spec() == self.mic_spec(),
            r.id_spec() == self.id_spec(),
            r.status_spec() == self.status_spec(),
            r.created_at_spec() == self.created_at_spec(),
    {
        VenueBuilder { name: Some(name), ..self }
    }

    /// The venue; a venue has no cross-field rule, so building cannot fail.
    /// Unset fields default to a fresh id, `Active` and the current time.
    pub fn build(self) -> (r: Venue)
        ensures
            r.mic_spec() == self.mic_spec(),
            self.id_spec() matches Some(id) ==> r.id_spec() == id,
            r.status_spec() == (match self.status_spec() {
                Some(s) => s,
                None => VenueStatus::Active,
            }),
            self.created_at_spec() matches Some(t) ==> r.created_at_spec() == t,
            r.name_spec() == self.name_spec(),
    {
        let id = match self.id {
            Some(id) => id,
            None => VenueId::new(),
        };
        let status = match self.status {
            Some(s) => s,
            None => VenueStatus::Active,
        };
        let created_at = match self.created_at {
            Some(t) => t,
            None => now_instant(),
        };
        Venue { id, mic: self.mic, status, created_at, name: self.name }
    }
}

/// Partial update of a venue: the fields that are set replace the stored ones.
#[derive(Debug, Clone)]
pub struct VenuePatch {
    name: Option<VenueName>,
    status: Option<VenueStatus>,
}

impl VenuePatch {
    /// Whether the patch sets at least one field.
    pub open spec fn any_field_set(self) -> bool {
        self.name_spec() is Some || self.status_spec() is Some
    }

    /// A builder with no field set yet.
    pub fn builder() -> (r: VenuePatchBuilder<Empty>)
        ensures
            !r.pending().any_field_set(),
    {
        VenuePatchBuilder::new()
    }

    fn empty() -> (r: Self)
        ensures
            !r.any_field_set(),
    {
        VenuePatch { name: None, status: None }
    }

    pub closed spec fn name_spec(self) -> Option<VenueName> {
        self.name
    }

    pub closed spec fn status_spec(self) -> Option<VenueStatus> {
        self.status
    }

    pub fn name(&self) -> (r: Option<&VenueName>)
        ensures
            r is None <==> self.name_spec() is None,
            r matches Some(v) ==> self.name_spec() == Some(*v),
    {
        match &self.name {
            Some(v) => Some(v),
            None => None,
        }
    }

    pub fn status(&self) -> (r: Option<VenueStatus>)
        ensures
            r == self.status_spec(),
    {
        self.status
    }
}

/// Builds a patch; `build` is only available once a field has been set.
pub struct VenuePatchBuilder<State: BuilderState> {
    inner: VenuePatch,
    _state: PhantomData<State>,
}

impl<State: BuilderState> VenuePatchBuilder<State> {
    /// A builder in a state that promises a set field has one.
    #[verifier::type_invariant]
    spec fn set_field_when_promised(self) -> bool {
        State::has_set_field() ==> self.inner.any_field_set()
    }

    /// The patch assembled so far.
    pub closed spec fn pending(self) -> VenuePatch {
        self.inner
    }
}

impl VenuePatchBuilder<Empty> {
    fn new() -> (r: Self)
        ensures
            !r.pending().any_field_set(),
    {
        VenuePatchBuilder { inner: VenuePatch::empty(), _state: PhantomData }
    }
}

impl<State: BuilderState> VenuePatchBuilder<State> {
    pub fn name(self, name: VenueName) -> (r: VenuePatchBuilder<NonEmpty>)
        ensures
            r.pending().name_spec() == Some(name),
            r.pending().status_spec() == self.pending().status_spec(),
    {
        VenuePatchBuilder {
            inner: VenuePatch {
                name: Some(name),
                status: self.inner.status,
            },
            _state: PhantomData,
        }
    }

    pub fn status(self, status: VenueStatus) -> (r: VenuePatchBuilder<NonEmpty>)
        ensures
            r.pending().status_spec() == Some(status),
            r.pending().name_spec() == self.pending().name_spec(),
    {
        VenuePatchBuilder {
            inner: VenuePatch {
                name: self.inner.name,
                status: Some(status),
            },
            _state: PhantomData,
        }
    }
}

impl VenuePatchBuilder<NonEmpty> {
    pub fn build(self) -> (r: VenuePatch)
        ensures
            r == self.pending(),
            r.any_field_set(),
    {
        proof {
            use_type_invariant(&self);
        }
        self.inner
    }
}

/// Storage of venues, implemented by a persistence backend. The answers to
/// the existence queries are tied to two views of the stored venues, which
/// the registration rule is stated over; each call that the services make
/// gives the store's answer to it, named by a spec function of the same
/// arguments.
pub trait VenueRepository {
    /// Whether a venue with this MIC is stored.
    spec fn stores_mic(&self, mic: Mic) -> bool;

    /// The status of the stored venue with this id, if one is stored.
    spec fn stored_status(&self, id: VenueId) -> Option<VenueStatus>;

    /// The store's answer to looking a venue up by id.
    spec fn find_by_id_answer(&self, id: VenueId) -> Result<Option<Versioned<Venue>>, StorageFault>;

    /// The store's answer to asking whether a MIC is stored.
    spec fn exists_by_mic_answer(&self, mic: Mic) -> Result<bool, StorageFault>;

    /// The store's answer to inserting a venue.
    spec fn insert_answer(&self, venue: Venue) -> Result<(), StorageFault>;

    fn find_by_id(&self, id: &VenueId) -> (r: Result<Option<Versioned<Venue>>, StorageFault>)
        ensures
            r == self.find_by_id_answer(*id),
            r matches Ok(found) ==> match found {
                Some(v) => self.stored_status(*id) == Some(v.data.status_spec()),
                None => self.stored_status(*id) is None,
            },
    ;

    fn find_by_mic(&self, mic: &Mic) -> Result<Option<Versioned<Venue>>, StorageFault>;

    fn list_all(&self) -> Result<Vec<Versioned<Venue>>, StorageFault>;

    fn list_by_country(&self, country_code: &CountryCode) -> Result<Vec<Versioned<Venue>>, StorageFault>;

    fn list_paged(&self, after: Option<VenueId>, limit: u32) -> Result<Vec<Versioned<Venue>>, StorageFault>;

    fn exists_by_id(&self, id: &VenueId) -> Result<bool, StorageFault>;

    fn exists_by_mic(&self, mic: &Mic) -> (r: Result<bool, StorageFault>)
        ensures
            r == self.exists_by_mic_answer(*mic),
            r matches Ok(b) ==> b == self.stores_mic(*mic),
    ;

    fn insert(&self, venue: &Venue) -> (r: Result<(), StorageFault>)
        ensures
            r == self.insert_answer(*venue),
    ;

    fn apply_patch(&self, id: &VenueId, expected_version: u32, patch: VenuePatch) -> Result<WriteOutcome, StorageFault>;

    fn update(&self, venue: &Venue, expected_version: u32) -> Result<WriteOutcome, StorageFault>;

    fn delete(&self, id: &VenueId, expected_version: u32) -> Result<WriteOutcome, StorageFault>;
}

#[derive(Debug)]
pub enum RegisterVenueError {
    DuplicateMic,
    Storage(StorageFault),
}

impl From<StorageFault> for RegisterVenueError {
    fn from(f: StorageFault) -> (r: RegisterVenueError) {
        RegisterVenueError::Storage(f)
    }
}

impl vstd::std_specs::convert::FromSpecImpl<StorageFault> for RegisterVenueError {
    open spec fn obeys_from_spec() -> bool {
        true
    }

    open spec fn from_spec(v: StorageFault) -> RegisterVenueError {
        RegisterVenueError::Storage(v)
    }
}

impl RegisterVenueError {
    /// The human-readable text of the error, as `Display` prints it.
    pub fn to_string(&self) -> (r: String)
        ensures
            self is DuplicateMic ==> r@ == "a venue with this MIC already exists"@,
            self matches RegisterVenueError::Storage(f) ==> r@ == f.view(),
    {
        match self {
            RegisterVenueError::DuplicateMic => String::from_str("a venue with this MIC already exists"),
            RegisterVenueError::Storage(f) => f.to_string(),
        }
    }
}

/// What registering a venue gives, over the store's answers: the MIC query
/// refuses a taken MIC or passes on its fault; otherwise the venue is
/// inserted and the insert's answer decides.
pub open spec fn register_venue_result<R: VenueRepository>(repo: &R, venue: Venue) -> Result<
    (),
    RegisterVenueError,
> {
    match repo.exists_by_mic_answer(venue.mic_spec()) {
        Err(f) => Err(RegisterVenueError::Storage(f)),
        Ok(true) => Err(RegisterVenueError::DuplicateMic),
        Ok(false) => match repo.insert_answer(venue) {
            Ok(_) => Ok(()),
            Err(f) => Err(RegisterVenueError::Storage(f)),
        },
    }
}

/// Stores a new venue unless one with its MIC is already stored.
pub fn register_venue<R: VenueRepository>(repo: &R, venue: &Venue) -> (r: Result<(), RegisterVenueError>)
    ensures
        r == register_venue_result(repo, *venue),
        r is Ok ==> !repo.stores_mic(venue.mic_spec()),
        r matches Err(RegisterVenueError::DuplicateMic) ==> repo.stores_mic(venue.mic_spec()),
        repo.stores_mic(venue.mic_spec()) ==> r is Err,
        !repo.stores_mic(venue.mic_spec()) ==> (r is Ok || r matches Err(
            RegisterVenueError::Storage(_),
        )),
{
    match repo.exists_by_mic(&venue.mic) {
        Ok(true) => return Err(RegisterVenueError::DuplicateMic),
        Ok(false) => {},
        Err(f) => return Err(RegisterVenueError::Storage(f)),
    }
    match repo.insert(venue) {
        Ok(()) => Ok(()),
        Err(f) => Err(RegisterVenueError::Storage(f)),
    }
}

} // verus!
