use std::cell::Cell;
use std::str::FromStr;
use valqeron::common::{UtcInstant, Versioned, WriteOutcome};
use valqeron::domain::venue::{
    register_venue, RegisterVenueError, Venue, VenueId, VenueName, VenueNameError, VenuePatch,
    VenueRepository, VenueStatus, VenueStatusError, VENUE_NAME_MAX_LEN,
};
use valqeron::identifiers::{CountryCode, Mic};
use valqeron::storage::StorageFault;

fn now() -> UtcInstant {
    let n = chrono::Utc::now();
    UtcInstant { seconds: n.timestamp(), nanos: n.timestamp_subsec_nanos() }
}

fn mic(code: &str) -> Option<Mic> {
    Mic::parse(code).ok()
}

fn b3_venue() -> Option<Venue> {
    let mic = Mic::parse("BVMF").ok()?;
    Some(Venue::builder(mic).build())
}

/// A venue store whose MIC-uniqueness answer is fixed; it records whether
/// anything was inserted.
struct FixedVenues {
    mic_taken: bool,
    inserted: Cell<bool>,
}

impl FixedVenues {
    fn new(mic_taken: bool) -> Self {
        FixedVenues { mic_taken, inserted: Cell::new(false) }
    }
}

impl VenueRepository for FixedVenues {
    fn stores_mic(&self, _mic: Mic) -> bool {
        self.mic_taken
    }
    fn stored_status(&self, _id: VenueId) -> Option<VenueStatus> {
        None
    }
    fn find_by_id(&self, _id: &VenueId) -> Result<Option<Versioned<Venue>>, StorageFault> {
        Ok(None)
    }
    fn find_by_mic(&self, _mic: &Mic) -> Result<Option<Versioned<Venue>>, StorageFault> {
        Ok(None)
    }
    fn list_all(&self) -> Result<Vec<Versioned<Venue>>, StorageFault> {
        Ok(Vec::new())
    }
    fn list_by_country(&self, _country_code: &CountryCode) -> Result<Vec<Versioned<Venue>>, StorageFault> {
        Ok(Vec::new())
    }
    fn list_paged(&self, _after: Option<VenueId>, _limit: u32) -> Result<Vec<Versioned<Venue>>, StorageFault> {
        Ok(Vec::new())
    }
    fn exists_by_id(&self, _id: &VenueId) -> Result<bool, StorageFault> {
        Ok(false)
    }
    fn exists_by_mic(&self, _mic: &Mic) -> Result<bool, StorageFault> {
        Ok(self.mic_taken)
    }
    fn insert(&self, _venue: &Venue) -> Result<(), StorageFault> {
        self.inserted.set(true);
        Ok(())
    }
    fn apply_patch(&self, _id: &VenueId, _expected_version: u32, _patch: VenuePatch) -> Result<WriteOutcome, StorageFault> {
        Ok(WriteOutcome::Applied)
    }
    fn update(&self, _venue: &Venue, _expected_version: u32) -> Result<WriteOutcome, StorageFault> {
        Ok(WriteOutcome::Applied)
    }
    fn delete(&self, _id: &VenueId, _expected_version: u32) -> Result<WriteOutcome, StorageFault> {
        Ok(WriteOutcome::Applied)
    }
    fn find_by_id_answer(&self, id: VenueId) -> Result<Option<Versioned<Venue>>, StorageFault> {
        self.find_by_id(&id)
    }
    fn exists_by_mic_answer(&self, mic: Mic) -> Result<bool, StorageFault> {
        self.exists_by_mic(&mic)
    }
    fn insert_answer(&self, _venue: Venue) -> Result<(), StorageFault> {
        Ok(())
    }
}

#[test]
fn venue_venue_name_trims_and_validates() {
    let name_result = VenueName::new(" B3 S.A. - Brasil, Bolsa, Balcao ");
    assert!(name_result.is_ok());
    let Some(name) = name_result.ok() else {
        return;
    };
    assert_eq!(name.as_str(), "B3 S.A. - Brasil, Bolsa, Balcao");
}

#[test]
fn venue_venue_name_empty_fails() {
    assert!(matches!(VenueName::new("  "), Err(VenueNameError::Empty)));
}

#[test]
fn venue_venue_name_too_long_fails() {
    let long_string = "A".repeat(VENUE_NAME_MAX_LEN.saturating_add(1));
    assert!(matches!(
        VenueName::new(&long_string),
        Err(VenueNameError::TooLong { max: 200 })
    ));
}

#[test]
fn venue_venue_id_creation_and_conversions() {
    let original_uuid = uuid::Uuid::now_v7();
    let id = VenueId::from_bytes(*original_uuid.as_bytes());

    assert_eq!(id.value(), original_uuid.to_string());
    assert_eq!(id.as_bytes(), original_uuid.as_bytes());
    assert_ne!(VenueId::new(), VenueId::new());
}

#[test]
fn venue_venue_status_round_trips() {
    assert!(VenueStatus::default().is_active());

    let active_str: String = VenueStatus::Active.into();
    assert_eq!(active_str, "ACTIVE");
    let retired_str: String = VenueStatus::Retired.into();
    assert_eq!(retired_str, "RETIRED");

    assert!(matches!(
        VenueStatus::from_str("active"),
        Ok(VenueStatus::Active)
    ));
    assert!(matches!(
        VenueStatus::from_str("Retired"),
        Ok(VenueStatus::Retired)
    ));
    assert!(matches!(
        VenueStatus::from_str("UNKNOWN"),
        Err(VenueStatusError::InvalidStatus)
    ));
}

#[test]
fn venue_builder_resolves_defaults_and_derives_registry_facts() {
    let Some(bvmf) = mic("BVMF") else {
        return;
    };
    let venue = Venue::builder(bvmf).build();

    assert_eq!(venue.mic().as_str(), "BVMF");
    assert!(venue.status().is_active());
    assert!(venue.name().is_none());
    assert!(venue.created_at() <= now());

    // Registry-derived facts: B3 operates its own market in Brazil.
    assert!(venue.is_operating_venue());
    assert_eq!(venue.operating_mic().as_str(), "BVMF");
    assert!(matches!(venue.country_code(), Some(c) if c.as_str() == "BR"));
}

#[test]
fn venue_operating_venue_reports_itself_as_operator() {
    let Some(xnas) = mic("XNAS") else {
        return;
    };
    let venue = Venue::builder(xnas).build();

    assert!(
        venue.is_operating_venue(),
        "the registry publishes XNAS as its own operating MIC"
    );
    assert_eq!(venue.operating_mic().as_str(), "XNAS");
}

#[test]
fn venue_segment_venue_derives_its_operator_from_the_registry() {
    let Some(xngs) = mic("XNGS") else {
        return;
    };

    let venue = Venue::builder(xngs).build();

    assert!(!venue.is_operating_venue());
    assert_eq!(venue.operating_mic().as_str(), "XNAS");
    assert!(matches!(venue.country_code(), Some(c) if c.as_str() == "US"));
}

#[test]
fn venue_single_field_patch_only_sets_that_field() {
    let status_patch = VenuePatch::builder().status(VenueStatus::Retired).build();

    assert!(matches!(status_patch.status(), Some(VenueStatus::Retired)));
    assert!(status_patch.name().is_none());
}

#[test]
fn patch_single_field_patch_only_sets_that_field() {
    let status_patch = VenuePatch::builder().status(VenueStatus::Retired).build();

    assert!(matches!(status_patch.status(), Some(VenueStatus::Retired)));
    assert!(status_patch.name().is_none());
}

#[test]
fn register_inserts_when_mic_is_free() {
    let repo = FixedVenues::new(false);

    let Some(venue) = b3_venue() else {
        return;
    };
    assert!(register_venue(&repo, &venue).is_ok());
    assert!(repo.inserted.get());
}

#[test]
fn register_rejects_duplicate_mic_before_insert() {
    let repo = FixedVenues::new(true);

    let Some(venue) = b3_venue() else {
        return;
    };
    assert!(matches!(
        register_venue(&repo, &venue),
        Err(RegisterVenueError::DuplicateMic)
    ));
    // insert must never be called on a duplicate.
    assert!(!repo.inserted.get());
}
