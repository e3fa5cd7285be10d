use std::cell::Cell;
use std::str::FromStr;
use valqeron::common::{CalendarDate, UtcInstant, Versioned, WriteOutcome};
use valqeron::domain::issuer::IssuerId;
use valqeron::domain::listing::{
    register_listing, CurrencyCode, Listing, ListingBuilderError, ListingId, ListingPatch,
    ListingRepository, ListingRole, ListingRoleError, ListingStatus, ListingStatusError,
    MarketSegment, MarketSegmentError, RegisterListingError, TickerSymbol, TickerSymbolError,
    MARKET_SEGMENT_MAX_LEN, TICKER_SYMBOL_MAX_LEN,
};
use valqeron::domain::security::{Security, SecurityId, SecurityPatch, SecurityRepository};
use valqeron::domain::venue::{Venue, VenueId, VenuePatch, VenueRepository, VenueStatus};
use valqeron::identifiers::{CountryCode, Isin, Mic};
use valqeron::storage::StorageFault;

fn now() -> UtcInstant {
    let n = chrono::Utc::now();
    UtcInstant { seconds: n.timestamp(), nanos: n.timestamp_subsec_nanos() }
}

fn symbol(value: &str) -> Option<TickerSymbol> {
    TickerSymbol::new(value).ok()
}

fn date(year: i32, month: u32, day: u32) -> Option<CalendarDate> {
    CalendarDate::from_ymd_opt(year, month, day)
}

/// A security store whose existence answer is fixed.
struct FixedSecurities {
    exists: bool,
}

impl SecurityRepository for FixedSecurities {
    fn stores_id(&self, _id: SecurityId) -> bool {
        self.exists
    }
    fn stores_isin(&self, _isin: Isin) -> bool {
        false
    }
    fn find_by_id(&self, _id: &SecurityId) -> Result<Option<Versioned<Security>>, StorageFault> {
        Ok(None)
    }
    fn find_by_isin(&self, _isin: &Isin) -> Result<Option<Versioned<Security>>, StorageFault> {
        Ok(None)
    }
    fn list_all(&self) -> Result<Vec<Versioned<Security>>, StorageFault> {
        Ok(Vec::new())
    }
    fn list_by_issuer(&self, _issuer_id: &IssuerId) -> Result<Vec<Versioned<Security>>, StorageFault> {
        Ok(Vec::new())
    }
    fn list_paged(&self, _after: Option<SecurityId>, _limit: u32) -> Result<Vec<Versioned<Security>>, StorageFault> {
        Ok(Vec::new())
    }
    fn exists_by_id(&self, _id: &SecurityId) -> Result<bool, StorageFault> {
        Ok(self.exists)
    }
    fn exists_by_isin(&self, _isin: &Isin) -> Result<bool, StorageFault> {
        Ok(false)
    }
    fn insert(&self, _security: &Security) -> Result<(), StorageFault> {
        Ok(())
    }
    fn apply_patch(&self, _id: &SecurityId, _expected_version: u32, _patch: SecurityPatch) -> Result<WriteOutcome, StorageFault> {
        Ok(WriteOutcome::Applied)
    }
    fn update(&self, _security: &Security, _expected_version: u32) -> Result<WriteOutcome, StorageFault> {
        Ok(WriteOutcome::Applied)
    }
    fn delete(&self, _id: &SecurityId, _expected_version: u32) -> Result<WriteOutcome, StorageFault> {
        Ok(WriteOutcome::Applied)
    }
    fn exists_by_id_answer(&self, id: SecurityId) -> Result<bool, StorageFault> {
        self.exists_by_id(&id)
    }
    fn exists_by_isin_answer(&self, isin: Isin) -> Result<bool, StorageFault> {
        self.exists_by_isin(&isin)
    }
    fn insert_answer(&self, _security: Security) -> Result<(), StorageFault> {
        Ok(())
    }
}

/// A venue store that finds B3 (`BVMF`) with a fixed status, or nothing.
struct FixedVenues {
    status: Option<VenueStatus>,
}

impl VenueRepository for FixedVenues {
    fn stores_mic(&self, _mic: Mic) -> bool {
        self.status.is_some()
    }
    fn stored_status(&self, _id: VenueId) -> Option<VenueStatus> {
        self.status
    }
    fn find_by_id(&self, _id: &VenueId) -> Result<Option<Versioned<Venue>>, StorageFault> {
        let Some(status) = self.status else {
            return Ok(None);
        };
        let Some(mic) = Mic::parse("BVMF").ok() else {
            return Ok(None);
        };
        Ok(Some(Versioned {
            data: Venue::builder(mic).status(status).build(),
            version: 1,
        }))
    }
    fn find_by_mic(&self, _mic: &Mic) -> Result<Option<Versioned<Venue>>, StorageFault> {
        Ok(None)
    }
    fn list_all(&self) -> Result<Vec<Versioned<Venue>>, StorageFault> {
        Ok(Vec::new())
    }
    fn list_by_country(&self, _country_code: &CountryCode) -> Result<Vec<Versioned<Venue>>, StorageFault> {
        Ok(Vec::new())
    }
    fn list_paged(&self, _after: Option<VenueId>, _limit: u32) -> Result<Vec<Versioned<Venue>>, StorageFault> {
        Ok(Vec::new())
    }
    fn exists_by_id(&self, _id: &VenueId) -> Result<bool, StorageFault> {
        Ok(self.status.is_some())
    }
    fn exists_by_mic(&self, _mic: &Mic) -> Result<bool, StorageFault> {
        Ok(self.status.is_some())
    }
    fn insert(&self, _venue: &Venue) -> Result<(), StorageFault> {
        Ok(())
    }
    fn apply_patch(&self, _id: &VenueId, _expected_version: u32, _patch: VenuePatch) -> Result<WriteOutcome, StorageFault> {
        Ok(WriteOutcome::Applied)
    }
    fn update(&self, _venue: &Venue, _expected_version: u32) -> Result<WriteOutcome, StorageFault> {
        Ok(WriteOutcome::Applied)
    }
    fn delete(&self, _id: &VenueId, _expected_version: u32) -> Result<WriteOutcome, StorageFault> {
        Ok(WriteOutcome::Applied)
    }
    fn find_by_id_answer(&self, id: VenueId) -> Result<Option<Versioned<Venue>>, StorageFault> {
        self.find_by_id(&id)
    }
    fn exists_by_mic_answer(&self, mic: Mic) -> Result<bool, StorageFault> {
        self.exists_by_mic(&mic)
    }
    fn insert_answer(&self, _venue: Venue) -> Result<(), StorageFault> {
        Ok(())
    }
}

/// A listing store with fixed answers to the market-rule queries; it records
/// whether the primary-listing query was asked and whether anything was
/// inserted.
#[derive(Default)]
struct FixedListings {
    ticker_taken: bool,
    on_venue: bool,
    primary_exists: bool,
    primary_asked: Cell<bool>,
    inserted: Cell<bool>,
}

impl ListingRepository for FixedListings {
    fn stores_active_ticker(&self, _venue_id: VenueId, _symbol: TickerSymbol) -> bool {
        self.ticker_taken
    }
    fn stores_active_on_venue(&self, _security_id: SecurityId, _venue_id: VenueId) -> bool {
        self.on_venue
    }
    fn stores_active_primary(&self, _security_id: SecurityId) -> bool {
        self.primary_exists
    }
    fn find_by_id(&self, _id: &ListingId) -> Result<Option<Versioned<Listing>>, StorageFault> {
        Ok(None)
    }
    fn find_active_by_venue_and_symbol(&self, _venue_id: &VenueId, _symbol: &TickerSymbol) -> Result<Option<Versioned<Listing>>, StorageFault> {
        Ok(None)
    }
    fn list_all(&self) -> Result<Vec<Versioned<Listing>>, StorageFault> {
        Ok(Vec::new())
    }
    fn list_by_security(&self, _security_id: &SecurityId) -> Result<Vec<Versioned<Listing>>, StorageFault> {
        Ok(Vec::new())
    }
    fn list_by_venue(&self, _venue_id: &VenueId) -> Result<Vec<Versioned<Listing>>, StorageFault> {
        Ok(Vec::new())
    }
    fn list_paged(&self, _after: Option<ListingId>, _limit: u32) -> Result<Vec<Versioned<Listing>>, StorageFault> {
        Ok(Vec::new())
    }
    fn exists_by_id(&self, _id: &ListingId) -> Result<bool, StorageFault> {
        Ok(false)
    }
    fn exists_active_by_venue_and_symbol(&self, _venue_id: &VenueId, _symbol: &TickerSymbol) -> Result<bool, StorageFault> {
        Ok(self.ticker_taken)
    }
    fn exists_active_for_security_on_venue(&self, _security_id: &SecurityId, _venue_id: &VenueId) -> Result<bool, StorageFault> {
        Ok(self.on_venue)
    }
    fn exists_active_primary_for_security(&self, _security_id: &SecurityId) -> Result<bool, StorageFault> {
        self.primary_asked.set(true);
        Ok(self.primary_exists)
    }
    fn insert(&self, _listing: &Listing) -> Result<(), StorageFault> {
        self.inserted.set(true);
        Ok(())
    }
    fn apply_patch(&self, _id: &ListingId, _expected_version: u32, _patch: ListingPatch) -> Result<WriteOutcome, StorageFault> {
        Ok(WriteOutcome::Applied)
    }
    fn update(&self, _listing: &Listing, _expected_version: u32) -> Result<WriteOutcome, StorageFault> {
        Ok(WriteOutcome::Applied)
    }
    fn delete(&self, _id: &ListingId, _expected_version: u32) -> Result<WriteOutcome, StorageFault> {
        Ok(WriteOutcome::Applied)
    }
    fn exists_active_by_venue_and_symbol_answer(&self, venue_id: VenueId, symbol: TickerSymbol) -> Result<bool, StorageFault> {
        self.exists_active_by_venue_and_symbol(&venue_id, &symbol)
    }
    fn exists_active_for_security_on_venue_answer(&self, security_id: SecurityId, venue_id: VenueId) -> Result<bool, StorageFault> {
        self.exists_active_for_security_on_venue(&security_id, &venue_id)
    }
    fn exists_active_primary_for_security_answer(&self, security_id: SecurityId) -> Result<bool, StorageFault> {
        self.exists_active_primary_for_security(&security_id)
    }
    fn insert_answer(&self, _listing: Listing) -> Result<(), StorageFault> {
        Ok(())
    }
}

fn vale3_listing(role: ListingRole) -> Option<Listing> {
    let symbol = TickerSymbol::new("VALE3").ok()?;
    Listing::builder(SecurityId::new(), VenueId::new(), symbol)
        .role(role)
        .build()
        .ok()
}

#[test]
fn ticker_symbol_trims_and_normalizes_to_uppercase() {
    let symbol_result = TickerSymbol::new(" vale3 ");
    assert!(symbol_result.is_ok());
    let Some(symbol) = symbol_result.ok() else {
        return;
    };
    assert_eq!(symbol.as_str(), "VALE3");
}

#[test]
fn ticker_symbol_accepts_class_separators() {
    assert!(matches!(
        TickerSymbol::new("BRK.B"),
        Ok(s) if s.as_str() == "BRK.B"
    ));
    assert!(matches!(
        TickerSymbol::new("bf-b"),
        Ok(s) if s.as_str() == "BF-B"
    ));
}

#[test]
fn ticker_symbol_rejects_empty() {
    assert!(matches!(
        TickerSymbol::new("  "),
        Err(TickerSymbolError::Empty)
    ));
}

#[test]
fn ticker_symbol_rejects_too_long() {
    let long_symbol = "A".repeat(TICKER_SYMBOL_MAX_LEN.saturating_add(1));
    assert!(matches!(
        TickerSymbol::new(&long_symbol),
        Err(TickerSymbolError::TooLong { max: 12 })
    ));
}

#[test]
fn ticker_symbol_rejects_invalid_characters() {
    assert!(matches!(
        TickerSymbol::new("VALE 3"),
        Err(TickerSymbolError::InvalidCharacter)
    ));
    assert!(matches!(
        TickerSymbol::new("VALÉ3"),
        Err(TickerSymbolError::InvalidCharacter)
    ));
}

#[test]
fn market_segment_trims_and_validates() {
    let segment_result = MarketSegment::new(" Novo Mercado ");
    assert!(segment_result.is_ok());
    let Some(segment) = segment_result.ok() else {
        return;
    };
    assert_eq!(segment.as_str(), "Novo Mercado");

    assert!(matches!(
        MarketSegment::new("  "),
        Err(MarketSegmentError::Empty)
    ));
    let long_segment = "A".repeat(MARKET_SEGMENT_MAX_LEN.saturating_add(1));
    assert!(matches!(
        MarketSegment::new(&long_segment),
        Err(MarketSegmentError::TooLong { max: 100 })
    ));
}

#[test]
fn listing_id_creation_and_conversions() {
    let original_uuid = uuid::Uuid::now_v7();
    let id = ListingId::from_bytes(*original_uuid.as_bytes());

    assert_eq!(id.value(), original_uuid.to_string());
    assert_eq!(id.as_bytes(), original_uuid.as_bytes());
    assert_ne!(ListingId::new(), ListingId::new());
}

#[test]
fn listing_role_round_trips() {
    assert!(ListingRole::default().is_primary());

    let primary_str: String = ListingRole::Primary.into();
    assert_eq!(primary_str, "PRIMARY");
    let secondary_str: String = ListingRole::Secondary.into();
    assert_eq!(secondary_str, "SECONDARY");

    assert!(matches!(
        ListingRole::from_str("secondary"),
        Ok(ListingRole::Secondary)
    ));
    assert!(matches!(
        ListingRole::from_str("TERTIARY"),
        Err(ListingRoleError::InvalidRole)
    ));
}

#[test]
fn listing_status_round_trips() {
    assert!(ListingStatus::default().is_active());

    for (status, canonical) in [
        (ListingStatus::Active, "ACTIVE"),
        (ListingStatus::Suspended, "SUSPENDED"),
        (ListingStatus::Delisted, "DELISTED"),
    ] {
        let as_string: String = status.into();
        assert_eq!(as_string, canonical);
        assert!(matches!(
            ListingStatus::from_str(canonical),
            Ok(parsed) if parsed == status
        ));
    }

    assert!(matches!(
        ListingStatus::from_str("HALTED"),
        Err(ListingStatusError::InvalidStatus)
    ));
}

#[test]
fn listing_builder_resolves_defaults() {
    let Some(vale3) = symbol("VALE3") else {
        return;
    };
    let listing_result = Listing::builder(SecurityId::new(), VenueId::new(), vale3).build();
    assert!(listing_result.is_ok());
    let Some(listing) = listing_result.ok() else {
        return;
    };

    assert_eq!(listing.symbol().as_str(), "VALE3");
    assert!(listing.role().is_primary());
    assert!(listing.status().is_active());
    assert!(listing.currency().is_none());
    assert!(listing.segment().is_none());
    assert!(listing.listed_on().is_none());
    assert!(listing.delisted_on().is_none());
    assert!(listing.created_at() <= now());
}

#[test]
fn builder_accepts_full_brazilian_listing() {
    let Some(vale3) = symbol("VALE3") else {
        return;
    };
    let currency_result = CurrencyCode::parse("BRL");
    assert!(currency_result.is_ok());
    let Some(brl) = currency_result.ok() else {
        return;
    };
    let segment_result = MarketSegment::new("Novo Mercado");
    assert!(segment_result.is_ok());
    let Some(novo_mercado) = segment_result.ok() else {
        return;
    };
    let Some(listed_on) = date(2008, 5, 12) else {
        return;
    };

    let listing_result = Listing::builder(SecurityId::new(), VenueId::new(), vale3)
        .role(ListingRole::Primary)
        .currency(brl)
        .segment(novo_mercado)
        .listed_on(listed_on)
        .build();
    assert!(listing_result.is_ok());
    let Some(listing) = listing_result.ok() else {
        return;
    };

    assert!(matches!(listing.currency(), Some(c) if c.as_str() == "BRL"));
    assert!(matches!(listing.segment(), Some(s) if s.as_str() == "Novo Mercado"));
    assert_eq!(listing.listed_on(), Some(listed_on));
}

#[test]
fn builder_rejects_delisted_date_without_delisted_status() {
    let Some(vale3) = symbol("VALE3") else {
        return;
    };
    let Some(delisted_on) = date(2020, 1, 2) else {
        return;
    };

    let result = Listing::builder(SecurityId::new(), VenueId::new(), vale3)
        .delisted_on(delisted_on)
        .build();

    assert!(
        matches!(
            result,
            Err(ListingBuilderError::DelistedDateRequiresDelistedStatus(status))
                if status == "ACTIVE"
        ),
        "A delisting date requires the DELISTED status"
    );
}

#[test]
fn builder_accepts_delisted_listing_with_dates_in_order() {
    let Some(vale3) = symbol("VALE3") else {
        return;
    };
    let Some(listed_on) = date(2008, 5, 12) else {
        return;
    };
    let Some(delisted_on) = date(2020, 1, 2) else {
        return;
    };

    let listing_result = Listing::builder(SecurityId::new(), VenueId::new(), vale3)
        .status(ListingStatus::Delisted)
        .listed_on(listed_on)
        .delisted_on(delisted_on)
        .build();

    assert!(listing_result.is_ok());
}

#[test]
fn builder_rejects_delisting_before_listing() {
    let Some(vale3) = symbol("VALE3") else {
        return;
    };
    let Some(listed_on) = date(2020, 1, 2) else {
        return;
    };
    let Some(delisted_on) = date(2008, 5, 12) else {
        return;
    };

    let result = Listing::builder(SecurityId::new(), VenueId::new(), vale3)
        .status(ListingStatus::Delisted)
        .listed_on(listed_on)
        .delisted_on(delisted_on)
        .build();

    assert!(matches!(
        result,
        Err(ListingBuilderError::DelistedBeforeListed { .. })
    ));
}

#[test]
fn listing_single_field_patch_only_sets_that_field() {
    let symbol_result = TickerSymbol::new("META");
    assert!(symbol_result.is_ok());
    let Some(symbol) = symbol_result.ok() else {
        return;
    };
    let patch = ListingPatch::builder().symbol(symbol.clone()).build();

    assert_eq!(patch.symbol(), Some(&symbol));
    assert!(patch.role().is_none());
    assert!(patch.status().is_none());
    assert!(patch.currency().is_none());
    assert!(patch.segment().is_none());
    assert!(patch.listed_on().is_none());
    assert!(patch.delisted_on().is_none());
}

#[test]
fn register_inserts_when_all_invariants_hold() {
    let securities = FixedSecurities { exists: true };
    let venues = FixedVenues { status: Some(VenueStatus::Active) };
    let listings = FixedListings::default();

    let Some(listing) = vale3_listing(ListingRole::Primary) else {
        return;
    };
    assert!(register_listing(&listings, &securities, &venues, &listing).is_ok());
    assert!(listings.inserted.get());
}

#[test]
fn register_rejects_unknown_security_before_insert() {
    let securities = FixedSecurities { exists: false };
    let venues = FixedVenues { status: None };
    let listings = FixedListings::default();

    let Some(listing) = vale3_listing(ListingRole::Primary) else {
        return;
    };
    assert!(matches!(
        register_listing(&listings, &securities, &venues, &listing),
        Err(RegisterListingError::UnknownSecurity)
    ));
    // insert must never be called for an unknown security.
    assert!(!listings.inserted.get());
}

#[test]
fn register_rejects_missing_venue_before_insert() {
    let securities = FixedSecurities { exists: true };
    let venues = FixedVenues { status: None };
    let listings = FixedListings::default();

    let Some(listing) = vale3_listing(ListingRole::Primary) else {
        return;
    };
    assert!(matches!(
        register_listing(&listings, &securities, &venues, &listing),
        Err(RegisterListingError::VenueNotActive)
    ));
    assert!(!listings.inserted.get());
}

#[test]
fn register_rejects_retired_venue_before_insert() {
    let securities = FixedSecurities { exists: true };
    let venues = FixedVenues { status: Some(VenueStatus::Retired) };
    let listings = FixedListings::default();

    let Some(listing) = vale3_listing(ListingRole::Primary) else {
        return;
    };
    assert!(matches!(
        register_listing(&listings, &securities, &venues, &listing),
        Err(RegisterListingError::VenueNotActive)
    ));
    assert!(!listings.inserted.get());
}

#[test]
fn register_rejects_taken_ticker_before_insert() {
    let securities = FixedSecurities { exists: true };
    let venues = FixedVenues { status: Some(VenueStatus::Active) };
    let listings = FixedListings { ticker_taken: true, ..FixedListings::default() };

    let Some(listing) = vale3_listing(ListingRole::Primary) else {
        return;
    };
    assert!(matches!(
        register_listing(&listings, &securities, &venues, &listing),
        Err(RegisterListingError::TickerAlreadyListed)
    ));
    // insert must never be called when the ticker is taken.
    assert!(!listings.inserted.get());
}

#[test]
fn register_rejects_security_already_listed_on_venue() {
    let securities = FixedSecurities { exists: true };
    let venues = FixedVenues { status: Some(VenueStatus::Active) };
    let listings = FixedListings { on_venue: true, ..FixedListings::default() };

    let Some(listing) = vale3_listing(ListingRole::Primary) else {
        return;
    };
    assert!(matches!(
        register_listing(&listings, &securities, &venues, &listing),
        Err(RegisterListingError::SecurityAlreadyListedOnVenue)
    ));
    assert!(!listings.inserted.get());
}

#[test]
fn register_rejects_second_active_primary_listing() {
    let securities = FixedSecurities { exists: true };
    let venues = FixedVenues { status: Some(VenueStatus::Active) };
    let listings = FixedListings { primary_exists: true, ..FixedListings::default() };

    let Some(listing) = vale3_listing(ListingRole::Primary) else {
        return;
    };
    assert!(matches!(
        register_listing(&listings, &securities, &venues, &listing),
        Err(RegisterListingError::PrimaryListingAlreadyExists)
    ));
    assert!(!listings.inserted.get());
}

#[test]
fn register_allows_secondary_listing_when_primary_exists() {
    let securities = FixedSecurities { exists: true };
    let venues = FixedVenues { status: Some(VenueStatus::Active) };
    let listings = FixedListings { primary_exists: true, ..FixedListings::default() };

    let Some(listing) = vale3_listing(ListingRole::Secondary) else {
        return;
    };
    assert!(register_listing(&listings, &securities, &venues, &listing).is_ok());
    // The primary-uniqueness check must not run for secondary listings.
    assert!(!listings.primary_asked.get());
    assert!(listings.inserted.get());
}
