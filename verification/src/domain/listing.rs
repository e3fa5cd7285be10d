//! Listing aggregate: a security admitted to trading on a venue under a
//! ticker symbol, such as `VALE3` on B3.
use vstd::prelude::*;
use core::marker::PhantomData;
use crate::common::{
    date_text, fresh_uuid_v7, now_instant, uuid_text, BuilderState, CalendarDate, Empty, NonEmpty,
    UniqueIdentifier, UtcInstant, Versioned, WriteOutcome,
};
use crate::domain::security::{SecurityId, SecurityRepository};
use crate::domain::venue::{VenueId, VenueRepository, VenueStatus};
use crate::storage::StorageFault;
use crate::text::{
    all_ascii_chars, unicode_uppercase, upper_all,
    ascii_upper, decimal, is_digit_char, is_upper_char, message_with_number, str_eq,
    string_from_chars, to_uppercase, trimmed, trimmed_chars, upper_char,
};

pub use crate::identifiers::{CurrencyCode, CurrencyCodeError};

verus! {

/// Longest ticker symbol accepted, in characters.
pub const TICKER_SYMBOL_MAX_LEN: usize = 12;

/// The characters a ticker symbol is made of once upper-cased: ASCII
/// letters and digits, `.` and `-` (as in `BRK.B` or `BF-B`).
pub open spec fn is_ticker_char(c: char) -> bool {
    is_upper_char(c) || is_digit_char(c) || c == '.' || c == '-'
}

/// A ticker symbol: trimmed, 1 to 12 characters, upper-cased.
#[derive(Clone, Eq, PartialEq, Hash, Debug)]
pub struct TickerSymbol(String);

#[derive(Debug, PartialEq, Eq, Structural)]
pub enum TickerSymbolError {
    Empty,
    TooLong { max: usize },
    InvalidCharacter,
}

impl TickerSymbol {
    /// The characters of the symbol.
    pub closed spec fn view(self) -> Seq<char> {
        self.0@
    }

    /// Trims surrounding whitespace, requires 1 to 12 characters, upper-cases
    /// the ASCII letters and then requires every character to be a ticker
    /// character.
    pub fn new(value: &str) -> (r: Result<Self, TickerSymbolError>)
        ensures
            trimmed(value@).len() == 0 ==> r == Err::<TickerSymbol, TickerSymbolError>(
                TickerSymbolError::Empty,
            ),
            trimmed(value@).len() > TICKER_SYMBOL_MAX_LEN ==> r == Err::<
                TickerSymbol,
                TickerSymbolError,
            >(TickerSymbolError::TooLong { max: TICKER_SYMBOL_MAX_LEN }),
            0 < trimmed(value@).len() <= TICKER_SYMBOL_MAX_LEN ==> {
                let u = upper_all(trimmed(value@));
                &&& (forall|i: int| 0 <= i < u.len() ==> #[trigger] is_ticker_char(u[i])) ==> (r matches Ok(
                    s,
                ) && s.view() == u)
                &&& !(forall|i: int| 0 <= i < u.len() ==> #[trigger] is_ticker_char(u[i])) ==> r
                    == Err::<TickerSymbol, TickerSymbolError>(TickerSymbolError::InvalidCharacter)
            },
    {
        let t = trimmed_chars(value);
        if t.len() == 0 {
            return Err(TickerSymbolError::Empty);
        }
        if t.len() > TICKER_SYMBOL_MAX_LEN {
            return Err(TickerSymbolError::TooLong { max: TICKER_SYMBOL_MAX_LEN });
        }
        let ghost u = upper_all(t@);
        let mut out: Vec<char> = Vec::new();
        let mut i: usize = 0;
        while i < t.len()
            invariant
                i <= t@.len(),
                t@ == trimmed(value@),
                0 < t@.len() <= TICKER_SYMBOL_MAX_LEN,
                u == upper_all(t@),
                out@.len() == i,
                forall|j: int| 0 <= j < i ==> out@[j] == u[j],
                forall|j: int| 0 <= j < i ==> #[trigger] is_ticker_char(u[j]),
            decreases t@.len() - i,
        {
            let c = upper_char(t[i]);
            assert(c == u[i as int]);
            if !(('A' <= c && c <= 'Z') || ('0' <= c && c <= '9') || c == '.' || c == '-') {
                assert(!is_ticker_char(u[i as int]));
                return Err(TickerSymbolError::InvalidCharacter);
            }
            out.push(c);
            i = i + 1;
        }
        assert(out@ =~= u);
        Ok(TickerSymbol(string_from_chars(&out)))
    }

    pub fn as_str(&self) -> (r: &str)
        ensures
            r@ == self.view(),
    {
        self.0.as_str()
    }
}

impl TickerSymbolError {
    /// The human-readable text of the error, as `Display` prints it.
    pub fn to_string(&self) -> (msg: String)
        ensures
            msg@ == match self {
                TickerSymbolError::Empty => "ticker symbol cannot be empty"@,
                TickerSymbolError::TooLong { max } => "ticker symbol exceeds maximum length of "@
                    + decimal(*max as nat) + " characters"@,
                TickerSymbolError::InvalidCharacter => "ticker symbol must contain only ASCII letters, digits, '.' or '-'"@,
            },
    {
        match self {
            TickerSymbolError::Empty => String::from_str("ticker symbol cannot be empty"),
            TickerSymbolError::TooLong { max } => message_with_number(
                "ticker symbol exceeds maximum length of ",
                *max as u64,
                " characters",
            ),
            TickerSymbolError::InvalidCharacter => String::from_str(
                "ticker symbol must contain only ASCII letters, digits, '.' or '-'",
            ),
        }
    }
}

/// Longest market segment accepted, in characters.
pub const MARKET_SEGMENT_MAX_LEN: usize = 100;

/// A market segment of a venue, such as `Novo Mercado`: trimmed, 1 to 100 characters.
#[derive(Clone, Eq, PartialEq, Hash, Debug)]
pub struct MarketSegment(String);

#[derive(Debug, PartialEq, Eq, Structural)]
pub enum MarketSegmentError {
    Empty,
    TooLong { max: usize },
}

impl MarketSegment {
    /// The characters of the segment.
    pub closed spec fn view(self) -> Seq<char> {
        self.0@
    }

    /// Trims surrounding whitespace, then requires between 1 and
    /// 100 characters.
    pub fn new(value: &str) -> (r: Result<Self, MarketSegmentError>)
        ensures
            trimmed(value@).len() == 0 ==> r == Err::<MarketSegment, MarketSegmentError>(MarketSegmentError::Empty),
            0 < trimmed(value@).len() <= MARKET_SEGMENT_MAX_LEN ==> (r matches Ok(n) && n.view() == trimmed(
                value@,
            )),
            trimmed(value@).len() > MARKET_SEGMENT_MAX_LEN ==> r == Err::<MarketSegment, MarketSegmentError>(
                MarketSegmentError::TooLong { max: MARKET_SEGMENT_MAX_LEN },
            ),
    {
        let t = trimmed_chars(value);
        if t.len() == 0 {
            return Err(MarketSegmentError::Empty);
        }
        if t.len() > MARKET_SEGMENT_MAX_LEN {
            return Err(MarketSegmentError::TooLong { max: MARKET_SEGMENT_MAX_LEN });
        }
        Ok(MarketSegment(string_from_chars(&t)))
    }

    pub fn as_str(&self) -> (r: &str)
        ensures
            r@ == self.view(),
    {
        self.0.as_str()
    }
}

impl MarketSegmentError {
    /// The human-readable text of the error, as `Display` prints it.
    pub fn to_string(&self) -> (msg: String)
        ensures
            msg@ == match self {
                MarketSegmentError::Empty => "market segment cannot be empty"@,
                MarketSegmentError::TooLong { max } => "market segment exceeds maximum length of "@ + decimal(
                    *max as nat,
                ) + " characters"@,
            },
    {
        match self {
            MarketSegmentError::Empty => String::from_str("market segment cannot be empty"),
            MarketSegmentError::TooLong { max } => message_with_number(
                "market segment exceeds maximum length of ",
                *max as u64,
                " characters",
            ),
        }
    }
}

/// Identity of a listing: a version 7 UUID, kept as its sixteen bytes.
#[derive(Copy, Clone, Eq, PartialEq, Hash, Debug)]
pub struct ListingId {
    bytes: [u8; 16],
}

impl ListingId {
    /// The sixteen bytes.
    pub closed spec fn view(self) -> Seq<u8> {
        self.bytes@
    }

    /// A fresh time-ordered identity.
    pub fn new() -> (r: Self)
        ensures
            r.view()[6] / 16 == 7,
            r.view()[8] / 64 == 2,
    {
        ListingId { bytes: fresh_uuid_v7() }
    }

    pub fn from_bytes(bytes: [u8; 16]) -> (r: Self)
        ensures
            r.view() == bytes@,
    {
        ListingId { bytes }
    }

    /// The hyphenated lower-case hexadecimal form.
    pub fn value(&self) -> (r: String)
        ensures
            r@ == uuid_text(self.view()),
    {
        UniqueIdentifier::from_bytes(self.bytes).value()
    }

    pub fn as_bytes(&self) -> (r: &[u8; 16])
        ensures
            r@ == self.view(),
    {
        &self.bytes
    }
}

impl Default for ListingId {
    fn default() -> (r: Self)
        ensures
            r.view()[6] / 16 == 7,
            r.view()[8] / 64 == 2,
    {
        ListingId::new()
    }
}

/// Whether a listing is the security's primary market or a secondary one.
#[derive(Debug, Clone, Copy, PartialEq, Eq, Hash, Structural)]
pub enum ListingRole {
    Primary,
    Secondary,
}

#[derive(Debug, PartialEq, Eq, Structural)]
pub enum ListingRoleError {
    InvalidRole,
}

impl ListingRole {
    pub fn is_primary(&self) -> (r: bool)
        ensures
            r == (*self == ListingRole::Primary),
    {
        matches!(self, ListingRole::Primary)
    }

    pub fn is_secondary(&self) -> (r: bool)
        ensures
            r == (*self == ListingRole::Secondary),
    {
        matches!(self, ListingRole::Secondary)
    }

    /// The upper-case text of the value, as the `String` conversion gives it.
    pub open spec fn text(self) -> Seq<char> {
        match self {
            ListingRole::Primary => "PRIMARY"@,
            ListingRole::Secondary => "SECONDARY"@,
        }
    }

    pub fn as_str(&self) -> (r: &'static str)
        ensures
            r@ == self.text(),
    {
        match self {
            ListingRole::Primary => "PRIMARY",
            ListingRole::Secondary => "SECONDARY",
        }
    }

    /// Which value an already upper-cased text names.
    pub open spec fn from_uppercase_spec(upper: Seq<char>) -> Result<ListingRole, ListingRoleError> {
        if upper == "PRIMARY"@ {
            Ok(ListingRole::Primary)
        } else if upper == "SECONDARY"@ {
            Ok(ListingRole::Secondary)
        } else {
            Err(ListingRoleError::InvalidRole)
        }
    }

    /// Reads the value from text that is already upper-cased.
    pub fn from_uppercase(upper: &str) -> (r: Result<ListingRole, ListingRoleError>)
        ensures
            r == ListingRole::from_uppercase_spec(upper@),
    {
        if str_eq(upper, "PRIMARY") {
            Ok(ListingRole::Primary)
        } else if str_eq(upper, "SECONDARY") {
            Ok(ListingRole::Secondary)
        } else {
            Err(ListingRoleError::InvalidRole)
        }
    }
}

impl Default for ListingRole {
    fn default() -> (r: Self)
        ensures
            r == ListingRole::Primary,
    {
        ListingRole::Primary
    }
}

impl ListingRole {
    /// Reads the value from text in any letter case, as `FromStr` does.
    pub fn from_text(s: &str) -> (r: Result<ListingRole, ListingRoleError>)
        ensures
            r == ListingRole::from_uppercase_spec(unicode_uppercase(s@)),
            all_ascii_chars(s@) ==> r == ListingRole::from_uppercase_spec(upper_all(s@)),
    {
        let upper = to_uppercase(s);
        Self::from_uppercase(upper.as_str())
    }
}

impl core::str::FromStr for ListingRole {
    type Err = ListingRoleError;

    fn from_str(s: &str) -> (r: Result<Self, Self::Err>)
        ensures
            r == ListingRole::from_uppercase_spec(unicode_uppercase(s@)),
            all_ascii_chars(s@) ==> r == ListingRole::from_uppercase_spec(upper_all(s@)),
    {
        ListingRole::from_text(s)
    }
}

/// Every value reads back from its own text: `ListingRole::from_text(v.as_str())`,
/// and so `from_str` of `String::from(v)`, gives `v`.
pub proof fn law_listing_role_text_round_trip(v: ListingRole)
    ensures
        all_ascii_chars(v.text()),
        ListingRole::from_uppercase_spec(upper_all(v.text())) == Ok::<ListingRole, ListingRoleError>(v),
{
    reveal_strlit("PRIMARY");
    reveal_strlit("SECONDARY");
    assert(upper_all(v.text()) =~= v.text());
}

impl From<ListingRole> for String {
    fn from(val: ListingRole) -> (r: String)
        ensures
            r@ == val.text(),
    {
        String::from_str(val.as_str())
    }
}

impl vstd::std_specs::convert::FromSpecImpl<ListingRole> for String {
    open spec fn obeys_from_spec() -> bool {
        false
    }

    open spec fn from_spec(v: ListingRole) -> String {
        choose|s: String| s@ == v.text()
    }
}

impl ListingRoleError {
    /// The human-readable text of the error, as `Display` prints it.
    pub fn to_string(&self) -> (msg: String)
        ensures
            msg@ == "Invalid role. Must be one of: [\"PRIMARY\", \"SECONDARY\"]"@,
    {
        String::from_str("Invalid role. Must be one of: [\"PRIMARY\", \"SECONDARY\"]")
    }
}

/// Trading status of a listing.
#[derive(Debug, Clone, Copy, PartialEq, Eq, Hash, Structural)]
pub enum ListingStatus {
    Active,
    Suspended,
    Delisted,
}

#[derive(Debug, PartialEq, Eq, Structural)]
pub enum ListingStatusError {
    InvalidStatus,
}

impl ListingStatus {
    pub fn is_active(&self) -> (r: bool)
        ensures
            r == (*self == ListingStatus::Active),
    {
        matches!(self, ListingStatus::Active)
    }

    pub fn is_suspended(&self) -> (r: bool)
        ensures
            r == (*self == ListingStatus::Suspended),
    {
        matches!(self, ListingStatus::Suspended)
    }

    pub fn is_delisted(&self) -> (r: bool)
        ensures
            r == (*self == ListingStatus::Delisted),
    {
        matches!(self, ListingStatus::Delisted)
    }

    /// The upper-case text of the value, as the `String` conversion gives it.
    pub open spec fn text(self) -> Seq<char> {
        match self {
            ListingStatus::Active => "ACTIVE"@,
            ListingStatus::Suspended => "SUSPENDED"@,
            ListingStatus::Delisted => "DELISTED"@,
        }
    }

    pub fn as_str(&self) -> (r: &'static str)
        ensures
            r@ == self.text(),
    {
        match self {
            ListingStatus::Active => "ACTIVE",
            ListingStatus::Suspended => "SUSPENDED",
            ListingStatus::Delisted => "DELISTED",
        }
    }

    /// Which value an already upper-cased text names.
    pub open spec fn from_uppercase_spec(upper: Seq<char>) -> Result<ListingStatus, ListingStatusError> {
        if upper == "ACTIVE"@ {
            Ok(ListingStatus::Active)
        } else if upper == "SUSPENDED"@ {
            Ok(ListingStatus::Suspended)
        } else if upper == "DELISTED"@ {
            Ok(ListingStatus::Delisted)
        } else {
            Err(ListingStatusError::InvalidStatus)
        }
    }

    /// Reads the value from text that is already upper-cased.
    pub fn from_uppercase(upper: &str) -> (r: Result<ListingStatus, ListingStatusError>)
        ensures
            r == ListingStatus::from_uppercase_spec(upper@),
    {
        if str_eq(upper, "ACTIVE") {
            Ok(ListingStatus::Active)
        } else if str_eq(upper, "SUSPENDED") {
            Ok(ListingStatus::Suspended)
        } else if str_eq(upper, "DELISTED") {
            Ok(ListingStatus::Delisted)
        } else {
            Err(ListingStatusError::InvalidStatus)
        }
    }
}

impl Default for ListingStatus {
    fn default() -> (r: Self)
        ensures
            r == ListingStatus::Active,
    {
        ListingStatus::Active
    }
}

impl ListingStatus {
    /// Reads the value from text in any letter case, as `FromStr` does.
    pub fn from_text(s: &str) -> (r: Result<ListingStatus, ListingStatusError>)
        ensures
            r == ListingStatus::from_uppercase_spec(unicode_uppercase(s@)),
            all_ascii_chars(s@) ==> r == ListingStatus::from_uppercase_spec(upper_all(s@)),
    {
        let upper = to_uppercase(s);
        Self::from_uppercase(upper.as_str())
    }
}

impl core::str::FromStr for ListingStatus {
    type Err = ListingStatusError;

    fn from_str(s: &str) -> (r: Result<Self, Self::Err>)
        ensures
            r == ListingStatus::from_uppercase_spec(unicode_uppercase(s@)),
            all_ascii_chars(s@) ==> r == ListingStatus::from_uppercase_spec(upper_all(s@)),
    {
        ListingStatus::from_text(s)
    }
}

/// Every value reads back from its own text: `ListingStatus::from_text(v.as_str())`,
/// and so `from_str` of `String::from(v)`, gives `v`.
pub proof fn law_listing_status_text_round_trip(v: ListingStatus)
    ensures
        all_ascii_chars(v.text()),
        ListingStatus::from_uppercase_spec(upper_all(v.text())) == Ok::<ListingStatus, ListingStatusError>(v),
{
    reveal_strlit("ACTIVE");
    reveal_strlit("SUSPENDED");
    reveal_strlit("DELISTED");
    assert(upper_all(v.text()) =~= v.text());
}

impl From<ListingStatus> for String {
    fn from(val: ListingStatus) -> (r: String)
        ensures
            r@ == val.text(),
    {
        String::from_str(val.as_str())
    }
}

impl vstd::std_specs::convert::FromSpecImpl<ListingStatus> for String {
    open spec fn obeys_from_spec() -> bool {
        false
    }

    open spec fn from_spec(v: ListingStatus) -> String {
        choose|s: String| s@ == v.text()
    }
}

impl ListingStatusError {
    /// The human-readable text of the error, as `Display` prints it.
    pub fn to_string(&self) -> (msg: String)
        ensures
            msg@ == "Invalid status. Must be one of: [\"ACTIVE\", \"SUSPENDED\", \"DELISTED\"]"@,
    {
        String::from_str("Invalid status. Must be one of: [\"ACTIVE\", \"SUSPENDED\", \"DELISTED\"]")
    }
}

/// A listing of a security on a venue.
#[derive(Debug)]
pub struct Listing {
    id: ListingId,
    security_id: SecurityId,
    venue_id: VenueId,
    symbol: TickerSymbol,
    role: ListingRole,
    status: ListingStatus,
    created_at: UtcInstant,
    currency: Option<CurrencyCode>,
    segment: Option<MarketSegment>,
    listed_on: Option<CalendarDate>,
    delisted_on: Option<CalendarDate>,
}

/// The stored fields of a listing, to rebuild it from storage.
#[derive(Debug)]
pub struct ListingSnapshot {
    pub id: ListingId,
    pub security_id: SecurityId,
    pub venue_id: VenueId,
    pub symbol: TickerSymbol,
    pub role: ListingRole,
    pub status: ListingStatus,
    pub created_at: UtcInstant,
    pub currency: Option<CurrencyCode>,
    pub segment: Option<MarketSegment>,
    pub listed_on: Option<CalendarDate>,
    pub delisted_on: Option<CalendarDate>,
}

impl Listing {
    pub closed spec fn id_spec(self) -> ListingId {
        self.id
    }

    pub closed spec fn security_id_spec(self) -> SecurityId {
        self.security_id
    }

    pub closed spec fn venue_id_spec(self) -> VenueId {
        self.venue_id
    }

    pub closed spec fn symbol_spec(self) -> TickerSymbol {
        self.symbol
    }

    pub closed spec fn role_spec(self) -> ListingRole {
        self.role
    }

    pub closed spec fn status_spec(self) -> ListingStatus {
        self.status
    }

    pub closed spec fn created_at_spec(self) -> UtcInstant {
        self.created_at
    }

    pub closed spec fn currency_spec(self) -> Option<CurrencyCode> {
        self.currency
    }

    pub closed spec fn segment_spec(self) -> Option<MarketSegment> {
        self.segment
    }

    pub closed spec fn listed_on_spec(self) -> Option<CalendarDate> {
        self.listed_on
    }

    pub closed spec fn delisted_on_spec(self) -> Option<CalendarDate> {
        self.delisted_on
    }

    pub fn builder(security_id: SecurityId, venue_id: VenueId, symbol: TickerSymbol) -> (r: ListingBuilder)
        ensures
            r == ListingBuilder::new_spec(security_id, venue_id, symbol),
    {
        ListingBuilder::new(security_id, venue_id, symbol)
    }

    pub fn id(&self) -> (r: &ListingId)
        ensures
            *r == self.id_spec(),
    {
        &self.id
    }

    pub fn security_id(&self) -> (r: &SecurityId)
        ensures
            *r == self.security_id_spec(),
    {
        &self.security_id
    }

    pub fn venue_id(&self) -> (r: &VenueId)
        ensures
            *r == self.venue_id_spec(),
    {
        &self.venue_id
    }

    pub fn symbol(&self) -> (r: &TickerSymbol)
        ensures
            *r == self.symbol_spec(),
    {
        &self.symbol
    }

    pub fn role(&self) -> (r: ListingRole)
        ensures
            r == self.role_spec(),
    {
        self.role
    }

    pub fn status(&self) -> (r: ListingStatus)
        ensures
            r == self.status_spec(),
    {
        self.status
    }

    /// When the listing was created.
    pub fn created_at(&self) -> (r: UtcInstant)
        ensures
            r == self.created_at_spec(),
    {
        self.created_at
    }

    pub fn currency(&self) -> (r: Option<&CurrencyCode>)
        ensures
            r is None <==> self.currency_spec() is None,
            r matches Some(v) ==> self.currency_spec() == Some(*v),
    {
        match &self.currency {
            Some(v) => Some(v),
            None => None,
        }
    }

    pub fn segment(&self) -> (r: Option<&MarketSegment>)
        ensures
            r is None <==> self.segment_spec() is None,
            r matches Some(v) ==> self.segment_spec() == Some(*v),
    {
        match &self.segment {
            Some(v) => Some(v),
            None => None,
        }
    }

    pub fn listed_on(&self) -> (r: Option<CalendarDate>)
        ensures
            r == self.listed_on_spec(),
    {
        self.listed_on
    }

    pub fn delisted_on(&self) -> (r: Option<CalendarDate>)
        ensures
            r == self.delisted_on_spec(),
    {
        self.delisted_on
    }

    /// A listing as it was stored.
    pub fn reconstitute(snapshot: ListingSnapshot) -> (r: Listing)
        ensures
            r.id_spec() == snapshot.id,
            r.security_id_spec() == snapshot.security_id,
            r.venue_id_spec() == snapshot.venue_id,
            r.symbol_spec() == snapshot.symbol,
            r.role_spec() == snapshot.role,
            r.status_spec() == snapshot.status,
            r.created_at_spec() == snapshot.created_at,
            r.currency_spec() == snapshot.currency,
            r.segment_spec() == snapshot.segment,
            r.listed_on_spec() == snapshot.listed_on,
            r.delisted_on_spec() == snapshot.delisted_on,
    {
        Listing {
            id: snapshot.id,
            security_id: snapshot.security_id,
            venue_id: snapshot.venue_id,
            symbol: snapshot.symbol,
            role: snapshot.role,
            status: snapshot.status,
            created_at: snapshot.created_at,
            currency: snapshot.currency,
            segment: snapshot.segment,
            listed_on: snapshot.listed_on,
            delisted_on: snapshot.delisted_on,
        }
    }
}

/// Assembles a listing of a security on a venue under a symbol.
pub struct ListingBuilder {
    security_id: SecurityId,
    venue_id: VenueId,
    symbol: TickerSymbol,
    id: Option<ListingId>,
    role: Option<ListingRole>,
    status: Option<ListingStatus>,
    created_at: Option<UtcInstant>,
    currency: Option<CurrencyCode>,
    segment: Option<MarketSegment>,
    listed_on: Option<CalendarDate>,
    delisted_on: Option<CalendarDate>,
}

#[derive(Debug)]
pub enum ListingBuilderError {
    DelistedDateRequiresDelistedStatus(String),
    DelistedBeforeListed { listed_on: CalendarDate, delisted_on: CalendarDate },
}

impl ListingBuilderError {
    /// The human-readable text of the error, as `Display` prints it.
    pub fn to_string(&self) -> (r: String)
        ensures
            self matches ListingBuilderError::DelistedDateRequiresDelistedStatus(s) ==> r@
                == "A delisting date requires the DELISTED status. Found: "@ + s@,
            self matches ListingBuilderError::DelistedBeforeListed { listed_on, delisted_on } ==> r@
                == "delisting date "@ + date_text(
                delisted_on.year_spec(),
                delisted_on.month_spec(),
                delisted_on.day_spec(),
            ) + " precedes listing date "@ + date_text(
                listed_on.year_spec(),
                listed_on.month_spec(),
                listed_on.day_spec(),
            ),
    {
        match self {
            ListingBuilderError::DelistedDateRequiresDelistedStatus(s) => {
                let mut out = String::from_str("A delisting date requires the DELISTED status. Found: ");
                out.append(s.as_str());
                out
            },
            ListingBuilderError::DelistedBeforeListed { listed_on, delisted_on } => {
                let mut out = String::from_str("delisting date ");
                let d = delisted_on.to_string();
                out.append(d.as_str());
                out.append(" precedes listing date ");
                let l = listed_on.to_string();
                out.append(l.as_str());
                out
            },
        }
    }
}

impl ListingBuilder {
    pub closed spec fn new_spec(security_id: SecurityId, venue_id: VenueId, symbol: TickerSymbol) -> ListingBuilder {
        ListingBuilder {
            security_id,
            venue_id,
            symbol,
            id: None,
            role: None,
            status: None,
            created_at: None,
            currency: None,
            segment: None,
            listed_on: None,
            delisted_on: None,
        }
    }

    pub closed spec fn security_id_spec(self) -> SecurityId {
        self.security_id
    }

    pub closed spec fn venue_id_spec(self) -> VenueId {
        self.venue_id
    }

    pub closed spec fn symbol_spec(self) -> TickerSymbol {
        self.symbol
    }

    pub closed spec fn id_spec(self) -> Option<ListingId> {
        self.id
    }

    pub closed spec fn role_spec(self) -> Option<ListingRole> {
        self.role
    }

    pub closed spec fn status_spec(self) -> Option<ListingStatus> {
        self.status
    }

    pub closed spec fn created_at_spec(self) -> Option<UtcInstant> {
        self.created_at
    }

    pub closed spec fn currency_spec(self) -> Option<CurrencyCode> {
        self.currency
    }

    pub closed spec fn segment_spec(self) -> Option<MarketSegment> {
        self.segment
    }

    pub closed spec fn listed_on_spec(self) -> Option<CalendarDate> {
        self.listed_on
    }

    pub closed spec fn delisted_on_spec(self) -> Option<CalendarDate> {
        self.delisted_on
    }

    /// The status the listing gets: the one set, else `Active`.
    pub open spec fn effective_status(self) -> ListingStatus {
        match self.status_spec() {
            Some(s) => s,
            None => ListingStatus::Active,
        }
    }

    pub fn new(security_id: SecurityId, venue_id: VenueId, symbol: TickerSymbol) -> (r: Self)
        ensures
            r == ListingBuilder::new_spec(security_id, venue_id, symbol),
    {
        ListingBuilder {
            security_id,
            venue_id,
            symbol,
            id: None,
            role: None,
            status: None,
            created_at: None,
            currency: None,
            segment: None,
            listed_on: None,
            delisted_on: None,
        }
    }

    pub fn id(self, id: ListingId) -> (r: Self)
        ensures
            r.id_spec() == Some(id),
            r.security_id_spec() == self.security_id_spec(),
            r.venue_id_spec() == self.venue_id_spec(),
            r.symbol_spec() == self.symbol_spec(),
            r.role_spec() == self.role_spec(),
            r.status_spec() == self.status_spec(),
            r.created_at_spec() == self.created_at_spec(),
            r.currency_spec() == self.currency_spec(),
            r.segment_spec() == self.segment_spec(),
            r.listed_on_spec() == self.listed_on_spec(),
            r.delisted_on_spec() == self.delisted_on_spec(),
    {
        ListingBuilder { id: Some(id), ..self }
    }

    pub fn role(self, role: ListingRole) -> (r: Self)
        ensures
            r.role_spec() == Some(role),
            r.security_id_spec() == self.security_id_spec(),
            r.venue_id_spec() == self.venue_id_spec(),
            r.symbol_spec() == self.symbol_spec(),
            r.id_spec() == self.id_spec(),
            r.status_spec() == self.status_spec(),
            r.created_at_spec() == self.created_at_spec(),
            r.currency_spec() == self.currency_spec(),
            r.segment_spec() == self.segment_spec(),
            r.listed_on_spec() == self.listed_on_spec(),
            r.delisted_on_spec() == self.delisted_on_spec(),
    {
        ListingBuilder { role: Some(role), ..self }
    }

    pub fn status(self, status: ListingStatus) -> (r: Self)
        ensures
            r.status_spec() == Some(status),
            r.security_id_spec() == self.security_id_spec(),
            r.venue_id_spec() == self.venue_id_spec(),
            r.symbol_spec() == self.symbol_spec(),
            r.id_spec() == self.id_spec(),
            r.role_spec() == self.role_spec(),
            r.created_at_spec() == self.created_at_spec(),
            r.currency_spec() == self.currency_spec(),
            r.segment_spec() == self.segment_spec(),
            r.listed_on_spec() == self.listed_on_spec(),
            r.delisted_on_spec() == self.delisted_on_spec(),
    {
        ListingBuilder { status: Some(status), ..self }
    }

    /// Sets the creation time.
    pub fn created_at(self, created_at: UtcInstant) -> (r: Self)
        ensures
            r.created_at_spec() == Some(created_at),
            r.security_id_spec() == self.security_id_spec(),
            r.venue_id_spec() == self.venue_id_spec(),
            r.symbol_spec() == self.symbol_spec(),
            r.id_spec() == self.id_spec(),
            r.role_spec() == self.role_spec(),
            r.status_spec() == self.status_spec(),
            r.currency_spec() == self.currency_spec(),
            r.segment_spec() == self.segment_spec(),
            r.listed_on_spec() == self.listed_on_spec(),
            r.delisted_on_spec() == self.delisted_on_spec(),
    {
        ListingBuilder { created_at: Some(created_at), ..self }
    }

    pub fn currency(self, currency: CurrencyCode) -> (r: Self)
        ensures
            r.currency_spec() == Some(currency),
            r.security_id_spec() == self.security_id_spec(),
            r.venue_id_spec() == self.venue_id_spec(),
            r.symbol_spec() == self.symbol_spec(),
            r.id_spec() == self.id_spec(),
            r.role_spec() == self.role_spec(),
            r.status_spec() == self.status_spec(),
            r.created_at_spec() == self.created_at_spec(),
            r.segment_spec() == self.segment_spec(),
            r.listed_on_spec() == self.listed_on_spec(),
            r.delisted_on_spec() == self.delisted_on_spec(),
    {
        ListingBuilder { currency: Some(currency), ..self }
    }

    pub fn segment(self, segment: MarketSegment) -> (r: Self)
        ensures
            r.segment_spec() == Some(segment),
            r.security_id_spec() == self.security_id_spec(),
            r.venue_id_spec() == self.venue_id_spec(),
            r.symbol_spec() == self.symbol_spec(),
            r.id_spec() == self.id_spec(),
            r.role_spec() == self.role_spec(),
            r.status_spec() == self.status_spec(),
            r.created_at_spec() == self.created_at_spec(),
            r.currency_spec() == self.currency_spec(),
            r.listed_on_spec() == self.listed_on_spec(),
            r.delisted_on_spec() == self.delisted_on_spec(),
    {
        ListingBuilder { segment: Some(segment), ..self }
    }

    pub fn listed_on(self, listed_on: CalendarDate) -> (r: Self)
        ensures
            r.listed_on_spec() == Some(listed_on),
            r.security_id_spec() == self.security_id_spec(),
            r.venue_id_spec() == self.venue_id_spec(),
            r.symbol_spec() == self.symbol_spec(),
            r.id_spec() == self.id_spec(),
            r.role_spec() == self.role_spec(),
            r.status_spec() == self.status_spec(),
            r.created_at_spec() == self.created_at_spec(),
            r.currency_spec() == self.currency_spec(),
            r.segment_spec() == self.segment_spec(),
            r.delisted_on_spec() == self.delisted_on_spec(),
    {
        ListingBuilder { listed_on: Some(listed_on), ..self }
    }

    pub fn delisted_on(self, delisted_on: CalendarDate) -> (r: Self)
        ensures
            r.delisted_on_spec() == Some(delisted_on),
            r.security_id_spec() == self.security_id_spec(),
            r.venue_id_spec() == self.venue_id_spec(),
            r.symbol_spec() == self.symbol_spec(),
            r.id_spec() == self.id_spec(),
            r.role_spec() == self.role_spec(),
            r.status_spec() == self.status_spec(),
            r.created_at_spec() == self.created_at_spec(),
            r.currency_spec() == self.currency_spec(),
            r.segment_spec() == self.segment_spec(),
            r.listed_on_spec() == self.listed_on_spec(),
    {
        ListingBuilder { delisted_on: Some(delisted_on), ..self }
    }

    /// The listing, after the cross-field rules: a delisting date requires
    /// the `Delisted` status (a delisted listing may lack the date), and a
    /// delisting date never precedes the listing date. Unset fields default
    /// to a fresh id, `Primary`, `Active` and the current time.
    pub fn build(self) -> (r: Result<Listing, ListingBuilderError>)
        ensures
            self.delisted_on_spec() is Some && !(self.effective_status() is Delisted) ==> (r matches Err(
                ListingBuilderError::DelistedDateRequiresDelistedStatus(s),
            ) && s@ == self.effective_status().text()),
            self.delisted_on_spec() is Some && self.effective_status() is Delisted ==> (
            (self.listed_on_spec() matches Some(l) && self.delisted_on_spec()->Some_0.before(l))
                <==> r is Err),
            r matches Err(ListingBuilderError::DelistedBeforeListed { listed_on, delisted_on }) ==> (
            self.listed_on_spec() == Some(listed_on) && self.delisted_on_spec() == Some(delisted_on)),
            self.delisted_on_spec() matches Some(d) ==> (self.listed_on_spec() matches Some(l) ==> (
            self.effective_status() is Delisted && d.before(l) ==> r == Err::<
                Listing,
                ListingBuilderError,
            >(ListingBuilderError::DelistedBeforeListed { listed_on: l, delisted_on: d }))),
            self.delisted_on_spec() is None ==> r is Ok,
            r matches Ok(x) ==> {
                &&& self.id_spec() matches Some(id) ==> x.id_spec() == id
                &&& x.security_id_spec() == self.security_id_spec()
                &&& x.venue_id_spec() == self.venue_id_spec()
                &&& x.symbol_spec() == self.symbol_spec()
                &&& x.role_spec() == (match self.role_spec() {
                    Some(role) => role,
                    None => ListingRole::Primary,
                })
                &&& x.status_spec() == self.effective_status()
                &&& self.created_at_spec() matches Some(t) ==> x.created_at_spec() == t
                &&& x.currency_spec() == self.currency_spec()
                &&& x.segment_spec() == self.segment_spec()
                &&& x.listed_on_spec() == self.listed_on_spec()
                &&& x.delisted_on_spec() == self.delisted_on_spec()
                &&& x.delisted_on_spec() is Some ==> x.status_spec() is Delisted
                &&& x.listed_on_spec() matches Some(l) ==> (x.delisted_on_spec() matches Some(d)
                    ==> !d.before(l))
            },
    {
        let id = match self.id {
            Some(id) => id,
            None => ListingId::new(),
        };
        let role = match self.role {
            Some(role) => role,
            None => ListingRole::Primary,
        };
        let status = match self.status {
            Some(s) => s,
            None => ListingStatus::Active,
        };
        let created_at = match self.created_at {
            Some(t) => t,
            None => now_instant(),
        };
        if self.delisted_on.is_some() && !status.is_delisted() {
            return Err(
                ListingBuilderError::DelistedDateRequiresDelistedStatus(
                    String::from_str(status.as_str()),
                ),
            );
        }
        if let Some(listed_on) = self.listed_on {
            if let Some(delisted_on) = self.delisted_on {
                if delisted_on.is_before(&listed_on) {
                    return Err(ListingBuilderError::DelistedBeforeListed { listed_on, delisted_on });
                }
            }
        }
        Ok(
            Listing {
                id,
                security_id: self.security_id,
                venue_id: self.venue_id,
                symbol: self.symbol,
                role,
                status,
                created_at,
                currency: self.currency,
                segment: self.segment,
                listed_on: self.listed_on,
                delisted_on: self.delisted_on,
            },
        )
    }
}

/// Partial update of a listing: the fields that are set replace the stored ones.
#[derive(Debug, Clone)]
pub struct ListingPatch {
    symbol: Option<TickerSymbol>,
    role: Option<ListingRole>,
    status: Option<ListingStatus>,
    currency: Option<CurrencyCode>,
    segment: Option<MarketSegment>,
    listed_on: Option<CalendarDate>,
    delisted_on: Option<CalendarDate>,
}

impl ListingPatch {
    /// Whether the patch sets at least one field.
    pub open spec fn any_field_set(self) -> bool {
        ||| self.symbol_spec() is Some
        ||| self.role_spec() is Some
        ||| self.status_spec() is Some
        ||| self.currency_spec() is Some
        ||| self.segment_spec() is Some
        ||| self.listed_on_spec() is Some
        ||| self.delisted_on_spec() is Some
    }

    /// A builder with no field set yet.
    pub fn builder() -> (r: ListingPatchBuilder<Empty>)
        ensures
            !r.pending().any_field_set(),
    {
        ListingPatchBuilder::new()
    }

    fn empty() -> (r: Self)
        ensures
            !r.any_field_set(),
    {
        ListingPatch {
            symbol: None,
            role: None,
            status: None,
            currency: None,
            segment: None,
            listed_on: None,
            delisted_on: None,
        }
    }

    pub closed spec fn symbol_spec(self) -> Option<TickerSymbol> {
        self.symbol
    }

    pub closed spec fn role_spec(self) -> Option<ListingRole> {
        self.role
    }

    pub closed spec fn status_spec(self) -> Option<ListingStatus> {
        self.status
    }

    pub closed spec fn currency_spec(self) -> Option<CurrencyCode> {
        self.currency
    }

    pub closed spec fn segment_spec(self) -> Option<MarketSegment> {
        self.segment
    }

    pub closed spec fn listed_on_spec(self) -> Option<CalendarDate> {
        self.listed_on
    }

    pub closed spec fn delisted_on_spec(self) -> Option<CalendarDate> {
        self.delisted_on
    }

    pub fn symbol(&self) -> (r: Option<&TickerSymbol>)
        ensures
            r is None <==> self.symbol_spec() is None,
            r matches Some(v) ==> self.symbol_spec() == Some(*v),
    {
        match &self.symbol {
            Some(v) => Some(v),
            None => None,
        }
    }

    pub fn role(&self) -> (r: Option<ListingRole>)
        ensures
            r == self.role_spec(),
    {
        self.role
    }

    pub fn status(&self) -> (r: Option<ListingStatus>)
        ensures
            r == self.status_spec(),
    {
        self.status
    }

    pub fn currency(&self) -> (r: Option<&CurrencyCode>)
        ensures
            r is None <==> self.currency_spec() is None,
            r matches Some(v) ==> self.currency_spec() == Some(*v),
    {
        match &self.currency {
            Some(v) => Some(v),
            None => None,
        }
    }

    pub fn segment(&self) -> (r: Option<&MarketSegment>)
        ensures
            r is None <==> self.segment_spec() is None,
            r matches Some(v) ==> self.segment_spec() == Some(*v),
    {
        match &self.segment {
            Some(v) => Some(v),
            None => None,
        }
    }

    pub fn listed_on(&self) -> (r: Option<CalendarDate>)
        ensures
            r == self.listed_on_spec(),
    {
        self.listed_on
    }

    pub fn delisted_on(&self) -> (r: Option<CalendarDate>)
        ensures
            r == self.delisted_on_spec(),
    {
        self.delisted_on
    }
}

/// Builds a patch; `build` is only available once a field has been set.
pub struct ListingPatchBuilder<State: BuilderState> {
    inner: ListingPatch,
    _state: PhantomData<State>,
}

impl<State: BuilderState> ListingPatchBuilder<State> {
    /// A builder in a state that promises a set field has one.
    #[verifier::type_invariant]
    spec fn set_field_when_promised(self) -> bool {
        State::has_set_field() ==> self.inner.any_field_set()
    }

    /// The patch assembled so far.
    pub closed spec fn pending(self) -> ListingPatch {
        self.inner
    }
}

impl ListingPatchBuilder<Empty> {
    fn new() -> (r: Self)
        ensures
            !r.pending().any_field_set(),
    {
        ListingPatchBuilder { inner: ListingPatch::empty(), _state: PhantomData }
    }
}

impl<State: BuilderState> ListingPatchBuilder<State> {
    pub fn symbol(self, symbol: TickerSymbol) -> (r: ListingPatchBuilder<NonEmpty>)
        ensures
            r.pending().symbol_spec() == Some(symbol),
            r.pending().role_spec() == self.pending().role_spec(),
            r.pending().status_spec() == self.pending().status_spec(),
            r.pending().currency_spec() == self.pending().currency_spec(),
            r.pending().segment_spec() == self.pending().segment_spec(),
            r.pending().listed_on_spec() == self.pending().listed_on_spec(),
            r.pending().delisted_on_spec() == self.pending().delisted_on_spec(),
    {
        ListingPatchBuilder {
            inner: ListingPatch {
                symbol: Some(symbol),
                role: self.inner.role,
                status: self.inner.status,
                currency: self.inner.currency,
                segment: self.inner.segment,
                listed_on: self.inner.listed_on,
                delisted_on: self.inner.delisted_on,
            },
            _state: PhantomData,
        }
    }

    pub fn role(self, role: ListingRole) -> (r: ListingPatchBuilder<NonEmpty>)
        ensures
            r.pending().role_spec() == Some(role),
            r.pending().symbol_spec() == self.pending().symbol_spec(),
            r.pending().status_spec() == self.pending().status_spec(),
            r.pending().currency_spec() == self.pending().currency_spec(),
            r.pending().segment_spec() == self.pending().segment_spec(),
            r.pending().listed_on_spec() == self.pending().listed_on_spec(),
            r.pending().delisted_on_spec() == self.pending().delisted_on_spec(),
    {
        ListingPatchBuilder {
            inner: ListingPatch {
                symbol: self.inner.symbol,
                role: Some(role),
                status: self.inner.status,
                currency: self.inner.currency,
                segment: self.inner.segment,
                listed_on: self.inner.listed_on,
                delisted_on: self.inner.delisted_on,
            },
            _state: PhantomData,
        }
    }

    pub fn status(self, status: ListingStatus) -> (r: ListingPatchBuilder<NonEmpty>)
        ensures
            r.pending().status_spec() == Some(status),
            r.pending().symbol_spec() == self.pending().symbol_spec(),
            r.pending().role_spec() == self.pending().role_spec(),
            r.pending().currency_spec() == self.pending().currency_spec(),
            r.pending().segment_spec() == self.pending().segment_spec(),
            r.pending().listed_on_spec() == self.pending().listed_on_spec(),
            r.pending().delisted_on_spec() == self.pending().delisted_on_spec(),
    {
        ListingPatchBuilder {
            inner: ListingPatch {
                symbol: self.inner.symbol,
                role: self.inner.role,
                status: Some(status),
                currency: self.inner.currency,
                segment: self.inner.segment,
                listed_on: self.inner.listed_on,
                delisted_on: self.inner.delisted_on,
            },
            _state: PhantomData,
        }
    }

    pub fn currency(self, currency: CurrencyCode) -> (r: ListingPatchBuilder<NonEmpty>)
        ensures
            r.pending().currency_spec() == Some(currency),
            r.pending().symbol_spec() == self.pending().symbol_spec(),
            r.pending().role_spec() == self.pending().role_spec(),
            r.pending().status_spec() == self.pending().status_spec(),
            r.pending().segment_spec() == self.pending().segment_spec(),
            r.pending().listed_on_spec() == self.pending().listed_on_spec(),
            r.pending().delisted_on_spec() == self.pending().delisted_on_spec(),
    {
        ListingPatchBuilder {
            inner: ListingPatch {
                symbol: self.inner.symbol,
                role: self.inner.role,
                status: self.inner.status,
                currency: Some(currency),
                segment: self.inner.segment,
                listed_on: self.inner.listed_on,
                delisted_on: self.inner.delisted_on,
            },
            _state: PhantomData,
        }
    }

    pub fn segment(self, segment: MarketSegment) -> (r: ListingPatchBuilder<NonEmpty>)
        ensures
            r.pending().segment_spec() == Some(segment),
            r.pending().symbol_spec() == self.pending().symbol_spec(),
            r.pending().role_spec() == self.pending().role_spec(),
            r.pending().status_spec() == self.pending().status_spec(),
            r.pending().currency_spec() == self.pending().currency_spec(),
            r.pending().listed_on_spec() == self.pending().listed_on_spec(),
            r.pending().delisted_on_spec() == self.pending().delisted_on_spec(),
    {
        ListingPatchBuilder {
            inner: ListingPatch {
                symbol: self.inner.symbol,
                role: self.inner.role,
                status: self.inner.status,
                currency: self.inner.currency,
                segment: Some(segment),
                listed_on: self.inner.listed_on,
                delisted_on: self.inner.delisted_on,
            },
            _state: PhantomData,
        }
    }

    pub fn listed_on(self, listed_on: CalendarDate) -> (r: ListingPatchBuilder<NonEmpty>)
        ensures
            r.pending().listed_on_spec() == Some(listed_on),
            r.pending().symbol_spec() == self.pending().symbol_spec(),
            r.pending().role_spec() == self.pending().role_spec(),
            r.pending().status_spec() == self.pending().status_spec(),
            r.pending().currency_spec() == self.pending().currency_spec(),
            r.pending().segment_spec() == self.pending().segment_spec(),
            r.pending().delisted_on_spec() == self.pending().delisted_on_spec(),
    {
        ListingPatchBuilder {
            inner: ListingPatch {
                symbol: self.inner.symbol,
                role: self.inner.role,
                status: self.inner.status,
                currency: self.inner.currency,
                segment: self.inner.segment,
                listed_on: Some(listed_on),
                delisted_on: self.inner.delisted_on,
            },
            _state: PhantomData,
        }
    }

    pub fn delisted_on(self, delisted_on: CalendarDate) -> (r: ListingPatchBuilder<NonEmpty>)
        ensures
            r.pending().delisted_on_spec() == Some(delisted_on),
            r.pending().symbol_spec() == self.pending().symbol_spec(),
            r.pending().role_spec() == self.pending().role_spec(),
            r.pending().status_spec() == self.pending().status_spec(),
            r.pending().currency_spec() == self.pending().currency_spec(),
            r.pending().segment_spec() == self.pending().segment_spec(),
            r.pending().listed_on_spec() == self.pending().listed_on_spec(),
    {
        ListingPatchBuilder {
            inner: ListingPatch {
                symbol: self.inner.symbol,
                role: self.inner.role,
                status: self.inner.status,
                currency: self.inner.currency,
                segment: self.inner.segment,
                listed_on: self.inner.listed_on,
                delisted_on: Some(delisted_on),
            },
            _state: PhantomData,
        }
    }
}

impl ListingPatchBuilder<NonEmpty> {
    pub fn build(self) -> (r: ListingPatch)
        ensures
            r == self.pending(),
            r.any_field_set(),
    {
        proof {
            use_type_invariant(&self);
        }
        self.inner
    }
}

/// Storage of listings, implemented by a persistence backend. The answers to
/// the existence queries are tied to views of the stored active listings,
/// which the market rules are stated over. Only active listings count:
/// delisted tickers may be reused. Each call that the services make gives
/// the store's answer to it, named by a spec function of the same arguments.
pub trait ListingRepository {
    /// Whether an active listing uses this ticker on this venue.
    spec fn stores_active_ticker(&self, venue_id: VenueId, symbol: TickerSymbol) -> bool;

    /// Whether the security has an active listing on this venue.
    spec fn stores_active_on_venue(&self, security_id: SecurityId, venue_id: VenueId) -> bool;

    /// Whether the security has an active primary listing on any venue.
    spec fn stores_active_primary(&self, security_id: SecurityId) -> bool;

    /// The store's answer to asking whether a ticker is in active use on a venue.
    spec fn exists_active_by_venue_and_symbol_answer(&self, venue_id: VenueId, symbol: TickerSymbol) -> Result<
        bool,
        StorageFault,
    >;

    /// The store's answer to asking whether a security is actively listed on a venue.
    spec fn exists_active_for_security_on_venue_answer(&self, security_id: SecurityId, venue_id: VenueId) -> Result<
        bool,
        StorageFault,
    >;

    /// The store's answer to asking whether a security has an active primary listing.
    spec fn exists_active_primary_for_security_answer(&self, security_id: SecurityId) -> Result<bool, StorageFault>;

    /// The store's answer to inserting a listing.
    spec fn insert_answer(&self, listing: Listing) -> Result<(), StorageFault>;

    fn find_by_id(&self, id: &ListingId) -> Result<Option<Versioned<Listing>>, StorageFault>;

    /// The active listing of a ticker on a venue, such as `VALE3` on B3.
    fn find_active_by_venue_and_symbol(&self, venue_id: &VenueId, symbol: &TickerSymbol) -> Result<Option<Versioned<Listing>>, StorageFault>;

    fn list_all(&self) -> Result<Vec<Versioned<Listing>>, StorageFault>;

    fn list_by_security(&self, security_id: &SecurityId) -> Result<Vec<Versioned<Listing>>, StorageFault>;

    fn list_by_venue(&self, venue_id: &VenueId) -> Result<Vec<Versioned<Listing>>, StorageFault>;

    fn list_paged(&self, after: Option<ListingId>, limit: u32) -> Result<Vec<Versioned<Listing>>, StorageFault>;

    fn exists_by_id(&self, id: &ListingId) -> Result<bool, StorageFault>;

    fn exists_active_by_venue_and_symbol(&self, venue_id: &VenueId, symbol: &TickerSymbol) -> (r: Result<bool, StorageFault>)
        ensures
            r == self.exists_active_by_venue_and_symbol_answer(*venue_id, *symbol),
            r matches Ok(b) ==> b == self.stores_active_ticker(*venue_id, *symbol),
    ;

    fn exists_active_for_security_on_venue(&self, security_id: &SecurityId, venue_id: &VenueId) -> (r: Result<bool, StorageFault>)
        ensures
            r == self.exists_active_for_security_on_venue_answer(*security_id, *venue_id),
            r matches Ok(b) ==> b == self.stores_active_on_venue(*security_id, *venue_id),
    ;

    fn exists_active_primary_for_security(&self, security_id: &SecurityId) -> (r: Result<bool, StorageFault>)
        ensures
            r == self.exists_active_primary_for_security_answer(*security_id),
            r matches Ok(b) ==> b == self.stores_active_primary(*security_id),
    ;

    fn insert(&self, listing: &Listing) -> (r: Result<(), StorageFault>)
        ensures
            r == self.insert_answer(*listing),
    ;

    fn apply_patch(&self, id: &ListingId, expected_version: u32, patch: ListingPatch) -> Result<WriteOutcome, StorageFault>;

    fn update(&self, listing: &Listing, expected_version: u32) -> Result<WriteOutcome, StorageFault>;

    fn delete(&self, id: &ListingId, expected_version: u32) -> Result<WriteOutcome, StorageFault>;
}

#[derive(Debug)]
pub enum RegisterListingError {
    UnknownSecurity,
    VenueNotActive,
    TickerAlreadyListed,
    SecurityAlreadyListedOnVenue,
    PrimaryListingAlreadyExists,
    Storage(StorageFault),
}

impl From<StorageFault> for RegisterListingError {
    fn from(f: StorageFault) -> (r: RegisterListingError) {
        RegisterListingError::Storage(f)
    }
}

impl vstd::std_specs::convert::FromSpecImpl<StorageFault> for RegisterListingError {
    open spec fn obeys_from_spec() -> bool {
        true
    }

    open spec fn from_spec(v: StorageFault) -> RegisterListingError {
        RegisterListingError::Storage(v)
    }
}

impl RegisterListingError {
    /// The human-readable text of the error, as `Display` prints it.
    pub fn to_string(&self) -> (r: String)
        ensures
            self is UnknownSecurity ==> r@ == "the referenced security does not exist"@,
            self is VenueNotActive ==> r@ == "the referenced venue does not exist or is not active"@,
            self is TickerAlreadyListed ==> r@ == "this ticker symbol is already actively listed on the venue"@,
            self is SecurityAlreadyListedOnVenue ==> r@ == "this security is already actively listed on the venue"@,
            self is PrimaryListingAlreadyExists ==> r@ == "this security already has an active primary listing"@,
            self matches RegisterListingError::Storage(f) ==> r@ == f.view(),
    {
        match self {
            RegisterListingError::UnknownSecurity => String::from_str("the referenced security does not exist"),
            RegisterListingError::VenueNotActive => String::from_str(
                "the referenced venue does not exist or is not active",
            ),
            RegisterListingError::TickerAlreadyListed => String::from_str(
                "this ticker symbol is already actively listed on the venue",
            ),
            RegisterListingError::SecurityAlreadyListedOnVenue => String::from_str(
                "this security is already actively listed on the venue",
            ),
            RegisterListingError::PrimaryListingAlreadyExists => String::from_str(
                "this security already has an active primary listing",
            ),
            RegisterListingError::Storage(f) => f.to_string(),
        }
    }
}

/// What registering `listing` answers when no storage fault occurs. The
/// rules, in the order they are checked: the security exists; the venue
/// exists and is active; the ticker is not actively listed on the venue; the
/// security is not already actively listed on the venue; and a primary
/// listing requires that the security has no other active primary listing.
pub open spec fn listing_registration_verdict<L: ListingRepository, S: SecurityRepository, V: VenueRepository>(
    listings: &L,
    securities: &S,
    venues: &V,
    listing: Listing,
) -> Option<RegisterListingError> {
    let security = listing.security_id_spec();
    let venue = listing.venue_id_spec();
    if !securities.stores_id(security) {
        Some(RegisterListingError::UnknownSecurity)
    } else if venues.stored_status(venue) != Some(VenueStatus::Active) {
        Some(RegisterListingError::VenueNotActive)
    } else if listings.stores_active_ticker(venue, listing.symbol_spec()) {
        Some(RegisterListingError::TickerAlreadyListed)
    } else if listings.stores_active_on_venue(security, venue) {
        Some(RegisterListingError::SecurityAlreadyListedOnVenue)
    } else if listing.role_spec() is Primary && listings.stores_active_primary(security) {
        Some(RegisterListingError::PrimaryListingAlreadyExists)
    } else {
        None
    }
}

/// What registering a listing gives, over the stores' answers: the
/// security query, the venue lookup, the ticker query, the security-on-venue
/// query and, for a primary listing, the primary query are asked in that
/// order, and the first that faults or refuses decides; when all pass, the
/// listing is inserted and the insert's answer decides.
pub open spec fn register_listing_result<L: ListingRepository, S: SecurityRepository, V: VenueRepository>(
    listings: &L,
    securities: &S,
    venues: &V,
    listing: Listing,
) -> Result<(), RegisterListingError> {
    let security = listing.security_id_spec();
    let venue = listing.venue_id_spec();
    let primary_answer: Result<bool, StorageFault> = if listing.role_spec() is Primary {
        listings.exists_active_primary_for_security_answer(security)
    } else {
        Ok(false)
    };
    match securities.exists_by_id_answer(security) {
        Err(f) => Err(RegisterListingError::Storage(f)),
        Ok(false) => Err(RegisterListingError::UnknownSecurity),
        Ok(true) => match venues.find_by_id_answer(venue) {
            Err(f) => Err(RegisterListingError::Storage(f)),
            Ok(None) => Err(RegisterListingError::VenueNotActive),
            Ok(Some(v)) => if !(v.data.status_spec() is Active) {
                Err(RegisterListingError::VenueNotActive)
            } else {
                match listings.exists_active_by_venue_and_symbol_answer(venue, listing.symbol_spec()) {
                    Err(f) => Err(RegisterListingError::Storage(f)),
                    Ok(true) => Err(RegisterListingError::TickerAlreadyListed),
                    Ok(false) => match listings.exists_active_for_security_on_venue_answer(security, venue) {
                        Err(f) => Err(RegisterListingError::Storage(f)),
                        Ok(true) => Err(RegisterListingError::SecurityAlreadyListedOnVenue),
                        Ok(false) => match primary_answer {
                            Err(f) => Err(RegisterListingError::Storage(f)),
                            Ok(true) => Err(RegisterListingError::PrimaryListingAlreadyExists),
                            Ok(false) => match listings.insert_answer(listing) {
                                Ok(_) => Ok(()),
                                Err(f) => Err(RegisterListingError::Storage(f)),
                            },
                        },
                    },
                }
            },
        },
    }
}

/// Stores a new listing after checking its references and the market
/// rules. A refusal other than a storage fault is the first rule it breaks;
/// the primary-listing rule is only consulted for primary listings.
pub fn register_listing<L: ListingRepository, S: SecurityRepository, V: VenueRepository>(
    listings: &L,
    securities: &S,
    venues: &V,
    listing: &Listing,
) -> (r: Result<(), RegisterListingError>)
    ensures
        r == register_listing_result(listings, securities, venues, *listing),
        r is Ok ==> listing_registration_verdict(listings, securities, venues, *listing) is None,
        r matches Err(e) ==> (e is Storage || listing_registration_verdict(
            listings,
            securities,
            venues,
            *listing,
        ) == Some(e)),
        listing_registration_verdict(listings, securities, venues, *listing) is Some ==> r is Err,
        listing_registration_verdict(listings, securities, venues, *listing) is None ==> (r is Ok
            || r matches Err(RegisterListingError::Storage(_))),
{
    match securities.exists_by_id(&listing.security_id) {
        Ok(true) => {},
        Ok(false) => return Err(RegisterListingError::UnknownSecurity),
        Err(f) => return Err(RegisterListingError::Storage(f)),
    }
    match venues.find_by_id(&listing.venue_id) {
        Ok(Some(venue)) => {
            if !venue.data.status().is_active() {
                return Err(RegisterListingError::VenueNotActive);
            }
        },
        Ok(None) => return Err(RegisterListingError::VenueNotActive),
        Err(f) => return Err(RegisterListingError::Storage(f)),
    }
    match listings.exists_active_by_venue_and_symbol(&listing.venue_id, &listing.symbol) {
        Ok(true) => return Err(RegisterListingError::TickerAlreadyListed),
        Ok(false) => {},
        Err(f) => return Err(RegisterListingError::Storage(f)),
    }
    match listings.exists_active_for_security_on_venue(&listing.security_id, &listing.venue_id) {
        Ok(true) => return Err(RegisterListingError::SecurityAlreadyListedOnVenue),
        Ok(false) => {},
        Err(f) => return Err(RegisterListingError::Storage(f)),
    }
    if listing.role.is_primary() {
        match listings.exists_active_primary_for_security(&listing.security_id) {
            Ok(true) => return Err(RegisterListingError::PrimaryListingAlreadyExists),
            Ok(false) => {},
            Err(f) => return Err(RegisterListingError::Storage(f)),
        }
    }
    match listings.insert(listing) {
        Ok(()) => Ok(()),
        Err(f) => Err(RegisterListingError::Storage(f)),
    }
}

} // verus!
