//! What the issuer subcommands decide and compute against a repository:
//! the registration that merges input and flags, the page listing with its
//! cursor, and the lookup by id. Reading input and printing output stay
//! with the caller.
use vstd::prelude::*;
use crate::cli::args::{InfoArgs, ListArgs, ListBackgroundTasksArgs, RegisterArgs};
use crate::cli::dto::{input_failure, issuer_matches_input, overridden, shows_issuer, IssuerInput, IssuerView};
use crate::cli::error::AppError;
use crate::common::{uuid_text, LoadMode, UniqueIdentifier, UtcInstant, Versioned};
use crate::domain::issuer::{
    cnpj_taken, lei_taken, register_issuer, register_issuer_result, Issuer, IssuerId, IssuerRepository,
    RegisterIssuerError,
};
use crate::engine_client::{
    format_rfc3339, parse_issuer_id, rfc3339_text, uuid_parsed, BackgroundTaskDetail,
    IssuerMappingError,
};
use crate::storage::StorageFault;

verus! {

/// Why an issuer subcommand failed: the input was refused, the registration
/// was refused, or the store failed.
#[derive(Debug)]
pub enum CommandError {
    App(AppError),
    Register(RegisterIssuerError),
    Storage(StorageFault),
}

/// A page of issuers, with the cursor for the next page: the id of the last
/// issuer on this one.
#[derive(Debug, Clone)]
pub struct IssuerPage {
    pub items: Vec<IssuerView>,
    pub count: usize,
    pub next_after: Option<String>,
}

/// The result of looking an issuer up: none or one.
#[derive(Debug, Clone)]
pub struct IssuerLookup {
    pub items: Vec<IssuerView>,
    pub count: usize,
}

/// `views` shows the issuers of `found`, one for one and in order.
pub open spec fn shows_all(views: Seq<IssuerView>, found: Seq<Versioned<Issuer>>) -> bool {
    &&& views.len() == found.len()
    &&& forall|i: int| 0 <= i < found.len() ==> shows_issuer(#[trigger] views[i], found[i].data, found[i].version)
}

/// The views of a list of stored issuers.
pub fn issuer_views(found: &Vec<Versioned<Issuer>>) -> (r: Vec<IssuerView>)
    ensures
        shows_all(r@, found@),
{
    let mut out: Vec<IssuerView> = Vec::new();
    let mut i: usize = 0;
    while i < found.len()
        invariant
            i <= found@.len(),
            out@.len() == i,
            forall|j: int| 0 <= j < i ==> shows_issuer(#[trigger] out@[j], found@[j].data, found@[j].version),
        decreases found@.len() - i,
    {
        out.push(IssuerView::from_versioned(&found[i]));
        i = i + 1;
    }
    out
}

/// `page` shows the stored issuers `found`: their views, how many there
/// are, and the id of the last one as the cursor for the next page.
pub open spec fn shows_page(page: IssuerPage, found: Seq<Versioned<Issuer>>) -> bool {
    &&& shows_all(page.items@, found)
    &&& page.count == found.len()
    &&& found.len() == 0 ==> page.next_after is None
    &&& found.len() > 0 ==> (page.next_after matches Some(n) && n@ == uuid_text(
        found.last().data.id_spec().view(),
    ))
}

/// The issuer id that a cursor given on the command line reads as: none
/// without a cursor, the parsed id with one.
pub open spec fn reads_cursor(after: Option<String>, id: Option<IssuerId>) -> bool {
    match after {
        None => id is None,
        Some(a) => id matches Some(i) && i.view() == uuid_parsed(a@)->Ok_0,
    }
}

/// A page of issuers: their views, how many there are, and the id of the
/// last one as the cursor for the next page.
pub fn issuer_page(found: &Vec<Versioned<Issuer>>) -> (r: IssuerPage)
    ensures
        shows_page(r, found@),
{
    let items = issuer_views(found);
    let count = items.len();
    let next_after = if found.len() > 0 {
        Some(found[found.len() - 1].data.id().value())
    } else {
        None
    };
    IssuerPage { items, count, next_after }
}

/// Reads an issuer id given on the command line; text that is not a UUID
/// is an invalid id, reported with the parser's message.
pub fn read_issuer_id(raw: &str) -> (r: Result<IssuerId, AppError>)
    ensures
        match uuid_parsed(raw@) {
            Ok(b) => (r matches Ok(id) && id.view() == b),
            Err(m) => (r matches Err(AppError::InvalidId(e)) && e@ == m),
        },
{
    match parse_issuer_id(raw) {
        Ok(id) => Ok(id),
        Err(IssuerMappingError::InvalidId(m)) => Err(AppError::InvalidId(m)),
        Err(_) => {
            assert(false);
            Err(AppError::Config(String::new()))
        },
    }
}

/// The input a registration uses: the fields read from the input, each
/// replaced by the flag where one is given.
pub open spec fn merged_input(base: IssuerInput, args: RegisterArgs) -> IssuerInput {
    IssuerInput {
        name: overridden(base.name, args.name),
        status: overridden(base.status, args.status),
        cnpj: overridden(base.cnpj, args.cnpj),
        lei: overridden(base.lei, args.lei),
        country_code: overridden(base.country_code, args.country_code),
    }
}

impl RegisterArgs {
    /// Registers the issuer the input and flags describe and shows it at
    /// version 1. Fails with the input's error where the fields do not
    /// describe an issuer, and with the registration's where its CNPJ or
    /// LEI is taken or the store fails.
    pub fn execute<R: IssuerRepository>(&self, repo: &R, base: IssuerInput) -> (r: Result<
        IssuerView,
        CommandError,
    >)
        ensures
            (r matches Err(CommandError::App(_))) <==> input_failure(merged_input(base, *self)) != 0,
            r is Ok ==> exists|i: Issuer|
                #![trigger issuer_matches_input(i, merged_input(base, *self))]
                issuer_matches_input(i, merged_input(base, *self)) && !cnpj_taken(repo, i.cnpj_spec())
                    && !lei_taken(repo, i.lei_spec()) && shows_issuer(r->Ok_0, i, 1),
            r matches Err(CommandError::Register(RegisterIssuerError::DuplicateCnpj)) ==> exists|
                i: Issuer,
            |
                #![trigger issuer_matches_input(i, merged_input(base, *self))]
                issuer_matches_input(i, merged_input(base, *self)) && cnpj_taken(repo, i.cnpj_spec()),
            r matches Err(CommandError::Register(RegisterIssuerError::DuplicateLei)) ==> exists|
                i: Issuer,
            |
                #![trigger issuer_matches_input(i, merged_input(base, *self))]
                issuer_matches_input(i, merged_input(base, *self)) && !cnpj_taken(repo, i.cnpj_spec())
                    && lei_taken(repo, i.lei_spec()),
            input_failure(merged_input(base, *self)) == 0 ==> exists|i: Issuer|
                #![trigger issuer_matches_input(i, merged_input(base, *self))]
                issuer_matches_input(i, merged_input(base, *self)) && match register_issuer_result(
                    repo,
                    i,
                ) {
                    Ok(_) => (r matches Ok(v) && shows_issuer(v, i, 1)),
                    Err(e) => r == Err::<IssuerView, CommandError>(CommandError::Register(e)),
                },
            input_failure(merged_input(base, *self)) == 0 && (forall|i: Issuer|
                #![trigger issuer_matches_input(i, merged_input(base, *self))]
                issuer_matches_input(i, merged_input(base, *self)) ==> !cnpj_taken(repo, i.cnpj_spec())
                    && !lei_taken(repo, i.lei_spec())) ==> (r is Ok || r matches Err(
                CommandError::Register(RegisterIssuerError::Storage(_)),
            )),
            input_failure(merged_input(base, *self)) == 0 && (forall|i: Issuer|
                #![trigger issuer_matches_input(i, merged_input(base, *self))]
                issuer_matches_input(i, merged_input(base, *self)) ==> cnpj_taken(repo, i.cnpj_spec()))
                ==> (r matches Err(CommandError::Register(RegisterIssuerError::DuplicateCnpj)) || r matches Err(
                CommandError::Register(RegisterIssuerError::Storage(_)),
            )),
    {
        let input = base.merge_flags(
            self.name.clone(),
            self.status.clone(),
            self.cnpj.clone(),
            self.lei.clone(),
            self.country_code.clone(),
        );
        assert(input == merged_input(base, *self));
        let issuer = match input.into_issuer() {
            Ok(i) => i,
            Err(e) => return Err(CommandError::App(e)),
        };
        match register_issuer(repo, &issuer) {
            Ok(()) => Ok(IssuerView::new(&issuer, 1)),
            Err(e) => Err(CommandError::Register(e)),
        }
    }
}

impl ListArgs {
    /// One page of at most `limit` issuers after the cursor, if one is given.
    pub fn execute<R: IssuerRepository>(&self, repo: &R) -> (r: Result<IssuerPage, CommandError>)
        ensures
            (self.after matches Some(a) && uuid_parsed(a@) is Err) ==> (r matches Err(
                CommandError::App(AppError::InvalidId(_)),
            )),
            r matches Ok(p) ==> p.count == p.items@.len() && p.count <= self.limit,
            !(self.after matches Some(a) && uuid_parsed(a@) is Err) ==> (r is Ok || r matches Err(
                CommandError::Storage(_),
            )),
            !(self.after matches Some(a) && uuid_parsed(a@) is Err) ==> exists|after: Option<IssuerId>|
                #![trigger repo.list_paged_answer(after, self.limit, LoadMode::Lazy)]
                reads_cursor(self.after, after) && match repo.list_paged_answer(
                    after,
                    self.limit,
                    LoadMode::Lazy,
                ) {
                    Ok(found) => (r matches Ok(p) && shows_page(p, found@)),
                    Err(f) => r == Err::<IssuerPage, CommandError>(CommandError::Storage(f)),
                },
    {
        let after = match &self.after {
            Some(raw) => match read_issuer_id(raw.as_str()) {
                Ok(id) => Some(id),
                Err(e) => return Err(CommandError::App(e)),
            },
            None => None,
        };
        match repo.list_paged(after, self.limit, LoadMode::Lazy) {
            Ok(found) => Ok(issuer_page(&found)),
            Err(f) => Err(CommandError::Storage(f)),
        }
    }
}

impl InfoArgs {
    /// The issuer with the given id, if one is stored.
    pub fn execute<R: IssuerRepository>(&self, repo: &R) -> (r: Result<IssuerLookup, CommandError>)
        ensures
            uuid_parsed(self.id@) is Err ==> (r matches Err(CommandError::App(AppError::InvalidId(_)))),
            r matches Ok(l) ==> l.count == l.items@.len() && l.items@.len() <= 1,
            r matches Ok(l) ==> forall|i: int|
                0 <= i < l.items@.len() ==> #[trigger] l.items@[i].id@ == uuid_text(
                    uuid_parsed(self.id@)->Ok_0,
                ),
            uuid_parsed(self.id@) is Ok ==> (r is Ok || r matches Err(CommandError::Storage(_))),
            uuid_parsed(self.id@) is Ok ==> exists|id: IssuerId|
                #![trigger repo.find_by_id_answer(id, LoadMode::Lazy)]
                id.view() == uuid_parsed(self.id@)->Ok_0 && match repo.find_by_id_answer(
                    id,
                    LoadMode::Lazy,
                ) {
                    Ok(None) => (r matches Ok(l) && l.count == 0 && l.items@.len() == 0),
                    Ok(Some(v)) => (r matches Ok(l) && l.count == 1 && l.items@.len() == 1
                        && shows_issuer(l.items@[0], v.data, v.version)),
                    Err(f) => r == Err::<IssuerLookup, CommandError>(CommandError::Storage(f)),
                },
    {
        let id = match read_issuer_id(self.id.as_str()) {
            Ok(id) => id,
            Err(e) => return Err(CommandError::App(e)),
        };
        match repo.find_by_id(&id, LoadMode::Lazy) {
            Ok(found) => {
                let mut items: Vec<IssuerView> = Vec::new();
                if let Some(v) = found {
                    items.push(IssuerView::from_versioned(&v));
                }
                let count = items.len();
                Ok(IssuerLookup { items, count })
            },
            Err(f) => Err(CommandError::Storage(f)),
        }
    }
}

/// The message for a background task cursor that is not a UUID.
pub open spec fn bad_cursor_message(raw: Seq<char>) -> Seq<char> {
    "invalid background tasks pagination cursor: "@ + raw
}

impl ListBackgroundTasksArgs {
    /// The cursor after which to list, as the bytes of its UUID; text that
    /// is not a UUID is refused with a message that repeats it.
    pub fn cursor(&self) -> (r: Result<Option<[u8; 16]>, String>)
        ensures
            self.after is None ==> r == Ok::<Option<[u8; 16]>, String>(None),
            self.after matches Some(a) ==> match uuid_parsed(a@) {
                Ok(b) => (r matches Ok(Some(x)) && x@ == b),
                Err(_) => (r matches Err(m) && m@ == bad_cursor_message(a@)),
            },
    {
        match &self.after {
            Some(raw) => match parse_issuer_id(raw.as_str()) {
                Ok(id) => Ok(Some(*id.as_bytes())),
                Err(_) => {
                    let mut m = String::from_str("invalid background tasks pagination cursor: ");
                    m.append(raw.as_str());
                    Err(m)
                },
            },
            None => Ok(None),
        }
    }
}

/// A background task as the command line prints it.
#[derive(Debug, Clone)]
pub struct BackgroundTaskDefinitionView {
    pub id: String,
    pub name: String,
    pub created_at: String,
    pub last_updated_at: String,
    pub version: u32,
}

impl BackgroundTaskDefinitionView {
    /// The view of a task: its id in hyphenated form, its name, and its
    /// creation and last update times in RFC 3339.
    pub fn new(
        id: &[u8; 16],
        name: &str,
        created_at: UtcInstant,
        last_updated_at: UtcInstant,
        version: u32,
    ) -> (r: BackgroundTaskDefinitionView)
        ensures
            r.id@ == uuid_text(id@),
            r.name@ == name@,
            r.created_at@ == rfc3339_text(created_at.seconds, created_at.nanos),
            r.last_updated_at@ == rfc3339_text(last_updated_at.seconds, last_updated_at.nanos),
            r.version == version,
    {
        BackgroundTaskDefinitionView {
            id: UniqueIdentifier::from_bytes(*id).value(),
            name: String::from_str(name),
            created_at: format_rfc3339(created_at),
            last_updated_at: format_rfc3339(last_updated_at),
            version,
        }
    }

    /// The view of a task as the engine lists it, at version 1. The engine
    /// reports one time per task, which stands for both times of the view.
    pub fn from_detail(detail: &BackgroundTaskDetail) -> (r: BackgroundTaskDefinitionView)
        ensures
            r.id@ == uuid_text(detail.id@),
            r.name@ == detail.name@,
            r.created_at@ == rfc3339_text(detail.created_at.seconds, detail.created_at.nanos),
            r.last_updated_at@ == r.created_at@,
            r.version == 1,
    {
        let created_at = format_rfc3339(detail.created_at);
        BackgroundTaskDefinitionView {
            id: UniqueIdentifier::from_bytes(detail.id).value(),
            name: detail.name.clone(),
            last_updated_at: created_at.clone(),
            created_at,
            version: 1,
        }
    }
}

} // verus!
