//! The issuer payloads of the command line: the fields a registration reads
//! (from a JSON input and from flags) and the view of an issuer it prints.
use vstd::prelude::*;
use crate::cli::error::AppError;
use crate::common::{uuid_text, Versioned};
use crate::domain::issuer::{
    is_brazil, Issuer, IssuerBuilder, IssuerBuilderError, IssuerName, IssuerStatus,
    ISSUER_NAME_MAX_LEN,
};
use crate::engine_client::{
    cnpj_field_fails, country_field_fails, format_rfc3339, lei_field_fails, name_error_for,
    name_field_fails,
    rfc3339_text,
};
use crate::identifiers::cnpj::cnpj_parse;
use crate::identifiers::country_code::country_normalize;
use crate::identifiers::lei::lei_parse;
use crate::identifiers::{Cnpj, CountryCode, Lei};
use crate::text::{bytes_as_chars, trimmed, unicode_uppercase};

verus! {

/// The fields of an issuer to register, as text; any may be missing.
#[derive(Debug, Default, Clone)]
pub struct IssuerInput {
    pub name: Option<String>,
    pub status: Option<String>,
    pub cnpj: Option<String>,
    pub lei: Option<String>,
    pub country_code: Option<String>,
}

/// `flag` where it is given, `base` otherwise.
pub open spec fn overridden(base: Option<String>, flag: Option<String>) -> Option<String> {
    if flag is Some {
        flag
    } else {
        base
    }
}

/// Whether an optional status text fails to read.
pub open spec fn status_field_fails(status: Option<String>) -> bool {
    status matches Some(s) && IssuerStatus::from_uppercase_spec(unicode_uppercase(s@)) is Err
}

/// The first field at which turning `input` into an issuer fails, in the
/// order they are read: 1 the name, 2 the status, 3 the CNPJ, 4 the LEI,
/// 5 the country code, 6 the CNPJ-country rule; 0 when none fails.
pub open spec fn input_failure(input: IssuerInput) -> int {
    if name_field_fails(input.name) {
        1
    } else if status_field_fails(input.status) {
        2
    } else if cnpj_field_fails(input.cnpj) {
        3
    } else if lei_field_fails(input.lei) {
        4
    } else if country_field_fails(input.country_code) {
        5
    } else if input.cnpj is Some && (input.country_code matches Some(c) && !is_brazil(
        country_normalize(c@)->Ok_0,
    )) {
        6
    } else {
        0
    }
}

/// What the issuer built from `input` holds, field by field; a missing
/// status is `Active`, a CNPJ without a country makes it Brazil.
pub open spec fn issuer_matches_input(i: Issuer, input: IssuerInput) -> bool {
    &&& (input.status is None ==> i.status_spec() == IssuerStatus::Active)
    &&& (input.status matches Some(s) ==> Ok::<IssuerStatus, crate::domain::issuer::IssuerStatusError>(
        i.status_spec(),
    ) == IssuerStatus::from_uppercase_spec(unicode_uppercase(s@)))
    &&& (i.name_spec() is Some <==> input.name is Some)
    &&& (input.name matches Some(n) ==> i.name_spec()->Some_0.view() == trimmed(n@))
    &&& (i.cnpj_spec() is Some <==> input.cnpj is Some)
    &&& (input.cnpj matches Some(c) ==> i.cnpj_spec()->Some_0.view() == cnpj_parse(c@)->Ok_0)
    &&& (i.lei_spec() is Some <==> input.lei is Some)
    &&& (input.lei matches Some(l) ==> i.lei_spec()->Some_0.view() == lei_parse(l@)->Ok_0)
    &&& (input.country_code matches Some(c) ==> i.country_code_spec()->Some_0.view()
        == country_normalize(c@)->Ok_0)
    &&& ((input.country_code is None && input.cnpj is Some) ==> (i.country_code_spec() matches Some(
        c,
    ) && is_brazil(c.view())))
    &&& ((input.country_code is None && input.cnpj is None) ==> i.country_code_spec() is None)
}

/// The builder fields that reading one optional field leaves alone.
pub open spec fn same_other_fields(a: IssuerBuilder, b: IssuerBuilder) -> bool {
    &&& a.id_spec() == b.id_spec()
    &&& a.created_at_spec() == b.created_at_spec()
}

fn read_name(name: &Option<String>, builder: IssuerBuilder) -> (r: Result<IssuerBuilder, AppError>)
    ensures
        r is Err <==> name_field_fails(*name),
        r is Err ==> (r matches Err(AppError::IssuerName(e)) && name_error_for(*name, e)),
        r matches Ok(b) ==> {
            &&& same_other_fields(builder, b)
            &&& b.status_spec() == builder.status_spec()
            &&& b.cnpj_spec() == builder.cnpj_spec()
            &&& b.lei_spec() == builder.lei_spec()
            &&& b.country_code_spec() == builder.country_code_spec()
            &&& (name is None ==> b.name_spec() == builder.name_spec())
            &&& (name matches Some(n) ==> (b.name_spec() matches Some(v) && v.view() == trimmed(n@)))
        },
{
    match name {
        Some(n) => match IssuerName::new(n.as_str()) {
            Ok(v) => Ok(builder.name(v)),
            Err(e) => Err(AppError::IssuerName(e)),
        },
        None => Ok(builder),
    }
}

fn read_status(status: &Option<String>, builder: IssuerBuilder) -> (r: Result<IssuerBuilder, AppError>)
    ensures
        r is Err <==> status_field_fails(*status),
        r is Err ==> r matches Err(AppError::IssuerStatus(_)),
        r matches Ok(b) ==> {
            &&& same_other_fields(builder, b)
            &&& b.name_spec() == builder.name_spec()
            &&& b.cnpj_spec() == builder.cnpj_spec()
            &&& b.lei_spec() == builder.lei_spec()
            &&& b.country_code_spec() == builder.country_code_spec()
            &&& (status is None ==> b.status_spec() == builder.status_spec())
            &&& (status matches Some(s) ==> (b.status_spec() matches Some(v) && Ok::<
                IssuerStatus,
                crate::domain::issuer::IssuerStatusError,
            >(v) == IssuerStatus::from_uppercase_spec(unicode_uppercase(s@))))
        },
{
    match status {
        Some(s) => match IssuerStatus::from_text(s.as_str()) {
            Ok(v) => Ok(builder.status(v)),
            Err(e) => Err(AppError::IssuerStatus(e)),
        },
        None => Ok(builder),
    }
}

fn read_cnpj(cnpj: &Option<String>, builder: IssuerBuilder) -> (r: Result<IssuerBuilder, AppError>)
    ensures
        r is Err <==> cnpj_field_fails(*cnpj),
        r is Err ==> r matches Err(AppError::Identifier { kind: crate::cli::error::IdentifierKind::Cnpj, .. }),
        r matches Ok(b) ==> {
            &&& same_other_fields(builder, b)
            &&& b.name_spec() == builder.name_spec()
            &&& b.status_spec() == builder.status_spec()
            &&& b.lei_spec() == builder.lei_spec()
            &&& b.country_code_spec() == builder.country_code_spec()
            &&& (cnpj is None ==> b.cnpj_spec() == builder.cnpj_spec())
            &&& (cnpj matches Some(c) ==> (b.cnpj_spec() matches Some(v) && v.view() == cnpj_parse(
                c@,
            )->Ok_0))
        },
{
    match cnpj {
        Some(c) => match Cnpj::parse(c.as_str()) {
            Ok(v) => Ok(builder.cnpj(v)),
            Err(e) => Err(AppError::from_cnpj_error(e)),
        },
        None => Ok(builder),
    }
}

fn read_lei(lei: &Option<String>, builder: IssuerBuilder) -> (r: Result<IssuerBuilder, AppError>)
    ensures
        r is Err <==> lei_field_fails(*lei),
        r is Err ==> r matches Err(AppError::Identifier { kind: crate::cli::error::IdentifierKind::Lei, .. }),
        r matches Ok(b) ==> {
            &&& same_other_fields(builder, b)
            &&& b.name_spec() == builder.name_spec()
            &&& b.status_spec() == builder.status_spec()
            &&& b.cnpj_spec() == builder.cnpj_spec()
            &&& b.country_code_spec() == builder.country_code_spec()
            &&& (lei is None ==> b.lei_spec() == builder.lei_spec())
            &&& (lei matches Some(l) ==> (b.lei_spec() matches Some(v) && v.view() == lei_parse(
                l@,
            )->Ok_0))
        },
{
    match lei {
        Some(l) => match Lei::parse(l.as_str()) {
            Ok(v) => Ok(builder.lei(v)),
            Err(e) => Err(AppError::from_lei_error(e)),
        },
        None => Ok(builder),
    }
}

fn read_country(country: &Option<String>, builder: IssuerBuilder) -> (r: Result<IssuerBuilder, AppError>)
    ensures
        r is Err <==> country_field_fails(*country),
        r is Err ==> r matches Err(AppError::Identifier { kind: crate::cli::error::IdentifierKind::CountryCode, .. }),
        r matches Ok(b) ==> {
            &&& same_other_fields(builder, b)
            &&& b.name_spec() == builder.name_spec()
            &&& b.status_spec() == builder.status_spec()
            &&& b.cnpj_spec() == builder.cnpj_spec()
            &&& b.lei_spec() == builder.lei_spec()
            &&& (country is None ==> b.country_code_spec() == builder.country_code_spec())
            &&& (country matches Some(c) ==> (b.country_code_spec() matches Some(v) && v.view()
                == country_normalize(c@)->Ok_0))
        },
{
    match country {
        Some(c) => match CountryCode::parse(c.as_str()) {
            Ok(v) => Ok(builder.country_code(v)),
            Err(e) => Err(AppError::from_country_code_error(e)),
        },
        None => Ok(builder),
    }
}

impl IssuerInput {
    /// Each field given as a flag replaces the one read from the input.
    pub fn merge_flags(
        self,
        name: Option<String>,
        status: Option<String>,
        cnpj: Option<String>,
        lei: Option<String>,
        country_code: Option<String>,
    ) -> (r: IssuerInput)
        ensures
            r.name == overridden(self.name, name),
            r.status == overridden(self.status, status),
            r.cnpj == overridden(self.cnpj, cnpj),
            r.lei == overridden(self.lei, lei),
            r.country_code == overridden(self.country_code, country_code),
    {
        let mut merged = self;
        if name.is_some() {
            merged.name = name;
        }
        if status.is_some() {
            merged.status = status;
        }
        if cnpj.is_some() {
            merged.cnpj = cnpj;
        }
        if lei.is_some() {
            merged.lei = lei;
        }
        if country_code.is_some() {
            merged.country_code = country_code;
        }
        merged
    }

    /// The issuer the fields describe, with a fresh id and the current time,
    /// failing at the first field that does not read (see `input_failure`).
    pub fn into_issuer(self) -> (r: Result<Issuer, AppError>)
        ensures
            r is Ok <==> input_failure(self) == 0,
            input_failure(self) == 1 ==> (r matches Err(AppError::IssuerName(e)) && name_error_for(
                self.name,
                e,
            )),
            input_failure(self) == 2 ==> r matches Err(AppError::IssuerStatus(_)),
            input_failure(self) == 3 ==> r matches Err(
                AppError::Identifier { kind: crate::cli::error::IdentifierKind::Cnpj, .. },
            ),
            input_failure(self) == 4 ==> r matches Err(
                AppError::Identifier { kind: crate::cli::error::IdentifierKind::Lei, .. },
            ),
            input_failure(self) == 5 ==> r matches Err(
                AppError::Identifier { kind: crate::cli::error::IdentifierKind::CountryCode, .. },
            ),
            input_failure(self) == 6 ==> r matches Err(
                AppError::IssuerBuilder(IssuerBuilderError::InvalidCountryForCnpj(_)),
            ),
            r matches Ok(i) ==> issuer_matches_input(i, self),
    {
        let builder = Issuer::builder();
        let builder = match read_name(&self.name, builder) {
            Ok(b) => b,
            Err(e) => return Err(e),
        };
        let builder = match read_status(&self.status, builder) {
            Ok(b) => b,
            Err(e) => return Err(e),
        };
        let builder = match read_cnpj(&self.cnpj, builder) {
            Ok(b) => b,
            Err(e) => return Err(e),
        };
        let builder = match read_lei(&self.lei, builder) {
            Ok(b) => b,
            Err(e) => return Err(e),
        };
        let builder = match read_country(&self.country_code, builder) {
            Ok(b) => b,
            Err(e) => return Err(e),
        };
        match builder.build() {
            Ok(issuer) => Ok(issuer),
            Err(e) => Err(AppError::IssuerBuilder(e)),
        }
    }
}

/// An issuer as the command line prints it.
#[derive(Debug, Clone)]
pub struct IssuerView {
    pub id: String,
    pub status: String,
    pub created_at: String,
    pub version: u32,
    pub name: Option<String>,
    pub cnpj: Option<String>,
    pub lei: Option<String>,
    pub country_code: Option<String>,
}

/// `view` shows `issuer` at `version`: the id in hyphenated form, the
/// status in upper case, the creation time in RFC 3339, and each optional
/// field's text where it is set.
pub open spec fn shows_issuer(view: IssuerView, issuer: Issuer, version: u32) -> bool {
    &&& view.id@ == uuid_text(issuer.id_spec().view())
    &&& view.status@ == issuer.status_spec().text()
    &&& view.created_at@ == rfc3339_text(issuer.created_at_spec().seconds, issuer.created_at_spec().nanos)
    &&& view.version == version
    &&& (view.name is Some <==> issuer.name_spec() is Some)
    &&& (view.name matches Some(n) ==> n@ == issuer.name_spec()->Some_0.view())
    &&& (view.cnpj is Some <==> issuer.cnpj_spec() is Some)
    &&& (view.cnpj matches Some(c) ==> c@ == bytes_as_chars(issuer.cnpj_spec()->Some_0.view()))
    &&& (view.lei is Some <==> issuer.lei_spec() is Some)
    &&& (view.lei matches Some(l) ==> l@ == bytes_as_chars(issuer.lei_spec()->Some_0.view()))
    &&& (view.country_code is Some <==> issuer.country_code_spec() is Some)
    &&& (view.country_code matches Some(c) ==> c@ == bytes_as_chars(
        issuer.country_code_spec()->Some_0.view(),
    ))
}

impl IssuerView {
    pub fn new(issuer: &Issuer, version: u32) -> (r: IssuerView)
        ensures
            shows_issuer(r, *issuer, version),
    {
        let name = match issuer.name() {
            Some(n) => Some(String::from_str(n.as_str())),
            None => None,
        };
        let cnpj = match issuer.cnpj() {
            Some(c) => Some(String::from_str(c.as_str())),
            None => None,
        };
        let lei = match issuer.lei() {
            Some(l) => Some(String::from_str(l.as_str())),
            None => None,
        };
        let country_code = match issuer.country_code() {
            Some(c) => Some(String::from_str(c.as_str())),
            None => None,
        };
        IssuerView {
            id: issuer.id().value(),
            status: String::from_str(issuer.status().as_str()),
            created_at: format_rfc3339(issuer.created_at()),
            version,
            name,
            cnpj,
            lei,
            country_code,
        }
    }

    /// The view of a stored issuer at its version.
    pub fn from_versioned(v: &Versioned<Issuer>) -> (r: IssuerView)
        ensures
            shows_issuer(r, v.data, v.version),
    {
        IssuerView::new(&v.data, v.version)
    }
}

} // verus!
