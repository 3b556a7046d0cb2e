//! Outside APIs whose calls a sponsor pays for, and the rows that keep them.

use std::convert::TryFrom;

use vstd::prelude::*;

use crate::error::{
    database_answer, database_failure, not_found_error, outcome_view, ApiError, ApiErrorView,
    ApiResult, STATUS_INTERNAL_SERVER_ERROR,
};
use crate::ids::{law_uuid_text_is_injective, print_id, uuid_text};
use crate::types::{
    optional_text, text_pairs, Timestamp, SPONSORED_API_CREATE_SERVICE,
    SPONSORED_API_SERVICE_PREFIX,
};

verus! {

/// An API whose calls a sponsor pays for, as long as its budget lasts.
#[derive(Debug)]
pub struct SponsoredApi {
    pub id: u128,
    pub name: String,
    pub sponsor: String,
    pub description: Option<String>,
    pub upstream_url: String,
    pub upstream_method: String,
    pub upstream_headers: Vec<(String, String)>,
    pub price_cents: u64,
    pub budget_total_cents: u64,
    pub budget_remaining_cents: u64,
    pub active: bool,
    pub service_key: String,
    pub created_at: Timestamp,
}

/// The contents of a `SponsoredApi`.
pub struct SponsoredApiView {
    pub id: u128,
    pub name: Seq<char>,
    pub sponsor: Seq<char>,
    pub description: Option<Seq<char>>,
    pub upstream_url: Seq<char>,
    pub upstream_method: Seq<char>,
    pub upstream_headers: Seq<(Seq<char>, Seq<char>)>,
    pub price_cents: u64,
    pub budget_total_cents: u64,
    pub budget_remaining_cents: u64,
    pub active: bool,
    pub service_key: Seq<char>,
    pub created_at: Timestamp,
}

impl View for SponsoredApi {
    type V = SponsoredApiView;

    open spec fn view(&self) -> SponsoredApiView {
        SponsoredApiView {
            id: self.id,
            name: self.name@,
            sponsor: self.sponsor@,
            description: optional_text(self.description),
            upstream_url: self.upstream_url@,
            upstream_method: self.upstream_method@,
            upstream_headers: text_pairs(self.upstream_headers@),
            price_cents: self.price_cents,
            budget_total_cents: self.budget_total_cents,
            budget_remaining_cents: self.budget_remaining_cents,
            active: self.active,
            service_key: self.service_key@,
            created_at: self.created_at,
        }
    }
}

/// A `SponsoredApi` as the database keeps it: with signed numbers.
#[derive(Debug)]
pub struct SponsoredApiRow {
    pub id: u128,
    pub name: String,
    pub sponsor: String,
    pub description: Option<String>,
    pub upstream_url: String,
    pub upstream_method: String,
    pub upstream_headers: Vec<(String, String)>,
    pub price_cents: i64,
    pub budget_total_cents: i64,
    pub budget_remaining_cents: i64,
    pub active: bool,
    pub service_key: String,
    pub created_at: Timestamp,
}

/// The contents of a `SponsoredApiRow`.
pub struct SponsoredApiRowView {
    pub id: u128,
    pub name: Seq<char>,
    pub sponsor: Seq<char>,
    pub description: Option<Seq<char>>,
    pub upstream_url: Seq<char>,
    pub upstream_method: Seq<char>,
    pub upstream_headers: Seq<(Seq<char>, Seq<char>)>,
    pub price_cents: i64,
    pub budget_total_cents: i64,
    pub budget_remaining_cents: i64,
    pub active: bool,
    pub service_key: Seq<char>,
    pub created_at: Timestamp,
}

impl View for SponsoredApiRow {
    type V = SponsoredApiRowView;

    open spec fn view(&self) -> SponsoredApiRowView {
        SponsoredApiRowView {
            id: self.id,
            name: self.name@,
            sponsor: self.sponsor@,
            description: optional_text(self.description),
            upstream_url: self.upstream_url@,
            upstream_method: self.upstream_method@,
            upstream_headers: text_pairs(self.upstream_headers@),
            price_cents: self.price_cents,
            budget_total_cents: self.budget_total_cents,
            budget_remaining_cents: self.budget_remaining_cents,
            active: self.active,
            service_key: self.service_key@,
            created_at: self.created_at,
        }
    }
}

/// Whether no two headers go by the same name.
pub open spec fn distinct_names(headers: Seq<(Seq<char>, Seq<char>)>) -> bool {
    forall|i: int, j: int|
        0 <= i < j < headers.len() ==> #[trigger] headers[i].0 != #[trigger] headers[j].0
}

impl SponsoredApiView {
    /// Whether a call of the API holds no header twice.
    pub open spec fn well_formed(self) -> bool {
        distinct_names(self.upstream_headers)
    }
}

impl SponsoredApiRowView {
    /// Whether a call of the API that is kept holds no header twice.
    pub open spec fn well_formed(self) -> bool {
        distinct_names(self.upstream_headers)
    }

    /// The API that a row stands for, where none of its numbers is negative.
    pub open spec fn api(self) -> Result<SponsoredApiView, Seq<char>> {
        if self.price_cents < 0 {
            Err("price_cents must be non-negative"@)
        } else if self.budget_total_cents < 0 {
            Err("budget_total_cents must be non-negative"@)
        } else if self.budget_remaining_cents < 0 {
            Err("budget_remaining_cents must be non-negative"@)
        } else {
            Ok(
                SponsoredApiView {
                    id: self.id,
                    name: self.name,
                    sponsor: self.sponsor,
                    description: self.description,
                    upstream_url: self.upstream_url,
                    upstream_method: self.upstream_method,
                    upstream_headers: self.upstream_headers,
                    price_cents: self.price_cents as u64,
                    budget_total_cents: self.budget_total_cents as u64,
                    budget_remaining_cents: self.budget_remaining_cents as u64,
                    active: self.active,
                    service_key: self.service_key,
                    created_at: self.created_at,
                },
            )
        }
    }

    /// The API that a row stands for; a row that stands for none is an error of the database.
    pub open spec fn stored_api(self) -> Result<SponsoredApiView, ApiErrorView> {
        match self.api() {
            Ok(api) => Ok(api),
            Err(message) => Err(database_failure(message)),
        }
    }
}

impl TryFrom<SponsoredApiRow> for SponsoredApi {
    type Error = String;

    fn try_from(value: SponsoredApiRow) -> (r: Result<SponsoredApi, String>)
        ensures
            match r {
                Ok(api) => value@.api() == Ok::<SponsoredApiView, Seq<char>>(api@),
                Err(message) => value@.api() == Err::<SponsoredApiView, Seq<char>>(message@),
            },
    {
        if value.price_cents < 0 {
            return Err("price_cents must be non-negative".to_owned());
        }
        if value.budget_total_cents < 0 {
            return Err("budget_total_cents must be non-negative".to_owned());
        }
        if value.budget_remaining_cents < 0 {
            return Err("budget_remaining_cents must be non-negative".to_owned());
        }
        Ok(
            SponsoredApi {
                id: value.id,
                name: value.name,
                sponsor: value.sponsor,
                description: value.description,
                upstream_url: value.upstream_url,
                upstream_method: value.upstream_method,
                upstream_headers: value.upstream_headers,
                price_cents: value.price_cents as u64,
                budget_total_cents: value.budget_total_cents as u64,
                budget_remaining_cents: value.budget_remaining_cents as u64,
                active: value.active,
                service_key: value.service_key,
                created_at: value.created_at,
            },
        )
    }
}

impl vstd::std_specs::convert::TryFromSpecImpl<SponsoredApiRow> for SponsoredApi {
    /// The contract of `try_from` speaks of views, and leaves open which `String` holds a text.
    open spec fn obeys_try_from_spec() -> bool {
        false
    }

    open spec fn try_from_spec(value: SponsoredApiRow) -> Result<SponsoredApi, String> {
        vstd::pervasive::arbitrary()
    }
}

/// The API of the row that the database found for an identifier, where it answered.
pub open spec fn found_api(found: Result<Option<SponsoredApiRow>, String>) -> Result<
    SponsoredApiView,
    ApiErrorView,
> {
    match found {
        Ok(Some(row)) => row@.stored_api(),
        Ok(None) => Err(not_found_error("sponsored api not found"@)),
        Err(message) => Err(database_failure(message@)),
    }
}

/// The API that a row stands for.
pub fn stored_api(row: SponsoredApiRow) -> (r: ApiResult<SponsoredApi>)
    ensures
        outcome_view(r) == row@.stored_api(),
{
    match SponsoredApi::try_from(row) {
        Ok(api) => Ok(api),
        Err(message) => Err(ApiError::database(STATUS_INTERNAL_SERVER_ERROR, message.as_str())),
    }
}

/// The API that the database was asked for by its identifier.
pub fn get_sponsored_api(found: Result<Option<SponsoredApiRow>, String>) -> (r: ApiResult<
    SponsoredApi,
>)
    ensures
        outcome_view(r) == found_api(found),
{
    match database_answer(found) {
        Ok(Some(row)) => stored_api(row),
        Ok(None) => Err(ApiError::not_found("sponsored api not found")),
        Err(error) => Err(error),
    }
}

/// The APIs that rows stand for, or the error of the first row that stands for none.
pub open spec fn stored_list(rows: Seq<SponsoredApiRow>) -> Result<
    Seq<SponsoredApiView>,
    ApiErrorView,
>
    decreases rows.len(),
{
    if rows.len() == 0 {
        Ok(Seq::empty())
    } else {
        match stored_list(rows.drop_last()) {
            Ok(list) => match rows.last()@.stored_api() {
                Ok(api) => Ok(list.push(api)),
                Err(error) => Err(error),
            },
            Err(error) => Err(error),
        }
    }
}

/// The contents of each `SponsoredApi` of a list.
pub open spec fn api_views(list: Seq<SponsoredApi>) -> Seq<SponsoredApiView> {
    list.map_values(|api: SponsoredApi| api@)
}

/// A row that stands for no API spoils each list that goes on behind it.
proof fn lemma_stored_list_prefix(rows: Seq<SponsoredApiRow>, n: int, error: ApiErrorView)
    requires
        0 <= n <= rows.len(),
        stored_list(rows.take(n)) == Err::<Seq<SponsoredApiView>, ApiErrorView>(error),
    ensures
        stored_list(rows) == Err::<Seq<SponsoredApiView>, ApiErrorView>(error),
    decreases rows.len() - n,
{
    if n == rows.len() {
        assert(rows.take(n) =~= rows);
    } else {
        assert(rows.take(n + 1).drop_last() =~= rows.take(n));
        lemma_stored_list_prefix(rows, n + 1, error);
    }
}

/// The APIs that rows stand for, in the order of the rows.
fn stored_apis(rows: Vec<SponsoredApiRow>) -> (r: ApiResult<Vec<SponsoredApi>>)
    ensures
        match r {
            Ok(list) => stored_list(rows@) == Ok::<Seq<SponsoredApiView>, ApiErrorView>(
                api_views(list@),
            ),
            Err(error) => stored_list(rows@) == Err::<Seq<SponsoredApiView>, ApiErrorView>(error@),
        },
{
    let ghost all = rows@;
    let mut list: Vec<SponsoredApi> = Vec::new();
    assert(all.take(0) =~= Seq::empty());
    assert(api_views(list@) =~= Seq::empty());
    for row in it: rows
        invariant
            it.seq() == all,
            stored_list(all.take(it.index())) == Ok::<Seq<SponsoredApiView>, ApiErrorView>(
                api_views(list@),
            ),
    {
        let ghost k = it.index();
        assert(row == all[k]);
        assert(all.take(k + 1).drop_last() =~= all.take(k));
        assert(all.take(k + 1).last() == row);
        let ghost before = list@;
        match stored_api(row) {
            Ok(api) => {
                list.push(api);
                assert(api_views(list@) =~= api_views(before).push(api@));
            },
            Err(error) => {
                proof {
                    lemma_stored_list_prefix(all, k + 1, error@);
                }
                return Err(error);
            },
        }
    }
    assert(all.take(all.len() as int) =~= all);
    Ok(list)
}

/// The APIs that the database keeps, in the order in which it gives them.
pub fn list_sponsored_apis(found: Result<Vec<SponsoredApiRow>, String>) -> (r: ApiResult<
    Vec<SponsoredApi>,
>)
    ensures
        match found {
            Ok(rows) => match r {
                Ok(list) => stored_list(rows@) == Ok::<Seq<SponsoredApiView>, ApiErrorView>(
                    api_views(list@),
                ),
                Err(error) => stored_list(rows@) == Err::<Seq<SponsoredApiView>, ApiErrorView>(
                    error@,
                ),
            },
            Err(message) => r matches Err(error) && error@ == database_failure(message@),
        },
{
    match database_answer(found) {
        Ok(rows) => stored_apis(rows),
        Err(error) => Err(error),
    }
}

/// A number of 64 bits as the database keeps it: by the signed number of the same bits.
pub open spec fn signed(n: u64) -> i64 {
    if n <= i64::MAX {
        n as i64
    } else {
        (n - 0x1_0000_0000_0000_0000) as i64
    }
}

/// A number of 64 bits as the database keeps it.
pub fn to_signed(n: u64) -> (r: i64)
    ensures
        r == signed(n),
{
    proof {
        assert(n > 0x7fff_ffff_ffff_ffff ==> (n as i64) == n - 0x1_0000_0000_0000_0000)
            by (bit_vector);
    }
    #[verifier::truncate]
    (n as i64)
}

impl SponsoredApiView {
    /// The row that keeps an API.
    pub open spec fn row(self) -> SponsoredApiRowView {
        SponsoredApiRowView {
            id: self.id,
            name: self.name,
            sponsor: self.sponsor,
            description: self.description,
            upstream_url: self.upstream_url,
            upstream_method: self.upstream_method,
            upstream_headers: self.upstream_headers,
            price_cents: signed(self.price_cents),
            budget_total_cents: signed(self.budget_total_cents),
            budget_remaining_cents: signed(self.budget_remaining_cents),
            active: self.active,
            service_key: self.service_key,
            created_at: self.created_at,
        }
    }
}

impl SponsoredApi {
    /// The row that keeps an API.
    pub fn into_row(self) -> (r: SponsoredApiRow)
        ensures
            r@ == self@.row(),
    {
        SponsoredApiRow {
            id: self.id,
            name: self.name,
            sponsor: self.sponsor,
            description: self.description,
            upstream_url: self.upstream_url,
            upstream_method: self.upstream_method,
            upstream_headers: self.upstream_headers,
            price_cents: to_signed(self.price_cents),
            budget_total_cents: to_signed(self.budget_total_cents),
            budget_remaining_cents: to_signed(self.budget_remaining_cents),
            active: self.active,
            service_key: self.service_key,
            created_at: self.created_at,
        }
    }
}

/// An API that is kept is found again, where its numbers fit in 63 bits.
pub proof fn law_row_round_trip(api: SponsoredApiView)
    requires
        api.price_cents <= i64::MAX,
        api.budget_total_cents <= i64::MAX,
        api.budget_remaining_cents <= i64::MAX,
    ensures
        api.row().stored_api() == Ok::<SponsoredApiView, ApiErrorView>(api),
{
}

/// To keep an API, and to find it again, brings in no header twice.
pub proof fn law_kept_headers_stay_distinct(api: SponsoredApiView, row: SponsoredApiRowView)
    ensures
        api.well_formed() ==> api.row().well_formed(),
        row.well_formed() ==> (row.stored_api() matches Ok(found) ==> found.well_formed()),
{
}

/// An API whose price does not fit in 63 bits is not given back: the database takes it for a
/// negative number.
pub proof fn law_oversized_price_is_refused(api: SponsoredApiView)
    requires
        api.price_cents > i64::MAX,
    ensures
        api.row().stored_api() == Err::<SponsoredApiView, ApiErrorView>(
            database_failure("price_cents must be non-negative"@),
        ),
{
}

/// The service that callers pay for who call an API.
pub open spec fn service_key(id: u128) -> Seq<char> {
    SPONSORED_API_SERVICE_PREFIX@ + "-"@ + uuid_text(id)
}

/// The service that callers pay for who call an API.
pub fn sponsored_api_service_key(id: u128) -> (r: String)
    ensures
        r@ == service_key(id),
{
    let mut key: String = SPONSORED_API_SERVICE_PREFIX.to_owned();
    key.append("-");
    key.append(print_id(id).as_str());
    key
}

/// No two APIs share a service: a payment for one pays for no other.
pub proof fn law_service_keys_differ(a: u128, b: u128)
    requires
        service_key(a) == service_key(b),
    ensures
        a == b,
{
    let prefix = SPONSORED_API_SERVICE_PREFIX@ + "-"@;
    assert(service_key(a).skip(prefix.len() as int) =~= uuid_text(a));
    assert(service_key(b).skip(prefix.len() as int) =~= uuid_text(b));
    law_uuid_text_is_injective(a, b);
}

/// A payment for putting up an API pays for no call of one, nor the other way round.
pub proof fn law_creation_is_no_call(id: u128)
    ensures
        service_key(id) != SPONSORED_API_CREATE_SERVICE@,
{
    reveal_strlit("sponsored-api");
    reveal_strlit("-");
    reveal_strlit("sponsored-api-create");
    assert(service_key(id).len() != SPONSORED_API_CREATE_SERVICE@.len());
}

} // verus!
