//! Applications: their list view with component state counts, the full row,
//! and the status counts of referenced applications.

use vstd::prelude::*;
use uuid::Uuid;
use serde_json::Value;
use crate::db::Timestamp;

verus! {

/// Application with component state counts (for list view).
#[derive(Debug)]
pub struct AppSummary {
    pub id: Uuid,
    pub name: String,
    pub description: Option<String>,
    pub organization_id: Uuid,
    pub site_id: Uuid,
    pub tags: Value,
    pub created_at: Timestamp,
    pub updated_at: Timestamp,
    pub component_count: i64,
    pub running_count: i64,
    pub starting_count: i64,
    pub stopping_count: i64,
    pub stopped_count: i64,
    pub failed_count: i64,
    pub unreachable_count: i64,
}

/// The list-view row as the database returns it: an aggregate over no
/// component may come back as no count at all.
#[derive(Debug)]
pub struct AppSummaryRow {
    pub id: Uuid,
    pub name: String,
    pub description: Option<String>,
    pub organization_id: Uuid,
    pub site_id: Uuid,
    pub tags: Value,
    pub created_at: Timestamp,
    pub updated_at: Timestamp,
    pub component_count: Option<i64>,
    pub running_count: Option<i64>,
    pub starting_count: Option<i64>,
    pub stopping_count: Option<i64>,
    pub stopped_count: Option<i64>,
    pub failed_count: Option<i64>,
    pub unreachable_count: Option<i64>,
}

/// Full application row.
#[derive(Debug)]
pub struct App {
    pub id: Uuid,
    pub name: String,
    pub description: Option<String>,
    pub organization_id: Uuid,
    pub site_id: Uuid,
    pub tags: Value,
    pub created_at: Timestamp,
    pub updated_at: Timestamp,
}

/// Parameters for listing apps.
#[derive(Debug)]
pub struct ListAppsParams {
    pub organization_id: Uuid,
    pub search: Option<String>,
    pub site_id: Option<Uuid>,
    pub limit: i64,
    pub offset: i64,
}

/// Parameters for creating an app.
#[derive(Debug)]
pub struct CreateApp {
    pub id: Uuid,
    pub name: String,
    pub description: Option<String>,
    pub organization_id: Uuid,
    pub site_id: Uuid,
    pub tags: Value,
}

/// Status counts of a referenced application.
#[derive(Debug)]
pub struct RefAppStatus {
    pub app_id: Uuid,
    pub app_name: String,
    pub running_count: i64,
    pub stopped_count: i64,
    pub failed_count: i64,
    pub starting_count: i64,
    pub stopping_count: i64,
    pub component_count: i64,
}

/// The referenced-application row as the database returns it.
#[derive(Debug)]
pub struct RefAppStatusRow {
    pub app_id: Uuid,
    pub app_name: String,
    pub component_count: Option<i64>,
    pub running_count: Option<i64>,
    pub starting_count: Option<i64>,
    pub stopping_count: Option<i64>,
    pub stopped_count: Option<i64>,
    pub failed_count: Option<i64>,
}

/// A count read from an aggregate: no count means zero.
pub open spec fn count_or_zero(c: Option<i64>) -> i64 {
    match c {
        Some(n) => n,
        None => 0,
    }
}

fn read_count(c: Option<i64>) -> (r: i64)
    ensures
        r == count_or_zero(c),
{
    match c {
        Some(n) => n,
        None => 0,
    }
}

impl AppSummaryRow {
    /// The list-view entry: the row's fields, with each missing count read as
    /// zero.
    pub fn into_summary(self) -> (r: AppSummary)
        ensures
            r.id == self.id,
            r.name == self.name,
            r.description == self.description,
            r.organization_id == self.organization_id,
            r.site_id == self.site_id,
            r.tags == self.tags,
            r.created_at == self.created_at,
            r.updated_at == self.updated_at,
            r.component_count == count_or_zero(self.component_count),
            r.running_count == count_or_zero(self.running_count),
            r.starting_count == count_or_zero(self.starting_count),
            r.stopping_count == count_or_zero(self.stopping_count),
            r.stopped_count == count_or_zero(self.stopped_count),
            r.failed_count == count_or_zero(self.failed_count),
            r.unreachable_count == count_or_zero(self.unreachable_count),
    {
        AppSummary {
            id: self.id,
            name: self.name,
            description: self.description,
            organization_id: self.organization_id,
            site_id: self.site_id,
            tags: self.tags,
            created_at: self.created_at,
            updated_at: self.updated_at,
            component_count: read_count(self.component_count),
            running_count: read_count(self.running_count),
            starting_count: read_count(self.starting_count),
            stopping_count: read_count(self.stopping_count),
            stopped_count: read_count(self.stopped_count),
            failed_count: read_count(self.failed_count),
            unreachable_count: read_count(self.unreachable_count),
        }
    }
}

impl RefAppStatusRow {
    /// The referenced application's status, with each missing count read as
    /// zero.
    pub fn into_status(self) -> (r: RefAppStatus)
        ensures
            r.app_id == self.app_id,
            r.app_name == self.app_name,
            r.component_count == count_or_zero(self.component_count),
            r.running_count == count_or_zero(self.running_count),
            r.starting_count == count_or_zero(self.starting_count),
            r.stopping_count == count_or_zero(self.stopping_count),
            r.stopped_count == count_or_zero(self.stopped_count),
            r.failed_count == count_or_zero(self.failed_count),
    {
        RefAppStatus {
            app_id: self.app_id,
            app_name: self.app_name,
            running_count: read_count(self.running_count),
            stopped_count: read_count(self.stopped_count),
            failed_count: read_count(self.failed_count),
            starting_count: read_count(self.starting_count),
            stopping_count: read_count(self.stopping_count),
            component_count: read_count(self.component_count),
        }
    }
}

} // verus!
