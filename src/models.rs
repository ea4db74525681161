//! Crawlers, sites, pages and the notification preferences they carry.

use std::collections::HashMap;
use vstd::prelude::*;

verus! {

#[verifier::external_type_specification]
#[verifier::external_body]
pub struct ExUuid(uuid::Uuid);

/// Relies on `uuid::Uuid::now_v7`: a fresh version 7 identifier built from
/// the clock and random bits, so nothing is promised of its value.
pub assume_specification[ uuid::Uuid::now_v7 ]() -> (r: uuid::Uuid);

/// Relies on the `Clone` that `uuid::Uuid` derives beside `Copy`: the copy is
/// the same identifier.
pub assume_specification[ <uuid::Uuid as Clone>::clone ](u: &uuid::Uuid) -> (r: uuid::Uuid)
    ensures
        r == *u,
;

/// A point in time as seconds and nanoseconds since the Unix epoch (UTC).
#[derive(Clone, Copy, Debug, PartialEq, Eq, Structural)]
pub struct Timestamp {
    pub secs: i64,
    pub nanos: u32,
}

/// Scheduling tier of a crawler, from the most to the least urgent.
#[derive(Clone, Copy, Debug, PartialEq, Eq, Structural)]
pub enum Priority {
    Top,
    High,
    Common,
    Low,
}

#[derive(Clone, Copy, Debug, PartialEq, Eq, Structural)]
pub enum NotificationLevel {
    JobsDone,
    JobsFailed,
    Statistics,
    DoNotDisturb,
}

#[derive(Clone, Copy, Debug, PartialEq, Eq, Structural)]
pub enum NotifyEvery {
    Day,
    Week,
    Month,
}

#[derive(Clone, Debug)]
pub enum NotifyVia {
    Email(String),
    Telegram(String),
}

#[derive(Clone, Debug)]
pub struct NotificationOptions {
    pub level: NotificationLevel,
    pub via: Vec<NotifyVia>,
    pub every: Option<NotifyEvery>,
}

/// A named, owned, recurring scrape job over one site.
#[derive(Clone, Debug)]
pub struct Crawler {
    pub id: uuid::Uuid,
    pub name: String,
    pub user_id: uuid::Uuid,
    pub timer_rule: String,
    pub priority: Priority,
    pub notification: NotificationOptions,
    pub created_at: Timestamp,
    pub updated_at: Timestamp,
    pub site: Site,
    pub meta: Option<String>,
}

/// The target of a crawler: its domain, start page and extraction rules.
#[derive(Clone, Debug)]
pub struct Site {
    pub id: uuid::Uuid,
    pub domain: String,
    pub start_page: String,
    pub page_xpaths: HashMap<String, String>,
    pub pagination_xpaths: HashMap<String, String>,
    pub meta: Option<String>,
}

/// One fetched or parsed unit of a crawler's site.
#[derive(Clone, Debug)]
pub struct Page {
    pub id: uuid::Uuid,
    pub crawler_id: uuid::Uuid,
    pub site_id: uuid::Uuid,
    pub url: String,
    pub domain: String,
    pub is_pagination: bool,
    pub times_reparsed: u32,
    pub priority: Priority,
    pub notification: NotificationOptions,
    pub xpaths: HashMap<String, String>,
    pub created_at: Timestamp,
    pub updated_at: Timestamp,
    pub html: Option<String>,
    pub data: Option<HashMap<String, String>>,
    pub meta: Option<String>,
}

/// Coarse progress of a submitted site, as the gateway reports it.
#[derive(Clone, Copy, Debug, PartialEq, Eq, Structural)]
pub enum EventStatus {
    Pending,
    RegisterError,
    ScrapperProcessing,
    ScrapperDone,
    ScrapperError,
    ParserProcessing,
    ParserError,
    ParserDone,
}

#[derive(Clone, Debug)]
pub struct AddSiteEvent {
    pub id: usize,
    pub url: String,
    pub user_id: usize,
    pub is_pagination: bool,
    pub refresh_interval: usize,
    pub xpaths: HashMap<String, String>,
    pub status: EventStatus,
}

/// A page as the scraping worker tracks it between refreshes.
#[derive(Clone, Debug)]
pub struct PageMessage {
    pub url: String,
    pub status: EventStatus,
    pub xpaths: HashMap<String, String>,
    pub created_at: Timestamp,
    pub updated_at: Timestamp,
    pub is_pagination: bool,
    pub refresh_interval: u64,
    pub refresh_at: Timestamp,
    pub last_refresh: Timestamp,
}

#[derive(Clone, Copy, Debug, PartialEq, Eq, Structural)]
pub enum CommandStatus {
    Pending,
    Done,
    Failed,
}

#[derive(Clone, Copy, Debug, PartialEq, Eq, Structural)]
pub enum SchedulerCommand {
    RegisterCrawler(CommandStatus),
    ScrapePage(CommandStatus),
    ExtractPage(CommandStatus),
    StorePage(CommandStatus),
    NotifyUser(CommandStatus),
    Sleep(CommandStatus),
}

#[derive(Clone, Debug)]
pub struct MessageToScheduler {
    pub action: SchedulerCommand,
    pub crawler: Option<Crawler>,
    pub page: Option<Page>,
}

} // verus!
