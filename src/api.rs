//! Payloads that the HTTP gateway and the scraping worker exchange, and the
//! replies built from them.

use crate::models::EventStatus;
use std::collections::HashMap;
use vstd::prelude::*;

verus! {

#[derive(Clone, Debug)]
pub struct GetCrawlerIn {
    pub url: String,
    pub user_id: usize,
    pub is_pagination: bool,
    pub refresh_interval: usize,
    pub xpaths: HashMap<String, String>,
}

#[derive(Clone, Debug)]
pub struct GetCrawlerOut {
    pub params: GetCrawlerIn,
    pub event_id: usize,
    pub status: EventStatus,
}

#[derive(Clone, Debug)]
pub struct AddCrawlerIn {
    pub url: String,
    pub user_id: usize,
    pub is_pagination: bool,
    pub refresh_interval: usize,
    pub xpaths: HashMap<String, String>,
}

#[derive(Clone, Debug)]
pub struct AddCrawlerOut {
    pub params: AddCrawlerIn,
    pub event_id: usize,
    pub status: EventStatus,
}

#[derive(Clone, Debug)]
pub struct DeleteCrawlerIn {
    pub url: String,
    pub user_id: usize,
    pub is_pagination: bool,
    pub refresh_interval: usize,
    pub xpaths: HashMap<String, String>,
}

#[derive(Clone, Debug)]
pub struct DeleteCrawlerOut {
    pub params: DeleteCrawlerIn,
    pub event_id: usize,
    pub status: EventStatus,
}

#[derive(Clone, Debug)]
pub struct UpdateCrawlerIn {
    pub url: String,
    pub user_id: usize,
    pub is_pagination: bool,
    pub refresh_interval: usize,
    pub xpaths: HashMap<String, String>,
}

#[derive(Clone, Debug)]
pub struct UpdateCrawlerOut {
    pub params: UpdateCrawlerIn,
    pub event_id: usize,
    pub status: EventStatus,
}

#[derive(Clone, Debug)]
pub struct GetCrawlersIn {
    pub url: String,
    pub user_id: usize,
    pub is_pagination: bool,
    pub refresh_interval: usize,
    pub xpaths: HashMap<String, String>,
}

#[derive(Clone, Debug)]
pub struct GetCrawlersOut {
    pub params: GetCrawlerIn,
    pub event_id: usize,
    pub status: EventStatus,
}

#[derive(Clone, Debug)]
pub struct CreateUserPayload {
    pub first_name: String,
    pub last_name: String,
    pub country: String,
}

/// A site submitted for crawling.
#[derive(Clone, Debug)]
pub struct AddSiteIn {
    pub url: String,
    pub user_id: usize,
    pub is_pagination: bool,
    pub refresh_interval: usize,
    pub xpaths: HashMap<String, String>,
}

/// The acknowledgement of a submitted site.
#[derive(Clone, Debug)]
pub struct AddSitedOut {
    pub params: AddSiteIn,
    pub event_id: usize,
    pub status: EventStatus,
}

/// Acknowledges a submitted site: it is echoed back as event 1, pending.
pub fn add_site(payload: AddSiteIn) -> (r: AddSitedOut)
    ensures
        r.params == payload,
        r.event_id == 1,
        r.status == EventStatus::Pending,
{
    AddSitedOut { params: payload, event_id: 1, status: EventStatus::Pending }
}

/// A page to fetch, as the scraping worker receives it.
#[derive(Clone, Debug)]
pub struct MessageIn {
    pub event_id: String,
    pub user_id: String,
    pub url: String,
    pub xpaths: HashMap<String, String>,
    pub is_pagination: bool,
    pub refresh_interval: usize,
    pub status: EventStatus,
}

/// A fetched page, as the scraping worker reports it.
#[derive(Clone, Debug)]
pub struct MessageOut {
    pub html: String,
    pub event_id: String,
    pub url: String,
    pub user_id: String,
    pub is_pagination: bool,
    pub refresh_interval: usize,
    pub xpaths: HashMap<String, String>,
    pub statuts: EventStatus,
}

/// The report of a fetched page: the request's fields with the page's HTML.
pub fn scrape_reply(msg_in: MessageIn, html: String) -> (r: MessageOut)
    ensures
        r.html == html,
        r.event_id == msg_in.event_id,
        r.user_id == msg_in.user_id,
        r.url == msg_in.url,
        r.xpaths == msg_in.xpaths,
        r.is_pagination == msg_in.is_pagination,
        r.refresh_interval == msg_in.refresh_interval,
        r.statuts == msg_in.status,
{
    MessageOut {
        html,
        event_id: msg_in.event_id,
        user_id: msg_in.user_id,
        url: msg_in.url,
        xpaths: msg_in.xpaths,
        is_pagination: msg_in.is_pagination,
        refresh_interval: msg_in.refresh_interval,
        statuts: msg_in.status,
    }
}

} // verus!
