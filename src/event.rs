//! The event envelope that travels between pipeline stages.

use crate::models::{Crawler, Page};
use vstd::prelude::*;

verus! {

/// Where a command stands: requested, finished, or failed.
#[derive(Clone, Copy, Debug, PartialEq, Eq, Structural)]
pub enum EventCommandStatus {
    Pending,
    Done,
    Failed,
}

/// The pipeline step an envelope is about, with its status.
#[derive(Clone, Copy, Debug, PartialEq, Eq, Structural)]
pub enum EventCommand {
    RegisterCrawler(EventCommandStatus),
    ScrapePage(EventCommandStatus),
    ExtractPage(EventCommandStatus),
    StorePage(EventCommandStatus),
    NotifyUser(EventCommandStatus),
    Sleep(EventCommandStatus),
}

/// The payload of an envelope: a whole crawler definition (`External`, as the
/// gateway sends it) or a single page derived from one (`Internal`).
#[derive(Clone, Debug)]
pub enum EventProtocolData {
    External(Crawler),
    Internal(Page),
}

/// The unit of work flowing through the broker.
#[derive(Clone, Debug)]
pub struct EventProtocol {
    pub command: EventCommand,
    pub data: EventProtocolData,
}

impl EventCommand {
    /// The status carried by the command.
    pub open spec fn spec_status(&self) -> EventCommandStatus {
        match *self {
            EventCommand::RegisterCrawler(s) => s,
            EventCommand::ScrapePage(s) => s,
            EventCommand::ExtractPage(s) => s,
            EventCommand::StorePage(s) => s,
            EventCommand::NotifyUser(s) => s,
            EventCommand::Sleep(s) => s,
        }
    }

    #[verifier::when_used_as_spec(spec_status)]
    pub fn status(&self) -> (r: EventCommandStatus)
        ensures
            r == self.spec_status(),
    {
        match self {
            EventCommand::RegisterCrawler(s) => *s,
            EventCommand::ScrapePage(s) => *s,
            EventCommand::ExtractPage(s) => *s,
            EventCommand::StorePage(s) => *s,
            EventCommand::NotifyUser(s) => *s,
            EventCommand::Sleep(s) => *s,
        }
    }
}

impl EventProtocol {
    /// The target domain of the envelope: the page's, or the crawler's site's.
    pub open spec fn spec_domain(&self) -> Seq<char> {
        match self.data {
            EventProtocolData::External(c) => c.site.domain@,
            EventProtocolData::Internal(p) => p.domain@,
        }
    }

    pub fn domain(&self) -> (r: &String)
        ensures
            r@ == self.spec_domain(),
    {
        match &self.data {
            EventProtocolData::External(c) => &c.site.domain,
            EventProtocolData::Internal(p) => &p.domain,
        }
    }
}

} // verus!
