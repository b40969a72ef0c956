//! The scrape endpoint: where it listens and what it answers.

use vstd::prelude::*;

verus! {

/// The port on which scrapes are served.
pub const SCRAPE_PORT: u16 = 9898;

/// The status of every answer to a scrape.
pub const STATUS_OK: u16 = 200;

/// The address on which scrapes are served: every interface of the host.
pub fn listen_address() -> (address: ([u8; 4], u16))
    ensures
        address.0@ == seq![0u8, 0u8, 0u8, 0u8],
        address.1 == SCRAPE_PORT,
{
    ([0u8, 0u8, 0u8, 0u8], SCRAPE_PORT)
}

/// The answer to one scrape.
#[derive(Debug)]
pub struct ScrapeReply {
    pub status: u16,
    pub content_type: String,
    pub body: Vec<u8>,
}

/// The answer to a scrape, whatever was asked for: the encoded snapshot, under
/// the content type that its encoder declares.
pub fn scrape_reply(content_type: String, body: Vec<u8>) -> (reply: ScrapeReply)
    ensures
        reply.status == STATUS_OK,
        reply.content_type == content_type,
        reply.body == body,
{
    ScrapeReply { status: STATUS_OK, content_type, body }
}

} // verus!
