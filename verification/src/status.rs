//! The status report of the backend.
use vstd::prelude::*;
use crate::level::{calculate_level_from_xp, is_level_of};

verus! {

/// The experience points of the sample player shown in the status report.
pub const STATUS_SAMPLE_XP: u32 = 4500;

/// What the status endpoint reports.
#[derive(Debug, PartialEq, Eq)]
pub struct StatusReport {
    pub status: String,
    pub postgres_connected: bool,
    pub postgres_market_listings: i64,
    pub mongo_collections_found: usize,
    pub message: String,
    pub player_xp: u32,
    pub verified_level: u32,
}

/// Builds the report from what the probes returned: the value of
/// `SELECT 1` (`None` when the query failed), the count of market listings
/// (`None` when the query failed, `Some(None)` when it gave NULL) and the
/// number of MongoDB collections (`None` when listing them failed).
pub fn status_report(
    postgres_probe: Option<i32>,
    market_listings: Option<Option<i64>>,
    mongo_collections: Option<usize>,
) -> (report: StatusReport)
    ensures
        report.status@ == "online"@,
        report.postgres_connected == (postgres_probe == Some(1i32)),
        report.postgres_market_listings == match market_listings {
            Some(Some(n)) => n,
            _ => 0,
        },
        report.mongo_collections_found == match mongo_collections {
            Some(n) => n,
            None => 0,
        },
        report.message@ == "Backend is locked and loaded!"@,
        report.player_xp == STATUS_SAMPLE_XP,
        is_level_of(STATUS_SAMPLE_XP as int, report.verified_level as int),
        report.verified_level == 7,
{
    let probe: i32 = match postgres_probe {
        Some(v) => v,
        None => 0,
    };
    let listings: i64 = match market_listings {
        Some(Some(n)) => n,
        _ => 0,
    };
    let collections: usize = match mongo_collections {
        Some(n) => n,
        None => 0,
    };
    let level = calculate_level_from_xp(STATUS_SAMPLE_XP);
    assert(level == 7) by (nonlinear_arith)
        requires
            level >= 1,
            100 * (level - 1) * (level - 1) <= 4500,
            4500 < 100 * level * level,
    ;
    StatusReport {
        status: "online".to_owned(),
        postgres_connected: probe == 1,
        postgres_market_listings: listings,
        mongo_collections_found: collections,
        message: "Backend is locked and loaded!".to_owned(),
        player_xp: STATUS_SAMPLE_XP,
        verified_level: level,
    }
}

} // verus!
