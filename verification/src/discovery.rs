//! Association-identifier discovery.
//!
//! While target hosts join the network, one monitor host captures
//! association-response frames and emits one numeric field per matching
//! frame. The resulting text is parsed here: the header line is skipped,
//! an optional `0x` prefix is stripped from each remaining line, and each
//! line is read as a base-16 sixteen-bit identifier, in the order received.
//! The identifiers are then assigned to the monitor hosts by position.

use vstd::prelude::*;

use crate::hosts::Host;
use crate::hosts::HostId;
use crate::hosts::HostV;
use crate::text::hex_value;
use crate::text::is_hex_seq;
use crate::text::lines_of;
use crate::text::parse_hex_u16;
use crate::text::split_lines;
use crate::text::str_eq;

verus! {

/// An error in the discovery protocol.
#[derive(Debug)]
pub enum DiscoveryError {
    /// This discovery output line could not be parsed as an identifier.
    BadAidLine(String),
    /// Fewer identifiers were discovered than there are monitor hosts; no
    /// placeholder is ever substituted for the missing ones.
    AidShortfall { expected: usize, got: usize },
    /// This monitor host's wireless driver cannot take an assigned
    /// association identifier.
    UnsupportedDriver { host: HostId, driver: Option<String> },
}

/// A discovery output line with an optional `0x` prefix stripped.
pub open spec fn aid_digits(line: Seq<char>) -> Seq<char> {
    if line.len() >= 2 && line[0] == '0' && line[1] == 'x' {
        line.subrange(2, line.len() as int)
    } else {
        line
    }
}

/// The identifier a discovery output line carries, if it parses as a
/// base-16 sixteen-bit number.
pub open spec fn parse_aid(line: Seq<char>) -> Option<u16> {
    let h = aid_digits(line);
    if is_hex_seq(h) && hex_value(h) <= 0xFFFF {
        Some(hex_value(h) as u16)
    } else {
        None
    }
}

/// The identifier-bearing lines of a discovery output: every line after the
/// header line.
pub open spec fn aid_lines(text: Seq<char>) -> Seq<Seq<char>> {
    if lines_of(text).len() == 0 {
        Seq::empty()
    } else {
        lines_of(text).drop_first()
    }
}

/// Whether every identifier-bearing line of the output parses.
pub open spec fn aids_parse_ok(text: Seq<char>) -> bool {
    forall|i: int| 0 <= i < aid_lines(text).len() ==> #[trigger] parse_aid(aid_lines(text)[i])
        is Some
}

/// Parses a discovery output into its identifiers, in the order received.
///
/// The header line is skipped; each remaining line, with an optional `0x`
/// prefix stripped, must read as a base-16 sixteen-bit number. A parse
/// failure on any line fails the whole discovery, reporting the first line
/// at fault.
pub fn extract_aids(text: &str) -> (r: Result<Vec<u16>, DiscoveryError>)
    ensures
        r is Ok <==> aids_parse_ok(text@),
        r is Ok ==> ({
            let out = r->Ok_0;
            &&& out@.len() == aid_lines(text@).len()
            &&& forall|i: int|
                0 <= i < out@.len() ==> Some(#[trigger] out@[i]) == parse_aid(aid_lines(text@)[i])
        }),
        r is Err ==> (r->Err_0 matches DiscoveryError::BadAidLine(bad) && exists|k: int|
            {
                &&& 0 <= k < aid_lines(text@).len()
                &&& #[trigger] parse_aid(aid_lines(text@)[k]) is None
                &&& bad@ == aid_lines(text@)[k]
                &&& forall|j: int| 0 <= j < k ==> #[trigger] parse_aid(aid_lines(text@)[j]) is Some
            }),
{
    let lines = split_lines(text);
    let n = lines.len();
    let ghost als = aid_lines(text@);
    let mut out: Vec<u16> = Vec::new();
    if n == 0 {
        return Ok(out);
    }
    let mut k: usize = 1;
    while k < n
        invariant
            1 <= k <= n,
            n == lines_of(text@).len(),
            lines@.len() == n,
            als == aid_lines(text@),
            als.len() == n - 1,
            forall|i: int| 0 <= i < n ==> lines@[i]@ == lines_of(text@)[i],
            forall|i: int| 0 <= i < als.len() ==> als[i] == lines_of(text@)[i + 1],
            out@.len() == k - 1,
            forall|i: int| 0 <= i < out@.len() ==> Some(#[trigger] out@[i]) == parse_aid(als[i]),
        decreases n - k,
    {
        let line: &String = &lines[k];
        let line_len = line.as_str().unicode_len();
        let digits: &str = if line_len >= 2 && line.as_str().get_char(0) == '0'
            && line.as_str().get_char(1) == 'x' {
            line.as_str().substring_char(2, line_len)
        } else {
            line.as_str()
        };
        proof {
            assert(digits@ == aid_digits(als[k - 1]));
        }
        match parse_hex_u16(digits) {
            Some(aid) => {
                out.push(aid);
            },
            None => {
                proof {
                    assert(parse_aid(als[k - 1]) is None);
                    assert forall|j: int| 0 <= j < k - 1 implies #[trigger] parse_aid(als[j])
                        is Some by {
                        assert(Some(out@[j]) == parse_aid(als[j]));
                    }
                }
                return Err(DiscoveryError::BadAidLine(line.clone()));
            },
        }
        k = k + 1;
    }
    proof {
        assert forall|i: int| 0 <= i < als.len() implies #[trigger] parse_aid(als[i]) is Some by {
            assert(Some(out@[i]) == parse_aid(als[i]));
        }
    }
    Ok(out)
}

/// Whether a monitor host's driver supports taking an assigned association
/// identifier; only the one supported wireless driver qualifies.
pub open spec fn driver_supported(h: HostV) -> bool {
    h.extra_data.wifi_driver == Some("iwlwifi"@)
}

/// One association identifier assigned to one monitor host.
#[derive(Debug)]
pub struct AidAssignment {
    /// The monitor host the identifier is assigned to.
    pub host_id: HostId,
    /// The assigned association identifier.
    pub aid: u16,
}

/// Assigns discovered identifiers to monitor hosts by position: identifier
/// `i` goes to monitor host `i`. Extra identifiers beyond the monitor-host
/// count are discarded; a shortfall is an explicit error, never papered over
/// with a placeholder. Every paired host must run the supported wireless
/// driver; the first that does not is reported with its driver name.
pub fn assign_aids(aids: &Vec<u16>, monitors: &Vec<Host>) -> (r: Result<
    Vec<AidAssignment>,
    DiscoveryError,
>)
    ensures
        r is Ok <==> aids@.len() >= monitors@.len() && (forall|i: int|
            0 <= i < monitors@.len() ==> driver_supported(#[trigger] monitors@[i]@)),
        r is Ok ==> ({
            let out = r->Ok_0;
            &&& out@.len() == monitors@.len()
            &&& forall|i: int|
                0 <= i < out@.len() ==> (#[trigger] out@[i]).host_id@ == monitors@[i].id@
                    && out@[i].aid == aids@[i]
        }),
        r is Err && aids@.len() < monitors@.len() ==> (r->Err_0 matches DiscoveryError::AidShortfall {
            expected,
            got,
        } && expected == monitors@.len() && got == aids@.len()),
        r is Err && aids@.len() >= monitors@.len() ==> (r->Err_0 matches DiscoveryError::UnsupportedDriver {
            host,
            driver,
        } && exists|k: int|
            {
                &&& 0 <= k < monitors@.len()
                &&& !driver_supported(#[trigger] monitors@[k]@)
                &&& host@ == monitors@[k].id@
                &&& ({
                    let d = monitors@[k]@.extra_data.wifi_driver;
                    match driver {
                        Some(s) => Some(s@) == d,
                        None => d is None,
                    }
                })
                &&& forall|j: int| 0 <= j < k ==> driver_supported(#[trigger] monitors@[j]@)
            }),
{
    if aids.len() < monitors.len() {
        return Err(DiscoveryError::AidShortfall { expected: monitors.len(), got: aids.len() });
    }
    let n = monitors.len();
    let mut out: Vec<AidAssignment> = Vec::new();
    let mut k: usize = 0;
    while k < n
        invariant
            k <= n,
            n == monitors@.len(),
            n <= aids@.len(),
            out@.len() == k,
            forall|j: int| 0 <= j < k ==> driver_supported(#[trigger] monitors@[j]@),
            forall|i: int|
                0 <= i < out@.len() ==> (#[trigger] out@[i]).host_id@ == monitors@[i].id@
                    && out@[i].aid == aids@[i],
        decreases n - k,
    {
        let h = &monitors[k];
        let supported = match &h.extra_data.wifi_driver {
            Some(d) => str_eq(d.as_str(), "iwlwifi"),
            None => false,
        };
        if !supported {
            proof {
                assert(!driver_supported(monitors@[k as int]@));
            }
            let driver = match &h.extra_data.wifi_driver {
                Some(d) => Some(d.clone()),
                None => None,
            };
            return Err(DiscoveryError::UnsupportedDriver { host: h.id.clone(), driver });
        }
        proof {
            assert(driver_supported(monitors@[k as int]@));
        }
        out.push(AidAssignment { host_id: h.id.clone(), aid: aids[k] });
        k = k + 1;
    }
    Ok(out)
}

} // verus!
