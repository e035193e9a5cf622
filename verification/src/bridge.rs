//! Bridges on the local network, and what their replies mean.

use vstd::prelude::*;

use crate::address::IpAddress;
use crate::config::User;
use crate::errors::{bridge_error_text, BridgeError};
use crate::string_map::StringMap;

verus! {

/// Name of the mDNS service that bridges announce.
pub const MDNS_BRIDGE_SERVICE_NAME: &'static str = "_hue._tcp.local";

/// Address of the service that lists the bridges of a network.
pub const DISCOVERY_URL: &'static str = "https://discovery.meethue.com/";

/// The device type under which the program registers itself on a bridge.
pub const DEVICE_TYPE: &'static str = "rue_tui_app";

/// A bridge found on the network.
#[derive(Debug, Clone, Copy, PartialEq, Eq, Structural)]
pub struct Bridge {
    internal_ip_address: IpAddress,
}

/// The reply of a bridge that accepted a registration: `{"success": {...}}`.
#[derive(Debug)]
pub struct SuccessResponse {
    pub success: StringMap,
}

/// The reply of a bridge that refused a registration: `{"error": {...}}`.
#[derive(Debug)]
pub struct ErrorResponse {
    pub error: StringMap,
}

/// The kind of an mDNS record, as far as bridge discovery looks at it.
#[derive(Debug, Clone, Copy, PartialEq, Eq, Structural)]
pub enum RecordKind {
    /// An IPv4 address record.
    A(u32),
    /// An IPv6 address record.
    AAAA(u128),
    /// Any other record.
    Other,
}

/// An mDNS record of a discovery response.
#[derive(Debug, Clone, Copy, PartialEq, Eq, Structural)]
pub struct Record {
    pub kind: RecordKind,
}

/// What to do with the reply of the discovery service.
#[derive(Debug, Clone, Copy, PartialEq, Eq, Structural)]
pub enum DiscoveryReply {
    /// The status is OK: the body is the list of bridges.
    DecodeBridges,
    /// Any other status: the body is the text of the failure.
    ReportFailure,
}

/// The address that an mDNS record announces, if it is an address record.
pub open spec fn record_address(record: Record) -> Option<IpAddress> {
    match record.kind {
        RecordKind::A(a) => Some(IpAddress::V4(a)),
        RecordKind::AAAA(a) => Some(IpAddress::V6(a)),
        RecordKind::Other => None,
    }
}

/// The first address announced among `records`.
pub open spec fn first_address(records: Seq<Record>) -> Option<IpAddress>
    decreases records.len(),
{
    if records.len() == 0 {
        None
    } else if record_address(records[0]) is Some {
        record_address(records[0])
    } else {
        first_address(records.drop_first())
    }
}

/// The text of the error reported for a reply whose form is not understood.
pub open spec fn unknown_format_text() -> Seq<char> {
    "Unknown response format"@
}

/// The user that a registration reply yields, or the error it stands for.
/// A success reply counts only when it names a user; an error reply counts
/// only when the bridge's link button was not pressed.
pub open spec fn reply_outcome_is(
    ip: IpAddress,
    success: Option<SuccessResponse>,
    error: Option<ErrorResponse>,
    res: Result<User, BridgeError>,
) -> bool {
    match success {
        Some(s) => if s.success@.contains_key("username"@) {
            res matches Ok(u) && u.username@ == s.success@["username"@] && u.bridge_address == ip
        } else {
            res matches Err(BridgeError::ResponseError(m)) && m@ == unknown_format_text()
        },
        None => if error matches Some(e) && e.error@.contains_key("description"@)
            && e.error@["description"@] == "Link button not pressed"@ {
            res matches Err(BridgeError::ButtonNotPressed)
        } else {
            res matches Err(BridgeError::ResponseError(m)) && m@ == unknown_format_text()
        },
    }
}

/// What one registration request reports once it has run: the user, the
/// refusal for a link button that was not pressed, or an internal error
/// that carries the text of any other failure.
pub open spec fn request_report_is(
    outcome: Result<Result<User, BridgeError>, String>,
    res: Result<User, BridgeError>,
) -> bool {
    match outcome {
        Ok(Ok(u)) => res == Ok::<User, BridgeError>(u),
        Ok(Err(BridgeError::ButtonNotPressed)) => res matches Err(BridgeError::ButtonNotPressed),
        Ok(Err(e)) => res matches Err(BridgeError::InternalError(m)) && m@ == bridge_error_text(e),
        Err(m) => res == Err::<User, BridgeError>(BridgeError::InternalError(m)),
    }
}

/// Record `k` is the first record of `records` that holds an address: it is
/// an A or AAAA record and every record before it is of another kind.
pub open spec fn is_first_address_record(records: Seq<Record>, k: int) -> bool {
    &&& 0 <= k < records.len()
    &&& !(records[k].kind is Other)
    &&& forall|j: int| 0 <= j < k ==> (#[trigger] records[j]).kind is Other
}

/// The first address announced is the address of the first A or AAAA
/// record, wherever it stands (the last record included).
pub proof fn lemma_first_address_is_first(records: Seq<Record>, k: int)
    requires
        is_first_address_record(records, k),
    ensures
        first_address(records) == record_address(records[k]),
        records[k].kind matches RecordKind::A(a) ==> first_address(records) == Some(IpAddress::V4(a)),
        records[k].kind matches RecordKind::AAAA(a) ==> first_address(records) == Some(
            IpAddress::V6(a),
        ),
    decreases k,
{
    if k > 0 {
        assert(records[0].kind is Other);
        let rest = records.drop_first();
        assert forall|j: int| 0 <= j < k - 1 implies (#[trigger] rest[j]).kind is Other by {
            assert(rest[j] == records[j + 1]);
        }
        assert(rest[k - 1] == records[k]);
        lemma_first_address_is_first(rest, k - 1);
    }
}

/// A response with no A or AAAA record announces no address.
pub proof fn lemma_first_address_none(records: Seq<Record>)
    requires
        forall|j: int| 0 <= j < records.len() ==> (#[trigger] records[j]).kind is Other,
    ensures
        first_address(records) is None,
    decreases records.len(),
{
    if records.len() > 0 {
        let rest = records.drop_first();
        assert forall|j: int| 0 <= j < rest.len() implies (#[trigger] rest[j]).kind is Other by {
            assert(rest[j] == records[j + 1]);
        }
        lemma_first_address_none(rest);
    }
}

/// What a registration request reports carries the user it registered
/// unchanged (same name, same bridge); it reports the link button as not
/// pressed exactly when the request itself did; any other failure of the
/// request becomes an internal error holding that failure's text, and a task
/// that failed to run becomes an internal error holding the task's text.
pub proof fn lemma_request_report_meaning(
    outcome: Result<Result<User, BridgeError>, String>,
    res: Result<User, BridgeError>,
)
    requires
        request_report_is(outcome, res),
    ensures
        outcome matches Ok(Ok(u)) ==> (res matches Ok(r) && r.username == u.username
            && r.bridge_address == u.bridge_address),
        (res matches Err(BridgeError::ButtonNotPressed)) <==> (outcome matches Ok(
            Err(BridgeError::ButtonNotPressed),
        )),
        outcome matches Ok(Err(e)) ==> (!(e is ButtonNotPressed) ==> (res matches Err(
            BridgeError::InternalError(m)) && m@ == bridge_error_text(e))),
        outcome matches Err(m) ==> (res matches Err(BridgeError::InternalError(t)) && t == m),
        res is Ok ==> outcome matches Ok(Ok(_)),
{
}

/// How a registration reply is read: a success reply naming a user yields
/// that user at the bridge asked; an error reply whose description is "Link
/// button not pressed" means the button was not pressed, whatever else it
/// holds; a user comes only from a success reply, and the button is reported
/// only from such an error reply.
pub proof fn lemma_reply_meaning(
    ip: IpAddress,
    success: Option<SuccessResponse>,
    error: Option<ErrorResponse>,
    res: Result<User, BridgeError>,
)
    requires
        reply_outcome_is(ip, success, error, res),
    ensures
        success matches Some(s) ==> (s.success@.contains_key("username"@) ==> (res matches Ok(u)
            && u.username@ == s.success@["username"@] && u.bridge_address == ip)),
        res matches Ok(u) ==> (u.bridge_address == ip && (success matches Some(s)
            && s.success@.contains_key("username"@) && u.username@ == s.success@["username"@])),
        success is None ==> (error matches Some(e) ==> ((e.error@.contains_key("description"@)
            && e.error@["description"@] == "Link button not pressed"@) ==> res matches Err(
            BridgeError::ButtonNotPressed))),
        res matches Err(BridgeError::ButtonNotPressed) ==> (success is None && (error matches Some(e)
            && e.error@.contains_key("description"@) && e.error@["description"@]
            == "Link button not pressed"@)),
{
}

impl Bridge {
    /// The bridge at `internal_ip_address`.
    pub fn new(internal_ip_address: IpAddress) -> (b: Bridge)
        ensures
            b.address() == internal_ip_address,
    {
        Bridge { internal_ip_address }
    }

    /// The bridge's address on the local network.
    pub closed spec fn address(self) -> IpAddress {
        self.internal_ip_address
    }

    /// The bridge's address on the local network.
    pub fn internal_ip_address(&self) -> (a: IpAddress)
        ensures
            a == self.address(),
    {
        self.internal_ip_address
    }

    /// The address of a bridge's API, given the bridge's host as text.
    pub fn api_address(host: &str) -> (address: String)
        ensures
            address@ == "http://"@ + host@ + "/api"@,
    {
        let address = String::from_str("http://");
        let address = address.concat(host);
        address.concat("/api")
    }

    /// How the reply of the discovery service is read, by its HTTP status.
    pub fn discovery_reply(status: u16) -> (r: DiscoveryReply)
        ensures
            r == (if status == 200 {
                DiscoveryReply::DecodeBridges
            } else {
                DiscoveryReply::ReportFailure
            }),
    {
        if status == 200 {
            DiscoveryReply::DecodeBridges
        } else {
            DiscoveryReply::ReportFailure
        }
    }

    /// The address that an mDNS record announces: the records of kind A and
    /// AAAA give one, all others none.
    pub fn to_ip_addr(record: &Record) -> (a: Option<IpAddress>)
        ensures
            a == record_address(*record),
            record.kind matches RecordKind::A(v4) ==> a == Some(IpAddress::V4(v4)),
            record.kind matches RecordKind::AAAA(v6) ==> a == Some(IpAddress::V6(v6)),
            record.kind is Other ==> a is None,
    {
        match record.kind {
            RecordKind::A(a) => Some(IpAddress::V4(a)),
            RecordKind::AAAA(a) => Some(IpAddress::V6(a)),
            RecordKind::Other => None,
        }
    }

    /// The bridges that an mDNS discovery finds from the records of the first
    /// response it receives (`None` when none came): the bridge at the first
    /// address announced, or no bridge found when no record holds an address.
    pub fn mdns_discovery(response: Option<Vec<Record>>) -> (res: Result<Vec<Bridge>, BridgeError>)
        ensures
            response is None ==> (res matches Ok(v) && v@.len() == 0),
            response matches Some(records) ==> match first_address(records@) {
                Some(a) => res matches Ok(v) && v@.len() == 1 && v@[0].address() == a,
                None => res matches Err(BridgeError::NoBridgesFound),
            },
            response matches Some(records) ==> forall|k: int|
                #![trigger records@[k]]
                is_first_address_record(records@, k) ==> (res matches Ok(v) && v@.len() == 1 && (
                records@[k].kind matches RecordKind::A(a) ==> v@[0].address() == IpAddress::V4(a))
                && (records@[k].kind matches RecordKind::AAAA(a) ==> v@[0].address()
                == IpAddress::V6(a))),
            response matches Some(records) && (forall|j: int|
                0 <= j < records@.len() ==> (#[trigger] records@[j]).kind is Other) ==> (res matches Err(
                BridgeError::NoBridgesFound)),
    {
        proof {
            let ghost given = response;
            if let Some(records) = given {
                assert forall|k: int| #![trigger records@[k]] is_first_address_record(records@, k) implies first_address(records@)
                    == record_address(records@[k]) by {
                    lemma_first_address_is_first(records@, k);
                }
                if forall|j: int| 0 <= j < records@.len() ==> (#[trigger] records@[j]).kind is Other {
                    lemma_first_address_none(records@);
                }
            }
        }
        let mut bridges: Vec<Bridge> = Vec::new();
        if let Some(records) = response {
            let mut i: usize = 0;
            assert(records@.skip(0) =~= records@);
            while i < records.len()
                invariant
                    response == Some(records),
                    bridges@.len() == 0,
                    forall|k: int|
                        #![trigger records@[k]]
                        is_first_address_record(records@, k) ==> first_address(records@)
                            == record_address(records@[k]),
                    i <= records@.len(),
                    first_address(records@) == first_address(records@.skip(i as int)),
                decreases records@.len() - i,
            {
                assert(records@.skip(i as int).drop_first() =~= records@.skip(i + 1));
                if let Some(addr) = Self::to_ip_addr(&records[i]) {
                    bridges.push(Bridge { internal_ip_address: addr });
                    return Ok(bridges);
                }
                i += 1;
            }
            return Err(BridgeError::NoBridgesFound);
        }
        Ok(bridges)
    }

    /// What a bridge's reply to a registration request yields. `success` is
    /// the reply read as a success reply, if it has that form; `error` is the
    /// reply read as an error reply, which is looked at only when it is not a
    /// success reply.
    pub fn authorize_user_reply(
        ip: IpAddress,
        success: Option<SuccessResponse>,
        error: Option<ErrorResponse>,
    ) -> (res: Result<User, BridgeError>)
        ensures
            reply_outcome_is(ip, success, error, res),
            success matches Some(s) ==> (s.success@.contains_key("username"@) ==> (res matches Ok(u)
                && u.username@ == s.success@["username"@] && u.bridge_address == ip)),
            res is Ok ==> success is Some,
            success is None ==> (error matches Some(e) ==> ((e.error@.contains_key("description"@)
                && e.error@["description"@] == "Link button not pressed"@) ==> res matches Err(
                BridgeError::ButtonNotPressed))),
            res matches Err(BridgeError::ButtonNotPressed) ==> (success is None && (error matches Some(e)
                && e.error@.contains_key("description"@) && e.error@["description"@]
                == "Link button not pressed"@)),
    {
        if let Some(success_response) = success {
            if let Some(username) = success_response.success.get(&String::from_str("username")) {
                return Ok(User { username, bridge_address: ip });
            }
        } else if let Some(error_response) = error {
            if let Some(description) = error_response.error.get(&String::from_str("description")) {
                if description == String::from_str("Link button not pressed") {
                    return Err(BridgeError::ButtonNotPressed);
                }
            }
        }
        Err(BridgeError::ResponseError(String::from_str("Unknown response format")))
    }

    /// What one registration request, run as a task of its own, reports:
    /// `outcome` is the task's result, or the text of the task's failure.
    pub fn request_report(outcome: Result<Result<User, BridgeError>, String>) -> (res: Result<
        User,
        BridgeError,
    >)
        ensures
            request_report_is(outcome, res),
            outcome matches Ok(Ok(u)) ==> res == Ok::<User, BridgeError>(u),
            (res matches Err(BridgeError::ButtonNotPressed)) <==> (outcome matches Ok(
                Err(BridgeError::ButtonNotPressed),
            )),
            outcome matches Ok(Err(e)) ==> (!(e is ButtonNotPressed) ==> (res matches Err(
                BridgeError::InternalError(m)) && m@ == bridge_error_text(e))),
            outcome matches Err(m) ==> res == Err::<User, BridgeError>(BridgeError::InternalError(m)),
    {
        match outcome {
            Ok(Ok(user)) => Ok(user),
            Ok(Err(BridgeError::ButtonNotPressed)) => Err(BridgeError::ButtonNotPressed),
            Ok(Err(e)) => Err(BridgeError::InternalError(e.message())),
            Err(m) => Err(BridgeError::InternalError(m)),
        }
    }

    /// The answer of a registration attempt on all bridges at once, from the
    /// outcomes of the requests in the order in which they finished (one per
    /// bridge, so at least one): the report of the first one.
    pub fn create_user(outcomes: Vec<Result<Result<User, BridgeError>, String>>) -> (res: Result<
        User,
        BridgeError,
    >)
        requires
            outcomes@.len() > 0,
        ensures
            request_report_is(outcomes@[0], res),
            outcomes@[0] matches Ok(Ok(u)) ==> res == Ok::<User, BridgeError>(u),
            (res matches Err(BridgeError::ButtonNotPressed)) <==> (outcomes@[0] matches Ok(
                Err(BridgeError::ButtonNotPressed),
            )),
            outcomes@[0] matches Ok(Err(e)) ==> (!(e is ButtonNotPressed) ==> (res matches Err(
                BridgeError::InternalError(m)) && m@ == bridge_error_text(e))),
            outcomes@[0] matches Err(m) ==> res == Err::<User, BridgeError>(BridgeError::InternalError(m)),
    {
        let mut outcomes = outcomes;
        let first = outcomes.swap_remove(0);
        Self::request_report(first)
    }
}

} // verus!
