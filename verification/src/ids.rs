//! Monitor identifiers: opaque UUIDs, validated before any use.
use vstd::prelude::*;
use vstd::string::*;
use crate::error::CliError;

verus! {

/// Whether the UUID parser accepts this string (simple, hyphenated,
/// URN or GUID form). The answer depends on the characters alone.
pub uninterp spec fn uuid_accepts(s: Seq<char>) -> bool;

/// Relies on uuid::Uuid::parse_str: accepts exactly the strings of
/// hexadecimal digits with optional hyphens that form a UUID, a
/// function of the input characters alone.
#[verifier::external_body]
fn parse_uuid_ok(s: &str) -> (r: bool)
    ensures
        r == uuid_accepts(s@),
{
    uuid::Uuid::parse_str(s).is_ok()
}

/// A monitor's identity: a string already checked to be a UUID.
pub struct MonitorId {
    id: String,
}

impl MonitorId {
    /// The characters of the identifier.
    pub closed spec fn view(&self) -> Seq<char> {
        self.id@
    }

    /// Every constructed identifier passed UUID validation.
    pub closed spec fn wf(&self) -> bool {
        uuid_accepts(self.id@)
    }

    /// Validate a monitor identifier. Accepts exactly the strings the
    /// UUID parser accepts, and keeps the characters as given.
    pub fn parse(s: &str) -> (r: Result<MonitorId, CliError>)
        ensures
            r is Ok <==> uuid_accepts(s@),
            r matches Ok(m) ==> m@ == s@ && m.wf(),
            r matches Err(e) ==> e == CliError::InvalidMonitorId,
    {
        if parse_uuid_ok(s) {
            Ok(MonitorId { id: String::from_str(s) })
        } else {
            Err(CliError::InvalidMonitorId)
        }
    }

    /// The identifier as a string, for the caller that addresses the
    /// remote service.
    pub fn as_str(&self) -> (r: &str)
        ensures
            r@ == self@,
    {
        self.id.as_str()
    }
}

} // verus!
