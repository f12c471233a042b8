//! The two resolvers: timezone table and user-agent parser.

use vstd::prelude::*;
use uaparser::Parser;
use uaparser::UserAgentParser;
use crate::table::TimezoneTable;

verus! {

/// `uaparser::UserAgentParser`: the patterns that user agents are matched
/// against.
#[verifier::external_type_specification]
#[verifier::external_body]
pub struct ExUserAgentParser(UserAgentParser);

/// The lookup services that a visitor is resolved with. Both are built once
/// and only read afterwards.
pub struct Resolvers {
    pub timezones: TimezoneTable,
    pub agents: UserAgentParser,
}

/// Calls `UserAgentParser::parse` and picks the browser family and the
/// family of the operating system, in this order. Trusted: nothing is claimed
/// of the result, which depends on the patterns that the parser was built
/// from.
#[verifier::external_body]
pub(crate) fn parse_families(parser: &UserAgentParser, user_agent: &str) -> (families: (
    String,
    String,
)) {
    let client = parser.parse(user_agent);
    (client.user_agent.family.into_owned(), client.os.family.into_owned())
}

} // verus!
