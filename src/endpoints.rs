use reqwest::header::{HeaderValue, InvalidHeaderValue};
use vstd::prelude::*;

pub mod attendance;
pub mod auth;
pub mod calendar;
pub mod events;
pub mod locations;
pub mod news;
pub mod user;

verus! {

/// http's `HeaderValue` (re-exported by reqwest), carried opaque: the value
/// of the `cookie` header that every service after the login receives.
#[verifier::external_type_specification]
#[verifier::external_body]
pub struct ExHeaderValue(HeaderValue);

/// http's `InvalidHeaderValue`, the error of `HeaderValue::from_str`.
#[verifier::external_type_specification]
#[verifier::external_body]
pub struct ExInvalidHeaderValue(InvalidHeaderValue);

/// The HTTP method a service is called with.
#[derive(Clone, Copy, Debug, PartialEq, Eq, Structural)]
pub enum HttpMethod {
    Get,
    Post,
}

/// The remote services this client calls.
#[derive(Clone, Copy, Debug, PartialEq, Eq, Structural)]
pub enum Endpoint {
    AttendanceSummary,
    HalfDaySummaryGridLines,
    AuthenticateUserCredentials,
    CalendarEventsByUser,
    UpcomingEvents,
    PastEvents,
    AllLocations,
    NewsFeed,
    AllStaff,
}

/// The address of a service of a school: every school has its own host
/// under `compass.education`, named by its school id.
pub open spec fn service_url(school_id: Seq<char>, path: Seq<char>) -> Seq<char> {
    "https://"@ + school_id + ".compass.education/"@ + path
}

impl Endpoint {
    /// The path of the service on the school's host.
    pub open spec fn path_spec(self) -> Seq<char> {
        match self {
            Endpoint::AttendanceSummary => "Services/Attendance.svc/GetAttendanceSummary"@,
            Endpoint::HalfDaySummaryGridLines =>
                "Services/AttendanceV2.svc/GetHalfDaySummaryGridLines"@,
            Endpoint::AuthenticateUserCredentials =>
                "services/admin.svc/AuthenticateUserCredentials"@,
            Endpoint::CalendarEventsByUser => "Services/Calendar.svc/GetCalendarEventsByUser"@,
            Endpoint::UpcomingEvents => "Services/ActionCentre.svc/GetEvents"@,
            Endpoint::PastEvents => "Services/ActionCentre.svc/GetPastEvents"@,
            Endpoint::AllLocations => "Services/ReferenceDataCache.svc/GetAllLocations?page=1"@,
            Endpoint::NewsFeed => "Services/NewsFeed.svc/GetMyNewsFeed"@,
            Endpoint::AllStaff => "Services/User.svc/GetAllStaff"@,
        }
    }

    /// The method of the service: the location list is read with GET, every
    /// other service takes a POST.
    pub open spec fn method_spec(self) -> HttpMethod {
        match self {
            Endpoint::AllLocations => HttpMethod::Get,
            _ => HttpMethod::Post,
        }
    }

    pub fn path(&self) -> (r: &'static str)
        ensures
            r@ == self.path_spec(),
    {
        match self {
            Endpoint::AttendanceSummary => "Services/Attendance.svc/GetAttendanceSummary",
            Endpoint::HalfDaySummaryGridLines =>
                "Services/AttendanceV2.svc/GetHalfDaySummaryGridLines",
            Endpoint::AuthenticateUserCredentials =>
                "services/admin.svc/AuthenticateUserCredentials",
            Endpoint::CalendarEventsByUser => "Services/Calendar.svc/GetCalendarEventsByUser",
            Endpoint::UpcomingEvents => "Services/ActionCentre.svc/GetEvents",
            Endpoint::PastEvents => "Services/ActionCentre.svc/GetPastEvents",
            Endpoint::AllLocations => "Services/ReferenceDataCache.svc/GetAllLocations?page=1",
            Endpoint::NewsFeed => "Services/NewsFeed.svc/GetMyNewsFeed",
            Endpoint::AllStaff => "Services/User.svc/GetAllStaff",
        }
    }

    pub fn method(&self) -> (r: HttpMethod)
        ensures
            r == self.method_spec(),
    {
        match self {
            Endpoint::AllLocations => HttpMethod::Get,
            _ => HttpMethod::Post,
        }
    }

    /// The full address of this service for the school `school_id`.
    pub fn url(&self, school_id: &str) -> (r: String)
        ensures
            r@ == service_url(school_id@, self.path_spec()),
    {
        let mut r = String::from_str("https://");
        r.append(school_id);
        r.append(".compass.education/");
        r.append(self.path());
        r
    }
}

/// A character that may stand in an HTTP header value: a tab, or any
/// character from the space on but DEL. Every character past ASCII is
/// encoded in UTF-8 as bytes of 128 and more, which are allowed.
pub open spec fn is_header_char(c: char) -> bool {
    c == '\t' || (c as u32 >= 32 && c as u32 != 127)
}

/// Text that may be sent as an HTTP header value.
pub open spec fn is_header_text(s: Seq<char>) -> bool {
    forall|i: int| 0 <= i < s.len() ==> is_header_char(#[trigger] s[i])
}

/// Relies on http's `HeaderValue::from_str` (re-exported by reqwest): it
/// accepts the text exactly when each of its UTF-8 bytes is a tab, or is at
/// least 32 and not 127.
#[verifier::external_body]
fn header_value_from_str(s: &str) -> (r: Result<HeaderValue, InvalidHeaderValue>)
    ensures
        r is Ok <==> is_header_text(s@),
{
    HeaderValue::from_str(s)
}

/// The cookie text cannot be sent as a header value.
#[derive(Clone, Copy, Debug, PartialEq, Eq, Structural)]
pub struct InvalidCookieHeader;

/// The value of the `cookie` header that carries a session's cookies to
/// every service after the login.
pub fn cookie_header_value(cookies: &str) -> (r: Result<HeaderValue, InvalidCookieHeader>)
    ensures
        r is Ok <==> is_header_text(cookies@),
{
    match header_value_from_str(cookies) {
        Ok(v) => Ok(v),
        Err(_) => Err(InvalidCookieHeader),
    }
}

} // verus!
