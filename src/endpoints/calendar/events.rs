use vstd::prelude::*;

verus! {

/// Body of a request for the calendar of one user between two dates.
#[derive(Debug)]
pub struct GetCalendarEventsByUserRequest {
    pub user_id: i32,
    pub start_date: String,
    pub end_date: String,
    pub limit: i32,
    pub start: i32,
    pub page: i32,
}

/// The request for the calendar of `user_id` from `start` to `end`: the
/// first page of at most 50 events.
pub fn calendar_events_request(user_id: i32, start: String, end: String) -> (r:
    GetCalendarEventsByUserRequest)
    ensures
        r.user_id == user_id,
        r.start_date == start,
        r.end_date == end,
        r.limit == 50,
        r.start == 0,
        r.page == 1,
{
    GetCalendarEventsByUserRequest {
        user_id,
        start_date: start,
        end_date: end,
        limit: 50,
        start: 0,
        page: 1,
    }
}

/// A room of a calendar event, as the service sends it.
#[derive(Debug)]
pub struct CalendarEventLocation {
    pub covering_location_id: Option<i32>,
    pub covering_location_name: Option<String>,
    pub location_id: i32,
    pub location_name: String,
}

/// A manager of a calendar event, as the service sends it.
#[derive(Debug)]
pub struct CalendarEventManager {
    pub covering_import_identifier: Option<String>,
    pub covering_user_id: Option<i32>,
    pub manager_import_identifier: String,
    pub manager_user_id: i32,
}

/// A calendar event, as the service sends it.
#[derive(Debug)]
pub struct CalendarEvent {
    pub activity_id: i32,
    pub activity_import_identifier: Option<String>,
    pub activity_type: i32,
    pub all_day: bool,
    pub attendance_mode: i32,
    pub attendee_user_id: i32,
    pub background_color: String,
    pub calendar_id: Option<i32>,
    pub category_ids: Option<Vec<i32>>,
    pub comment: Option<String>,
    pub description: String,
    pub event_setup_status: Option<i32>,
    pub finish: String,
    pub guid: String,
    pub in_class_status: Option<i32>,
    pub instance_id: String,
    pub is_recurring: bool,
    pub learning_task_id: Option<i32>,
    pub lesson_plan_configured: bool,
    pub location: Option<i32>,
    pub locations: Vec<CalendarEventLocation>,
    pub long_title: String,
    pub long_title_without_time: String,
    pub manager_id: i32,
    pub managers: Vec<CalendarEventManager>,
    pub minutes_meeting_id: Option<i32>,
    pub period: String,
    pub recurring_finish: Option<String>,
    pub recurring_start: Option<String>,
    pub repeat_days: Option<i8>,
    pub repeat_forever: bool,
    pub repeat_frequency: i32,
    pub repeat_until: Option<String>,
    pub roll_marked: bool,
    pub running_status: i32,
    pub start: String,
    pub target_student_id: i32,
    pub teaching_days_only: bool,
    pub text_color: String,
    pub title: String,
    pub unavailable_pd: Option<String>,
}

/// Represents an event in the calendar.
#[derive(Debug)]
pub struct Event {
    /// ID of the activity.
    pub activity_id: i32,
    /// Import identifier for the activity.
    pub activity_import_identifier: Option<String>,
    /// Type of activity.
    pub activity_type: i32,
    /// Indicates if the event is an all-day event.
    pub all_day: bool,
    /// Mode of attendance for the event.
    pub attendance_mode: i32,
    /// ID of the attendee user.
    pub attendee_user_id: i32,
    /// Background color of the event.
    pub background_color: String,
    /// Optional ID of the calendar.
    pub calendar_id: Option<i32>,
    /// Optional category IDs for the event.
    pub category_ids: Option<Vec<i32>>,
    /// Comment for the event.
    pub comment: Option<String>,
    /// Description of the event.
    pub description: String,
    /// Optional setup status for the event.
    pub event_setup_status: Option<i32>,
    /// Finish time of the event. In ISO 8601 format.
    pub finish: String,
    /// Globally unique identifier for the event.
    pub guid: String,
    /// In-class status for the event.
    pub in_class_status: Option<i32>,
    /// Instance ID of the event.
    pub instance_id: String,
    /// Indicates if the event is recurring.
    pub is_recurring: bool,
    /// ID of the learning task.
    pub learning_task_id: Option<i32>,
    /// Indicates if lesson plan is configured for the event.
    pub lesson_plan_configured: bool,
    /// Location ID for the event.
    pub location: Option<i32>,
    /// Locations associated with the event.
    pub locations: Vec<EventLocation>,
    /// Long title of the event, in the form
    /// `{TIME}: {CLASS IMPORT IDENTIFIER} - {LOCATION NAME} - {MANAGER IMPORT IDENTIFIER}`.
    pub long_title: String,
    /// Long title of the event without time, in the form
    /// `{CLASS IMPORT IDENTIFIER} - {LOCATION NAME} - {MANAGER IMPORT IDENTIFIER}`.
    pub long_title_without_time: String,
    /// ID of the manager.
    pub manager_id: i32,
    /// Managers associated with the event.
    pub managers: Vec<EventManager>,
    /// Optional ID of the minutes meeting.
    pub minutes_meeting_id: Option<i32>,
    /// Period of the event.
    pub period: String,
    /// Optional finish date for recurring events.
    pub recurring_finish: Option<String>,
    /// Optional start date for recurring events.
    pub recurring_start: Option<String>,
    /// Optional number of repeat days for recurring events.
    pub repeat_days: Option<i8>,
    /// Indicates if the event repeats forever.
    pub repeat_forever: bool,
    /// Frequency of event repetition.
    pub repeat_frequency: i32,
    /// Optional end date for repeating events.
    pub repeat_until: Option<String>,
    /// Indicates if roll is marked for the event.
    pub roll_marked: bool,
    /// Running status of the event.
    pub running_status: i32,
    /// Start time of the event. In ISO 8601 format.
    pub start: String,
    /// ID of the target student.
    pub target_student_id: i32,
    /// Indicates if teaching days only are considered for the event.
    pub teaching_days_only: bool,
    /// Text color of the event.
    pub text_color: String,
    /// Title of the event.
    pub title: String,
    /// Optional unavailable PD for the event.
    pub unavailable_pd: Option<String>,
}

/// Represents the location of an event.
#[derive(Debug)]
pub struct EventLocation {
    /// Optional covering location ID.
    ///
    /// When the ID is filled, it indicates that the room has been changed.
    pub covering_location_id: Option<i32>,
    /// Optional covering location name.
    ///
    /// It indicates that the room has been changed.
    pub covering_location_name: Option<String>,
    /// ID of the location.
    pub location_id: i32,
    /// Name of the location.
    pub location_name: String,
}

/// Represents a manager of an event.
#[derive(Debug)]
pub struct EventManager {
    /// Optional covering import identifier.
    ///
    /// It indicates that the manager has been changed.
    pub covering_import_identifier: Option<String>,
    /// Optional covering user ID.
    ///
    /// It indicates that the manager has been changed.
    pub covering_user_id: Option<i32>,
    /// Import identifier of the manager.
    pub manager_import_identifier: String,
    /// ID of the manager user.
    pub manager_user_id: i32,
}

pub open spec fn location_of(l: CalendarEventLocation) -> EventLocation {
    EventLocation {
        covering_location_id: l.covering_location_id,
        covering_location_name: l.covering_location_name,
        location_id: l.location_id,
        location_name: l.location_name,
    }
}

pub open spec fn manager_of(m: CalendarEventManager) -> EventManager {
    EventManager {
        covering_import_identifier: m.covering_import_identifier,
        covering_user_id: m.covering_user_id,
        manager_import_identifier: m.manager_import_identifier,
        manager_user_id: m.manager_user_id,
    }
}

/// `e` holds the fields of the wire record `c` under their public names,
/// its rooms and managers each mapped in order.
pub open spec fn is_event_of(e: Event, c: CalendarEvent) -> bool {
    &&& e.activity_id == c.activity_id
    &&& e.activity_import_identifier == c.activity_import_identifier
    &&& e.activity_type == c.activity_type
    &&& e.all_day == c.all_day
    &&& e.attendance_mode == c.attendance_mode
    &&& e.attendee_user_id == c.attendee_user_id
    &&& e.background_color == c.background_color
    &&& e.calendar_id == c.calendar_id
    &&& e.category_ids == c.category_ids
    &&& e.comment == c.comment
    &&& e.description == c.description
    &&& e.event_setup_status == c.event_setup_status
    &&& e.finish == c.finish
    &&& e.guid == c.guid
    &&& e.in_class_status == c.in_class_status
    &&& e.instance_id == c.instance_id
    &&& e.is_recurring == c.is_recurring
    &&& e.learning_task_id == c.learning_task_id
    &&& e.lesson_plan_configured == c.lesson_plan_configured
    &&& e.location == c.location
    &&& e.locations@ == c.locations@.map_values(|l: CalendarEventLocation| location_of(l))
    &&& e.long_title == c.long_title
    &&& e.long_title_without_time == c.long_title_without_time
    &&& e.manager_id == c.manager_id
    &&& e.managers@ == c.managers@.map_values(|m: CalendarEventManager| manager_of(m))
    &&& e.minutes_meeting_id == c.minutes_meeting_id
    &&& e.period == c.period
    &&& e.recurring_finish == c.recurring_finish
    &&& e.recurring_start == c.recurring_start
    &&& e.repeat_days == c.repeat_days
    &&& e.repeat_forever == c.repeat_forever
    &&& e.repeat_frequency == c.repeat_frequency
    &&& e.repeat_until == c.repeat_until
    &&& e.roll_marked == c.roll_marked
    &&& e.running_status == c.running_status
    &&& e.start == c.start
    &&& e.target_student_id == c.target_student_id
    &&& e.teaching_days_only == c.teaching_days_only
    &&& e.text_color == c.text_color
    &&& e.title == c.title
    &&& e.unavailable_pd == c.unavailable_pd
}

pub fn event_locations(rows: Vec<CalendarEventLocation>) -> (r: Vec<EventLocation>)
    ensures
        r@ == rows@.map_values(|l: CalendarEventLocation| location_of(l)),
{
    let mut out: Vec<EventLocation> = Vec::new();
    for l in it: rows.into_iter()
        invariant
            it.seq() == rows@,
            out@ == rows@.take(it.index() as int).map_values(
                |l: CalendarEventLocation| location_of(l),
            ),
    {
        out.push(
            EventLocation {
                covering_location_id: l.covering_location_id,
                covering_location_name: l.covering_location_name,
                location_id: l.location_id,
                location_name: l.location_name,
            },
        );
    }
    assert(rows@.take(rows@.len() as int) =~= rows@);
    out
}

pub fn event_managers(rows: Vec<CalendarEventManager>) -> (r: Vec<EventManager>)
    ensures
        r@ == rows@.map_values(|m: CalendarEventManager| manager_of(m)),
{
    let mut out: Vec<EventManager> = Vec::new();
    for m in it: rows.into_iter()
        invariant
            it.seq() == rows@,
            out@ == rows@.take(it.index() as int).map_values(
                |m: CalendarEventManager| manager_of(m),
            ),
    {
        out.push(
            EventManager {
                covering_import_identifier: m.covering_import_identifier,
                covering_user_id: m.covering_user_id,
                manager_import_identifier: m.manager_import_identifier,
                manager_user_id: m.manager_user_id,
            },
        );
    }
    assert(rows@.take(rows@.len() as int) =~= rows@);
    out
}

/// The public form of one calendar event of the service.
pub fn event_from_row(c: CalendarEvent) -> (r: Event)
    ensures
        is_event_of(r, c),
{
    let locations = event_locations(c.locations);
    let managers = event_managers(c.managers);
    Event {
        activity_id: c.activity_id,
        activity_import_identifier: c.activity_import_identifier,
        activity_type: c.activity_type,
        all_day: c.all_day,
        attendance_mode: c.attendance_mode,
        attendee_user_id: c.attendee_user_id,
        background_color: c.background_color,
        calendar_id: c.calendar_id,
        category_ids: c.category_ids,
        comment: c.comment,
        description: c.description,
        event_setup_status: c.event_setup_status,
        finish: c.finish,
        guid: c.guid,
        in_class_status: c.in_class_status,
        instance_id: c.instance_id,
        is_recurring: c.is_recurring,
        learning_task_id: c.learning_task_id,
        lesson_plan_configured: c.lesson_plan_configured,
        location: c.location,
        locations,
        long_title: c.long_title,
        long_title_without_time: c.long_title_without_time,
        manager_id: c.manager_id,
        managers,
        minutes_meeting_id: c.minutes_meeting_id,
        period: c.period,
        recurring_finish: c.recurring_finish,
        recurring_start: c.recurring_start,
        repeat_days: c.repeat_days,
        repeat_forever: c.repeat_forever,
        repeat_frequency: c.repeat_frequency,
        repeat_until: c.repeat_until,
        roll_marked: c.roll_marked,
        running_status: c.running_status,
        start: c.start,
        target_student_id: c.target_student_id,
        teaching_days_only: c.teaching_days_only,
        text_color: c.text_color,
        title: c.title,
        unavailable_pd: c.unavailable_pd,
    }
}

/// The events of a calendar response, in the order the service sent them.
pub fn events_from_rows(rows: Vec<CalendarEvent>) -> (r: Vec<Event>)
    ensures
        r.len() == rows.len(),
        forall|i: int| 0 <= i < rows.len() ==> is_event_of(#[trigger] r@[i], rows@[i]),
{
    let mut out: Vec<Event> = Vec::new();
    for c in it: rows.into_iter()
        invariant
            it.seq() == rows@,
            out.len() == it.index(),
            forall|i: int| 0 <= i < out.len() ==> is_event_of(#[trigger] out@[i], rows@[i]),
    {
        out.push(event_from_row(c));
    }
    out
}

} // verus!
