use api_rust::endpoints::attendance::{
    grid_lines_from_rows, summaries_from_rows, AttendanceSumRes, SummaryGridLineRes,
};
use api_rust::endpoints::auth::login::{credentials_from_auth, join_cookies, AuthData, AuthRoles};
use api_rust::endpoints::calendar::events::{
    events_from_rows, CalendarEvent, CalendarEventLocation, CalendarEventManager,
};
use api_rust::endpoints::events::{past_then_upcoming, sessions_from_rows, ActionCentreEventSession};
use api_rust::endpoints::locations::{locations_from_rows, LocationResponse};
use api_rust::endpoints::news::{news_content, news_items_from_rows, NewsItemAttachment, NewsItemRes};
use api_rust::endpoints::user::staff::{staff_from_rows, User};

fn s(t: &str) -> String {
    t.to_string()
}

fn cookie(name: &str, value: &str) -> (String, String) {
    (s(name), s(value))
}

#[test]
fn join_cookies_of_none_one_and_two() {
    assert_eq!(join_cookies(&vec![]), "");
    assert_eq!(join_cookies(&vec![cookie("a", "1")]), "a=1");
    assert_eq!(
        join_cookies(&vec![cookie("ASP.NET_SessionId", "x"), cookie("cpssid", "y")]),
        "ASP.NET_SessionId=x; cpssid=y"
    );
}

#[test]
fn join_cookies_keeps_empty_values() {
    assert_eq!(join_cookies(&vec![cookie("a", ""), cookie("", "b")]), "a=; =b");
}

fn auth(roles: Vec<AuthRoles>) -> AuthData {
    AuthData {
        two_factor_auth_required: false,
        friendly_message: s(""),
        success: true,
        technical_message: s(""),
        roles,
    }
}

fn role(user_id: i32) -> AuthRoles {
    AuthRoles { base_role: 1, fully_qualified_domain_name: s("demo.compass.education"), user_id }
}

#[test]
fn credentials_take_the_first_role() {
    let c = credentials_from_auth(
        auth(vec![role(31), role(32)]),
        &vec![cookie("a", "1"), cookie("b", "2")],
        "demo",
    );
    assert!(c.success);
    assert_eq!(c.user_id, 31);
    assert_eq!(c.cookies, "a=1; b=2");
    assert_eq!(c.school_id, "demo");
}

#[test]
fn credentials_keep_a_failed_outcome() {
    let mut a = auth(vec![role(5)]);
    a.success = false;
    let c = credentials_from_auth(a, &vec![], "x");
    assert!(!c.success);
    assert_eq!(c.cookies, "");
}

fn summary_row(la: i32, lu: i32) -> AttendanceSumRes {
    AttendanceSumRes {
        authorized_excused_absence: 1,
        attendance_id: 2,
        attendance_name: s("Maths"),
        authorized_absence: 3,
        count: 4,
        counted: 5,
        form: s("7A"),
        total_out_of_class: 6,
        late_unexplained: la,
        last_name: s("Doe"),
        lu,
        not_present_counted_vce_ok: 9,
        notcounted: 10,
        npa: 11,
        npu: 12,
        p: 13,
        pa: s("95%"),
        pok: s("97%"),
        subject_name: s("Mathematics"),
        spc: s("99%"),
        ta: 14,
        tna: 15,
        user_id: 16,
        un: s("DOE0001"),
        unauthorizedabsence: 17,
        vceok: 18,
        vpc: s("90%"),
    }
}

#[test]
fn summary_rows_are_renamed() {
    let out = summaries_from_rows(vec![summary_row(7, 8), summary_row(20, 21)]);
    assert_eq!(out.len(), 2);
    let a = &out[0];
    assert_eq!(a.late_explained, 7);
    assert_eq!(a.late_unexplained, 8);
    assert_eq!(a.present, 13);
    assert_eq!(a.in_class_percentage, "95%");
    assert_eq!(a.accounted_for_percentage, "97%");
    assert_eq!(a.school_percentage, "99%");
    assert_eq!(a.total_in_class, 14);
    assert_eq!(a.total_out_of_class_, 15);
    assert_eq!(a.total_out_of_class, 6);
    assert_eq!(a.username, "DOE0001");
    assert_eq!(a.subject_name, "Mathematics");
    assert_eq!(a.form, "7A");
    assert_eq!(a.vpc, "90%");
    assert_eq!((out[1].late_explained, out[1].late_unexplained), (20, 21));
}

#[test]
fn no_summary_rows_give_no_summaries() {
    assert!(summaries_from_rows(vec![]).is_empty());
}

fn grid_row(date: &str, user_id: i32) -> SummaryGridLineRes {
    SummaryGridLineRes {
        am_extended_status_id: 1,
        am_status: 2,
        am_status_desc: s("Present"),
        am_status_export_identifier: s("P"),
        am_status_period_calc_not_marked: false,
        counted_absence: true,
        counted_absence_export_identifier: Some(s("C")),
        counted_absence_reason_desc: s("Sick"),
        counted_absence_reason_status: Some(3),
        date: s(date),
        date_equality_property: s(date),
        day_of_week: 2,
        most_prevalent_desc: s("Present"),
        most_prevalent_export_identifier: None,
        most_prevalent_status: Some(4),
        partial_absence: false,
        partial_day_export_identifier: s(""),
        pm_extended_status_id: 5,
        pm_status: 6,
        pm_status_desc: s("Late"),
        pm_status_export_identifier: s("L"),
        pm_status_period_calc_not_marked: true,
        qld_half_day_code_am: 7,
        qld_half_day_code_pm: 8,
        time_amount_absent: 9,
        time_amount_absent_counted: 10,
        time_amount_absent_not_counted: 11,
        time_amount_arrived_late_am: None,
        time_amount_arrived_late_pm: Some(s("00:10")),
        time_amount_expected: 12,
        time_amount_not_marked: 13,
        time_amount_unscheduled: 14,
        user_id,
        whole_day_absence: false,
        whole_day_export_identifier: s("W"),
    }
}

#[test]
fn grid_lines_carry_the_requested_user() {
    let out = grid_lines_from_rows(vec![grid_row("2024-02-05", 1), grid_row("2024-02-06", 2)], 77);
    assert_eq!(out.len(), 2);
    assert_eq!(out[0].user_id, 77);
    assert_eq!(out[1].user_id, 77);
    assert_eq!(out[0].date, "2024-02-05");
    assert_eq!(out[1].date, "2024-02-06");
    assert_eq!(out[0].pm_status_desc, "Late");
    assert_eq!(out[0].time_amount_arrived_late_pm, Some(s("00:10")));
    assert_eq!(out[0].counted_absence_reason_status, Some(3));
    assert_eq!(out[0].time_amount_unscheduled, 14);
}

fn calendar_event(title: &str) -> CalendarEvent {
    CalendarEvent {
        activity_id: 1,
        activity_import_identifier: Some(s("7MAT")),
        activity_type: 1,
        all_day: false,
        attendance_mode: 0,
        attendee_user_id: 55,
        background_color: s("#fff"),
        calendar_id: None,
        category_ids: Some(vec![3, 4]),
        comment: None,
        description: s(""),
        event_setup_status: None,
        finish: s("2024-02-06T10:00:00Z"),
        guid: s("g-1"),
        in_class_status: Some(1),
        instance_id: s("i-1"),
        is_recurring: true,
        learning_task_id: None,
        lesson_plan_configured: false,
        location: Some(12),
        locations: vec![
            CalendarEventLocation {
                covering_location_id: None,
                covering_location_name: None,
                location_id: 12,
                location_name: s("R12"),
            },
            CalendarEventLocation {
                covering_location_id: Some(13),
                covering_location_name: Some(s("R13")),
                location_id: 12,
                location_name: s("R12"),
            },
        ],
        long_title: s("9:00: 7MAT - R12 - ABC"),
        long_title_without_time: s("7MAT - R12 - ABC"),
        manager_id: 8,
        managers: vec![CalendarEventManager {
            covering_import_identifier: Some(s("XYZ")),
            covering_user_id: Some(9),
            manager_import_identifier: s("ABC"),
            manager_user_id: 8,
        }],
        minutes_meeting_id: None,
        period: s("1"),
        recurring_finish: None,
        recurring_start: None,
        repeat_days: Some(5),
        repeat_forever: false,
        repeat_frequency: 1,
        repeat_until: None,
        roll_marked: true,
        running_status: 1,
        start: s("2024-02-06T09:00:00Z"),
        target_student_id: 55,
        teaching_days_only: true,
        text_color: s("#000"),
        title: s(title),
        unavailable_pd: None,
    }
}

#[test]
fn calendar_events_keep_rooms_and_managers() {
    let out = events_from_rows(vec![calendar_event("7MAT"), calendar_event("7ENG")]);
    assert_eq!(out.len(), 2);
    assert_eq!(out[0].title, "7MAT");
    assert_eq!(out[1].title, "7ENG");
    let e = &out[0];
    assert_eq!(e.locations.len(), 2);
    assert_eq!(e.locations[0].covering_location_id, None);
    assert_eq!(e.locations[1].covering_location_id, Some(13));
    assert_eq!(e.locations[1].covering_location_name, Some(s("R13")));
    assert_eq!(e.locations[1].location_name, "R12");
    assert_eq!(e.managers.len(), 1);
    assert_eq!(e.managers[0].covering_user_id, Some(9));
    assert_eq!(e.managers[0].manager_import_identifier, "ABC");
    assert_eq!(e.category_ids, Some(vec![3, 4]));
    assert_eq!(e.long_title_without_time, "7MAT - R12 - ABC");
    assert_eq!(e.repeat_days, Some(5));
    assert_eq!(e.location, Some(12));
}

fn session(campus: &str) -> ActionCentreEventSession {
    ActionCentreEventSession {
        campus_name: s(campus),
        finish: s("15:00"),
        instance_id: s("x"),
        location_comments: s("Hall"),
        start: s("09:00"),
    }
}

#[test]
fn sessions_are_kept_in_order() {
    let out = sessions_from_rows(vec![session("North"), session("South")]);
    assert_eq!(out.len(), 2);
    assert_eq!(out[0].campus_name, "North");
    assert_eq!(out[1].campus_name, "South");
    assert_eq!(out[0].location_comments, "Hall");
    assert_eq!((out[0].start.as_str(), out[0].finish.as_str()), ("09:00", "15:00"));
}

#[test]
fn past_events_come_before_upcoming_ones() {
    assert_eq!(past_then_upcoming(vec![1, 2], vec![3]), vec![1, 2, 3]);
    assert_eq!(past_then_upcoming(Vec::<i32>::new(), vec![3]), vec![3]);
    assert_eq!(past_then_upcoming(vec![1], vec![]), vec![1]);
}

#[test]
fn locations_are_renamed() {
    let out = locations_from_rows(vec![LocationResponse {
        id: 4,
        archived: true,
        building: Some(s("B")),
        long_name: s("Room 4, Building B"),
        name: s("R4"),
        room_name: s("Room 4"),
    }]);
    assert_eq!(out.len(), 1);
    assert_eq!(out[0].id, 4);
    assert!(out[0].archived);
    assert_eq!(out[0].building, Some(s("B")));
    assert_eq!(out[0].long_name, "Room 4, Building B");
    assert_eq!(out[0].name, "R4");
    assert_eq!(out[0].room_name, "Room 4");
}

#[test]
fn news_content_joins_both_parts() {
    assert_eq!(news_content(s("Hello, "), Some(s("world"))), "Hello, world");
    assert_eq!(news_content(s("Hello"), None), "Hello");
    assert_eq!(news_content(s(""), Some(s(""))), "");
}

#[test]
fn news_items_are_renamed() {
    let row = NewsItemRes {
        attachments: vec![NewsItemAttachment {
            id: 3,
            file_type: 1,
            is_image: true,
            name: s("photo"),
            original_file_name: s("photo.jpg"),
            ui_link: s("/a/3"),
            url: None,
        }],
        communication_type: 2,
        content1: s("<p>Part one"),
        content2: Some(s(" and two</p>")),
        created_by_admin: false,
        finish: s("2024-03-01"),
        news_item_id: s("n-1"),
        post_date_time: s("2024-02-01"),
        priority: true,
        title: s("Excursion"),
        user_id: 40,
        user_image_url: s("/img/40"),
        username: s("Mr Smith"),
    };
    let out = news_items_from_rows(vec![row]);
    assert_eq!(out.len(), 1);
    let n = &out[0];
    assert_eq!(n.id, "n-1");
    assert_eq!(n.created_at, "2024-02-01");
    assert_eq!(n.content, "<p>Part one and two</p>");
    assert_eq!(n.author_id, 40);
    assert_eq!(n.author_image_url, "/img/40");
    assert_eq!(n.username, "Mr Smith");
    assert!(n.priority);
    assert_eq!(n.attachments.len(), 1);
    assert_eq!(n.attachments[0].original_file_name, "photo.jpg");
    assert!(n.attachments[0].is_image);
    assert_eq!(n.attachments[0].url, None);
}

fn user(id: i32) -> User {
    User {
        id,
        base_role: 2,
        campus_id: None,
        ce: s("ce"),
        display_code: s("ABC"),
        do_not_contact: false,
        f: s("f"),
        finish: None,
        first_name: s("Alice"),
        government_code_01: s("G1"),
        government_code_02: s("G2"),
        has_registered_device: true,
        import_id: s("ABC01"),
        last_name: s("Brown"),
        mobile_number: s("0400"),
        name: s("Alice Brown"),
        name_first_pref_last_id_form: s("Alice Brown (ABC)"),
        name_pref_first: s("Al"),
        name_pref_last_id: s("Brown (ABC)"),
        picture: Some(s("/p")),
        profile_picture: s("/pv"),
        start: s("2020-01-01"),
        user_status: 1,
    }
}

#[test]
fn staff_are_renamed() {
    let out = staff_from_rows(vec![user(1), user(2)]);
    assert_eq!(out.len(), 2);
    assert_eq!(out[0].id, 1);
    assert_eq!(out[1].id, 2);
    let m = &out[0];
    assert_eq!(m.first_name, "Alice");
    assert_eq!(m.import_id, "ABC01");
    assert_eq!(m.picture, Some(s("/p")));
    assert_eq!(m.profile_picture, "/pv");
    assert_eq!(m.government_code_02, "G2");
    assert_eq!(m.name_pref_last_id, "Brown (ABC)");
}
