use crate::text::{decimal_of, decimal_text};
use vstd::prelude::*;

verus! {

/// Body of a request for the attendance summary of one student.
#[derive(Debug)]
pub struct GetAttendanceSumReq {
    pub start_date: String,
    pub end_date: String,
    pub student_status: String,
    pub in_class: Vec<String>,
    pub ok_class: Vec<String>,
    pub vce: Vec<String>,
    pub schl: Vec<String>,
    pub perspective: String,
    pub total_whole_day_limit: String,
    pub total_partial_day_limit: String,
    pub user_id: String,
}

/// The two-flag list `["0", "1"]`, which selects both values of a filter.
pub open spec fn is_both_flags(v: Seq<String>) -> bool {
    &&& v.len() == 2
    &&& v[0]@ == "0"@
    &&& v[1]@ == "1"@
}

fn both_flags() -> (r: Vec<String>)
    ensures
        is_both_flags(r@),
{
    let mut r: Vec<String> = Vec::new();
    r.push(String::from_str("0"));
    r.push(String::from_str("1"));
    r
}

/// The request for the attendance summary of `user_id` from `start_date` to
/// `end_date`: students of status 2, every class filter on both values, from
/// perspective 1, with no limit on whole or partial days, and the user id as
/// decimal text.
pub fn attendance_summary_request(start_date: String, end_date: String, user_id: i32) -> (r:
    GetAttendanceSumReq)
    ensures
        r.start_date == start_date,
        r.end_date == end_date,
        r.student_status@ == "2"@,
        is_both_flags(r.in_class@),
        is_both_flags(r.ok_class@),
        is_both_flags(r.vce@),
        is_both_flags(r.schl@),
        r.perspective@ == "1"@,
        r.total_whole_day_limit@ == "0"@,
        r.total_partial_day_limit@ == "0"@,
        r.user_id@ == decimal_of(user_id as int),
{
    GetAttendanceSumReq {
        start_date,
        end_date,
        student_status: String::from_str("2"),
        in_class: both_flags(),
        ok_class: both_flags(),
        vce: both_flags(),
        schl: both_flags(),
        perspective: String::from_str("1"),
        total_whole_day_limit: String::from_str("0"),
        total_partial_day_limit: String::from_str("0"),
        user_id: decimal_text(user_id),
    }
}

/// One row of an attendance summary, as the service sends it.
#[derive(Debug)]
pub struct AttendanceSumRes {
    pub authorized_excused_absence: i32,
    pub attendance_id: i32,
    pub attendance_name: String,
    pub authorized_absence: i32,
    pub count: i32,
    pub counted: i32,
    pub form: String,
    pub total_out_of_class: i32,
    pub late_unexplained: i32,
    pub last_name: String,
    pub lu: i32,
    pub not_present_counted_vce_ok: i32,
    pub notcounted: i32,
    pub npa: i32,
    pub npu: i32,
    pub p: i32,
    pub pa: String,
    pub pok: String,
    pub subject_name: String,
    pub spc: String,
    pub ta: i32,
    pub tna: i32,
    pub user_id: i32,
    pub un: String,
    pub unauthorizedabsence: i32,
    pub vceok: i32,
    pub vpc: String,
}

/// Attendance of one student in one class.
#[derive(Debug)]
pub struct AttendanceSummary {
    pub authorized_excused_absence: i32,
    pub attendance_id: i32,
    pub attendance_name: String,
    pub authorized_absence: i32,
    pub count: i32,
    pub counted: i32,
    pub form: String,
    pub total_out_of_class: i32,
    /// # Late: Explained
    /// Number of times the student was late explained (parent or school), for the given class.
    pub late_explained: i32,
    pub last_name: String,
    /// # Late: Unexplained
    /// Number of times the student was late for the given class, and there is no explanation (parent or school) in the system.
    pub late_unexplained: i32,
    pub not_present_counted_vce_ok: i32,
    pub notcounted: i32,
    pub npa: i32,
    pub npu: i32,
    /// # Present
    /// Number of times the student was marked present for the given class.
    pub present: i32,
    /// # In Class' Percentage
    /// For the time allocated to the given class, what percentage was the student doing that actual class/subject (and not something else).
    ///
    /// ## Calculation
    /// Present + Late / Sessions Run
    ///
    /// This figure is most useful for individual subject/class teachers
    pub in_class_percentage: String,
    /// # Accounted For Percentage
    /// For the time allocated to the given class, what percentage of this time was the student actually accounted for?
    ///
    /// ## Calculation
    /// Present + Late + Non-Counted + Counted / Sessions Run
    pub accounted_for_percentage: String,
    pub subject_name: String,
    /// # School Percentage
    /// For the time allocated to the given class, what percentage of this time was the student's whereabouts explained/accounted for by the school?
    ///
    /// ## Calculation
    /// Present + Late + Non-Counted / Sessions Run
    pub school_percentage: String,
    /// # Total In Class
    pub total_in_class: i32,
    pub total_out_of_class_: i32,
    pub user_id: i32,
    pub username: String,
    pub unauthorizedabsence: i32,
    pub vceok: i32,
    pub vpc: String,
}

/// The public form of a summary row. The wire field `la` (carried as
/// `late_unexplained`) is the count of explained lateness, and `lu` the
/// count of unexplained lateness.
pub open spec fn summary_of(s: AttendanceSumRes) -> AttendanceSummary {
    AttendanceSummary {
        authorized_excused_absence: s.authorized_excused_absence,
        attendance_id: s.attendance_id,
        attendance_name: s.attendance_name,
        authorized_absence: s.authorized_absence,
        count: s.count,
        counted: s.counted,
        form: s.form,
        total_out_of_class: s.total_out_of_class,
        late_explained: s.late_unexplained,
        last_name: s.last_name,
        late_unexplained: s.lu,
        not_present_counted_vce_ok: s.not_present_counted_vce_ok,
        notcounted: s.notcounted,
        npa: s.npa,
        npu: s.npu,
        present: s.p,
        in_class_percentage: s.pa,
        accounted_for_percentage: s.pok,
        subject_name: s.subject_name,
        school_percentage: s.spc,
        total_in_class: s.ta,
        total_out_of_class_: s.tna,
        user_id: s.user_id,
        username: s.un,
        unauthorizedabsence: s.unauthorizedabsence,
        vceok: s.vceok,
        vpc: s.vpc,
    }
}

pub fn summary_from_row(s: AttendanceSumRes) -> (r: AttendanceSummary)
    ensures
        r == summary_of(s),
{
    AttendanceSummary {
        authorized_excused_absence: s.authorized_excused_absence,
        attendance_id: s.attendance_id,
        attendance_name: s.attendance_name,
        authorized_absence: s.authorized_absence,
        count: s.count,
        counted: s.counted,
        form: s.form,
        total_out_of_class: s.total_out_of_class,
        late_explained: s.late_unexplained,
        last_name: s.last_name,
        late_unexplained: s.lu,
        not_present_counted_vce_ok: s.not_present_counted_vce_ok,
        notcounted: s.notcounted,
        npa: s.npa,
        npu: s.npu,
        present: s.p,
        in_class_percentage: s.pa,
        accounted_for_percentage: s.pok,
        subject_name: s.subject_name,
        school_percentage: s.spc,
        total_in_class: s.ta,
        total_out_of_class_: s.tna,
        user_id: s.user_id,
        username: s.un,
        unauthorizedabsence: s.unauthorizedabsence,
        vceok: s.vceok,
        vpc: s.vpc,
    }
}

/// The summary rows of a response, in the order the service sent them.
pub fn summaries_from_rows(rows: Vec<AttendanceSumRes>) -> (r: Vec<AttendanceSummary>)
    ensures
        r@ == rows@.map_values(|s: AttendanceSumRes| summary_of(s)),
{
    let mut out: Vec<AttendanceSummary> = Vec::new();
    for s in it: rows.into_iter()
        invariant
            it.seq() == rows@,
            out@ == rows@.take(it.index() as int).map_values(
                |s: AttendanceSumRes| summary_of(s),
            ),
    {
        out.push(summary_from_row(s));
    }
    assert(rows@.take(rows@.len() as int) =~= rows@);
    out
}

/// Body of a request for the half-day attendance lines of one student in
/// one year.
#[derive(Debug)]
pub struct GetHalfDaySummaryGridLinesReq {
    pub user_id: i32,
    pub year: i32,
    pub page: i32,
    pub start: i32,
    pub limit: i32,
}

/// The request for the half-day lines of `user_id` in `year`: the first page,
/// from the first line, of at most 2500 lines.
pub fn half_day_summary_request(year: i32, user_id: i32) -> (r: GetHalfDaySummaryGridLinesReq)
    ensures
        r.user_id == user_id,
        r.year == year,
        r.page == 1,
        r.start == 0,
        r.limit == 2500,
{
    GetHalfDaySummaryGridLinesReq { user_id, year, page: 1, start: 0, limit: 2500 }
}

/// One half-day attendance line, as the service sends it.
#[derive(Debug)]
pub struct SummaryGridLineRes {
    pub am_extended_status_id: i64,
    pub am_status: i16,
    pub am_status_desc: String,
    pub am_status_export_identifier: String,
    pub am_status_period_calc_not_marked: bool,
    pub counted_absence: bool,
    pub counted_absence_export_identifier: Option<String>,
    pub counted_absence_reason_desc: String,
    pub counted_absence_reason_status: Option<i32>,
    pub date: String,
    pub date_equality_property: String,
    pub day_of_week: i8,
    pub most_prevalent_desc: String,
    pub most_prevalent_export_identifier: Option<String>,
    pub most_prevalent_status: Option<i16>,
    pub partial_absence: bool,
    pub partial_day_export_identifier: String,
    pub pm_extended_status_id: i32,
    pub pm_status: i16,
    pub pm_status_desc: String,
    pub pm_status_export_identifier: String,
    pub pm_status_period_calc_not_marked: bool,
    pub qld_half_day_code_am: i8,
    pub qld_half_day_code_pm: i8,
    pub time_amount_absent: i64,
    pub time_amount_absent_counted: i64,
    pub time_amount_absent_not_counted: i64,
    pub time_amount_arrived_late_am: Option<String>,
    pub time_amount_arrived_late_pm: Option<String>,
    pub time_amount_expected: i64,
    pub time_amount_not_marked: i64,
    pub time_amount_unscheduled: i64,
    pub user_id: i32,
    pub whole_day_absence: bool,
    pub whole_day_export_identifier: String,
}

/// Attendance of one student on one day, by half day.
#[derive(Debug)]
pub struct SummaryGridLine {
    pub am_extended_status_id: i64,
    pub am_status: i16,
    pub am_status_desc: String,
    pub am_status_export_identifier: String,
    pub am_status_period_calc_not_marked: bool,
    pub counted_absence: bool,
    pub counted_absence_export_identifier: Option<String>,
    pub counted_absence_reason_desc: String,
    pub counted_absence_reason_status: Option<i32>,
    pub date: String,
    pub date_equality_property: String,
    pub day_of_week: i8,
    pub most_prevalent_desc: String,
    pub most_prevalent_export_identifier: Option<String>,
    pub most_prevalent_status: Option<i16>,
    pub partial_absence: bool,
    pub partial_day_export_identifier: String,
    pub pm_extended_status_id: i32,
    pub pm_status: i16,
    pub pm_status_desc: String,
    pub pm_status_export_identifier: String,
    pub pm_status_period_calc_not_marked: bool,
    pub qld_half_day_code_am: i8,
    pub qld_half_day_code_pm: i8,
    pub time_amount_absent: i64,
    pub time_amount_absent_counted: i64,
    pub time_amount_absent_not_counted: i64,
    pub time_amount_arrived_late_am: Option<String>,
    pub time_amount_arrived_late_pm: Option<String>,
    pub time_amount_expected: i64,
    pub time_amount_not_marked: i64,
    pub time_amount_unscheduled: i64,
    pub user_id: i32,
    pub whole_day_absence: bool,
    pub whole_day_export_identifier: String,
}

/// The public form of a line fetched for the student `user_id`: every field
/// as sent, but the user id, which is the one the lines were asked for.
pub open spec fn grid_line_of(g: SummaryGridLineRes, user_id: i32) -> SummaryGridLine {
    SummaryGridLine {
        am_extended_status_id: g.am_extended_status_id,
        am_status: g.am_status,
        am_status_desc: g.am_status_desc,
        am_status_export_identifier: g.am_status_export_identifier,
        am_status_period_calc_not_marked: g.am_status_period_calc_not_marked,
        counted_absence: g.counted_absence,
        counted_absence_export_identifier: g.counted_absence_export_identifier,
        counted_absence_reason_desc: g.counted_absence_reason_desc,
        counted_absence_reason_status: g.counted_absence_reason_status,
        date: g.date,
        date_equality_property: g.date_equality_property,
        day_of_week: g.day_of_week,
        most_prevalent_desc: g.most_prevalent_desc,
        most_prevalent_export_identifier: g.most_prevalent_export_identifier,
        most_prevalent_status: g.most_prevalent_status,
        partial_absence: g.partial_absence,
        partial_day_export_identifier: g.partial_day_export_identifier,
        pm_extended_status_id: g.pm_extended_status_id,
        pm_status: g.pm_status,
        pm_status_desc: g.pm_status_desc,
        pm_status_export_identifier: g.pm_status_export_identifier,
        pm_status_period_calc_not_marked: g.pm_status_period_calc_not_marked,
        qld_half_day_code_am: g.qld_half_day_code_am,
        qld_half_day_code_pm: g.qld_half_day_code_pm,
        time_amount_absent: g.time_amount_absent,
        time_amount_absent_counted: g.time_amount_absent_counted,
        time_amount_absent_not_counted: g.time_amount_absent_not_counted,
        time_amount_arrived_late_am: g.time_amount_arrived_late_am,
        time_amount_arrived_late_pm: g.time_amount_arrived_late_pm,
        time_amount_expected: g.time_amount_expected,
        time_amount_not_marked: g.time_amount_not_marked,
        time_amount_unscheduled: g.time_amount_unscheduled,
        user_id,
        whole_day_absence: g.whole_day_absence,
        whole_day_export_identifier: g.whole_day_export_identifier,
    }
}

pub fn grid_line_from_row(g: SummaryGridLineRes, user_id: i32) -> (r: SummaryGridLine)
    ensures
        r == grid_line_of(g, user_id),
{
    SummaryGridLine {
        am_extended_status_id: g.am_extended_status_id,
        am_status: g.am_status,
        am_status_desc: g.am_status_desc,
        am_status_export_identifier: g.am_status_export_identifier,
        am_status_period_calc_not_marked: g.am_status_period_calc_not_marked,
        counted_absence: g.counted_absence,
        counted_absence_export_identifier: g.counted_absence_export_identifier,
        counted_absence_reason_desc: g.counted_absence_reason_desc,
        counted_absence_reason_status: g.counted_absence_reason_status,
        date: g.date,
        date_equality_property: g.date_equality_property,
        day_of_week: g.day_of_week,
        most_prevalent_desc: g.most_prevalent_desc,
        most_prevalent_export_identifier: g.most_prevalent_export_identifier,
        most_prevalent_status: g.most_prevalent_status,
        partial_absence: g.partial_absence,
        partial_day_export_identifier: g.partial_day_export_identifier,
        pm_extended_status_id: g.pm_extended_status_id,
        pm_status: g.pm_status,
        pm_status_desc: g.pm_status_desc,
        pm_status_export_identifier: g.pm_status_export_identifier,
        pm_status_period_calc_not_marked: g.pm_status_period_calc_not_marked,
        qld_half_day_code_am: g.qld_half_day_code_am,
        qld_half_day_code_pm: g.qld_half_day_code_pm,
        time_amount_absent: g.time_amount_absent,
        time_amount_absent_counted: g.time_amount_absent_counted,
        time_amount_absent_not_counted: g.time_amount_absent_not_counted,
        time_amount_arrived_late_am: g.time_amount_arrived_late_am,
        time_amount_arrived_late_pm: g.time_amount_arrived_late_pm,
        time_amount_expected: g.time_amount_expected,
        time_amount_not_marked: g.time_amount_not_marked,
        time_amount_unscheduled: g.time_amount_unscheduled,
        user_id,
        whole_day_absence: g.whole_day_absence,
        whole_day_export_identifier: g.whole_day_export_identifier,
    }
}

/// The half-day lines of a response for the student `user_id`, in the order
/// the service sent them.
pub fn grid_lines_from_rows(rows: Vec<SummaryGridLineRes>, user_id: i32) -> (r: Vec<
    SummaryGridLine,
>)
    ensures
        r@ == rows@.map_values(|g: SummaryGridLineRes| grid_line_of(g, user_id)),
{
    let mut out: Vec<SummaryGridLine> = Vec::new();
    for g in it: rows.into_iter()
        invariant
            it.seq() == rows@,
            out@ == rows@.take(it.index() as int).map_values(
                |g: SummaryGridLineRes| grid_line_of(g, user_id),
            ),
    {
        out.push(grid_line_from_row(g, user_id));
    }
    assert(rows@.take(rows@.len() as int) =~= rows@);
    out
}

} // verus!
