use vstd::prelude::*;

verus! {

/// Body of a request for the staff list, as seen by one user.
#[derive(Debug)]
pub struct GetAllStaffRequest {
    pub target_user_id: i32,
    pub id: i32,
}

/// The request for the staff list as seen by `user_id`: the user is both the
/// caller and the target.
pub fn staff_request(user_id: i32) -> (r: GetAllStaffRequest)
    ensures
        r.target_user_id == user_id,
        r.id == user_id,
{
    GetAllStaffRequest { target_user_id: user_id, id: user_id }
}

/// A staff member, as the service sends it.
#[derive(Debug)]
pub struct User {
    pub id: i32,
    pub base_role: i32,
    pub campus_id: Option<i32>,
    pub ce: String,
    pub display_code: String,
    pub do_not_contact: bool,
    pub f: String,
    pub finish: Option<String>,
    pub first_name: String,
    pub government_code_01: String,
    pub government_code_02: String,
    pub has_registered_device: bool,
    pub import_id: String,
    pub last_name: String,
    pub mobile_number: String,
    pub name: String,
    pub name_first_pref_last_id_form: String,
    pub name_pref_first: String,
    pub name_pref_last_id: String,
    pub picture: Option<String>,
    pub profile_picture: String,
    pub start: String,
    pub user_status: i32,
}

/// Represents a staff member.
#[derive(Debug)]
pub struct StaffMember {
    /// The ID of the staff member.
    pub id: i32,
    /// The full name of the staff member.
    pub name: String,
    /// The import identifier of the staff member.
    pub import_id: String,
    /// The first name of the staff member.
    pub first_name: String,
    /// The last name of the staff member.
    pub last_name: String,
    /// The start date of the staff member's employment. In ISO 8601 format.
    pub start: String,
    /// The end date of the staff member's employment. In ISO 8601 format.
    pub finish: Option<String>,
    /// The URL to the picture of the staff member.
    pub picture: Option<String>,
    /// The URL to the profile picture of the staff member.
    pub profile_picture: String,
    /// The status of the staff member's user account.
    pub user_status: i32,
    /// The base role of the staff member.
    pub base_role: i32,
    /// The ID of the campus the staff member belongs to.
    pub campus_id: Option<i32>,
    pub ce: String,
    /// The display code of the staff member.
    pub display_code: String,
    /// Indicates whether the staff member should not be contacted.
    pub do_not_contact: bool,
    pub f: String,
    /// The first government code of the staff member.
    pub government_code_01: String,
    /// The second government code of the staff member.
    pub government_code_02: String,
    /// Indicates whether the staff member has a registered device.
    pub has_registered_device: bool,
    /// The mobile number of the staff member.
    pub mobile_number: String,
    /// The name_first_pref_last_id_form of the staff member.
    pub name_first_pref_last_id_form: String,
    /// The name_pref_first of the staff member.
    pub name_pref_first: String,
    /// The name_pref_last_id of the staff member.
    pub name_pref_last_id: String,
}

pub open spec fn staff_member_of(u: User) -> StaffMember {
    StaffMember {
        id: u.id,
        name: u.name,
        import_id: u.import_id,
        first_name: u.first_name,
        last_name: u.last_name,
        start: u.start,
        finish: u.finish,
        picture: u.picture,
        profile_picture: u.profile_picture,
        user_status: u.user_status,
        base_role: u.base_role,
        campus_id: u.campus_id,
        ce: u.ce,
        display_code: u.display_code,
        do_not_contact: u.do_not_contact,
        f: u.f,
        government_code_01: u.government_code_01,
        government_code_02: u.government_code_02,
        has_registered_device: u.has_registered_device,
        mobile_number: u.mobile_number,
        name_first_pref_last_id_form: u.name_first_pref_last_id_form,
        name_pref_first: u.name_pref_first,
        name_pref_last_id: u.name_pref_last_id,
    }
}

pub fn staff_member_from_row(u: User) -> (r: StaffMember)
    ensures
        r == staff_member_of(u),
{
    StaffMember {
        id: u.id,
        name: u.name,
        import_id: u.import_id,
        first_name: u.first_name,
        last_name: u.last_name,
        start: u.start,
        finish: u.finish,
        picture: u.picture,
        profile_picture: u.profile_picture,
        user_status: u.user_status,
        base_role: u.base_role,
        campus_id: u.campus_id,
        ce: u.ce,
        display_code: u.display_code,
        do_not_contact: u.do_not_contact,
        f: u.f,
        government_code_01: u.government_code_01,
        government_code_02: u.government_code_02,
        has_registered_device: u.has_registered_device,
        mobile_number: u.mobile_number,
        name_first_pref_last_id_form: u.name_first_pref_last_id_form,
        name_pref_first: u.name_pref_first,
        name_pref_last_id: u.name_pref_last_id,
    }
}

/// The staff of a response, in the order the service sent them.
pub fn staff_from_rows(rows: Vec<User>) -> (r: Vec<StaffMember>)
    ensures
        r@ == rows@.map_values(|u: User| staff_member_of(u)),
{
    let mut out: Vec<StaffMember> = Vec::new();
    for u in it: rows.into_iter()
        invariant
            it.seq() == rows@,
            out@ == rows@.take(it.index() as int).map_values(|u: User| staff_member_of(u)),
    {
        out.push(staff_member_from_row(u));
    }
    assert(rows@.take(rows@.len() as int) =~= rows@);
    out
}

} // verus!
