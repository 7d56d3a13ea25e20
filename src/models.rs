use vstd::prelude::*;

verus! {

/// A school class.
#[derive(Debug, Clone)]
pub struct Class {
    pub id: u32,
    pub code: String,
    pub label: String,
    pub is_graded: u32,
}

/// A child attached to a parent account.
#[derive(Debug, Clone)]
pub struct ChildAccount {
    pub id: u32,
    pub first_name: String,
    pub last_name: String,
    pub gender: String,
    pub timetable_information: String,
    pub profile_picture_path: String,
    pub school_name: String,
    pub school_id: String,
    pub school_real_id: String,
    pub is_primary_school: bool,
    pub modules: Vec<String>,
    pub class: Class,
}

/// Profile of a parent account.
#[derive(Debug, Clone)]
pub struct ParentProfile {
    pub email: String,
    pub phone_number: String,
    pub phone_number_partner: String,
    pub child: Vec<ChildAccount>,
}

/// Profile of a student account.
#[derive(Debug, Clone)]
pub struct StudentProfile {
    pub gender: String,
    pub timetable_information: String,
    pub school_name: String,
    pub school_id: String,
    pub school_rne: String,
    pub phone_number: String,
    pub school_real_id: String,
    pub profile_picture_path: String,
    pub is_apprentice: bool,
    pub class: Class,
}

/// The profile that an account carries.
#[derive(Debug, Clone)]
pub enum Profile {
    Parent(ParentProfile),
    Student(StudentProfile),
}

/// One account that a successful login resolves.
#[derive(Debug, Clone)]
pub struct Account {
    pub id_login: u32,
    pub id: u32,
    pub uid: String,
    pub username: String,
    pub kind: String,
    pub ogec_code: String,
    pub is_main: bool,
    pub last_connection: String,
    pub civility: String,
    pub first_name: String,
    pub prefix: String,
    pub last_name: String,
    pub email: String,
    pub is_primary_school: bool,
    pub school_name: String,
    pub school_logo_path: String,
    pub school_agenda_color_hex: String,
    pub le_robert_online_dictionary: bool,
    pub socket_token: String,
    pub access_token: String,
    pub modules: Vec<String>,
    pub individual_parameters: String,
    pub profile: Profile,
}

/// The proof that a second-factor challenge was solved: a cookie-like
/// name/value pair to replay on the next login submission.
#[derive(Debug, Clone)]
pub struct DoubleAuth {
    pub name: String,
    pub value: String,
}

} // verus!
