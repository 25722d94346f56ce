//! The stored records, one type per table, and the records handed in for insertion.
//!
//! Enum-valued columns hold the codes of [`crate::model`]; times are
//! [`Timestamp`]s; grades are carried as they are.

use crate::model::Timestamp;
use vstd::prelude::*;

verus! {

/// A login: the central record every role row points to.
#[derive(Debug, Clone)]
pub struct SysUser {
    pub user_id: i32,
    pub user_login: String,
    pub user_password_hash: Vec<u8>,
    pub user_password_salt: Vec<u8>,
    pub user_avatar: Option<String>,
}

#[derive(Debug, Clone)]
pub struct Major {
    pub major_id: i32,
    pub major_name: String,
}

#[derive(Debug, Clone)]
pub struct Teacher {
    pub user_id: i32,
    pub teacher_name: String,
}

#[derive(Debug, Clone)]
pub struct SysAdmin {
    pub user_id: i32,
}

#[derive(Debug, Clone)]
pub struct Office {
    pub user_id: i32,
}

#[derive(Debug, Clone)]
pub struct DefenseBoard {
    pub user_id: i32,
}

/// A thesis topic; `user_id` is the teacher who owns it.
#[derive(Debug, Clone)]
pub struct Topic {
    pub topic_id: i32,
    pub major_id: i32,
    pub user_id: i32,
    pub topic_name: String,
    pub topic_description: String,
    pub topic_max_students: i32,
    pub topic_type: i16,
    pub topic_review_status: i16,
}

/// A student; `topic_id` is the one topic the student is bound to, if any, and
/// `assn_time` the time recorded with the binding.
#[derive(Debug, Clone)]
pub struct Student {
    pub user_id: i32,
    pub topic_id: Option<i32>,
    pub major_id: i32,
    pub student_name: String,
    pub assn_time: Option<Timestamp>,
}

/// A student's open bid for a topic.
#[derive(Debug, Clone)]
pub struct AssignmentRequest {
    pub user_id: i32,
    pub topic_id: i32,
    pub assn_req_time: Timestamp,
}

#[derive(Debug, Clone)]
pub struct ProgressReport {
    pub prog_report_id: i32,
    pub topic_id: i32,
    pub user_id: i32,
    pub prog_report_type: i16,
    pub prog_report_time: Timestamp,
    pub prog_report_attachment: String,
    pub prog_report_outcome: i16,
    pub prog_report_comment: Option<String>,
    pub prog_report_grade: Option<bigdecimal::BigDecimal>,
}

/// A final defense; `def_user_id` is the board member it is assigned to, and
/// `final_def_outcome` stays `None` until that member has judged it.
#[derive(Debug, Clone)]
pub struct FinalDefense {
    pub final_def_id: i32,
    pub topic_id: i32,
    pub user_id: i32,
    pub def_user_id: Option<i32>,
    pub final_def_time: Timestamp,
    pub final_def_attachment: String,
    pub final_def_outcome: Option<bool>,
    pub final_def_comment: Option<String>,
    pub final_def_grade: Option<bigdecimal::BigDecimal>,
}

#[derive(Debug, Clone)]
pub struct NewSysUser {
    pub user_login: String,
    pub user_password_hash: Vec<u8>,
    pub user_password_salt: Vec<u8>,
    pub user_avatar: Option<String>,
}

#[derive(Debug, Clone)]
pub struct NewMajor {
    pub major_id: i32,
    pub major_name: String,
}

#[derive(Debug, Clone)]
pub struct NewTeacher {
    pub user_id: i32,
    pub teacher_name: String,
}

#[derive(Debug, Clone)]
pub struct NewSysAdmin {
    pub user_id: i32,
}

#[derive(Debug, Clone)]
pub struct NewOffice {
    pub user_id: i32,
}

#[derive(Debug, Clone)]
pub struct NewDefenseBoard {
    pub user_id: i32,
}

#[derive(Debug, Clone)]
pub struct NewTopic {
    pub major_id: i32,
    pub user_id: i32,
    pub topic_name: String,
    pub topic_description: String,
    pub topic_max_students: i32,
    pub topic_type: i16,
    pub topic_review_status: i16,
}

#[derive(Debug, Clone)]
pub struct NewStudent {
    pub user_id: i32,
    pub topic_id: Option<i32>,
    pub major_id: i32,
    pub student_name: String,
    pub assn_time: Option<Timestamp>,
}

#[derive(Debug, Clone)]
pub struct NewAssignmentRequest {
    pub user_id: i32,
    pub topic_id: i32,
    pub assn_req_time: Timestamp,
}

#[derive(Debug, Clone)]
pub struct NewProgressReport {
    pub topic_id: i32,
    pub user_id: i32,
    pub prog_report_type: i16,
    pub prog_report_time: Timestamp,
    pub prog_report_attachment: String,
    pub prog_report_outcome: i16,
    pub prog_report_comment: Option<String>,
    pub prog_report_grade: Option<bigdecimal::BigDecimal>,
}

#[derive(Debug, Clone)]
pub struct NewFinalDefense {
    pub topic_id: i32,
    pub user_id: i32,
    pub def_user_id: Option<i32>,
    pub final_def_time: Timestamp,
    pub final_def_attachment: String,
    pub final_def_outcome: Option<bool>,
    pub final_def_comment: Option<String>,
    pub final_def_grade: Option<bigdecimal::BigDecimal>,
}

/// The columns of a login that a profile update may overwrite; `None` leaves a
/// column as it is.
#[derive(Debug, Clone)]
pub struct SysUserChangeset {
    pub user_password_hash: Option<Vec<u8>>,
    pub user_password_salt: Option<Vec<u8>>,
    pub user_avatar: Option<Option<String>>,
}

/// The columns of a topic that an update may overwrite; `None` leaves a column
/// as it is.
#[derive(Debug, Clone)]
pub struct TopicChangeset {
    pub topic_name: Option<String>,
    pub topic_description: Option<String>,
    pub topic_max_students: Option<i32>,
    pub topic_type: Option<i16>,
    pub topic_review_status: Option<i16>,
}

/// The binding of a student to a topic.
#[derive(Debug, Clone)]
pub struct StudentAssignmentChangeset {
    pub topic_id: i32,
    pub assn_time: Timestamp,
}

} // verus!
