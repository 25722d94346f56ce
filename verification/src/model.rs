//! Wire-level vocabulary: roles, topic and report states, and their stored codes.

use vstd::prelude::*;
use vstd::std_specs::convert::FromSpecImpl;
use vstd::std_specs::convert::TryFromSpecImpl;

verus! {

/// The role a user holds.
#[derive(Debug, Clone, Copy, PartialEq, Eq, Structural)]
pub enum UserRole {
    Admin,
    Student,
    Teacher,
    DefenseBoard,
    Office,
}

/// The kind of work a topic asks for.
#[derive(Debug, Clone, Copy, PartialEq, Eq, Structural)]
pub enum TopicType {
    /// Stored as 0.
    Theoretical,
    /// Stored as 1.
    Applied,
    /// Stored as 2.
    Experimental,
    /// Stored as 3.
    Engineering,
    /// Stored as 4.
    Other,
}

impl TopicType {
    /// The code under which the variant is stored.
    pub open spec fn code(self) -> i16 {
        match self {
            TopicType::Theoretical => 0,
            TopicType::Applied => 1,
            TopicType::Experimental => 2,
            TopicType::Engineering => 3,
            TopicType::Other => 4,
        }
    }

    /// The variant a stored code stands for, if any.
    pub open spec fn of_code(value: i16) -> Option<TopicType> {
        if value == 0 {
            Some(TopicType::Theoretical)
        } else if value == 1 {
            Some(TopicType::Applied)
        } else if value == 2 {
            Some(TopicType::Experimental)
        } else if value == 3 {
            Some(TopicType::Engineering)
        } else if value == 4 {
            Some(TopicType::Other)
        } else {
            None
        }
    }
}

impl From<TopicType> for i16 {
    fn from(value: TopicType) -> (code: i16)
    {
        match value {
            TopicType::Theoretical => 0,
            TopicType::Applied => 1,
            TopicType::Experimental => 2,
            TopicType::Engineering => 3,
            TopicType::Other => 4,
        }
    }
}

impl FromSpecImpl<TopicType> for i16 {
    open spec fn obeys_from_spec() -> bool {
        true
    }

    open spec fn from_spec(value: TopicType) -> i16 {
        value.code()
    }
}

impl TryFrom<i16> for TopicType {
    type Error = ();

    fn try_from(value: i16) -> (res: Result<Self, Self::Error>)
    {
        match value {
            0 => Ok(TopicType::Theoretical),
            1 => Ok(TopicType::Applied),
            2 => Ok(TopicType::Experimental),
            3 => Ok(TopicType::Engineering),
            4 => Ok(TopicType::Other),
            _ => Err(()),
        }
    }
}

impl TryFromSpecImpl<i16> for TopicType {
    open spec fn obeys_try_from_spec() -> bool {
        true
    }

    open spec fn try_from_spec(value: i16) -> Result<Self, Self::Error> {
        match TopicType::of_code(value) {
            Some(t) => Ok(t),
            None => Err(()),
        }
    }
}

/// How far the review of a topic has come.
#[derive(Debug, Clone, Copy, PartialEq, Eq, Structural)]
pub enum TopicReviewStatus {
    /// Stored as 0: awaiting review.
    Pending,
    /// Stored as 1: accepted by the office.
    Approved,
    /// Stored as 2: turned down by the office.
    Rejected,
}

impl TopicReviewStatus {
    /// The code under which the variant is stored.
    pub open spec fn code(self) -> i16 {
        match self {
            TopicReviewStatus::Pending => 0,
            TopicReviewStatus::Approved => 1,
            TopicReviewStatus::Rejected => 2,
        }
    }

    /// The variant a stored code stands for, if any.
    pub open spec fn of_code(value: i16) -> Option<TopicReviewStatus> {
        if value == 0 {
            Some(TopicReviewStatus::Pending)
        } else if value == 1 {
            Some(TopicReviewStatus::Approved)
        } else if value == 2 {
            Some(TopicReviewStatus::Rejected)
        } else {
            None
        }
    }
}

impl From<TopicReviewStatus> for i16 {
    fn from(value: TopicReviewStatus) -> (code: i16) {
        match value {
            TopicReviewStatus::Pending => 0,
            TopicReviewStatus::Approved => 1,
            TopicReviewStatus::Rejected => 2,
        }
    }
}

impl FromSpecImpl<TopicReviewStatus> for i16 {
    open spec fn obeys_from_spec() -> bool {
        true
    }

    open spec fn from_spec(value: TopicReviewStatus) -> i16 {
        value.code()
    }
}

impl TryFrom<i16> for TopicReviewStatus {
    type Error = ();

    fn try_from(value: i16) -> (res: Result<Self, Self::Error>) {
        match value {
            0 => Ok(TopicReviewStatus::Pending),
            1 => Ok(TopicReviewStatus::Approved),
            2 => Ok(TopicReviewStatus::Rejected),
            _ => Err(()),
        }
    }
}

impl TryFromSpecImpl<i16> for TopicReviewStatus {
    open spec fn obeys_try_from_spec() -> bool {
        true
    }

    open spec fn try_from_spec(value: i16) -> Result<Self, Self::Error> {
        match TopicReviewStatus::of_code(value) {
            Some(v) => Ok(v),
            None => Err(()),
        }
    }
}

/// The checkpoint a progress report belongs to.
#[derive(Debug, Clone, Copy, PartialEq, Eq, Structural)]
pub enum ProgressReportType {
    /// Stored as 0: the opening report.
    Proposal,
    /// Stored as 1: the mid-term check.
    Midterm,
}

impl ProgressReportType {
    /// The code under which the variant is stored.
    pub open spec fn code(self) -> i16 {
        match self {
            ProgressReportType::Proposal => 0,
            ProgressReportType::Midterm => 1,
        }
    }

    /// The variant a stored code stands for, if any.
    pub open spec fn of_code(value: i16) -> Option<ProgressReportType> {
        if value == 0 {
            Some(ProgressReportType::Proposal)
        } else if value == 1 {
            Some(ProgressReportType::Midterm)
        } else {
            None
        }
    }
}

impl From<ProgressReportType> for i16 {
    fn from(value: ProgressReportType) -> (code: i16) {
        match value {
            ProgressReportType::Proposal => 0,
            ProgressReportType::Midterm => 1,
        }
    }
}

impl FromSpecImpl<ProgressReportType> for i16 {
    open spec fn obeys_from_spec() -> bool {
        true
    }

    open spec fn from_spec(value: ProgressReportType) -> i16 {
        value.code()
    }
}

impl TryFrom<i16> for ProgressReportType {
    type Error = ();

    fn try_from(value: i16) -> (res: Result<Self, Self::Error>) {
        match value {
            0 => Ok(ProgressReportType::Proposal),
            1 => Ok(ProgressReportType::Midterm),
            _ => Err(()),
        }
    }
}

impl TryFromSpecImpl<i16> for ProgressReportType {
    open spec fn obeys_try_from_spec() -> bool {
        true
    }

    open spec fn try_from_spec(value: i16) -> Result<Self, Self::Error> {
        match ProgressReportType::of_code(value) {
            Some(v) => Ok(v),
            None => Err(()),
        }
    }
}

/// The verdict on a progress report.
#[derive(Debug, Clone, Copy, PartialEq, Eq, Structural)]
pub enum ProgressOutcome {
    /// Stored as 0: not judged yet.
    NoConclusion,
    /// Stored as 1: accepted.
    Passed,
    /// Stored as 2: sent back.
    Rejected,
}

impl ProgressOutcome {
    /// The code under which the variant is stored.
    pub open spec fn code(self) -> i16 {
        match self {
            ProgressOutcome::NoConclusion => 0,
            ProgressOutcome::Passed => 1,
            ProgressOutcome::Rejected => 2,
        }
    }

    /// The variant a stored code stands for, if any.
    pub open spec fn of_code(value: i16) -> Option<ProgressOutcome> {
        if value == 0 {
            Some(ProgressOutcome::NoConclusion)
        } else if value == 1 {
            Some(ProgressOutcome::Passed)
        } else if value == 2 {
            Some(ProgressOutcome::Rejected)
        } else {
            None
        }
    }
}

impl From<ProgressOutcome> for i16 {
    fn from(value: ProgressOutcome) -> (code: i16) {
        match value {
            ProgressOutcome::NoConclusion => 0,
            ProgressOutcome::Passed => 1,
            ProgressOutcome::Rejected => 2,
        }
    }
}

impl FromSpecImpl<ProgressOutcome> for i16 {
    open spec fn obeys_from_spec() -> bool {
        true
    }

    open spec fn from_spec(value: ProgressOutcome) -> i16 {
        value.code()
    }
}

impl TryFrom<i16> for ProgressOutcome {
    type Error = ();

    fn try_from(value: i16) -> (res: Result<Self, Self::Error>) {
        match value {
            0 => Ok(ProgressOutcome::NoConclusion),
            1 => Ok(ProgressOutcome::Passed),
            2 => Ok(ProgressOutcome::Rejected),
            _ => Err(()),
        }
    }
}

impl TryFromSpecImpl<i16> for ProgressOutcome {
    open spec fn obeys_try_from_spec() -> bool {
        true
    }

    open spec fn try_from_spec(value: i16) -> Result<Self, Self::Error> {
        match ProgressOutcome::of_code(value) {
            Some(v) => Ok(v),
            None => Err(()),
        }
    }
}

/// Where a student's bid for a topic stands.
#[derive(Debug, Clone, Copy, PartialEq, Eq, Structural)]
pub enum AssignmentStatus {
    /// Stored as 0: awaiting the teacher.
    Pending,
    /// Stored as 1: bound to the student.
    Approved,
    /// Stored as 2: turned down.
    Rejected,
}

impl AssignmentStatus {
    /// The code under which the variant is stored.
    pub open spec fn code(self) -> i16 {
        match self {
            AssignmentStatus::Pending => 0,
            AssignmentStatus::Approved => 1,
            AssignmentStatus::Rejected => 2,
        }
    }

    /// The variant a stored code stands for, if any.
    pub open spec fn of_code(value: i16) -> Option<AssignmentStatus> {
        if value == 0 {
            Some(AssignmentStatus::Pending)
        } else if value == 1 {
            Some(AssignmentStatus::Approved)
        } else if value == 2 {
            Some(AssignmentStatus::Rejected)
        } else {
            None
        }
    }
}

impl From<AssignmentStatus> for i16 {
    fn from(value: AssignmentStatus) -> (code: i16) {
        match value {
            AssignmentStatus::Pending => 0,
            AssignmentStatus::Approved => 1,
            AssignmentStatus::Rejected => 2,
        }
    }
}

impl FromSpecImpl<AssignmentStatus> for i16 {
    open spec fn obeys_from_spec() -> bool {
        true
    }

    open spec fn from_spec(value: AssignmentStatus) -> i16 {
        value.code()
    }
}

impl TryFrom<i16> for AssignmentStatus {
    type Error = ();

    fn try_from(value: i16) -> (res: Result<Self, Self::Error>) {
        match value {
            0 => Ok(AssignmentStatus::Pending),
            1 => Ok(AssignmentStatus::Approved),
            2 => Ok(AssignmentStatus::Rejected),
            _ => Err(()),
        }
    }
}

impl TryFromSpecImpl<i16> for AssignmentStatus {
    open spec fn obeys_try_from_spec() -> bool {
        true
    }

    open spec fn try_from_spec(value: i16) -> Result<Self, Self::Error> {
        match AssignmentStatus::of_code(value) {
            Some(v) => Ok(v),
            None => Err(()),
        }
    }
}
/// Storing a value and reading it back gives the value, and a code that
/// reads as a value is the code that value is stored under.
pub proof fn lemma_topic_type_code_round_trip(value: TopicType, code: i16)
    ensures
        TopicType::of_code(value.code()) == Some(value),
        TopicType::of_code(code) == Some(value) ==> value.code() == code,
{
}

/// Storing a value and reading it back gives the value, and a code that
/// reads as a value is the code that value is stored under.
pub proof fn lemma_review_status_code_round_trip(value: TopicReviewStatus, code: i16)
    ensures
        TopicReviewStatus::of_code(value.code()) == Some(value),
        TopicReviewStatus::of_code(code) == Some(value) ==> value.code() == code,
{
}

/// Storing a value and reading it back gives the value, and a code that
/// reads as a value is the code that value is stored under.
pub proof fn lemma_report_type_code_round_trip(value: ProgressReportType, code: i16)
    ensures
        ProgressReportType::of_code(value.code()) == Some(value),
        ProgressReportType::of_code(code) == Some(value) ==> value.code() == code,
{
}

/// Storing a value and reading it back gives the value, and a code that
/// reads as a value is the code that value is stored under.
pub proof fn lemma_progress_outcome_code_round_trip(value: ProgressOutcome, code: i16)
    ensures
        ProgressOutcome::of_code(value.code()) == Some(value),
        ProgressOutcome::of_code(code) == Some(value) ==> value.code() == code,
{
}

/// Storing a value and reading it back gives the value, and a code that
/// reads as a value is the code that value is stored under.
pub proof fn lemma_assignment_status_code_round_trip(value: AssignmentStatus, code: i16)
    ensures
        AssignmentStatus::of_code(value.code()) == Some(value),
        AssignmentStatus::of_code(code) == Some(value) ==> value.code() == code,
{
}

/// An instant, counted in microseconds from the Unix epoch (UTC).
#[derive(Debug, Clone, Copy, PartialEq, Eq, Structural)]
pub struct Timestamp {
    pub micros: i64,
}

impl Timestamp {
    /// The instant from which all others are counted.
    pub open spec fn spec_epoch() -> Timestamp {
        Timestamp { micros: 0 }
    }

    /// The instant from which all others are counted.
    #[verifier::when_used_as_spec(spec_epoch)]
    pub fn epoch() -> (t: Timestamp)
        ensures
            t == Timestamp::spec_epoch(),
    {
        Timestamp { micros: 0 }
    }

    /// `chrono::Utc::now`, as microseconds since the epoch.  All that is known
    /// of the instant the clock shows is that it is not before the epoch:
    /// with a clock that stands before it, the call does not return.
    #[verifier::external_body]
    pub(crate) fn now() -> (t: Timestamp)
        ensures
            t.micros >= 0,
    {
        Timestamp { micros: chrono::Utc::now().timestamp_micros() }
    }
}

/// `bigdecimal::BigDecimal`, the arbitrary-precision number grades are kept in.
/// The rules never look inside a grade; they only hand it on.
#[verifier::external_type_specification]
#[verifier::external_body]
pub struct ExBigDecimal(bigdecimal::BigDecimal);

/// `BigDecimal::clone`: the copy is the same number as the one copied, digits
/// and scale alike.
pub assume_specification[ <bigdecimal::BigDecimal as Clone>::clone ](
    value: &bigdecimal::BigDecimal,
) -> (copy: bigdecimal::BigDecimal)
    ensures
        copy == *value,
;

#[derive(Debug, Clone)]
pub struct LoginRequest {
    pub username: String,
    pub password: String,
    pub role: UserRole,
}

#[derive(Debug, Clone)]
pub struct UserGetResponse {
    pub id: i32,
    pub username: String,
    pub role: UserRole,
    /// Students and teachers carry a display name; other roles have none.
    pub name: Option<String>,
    pub avatar: Option<String>,
}

#[derive(Debug, Clone)]
pub struct UserPatchRequest {
    pub name: Option<String>,
    pub password: Option<String>,
    pub avatar: Option<String>,
}

#[derive(Debug, Clone)]
pub struct UserPostRequest {
    pub username: String,
    pub password: String,
    pub role: UserRole,
    pub name: Option<String>,
    pub avatar: Option<String>,
    /// The major of a new student; other roles leave it out.
    pub major_id: Option<i32>,
}

#[derive(Debug, Clone)]
pub struct TopicBrief {
    pub topic_id: i32,
    pub teacher_name: String,
    pub topic_name: String,
    pub topic_max_students: i32,
    pub topic_type: TopicType,
    pub current_student_count: i32,
}

#[derive(Debug, Clone)]
pub struct TopicDetails {
    pub topic_id: i32,
    pub major_id: i32,
    pub major_name: String,
    pub teacher_id: i32,
    pub teacher_name: String,
    pub topic_name: String,
    pub topic_description: String,
    pub topic_max_students: i32,
    pub topic_type: TopicType,
    pub topic_review_status: TopicReviewStatus,
    pub current_student_count: i32,
}

#[derive(Debug, Clone)]
pub struct TopicsGetResponse {
    pub total: i64,
    pub page: i64,
    pub page_size: i64,
    pub topics: Vec<TopicBrief>,
}

#[derive(Debug, Clone)]
pub struct TopicsPostRequest {
    pub major_id: i32,
    pub topic_name: String,
    pub topic_description: String,
    pub topic_max_students: i32,
    pub topic_type: TopicType,
}

/// What a teacher may change on a topic.
#[derive(Debug, Clone)]
pub struct TopicsPostTeacherRequest {
    pub topic_name: Option<String>,
    pub topic_description: Option<String>,
    pub topic_max_students: Option<i32>,
    pub topic_type: Option<TopicType>,
}

/// What the office may change on a topic.
#[derive(Debug, Clone)]
pub struct TopicsPostOfficeRequest {
    pub topic_review_status: TopicReviewStatus,
}

/// Every field of a topic that any request can name.
#[derive(Debug, Clone)]
pub struct TopicsPostAdminRequest {
    pub topic_name: Option<String>,
    pub topic_description: Option<String>,
    pub topic_max_students: Option<i32>,
    pub topic_type: Option<TopicType>,
    pub topic_review_status: Option<TopicReviewStatus>,
}

/// A change to a topic as it arrives, before the caller's role is known.
#[derive(Debug, Clone)]
pub struct TopicPatchRequest {
    pub topic_name: Option<String>,
    pub topic_description: Option<String>,
    pub topic_max_students: Option<i32>,
    pub topic_type: Option<TopicType>,
    pub topic_review_status: Option<TopicReviewStatus>,
}

impl TopicPatchRequest {
    /// True when the request names a field other than the review status.
    pub open spec fn names_content(self) -> bool {
        self.topic_name is Some || self.topic_description is Some
            || self.topic_max_students is Some || self.topic_type is Some
    }

    /// A teacher's request as a patch: it never names the review status.
    pub fn from_teacher(req: TopicsPostTeacherRequest) -> (patch: TopicPatchRequest)
        ensures
            patch.topic_name == req.topic_name,
            patch.topic_description == req.topic_description,
            patch.topic_max_students == req.topic_max_students,
            patch.topic_type == req.topic_type,
            patch.topic_review_status is None,
    {
        TopicPatchRequest {
            topic_name: req.topic_name,
            topic_description: req.topic_description,
            topic_max_students: req.topic_max_students,
            topic_type: req.topic_type,
            topic_review_status: None,
        }
    }

    /// The office's request as a patch: it names the review status and nothing else.
    pub fn from_office(req: TopicsPostOfficeRequest) -> (patch: TopicPatchRequest)
        ensures
            !patch.names_content(),
            patch.topic_review_status == Some(req.topic_review_status),
    {
        TopicPatchRequest {
            topic_name: None,
            topic_description: None,
            topic_max_students: None,
            topic_type: None,
            topic_review_status: Some(req.topic_review_status),
        }
    }

    /// A request that may name every field, as a patch.
    pub fn from_admin(req: TopicsPostAdminRequest) -> (patch: TopicPatchRequest)
        ensures
            patch.topic_name == req.topic_name,
            patch.topic_description == req.topic_description,
            patch.topic_max_students == req.topic_max_students,
            patch.topic_type == req.topic_type,
            patch.topic_review_status == req.topic_review_status,
    {
        TopicPatchRequest {
            topic_name: req.topic_name,
            topic_description: req.topic_description,
            topic_max_students: req.topic_max_students,
            topic_type: req.topic_type,
            topic_review_status: req.topic_review_status,
        }
    }
}

#[derive(Debug, Clone)]
pub struct TopicCreateResponse {
    pub topic_id: i32,
}

#[derive(Debug, Clone)]
pub struct Assignment {
    pub student_id: i32,
    pub student_name: String,
    pub student_major: String,
    pub topic_id: i32,
    pub topic_name: String,
    /// When the student asked; for a bound student, when the bid was made that
    /// led to the binding, or the epoch if none is recorded.
    pub request_time: Timestamp,
    pub status: AssignmentStatus,
}

#[derive(Debug, Clone)]
pub struct AssignmentsGetResponse {
    pub total: i64,
    pub page: i64,
    pub page_size: i64,
    pub assignments: Vec<Assignment>,
}

#[derive(Debug, Clone)]
pub struct AssignmentsPostRequest {
    pub topic_id: i32,
}

#[derive(Debug, Clone)]
pub struct AssignmentRecordPatchRequest {
    pub approved: bool,
}

#[derive(Debug, Clone)]
pub struct ProgressReportDetailResponse {
    pub prog_report_id: i32,
    pub topic_id: i32,
    pub student_id: i32,
    pub student_name: String,
    pub prog_report_type: ProgressReportType,
    pub prog_report_time: Timestamp,
    pub prog_report_attachment: String,
    pub prog_report_outcome: ProgressOutcome,
    pub prog_report_comment: Option<String>,
    pub prog_report_grade: Option<bigdecimal::BigDecimal>,
}

#[derive(Debug, Clone)]
pub struct ProgressReportsGetResponse {
    pub reports: Vec<ProgressReportDetailResponse>,
}

#[derive(Debug, Clone)]
pub struct ProgressReportsPostRequest {
    pub attachment: String,
}

#[derive(Debug, Clone)]
pub struct ProgressReportRecordPatchRequest {
    pub outcome: ProgressOutcome,
    pub comment: Option<String>,
    pub grade: Option<bigdecimal::BigDecimal>,
}

#[derive(Debug, Clone)]
pub struct FinalDefenseDetails {
    pub final_def_id: i32,
    pub topic_id: i32,
    pub topic_name: String,
    pub student_id: i32,
    pub student_name: String,
    /// The board member the defense is assigned to, once one is.
    pub defense_board_id: Option<i32>,
    pub final_def_time: Timestamp,
    pub final_def_attachment: String,
    /// `None` while the defense is pending.
    pub final_def_outcome: Option<bool>,
    pub final_def_comment: Option<String>,
    pub final_def_grade: Option<bigdecimal::BigDecimal>,
}

#[derive(Debug, Clone)]
pub struct FinalDefensesGetResponse {
    pub defenses: Vec<FinalDefenseDetails>,
}

#[derive(Debug, Clone)]
pub struct FinalDefensesPostRequest {
    pub attachment: String,
}

/// A board member's verdict on a defense.
#[derive(Debug, Clone)]
pub struct FinalDefensesRecordPatchRequest {
    pub outcome: bool,
    pub comment: String,
    pub grade: bigdecimal::BigDecimal,
}

/// A teacher's answer to a student's request for a defense.
#[derive(Debug, Clone)]
pub struct FinalDefenseReviewRequest {
    pub approved: bool,
}

/// The two shapes a change to a final defense can take.
#[derive(Debug, Clone)]
pub enum FinalDefensePatchRequest {
    Teacher(FinalDefenseReviewRequest),
    DefenseBoard(FinalDefensesRecordPatchRequest),
}

#[derive(Debug, Clone)]
pub struct ErrorResponse {
    pub message: String,
}

/// Who is logged in, as the session keeps it.
#[derive(Debug, Clone)]
pub struct UserSession {
    pub user_id: i32,
    pub role: UserRole,
    pub username: String,
}

/// Paging of a list request.
#[derive(Debug, Clone)]
pub struct PaginationQuery {
    pub page: Option<i64>,
    pub page_size: Option<i64>,
}

/// Paging and keyword of a search request.
#[derive(Debug, Clone)]
pub struct SearchQuery {
    pub keyword: Option<String>,
    pub page: Option<i64>,
    pub page_size: Option<i64>,
}

} // verus!
