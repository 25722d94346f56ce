//! Bids of students for topics: listing them, placing one, and the teacher's answer.

use crate::database::AssignmentRequest;
use crate::database::NewAssignmentRequest;
use crate::database::Student;
use crate::database::StudentAssignmentChangeset;
use crate::database::Topic;
use crate::error::answers;
use crate::error::ApiError;
use crate::error::ApiErrorView;
use crate::model::Assignment;
use crate::model::AssignmentRecordPatchRequest;
use crate::model::AssignmentStatus;
use crate::model::AssignmentsGetResponse;
use crate::model::AssignmentsPostRequest;
use crate::model::PaginationQuery;
use crate::model::Timestamp;
use crate::model::TopicReviewStatus;
use crate::model::UserRole;
use crate::paging::lemma_filter_step;
use crate::paging::invalid_page_text;
use crate::paging::page_of;
use crate::paging::page_window;
use crate::paging::rows_fit;
use crate::paging::unaddressable_page_text;
use crate::paging::window_of;
use crate::session::get_session_user_id;
use crate::session::get_session_user_role;
use crate::session::identify;
use crate::session::is_session_admin;
use crate::session::is_session_authed;
use crate::session::Session;
use vstd::prelude::*;

verus! {

/// Whose assignments a caller is shown.
#[derive(Debug, Clone, Copy, PartialEq, Eq, Structural)]
pub enum AssignmentScope {
    /// Every assignment: the administrator's view.
    All,
    /// The assignments of one student.
    OfStudent(i32),
    /// The assignments on the topics of one teacher.
    OfTeacher(i32),
}

/// What to read for a page of assignments.
#[derive(Debug, Clone, Copy, PartialEq, Eq, Structural)]
pub struct AssignmentListing {
    pub scope: AssignmentScope,
    pub page: i64,
    pub page_size: i64,
    pub offset: i64,
    /// How many open bids, newest first, and how many bound students, latest
    /// binding first, the page can need: `offset + page_size` of each.
    pub want: i64,
}

/// An open bid joined with the names shown for it and with the teacher who
/// owns its topic.
#[derive(Debug, Clone)]
pub struct PendingAssignment {
    pub student_id: i32,
    pub student_name: String,
    pub student_major: String,
    pub topic_id: i32,
    pub topic_name: String,
    pub teacher_id: i32,
    pub request_time: Timestamp,
}

/// A bound student joined with the names shown for the binding and with the
/// teacher who owns the topic.
#[derive(Debug, Clone)]
pub struct ApprovedAssignment {
    pub student_id: i32,
    pub student_name: String,
    pub student_major: String,
    pub topic_id: i32,
    pub topic_name: String,
    pub teacher_id: i32,
    pub assn_time: Option<Timestamp>,
}

impl AssignmentScope {
    /// True when the scope shows the assignments of this student on a topic
    /// of this teacher.
    pub open spec fn admits(self, student_id: i32, teacher_id: i32) -> bool {
        match self {
            AssignmentScope::All => true,
            AssignmentScope::OfStudent(user_id) => student_id == user_id,
            AssignmentScope::OfTeacher(user_id) => teacher_id == user_id,
        }
    }

    /// Tells whether the scope shows the assignments of this student on a
    /// topic of this teacher.
    pub fn shows(&self, student_id: i32, teacher_id: i32) -> (shown: bool)
        ensures
            shown == self.admits(student_id, teacher_id),
    {
        match self {
            AssignmentScope::All => true,
            AssignmentScope::OfStudent(user_id) => student_id == *user_id,
            AssignmentScope::OfTeacher(user_id) => teacher_id == *user_id,
        }
    }

    /// The condition under which the scope shows an open bid.
    pub open spec fn admitting_pending(self) -> spec_fn(PendingAssignment) -> bool {
        |row: PendingAssignment| self.admits(row.student_id, row.teacher_id)
    }

    /// The condition under which the scope shows a binding.
    pub open spec fn admitting_approved(self) -> spec_fn(ApprovedAssignment) -> bool {
        |row: ApprovedAssignment| self.admits(row.student_id, row.teacher_id)
    }
}

/// What the teacher's answer to a bid does: the bid `(student_id, topic_id)` is
/// deleted, and where `binding` is there, the student is bound first.
#[derive(Debug, Clone)]
pub struct AssignmentResolution {
    pub student_id: i32,
    pub topic_id: i32,
    pub binding: Option<StudentAssignmentChangeset>,
}

/// Who may list assignments, and which: the administrator all of them, a
/// student their own, a teacher those on their topics.
pub open spec fn assignment_scope(session: Session) -> Result<AssignmentScope, ApiErrorView> {
    match session {
        Session::Anonymous => Err(ApiErrorView::Unauthorized),
        Session::Unreadable => Err(ApiErrorView::InternalServerError),
        Session::Authenticated(user) => match user.role {
            UserRole::Admin => Ok(AssignmentScope::All),
            UserRole::Student => Ok(AssignmentScope::OfStudent(user.user_id)),
            UserRole::Teacher => Ok(AssignmentScope::OfTeacher(user.user_id)),
            _ => Err(ApiErrorView::Forbidden),
        },
    }
}

/// The listing a request for assignments leads to.  A page below 1 or a page
/// size below 1 is a bad request, and so is a page that cannot be addressed
/// or whose rows cannot be counted.
pub open spec fn assignment_listing(
    session: Session,
    query: PaginationQuery,
) -> Result<AssignmentListing, ApiErrorView> {
    match assignment_scope(session) {
        Err(e) => Err(e),
        Ok(scope) => match window_of(query.page, query.page_size) {
            Err(e) => Err(e),
            Ok(window) => if !rows_fit(query.page, query.page_size) {
                Err(ApiErrorView::BadRequest(unaddressable_page_text()))
            } else {
                Ok(
                    AssignmentListing {
                        scope,
                        page: window.page,
                        page_size: window.page_size,
                        offset: window.offset,
                        want: (window.offset + window.page_size) as i64,
                    },
                )
            },
        },
    }
}

/// Decides who may list assignments and what is read for the page asked for.
pub fn get_assignments(
    session: &Session,
    query: &PaginationQuery,
) -> (res: Result<AssignmentListing, ApiError>)
    ensures
        answers(res, assignment_listing(*session, *query)),
        res matches Ok(listing) ==> listing.offset >= 0 && listing.page_size >= 1,
{
    if !is_session_authed(session) {
        return Err(ApiError::Unauthorized);
    }
    let is_admin = match is_session_admin(session) {
        Ok(b) => b,
        Err(_) => {
            return Err(ApiError::InternalServerError);
        },
    };
    let user_id = match get_session_user_id(session) {
        Ok(id) => id,
        Err(_) => {
            return Err(ApiError::InternalServerError);
        },
    };
    let scope = if is_admin {
        AssignmentScope::All
    } else {
        match get_session_user_role(session) {
            Ok(UserRole::Student) => AssignmentScope::OfStudent(user_id),
            Ok(UserRole::Teacher) => AssignmentScope::OfTeacher(user_id),
            Ok(_) => {
                return Err(ApiError::Forbidden);
            },
            Err(_) => {
                return Err(ApiError::InternalServerError);
            },
        }
    };
    let window = page_window(query)?;
    if window.offset > i64::MAX - window.page_size {
        return Err(ApiError::bad_request("Page is out of range"));
    }
    Ok(
        AssignmentListing {
            scope,
            page: window.page,
            page_size: window.page_size,
            offset: window.offset,
            want: window.offset + window.page_size,
        },
    )
}

/// An open bid as it is listed.
pub open spec fn pending_entry(row: PendingAssignment) -> Assignment {
    Assignment {
        student_id: row.student_id,
        student_name: row.student_name,
        student_major: row.student_major,
        topic_id: row.topic_id,
        topic_name: row.topic_name,
        request_time: row.request_time,
        status: AssignmentStatus::Pending,
    }
}

/// A binding as it is listed; one without a recorded time shows the epoch.
pub open spec fn approved_entry(row: ApprovedAssignment) -> Assignment {
    Assignment {
        student_id: row.student_id,
        student_name: row.student_name,
        student_major: row.student_major,
        topic_id: row.topic_id,
        topic_name: row.topic_name,
        request_time: match row.assn_time {
            Some(t) => t,
            None => Timestamp::spec_epoch(),
        },
        status: AssignmentStatus::Approved,
    }
}

/// The open bids as they are listed.
pub open spec fn pending_entries(rows: Seq<PendingAssignment>) -> Seq<Assignment> {
    rows.map_values(|row: PendingAssignment| pending_entry(row))
}

/// The bindings as they are listed.
pub open spec fn approved_entries(rows: Seq<ApprovedAssignment>) -> Seq<Assignment> {
    rows.map_values(|row: ApprovedAssignment| approved_entry(row))
}

/// All entries a caller pages through: the open bids the scope shows, then
/// the bindings it shows, each in the order read.
pub open spec fn assignment_entries(
    pending: Seq<PendingAssignment>,
    approved: Seq<ApprovedAssignment>,
    scope: AssignmentScope,
) -> Seq<Assignment> {
    pending_entries(pending.filter(scope.admitting_pending())) + approved_entries(
        approved.filter(scope.admitting_approved()),
    )
}

fn list_pending(row: &PendingAssignment) -> (entry: Assignment)
    ensures
        entry == pending_entry(*row),
{
    Assignment {
        student_id: row.student_id,
        student_name: row.student_name.clone(),
        student_major: row.student_major.clone(),
        topic_id: row.topic_id,
        topic_name: row.topic_name.clone(),
        request_time: row.request_time,
        status: AssignmentStatus::Pending,
    }
}

fn list_approved(row: &ApprovedAssignment) -> (entry: Assignment)
    ensures
        entry == approved_entry(*row),
{
    Assignment {
        student_id: row.student_id,
        student_name: row.student_name.clone(),
        student_major: row.student_major.clone(),
        topic_id: row.topic_id,
        topic_name: row.topic_name.clone(),
        request_time: match row.assn_time {
            Some(t) => t,
            None => Timestamp::epoch(),
        },
        status: AssignmentStatus::Approved,
    }
}

/// The page of assignments out of the rows read for it: of the open bids and
/// then the bindings that the scope of the listing shows, `offset` entries
/// are skipped and at most `page_size` kept.  A listing with a negative
/// offset or a page size below 1 is a bad request.
pub fn assignments_page(
    pending: &Vec<PendingAssignment>,
    approved: &Vec<ApprovedAssignment>,
    pending_total: i64,
    approved_total: i64,
    listing: &AssignmentListing,
) -> (res: Result<AssignmentsGetResponse, ApiError>)
    requires
        i64::MIN <= pending_total + approved_total <= i64::MAX,
    ensures
        match res {
            Ok(resp) => {
                &&& listing.offset >= 0 && listing.page_size >= 1
                &&& resp.total == pending_total + approved_total
                &&& resp.page == listing.page
                &&& resp.page_size == listing.page_size
                &&& resp.assignments@ == page_of(
                    assignment_entries(pending@, approved@, listing.scope),
                    listing.offset,
                    listing.page_size,
                )
            },
            Err(e) => (listing.offset < 0 || listing.page_size < 1) && e@
                == ApiErrorView::BadRequest(invalid_page_text()),
        },
{
    if listing.offset < 0 || listing.page_size < 1 {
        return Err(ApiError::bad_request("Page and page size must be at least 1"));
    }
    let ghost all = assignment_entries(pending@, approved@, listing.scope);
    let ghost shown_pending = pending_entries(pending@.filter(listing.scope.admitting_pending()));
    let mut entries: Vec<Assignment> = Vec::new();
    let mut i: usize = 0;
    while i < pending.len()
        invariant
            i <= pending@.len(),
            entries@ == pending_entries(
                pending@.take(i as int).filter(listing.scope.admitting_pending()),
            ),
        decreases pending@.len() - i,
    {
        let row = &pending[i];
        let ghost before = pending@.take(i as int).filter(listing.scope.admitting_pending());
        proof {
            lemma_filter_step(pending@, listing.scope.admitting_pending(), i as int);
        }
        if listing.scope.shows(row.student_id, row.teacher_id) {
            entries.push(list_pending(row));
            assert(pending_entries(before.push(*row)) =~= pending_entries(before).push(
                pending_entry(*row),
            ));
        }
        i += 1;
    }
    assert(pending@.take(i as int) =~= pending@);
    let mut j: usize = 0;
    while j < approved.len()
        invariant
            j <= approved@.len(),
            shown_pending == pending_entries(
                pending@.filter(listing.scope.admitting_pending()),
            ),
            entries@ == shown_pending + approved_entries(
                approved@.take(j as int).filter(listing.scope.admitting_approved()),
            ),
        decreases approved@.len() - j,
    {
        let row = &approved[j];
        let ghost before = approved@.take(j as int).filter(listing.scope.admitting_approved());
        proof {
            lemma_filter_step(approved@, listing.scope.admitting_approved(), j as int);
        }
        if listing.scope.shows(row.student_id, row.teacher_id) {
            entries.push(list_approved(row));
            assert(approved_entries(before.push(*row)) =~= approved_entries(before).push(
                approved_entry(*row),
            ));
            assert(shown_pending + approved_entries(before).push(approved_entry(*row)) =~= (
            shown_pending + approved_entries(before)).push(approved_entry(*row)));
        }
        j += 1;
    }
    assert(approved@.take(j as int) =~= approved@);
    assert(entries@ == all);
    let n = entries.len();
    let skip: usize = if listing.offset as u64 > n as u64 {
        n
    } else {
        listing.offset as usize
    };
    let take: usize = if listing.page_size as u64 > (n - skip) as u64 {
        n - skip
    } else {
        listing.page_size as usize
    };
    let mut assignments: Vec<Assignment> = Vec::new();
    let mut seen: usize = 0;
    for entry in it: entries.into_iter()
        invariant
            it.seq() == all,
            all.len() == n,
            seen == it.index(),
            skip <= all.len(),
            skip + take <= all.len(),
            assignments@ == all.subrange(
                skip as int,
                if it.index() < skip {
                    skip as int
                } else if it.index() > skip + take {
                    skip + take
                } else {
                    it.index() as int
                },
            ),
    {
        let ghost kept = assignments@;
        if seen >= skip && seen - skip < take {
            assignments.push(entry);
            assert(all.subrange(skip as int, seen + 1) =~= kept.push(entry));
        }
        seen += 1;
    }
    assert(assignments@ =~= all.subrange(skip as int, skip + take));
    Ok(
        AssignmentsGetResponse {
            total: pending_total + approved_total,
            page: listing.page,
            page_size: listing.page_size,
            assignments,
        },
    )
}

/// True when the topic has passed review.
pub open spec fn topic_is_approved(topic: Topic) -> bool {
    topic.topic_review_status == TopicReviewStatus::Approved.code()
}

/// True when the topic has no place left for another student.
pub open spec fn topic_is_full(topic: Topic, current_student_count: i64) -> bool {
    current_student_count >= topic.topic_max_students
}

/// What placing a bid leads to.  `student` is the caller's student record and
/// `topic` the topic bid for, as stored; `current_student_count` is the number
/// of students bound to that topic, and `has_pending` whether the same bid is
/// already open.
pub open spec fn new_assignment_request(
    session: Session,
    req: AssignmentsPostRequest,
    student: Option<Student>,
    topic: Option<Topic>,
    current_student_count: i64,
    has_pending: bool,
    now: Timestamp,
) -> Result<NewAssignmentRequest, ApiErrorView> {
    match session.identity() {
        Err(e) => Err(e),
        Ok((user_id, role)) => if role != UserRole::Student {
            Err(ApiErrorView::Forbidden)
        } else if student is None {
            Err(ApiErrorView::NotFound)
        } else if student->0.topic_id is Some {
            Err(ApiErrorView::Conflict("Student already has a topic"@))
        } else if topic is None {
            Err(ApiErrorView::NotFound)
        } else if !topic_is_approved(topic->0) || topic->0.major_id != student->0.major_id {
            Err(ApiErrorView::Forbidden)
        } else if topic_is_full(topic->0, current_student_count) {
            Err(ApiErrorView::Conflict("Topic is full"@))
        } else if has_pending {
            Err(ApiErrorView::Conflict("Assignment request already exists"@))
        } else {
            Ok(NewAssignmentRequest { user_id, topic_id: req.topic_id, assn_req_time: now })
        },
    }
}

/// Decides on a bid placed at the instant `now`.
pub fn create_assignment_at(
    session: &Session,
    req: &AssignmentsPostRequest,
    student: &Option<Student>,
    topic: &Option<Topic>,
    current_student_count: i64,
    has_pending: bool,
    now: Timestamp,
) -> (res: Result<NewAssignmentRequest, ApiError>)
    ensures
        answers(
            res,
            new_assignment_request(
                *session,
                *req,
                *student,
                *topic,
                current_student_count,
                has_pending,
                now,
            ),
        ),
{
    let (user_id, role) = identify(session)?;
    match role {
        UserRole::Student => {},
        _ => {
            return Err(ApiError::Forbidden);
        },
    }
    let student = match student {
        Some(s) => s,
        None => {
            return Err(ApiError::NotFound);
        },
    };
    if student.topic_id.is_some() {
        return Err(ApiError::conflict("Student already has a topic"));
    }
    let topic = match topic {
        Some(t) => t,
        None => {
            return Err(ApiError::NotFound);
        },
    };
    if topic.topic_review_status != i16::from(TopicReviewStatus::Approved) || topic.major_id
        != student.major_id {
        return Err(ApiError::Forbidden);
    }
    if current_student_count >= topic.topic_max_students as i64 {
        return Err(ApiError::conflict("Topic is full"));
    }
    if has_pending {
        return Err(ApiError::conflict("Assignment request already exists"));
    }
    Ok(NewAssignmentRequest { user_id, topic_id: req.topic_id, assn_req_time: now })
}

/// Decides on a bid placed now: the outcome of [`create_assignment_at`] for the
/// instant the clock shows.
pub fn create_assignment(
    session: &Session,
    req: &AssignmentsPostRequest,
    student: &Option<Student>,
    topic: &Option<Topic>,
    current_student_count: i64,
    has_pending: bool,
) -> (res: Result<NewAssignmentRequest, ApiError>)
    ensures
        exists|now: Timestamp|
            now.micros >= 0 && answers(
                res,
                #[trigger] new_assignment_request(
                    *session,
                    *req,
                    *student,
                    *topic,
                    current_student_count,
                    has_pending,
                    now,
                ),
            ),
{
    let now = Timestamp::now();
    create_assignment_at(session, req, student, topic, current_student_count, has_pending, now)
}

/// The error a failed insertion of a bid is answered with: the bid clashes
/// with one that is stored.
pub fn assignment_insert_failure() -> (e: ApiError)
    ensures
        e@ == ApiErrorView::Conflict("Failed to create assignment request"@),
{
    ApiError::conflict("Failed to create assignment request")
}

/// What the teacher's answer to the bid `(student_id, topic_id)` leads to.
/// `request` is that bid, `topic` its topic and `student` its student, as
/// stored; `current_student_count` is the number of students bound to the
/// topic.
pub open spec fn assignment_resolution(
    session: Session,
    student_id: i32,
    topic_id: i32,
    req: AssignmentRecordPatchRequest,
    request: Option<AssignmentRequest>,
    topic: Option<Topic>,
    student: Option<Student>,
    current_student_count: i64,
) -> Result<AssignmentResolution, ApiErrorView> {
    match session.identity() {
        Err(e) => Err(e),
        Ok((user_id, role)) => if role != UserRole::Teacher {
            Err(ApiErrorView::Forbidden)
        } else if request is None || topic is None {
            Err(ApiErrorView::NotFound)
        } else if topic->0.user_id != user_id {
            Err(ApiErrorView::Forbidden)
        } else if !req.approved {
            Ok(AssignmentResolution { student_id, topic_id, binding: None })
        } else if student is None {
            Err(ApiErrorView::NotFound)
        } else if student->0.topic_id is Some {
            Err(ApiErrorView::Conflict("Student already has a topic"@))
        } else if topic_is_full(topic->0, current_student_count) {
            Err(ApiErrorView::Conflict("Topic is full"@))
        } else {
            Ok(
                AssignmentResolution {
                    student_id,
                    topic_id,
                    binding: Some(
                        StudentAssignmentChangeset {
                            topic_id: topic->0.topic_id,
                            assn_time: request->0.assn_req_time,
                        },
                    ),
                },
            )
        },
    }
}

/// Decides on a teacher's answer to a bid.  An approval binds the student only
/// if the student has no topic yet and the topic has a place left; either way
/// an accepted answer consumes the bid.
pub fn update_assignment_status(
    session: &Session,
    student_id: i32,
    topic_id: i32,
    req: &AssignmentRecordPatchRequest,
    request: &Option<AssignmentRequest>,
    topic: &Option<Topic>,
    student: &Option<Student>,
    current_student_count: i64,
) -> (res: Result<AssignmentResolution, ApiError>)
    ensures
        answers(
            res,
            assignment_resolution(
                *session,
                student_id,
                topic_id,
                *req,
                *request,
                *topic,
                *student,
                current_student_count,
            ),
        ),
        res matches Ok(resolution) ==> (resolution.binding is Some <==> req.approved),
        res matches Ok(resolution) && resolution.binding is Some ==> {
            &&& *student matches Some(s) && s.topic_id is None
            &&& *topic matches Some(t) && current_student_count < t.topic_max_students
        },
{
    let (user_id, role) = identify(session)?;
    match role {
        UserRole::Teacher => {},
        _ => {
            return Err(ApiError::Forbidden);
        },
    }
    let request = match request {
        Some(r) => r,
        None => {
            return Err(ApiError::NotFound);
        },
    };
    let topic = match topic {
        Some(t) => t,
        None => {
            return Err(ApiError::NotFound);
        },
    };
    if topic.user_id != user_id {
        return Err(ApiError::Forbidden);
    }
    let mut binding: Option<StudentAssignmentChangeset> = None;
    if req.approved {
        let student = match student {
            Some(s) => s,
            None => {
                return Err(ApiError::NotFound);
            },
        };
        if student.topic_id.is_some() {
            return Err(ApiError::conflict("Student already has a topic"));
        }
        if current_student_count >= topic.topic_max_students as i64 {
            return Err(ApiError::conflict("Topic is full"));
        }
        binding =
        Some(
            StudentAssignmentChangeset {
                topic_id: topic.topic_id,
                assn_time: request.assn_req_time,
            },
        );
    }
    Ok(AssignmentResolution { student_id, topic_id, binding })
}

/// The number of students bound to a topic.
pub open spec fn bound_count(students: Seq<Student>, topic_id: i32) -> nat
    decreases students.len(),
{
    if students.len() == 0 {
        0
    } else {
        bound_count(students.drop_last(), topic_id) + if students.last().topic_id == Some(
            topic_id,
        ) {
            1nat
        } else {
            0nat
        }
    }
}

/// The state the rules keep students and topics in: no topic has more
/// students bound to it than it has places.
pub open spec fn capacity_respected(students: Seq<Student>, topics: Seq<Topic>) -> bool {
    forall|j: int|
        0 <= j < topics.len() ==> bound_count(students, (#[trigger] topics[j]).topic_id)
            <= topics[j].topic_max_students
}

/// A student after being bound to a topic.
pub open spec fn bound_student(student: Student, change: StudentAssignmentChangeset) -> Student {
    Student { topic_id: Some(change.topic_id), assn_time: Some(change.assn_time), ..student }
}

/// The students after a teacher's answer to a bid of the student at index
/// `k` has been carried out.
pub open spec fn resolved_students(
    students: Seq<Student>,
    k: int,
    resolution: AssignmentResolution,
) -> Seq<Student> {
    match resolution.binding {
        Some(change) => students.update(k, bound_student(students[k], change)),
        None => students,
    }
}

/// Rewriting one student changes the number of students bound to a topic by
/// what that student adds to it after, less what the student added before.
pub proof fn lemma_bound_count_update(
    students: Seq<Student>,
    k: int,
    student: Student,
    topic_id: i32,
)
    requires
        0 <= k < students.len(),
    ensures
        bound_count(students.update(k, student), topic_id) == bound_count(students, topic_id) - (
        if students[k].topic_id == Some(topic_id) {
            1int
        } else {
            0int
        }) + (if student.topic_id == Some(topic_id) {
            1int
        } else {
            0int
        }),
    decreases students.len(),
{
    let after = students.update(k, student);
    if k == students.len() - 1 {
        assert(after.drop_last() =~= students.drop_last());
    } else {
        assert(after.drop_last() =~= students.drop_last().update(k, student));
        lemma_bound_count_update(students.drop_last(), k, student, topic_id);
    }
}

/// A student holds at most one topic at any time: carrying out an accepted
/// answer to a bid leaves every student who holds a topic exactly as they
/// were, and binds no student but the one at index `k`, whose record the
/// answer was decided on.
pub proof fn lemma_resolution_keeps_bindings(
    session: Session,
    student_id: i32,
    topic_id: i32,
    req: AssignmentRecordPatchRequest,
    request: Option<AssignmentRequest>,
    topic: Option<Topic>,
    student: Option<Student>,
    current_student_count: i64,
    students: Seq<Student>,
    k: int,
)
    requires
        0 <= k < students.len(),
        student is Some ==> student->0 == students[k],
        assignment_resolution(
            session,
            student_id,
            topic_id,
            req,
            request,
            topic,
            student,
            current_student_count,
        ) is Ok,
    ensures
        ({
            let after = resolved_students(
                students,
                k,
                assignment_resolution(
                    session,
                    student_id,
                    topic_id,
                    req,
                    request,
                    topic,
                    student,
                    current_student_count,
                )->Ok_0,
            );
            &&& after.len() == students.len()
            &&& forall|i: int|
                0 <= i < students.len() && (#[trigger] students[i]).topic_id is Some ==> after[i]
                    == students[i]
            &&& forall|i: int| 0 <= i < students.len() && i != k ==> after[i] == students[i]
        }),
{
}

/// The number of students bound to a topic never exceeds its places through
/// an answer to a bid: if no topic is over capacity before, and the answer
/// is accepted on the stored records of the topic and of the student at
/// index `k` and on the true number of students bound to the topic, no topic
/// is over capacity once the answer is carried out.
pub proof fn lemma_resolution_keeps_capacity(
    session: Session,
    student_id: i32,
    topic_id: i32,
    req: AssignmentRecordPatchRequest,
    request: Option<AssignmentRequest>,
    topic: Option<Topic>,
    student: Option<Student>,
    current_student_count: i64,
    students: Seq<Student>,
    topics: Seq<Topic>,
    k: int,
)
    requires
        capacity_respected(students, topics),
        0 <= k < students.len(),
        student is Some ==> student->0 == students[k],
        topic matches Some(t) ==> current_student_count == bound_count(students, t.topic_id)
            && forall|j: int|
            0 <= j < topics.len() && (#[trigger] topics[j]).topic_id == t.topic_id
                ==> topics[j].topic_max_students == t.topic_max_students,
        assignment_resolution(
            session,
            student_id,
            topic_id,
            req,
            request,
            topic,
            student,
            current_student_count,
        ) is Ok,
    ensures
        capacity_respected(
            resolved_students(
                students,
                k,
                assignment_resolution(
                    session,
                    student_id,
                    topic_id,
                    req,
                    request,
                    topic,
                    student,
                    current_student_count,
                )->Ok_0,
            ),
            topics,
        ),
{
    let resolution = assignment_resolution(
        session,
        student_id,
        topic_id,
        req,
        request,
        topic,
        student,
        current_student_count,
    )->Ok_0;
    let after = resolved_students(students, k, resolution);
    match resolution.binding {
        None => {},
        Some(change) => {
            let bound = bound_student(students[k], change);
            assert(students[k].topic_id is None);
            assert(change.topic_id == topic->0.topic_id);
            assert forall|j: int| 0 <= j < topics.len() implies bound_count(
                after,
                (#[trigger] topics[j]).topic_id,
            ) <= topics[j].topic_max_students by {
                lemma_bound_count_update(students, k, bound, topics[j].topic_id);
            }
        },
    }
}

} // verus!
