//! Final defenses: listing them, asking for one, the teacher's review with the
//! choice of a board member, and the board member's verdict.

use crate::database::FinalDefense;
use crate::database::NewFinalDefense;
use crate::database::Student;
use crate::error::answers;
use crate::error::ApiError;
use crate::error::ApiErrorView;
use crate::model::FinalDefenseDetails;
use crate::model::FinalDefensePatchRequest;
use crate::model::FinalDefenseReviewRequest;
use crate::model::FinalDefensesRecordPatchRequest;
use crate::model::FinalDefensesGetResponse;
use crate::model::FinalDefensesPostRequest;
use crate::model::Timestamp;
use crate::model::UserRole;
use crate::paging::lemma_filter_step;
use crate::session::identify;
use crate::session::Session;
use std::collections::HashMap;
use vstd::prelude::*;

verus! {

/// Whose final defenses a caller is shown.
#[derive(Debug, Clone, Copy, PartialEq, Eq, Structural)]
pub enum DefenseScope {
    /// The defenses of one student.
    OfStudent(i32),
    /// The defenses on the topics of one teacher.
    OfTeacher(i32),
    /// The defenses assigned to one board member.
    OfBoard(i32),
}

/// A final defense joined with the names shown for it and with the teacher who
/// owns its topic.
#[derive(Debug, Clone)]
pub struct FinalDefenseRecord {
    pub defense: FinalDefense,
    pub student_name: String,
    pub topic_name: String,
    pub teacher_id: i32,
}

/// What an accepted change does to a final defense.
#[derive(Debug, Clone)]
pub enum FinalDefenseUpdate {
    /// The request was turned down: the defense is deleted.
    Delete { final_def_id: i32 },
    /// The request was approved: the defense goes to this board member.
    AssignBoard { final_def_id: i32, def_user_id: i32 },
    /// The board member's verdict is recorded.
    Grade { final_def_id: i32, outcome: bool, comment: String, grade: bigdecimal::BigDecimal },
}

/// Who may list final defenses, and which.
pub open spec fn defense_scope(session: Session) -> Result<DefenseScope, ApiErrorView> {
    match session.identity() {
        Err(e) => Err(e),
        Ok((user_id, role)) => match role {
            UserRole::Student => Ok(DefenseScope::OfStudent(user_id)),
            UserRole::Teacher => Ok(DefenseScope::OfTeacher(user_id)),
            UserRole::DefenseBoard => Ok(DefenseScope::OfBoard(user_id)),
            _ => Err(ApiErrorView::Forbidden),
        },
    }
}

/// Decides who may list final defenses and whose are read: a student's own,
/// those on a teacher's topics, or those assigned to a board member.
pub fn get_final_defenses(session: &Session) -> (res: Result<DefenseScope, ApiError>)
    ensures
        answers(res, defense_scope(*session)),
{
    let (user_id, role) = identify(session)?;
    match role {
        UserRole::Student => Ok(DefenseScope::OfStudent(user_id)),
        UserRole::Teacher => Ok(DefenseScope::OfTeacher(user_id)),
        UserRole::DefenseBoard => Ok(DefenseScope::OfBoard(user_id)),
        _ => Err(ApiError::Forbidden),
    }
}

/// A final defense as it is shown.
pub open spec fn defense_details(
    defense: FinalDefense,
    student_name: String,
    topic_name: String,
) -> FinalDefenseDetails {
    FinalDefenseDetails {
        final_def_id: defense.final_def_id,
        topic_id: defense.topic_id,
        topic_name,
        student_id: defense.user_id,
        student_name,
        defense_board_id: defense.def_user_id,
        final_def_time: defense.final_def_time,
        final_def_attachment: defense.final_def_attachment,
        final_def_outcome: defense.final_def_outcome,
        final_def_comment: defense.final_def_comment,
        final_def_grade: defense.final_def_grade,
    }
}

/// Puts a final defense and the names that go with it into the shape shown to
/// callers.
pub fn final_defense_details(
    defense: FinalDefense,
    student_name: String,
    topic_name: String,
) -> (d: FinalDefenseDetails)
    ensures
        d == defense_details(defense, student_name, topic_name),
{
    FinalDefenseDetails {
        final_def_id: defense.final_def_id,
        topic_id: defense.topic_id,
        topic_name,
        student_id: defense.user_id,
        student_name,
        defense_board_id: defense.def_user_id,
        final_def_time: defense.final_def_time,
        final_def_attachment: defense.final_def_attachment,
        final_def_outcome: defense.final_def_outcome,
        final_def_comment: defense.final_def_comment,
        final_def_grade: defense.final_def_grade,
    }
}

impl DefenseScope {
    /// True when the scope shows the defense.
    pub open spec fn admits(self, record: FinalDefenseRecord) -> bool {
        match self {
            DefenseScope::OfStudent(user_id) => record.defense.user_id == user_id,
            DefenseScope::OfTeacher(user_id) => record.teacher_id == user_id,
            DefenseScope::OfBoard(user_id) => record.defense.def_user_id == Some(user_id),
        }
    }

    /// Tells whether the scope shows the defense.
    pub fn shows(&self, record: &FinalDefenseRecord) -> (shown: bool)
        ensures
            shown == self.admits(*record),
    {
        match self {
            DefenseScope::OfStudent(user_id) => record.defense.user_id == *user_id,
            DefenseScope::OfTeacher(user_id) => record.teacher_id == *user_id,
            DefenseScope::OfBoard(user_id) => match record.defense.def_user_id {
                Some(id) => id == *user_id,
                None => false,
            },
        }
    }

    /// The condition under which the scope shows a defense.
    pub open spec fn admitting(self) -> spec_fn(FinalDefenseRecord) -> bool {
        |record: FinalDefenseRecord| self.admits(record)
    }
}

/// The records a scope shows, as they are shown, in the order read.
pub open spec fn defense_list(
    records: Seq<FinalDefenseRecord>,
    scope: DefenseScope,
) -> Seq<FinalDefenseDetails> {
    records.filter(scope.admitting()).map_values(
        |r: FinalDefenseRecord| defense_details(r.defense, r.student_name, r.topic_name),
    )
}

/// The list of final defenses out of the records read for it: those the scope
/// shows, in the order read.  A caller who is shown none gets `NotFound`.
pub fn final_defenses_page(
    scope: &DefenseScope,
    records: Vec<FinalDefenseRecord>,
) -> (res: Result<FinalDefensesGetResponse, ApiError>)
    ensures
        match res {
            Ok(resp) => resp.defenses@.len() > 0 && resp.defenses@ == defense_list(
                records@,
                *scope,
            ),
            Err(e) => defense_list(records@, *scope).len() == 0 && e@ == ApiErrorView::NotFound,
        },
{
    let mut defenses: Vec<FinalDefenseDetails> = Vec::new();
    for record in it: records.into_iter()
        invariant
            it.seq() == records@,
            defenses@ == defense_list(records@.take(it.index() as int), *scope),
    {
        let ghost before = records@.take(it.index() as int).filter(scope.admitting());
        proof {
            lemma_filter_step(records@, scope.admitting(), it.index() as int);
        }
        if scope.shows(&record) {
            defenses.push(
                final_defense_details(record.defense, record.student_name, record.topic_name),
            );
            assert(before.push(record).map_values(
                |r: FinalDefenseRecord| defense_details(r.defense, r.student_name, r.topic_name),
            ) =~= before.map_values(
                |r: FinalDefenseRecord| defense_details(r.defense, r.student_name, r.topic_name),
            ).push(defense_details(record.defense, record.student_name, record.topic_name)));
        }
    }
    assert(records@.take(records@.len() as int) =~= records@);
    if defenses.len() == 0 {
        Err(ApiError::NotFound)
    } else {
        Ok(FinalDefensesGetResponse { defenses })
    }
}

/// True when the student has a defense that is not judged yet.
pub open spec fn has_pending_defense(defenses: Seq<FinalDefense>, student_id: i32) -> bool {
    exists|i: int|
        0 <= i < defenses.len() && (#[trigger] defenses[i]).user_id == student_id
            && defenses[i].final_def_outcome is None
}

/// True when the student has a passed defense other than the one with id
/// `except`.
pub open spec fn has_passed_defense(
    defenses: Seq<FinalDefense>,
    student_id: i32,
    except: Option<i32>,
) -> bool {
    exists|i: int|
        0 <= i < defenses.len() && (#[trigger] defenses[i]).user_id == student_id
            && defenses[i].final_def_outcome == Some(true) && except != Some(
            defenses[i].final_def_id,
        )
}

fn find_pending_defense(defenses: &Vec<FinalDefense>, student_id: i32) -> (found: bool)
    ensures
        found == has_pending_defense(defenses@, student_id),
{
    let mut i: usize = 0;
    while i < defenses.len()
        invariant
            i <= defenses@.len(),
            forall|k: int|
                0 <= k < i ==> !((#[trigger] defenses@[k]).user_id == student_id
                    && defenses@[k].final_def_outcome is None),
        decreases defenses@.len() - i,
    {
        if defenses[i].user_id == student_id && defenses[i].final_def_outcome.is_none() {
            return true;
        }
        i += 1;
    }
    false
}

fn find_passed_defense(
    defenses: &Vec<FinalDefense>,
    student_id: i32,
    except: Option<i32>,
) -> (found: bool)
    ensures
        found == has_passed_defense(defenses@, student_id, except),
{
    let mut i: usize = 0;
    while i < defenses.len()
        invariant
            i <= defenses@.len(),
            forall|k: int|
                0 <= k < i ==> !((#[trigger] defenses@[k]).user_id == student_id
                    && defenses@[k].final_def_outcome == Some(true) && except != Some(
                    defenses@[k].final_def_id,
                )),
        decreases defenses@.len() - i,
    {
        let d = &defenses[i];
        let passed = match d.final_def_outcome {
            Some(true) => true,
            _ => false,
        };
        let excepted = match except {
            Some(id) => id == d.final_def_id,
            None => false,
        };
        if d.user_id == student_id && passed && !excepted {
            return true;
        }
        i += 1;
    }
    false
}

/// What a student's request for a final defense leads to.  `student` is the
/// caller's student record as stored, and `defenses` the final defenses on
/// record, of which only the caller's own are looked at.
pub open spec fn new_final_defense(
    session: Session,
    req: FinalDefensesPostRequest,
    student: Option<Student>,
    defenses: Seq<FinalDefense>,
    now: Timestamp,
) -> Result<NewFinalDefense, ApiErrorView> {
    match session.identity() {
        Err(e) => Err(e),
        Ok((user_id, role)) => if role != UserRole::Student {
            Err(ApiErrorView::Forbidden)
        } else if student is None {
            Err(ApiErrorView::NotFound)
        } else if student->0.topic_id is None {
            Err(ApiErrorView::Conflict("Student has no assigned topic"@))
        } else if has_pending_defense(defenses, user_id) {
            Err(ApiErrorView::Conflict("A pending final defense already exists"@))
        } else if has_passed_defense(defenses, user_id, None) {
            Err(ApiErrorView::Conflict("A passed final defense already exists"@))
        } else {
            Ok(
                NewFinalDefense {
                    topic_id: student->0.topic_id->0,
                    user_id,
                    def_user_id: None,
                    final_def_time: now,
                    final_def_attachment: req.attachment,
                    final_def_outcome: None,
                    final_def_comment: None,
                    final_def_grade: None,
                },
            )
        },
    }
}

/// Decides on a request for a final defense made at the instant `now`.  A
/// student with a pending or a passed defense is refused.
pub fn create_final_defense_at(
    session: &Session,
    req: FinalDefensesPostRequest,
    student: &Option<Student>,
    defenses: &Vec<FinalDefense>,
    now: Timestamp,
) -> (res: Result<NewFinalDefense, ApiError>)
    ensures
        answers(res, new_final_defense(*session, req, *student, defenses@, now)),
{
    let (user_id, role) = identify(session)?;
    match role {
        UserRole::Student => {},
        _ => {
            return Err(ApiError::Forbidden);
        },
    }
    let student = match student {
        Some(s) => s,
        None => {
            return Err(ApiError::NotFound);
        },
    };
    let topic_id = match student.topic_id {
        Some(id) => id,
        None => {
            return Err(ApiError::conflict("Student has no assigned topic"));
        },
    };
    if find_pending_defense(defenses, user_id) {
        return Err(ApiError::conflict("A pending final defense already exists"));
    }
    if find_passed_defense(defenses, user_id, None) {
        return Err(ApiError::conflict("A passed final defense already exists"));
    }
    Ok(
        NewFinalDefense {
            topic_id,
            user_id,
            def_user_id: None,
            final_def_time: now,
            final_def_attachment: req.attachment,
            final_def_outcome: None,
            final_def_comment: None,
            final_def_grade: None,
        },
    )
}

/// Decides on a request for a final defense made now: the outcome of
/// [`create_final_defense_at`] for the instant the clock shows.
pub fn create_final_defense(
    session: &Session,
    req: FinalDefensesPostRequest,
    student: &Option<Student>,
    defenses: &Vec<FinalDefense>,
) -> (res: Result<NewFinalDefense, ApiError>)
    ensures
        exists|now: Timestamp|
            now.micros >= 0 && answers(
                res,
                #[trigger] new_final_defense(*session, req, *student, defenses@, now),
            ),
{
    let now = Timestamp::now();
    create_final_defense_at(session, req, student, defenses, now)
}

/// The number of pending defenses a board member holds according to the
/// counts read: the count of the last entry for that member, 0 where there is
/// none.  Entries without a member are passed over.
pub open spec fn pending_load(counts: Seq<(Option<i32>, i64)>, board: i32) -> i64
    decreases counts.len(),
{
    if counts.len() == 0 {
        0
    } else if counts.last().0 == Some(board) {
        counts.last().1
    } else {
        pending_load(counts.drop_last(), board)
    }
}

/// True when `member` is the one a newly approved defense goes to: a member
/// with the smallest load, and with the lowest id among the members with
/// that load.
pub open spec fn is_least_loaded(
    board_ids: Seq<i32>,
    counts: Seq<(Option<i32>, i64)>,
    member: i32,
) -> bool {
    &&& exists|k: int| 0 <= k < board_ids.len() && #[trigger] board_ids[k] == member
    &&& forall|j: int|
        0 <= j < board_ids.len() ==> pending_load(counts, member) <= pending_load(
            counts,
            #[trigger] board_ids[j],
        )
    &&& forall|j: int|
        0 <= j < board_ids.len() && pending_load(counts, #[trigger] board_ids[j])
            == pending_load(counts, member) ==> member <= board_ids[j]
}

/// The board member a newly approved defense goes to: among the members with
/// the smallest load the one with the lowest id, in whatever order the
/// members are listed; none where there is no member.
pub open spec fn least_loaded_board(
    board_ids: Seq<i32>,
    counts: Seq<(Option<i32>, i64)>,
) -> Option<i32> {
    if board_ids.len() == 0 {
        None
    } else {
        Some(choose|member: i32| is_least_loaded(board_ids, counts, member))
    }
}

/// At most one member is the one a newly approved defense goes to.
pub proof fn lemma_least_loaded_unique(
    board_ids: Seq<i32>,
    counts: Seq<(Option<i32>, i64)>,
    m1: i32,
    m2: i32,
)
    requires
        is_least_loaded(board_ids, counts, m1),
        is_least_loaded(board_ids, counts, m2),
    ensures
        m1 == m2,
{
    let k1 = choose|k: int| 0 <= k < board_ids.len() && #[trigger] board_ids[k] == m1;
    let k2 = choose|k: int| 0 <= k < board_ids.len() && #[trigger] board_ids[k] == m2;
    assert(pending_load(counts, m1) <= pending_load(counts, board_ids[k2]));
    assert(pending_load(counts, m2) <= pending_load(counts, board_ids[k1]));
    assert(m1 <= board_ids[k2]);
    assert(m2 <= board_ids[k1]);
}

/// The count a map of counts holds for a board member, 0 where it holds none.
pub open spec fn counted_load(counted: Map<i32, i64>, board: i32) -> i64 {
    if counted.contains_key(board) {
        counted[board]
    } else {
        0
    }
}

/// Chooses the board member for a newly approved defense: among the members
/// with the smallest load the one with the lowest id.
pub fn pick_defense_board(
    board_ids: &Vec<i32>,
    pending_counts: &Vec<(Option<i32>, i64)>,
) -> (res: Option<i32>)
    ensures
        res == least_loaded_board(board_ids@, pending_counts@),
        match res {
            Some(member) => is_least_loaded(board_ids@, pending_counts@, member),
            None => board_ids@.len() == 0,
        },
{
    if board_ids.len() == 0 {
        return None;
    }
    let mut count_by_board: HashMap<i32, i64> = HashMap::new();
    let mut n: usize = 0;
    while n < pending_counts.len()
        invariant
            n <= pending_counts@.len(),
            forall|b: i32|
                #[trigger] counted_load(count_by_board@, b) == pending_load(
                    pending_counts@.subrange(0, n as int),
                    b,
                ),
        decreases pending_counts@.len() - n,
    {
        let (board_id, c) = pending_counts[n];
        let ghost before = pending_counts@.subrange(0, n as int);
        let ghost after = pending_counts@.subrange(0, n + 1);
        let ghost counted = count_by_board@;
        if let Some(board_id) = board_id {
            count_by_board.insert(board_id, c);
        }
        proof {
            assert(after.drop_last() =~= before);
            assert(after.last() == pending_counts@[n as int]);
            assert forall|b: i32| #[trigger]
                counted_load(count_by_board@, b) == pending_load(after, b) by {
                assert(counted_load(counted, b) == pending_load(before, b));
            }
        }
        n += 1;
    }
    assert(pending_counts@.subrange(0, n as int) =~= pending_counts@);
    let mut assigned = board_ids[0];
    let mut assigned_count: i64 = match count_by_board.get(&assigned) {
        Some(c) => *c,
        None => 0,
    };
    assert(assigned_count == counted_load(count_by_board@, assigned));
    let ghost mut at: int = 0;
    let mut i: usize = 1;
    while i < board_ids.len()
        invariant
            1 <= i <= board_ids@.len(),
            0 <= at < i,
            assigned == board_ids@[at],
            assigned_count == pending_load(pending_counts@, assigned),
            forall|b: i32|
                #[trigger] counted_load(count_by_board@, b) == pending_load(pending_counts@, b),
            forall|j: int|
                0 <= j < i ==> assigned_count <= pending_load(
                    pending_counts@,
                    #[trigger] board_ids@[j],
                ),
            forall|j: int|
                0 <= j < i && pending_load(pending_counts@, #[trigger] board_ids@[j])
                    == assigned_count ==> assigned <= board_ids@[j],
        decreases board_ids@.len() - i,
    {
        let board_id = board_ids[i];
        let c: i64 = match count_by_board.get(&board_id) {
            Some(c) => *c,
            None => 0,
        };
        assert(c == counted_load(count_by_board@, board_id));
        if c < assigned_count || (c == assigned_count && board_id < assigned) {
            assigned = board_id;
            assigned_count = c;
            proof {
                at = i as int;
            }
        }
        i += 1;
    }
    proof {
        assert(board_ids@[at] == assigned);
        assert(is_least_loaded(board_ids@, pending_counts@, assigned));
        let chosen = choose|member: i32| is_least_loaded(board_ids@, pending_counts@, member);
        lemma_least_loaded_unique(board_ids@, pending_counts@, assigned, chosen);
    }
    Some(assigned)
}

/// What a teacher's review of a request for a defense leads to.  Only the
/// owner of the topic may review, and only while the defense is pending; a
/// refusal deletes the request, an approval hands it to the least loaded
/// board member.
pub open spec fn defense_review(
    teacher_id: i32,
    review: FinalDefenseReviewRequest,
    record: Option<FinalDefenseRecord>,
    board_ids: Seq<i32>,
    pending_counts: Seq<(Option<i32>, i64)>,
) -> Result<FinalDefenseUpdate, ApiErrorView> {
    if record is None {
        Err(ApiErrorView::NotFound)
    } else if record->0.teacher_id != teacher_id {
        Err(ApiErrorView::Forbidden)
    } else if record->0.defense.final_def_outcome is Some {
        Err(ApiErrorView::Conflict("Final defense already finalized"@))
    } else if !review.approved {
        Ok(FinalDefenseUpdate::Delete { final_def_id: record->0.defense.final_def_id })
    } else if record->0.defense.def_user_id is Some {
        Err(ApiErrorView::Conflict("Final defense already assigned"@))
    } else {
        match least_loaded_board(board_ids, pending_counts) {
            None => Err(ApiErrorView::Conflict("No defense board available"@)),
            Some(def_user_id) => Ok(
                FinalDefenseUpdate::AssignBoard {
                    final_def_id: record->0.defense.final_def_id,
                    def_user_id,
                },
            ),
        }
    }
}

/// What a board member's verdict leads to.  Only the member the defense is
/// assigned to may judge it, and a student can have one passed defense only.
pub open spec fn defense_verdict(
    board_id: i32,
    verdict: FinalDefensesRecordPatchRequest,
    record: Option<FinalDefenseRecord>,
    defenses: Seq<FinalDefense>,
) -> Result<FinalDefenseUpdate, ApiErrorView> {
    if record is None {
        Err(ApiErrorView::NotFound)
    } else if record->0.defense.def_user_id != Some(board_id) {
        Err(ApiErrorView::Forbidden)
    } else if verdict.outcome && has_passed_defense(
        defenses,
        record->0.defense.user_id,
        Some(record->0.defense.final_def_id),
    ) {
        Err(ApiErrorView::Conflict("Another passed final defense already exists"@))
    } else {
        Ok(
            FinalDefenseUpdate::Grade {
                final_def_id: record->0.defense.final_def_id,
                outcome: verdict.outcome,
                comment: verdict.comment,
                grade: verdict.grade,
            },
        )
    }
}

/// What a change to a final defense leads to.  `record` is the defense named
/// by the request, as stored; `board_ids` lists the board members,
/// `pending_counts` the number of pending defenses per assigned member, and
/// `defenses` the final defenses on record.
pub open spec fn final_defense_update(
    session: Session,
    req: FinalDefensePatchRequest,
    record: Option<FinalDefenseRecord>,
    board_ids: Seq<i32>,
    pending_counts: Seq<(Option<i32>, i64)>,
    defenses: Seq<FinalDefense>,
) -> Result<FinalDefenseUpdate, ApiErrorView> {
    match session.identity() {
        Err(e) => Err(e),
        Ok((user_id, role)) => match (role, req) {
            (UserRole::Teacher, FinalDefensePatchRequest::Teacher(review)) => defense_review(
                user_id,
                review,
                record,
                board_ids,
                pending_counts,
            ),
            (
                UserRole::DefenseBoard,
                FinalDefensePatchRequest::DefenseBoard(verdict),
            ) => defense_verdict(user_id, verdict, record, defenses),
            (UserRole::Teacher, _) => Err(
                ApiErrorView::BadRequest("Teacher patch request must be { approved: bool }"@),
            ),
            (UserRole::DefenseBoard, _) => Err(
                ApiErrorView::BadRequest(
                    "Defense board patch request must be { outcome, comment, grade }"@,
                ),
            ),
            _ => Err(ApiErrorView::Forbidden),
        },
    }
}

fn review_final_defense(
    teacher_id: i32,
    review: FinalDefenseReviewRequest,
    record: &Option<FinalDefenseRecord>,
    board_ids: &Vec<i32>,
    pending_counts: &Vec<(Option<i32>, i64)>,
) -> (res: Result<FinalDefenseUpdate, ApiError>)
    ensures
        answers(res, defense_review(teacher_id, review, *record, board_ids@, pending_counts@)),
        res matches Ok(FinalDefenseUpdate::AssignBoard { def_user_id, .. }) ==> is_least_loaded(
            board_ids@,
            pending_counts@,
            def_user_id,
        ),
{
    let record = match record {
        Some(r) => r,
        None => {
            return Err(ApiError::NotFound);
        },
    };
    if record.teacher_id != teacher_id {
        return Err(ApiError::Forbidden);
    }
    if record.defense.final_def_outcome.is_some() {
        return Err(ApiError::conflict("Final defense already finalized"));
    }
    if !review.approved {
        return Ok(FinalDefenseUpdate::Delete { final_def_id: record.defense.final_def_id });
    }
    if record.defense.def_user_id.is_some() {
        return Err(ApiError::conflict("Final defense already assigned"));
    }
    match pick_defense_board(board_ids, pending_counts) {
        None => Err(ApiError::conflict("No defense board available")),
        Some(def_user_id) => Ok(
            FinalDefenseUpdate::AssignBoard {
                final_def_id: record.defense.final_def_id,
                def_user_id,
            },
        ),
    }
}

fn judge_final_defense(
    board_id: i32,
    verdict: FinalDefensesRecordPatchRequest,
    record: &Option<FinalDefenseRecord>,
    defenses: &Vec<FinalDefense>,
) -> (res: Result<FinalDefenseUpdate, ApiError>)
    ensures
        answers(res, defense_verdict(board_id, verdict, *record, defenses@)),
{
    let record = match record {
        Some(r) => r,
        None => {
            return Err(ApiError::NotFound);
        },
    };
    let assigned_to_caller = match record.defense.def_user_id {
        Some(id) => id == board_id,
        None => false,
    };
    if !assigned_to_caller {
        return Err(ApiError::Forbidden);
    }
    if verdict.outcome && find_passed_defense(
        defenses,
        record.defense.user_id,
        Some(record.defense.final_def_id),
    ) {
        return Err(ApiError::conflict("Another passed final defense already exists"));
    }
    Ok(
        FinalDefenseUpdate::Grade {
            final_def_id: record.defense.final_def_id,
            outcome: verdict.outcome,
            comment: verdict.comment,
            grade: verdict.grade,
        },
    )
}

/// Decides on a change to a final defense: a teacher's review of the request,
/// or the verdict of the board member it is assigned to.  An approved request
/// goes to the member with the smallest load, and among those with that load
/// to the one with the lowest id.
pub fn update_final_defense(
    session: &Session,
    req: FinalDefensePatchRequest,
    record: &Option<FinalDefenseRecord>,
    board_ids: &Vec<i32>,
    pending_counts: &Vec<(Option<i32>, i64)>,
    defenses: &Vec<FinalDefense>,
) -> (res: Result<FinalDefenseUpdate, ApiError>)
    ensures
        answers(
            res,
            final_defense_update(
                *session,
                req,
                *record,
                board_ids@,
                pending_counts@,
                defenses@,
            ),
        ),
        res matches Ok(FinalDefenseUpdate::AssignBoard { def_user_id, .. }) ==> is_least_loaded(
            board_ids@,
            pending_counts@,
            def_user_id,
        ),
{
    let (user_id, role) = identify(session)?;
    match (role, req) {
        (UserRole::Teacher, FinalDefensePatchRequest::Teacher(review)) => review_final_defense(
            user_id,
            review,
            record,
            board_ids,
            pending_counts,
        ),
        (
            UserRole::DefenseBoard,
            FinalDefensePatchRequest::DefenseBoard(verdict),
        ) => judge_final_defense(user_id, verdict, record, defenses),
        (UserRole::Teacher, _) => Err(
            ApiError::bad_request("Teacher patch request must be { approved: bool }"),
        ),
        (UserRole::DefenseBoard, _) => Err(
            ApiError::bad_request(
                "Defense board patch request must be { outcome, comment, grade }",
            ),
        ),
        _ => Err(ApiError::Forbidden),
    }
}

/// True when two defenses are two pending, or two passed, defenses of one
/// student.
pub open spec fn defenses_clash(a: FinalDefense, b: FinalDefense) -> bool {
    &&& a.user_id == b.user_id
    &&& a.final_def_outcome == b.final_def_outcome
    &&& (a.final_def_outcome is None || a.final_def_outcome == Some(true))
}

/// The state the rules keep the final defenses in: no two share an id, and no
/// student has two pending or two passed defenses.
pub open spec fn defenses_consistent(defenses: Seq<FinalDefense>) -> bool {
    &&& forall|i: int, j: int|
        0 <= i < j < defenses.len() ==> (#[trigger] defenses[i]).final_def_id != (
        #[trigger] defenses[j]).final_def_id
    &&& forall|i: int, j: int|
        0 <= i < j < defenses.len() ==> !defenses_clash(
            #[trigger] defenses[i],
            #[trigger] defenses[j],
        )
}

/// A new defense as it is stored under the id it was given.
pub open spec fn stored_defense(new: NewFinalDefense, final_def_id: i32) -> FinalDefense {
    FinalDefense {
        final_def_id,
        topic_id: new.topic_id,
        user_id: new.user_id,
        def_user_id: new.def_user_id,
        final_def_time: new.final_def_time,
        final_def_attachment: new.final_def_attachment,
        final_def_outcome: new.final_def_outcome,
        final_def_comment: new.final_def_comment,
        final_def_grade: new.final_def_grade,
    }
}

/// The defenses after an accepted change to the one at index `k`.
pub open spec fn updated_defenses(
    defenses: Seq<FinalDefense>,
    k: int,
    update: FinalDefenseUpdate,
) -> Seq<FinalDefense> {
    match update {
        FinalDefenseUpdate::Delete { .. } => defenses.remove(k),
        FinalDefenseUpdate::AssignBoard { def_user_id, .. } => defenses.update(
            k,
            FinalDefense { def_user_id: Some(def_user_id), ..defenses[k] },
        ),
        FinalDefenseUpdate::Grade { outcome, comment, grade, .. } => defenses.update(
            k,
            FinalDefense {
                final_def_outcome: Some(outcome),
                final_def_comment: Some(comment),
                final_def_grade: Some(grade),
                ..defenses[k]
            },
        ),
    }
}

/// Asking for a defense keeps the defenses consistent: if they are before,
/// and the request is accepted on the defenses on record, they still are once
/// the new defense is stored under an unused id.
pub proof fn lemma_new_defense_keeps_consistency(
    session: Session,
    req: FinalDefensesPostRequest,
    student: Option<Student>,
    defenses: Seq<FinalDefense>,
    now: Timestamp,
    final_def_id: i32,
)
    requires
        defenses_consistent(defenses),
        new_final_defense(session, req, student, defenses, now) is Ok,
        forall|i: int| 0 <= i < defenses.len() ==> (#[trigger] defenses[i]).final_def_id
            != final_def_id,
    ensures
        defenses_consistent(
            defenses.push(
                stored_defense(
                    new_final_defense(session, req, student, defenses, now)->Ok_0,
                    final_def_id,
                ),
            ),
        ),
{
    let new = new_final_defense(session, req, student, defenses, now)->Ok_0;
    let after = defenses.push(stored_defense(new, final_def_id));
    let user_id = session.identity()->Ok_0.0;
    assert(!has_pending_defense(defenses, user_id));
    assert forall|i: int, j: int| 0 <= i < j < after.len() implies !defenses_clash(
        #[trigger] after[i],
        #[trigger] after[j],
    ) by {
        if j == defenses.len() {
            assert(after[i] == defenses[i]);
            if defenses_clash(after[i], after[j]) {
                assert(defenses[i].user_id == user_id && defenses[i].final_def_outcome is None);
                assert(false);
            }
        } else {
            assert(after[i] == defenses[i] && after[j] == defenses[j]);
        }
    }
    assert forall|i: int, j: int| 0 <= i < j < after.len() implies (
    #[trigger] after[i]).final_def_id != (#[trigger] after[j]).final_def_id by {
        if j == defenses.len() {
            assert(after[i] == defenses[i]);
        } else {
            assert(after[i] == defenses[i] && after[j] == defenses[j]);
        }
    }
}

/// A change to a defense keeps the defenses consistent: if they are before,
/// and the change to the defense at index `k` is accepted on the defenses on
/// record, they still are once the change is carried out.
pub proof fn lemma_defense_update_keeps_consistency(
    session: Session,
    req: FinalDefensePatchRequest,
    record: Option<FinalDefenseRecord>,
    board_ids: Seq<i32>,
    pending_counts: Seq<(Option<i32>, i64)>,
    defenses: Seq<FinalDefense>,
    k: int,
)
    requires
        defenses_consistent(defenses),
        0 <= k < defenses.len(),
        record matches Some(r) && r.defense == defenses[k],
        final_defense_update(session, req, record, board_ids, pending_counts, defenses) is Ok,
    ensures
        defenses_consistent(
            updated_defenses(
                defenses,
                k,
                final_defense_update(
                    session,
                    req,
                    record,
                    board_ids,
                    pending_counts,
                    defenses,
                )->Ok_0,
            ),
        ),
{
    let update = final_defense_update(
        session,
        req,
        record,
        board_ids,
        pending_counts,
        defenses,
    )->Ok_0;
    let after = updated_defenses(defenses, k, update);
    match update {
        FinalDefenseUpdate::Delete { .. } => {
            assert forall|i: int, j: int| 0 <= i < j < after.len() implies !defenses_clash(
                #[trigger] after[i],
                #[trigger] after[j],
            ) && after[i].final_def_id != after[j].final_def_id by {
                let oi = if i < k {
                    i
                } else {
                    i + 1
                };
                let oj = if j < k {
                    j
                } else {
                    j + 1
                };
                assert(after[i] == defenses[oi] && after[j] == defenses[oj]);
                assert(!defenses_clash(defenses[oi], defenses[oj]));
            }
        },
        FinalDefenseUpdate::AssignBoard { .. } => {
            assert forall|i: int, j: int| 0 <= i < j < after.len() implies !defenses_clash(
                #[trigger] after[i],
                #[trigger] after[j],
            ) && after[i].final_def_id != after[j].final_def_id by {
                assert(!defenses_clash(defenses[i], defenses[j]));
                assert(defenses[i].final_def_id != defenses[j].final_def_id);
            }
        },
        FinalDefenseUpdate::Grade { outcome, .. } => {
            let verdict = req->DefenseBoard_0;
            assert(!(verdict.outcome && has_passed_defense(
                defenses,
                defenses[k].user_id,
                Some(defenses[k].final_def_id),
            )));
            assert forall|i: int, j: int| 0 <= i < j < after.len() implies !defenses_clash(
                #[trigger] after[i],
                #[trigger] after[j],
            ) && after[i].final_def_id != after[j].final_def_id by {
                assert(!defenses_clash(defenses[i], defenses[j]));
                assert(defenses[i].final_def_id != defenses[j].final_def_id);
                if defenses_clash(after[i], after[j]) {
                    if i == k {
                        assert(after[j] == defenses[j]);
                        assert(has_passed_defense(
                            defenses,
                            defenses[k].user_id,
                            Some(defenses[k].final_def_id),
                        ));
                    } else if j == k {
                        assert(after[i] == defenses[i]);
                        assert(has_passed_defense(
                            defenses,
                            defenses[k].user_id,
                            Some(defenses[k].final_def_id),
                        ));
                    }
                    assert(false);
                }
            }
        },
    }
}

/// Among one or more board members there is one a newly approved defense
/// goes to.
pub proof fn lemma_least_loaded_exists(
    board_ids: Seq<i32>,
    counts: Seq<(Option<i32>, i64)>,
) -> (member: i32)
    requires
        board_ids.len() > 0,
    ensures
        is_least_loaded(board_ids, counts, member),
    decreases board_ids.len(),
{
    if board_ids.len() == 1 {
        assert(board_ids[0] == board_ids[0]);
        board_ids[0]
    } else {
        let front = board_ids.drop_last();
        let best = lemma_least_loaded_exists(front, counts);
        let last = board_ids.len() - 1;
        let added = board_ids[last];
        let kb = choose|k: int| 0 <= k < front.len() && #[trigger] front[k] == best;
        assert(board_ids[kb] == best);
        assert forall|j: int| 0 <= j < front.len() implies #[trigger] front[j] == board_ids[j] by {}
        let takes_over = pending_load(counts, added) < pending_load(counts, best) || (pending_load(
            counts,
            added,
        ) == pending_load(counts, best) && added < best);
        let member = if takes_over {
            added
        } else {
            best
        };
        assert(board_ids[last] == added);
        assert forall|j: int| 0 <= j < board_ids.len() implies pending_load(counts, member)
            <= pending_load(counts, #[trigger] board_ids[j]) by {
            if j < last {
                assert(pending_load(counts, best) <= pending_load(counts, front[j]));
            }
        }
        assert forall|j: int|
            0 <= j < board_ids.len() && pending_load(counts, #[trigger] board_ids[j])
                == pending_load(counts, member) implies member <= board_ids[j] by {
            if j < last {
                assert(pending_load(counts, best) <= pending_load(counts, front[j]));
                if pending_load(counts, front[j]) == pending_load(counts, best) {
                    assert(best <= front[j]);
                }
            }
        }
        member
    }
}

/// The member chosen for a newly approved defense is one of the members, no
/// member carries a smaller load, and no member with the same load has a
/// lower id: the choice does not depend on the order the members are listed
/// in.
pub proof fn lemma_chosen_board_is_least_loaded(
    board_ids: Seq<i32>,
    counts: Seq<(Option<i32>, i64)>,
)
    requires
        board_ids.len() > 0,
    ensures
        least_loaded_board(board_ids, counts) matches Some(chosen) && {
            &&& board_ids.contains(chosen)
            &&& forall|j: int|
                0 <= j < board_ids.len() ==> pending_load(counts, chosen) <= pending_load(
                    counts,
                    #[trigger] board_ids[j],
                )
            &&& forall|j: int|
                0 <= j < board_ids.len() && pending_load(counts, #[trigger] board_ids[j])
                    == pending_load(counts, chosen) ==> chosen <= board_ids[j]
        },
{
    let witness = lemma_least_loaded_exists(board_ids, counts);
    let chosen = choose|member: i32| is_least_loaded(board_ids, counts, member);
    let k = choose|k: int| 0 <= k < board_ids.len() && #[trigger] board_ids[k] == chosen;
    assert(board_ids[k] == chosen);
}

} // verus!
