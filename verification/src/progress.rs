//! Progress reports: listing them, handing one in, and the teacher's verdict.

use crate::database::NewProgressReport;
use crate::database::ProgressReport;
use crate::database::Student;
use crate::error::answers;
use crate::error::ApiError;
use crate::error::ApiErrorView;
use crate::model::ProgressOutcome;
use crate::model::ProgressReportDetailResponse;
use crate::model::ProgressReportRecordPatchRequest;
use crate::model::ProgressReportType;
use crate::model::ProgressReportsGetResponse;
use crate::model::ProgressReportsPostRequest;
use crate::model::Timestamp;
use crate::model::UserRole;
use crate::paging::lemma_filter_kept;
use crate::paging::lemma_filter_step;
use crate::session::identify;
use crate::session::Session;
use vstd::prelude::*;

verus! {

/// Whose progress reports a caller is shown.
#[derive(Debug, Clone, Copy, PartialEq, Eq, Structural)]
pub enum ReportScope {
    /// The reports of one student.
    OfStudent(i32),
    /// The reports on the topics of one teacher.
    OfTeacher(i32),
}

/// A progress report joined with the name of its student and with the teacher
/// who owns its topic.
#[derive(Debug, Clone)]
pub struct ProgressReportRecord {
    pub report: ProgressReport,
    pub student_name: String,
    pub teacher_id: i32,
}

/// What an accepted verdict writes into a progress report.
#[derive(Debug, Clone)]
pub struct ProgressReportUpdate {
    pub prog_report_id: i32,
    pub prog_report_outcome: i16,
    pub prog_report_comment: Option<String>,
    pub prog_report_grade: Option<bigdecimal::BigDecimal>,
}

/// Who may list progress reports, and which.
pub open spec fn report_scope(session: Session) -> Result<ReportScope, ApiErrorView> {
    match session.identity() {
        Err(e) => Err(e),
        Ok((user_id, role)) => match role {
            UserRole::Student => Ok(ReportScope::OfStudent(user_id)),
            UserRole::Teacher => Ok(ReportScope::OfTeacher(user_id)),
            _ => Err(ApiErrorView::Forbidden),
        },
    }
}

/// Decides who may list progress reports and whose are read: a student's own,
/// or those on a teacher's topics.
pub fn get_progress_reports(session: &Session) -> (res: Result<ReportScope, ApiError>)
    ensures
        answers(res, report_scope(*session)),
{
    let (user_id, role) = identify(session)?;
    match role {
        UserRole::Student => Ok(ReportScope::OfStudent(user_id)),
        UserRole::Teacher => Ok(ReportScope::OfTeacher(user_id)),
        _ => Err(ApiError::Forbidden),
    }
}

/// A progress report as it is shown, if its stored type and outcome are known
/// ones.
pub open spec fn report_details(
    report: ProgressReport,
    student_name: String,
) -> Option<ProgressReportDetailResponse> {
    match (
        ProgressReportType::of_code(report.prog_report_type),
        ProgressOutcome::of_code(report.prog_report_outcome),
    ) {
        (Some(prog_report_type), Some(prog_report_outcome)) => Some(
            ProgressReportDetailResponse {
                prog_report_id: report.prog_report_id,
                topic_id: report.topic_id,
                student_id: report.user_id,
                student_name,
                prog_report_type,
                prog_report_time: report.prog_report_time,
                prog_report_attachment: report.prog_report_attachment,
                prog_report_outcome,
                prog_report_comment: report.prog_report_comment,
                prog_report_grade: report.prog_report_grade,
            },
        ),
        _ => None,
    }
}

/// Puts a progress report and the name of its student into the shape shown to
/// callers.
pub fn progress_report_details(
    report: ProgressReport,
    student_name: String,
) -> (res: Result<ProgressReportDetailResponse, ApiError>)
    ensures
        match res {
            Ok(d) => report_details(report, student_name) == Some(d),
            Err(e) => report_details(report, student_name) is None && e@
                == ApiErrorView::InternalServerError,
        },
{
    let prog_report_type = match ProgressReportType::try_from(report.prog_report_type) {
        Ok(t) => t,
        Err(_) => {
            return Err(ApiError::InternalServerError);
        },
    };
    let prog_report_outcome = match ProgressOutcome::try_from(report.prog_report_outcome) {
        Ok(o) => o,
        Err(_) => {
            return Err(ApiError::InternalServerError);
        },
    };
    Ok(
        ProgressReportDetailResponse {
            prog_report_id: report.prog_report_id,
            topic_id: report.topic_id,
            student_id: report.user_id,
            student_name,
            prog_report_type,
            prog_report_time: report.prog_report_time,
            prog_report_attachment: report.prog_report_attachment,
            prog_report_outcome,
            prog_report_comment: report.prog_report_comment,
            prog_report_grade: report.prog_report_grade,
        },
    )
}

impl ReportScope {
    /// True when the scope shows the report.
    pub open spec fn admits(self, record: ProgressReportRecord) -> bool {
        match self {
            ReportScope::OfStudent(user_id) => record.report.user_id == user_id,
            ReportScope::OfTeacher(user_id) => record.teacher_id == user_id,
        }
    }

    /// Tells whether the scope shows the report.
    pub fn shows(&self, record: &ProgressReportRecord) -> (shown: bool)
        ensures
            shown == self.admits(*record),
    {
        match self {
            ReportScope::OfStudent(user_id) => record.report.user_id == *user_id,
            ReportScope::OfTeacher(user_id) => record.teacher_id == *user_id,
        }
    }

    /// The condition under which the scope shows a report.
    pub open spec fn admitting(self) -> spec_fn(ProgressReportRecord) -> bool {
        |record: ProgressReportRecord| self.admits(record)
    }
}

/// True when every record can be shown.
pub open spec fn all_showable(records: Seq<ProgressReportRecord>) -> bool {
    forall|i: int|
        0 <= i < records.len() ==> report_details(
            (#[trigger] records[i]).report,
            records[i].student_name,
        ) is Some
}

fn shows_any(scope: &ReportScope, records: &Vec<ProgressReportRecord>) -> (any: bool)
    ensures
        any == (records@.filter(scope.admitting()).len() > 0),
{
    let mut i: usize = 0;
    while i < records.len()
        invariant
            i <= records@.len(),
            records@.take(i as int).filter(scope.admitting()).len() == 0,
        decreases records@.len() - i,
    {
        proof {
            lemma_filter_step(records@, scope.admitting(), i as int);
        }
        if scope.shows(&records[i]) {
            proof {
                lemma_filter_kept(records@, scope.admitting(), i + 1);
            }
            return true;
        }
        i += 1;
    }
    assert(records@.take(i as int) =~= records@);
    false
}

/// The list of progress reports out of the records read for it: those the
/// scope shows, in the order read.  A caller who is shown none gets
/// `NotFound`; a shown record whose stored type or outcome is no known one
/// fails the whole list.
pub fn progress_reports_page(
    scope: &ReportScope,
    records: Vec<ProgressReportRecord>,
) -> (res: Result<ProgressReportsGetResponse, ApiError>)
    ensures
        ({
            let shown = records@.filter(scope.admitting());
            match res {
                Ok(resp) => {
                    &&& shown.len() > 0
                    &&& resp.reports@.len() == shown.len()
                    &&& forall|i: int|
                        0 <= i < shown.len() ==> Some(#[trigger] resp.reports@[i])
                            == report_details(shown[i].report, shown[i].student_name)
                },
                Err(e) => if shown.len() == 0 {
                    e@ == ApiErrorView::NotFound
                } else {
                    !all_showable(shown) && e@ == ApiErrorView::InternalServerError
                },
            }
        }),
{
    if !shows_any(scope, &records) {
        return Err(ApiError::NotFound);
    }
    let mut reports: Vec<ProgressReportDetailResponse> = Vec::new();
    for record in it: records.into_iter()
        invariant
            it.seq() == records@,
            records@.filter(scope.admitting()).len() > 0,
            reports@.len() == records@.take(it.index() as int).filter(scope.admitting()).len(),
            forall|k: int|
                0 <= k < reports@.len() ==> Some(#[trigger] reports@[k]) == report_details(
                    records@.take(it.index() as int).filter(scope.admitting())[k].report,
                    records@.take(it.index() as int).filter(scope.admitting())[k].student_name,
                ),
    {
        let ghost before = records@.take(it.index() as int).filter(scope.admitting());
        proof {
            lemma_filter_step(records@, scope.admitting(), it.index() as int);
        }
        assert(record == records@[it.index() as int]);
        if scope.shows(&record) {
            let details = match progress_report_details(record.report, record.student_name) {
                Ok(d) => d,
                Err(e) => {
                    proof {
                        lemma_filter_kept(records@, scope.admitting(), it.index() + 1);
                        let shown = records@.filter(scope.admitting());
                        let at = before.len() as int;
                        assert(shown[at] == record);
                    }
                    return Err(e);
                },
            };
            reports.push(details);
        }
    }
    assert(records@.take(records@.len() as int) =~= records@);
    Ok(ProgressReportsGetResponse { reports })
}

/// True when the student has a report of the given type with the given
/// outcome, other than the one with id `except`.
pub open spec fn has_report(
    reports: Seq<ProgressReport>,
    student_id: i32,
    type_code: i16,
    outcome_code: i16,
    except: Option<i32>,
) -> bool {
    exists|i: int|
        0 <= i < reports.len() && (#[trigger] reports[i]).user_id == student_id
            && reports[i].prog_report_type == type_code && reports[i].prog_report_outcome
            == outcome_code && except != Some(reports[i].prog_report_id)
}

fn find_report(
    reports: &Vec<ProgressReport>,
    student_id: i32,
    type_code: i16,
    outcome_code: i16,
    except: Option<i32>,
) -> (found: bool)
    ensures
        found == has_report(reports@, student_id, type_code, outcome_code, except),
{
    let mut i: usize = 0;
    while i < reports.len()
        invariant
            i <= reports@.len(),
            forall|k: int|
                0 <= k < i ==> !((#[trigger] reports@[k]).user_id == student_id
                    && reports@[k].prog_report_type == type_code && reports@[k].prog_report_outcome
                    == outcome_code && except != Some(reports@[k].prog_report_id)),
        decreases reports@.len() - i,
    {
        let r = &reports[i];
        let excepted = match except {
            Some(id) => id == r.prog_report_id,
            None => false,
        };
        if r.user_id == student_id && r.prog_report_type == type_code && r.prog_report_outcome
            == outcome_code && !excepted {
            return true;
        }
        i += 1;
    }
    false
}

/// The checkpoint a student's next report belongs to: the mid-term check once
/// a proposal has passed, the proposal before.
pub open spec fn next_report_type(
    reports: Seq<ProgressReport>,
    student_id: i32,
) -> ProgressReportType {
    if has_report(
        reports,
        student_id,
        ProgressReportType::Proposal.code(),
        ProgressOutcome::Passed.code(),
        None,
    ) {
        ProgressReportType::Midterm
    } else {
        ProgressReportType::Proposal
    }
}

/// What handing in a progress report leads to.  `student` is the caller's
/// student record as stored, and `reports` the progress reports on record, of
/// which only the caller's own are looked at.
pub open spec fn new_progress_report(
    session: Session,
    req: ProgressReportsPostRequest,
    student: Option<Student>,
    reports: Seq<ProgressReport>,
    now: Timestamp,
) -> Result<NewProgressReport, ApiErrorView> {
    match session.identity() {
        Err(e) => Err(e),
        Ok((user_id, role)) => {
            let report_type = next_report_type(reports, user_id);
            if role != UserRole::Student {
                Err(ApiErrorView::Forbidden)
            } else if student is None {
                Err(ApiErrorView::NotFound)
            } else if student->0.topic_id is None {
                Err(ApiErrorView::Conflict("Student has no assigned topic"@))
            } else if has_report(
                reports,
                user_id,
                report_type.code(),
                ProgressOutcome::NoConclusion.code(),
                None,
            ) {
                Err(ApiErrorView::Conflict("A pending report already exists"@))
            } else if has_report(
                reports,
                user_id,
                report_type.code(),
                ProgressOutcome::Passed.code(),
                None,
            ) {
                Err(ApiErrorView::Conflict("A passed report already exists"@))
            } else {
                Ok(
                    NewProgressReport {
                        topic_id: student->0.topic_id->0,
                        user_id,
                        prog_report_type: report_type.code(),
                        prog_report_time: now,
                        prog_report_attachment: req.attachment,
                        prog_report_outcome: ProgressOutcome::NoConclusion.code(),
                        prog_report_comment: None,
                        prog_report_grade: None,
                    },
                )
            }
        },
    }
}

/// Decides on a progress report handed in at the instant `now`.  The report is
/// a proposal until a proposal has passed, and a mid-term check from then on;
/// a student with an unjudged or a passed report of that type is refused.
pub fn create_progress_report_at(
    session: &Session,
    req: ProgressReportsPostRequest,
    student: &Option<Student>,
    reports: &Vec<ProgressReport>,
    now: Timestamp,
) -> (res: Result<NewProgressReport, ApiError>)
    ensures
        answers(res, new_progress_report(*session, req, *student, reports@, now)),
{
    let (user_id, role) = identify(session)?;
    match role {
        UserRole::Student => {},
        _ => {
            return Err(ApiError::Forbidden);
        },
    }
    let student = match student {
        Some(s) => s,
        None => {
            return Err(ApiError::NotFound);
        },
    };
    let topic_id = match student.topic_id {
        Some(id) => id,
        None => {
            return Err(ApiError::conflict("Student has no assigned topic"));
        },
    };
    let has_passed_proposal = find_report(
        reports,
        user_id,
        i16::from(ProgressReportType::Proposal),
        i16::from(ProgressOutcome::Passed),
        None,
    );
    let report_type = if has_passed_proposal {
        ProgressReportType::Midterm
    } else {
        ProgressReportType::Proposal
    };
    if find_report(
        reports,
        user_id,
        i16::from(report_type),
        i16::from(ProgressOutcome::NoConclusion),
        None,
    ) {
        return Err(ApiError::conflict("A pending report already exists"));
    }
    if find_report(
        reports,
        user_id,
        i16::from(report_type),
        i16::from(ProgressOutcome::Passed),
        None,
    ) {
        return Err(ApiError::conflict("A passed report already exists"));
    }
    Ok(
        NewProgressReport {
            topic_id,
            user_id,
            prog_report_type: i16::from(report_type),
            prog_report_time: now,
            prog_report_attachment: req.attachment,
            prog_report_outcome: i16::from(ProgressOutcome::NoConclusion),
            prog_report_comment: None,
            prog_report_grade: None,
        },
    )
}

/// Decides on a progress report handed in now: the outcome of
/// [`create_progress_report_at`] for the instant the clock shows.
pub fn create_progress_report(
    session: &Session,
    req: ProgressReportsPostRequest,
    student: &Option<Student>,
    reports: &Vec<ProgressReport>,
) -> (res: Result<NewProgressReport, ApiError>)
    ensures
        exists|now: Timestamp|
            now.micros >= 0 && answers(
                res,
                #[trigger] new_progress_report(*session, req, *student, reports@, now),
            ),
{
    let now = Timestamp::now();
    create_progress_report_at(session, req, student, reports, now)
}

/// True when the verdict would give the student a second unjudged, or a
/// second passed, report of the type of `report`.
pub open spec fn verdict_clashes(
    outcome: ProgressOutcome,
    report: ProgressReport,
    reports: Seq<ProgressReport>,
) -> bool {
    outcome != ProgressOutcome::Rejected && has_report(
        reports,
        report.user_id,
        report.prog_report_type,
        outcome.code(),
        Some(report.prog_report_id),
    )
}

/// What a teacher's verdict on a progress report leads to.  `record` is the
/// report named by the request, as stored, and `reports` the progress reports
/// on record.
pub open spec fn progress_report_update(
    session: Session,
    req: ProgressReportRecordPatchRequest,
    record: Option<ProgressReportRecord>,
    reports: Seq<ProgressReport>,
) -> Result<ProgressReportUpdate, ApiErrorView> {
    match session.identity() {
        Err(e) => Err(e),
        Ok((user_id, role)) => if role != UserRole::Teacher {
            Err(ApiErrorView::Forbidden)
        } else if record is None {
            Err(ApiErrorView::NotFound)
        } else if record->0.teacher_id != user_id {
            Err(ApiErrorView::Forbidden)
        } else if verdict_clashes(req.outcome, record->0.report, reports) {
            Err(
                ApiErrorView::Conflict(
                    if req.outcome == ProgressOutcome::NoConclusion {
                        "Another pending report already exists"@
                    } else {
                        "Another passed report already exists"@
                    },
                ),
            )
        } else {
            Ok(
                ProgressReportUpdate {
                    prog_report_id: record->0.report.prog_report_id,
                    prog_report_outcome: req.outcome.code(),
                    prog_report_comment: req.comment,
                    prog_report_grade: req.grade,
                },
            )
        },
    }
}

/// Decides on a teacher's verdict on a progress report.  Only the owner of
/// the topic may judge it, and no verdict may leave the student with two
/// unjudged or two passed reports of one type.
pub fn update_progress_report(
    session: &Session,
    req: ProgressReportRecordPatchRequest,
    record: &Option<ProgressReportRecord>,
    reports: &Vec<ProgressReport>,
) -> (res: Result<ProgressReportUpdate, ApiError>)
    ensures
        answers(res, progress_report_update(*session, req, *record, reports@)),
{
    let (user_id, role) = identify(session)?;
    match role {
        UserRole::Teacher => {},
        _ => {
            return Err(ApiError::Forbidden);
        },
    }
    let record = match record {
        Some(r) => r,
        None => {
            return Err(ApiError::NotFound);
        },
    };
    if record.teacher_id != user_id {
        return Err(ApiError::Forbidden);
    }
    let report = &record.report;
    match req.outcome {
        ProgressOutcome::NoConclusion => {
            if find_report(
                reports,
                report.user_id,
                report.prog_report_type,
                i16::from(ProgressOutcome::NoConclusion),
                Some(report.prog_report_id),
            ) {
                return Err(ApiError::conflict("Another pending report already exists"));
            }
        },
        ProgressOutcome::Passed => {
            if find_report(
                reports,
                report.user_id,
                report.prog_report_type,
                i16::from(ProgressOutcome::Passed),
                Some(report.prog_report_id),
            ) {
                return Err(ApiError::conflict("Another passed report already exists"));
            }
        },
        ProgressOutcome::Rejected => {},
    }
    Ok(
        ProgressReportUpdate {
            prog_report_id: report.prog_report_id,
            prog_report_outcome: i16::from(req.outcome),
            prog_report_comment: req.comment,
            prog_report_grade: req.grade,
        },
    )
}

/// True when two reports are two unjudged, or two passed, reports of one
/// student for one checkpoint.
pub open spec fn reports_clash(a: ProgressReport, b: ProgressReport) -> bool {
    &&& a.user_id == b.user_id
    &&& a.prog_report_type == b.prog_report_type
    &&& a.prog_report_outcome == b.prog_report_outcome
    &&& (a.prog_report_outcome == ProgressOutcome::NoConclusion.code() || a.prog_report_outcome
        == ProgressOutcome::Passed.code())
}

/// The state the rules keep the progress reports in: no two share an id, and
/// no student has two unjudged or two passed reports for one checkpoint.
pub open spec fn reports_consistent(reports: Seq<ProgressReport>) -> bool {
    &&& forall|i: int, j: int|
        0 <= i < j < reports.len() ==> (#[trigger] reports[i]).prog_report_id != (
        #[trigger] reports[j]).prog_report_id
    &&& forall|i: int, j: int|
        0 <= i < j < reports.len() ==> !reports_clash(#[trigger] reports[i], #[trigger] reports[j])
}

/// A new report as it is stored under the id it was given.
pub open spec fn stored_report(new: NewProgressReport, prog_report_id: i32) -> ProgressReport {
    ProgressReport {
        prog_report_id,
        topic_id: new.topic_id,
        user_id: new.user_id,
        prog_report_type: new.prog_report_type,
        prog_report_time: new.prog_report_time,
        prog_report_attachment: new.prog_report_attachment,
        prog_report_outcome: new.prog_report_outcome,
        prog_report_comment: new.prog_report_comment,
        prog_report_grade: new.prog_report_grade,
    }
}

/// A report after a verdict has been written into it.
pub open spec fn judged_report(
    report: ProgressReport,
    update: ProgressReportUpdate,
) -> ProgressReport {
    ProgressReport {
        prog_report_outcome: update.prog_report_outcome,
        prog_report_comment: update.prog_report_comment,
        prog_report_grade: update.prog_report_grade,
        ..report
    }
}

/// Handing in a report keeps the reports consistent: if they are before, and
/// the request is accepted on the reports on record, they still are once the
/// new report is stored under an unused id.
pub proof fn lemma_new_report_keeps_consistency(
    session: Session,
    req: ProgressReportsPostRequest,
    student: Option<Student>,
    reports: Seq<ProgressReport>,
    now: Timestamp,
    prog_report_id: i32,
)
    requires
        reports_consistent(reports),
        new_progress_report(session, req, student, reports, now) is Ok,
        forall|i: int| 0 <= i < reports.len() ==> (#[trigger] reports[i]).prog_report_id
            != prog_report_id,
    ensures
        reports_consistent(
            reports.push(
                stored_report(
                    new_progress_report(session, req, student, reports, now)->Ok_0,
                    prog_report_id,
                ),
            ),
        ),
{
    let new = new_progress_report(session, req, student, reports, now)->Ok_0;
    let added = stored_report(new, prog_report_id);
    let after = reports.push(added);
    let user_id = session.identity()->Ok_0.0;
    let report_type = next_report_type(reports, user_id);
    assert(!has_report(
        reports,
        user_id,
        report_type.code(),
        ProgressOutcome::NoConclusion.code(),
        None,
    ));
    assert forall|i: int, j: int| 0 <= i < j < after.len() implies !reports_clash(
        #[trigger] after[i],
        #[trigger] after[j],
    ) by {
        if j == reports.len() {
            assert(after[i] == reports[i]);
            if reports_clash(after[i], after[j]) {
                assert(reports[i].user_id == user_id && reports[i].prog_report_type
                    == report_type.code() && reports[i].prog_report_outcome
                    == ProgressOutcome::NoConclusion.code());
                assert(false);
            }
        } else {
            assert(after[i] == reports[i] && after[j] == reports[j]);
        }
    }
    assert forall|i: int, j: int| 0 <= i < j < after.len() implies (
    #[trigger] after[i]).prog_report_id != (#[trigger] after[j]).prog_report_id by {
        if j == reports.len() {
            assert(after[i] == reports[i]);
        } else {
            assert(after[i] == reports[i] && after[j] == reports[j]);
        }
    }
}

/// A verdict keeps the reports consistent: if they are before, and the
/// verdict on the report at index `k` is accepted on the reports on record,
/// they still are once the verdict is written into that report.
pub proof fn lemma_verdict_keeps_consistency(
    session: Session,
    req: ProgressReportRecordPatchRequest,
    record: Option<ProgressReportRecord>,
    reports: Seq<ProgressReport>,
    k: int,
)
    requires
        reports_consistent(reports),
        0 <= k < reports.len(),
        record matches Some(r) && r.report == reports[k],
        progress_report_update(session, req, record, reports) is Ok,
    ensures
        reports_consistent(
            reports.update(
                k,
                judged_report(
                    reports[k],
                    progress_report_update(session, req, record, reports)->Ok_0,
                ),
            ),
        ),
{
    let update = progress_report_update(session, req, record, reports)->Ok_0;
    let judged = judged_report(reports[k], update);
    let after = reports.update(k, judged);
    assert(!verdict_clashes(req.outcome, reports[k], reports));
    assert forall|i: int, j: int| 0 <= i < j < after.len() implies !reports_clash(
        #[trigger] after[i],
        #[trigger] after[j],
    ) by {
        assert(!reports_clash(reports[i], reports[j]));
        assert(reports[i].prog_report_id != reports[j].prog_report_id);
        if reports_clash(after[i], after[j]) {
            if i == k {
                assert(after[j] == reports[j]);
                assert(has_report(
                    reports,
                    reports[k].user_id,
                    reports[k].prog_report_type,
                    req.outcome.code(),
                    Some(reports[k].prog_report_id),
                ));
            } else if j == k {
                assert(after[i] == reports[i]);
                assert(has_report(
                    reports,
                    reports[k].user_id,
                    reports[k].prog_report_type,
                    req.outcome.code(),
                    Some(reports[k].prog_report_id),
                ));
            }
            assert(false);
        }
    }
    assert forall|i: int, j: int| 0 <= i < j < after.len() implies (
    #[trigger] after[i]).prog_report_id != (#[trigger] after[j]).prog_report_id by {
        assert(reports[i].prog_report_id != reports[j].prog_report_id);
    }
}

} // verus!
