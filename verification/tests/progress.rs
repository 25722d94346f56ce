use bigdecimal::BigDecimal;
use thesis_backend::database::{ProgressReport, Student};
use thesis_backend::error::ApiError;
use thesis_backend::model::{
    ProgressOutcome, ProgressReportRecordPatchRequest, ProgressReportType,
    ProgressReportsPostRequest, Timestamp, UserRole, UserSession,
};
use thesis_backend::progress::{
    create_progress_report, create_progress_report_at, get_progress_reports,
    progress_report_details, progress_reports_page, update_progress_report,
    ProgressReportRecord, ReportScope,
};
use thesis_backend::session::Session;

fn signed_in(user_id: i32, role: UserRole) -> Session {
    Session::Authenticated(UserSession { user_id, role, username: format!("u{}", user_id) })
}

fn learner(user_id: i32, topic_id: Option<i32>) -> Student {
    Student { user_id, topic_id, major_id: 1, student_name: format!("s{}", user_id), assn_time: None }
}

fn report(id: i32, student_id: i32, kind: i16, outcome: i16) -> ProgressReport {
    ProgressReport {
        prog_report_id: id,
        topic_id: 50,
        user_id: student_id,
        prog_report_type: kind,
        prog_report_time: Timestamp { micros: 10 * id as i64 },
        prog_report_attachment: format!("att{}", id),
        prog_report_outcome: outcome,
        prog_report_comment: if outcome == 0 { None } else { Some("ok".to_string()) },
        prog_report_grade: if outcome == 0 { None } else { Some(BigDecimal::from(75)) },
    }
}

fn under_review(r: ProgressReport, teacher_id: i32) -> Option<ProgressReportRecord> {
    Some(ProgressReportRecord { student_name: format!("s{}", r.user_id), teacher_id, report: r })
}

fn listed(r: ProgressReport, student_name: &str, teacher_id: i32) -> ProgressReportRecord {
    ProgressReportRecord { report: r, student_name: student_name.to_string(), teacher_id }
}

fn hand_in() -> ProgressReportsPostRequest {
    ProgressReportsPostRequest { attachment: "draft.pdf".to_string() }
}

fn judge(outcome: ProgressOutcome) -> ProgressReportRecordPatchRequest {
    ProgressReportRecordPatchRequest { outcome, comment: Some("fine".to_string()), grade: Some(BigDecimal::from(91)) }
}

fn clash(e: &ApiError, msg: &str) -> bool {
    matches!(e, ApiError::Conflict(m) if m == msg)
}

const PROPOSAL: i16 = 0;
const MIDTERM: i16 = 1;
const OPEN: i16 = 0;
const PASSED: i16 = 1;
const REJECTED: i16 = 2;

#[test]
fn report_scope_follows_the_role() {
    assert_eq!(get_progress_reports(&signed_in(1, UserRole::Student)).unwrap(), ReportScope::OfStudent(1));
    assert_eq!(get_progress_reports(&signed_in(2, UserRole::Teacher)).unwrap(), ReportScope::OfTeacher(2));
    assert!(matches!(get_progress_reports(&signed_in(3, UserRole::Office)), Err(ApiError::Forbidden)));
    assert!(matches!(get_progress_reports(&signed_in(3, UserRole::DefenseBoard)), Err(ApiError::Forbidden)));
    assert!(matches!(get_progress_reports(&signed_in(3, UserRole::Admin)), Err(ApiError::Forbidden)));
    assert!(matches!(get_progress_reports(&Session::Anonymous), Err(ApiError::Unauthorized)));
}

#[test]
fn report_details_carry_every_field_over() {
    let d = progress_report_details(report(4, 9, MIDTERM, PASSED), "Ann".to_string()).unwrap();
    assert_eq!(d.prog_report_id, 4);
    assert_eq!(d.topic_id, 50);
    assert_eq!(d.student_id, 9);
    assert_eq!(d.student_name, "Ann");
    assert_eq!(d.prog_report_type, ProgressReportType::Midterm);
    assert_eq!(d.prog_report_time, Timestamp { micros: 40 });
    assert_eq!(d.prog_report_attachment, "att4");
    assert_eq!(d.prog_report_outcome, ProgressOutcome::Passed);
    assert_eq!(d.prog_report_comment.as_deref(), Some("ok"));
    assert_eq!(d.prog_report_grade, Some(BigDecimal::from(75)));
}

#[test]
fn report_details_fail_on_unknown_codes() {
    assert!(matches!(
        progress_report_details(report(4, 9, 2, PASSED), "Ann".to_string()),
        Err(ApiError::InternalServerError)
    ));
    assert!(matches!(
        progress_report_details(report(4, 9, PROPOSAL, 3), "Ann".to_string()),
        Err(ApiError::InternalServerError)
    ));
}

#[test]
fn report_list_keeps_the_order_read() {
    let resp = progress_reports_page(
        &ReportScope::OfTeacher(2),
        vec![
            listed(report(3, 1, MIDTERM, OPEN), "a", 2),
            listed(report(1, 1, PROPOSAL, PASSED), "b", 2),
            listed(report(2, 4, PROPOSAL, REJECTED), "c", 2),
        ],
    )
    .unwrap();
    let ids: Vec<i32> = resp.reports.iter().map(|r| r.prog_report_id).collect();
    assert_eq!(ids, vec![3, 1, 2]);
    assert_eq!(resp.reports[0].student_name, "a");
    assert_eq!(resp.reports[2].prog_report_outcome, ProgressOutcome::Rejected);
}

#[test]
fn empty_report_list_is_not_found() {
    assert!(matches!(progress_reports_page(&ReportScope::OfStudent(1), vec![]), Err(ApiError::NotFound)));
}

#[test]
fn report_list_shows_only_what_the_scope_admits() {
    let records = || {
        vec![
            listed(report(1, 10, PROPOSAL, PASSED), "a", 2),
            listed(report(2, 11, PROPOSAL, OPEN), "b", 2),
            listed(report(3, 10, MIDTERM, OPEN), "a", 3),
        ]
    };
    let ids = |scope: ReportScope| -> Vec<i32> {
        progress_reports_page(&scope, records()).unwrap().reports.iter().map(|r| r.prog_report_id).collect()
    };
    assert_eq!(ids(ReportScope::OfStudent(10)), vec![1, 3]);
    assert_eq!(ids(ReportScope::OfStudent(11)), vec![2]);
    assert_eq!(ids(ReportScope::OfTeacher(2)), vec![1, 2]);
    assert_eq!(ids(ReportScope::OfTeacher(3)), vec![3]);
    assert!(matches!(progress_reports_page(&ReportScope::OfTeacher(4), records()), Err(ApiError::NotFound)));
}

#[test]
fn unknown_code_outside_the_scope_does_no_harm() {
    let records = vec![listed(report(1, 10, PROPOSAL, PASSED), "a", 2), listed(report(2, 11, 9, OPEN), "b", 3)];
    assert!(progress_reports_page(&ReportScope::OfStudent(10), records.clone()).is_ok());
    assert!(matches!(
        progress_reports_page(&ReportScope::OfStudent(11), records.clone()),
        Err(ApiError::InternalServerError)
    ));
    // Nothing shown is reported before a bad code is looked for.
    assert!(matches!(progress_reports_page(&ReportScope::OfStudent(12), records), Err(ApiError::NotFound)));
}

#[test]
fn scope_tells_which_report_it_shows() {
    let r = listed(report(1, 10, PROPOSAL, PASSED), "a", 2);
    assert!(ReportScope::OfStudent(10).shows(&r));
    assert!(!ReportScope::OfStudent(2).shows(&r));
    assert!(ReportScope::OfTeacher(2).shows(&r));
    assert!(!ReportScope::OfTeacher(10).shows(&r));
}

#[test]
fn report_list_fails_on_an_unknown_code() {
    let res = progress_reports_page(
        &ReportScope::OfStudent(1),
        vec![listed(report(3, 1, MIDTERM, OPEN), "a", 2), listed(report(1, 1, 7, PASSED), "b", 2)],
    );
    assert!(matches!(res, Err(ApiError::InternalServerError)));
}

#[test]
fn first_report_is_a_proposal() {
    let new = create_progress_report_at(
        &signed_in(9, UserRole::Student),
        hand_in(),
        &Some(learner(9, Some(50))),
        &vec![],
        Timestamp { micros: 5 },
    )
    .unwrap();
    assert_eq!(new.topic_id, 50);
    assert_eq!(new.user_id, 9);
    assert_eq!(new.prog_report_type, PROPOSAL);
    assert_eq!(new.prog_report_time, Timestamp { micros: 5 });
    assert_eq!(new.prog_report_attachment, "draft.pdf");
    assert_eq!(new.prog_report_outcome, OPEN);
    assert_eq!(new.prog_report_comment, None);
    assert_eq!(new.prog_report_grade, None);
}

#[test]
fn passed_proposal_unlocks_the_midterm() {
    let new = create_progress_report_at(
        &signed_in(9, UserRole::Student),
        hand_in(),
        &Some(learner(9, Some(50))),
        &vec![report(1, 9, PROPOSAL, REJECTED), report(2, 9, PROPOSAL, PASSED)],
        Timestamp { micros: 5 },
    )
    .unwrap();
    assert_eq!(new.prog_report_type, MIDTERM);
    assert_eq!(new.prog_report_outcome, OPEN);
}

#[test]
fn rejected_proposal_allows_another_proposal() {
    let new = create_progress_report_at(
        &signed_in(9, UserRole::Student),
        hand_in(),
        &Some(learner(9, Some(50))),
        &vec![report(1, 9, PROPOSAL, REJECTED)],
        Timestamp { micros: 5 },
    )
    .unwrap();
    assert_eq!(new.prog_report_type, PROPOSAL);
}

#[test]
fn report_handed_in_now_uses_the_clock() {
    let new = create_progress_report(&signed_in(9, UserRole::Student), hand_in(), &Some(learner(9, Some(50))), &vec![])
        .unwrap();
    assert_eq!((new.user_id, new.topic_id, new.prog_report_type), (9, 50, PROPOSAL));
    assert!(new.prog_report_time.micros > 1_000_000_000_000_000);
}

#[test]
fn second_unjudged_report_of_a_type_is_refused() {
    let me = signed_in(9, UserRole::Student);
    let e = create_progress_report_at(
        &me,
        hand_in(),
        &Some(learner(9, Some(50))),
        &vec![report(1, 9, PROPOSAL, OPEN)],
        Timestamp { micros: 5 },
    )
    .unwrap_err();
    assert!(clash(&e, "A pending report already exists"));
    let e = create_progress_report_at(
        &me,
        hand_in(),
        &Some(learner(9, Some(50))),
        &vec![report(1, 9, PROPOSAL, PASSED), report(2, 9, MIDTERM, OPEN)],
        Timestamp { micros: 5 },
    )
    .unwrap_err();
    assert!(clash(&e, "A pending report already exists"));
}

#[test]
fn report_after_a_passed_midterm_is_refused() {
    let e = create_progress_report_at(
        &signed_in(9, UserRole::Student),
        hand_in(),
        &Some(learner(9, Some(50))),
        &vec![report(1, 9, PROPOSAL, PASSED), report(2, 9, MIDTERM, PASSED)],
        Timestamp { micros: 5 },
    )
    .unwrap_err();
    assert!(clash(&e, "A passed report already exists"));
}

#[test]
fn reports_of_other_students_do_not_count() {
    let new = create_progress_report_at(
        &signed_in(9, UserRole::Student),
        hand_in(),
        &Some(learner(9, Some(50))),
        &vec![report(1, 8, PROPOSAL, PASSED), report(2, 8, PROPOSAL, OPEN), report(3, 7, MIDTERM, OPEN)],
        Timestamp { micros: 5 },
    )
    .unwrap();
    assert_eq!(new.prog_report_type, PROPOSAL);
}

#[test]
fn hand_in_errors_come_in_order() {
    let now = Timestamp { micros: 0 };
    assert!(matches!(
        create_progress_report_at(&Session::Anonymous, hand_in(), &None, &vec![], now),
        Err(ApiError::Unauthorized)
    ));
    assert!(matches!(
        create_progress_report_at(&signed_in(9, UserRole::Teacher), hand_in(), &None, &vec![], now),
        Err(ApiError::Forbidden)
    ));
    assert!(matches!(
        create_progress_report_at(&signed_in(9, UserRole::Student), hand_in(), &None, &vec![], now),
        Err(ApiError::NotFound)
    ));
    let e = create_progress_report_at(
        &signed_in(9, UserRole::Student),
        hand_in(),
        &Some(learner(9, None)),
        &vec![report(1, 9, PROPOSAL, OPEN)],
        now,
    )
    .unwrap_err();
    assert!(clash(&e, "Student has no assigned topic"));
}

#[test]
fn verdict_is_written_with_comment_and_grade() {
    let u = update_progress_report(
        &signed_in(2, UserRole::Teacher),
        judge(ProgressOutcome::Passed),
        &under_review(report(4, 9, PROPOSAL, OPEN), 2),
        &vec![report(4, 9, PROPOSAL, OPEN), report(3, 9, PROPOSAL, REJECTED)],
    )
    .unwrap();
    assert_eq!(u.prog_report_id, 4);
    assert_eq!(u.prog_report_outcome, PASSED);
    assert_eq!(u.prog_report_comment.as_deref(), Some("fine"));
    assert_eq!(u.prog_report_grade, Some(BigDecimal::from(91)));
}

#[test]
fn second_passed_report_of_a_type_is_refused() {
    let e = update_progress_report(
        &signed_in(2, UserRole::Teacher),
        judge(ProgressOutcome::Passed),
        &under_review(report(4, 9, PROPOSAL, OPEN), 2),
        &vec![report(4, 9, PROPOSAL, OPEN), report(3, 9, PROPOSAL, PASSED)],
    )
    .unwrap_err();
    assert!(clash(&e, "Another passed report already exists"));
}

#[test]
fn reopening_beside_an_unjudged_report_is_refused() {
    let e = update_progress_report(
        &signed_in(2, UserRole::Teacher),
        judge(ProgressOutcome::NoConclusion),
        &under_review(report(4, 9, PROPOSAL, REJECTED), 2),
        &vec![report(4, 9, PROPOSAL, REJECTED), report(5, 9, PROPOSAL, OPEN)],
    )
    .unwrap_err();
    assert!(clash(&e, "Another pending report already exists"));
}

#[test]
fn verdict_looks_only_at_reports_of_the_same_student_and_type() {
    let others = vec![
        report(4, 9, PROPOSAL, OPEN),
        report(5, 9, MIDTERM, PASSED),
        report(6, 8, PROPOSAL, PASSED),
    ];
    let u = update_progress_report(
        &signed_in(2, UserRole::Teacher),
        judge(ProgressOutcome::Passed),
        &under_review(report(4, 9, PROPOSAL, OPEN), 2),
        &others,
    );
    assert!(u.is_ok());
}

#[test]
fn rejecting_is_always_possible() {
    let u = update_progress_report(
        &signed_in(2, UserRole::Teacher),
        judge(ProgressOutcome::Rejected),
        &under_review(report(4, 9, PROPOSAL, OPEN), 2),
        &vec![report(3, 9, PROPOSAL, PASSED), report(5, 9, PROPOSAL, OPEN), report(6, 9, PROPOSAL, REJECTED)],
    )
    .unwrap();
    assert_eq!(u.prog_report_outcome, REJECTED);
}

#[test]
fn same_verdict_again_is_accepted() {
    let u = update_progress_report(
        &signed_in(2, UserRole::Teacher),
        judge(ProgressOutcome::Passed),
        &under_review(report(4, 9, PROPOSAL, PASSED), 2),
        &vec![report(4, 9, PROPOSAL, PASSED)],
    );
    assert!(u.is_ok());
}

#[test]
fn verdict_errors_come_in_order() {
    let rec = under_review(report(4, 9, PROPOSAL, OPEN), 2);
    assert!(matches!(
        update_progress_report(&Session::Anonymous, judge(ProgressOutcome::Passed), &rec, &vec![]),
        Err(ApiError::Unauthorized)
    ));
    assert!(matches!(
        update_progress_report(&signed_in(9, UserRole::Student), judge(ProgressOutcome::Passed), &rec, &vec![]),
        Err(ApiError::Forbidden)
    ));
    assert!(matches!(
        update_progress_report(&signed_in(2, UserRole::Teacher), judge(ProgressOutcome::Passed), &None, &vec![]),
        Err(ApiError::NotFound)
    ));
    assert!(matches!(
        update_progress_report(&signed_in(3, UserRole::Teacher), judge(ProgressOutcome::Passed), &rec, &vec![]),
        Err(ApiError::Forbidden)
    ));
}
