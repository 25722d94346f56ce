//! Topics: listing and searching them, showing one, proposing one, and changing
//! one under the review rules.

use crate::assignments::bound_count;
use crate::assignments::capacity_respected;
use crate::database::Major;
use crate::database::NewTopic;
use crate::database::Student;
use crate::database::Teacher;
use crate::database::Topic;
use crate::database::TopicChangeset;
use crate::error::answers;
use crate::error::has_infix;
use crate::error::str_contains;
use crate::error::ApiError;
use crate::error::ApiErrorView;
use crate::model::PaginationQuery;
use crate::model::SearchQuery;
use crate::model::TopicBrief;
use crate::model::TopicDetails;
use crate::model::TopicPatchRequest;
use crate::model::TopicReviewStatus;
use crate::model::TopicType;
use crate::model::TopicsGetResponse;
use crate::model::TopicsPostRequest;
use crate::model::UserRole;
use crate::paging::lemma_filter_kept;
use crate::paging::lemma_filter_step;
use crate::paging::page_window;
use crate::paging::window_of;
use crate::paging::PageWindow;
use crate::session::identify;
use crate::session::Session;
use vstd::prelude::*;
use vstd::string::StringExecFns;

verus! {

/// Which topics a caller is shown.
#[derive(Debug, Clone, Copy, PartialEq, Eq, Structural)]
pub enum TopicScope {
    /// The approved topics of one major: a student's view.
    ApprovedInMajor(i32),
    /// The topics of one teacher.
    OwnedBy(i32),
    /// Every topic: the view of the office and of the defense board.
    All,
}

impl TopicScope {
    /// True when the scope shows the topic.
    pub open spec fn admits(self, topic: Topic) -> bool {
        match self {
            TopicScope::ApprovedInMajor(major_id) => topic.major_id == major_id
                && topic.topic_review_status == TopicReviewStatus::Approved.code(),
            TopicScope::OwnedBy(user_id) => topic.user_id == user_id,
            TopicScope::All => true,
        }
    }

    /// Tells whether the scope shows the topic.
    pub fn shows(&self, topic: &Topic) -> (shown: bool)
        ensures
            shown == self.admits(*topic),
    {
        match self {
            TopicScope::ApprovedInMajor(major_id) => topic.major_id == *major_id
                && topic.topic_review_status == i16::from(TopicReviewStatus::Approved),
            TopicScope::OwnedBy(user_id) => topic.user_id == *user_id,
            TopicScope::All => true,
        }
    }

    /// The condition under which the scope shows a listed topic.
    pub open spec fn admitting(self) -> spec_fn(TopicRow) -> bool {
        |row: TopicRow| self.admits(row.topic)
    }
}

/// What to read for a page of topics: the topics the scope shows whose name
/// matches `pattern` if there is one, newest first, `limit` of them after
/// `offset`.
#[derive(Debug, Clone)]
pub struct TopicListing {
    pub scope: TopicScope,
    /// A pattern in which `%` stands for any run of characters.
    pub pattern: Option<String>,
    pub page: i64,
    pub page_size: i64,
    pub offset: i64,
    pub limit: i64,
}

/// A topic joined with its teacher and the number of students bound to it.
#[derive(Debug, Clone)]
pub struct TopicRow {
    pub topic: Topic,
    pub teacher: Teacher,
    pub current_student_count: i64,
}

/// A topic joined with its teacher and its major.
#[derive(Debug, Clone)]
pub struct TopicRecord {
    pub topic: Topic,
    pub teacher: Teacher,
    pub major: Major,
}

/// The topics a caller is shown.  `student` is the caller's student record as
/// stored; a student without one cannot be served.
pub open spec fn topic_scope(
    session: Session,
    student: Option<Student>,
) -> Result<TopicScope, ApiErrorView> {
    match session.identity() {
        Err(e) => Err(e),
        Ok((user_id, role)) => match role {
            UserRole::Student => match student {
                Some(s) => Ok(TopicScope::ApprovedInMajor(s.major_id)),
                None => Err(ApiErrorView::InternalServerError),
            },
            UserRole::Teacher => Ok(TopicScope::OwnedBy(user_id)),
            UserRole::Office | UserRole::DefenseBoard => Ok(TopicScope::All),
            UserRole::Admin => Err(ApiErrorView::Forbidden),
        },
    }
}

fn scope_for(session: &Session, student: &Option<Student>) -> (res: Result<TopicScope, ApiError>)
    ensures
        answers(res, topic_scope(*session, *student)),
{
    let (user_id, role) = identify(session)?;
    match role {
        UserRole::Student => match student {
            Some(s) => Ok(TopicScope::ApprovedInMajor(s.major_id)),
            None => Err(ApiError::InternalServerError),
        },
        UserRole::Teacher => Ok(TopicScope::OwnedBy(user_id)),
        UserRole::Office | UserRole::DefenseBoard => Ok(TopicScope::All),
        UserRole::Admin => Err(ApiError::Forbidden),
    }
}

/// True when `listing` is the given window of `scope`, with the given
/// pattern.
pub open spec fn is_listing(
    listing: TopicListing,
    scope: TopicScope,
    pattern: Option<Seq<char>>,
    window: PageWindow,
) -> bool {
    &&& listing.scope == scope
    &&& match pattern {
        Some(p) => listing.pattern matches Some(q) && q@ == p,
        None => listing.pattern is None,
    }
    &&& listing.page == window.page
    &&& listing.page_size == window.page_size
    &&& listing.offset == window.offset
    &&& listing.limit == window.page_size
}

/// The error a request for a list of topics is refused with, if it is: the
/// caller's, where the caller may not list topics; else the one of the page
/// asked for, where that is no page to serve.
pub open spec fn listing_refusal(
    session: Session,
    student: Option<Student>,
    page: Option<i64>,
    page_size: Option<i64>,
) -> Option<ApiErrorView> {
    match topic_scope(session, student) {
        Err(e) => Some(e),
        Ok(_) => match window_of(page, page_size) {
            Err(e) => Some(e),
            Ok(_) => None,
        },
    }
}

/// Decides who may list topics and what is read for the page asked for.  A
/// page below 1 or a page size below 1 is a bad request.
pub fn get_topics(
    session: &Session,
    query: &PaginationQuery,
    student: &Option<Student>,
) -> (res: Result<TopicListing, ApiError>)
    ensures
        match res {
            Ok(listing) => {
                &&& listing_refusal(*session, *student, query.page, query.page_size) is None
                &&& is_listing(
                    listing,
                    topic_scope(*session, *student)->Ok_0,
                    None,
                    window_of(query.page, query.page_size)->Ok_0,
                )
                &&& listing.offset >= 0 && listing.limit >= 1
            },
            Err(e) => listing_refusal(*session, *student, query.page, query.page_size) == Some(
                e@,
            ),
        },
{
    let scope = scope_for(session, student)?;
    let window = page_window(query)?;
    Ok(
        TopicListing {
            scope,
            pattern: None,
            page: window.page,
            page_size: window.page_size,
            offset: window.offset,
            limit: window.page_size,
        },
    )
}

/// The pattern a keyword is searched with: the keyword, or nothing where none
/// is given, between two `%`.
pub open spec fn search_pattern(keyword: Option<String>) -> Seq<char> {
    "%"@ + (match keyword {
        Some(k) => k@,
        None => Seq::<char>::empty(),
    }) + "%"@
}

/// Decides who may search topics and what is read for the page asked for.  A
/// page below 1 or a page size below 1 is a bad request.
pub fn search_topics(
    session: &Session,
    query: &SearchQuery,
    student: &Option<Student>,
) -> (res: Result<TopicListing, ApiError>)
    ensures
        match res {
            Ok(listing) => {
                &&& listing_refusal(*session, *student, query.page, query.page_size) is None
                &&& is_listing(
                    listing,
                    topic_scope(*session, *student)->Ok_0,
                    Some(search_pattern(query.keyword)),
                    window_of(query.page, query.page_size)->Ok_0,
                )
                &&& listing.offset >= 0 && listing.limit >= 1
            },
            Err(e) => listing_refusal(*session, *student, query.page, query.page_size) == Some(
                e@,
            ),
        },
{
    let scope = scope_for(session, student)?;
    let paging = PaginationQuery { page: query.page, page_size: query.page_size };
    let window = page_window(&paging)?;
    let mut pattern = String::from_str("%");
    match &query.keyword {
        Some(k) => {
            pattern.append(k.as_str());
        },
        None => {
            assert(pattern@ + Seq::<char>::empty() =~= pattern@);
        },
    }
    pattern.append("%");
    Ok(
        TopicListing {
            scope,
            pattern: Some(pattern),
            page: window.page,
            page_size: window.page_size,
            offset: window.offset,
            limit: window.page_size,
        },
    )
}

/// A listed topic in brief, if its stored type is a known one.  The count is
/// cut to 32 bits.
pub open spec fn brief_of(row: TopicRow) -> Option<TopicBrief> {
    match TopicType::of_code(row.topic.topic_type) {
        None => None,
        Some(topic_type) => Some(
            TopicBrief {
                topic_id: row.topic.topic_id,
                teacher_name: row.teacher.teacher_name,
                topic_name: row.topic.topic_name,
                topic_max_students: row.topic.topic_max_students,
                topic_type,
                current_student_count: row.current_student_count as i32,
            },
        ),
    }
}

/// True when every row can be listed.
pub open spec fn all_listable(rows: Seq<TopicRow>) -> bool {
    forall|i: int| 0 <= i < rows.len() ==> brief_of(#[trigger] rows[i]) is Some
}

/// The page of topics out of the rows read for it: those the scope of the
/// listing shows, in the order read.  A shown row whose stored type is no
/// known one fails the whole page.
pub fn topics_page(
    rows: &Vec<TopicRow>,
    total: i64,
    listing: &TopicListing,
) -> (res: Result<TopicsGetResponse, ApiError>)
    ensures
        ({
            let shown = rows@.filter(listing.scope.admitting());
            match res {
                Ok(resp) => {
                    &&& all_listable(shown)
                    &&& resp.total == total
                    &&& resp.page == listing.page
                    &&& resp.page_size == listing.page_size
                    &&& resp.topics@.len() == shown.len()
                    &&& forall|i: int|
                        0 <= i < shown.len() ==> Some(#[trigger] resp.topics@[i]) == brief_of(
                            shown[i],
                        )
                },
                Err(e) => !all_listable(shown) && e@ == ApiErrorView::InternalServerError,
            }
        }),
{
    let ghost pred = listing.scope.admitting();
    let mut topics: Vec<TopicBrief> = Vec::new();
    let mut i: usize = 0;
    while i < rows.len()
        invariant
            i <= rows@.len(),
            pred == listing.scope.admitting(),
            topics@.len() == rows@.take(i as int).filter(pred).len(),
            forall|k: int|
                0 <= k < topics@.len() ==> Some(#[trigger] topics@[k]) == brief_of(
                    rows@.take(i as int).filter(pred)[k],
                ),
        decreases rows@.len() - i,
    {
        let row = &rows[i];
        let ghost before = rows@.take(i as int).filter(pred);
        proof {
            lemma_filter_step(rows@, pred, i as int);
        }
        if listing.scope.shows(&row.topic) {
            let topic_type = match TopicType::try_from(row.topic.topic_type) {
                Ok(t) => t,
                Err(_) => {
                    proof {
                        lemma_filter_kept(rows@, pred, i + 1);
                        assert(rows@.filter(pred)[before.len() as int] == rows@[i as int]);
                        assert(brief_of(rows@[i as int]) is None);
                    }
                    return Err(ApiError::InternalServerError);
                },
            };
            topics.push(
                TopicBrief {
                    topic_id: row.topic.topic_id,
                    teacher_name: row.teacher.teacher_name.clone(),
                    topic_name: row.topic.topic_name.clone(),
                    topic_max_students: row.topic.topic_max_students,
                    topic_type,
                    current_student_count: #[verifier::truncate]
                    (row.current_student_count as i32),
                },
            );
        }
        i += 1;
    }
    proof {
        assert(rows@.take(i as int) =~= rows@);
        let shown = rows@.filter(pred);
        assert forall|k: int| 0 <= k < shown.len() implies brief_of(
            #[trigger] shown[k],
        ) is Some by {
            assert(Some(topics@[k]) == brief_of(shown[k]));
        }
    }
    Ok(TopicsGetResponse { total, page: listing.page, page_size: listing.page_size, topics })
}

/// A topic in full, if its stored type and review status are known ones.  The
/// count is cut to 32 bits.
pub open spec fn details_of(
    record: TopicRecord,
    current_student_count: i64,
) -> Option<TopicDetails> {
    match (
        TopicType::of_code(record.topic.topic_type),
        TopicReviewStatus::of_code(record.topic.topic_review_status),
    ) {
        (Some(topic_type), Some(topic_review_status)) => Some(
            TopicDetails {
                topic_id: record.topic.topic_id,
                major_id: record.topic.major_id,
                major_name: record.major.major_name,
                teacher_id: record.topic.user_id,
                teacher_name: record.teacher.teacher_name,
                topic_name: record.topic.topic_name,
                topic_description: record.topic.topic_description,
                topic_max_students: record.topic.topic_max_students,
                topic_type,
                topic_review_status,
                current_student_count: current_student_count as i32,
            },
        ),
        _ => None,
    }
}

/// Puts a topic, its teacher, its major and the number of students bound to it
/// into the shape shown to callers.
pub fn topic_details(
    record: TopicRecord,
    current_student_count: i64,
) -> (res: Result<TopicDetails, ApiError>)
    ensures
        match res {
            Ok(d) => details_of(record, current_student_count) == Some(d),
            Err(e) => details_of(record, current_student_count) is None && e@
                == ApiErrorView::InternalServerError,
        },
{
    let topic_type = match TopicType::try_from(record.topic.topic_type) {
        Ok(t) => t,
        Err(_) => {
            return Err(ApiError::InternalServerError);
        },
    };
    let topic_review_status = match TopicReviewStatus::try_from(record.topic.topic_review_status) {
        Ok(s) => s,
        Err(_) => {
            return Err(ApiError::InternalServerError);
        },
    };
    Ok(
        TopicDetails {
            topic_id: record.topic.topic_id,
            major_id: record.topic.major_id,
            major_name: record.major.major_name,
            teacher_id: record.topic.user_id,
            teacher_name: record.teacher.teacher_name,
            topic_name: record.topic.topic_name,
            topic_description: record.topic.topic_description,
            topic_max_students: record.topic.topic_max_students,
            topic_type,
            topic_review_status,
            current_student_count: #[verifier::truncate]
            (current_student_count as i32),
        },
    )
}

/// What a request to see one topic leads to.  `student` is the caller's
/// student record, `record` the topic asked for, as stored, and
/// `current_student_count` the number of students bound to it.  A topic
/// outside the caller's scope is as good as absent.
pub open spec fn topic_detail(
    session: Session,
    student: Option<Student>,
    record: Option<TopicRecord>,
    current_student_count: i64,
) -> Result<TopicDetails, ApiErrorView> {
    match topic_scope(session, student) {
        Err(e) => Err(e),
        Ok(scope) => if record is None || !scope.admits(record->0.topic) {
            Err(ApiErrorView::NotFound)
        } else {
            match details_of(record->0, current_student_count) {
                Some(d) => Ok(d),
                None => Err(ApiErrorView::InternalServerError),
            }
        },
    }
}

/// Decides on a request to see one topic.
pub fn get_topic_detail(
    session: &Session,
    student: &Option<Student>,
    record: Option<TopicRecord>,
    current_student_count: i64,
) -> (res: Result<TopicDetails, ApiError>)
    ensures
        answers(res, topic_detail(*session, *student, record, current_student_count)),
{
    let scope = scope_for(session, student)?;
    let record = match record {
        Some(r) => r,
        None => {
            return Err(ApiError::NotFound);
        },
    };
    if !scope.shows(&record.topic) {
        return Err(ApiError::NotFound);
    }
    topic_details(record, current_student_count)
}

/// The text a negative number of places is refused with.
pub open spec fn negative_places_text() -> Seq<char> {
    "Topic cannot offer a negative number of places"@
}

/// The text a number of places below the number of students already bound to
/// the topic is refused with.
pub open spec fn too_few_places_text() -> Seq<char> {
    "Topic has more students than places"@
}

/// What proposing a topic leads to.  `teacher_exists` tells whether the
/// caller has a teacher record.  A topic cannot offer a negative number of
/// places, and a new topic always awaits review.
pub open spec fn new_topic(
    session: Session,
    req: TopicsPostRequest,
    teacher_exists: bool,
) -> Result<NewTopic, ApiErrorView> {
    match session.identity() {
        Err(e) => Err(e),
        Ok((user_id, role)) => if role != UserRole::Teacher {
            Err(ApiErrorView::Forbidden)
        } else if req.topic_max_students < 0 {
            Err(ApiErrorView::BadRequest(negative_places_text()))
        } else if !teacher_exists {
            Err(ApiErrorView::InternalServerError)
        } else {
            Ok(
                NewTopic {
                    major_id: req.major_id,
                    user_id,
                    topic_name: req.topic_name,
                    topic_description: req.topic_description,
                    topic_max_students: req.topic_max_students,
                    topic_type: req.topic_type.code(),
                    topic_review_status: TopicReviewStatus::Pending.code(),
                },
            )
        },
    }
}

/// Decides on a teacher's proposal of a topic.
pub fn create_topic(
    session: &Session,
    req: TopicsPostRequest,
    teacher_exists: bool,
) -> (res: Result<NewTopic, ApiError>)
    ensures
        answers(res, new_topic(*session, req, teacher_exists)),
{
    let (user_id, role) = identify(session)?;
    match role {
        UserRole::Teacher => {},
        _ => {
            return Err(ApiError::Forbidden);
        },
    }
    if req.topic_max_students < 0 {
        return Err(ApiError::bad_request("Topic cannot offer a negative number of places"));
    }
    if !teacher_exists {
        return Err(ApiError::InternalServerError);
    }
    Ok(
        NewTopic {
            major_id: req.major_id,
            user_id,
            topic_name: req.topic_name,
            topic_description: req.topic_description,
            topic_max_students: req.topic_max_students,
            topic_type: i16::from(req.topic_type),
            topic_review_status: i16::from(TopicReviewStatus::Pending),
        },
    )
}

/// The error a failed insertion of a topic is answered with: storage that
/// reports a duplicate key found a topic of that name, any other failure is
/// an internal error.
pub fn topic_insert_failure(message: &str) -> (e: ApiError)
    ensures
        e@ == if has_infix(message@, "duplicate key"@) {
            ApiErrorView::Conflict("Topic with similar name already exists"@)
        } else {
            ApiErrorView::InternalServerError
        },
{
    if str_contains(message, "duplicate key") {
        ApiError::conflict("Topic with similar name already exists")
    } else {
        ApiError::InternalServerError
    }
}

/// The stored code of a topic type that may be absent.
pub open spec fn type_code(topic_type: Option<TopicType>) -> Option<i16> {
    match topic_type {
        Some(t) => Some(t.code()),
        None => None,
    }
}

/// What a teacher's change to a topic leads to: only the owner may change it,
/// the review status is not the teacher's to set, the places can be neither
/// negative nor fewer than the students already bound to the topic, and any
/// change sends the topic back to review.
pub open spec fn teacher_topic_update(
    teacher_id: i32,
    req: TopicPatchRequest,
    topic: Topic,
    current_student_count: i64,
) -> Result<TopicChangeset, ApiErrorView> {
    if topic.user_id != teacher_id {
        Err(ApiErrorView::Forbidden)
    } else if req.topic_review_status is Some {
        Err(ApiErrorView::BadRequest("Teachers cannot update review status"@))
    } else if req.topic_max_students is Some && req.topic_max_students->0 < 0 {
        Err(ApiErrorView::BadRequest(negative_places_text()))
    } else if req.topic_max_students is Some && req.topic_max_students->0
        < current_student_count {
        Err(ApiErrorView::Conflict(too_few_places_text()))
    } else {
        Ok(
            TopicChangeset {
                topic_name: req.topic_name,
                topic_description: req.topic_description,
                topic_max_students: req.topic_max_students,
                topic_type: type_code(req.topic_type),
                topic_review_status: Some(TopicReviewStatus::Pending.code()),
            },
        )
    }
}

/// What the office's change to a topic leads to: the office sets the review
/// status and nothing else, and never back to pending.
pub open spec fn office_topic_update(
    req: TopicPatchRequest,
) -> Result<TopicChangeset, ApiErrorView> {
    if req.names_content() {
        Err(ApiErrorView::BadRequest("Office can only update review status"@))
    } else {
        match req.topic_review_status {
            None => Err(ApiErrorView::BadRequest("Review status must be provided by Office"@)),
            Some(TopicReviewStatus::Pending) => Err(
                ApiErrorView::BadRequest("Cannot explicitly set review status to Pending"@),
            ),
            Some(status) => Ok(
                TopicChangeset {
                    topic_name: None,
                    topic_description: None,
                    topic_max_students: None,
                    topic_type: None,
                    topic_review_status: Some(status.code()),
                },
            ),
        }
    }
}

/// What a change to a topic leads to.  `topic` is the topic named by the
/// request, as stored, and `current_student_count` the number of students
/// bound to it.
pub open spec fn topic_update(
    session: Session,
    req: TopicPatchRequest,
    topic: Option<Topic>,
    current_student_count: i64,
) -> Result<TopicChangeset, ApiErrorView> {
    match session.identity() {
        Err(e) => Err(e),
        Ok((user_id, role)) => if topic is None {
            Err(ApiErrorView::NotFound)
        } else {
            match role {
                UserRole::Teacher => teacher_topic_update(
                    user_id,
                    req,
                    topic->0,
                    current_student_count,
                ),
                UserRole::Office => office_topic_update(req),
                _ => Err(ApiErrorView::Forbidden),
            }
        },
    }
}

/// Decides on a change to a topic.  Only the office sets the review status,
/// and never to pending; whatever a teacher changes, the status goes back to
/// pending, and the places never go below the number of students bound to
/// the topic.
pub fn update_topic(
    session: &Session,
    req: TopicPatchRequest,
    topic: &Option<Topic>,
    current_student_count: i64,
) -> (res: Result<TopicChangeset, ApiError>)
    ensures
        answers(res, topic_update(*session, req, *topic, current_student_count)),
        res matches Ok(change) ==> {
            &&& change.topic_max_students matches Some(places) ==> 0 <= places
                && current_student_count <= places
            &&& change.topic_review_status is Some
            &&& session.identity() matches Ok((_, role)) && (role == UserRole::Teacher || role
                == UserRole::Office)
            &&& session.identity()->Ok_0.1 == UserRole::Teacher ==> change.topic_review_status
                == Some(TopicReviewStatus::Pending.code())
            &&& change.topic_review_status != Some(TopicReviewStatus::Pending.code())
                ==> session.identity()->Ok_0.1 == UserRole::Office
        },
{
    let (user_id, role) = identify(session)?;
    let topic = match topic {
        Some(t) => t,
        None => {
            return Err(ApiError::NotFound);
        },
    };
    match role {
        UserRole::Teacher => {
            if topic.user_id != user_id {
                return Err(ApiError::Forbidden);
            }
            if req.topic_review_status.is_some() {
                return Err(ApiError::bad_request("Teachers cannot update review status"));
            }
            match req.topic_max_students {
                Some(places) => {
                    if places < 0 {
                        return Err(
                            ApiError::bad_request(
                                "Topic cannot offer a negative number of places",
                            ),
                        );
                    }
                    if (places as i64) < current_student_count {
                        return Err(ApiError::conflict("Topic has more students than places"));
                    }
                },
                None => {},
            }
            let topic_type = match req.topic_type {
                Some(t) => Some(i16::from(t)),
                None => None,
            };
            Ok(
                TopicChangeset {
                    topic_name: req.topic_name,
                    topic_description: req.topic_description,
                    topic_max_students: req.topic_max_students,
                    topic_type,
                    topic_review_status: Some(i16::from(TopicReviewStatus::Pending)),
                },
            )
        },
        UserRole::Office => {
            if req.topic_name.is_some() || req.topic_description.is_some()
                || req.topic_max_students.is_some() || req.topic_type.is_some() {
                return Err(ApiError::bad_request("Office can only update review status"));
            }
            match req.topic_review_status {
                None => Err(ApiError::bad_request("Review status must be provided by Office")),
                Some(TopicReviewStatus::Pending) => Err(
                    ApiError::bad_request("Cannot explicitly set review status to Pending"),
                ),
                Some(status) => Ok(
                    TopicChangeset {
                        topic_name: None,
                        topic_description: None,
                        topic_max_students: None,
                        topic_type: None,
                        topic_review_status: Some(i16::from(status)),
                    },
                ),
            }
        },
        _ => Err(ApiError::Forbidden),
    }
}

/// A topic after a change has been written into it.
pub open spec fn changed_topic(topic: Topic, change: TopicChangeset) -> Topic {
    Topic {
        topic_id: topic.topic_id,
        major_id: topic.major_id,
        user_id: topic.user_id,
        topic_name: match change.topic_name {
            Some(name) => name,
            None => topic.topic_name,
        },
        topic_description: match change.topic_description {
            Some(description) => description,
            None => topic.topic_description,
        },
        topic_max_students: match change.topic_max_students {
            Some(max) => max,
            None => topic.topic_max_students,
        },
        topic_type: match change.topic_type {
            Some(code) => code,
            None => topic.topic_type,
        },
        topic_review_status: match change.topic_review_status {
            Some(code) => code,
            None => topic.topic_review_status,
        },
    }
}

/// A new topic as it is stored under the id it was given.
pub open spec fn stored_topic(new: NewTopic, topic_id: i32) -> Topic {
    Topic {
        topic_id,
        major_id: new.major_id,
        user_id: new.user_id,
        topic_name: new.topic_name,
        topic_description: new.topic_description,
        topic_max_students: new.topic_max_students,
        topic_type: new.topic_type,
        topic_review_status: new.topic_review_status,
    }
}

/// Only the office sets the review status, and never to pending; whatever a
/// teacher changes, the status goes back to pending.  An accepted change by a
/// teacher leaves the topic awaiting review; an accepted change by the office
/// leaves it approved or rejected and changes nothing else; no other role's
/// change is accepted, and a new topic awaits review.
pub proof fn lemma_review_status_rules(
    session: Session,
    req: TopicPatchRequest,
    topic: Topic,
    current_student_count: i64,
)
    ensures
        topic_update(session, req, Some(topic), current_student_count) matches Ok(change) ==> {
            let after = changed_topic(topic, change);
            let role = session.identity()->Ok_0.1;
            &&& session.identity() is Ok
            &&& role == UserRole::Teacher || role == UserRole::Office
            &&& role == UserRole::Teacher ==> after.topic_review_status
                == TopicReviewStatus::Pending.code() && req.topic_review_status is None
            &&& role == UserRole::Office ==> {
                &&& after.topic_review_status == TopicReviewStatus::Approved.code()
                    || after.topic_review_status == TopicReviewStatus::Rejected.code()
                &&& Some(after.topic_review_status) == type_status_code(req.topic_review_status)
                &&& after == Topic { topic_review_status: after.topic_review_status, ..topic }
            }
        },
        session.identity() matches Ok((_, role)) && role == UserRole::Office
            && req.topic_review_status == Some(TopicReviewStatus::Pending) ==> topic_update(
            session,
            req,
            Some(topic),
            current_student_count,
        ) is Err,
        forall|teacher_exists: bool, new_req: TopicsPostRequest|
            (#[trigger] new_topic(session, new_req, teacher_exists)) matches Ok(new)
                ==> new.topic_review_status == TopicReviewStatus::Pending.code(),
{
}

/// The stored code of a review status that may be absent.
pub open spec fn type_status_code(status: Option<TopicReviewStatus>) -> Option<i16> {
    match status {
        Some(s) => Some(s.code()),
        None => None,
    }
}

/// A change to a topic keeps every topic within capacity: if no topic is over
/// capacity before, and the change to the topic at index `j` is accepted on
/// the true number of students bound to it, no topic is over capacity once
/// the change is written.
pub proof fn lemma_topic_change_keeps_capacity(
    session: Session,
    req: TopicPatchRequest,
    current_student_count: i64,
    students: Seq<Student>,
    topics: Seq<Topic>,
    j: int,
)
    requires
        capacity_respected(students, topics),
        0 <= j < topics.len(),
        current_student_count == bound_count(students, topics[j].topic_id),
        topic_update(session, req, Some(topics[j]), current_student_count) is Ok,
    ensures
        capacity_respected(
            students,
            topics.update(
                j,
                changed_topic(
                    topics[j],
                    topic_update(session, req, Some(topics[j]), current_student_count)->Ok_0,
                ),
            ),
        ),
{
    let after = topics.update(
        j,
        changed_topic(
            topics[j],
            topic_update(session, req, Some(topics[j]), current_student_count)->Ok_0,
        ),
    );
    assert forall|i: int| 0 <= i < after.len() implies bound_count(
        students,
        (#[trigger] after[i]).topic_id,
    ) <= after[i].topic_max_students by {
        if i != j {
            assert(after[i] == topics[i]);
        }
    }
}

/// A new topic keeps every topic within capacity: if no topic is over
/// capacity before, and no student is bound to the id the accepted proposal
/// is stored under, no topic is over capacity once it is stored.
pub proof fn lemma_new_topic_keeps_capacity(
    session: Session,
    req: TopicsPostRequest,
    teacher_exists: bool,
    students: Seq<Student>,
    topics: Seq<Topic>,
    topic_id: i32,
)
    requires
        capacity_respected(students, topics),
        new_topic(session, req, teacher_exists) is Ok,
        bound_count(students, topic_id) == 0,
    ensures
        capacity_respected(
            students,
            topics.push(stored_topic(new_topic(session, req, teacher_exists)->Ok_0, topic_id)),
        ),
{
    let after = topics.push(
        stored_topic(new_topic(session, req, teacher_exists)->Ok_0, topic_id),
    );
    assert forall|i: int| 0 <= i < after.len() implies bound_count(
        students,
        (#[trigger] after[i]).topic_id,
    ) <= after[i].topic_max_students by {
        if i < topics.len() {
            assert(after[i] == topics[i]);
        }
    }
}

/// A listed topic shows the true number of students bound to it and its
/// stored places, and the number is within the places: where no topic is
/// over capacity, the row is read from a stored topic and carries the true
/// number, whatever is listed of it shows that number and those places.
pub proof fn lemma_listed_count_within_places(
    row: TopicRow,
    students: Seq<Student>,
    topics: Seq<Topic>,
    j: int,
)
    requires
        capacity_respected(students, topics),
        0 <= j < topics.len(),
        row.topic == topics[j],
        row.current_student_count == bound_count(students, row.topic.topic_id),
    ensures
        brief_of(row) matches Some(brief) ==> {
            &&& brief.topic_id == topics[j].topic_id
            &&& brief.topic_max_students == topics[j].topic_max_students
            &&& brief.current_student_count == bound_count(students, topics[j].topic_id)
            &&& brief.current_student_count <= brief.topic_max_students
        },
{
}

/// Every topic on a page shows the true number of students bound to it, and
/// the number is within its places: where no topic is over capacity and each
/// row is read from a stored topic with the true number, this holds of
/// whatever is listed of each row.
pub proof fn lemma_listed_page_within_places(
    rows: Seq<TopicRow>,
    students: Seq<Student>,
    topics: Seq<Topic>,
)
    requires
        capacity_respected(students, topics),
        forall|i: int|
            0 <= i < rows.len() ==> (#[trigger] rows[i]).current_student_count == bound_count(
                students,
                rows[i].topic.topic_id,
            ) && exists|j: int| 0 <= j < topics.len() && rows[i].topic == #[trigger] topics[j],
    ensures
        forall|i: int|
            0 <= i < rows.len() ==> (brief_of(#[trigger] rows[i]) matches Some(brief) ==> {
                &&& brief.topic_max_students == rows[i].topic.topic_max_students
                &&& brief.current_student_count == bound_count(students, brief.topic_id)
                &&& brief.current_student_count <= brief.topic_max_students
            }),
{
    assert forall|i: int| 0 <= i < rows.len() implies (brief_of(#[trigger] rows[i]) matches Some(
        brief,
    ) ==> {
        &&& brief.topic_max_students == rows[i].topic.topic_max_students
        &&& brief.current_student_count == bound_count(students, brief.topic_id)
        &&& brief.current_student_count <= brief.topic_max_students
    }) by {
        let j = choose|j: int| 0 <= j < topics.len() && rows[i].topic == #[trigger] topics[j];
        lemma_listed_count_within_places(rows[i], students, topics, j);
    }
}

} // verus!
