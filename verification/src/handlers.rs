//! The rules of the booth's web interface: how each request changes the
//! booth's state and what it is answered. The web server performs the
//! camera, printer and log work between the steps.
use crate::camera::CameraError;
use crate::clock::{valid_instant, Timestamp};
use crate::printer::{PaperSize, PrintJob, PrintQuality, PrinterError};
use crate::session::{PhotoSession, PhotoSessionView, fresh_session};
use crate::session_logger::SessionRecord;
use crate::text::{
    chars_of, contains, is_blank, join, join_strings, law_trim_empty_iff_blank, str_contains, texts,
    to_owned_string, trim, trim_chars,
};
use vstd::prelude::*;
use vstd::string::*;

verus! {

/// The HTTP status of an answer.
#[derive(Clone, Copy, Debug, PartialEq, Eq, Structural)]
pub enum StatusCode {
    Success,
    BadRequest,
    NotFound,
    Conflict,
    InternalServerError,
}

impl StatusCode {
    /// The numeric code.
    pub open spec fn number(self) -> u16 {
        match self {
            StatusCode::Success => 200,
            StatusCode::BadRequest => 400,
            StatusCode::NotFound => 404,
            StatusCode::Conflict => 409,
            StatusCode::InternalServerError => 500,
        }
    }

    /// The numeric code.
    pub fn code(self) -> (r: u16)
        ensures
            r == self.number(),
    {
        match self {
            StatusCode::Success => 200,
            StatusCode::BadRequest => 400,
            StatusCode::NotFound => 404,
            StatusCode::Conflict => 409,
            StatusCode::InternalServerError => 500,
        }
    }
}

/// The booth's state: the session under way, if any, and how many sessions
/// have been started.
pub struct AppState {
    pub current_session: Option<PhotoSession>,
    pub session_count: u32,
}

/// The content of an [`AppState`].
pub struct AppStateView {
    pub current_session: Option<PhotoSessionView>,
    pub session_count: u32,
}

impl View for AppState {
    type V = AppStateView;

    open spec fn view(&self) -> AppStateView {
        AppStateView {
            current_session: match self.current_session {
                Some(s) => Some(s@),
                None => None,
            },
            session_count: self.session_count,
        }
    }
}

impl AppState {
    /// A booth with no session that has started none.
    pub fn new() -> (r: AppState)
        ensures
            r@.current_session is None,
            r@.session_count == 0,
    {
        AppState { current_session: None, session_count: 0 }
    }
}

/// The session under way uses no more retakes than it is allowed.
pub open spec fn retakes_ok(st: AppStateView) -> bool {
    st.current_session matches Some(s) ==> s.retakes_within_limit()
}

/// A choice of weapon, land or companion.
pub struct SelectionPayload {
    pub id: String,
}

/// The guests' names.
pub struct NamesPayload {
    pub names: Vec<String>,
}

/// The guests' e-mail address.
pub struct EmailPayload {
    pub email: String,
}

/// What a selection request chooses.
#[derive(Clone, Copy, Debug, PartialEq, Eq, Structural)]
pub enum Selection {
    Weapon,
    Land,
    Companion,
}

/// The session with `id` chosen for `field`.
pub open spec fn chosen(s: PhotoSessionView, field: Selection, id: Seq<char>) -> PhotoSessionView {
    match field {
        Selection::Weapon => PhotoSessionView { weapon: Some(id), ..s },
        Selection::Land => PhotoSessionView { land: Some(id), ..s },
        Selection::Companion => PhotoSessionView { companion: Some(id), ..s },
    }
}

/// The state after a request that changes the session under way with `f`;
/// unchanged when there is none.
pub open spec fn on_session(st: AppStateView, f: spec_fn(PhotoSessionView) -> PhotoSessionView) -> AppStateView {
    match st.current_session {
        Some(s) => AppStateView { current_session: Some(f(s)), ..st },
        None => st,
    }
}

/// The answer to a request that needs a session: done, or a conflict when
/// there is none.
pub open spec fn session_status(st: AppStateView) -> StatusCode {
    if st.current_session is Some {
        StatusCode::Success
    } else {
        StatusCode::Conflict
    }
}

/// The state after the session `s` is started.
pub open spec fn started(st: AppStateView, s: PhotoSessionView) -> AppStateView {
    AppStateView { current_session: Some(s), session_count: (st.session_count + 1) as u32 }
}

/// Starts the session `session`, in place of any under way, and counts it.
pub fn start_session_with(state: &mut AppState, session: PhotoSession) -> (r: u32)
    requires
        old(state).session_count < u32::MAX,
    ensures
        final(state)@ == started(old(state)@, session@),
        r == final(state)@.session_count,
{
    state.current_session = Some(session);
    state.session_count = state.session_count + 1;
    state.session_count
}

/// Starts a new session, in place of any under way, and answers the number
/// of sessions started so far; `None`, with the booth left as it was, when
/// the clock cannot be read as an instant after the epoch.
pub fn start_session(state: &mut AppState) -> (r: Option<u32>)
    requires
        old(state).session_count < u32::MAX,
    ensures
        r is None ==> final(state)@ == old(state)@,
        r matches Some(n) ==> ({
            &&& final(state)@.current_session matches Some(s)
            &&& final(state)@ == started(old(state)@, s)
            &&& s == fresh_session(s.created_at.0 as u64, s.created_at)
        }),
        r matches Some(n) ==> n == final(state)@.session_count && n == old(state)@.session_count
            + 1,
{
    match PhotoSession::new() {
        Some(session) => Some(start_session_with(state, session)),
        None => None,
    }
}

/// Records a choice in the session under way.
fn handle_selection(state: &mut AppState, field: Selection, payload: SelectionPayload) -> (r:
    StatusCode)
    ensures
        final(state)@ == on_session(old(state)@, |s: PhotoSessionView| chosen(s, field, payload.id@)),
        r == session_status(old(state)@),
{
    match state.current_session.take() {
        Some(mut s) => {
            match field {
                Selection::Weapon => {
                    s.weapon = Some(payload.id);
                },
                Selection::Land => {
                    s.land = Some(payload.id);
                },
                Selection::Companion => {
                    s.companion = Some(payload.id);
                },
            }
            state.current_session = Some(s);
            StatusCode::Success
        },
        None => StatusCode::Conflict,
    }
}

/// Records the chosen weapon in the session under way.
pub fn select_weapon(state: &mut AppState, payload: SelectionPayload) -> (r: StatusCode)
    ensures
        final(state)@ == on_session(
            old(state)@,
            |s: PhotoSessionView| chosen(s, Selection::Weapon, payload.id@),
        ),
        r == session_status(old(state)@),
{
    handle_selection(state, Selection::Weapon, payload)
}

/// Records the chosen land in the session under way.
pub fn select_land(state: &mut AppState, payload: SelectionPayload) -> (r: StatusCode)
    ensures
        final(state)@ == on_session(
            old(state)@,
            |s: PhotoSessionView| chosen(s, Selection::Land, payload.id@),
        ),
        r == session_status(old(state)@),
{
    handle_selection(state, Selection::Land, payload)
}

/// Records the chosen companion in the session under way.
pub fn select_companion(state: &mut AppState, payload: SelectionPayload) -> (r: StatusCode)
    ensures
        final(state)@ == on_session(
            old(state)@,
            |s: PhotoSessionView| chosen(s, Selection::Companion, payload.id@),
        ),
        r == session_status(old(state)@),
{
    handle_selection(state, Selection::Companion, payload)
}

/// The session with the guests' names.
pub open spec fn named(s: PhotoSessionView, names: Seq<Seq<char>>) -> PhotoSessionView {
    PhotoSessionView { user_names: Some(names), ..s }
}

/// Records the guests' names in the session under way.
pub fn submit_names(state: &mut AppState, payload: NamesPayload) -> (r: StatusCode)
    ensures
        final(state)@ == on_session(
            old(state)@,
            |s: PhotoSessionView| named(s, texts(payload.names@)),
        ),
        r == session_status(old(state)@),
{
    match state.current_session.take() {
        Some(mut s) => {
            s.user_names = Some(payload.names);
            state.current_session = Some(s);
            StatusCode::Success
        },
        None => StatusCode::Conflict,
    }
}

/// The answer to a photo request.
pub enum CountdownReply {
    /// The photo was taken and stored in the session.
    Captured { photo_path: String },
    /// The photo was taken but no session is under way.
    NoSession,
    /// The camera failed; the message tells the guests what happened.
    Failed { message: String },
}

/// The guests' message for a camera failure whose text is `error_text`.
pub open spec fn camera_failure_message(error_text: Seq<char>) -> Seq<char> {
    if contains(error_text, "busy"@) {
        "Camera is busy, please try again in a moment"@
    } else if contains(error_text, "Pipeline handler in use"@) {
        "Camera is being used by another process"@
    } else {
        "Failed to take photo, please try again"@
    }
}

impl CountdownReply {
    /// The HTTP status: a conflict without a session, otherwise 200 (also
    /// for a camera failure, which the body reports).
    pub fn status(&self) -> (r: StatusCode)
        ensures
            r == (if self is NoSession {
                StatusCode::Conflict
            } else {
                StatusCode::Success
            }),
    {
        match self {
            CountdownReply::NoSession => StatusCode::Conflict,
            _ => StatusCode::Success,
        }
    }

    /// The message of the answer: none for a photo taken, `"No active
    /// session"` without a session, the failure's message otherwise.
    pub fn message(&self) -> (r: Option<String>)
        ensures
            self is Captured ==> r is None,
            self is NoSession ==> (r matches Some(m) && m@ == "No active session"@),
            self matches CountdownReply::Failed { message } ==> (r matches Some(m) && m@
                == message@),
    {
        match self {
            CountdownReply::Captured { .. } => None,
            CountdownReply::NoSession => Some(to_owned_string("No active session")),
            CountdownReply::Failed { message } => Some(message.clone()),
        }
    }
}

/// The session with the photo at `path`.
pub open spec fn photographed(s: PhotoSessionView, path: Seq<char>) -> PhotoSessionView {
    PhotoSessionView { photo_path: Some(path), ..s }
}

/// Stores the photo the camera took, or reports its failure.
pub fn start_countdown(state: &mut AppState, capture: Result<String, CameraError>) -> (r:
    CountdownReply)
    ensures
        capture matches Ok(p) ==> final(state)@ == on_session(
            old(state)@,
            |s: PhotoSessionView| photographed(s, p@),
        ),
        capture is Err ==> final(state)@ == old(state)@,
        capture matches Ok(p) ==> (if old(state)@.current_session is Some {
            r matches CountdownReply::Captured { photo_path } && photo_path@ == p@
        } else {
            r is NoSession
        }),
        capture matches Err(e) ==> (r matches CountdownReply::Failed { message } && message@
            == camera_failure_message(e.message_text())),
{
    match capture {
        Ok(photo_path) => {
            match state.current_session.take() {
                Some(mut s) => {
                    s.photo_path = Some(photo_path.clone());
                    state.current_session = Some(s);
                    CountdownReply::Captured { photo_path }
                },
                None => CountdownReply::NoSession,
            }
        },
        Err(e) => {
            let text = e.message();
            let message = if str_contains(text.as_str(), "busy") {
                "Camera is busy, please try again in a moment"
            } else if str_contains(text.as_str(), "Pipeline handler in use") {
                "Camera is being used by another process"
            } else {
                "Failed to take photo, please try again"
            };
            CountdownReply::Failed { message: to_owned_string(message) }
        },
    }
}

/// Uses up a retake of the session under way, when one is left; the photo
/// is then taken as for [`start_countdown`].
pub fn retake_photo(state: &mut AppState)
    ensures
        final(state)@ == on_session(old(state)@, |s: PhotoSessionView| s.after_retake()),
        retakes_ok(old(state)@) ==> retakes_ok(final(state)@),
{
    match state.current_session.take() {
        Some(mut s) => {
            s.use_retake();
            state.current_session = Some(s);
        },
        None => {},
    }
}

/// What the booth reports of the session under way.
pub struct SessionStatus {
    pub session_id: String,
    pub has_photo: bool,
    pub can_retake: bool,
    pub retakes_used: u32,
    pub max_retakes: u32,
    pub is_complete: bool,
    pub email: Option<String>,
}

/// Reports the session under way, if any.
pub fn get_session_status(state: &AppState) -> (r: Option<SessionStatus>)
    ensures
        state@.current_session is None ==> r is None,
        state@.current_session matches Some(s) ==> (r matches Some(st) && st.session_id@
            == s.session_id && st.has_photo == (s.photo_path is Some) && st.can_retake
            == s.retake_left() && st.retakes_used == s.retakes_used && st.max_retakes
            == s.max_retakes && st.is_complete == s.complete() && crate::session_logger::opt_text(
            st.email,
        ) == s.email),
{
    match &state.current_session {
        Some(s) => Some(
            SessionStatus {
                session_id: s.session_id.clone(),
                has_photo: s.photo_path.is_some(),
                can_retake: s.can_retake(),
                retakes_used: s.retakes_used,
                max_retakes: s.max_retakes,
                is_complete: s.is_complete(),
                email: crate::session_logger::copy_opt_string(&s.email),
            },
        ),
        None => None,
    }
}

/// The answer to an e-mail submission.
pub enum EmailOutcome {
    /// The address is empty or white space only.
    EmptyEmail,
    /// The session is complete: this record is to be logged, then the
    /// session cleared.
    Completed(SessionRecord),
    /// The session still lacks the named parts.
    Incomplete { missing: Vec<String> },
    /// No session is under way.
    NoSession,
}

/// The parts that a session lacks, in the order names, photo, e-mail.
pub open spec fn missing_parts(s: PhotoSessionView) -> Seq<Seq<char>> {
    let a = if s.user_names is None {
        seq!["names"@]
    } else {
        Seq::<Seq<char>>::empty()
    };
    let b = if s.photo_path is None {
        seq!["photo"@]
    } else {
        Seq::<Seq<char>>::empty()
    };
    let c = if s.email is None {
        seq!["email"@]
    } else {
        Seq::<Seq<char>>::empty()
    };
    a + b + c
}

/// The session with the e-mail address.
pub open spec fn addressed(s: PhotoSessionView, email: Seq<char>) -> PhotoSessionView {
    PhotoSessionView { email: Some(email), ..s }
}

/// The state after the e-mail address is submitted.
pub open spec fn after_email(st: AppStateView, email: Seq<char>) -> AppStateView {
    if trim(email).len() == 0 {
        st
    } else {
        on_session(st, |s: PhotoSessionView| addressed(s, email))
    }
}

impl EmailOutcome {
    /// The HTTP status: 200 for a completed session, 400 otherwise.
    pub fn status(&self) -> (r: StatusCode)
        ensures
            r == (if self is Completed {
                StatusCode::Success
            } else {
                StatusCode::BadRequest
            }),
    {
        match self {
            EmailOutcome::Completed(_) => StatusCode::Success,
            _ => StatusCode::BadRequest,
        }
    }

    /// The message of the answer.
    pub fn message(&self) -> (r: String)
        ensures
            self is EmptyEmail ==> r@ == "Email cannot be empty"@,
            self is Completed ==> r@ == "Photo session completed! Check your email."@,
            self matches EmailOutcome::Incomplete { missing } ==> r@
                == "Session is incomplete. Missing: "@ + join(texts(missing@), ", "@),
            self is NoSession ==> r@ == "No active session found"@,
    {
        match self {
            EmailOutcome::EmptyEmail => to_owned_string("Email cannot be empty"),
            EmailOutcome::Completed(_) => to_owned_string("Photo session completed! Check your email."),
            EmailOutcome::Incomplete { missing } => {
                let mut r = to_owned_string("Session is incomplete. Missing: ");
                let parts = join_strings(missing, ", ");
                r.append(parts.as_str());
                r
            },
            EmailOutcome::NoSession => to_owned_string("No active session found"),
        }
    }
}

/// The parts that the session lacks.
fn missing_of(s: &PhotoSession) -> (r: Vec<String>)
    ensures
        texts(r@) == missing_parts(s@),
{
    let mut r: Vec<String> = Vec::new();
    if s.user_names.is_none() {
        r.push(to_owned_string("names"));
    }
    if s.photo_path.is_none() {
        r.push(to_owned_string("photo"));
    }
    if s.email.is_none() {
        r.push(to_owned_string("email"));
    }
    assert(texts(r@) =~= missing_parts(s@));
    r
}

/// Records the e-mail address in the session under way, at instant `now`:
/// an empty address is refused; a session that is then complete yields its
/// log record (its duration measured up to `now`); otherwise the answer
/// names what is missing.
pub fn submit_email_at(state: &mut AppState, payload: EmailPayload, now: &Timestamp) -> (r:
    EmailOutcome)
    ensures
        final(state)@ == after_email(old(state)@, payload.email@),
        trim(payload.email@).len() == 0 ==> r is EmptyEmail,
        trim(payload.email@).len() != 0 ==> match old(state)@.current_session {
            None => r is NoSession,
            Some(s) => {
                let s2 = addressed(s, payload.email@);
                if s2.complete() {
                    r matches EmailOutcome::Completed(rec) && rec@ == s2.record_at(now@)
                } else {
                    r matches EmailOutcome::Incomplete { missing } && texts(missing@)
                        == missing_parts(s2)
                }
            },
        },
{
    let chars = chars_of(payload.email.as_str());
    let trimmed = trim_chars(&chars);
    if trimmed.len() == 0 {
        return EmailOutcome::EmptyEmail;
    }
    match state.current_session.take() {
        Some(mut s) => {
            s.email = Some(payload.email);
            let outcome = if s.is_complete() {
                EmailOutcome::Completed(s.to_session_record_at(now))
            } else {
                EmailOutcome::Incomplete { missing: missing_of(&s) }
            };
            state.current_session = Some(s);
            outcome
        },
        None => EmailOutcome::NoSession,
    }
}

/// Records the e-mail address in the session under way, now. An empty
/// address is refused without reading the clock; otherwise `None`, with the
/// booth left as it was, when the clock cannot be read as an instant after
/// the epoch.
pub fn submit_email(state: &mut AppState, payload: EmailPayload) -> (r: Option<EmailOutcome>)
    ensures
        r is None ==> final(state)@ == old(state)@ && trim(payload.email@).len() != 0,
        r is Some ==> final(state)@ == after_email(old(state)@, payload.email@),
        trim(payload.email@).len() == 0 ==> (r matches Some(o) && o is EmptyEmail),
        r matches Some(o) ==> (trim(payload.email@).len() == 0 || match old(
            state,
        )@.current_session {
            None => o is NoSession,
            Some(s) => {
                let s2 = addressed(s, payload.email@);
                if s2.complete() {
                    o matches EmailOutcome::Completed(rec) && exists|now: (i64, u32)|
                        now.0 >= 0 && valid_instant(now.0 as int, now.1 as int) && rec@
                        == s2.record_at(now)
                } else {
                    o matches EmailOutcome::Incomplete { missing } && texts(missing@)
                        == missing_parts(s2)
                }
            },
        }),
{
    let chars = chars_of(payload.email.as_str());
    let trimmed = trim_chars(&chars);
    if trimmed.len() == 0 {
        return Some(EmailOutcome::EmptyEmail);
    }
    match Timestamp::now() {
        Some(now) => Some(submit_email_at(state, payload, &now)),
        None => None,
    }
}

/// Ends the session once its record has been logged.
pub fn clear_session(state: &mut AppState)
    ensures
        final(state)@ == (AppStateView { current_session: None, ..old(state)@ }),
{
    state.current_session = None;
}

/// Why a print request cannot be served.
pub enum PrintRefusal {
    NoSession,
    NoPhoto,
}

impl PrintRefusal {
    /// The HTTP status: 404, with or without a session.
    pub fn status(&self) -> (r: StatusCode)
        ensures
            r == StatusCode::NotFound,
    {
        StatusCode::NotFound
    }

    /// The message of the answer.
    pub fn message(&self) -> (r: String)
        ensures
            self is NoSession ==> r@ == "No active session"@,
            self is NoPhoto ==> r@ == "No photo available to print"@,
    {
        match self {
            PrintRefusal::NoSession => to_owned_string("No active session"),
            PrintRefusal::NoPhoto => to_owned_string("No photo available to print"),
        }
    }
}

/// The print job for the photo of the session under way: one copy on 4x6
/// photo paper at normal quality.
pub fn print_photo(state: &AppState) -> (r: Result<PrintJob, PrintRefusal>)
    ensures
        state@.current_session is None ==> r matches Err(PrintRefusal::NoSession),
        state@.current_session matches Some(s) ==> match s.photo_path {
            None => r matches Err(PrintRefusal::NoPhoto),
            Some(p) => r matches Ok(job) && job.file_path@ == p && job.copies == 1
                && job.paper_size == PaperSize::Photo4x6 && job.quality == PrintQuality::Normal,
        },
{
    match &state.current_session {
        None => Err(PrintRefusal::NoSession),
        Some(s) => match &s.photo_path {
            None => Err(PrintRefusal::NoPhoto),
            Some(p) => Ok(
                PrintJob {
                    file_path: p.clone(),
                    copies: 1,
                    paper_size: PaperSize::Photo4x6,
                    quality: PrintQuality::Normal,
                },
            ),
        },
    }
}

/// The answer once the printer has answered.
pub enum PrintReply {
    /// Sent to the printer as this job.
    Printed { job_id: String },
    /// The printer failed; the message quotes its error.
    Failed { message: String },
}

impl PrintReply {
    /// The HTTP status: 200 once sent to the printer, 500 when it failed.
    pub fn status(&self) -> (r: StatusCode)
        ensures
            r == (if self is Printed {
                StatusCode::Success
            } else {
                StatusCode::InternalServerError
            }),
    {
        match self {
            PrintReply::Printed { .. } => StatusCode::Success,
            PrintReply::Failed { .. } => StatusCode::InternalServerError,
        }
    }

    /// The message of the answer.
    pub fn message(&self) -> (r: String)
        ensures
            self is Printed ==> r@ == "Photo sent to printer!"@,
            self matches PrintReply::Failed { message } ==> r@ == message@,
    {
        match self {
            PrintReply::Printed { .. } => to_owned_string("Photo sent to printer!"),
            PrintReply::Failed { message } => message.clone(),
        }
    }
}

/// The session with the print job `id`.
pub open spec fn printed(s: PhotoSessionView, id: Seq<char>) -> PhotoSessionView {
    PhotoSessionView { print_job_id: Some(id), ..s }
}

/// Records the printer's answer: the job in the session under way, if any,
/// or the failure (status 500).
pub fn record_print(state: &mut AppState, result: Result<String, PrinterError>) -> (r: PrintReply)
    ensures
        result matches Ok(id) ==> final(state)@ == on_session(
            old(state)@,
            |s: PhotoSessionView| printed(s, id@),
        ) && (r matches PrintReply::Printed { job_id } && job_id@ == id@),
        result matches Err(e) ==> final(state)@ == old(state)@ && (r matches PrintReply::Failed {
            message,
        } && message@ == "Failed to print: "@ + e.message_text()),
{
    match result {
        Ok(job_id) => {
            match state.current_session.take() {
                Some(mut s) => {
                    s.print_job_id = Some(job_id.clone());
                    state.current_session = Some(s);
                },
                None => {},
            }
            PrintReply::Printed { job_id }
        },
        Err(e) => {
            let mut message = to_owned_string("Failed to print: ");
            let text = e.message();
            message.append(text.as_str());
            PrintReply::Failed { message }
        },
    }
}

/// Law: once names, a photo and an e-mail address have been submitted to a
/// session that was started, the e-mail submission finds the session
/// complete, and its log record carries exactly those names, that photo and
/// that address, along with whatever was chosen.
pub proof fn law_submitted_session_completes(
    st: AppStateView,
    fresh: PhotoSessionView,
    weapon: Seq<char>,
    names: Seq<Seq<char>>,
    photo: Seq<char>,
    email: Seq<char>,
    now: (i64, u32),
)
    requires
        trim(email).len() != 0,
    ensures
        ({
            let st1 = started(st, fresh);
            let st2 = on_session(st1, |s: PhotoSessionView| chosen(s, Selection::Weapon, weapon));
            let st3 = on_session(st2, |s: PhotoSessionView| named(s, names));
            let st4 = on_session(st3, |s: PhotoSessionView| photographed(s, photo));
            &&& st4.current_session matches Some(s4)
            &&& addressed(s4, email).complete()
            &&& addressed(s4, email).record_at(now).names == names
            &&& addressed(s4, email).record_at(now).photo_path == Some(photo)
            &&& addressed(s4, email).record_at(now).email == Some(email)
            &&& addressed(s4, email).record_at(now).weapon_choice == Some(weapon)
            &&& addressed(s4, email).record_at(now).session_id == fresh.session_id
            &&& after_email(st4, email).current_session == Some(addressed(s4, email))
        }),
{
}

/// Law: a session allows exactly as many retakes as its limit; a fresh
/// session allows one, and a second retake changes nothing.
pub proof fn law_one_retake_per_session(secs: u64, created_at: (i64, u32))
    ensures
        ({
            let s0 = fresh_session(secs, created_at);
            let s1 = s0.after_retake();
            &&& s0.retake_left()
            &&& s1.retakes_used == 1
            &&& !s1.retake_left()
            &&& s1.after_retake() == s1
        }),
{
}

/// Law: every request keeps the session under way within its retake limit.
pub proof fn law_retake_limit_kept(
    st: AppStateView,
    secs: u64,
    created_at: (i64, u32),
    field: Selection,
    id: Seq<char>,
    names: Seq<Seq<char>>,
    photo: Seq<char>,
    email: Seq<char>,
    job: Seq<char>,
)
    requires
        retakes_ok(st),
    ensures
        retakes_ok(started(st, fresh_session(secs, created_at))),
        retakes_ok(on_session(st, |s: PhotoSessionView| chosen(s, field, id))),
        retakes_ok(on_session(st, |s: PhotoSessionView| named(s, names))),
        retakes_ok(on_session(st, |s: PhotoSessionView| photographed(s, photo))),
        retakes_ok(on_session(st, |s: PhotoSessionView| s.after_retake())),
        retakes_ok(after_email(st, email)),
        retakes_ok(on_session(st, |s: PhotoSessionView| printed(s, job))),
        retakes_ok(AppStateView { current_session: None, ..st }),
{
}

/// Law: only starting a session changes the count of sessions; it adds one.
pub proof fn law_only_start_counts(
    st: AppStateView,
    s: PhotoSessionView,
    field: Selection,
    id: Seq<char>,
    names: Seq<Seq<char>>,
    photo: Seq<char>,
    email: Seq<char>,
    job: Seq<char>,
)
    requires
        st.session_count < u32::MAX,
    ensures
        started(st, s).session_count == st.session_count + 1,
        on_session(st, |v: PhotoSessionView| chosen(v, field, id)).session_count == st.session_count,
        on_session(st, |v: PhotoSessionView| named(v, names)).session_count == st.session_count,
        on_session(st, |v: PhotoSessionView| photographed(v, photo)).session_count == st.session_count,
        on_session(st, |v: PhotoSessionView| v.after_retake()).session_count == st.session_count,
        after_email(st, email).session_count == st.session_count,
        on_session(st, |v: PhotoSessionView| printed(v, job)).session_count == st.session_count,
{
}

/// The state after the sessions `sessions` are started one after another.
pub open spec fn start_run(st: AppStateView, sessions: Seq<PhotoSessionView>) -> AppStateView
    decreases sessions.len(),
{
    if sessions.len() == 0 {
        st
    } else {
        started(start_run(st, sessions.drop_last()), sessions.last())
    }
}

/// Law: starting sessions one after another counts each exactly once: after
/// the first `i` of them the count has grown by `i` (so the counts that the
/// starts report rise by one each time), and the session under way is the
/// one started last.
pub proof fn law_each_start_counts_once(st: AppStateView, sessions: Seq<PhotoSessionView>)
    requires
        st.session_count + sessions.len() <= u32::MAX,
    ensures
        forall|i: int|
            0 <= i <= sessions.len() ==> #[trigger] start_run(st, sessions.take(i)).session_count
                == st.session_count + i,
        forall|i: int|
            0 < i <= sessions.len() ==> #[trigger] start_run(st, sessions.take(i)).current_session
                == Some(sessions[i - 1]),
    decreases sessions.len(),
{
    if sessions.len() > 0 {
        let init = sessions.drop_last();
        law_each_start_counts_once(st, init);
        assert forall|i: int| 0 <= i <= sessions.len() implies #[trigger] start_run(
            st,
            sessions.take(i),
        ).session_count == st.session_count + i && (i > 0 ==> start_run(
            st,
            sessions.take(i),
        ).current_session == Some(sessions[i - 1])) by {
            if i < sessions.len() {
                assert(sessions.take(i) =~= init.take(i));
                assert(start_run(st, init.take(i)).session_count == st.session_count + i);
            } else {
                assert(sessions.take(i) =~= sessions);
                assert(init.take(init.len() as int) =~= init);
                assert(start_run(st, init.take(init.len() as int)).session_count
                    == st.session_count + init.len());
            }
        }
    } else {
        assert forall|i: int| 0 <= i <= sessions.len() implies #[trigger] start_run(
            st,
            sessions.take(i),
        ).session_count == st.session_count + i by {
            assert(sessions.take(i) =~= sessions);
        }
    }
}

/// Law: an e-mail address is refused, leaving the booth as it was, exactly
/// when every character of it is white space.
pub proof fn law_blank_email_refused(st: AppStateView, email: Seq<char>)
    ensures
        (trim(email).len() == 0) == is_blank(email),
        is_blank(email) ==> after_email(st, email) == st,
{
    law_trim_empty_iff_blank(email);
}

/// Law: without a session under way, no request but starting one creates a
/// session, and none changes the booth.
pub proof fn law_no_session_without_start(
    st: AppStateView,
    field: Selection,
    id: Seq<char>,
    names: Seq<Seq<char>>,
    photo: Seq<char>,
    email: Seq<char>,
    job: Seq<char>,
)
    requires
        st.current_session is None,
    ensures
        on_session(st, |s: PhotoSessionView| chosen(s, field, id)) == st,
        on_session(st, |s: PhotoSessionView| named(s, names)) == st,
        on_session(st, |s: PhotoSessionView| photographed(s, photo)) == st,
        on_session(st, |s: PhotoSessionView| s.after_retake()) == st,
        after_email(st, email) == st,
        on_session(st, |s: PhotoSessionView| printed(s, job)) == st,
        session_status(st) == StatusCode::Conflict,
{
}

} // verus!
