//! A photo booth session: what the guests chose, the photo, the e-mail
//! address, and the retakes they have used.
use crate::clock::{instant_not_after, valid_instant, whole_seconds_between, Timestamp};
use crate::session_logger::{copy_opt_string, copy_strings, opt_text, SessionRecord, SessionRecordView};
use crate::text::{decimal, push_decimal, texts, to_owned_string};
use vstd::prelude::*;

verus! {

/// An optional list of strings as texts.
pub open spec fn opt_texts(o: Option<Vec<String>>) -> Option<Seq<Seq<char>>> {
    match o {
        Some(v) => Some(texts(v@)),
        None => None,
    }
}

/// One guest group's session.
pub struct PhotoSession {
    pub session_id: String,
    pub created_at: Timestamp,
    pub user_names: Option<Vec<String>>,
    pub weapon: Option<String>,
    pub land: Option<String>,
    pub companion: Option<String>,
    pub photo_path: Option<String>,
    pub email: Option<String>,
    pub print_job_id: Option<String>,
    pub retakes_used: u32,
    pub max_retakes: u32,
}

/// The content of a [`PhotoSession`].
pub struct PhotoSessionView {
    pub session_id: Seq<char>,
    pub created_at: (i64, u32),
    pub user_names: Option<Seq<Seq<char>>>,
    pub weapon: Option<Seq<char>>,
    pub land: Option<Seq<char>>,
    pub companion: Option<Seq<char>>,
    pub photo_path: Option<Seq<char>>,
    pub email: Option<Seq<char>>,
    pub print_job_id: Option<Seq<char>>,
    pub retakes_used: u32,
    pub max_retakes: u32,
}

impl View for PhotoSession {
    type V = PhotoSessionView;

    open spec fn view(&self) -> PhotoSessionView {
        PhotoSessionView {
            session_id: self.session_id@,
            created_at: self.created_at@,
            user_names: opt_texts(self.user_names),
            weapon: opt_text(self.weapon),
            land: opt_text(self.land),
            companion: opt_text(self.companion),
            photo_path: opt_text(self.photo_path),
            email: opt_text(self.email),
            print_job_id: opt_text(self.print_job_id),
            retakes_used: self.retakes_used,
            max_retakes: self.max_retakes,
        }
    }
}

impl PhotoSessionView {
    /// Names, photo and e-mail address are all present.
    pub open spec fn complete(self) -> bool {
        &&& self.user_names is Some
        &&& self.photo_path is Some
        &&& self.email is Some
    }

    /// A retake is left.
    pub open spec fn retake_left(self) -> bool {
        self.retakes_used < self.max_retakes
    }

    /// The session after one more retake, when one is left; otherwise unchanged.
    pub open spec fn after_retake(self) -> PhotoSessionView {
        if self.retake_left() {
            PhotoSessionView { retakes_used: (self.retakes_used + 1) as u32, ..self }
        } else {
            self
        }
    }

    /// No more retakes are used than allowed.
    pub open spec fn retakes_within_limit(self) -> bool {
        self.retakes_used <= self.max_retakes
    }

    /// The log record of the session when it is recorded at `now`.
    pub open spec fn record_at(self, now: (i64, u32)) -> SessionRecordView {
        SessionRecordView {
            session_id: self.session_id,
            timestamp: self.created_at,
            names: match self.user_names {
                Some(n) => n,
                None => Seq::<Seq<char>>::empty(),
            },
            weapon_choice: self.weapon,
            land_choice: self.land,
            companion_choice: self.companion,
            photo_path: self.photo_path,
            email: self.email,
            print_job_id: self.print_job_id,
            session_duration_seconds: Some(
                whole_seconds_between(
                    now.0 as int,
                    now.1 as int,
                    self.created_at.0 as int,
                    self.created_at.1 as int,
                ) as u64,
            ),
        }
    }
}

/// The session begun at `created_at`, its identifier made from the Unix
/// second `unix_secs`: nothing chosen yet, no retake used, one allowed.
pub open spec fn fresh_session(unix_secs: u64, created_at: (i64, u32)) -> PhotoSessionView {
    PhotoSessionView {
        session_id: "session_"@ + decimal(unix_secs as nat),
        created_at,
        user_names: None,
        weapon: None,
        land: None,
        companion: None,
        photo_path: None,
        email: None,
        print_job_id: None,
        retakes_used: 0,
        max_retakes: 1,
    }
}

impl PhotoSession {
    /// The session begun at `created_at` whose identifier carries the Unix
    /// second `unix_secs`.
    pub fn new_at(unix_secs: u64, created_at: Timestamp) -> (r: PhotoSession)
        ensures
            r@ == fresh_session(unix_secs, created_at@),
    {
        let mut session_id = to_owned_string("session_");
        push_decimal(&mut session_id, unix_secs);
        PhotoSession {
            session_id,
            created_at,
            user_names: None,
            weapon: None,
            land: None,
            companion: None,
            photo_path: None,
            email: None,
            print_job_id: None,
            retakes_used: 0,
            max_retakes: 1,
        }
    }

    /// A session begun now. Its identifier carries the Unix second of the
    /// instant it begins, as the system clock reads it; `None` when the
    /// clock cannot be read as an instant after the epoch.
    pub fn new() -> (r: Option<PhotoSession>)
        ensures
            r matches Some(s) ==> s@ == fresh_session(s@.created_at.0 as u64, s@.created_at),
            r matches Some(s) ==> s@.created_at.0 >= 0,
    {
        let created_at = match Timestamp::now() {
            Some(t) => t,
            None => return None,
        };
        let secs = created_at.unix_seconds() as u64;
        Some(Self::new_at(secs, created_at))
    }

    /// Names, photo and e-mail address are all present.
    pub fn is_complete(&self) -> (r: bool)
        ensures
            r == self@.complete(),
    {
        self.user_names.is_some() && self.photo_path.is_some() && self.email.is_some()
    }

    /// A retake is left.
    pub fn can_retake(&self) -> (r: bool)
        ensures
            r == self@.retake_left(),
    {
        self.retakes_used < self.max_retakes
    }

    /// Uses up one retake, when one is left.
    pub fn use_retake(&mut self)
        ensures
            final(self)@ == old(self)@.after_retake(),
            old(self)@.retakes_within_limit() ==> final(self)@.retakes_within_limit(),
    {
        if self.can_retake() {
            self.retakes_used = self.retakes_used + 1;
        }
    }

    /// The log record of the session, its duration measured up to `now`.
    pub fn to_session_record_at(&self, now: &Timestamp) -> (r: SessionRecord)
        ensures
            r@ == self@.record_at(now@),
    {
        let duration = now.seconds_since(&self.created_at);
        let names = match &self.user_names {
            Some(n) => copy_strings(n),
            None => Vec::new(),
        };
        let r = SessionRecord {
            session_id: self.session_id.clone(),
            timestamp: self.created_at,
            names,
            weapon_choice: copy_opt_string(&self.weapon),
            land_choice: copy_opt_string(&self.land),
            companion_choice: copy_opt_string(&self.companion),
            photo_path: copy_opt_string(&self.photo_path),
            email: copy_opt_string(&self.email),
            print_job_id: copy_opt_string(&self.print_job_id),
            session_duration_seconds: Some(duration as u64),
        };
        assert(r@.names =~= self@.record_at(now@).names);
        r
    }

    /// The log record of the session, its duration measured up to now;
    /// `None` when the clock cannot be read as an instant after the epoch.
    pub fn to_session_record(&self) -> (r: Option<SessionRecord>)
        ensures
            r matches Some(rec) ==> exists|now: (i64, u32)|
                now.0 >= 0 && valid_instant(now.0 as int, now.1 as int) && rec@ == self@.record_at(
                    now,
                ),
    {
        match Timestamp::now() {
            Some(now) => Some(self.to_session_record_at(&now)),
            None => None,
        }
    }
}

/// Law: the duration a record gives a session is the number of whole seconds
/// elapsed from its start up to the instant the record is made: that many
/// seconds after the start is not later than that instant, and one second
/// more is later.
pub proof fn law_duration_is_elapsed_seconds(s: PhotoSessionView, now: (i64, u32))
    requires
        valid_instant(s.created_at.0 as int, s.created_at.1 as int),
        valid_instant(now.0 as int, now.1 as int),
        instant_not_after(s.created_at.0 as int, s.created_at.1 as int, now.0 as int, now.1 as int),
    ensures
        s.record_at(now).session_duration_seconds matches Some(d) && instant_not_after(
            s.created_at.0 + d,
            s.created_at.1 as int,
            now.0 as int,
            now.1 as int,
        ) && !instant_not_after(
            s.created_at.0 + d + 1,
            s.created_at.1 as int,
            now.0 as int,
            now.1 as int,
        ),
{
    let c0 = s.created_at.0 as int;
    let c1 = s.created_at.1 as int;
    let n0 = now.0 as int;
    let n1 = now.1 as int;
    let k = n0 - c0;
    let total = k * 1_000_000_000 + (n1 - c1);
    assert(whole_seconds_between(n0, n1, c0, c1) == if total >= 0 {
        total / 1_000_000_000
    } else {
        -((-total) / 1_000_000_000)
    });
    if n1 >= c1 {
        assert(total >= 0) by (nonlinear_arith)
            requires
                k >= 0,
                n1 - c1 >= 0,
                total == k * 1_000_000_000 + (n1 - c1),
        ;
        vstd::arithmetic::div_mod::lemma_fundamental_div_mod_converse(
            total,
            1_000_000_000,
            k,
            n1 - c1,
        );
    } else {
        assert(k >= 1);
        assert(total == (k - 1) * 1_000_000_000 + (1_000_000_000 + n1 - c1)) by (nonlinear_arith)
            requires
                total == k * 1_000_000_000 + (n1 - c1),
        ;
        assert(total >= 0) by (nonlinear_arith)
            requires
                k - 1 >= 0,
                1_000_000_000 + n1 - c1 > 0,
                total == (k - 1) * 1_000_000_000 + (1_000_000_000 + n1 - c1),
        ;
        vstd::arithmetic::div_mod::lemma_fundamental_div_mod_converse(
            total,
            1_000_000_000,
            k - 1,
            1_000_000_000 + n1 - c1,
        );
    }
}

/// Law: sessions begun at different seconds get different identifiers.
pub proof fn law_session_ids_differ_by_second(
    a: u64,
    b: u64,
    created_a: (i64, u32),
    created_b: (i64, u32),
)
    ensures
        a != b ==> fresh_session(a, created_a).session_id != fresh_session(b, created_b).session_id,
{
    let e = Seq::<char>::empty();
    assert("session_"@ + decimal(a as nat) + e =~= "session_"@ + decimal(a as nat));
    assert("session_"@ + decimal(b as nat) + e =~= "session_"@ + decimal(b as nat));
    crate::text::law_framed_decimal_injective("session_"@, e, a as nat, b as nat);
}

} // verus!
