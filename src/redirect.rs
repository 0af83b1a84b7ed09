//! One send, as a state machine: the size check, then attempts that follow
//! redirects up to a fixed bound. The caller performs each attempt and hands
//! the response back.
use vstd::prelude::*;

use crate::client::HttpTransportClient;
use crate::error::{Error, ErrorKind};
use crate::text::{has_prefix, joined, suffix_from};

verus! {

/// Most attempts that one send makes.
pub const MAX_REDIRECTS: u32 = 32;

/// Prefix of a TLS target.
pub const HTTPS_PREFIX: &'static str = "https://";

/// Prefix of a plain target.
pub const HTTP_PREFIX: &'static str = "http://";

/// Whether `status` is a redirection (3xx).
pub open spec fn is_redirection(status: u16) -> bool {
    300 <= status <= 399
}

/// Whether `status` is a success (2xx).
pub open spec fn is_success(status: u16) -> bool {
    200 <= status <= 299
}

/// The `Location` header of a response.
#[derive(Debug, Clone)]
pub enum Location {
    /// The response has none.
    Absent,
    /// Its value, as text.
    Text(String),
    /// Its value is not valid text; the message says why.
    Invalid(String),
}

/// What the caller does after a response.
#[derive(Debug, Clone)]
pub enum Action {
    /// Make the next attempt.
    Follow,
    /// Hand the response to the caller.
    Success,
    /// Stop with this error.
    Fail(Error),
}

/// An action without the text of its error; `Follow` also stands for a
/// send that is still under way.
#[derive(Debug, Clone, Copy, PartialEq, Eq, Structural)]
pub enum Outcome {
    /// Another attempt is due.
    Follow,
    /// The last response is the result.
    Success,
    /// The send failed.
    Failed(ErrorKind),
}

impl Action {
    /// What this action amounts to.
    pub open spec fn outcome(&self) -> Outcome {
        match self {
            Action::Follow => Outcome::Follow,
            Action::Success => Outcome::Success,
            Action::Fail(e) => Outcome::Failed(e.kind()),
        }
    }
}

/// A cursor as values: current target, attempts made.
pub type CursorView = (Seq<char>, nat);

/// Where an attempt is addressed: with `http_only`, an `https://` target is
/// rewritten to `http://` with the rest kept.
pub open spec fn downgraded(t: Seq<char>, http_only: bool) -> Seq<char> {
    if http_only && HTTPS_PREFIX@.is_prefix_of(t) {
        HTTP_PREFIX@ + t.subrange(HTTPS_PREFIX@.len() as int, t.len() as int)
    } else {
        t
    }
}

/// The cursor after starting one more attempt, or `None` once the bound is
/// reached.
pub open spec fn attempted(c: CursorView, http_only: bool) -> Option<CursorView> {
    if c.1 >= MAX_REDIRECTS {
        None
    } else {
        Some((downgraded(c.0, http_only), c.1 + 1))
    }
}

/// What a response with `status` and `location` leads to, and the cursor
/// after it.
pub open spec fn responded(c: CursorView, status: u16, location: Location) -> (
    Outcome,
    CursorView,
) {
    if is_redirection(status) && !(location is Absent) {
        match location {
            Location::Text(t) => (Outcome::Follow, (t@, c.1)),
            _ => (Outcome::Failed(ErrorKind::Url), c),
        }
    } else if is_success(status) {
        (Outcome::Success, c)
    } else {
        (Outcome::Failed(ErrorKind::RequestFailure(status)), c)
    }
}

/// The targets attempted from cursor `c` while the responses `rs` come
/// back in turn, and how the send stands after them.
pub open spec fn run(c: CursorView, http_only: bool, rs: Seq<(u16, Location)>) -> (
    Seq<Seq<char>>,
    Outcome,
)
    decreases rs.len(),
{
    match attempted(c, http_only) {
        None => (seq![], Outcome::Failed(ErrorKind::TooManyRedirects)),
        Some(c1) => if rs.len() == 0 {
            (seq![c1.0], Outcome::Follow)
        } else {
            let (o, c2) = responded(c1, rs[0].0, rs[0].1);
            if o == Outcome::Follow {
                let (ts, end) = run(c2, http_only, rs.drop_first());
                (seq![c1.0] + ts, end)
            } else {
                (seq![c1.0], o)
            }
        },
    }
}

/// A whole send of a body of `body_len` bytes to `target`.
pub open spec fn send_run(
    target: Seq<char>,
    http_only: bool,
    max_request_size: u32,
    body_len: nat,
    rs: Seq<(u16, Location)>,
) -> (Seq<Seq<char>>, Outcome) {
    if body_len > max_request_size {
        (seq![], Outcome::Failed(ErrorKind::RequestTooLarge))
    } else {
        run((target, 0), http_only, rs)
    }
}

/// A body longer than the request limit fails with `RequestTooLarge` before
/// any attempt is made.
pub proof fn lemma_oversized_body_sends_nothing(
    target: Seq<char>,
    http_only: bool,
    max_request_size: u32,
    body_len: nat,
    rs: Seq<(u16, Location)>,
)
    requires
        body_len > max_request_size,
    ensures
        send_run(target, http_only, max_request_size, body_len, rs) == (
            Seq::<Seq<char>>::empty(),
            Outcome::Failed(ErrorKind::RequestTooLarge),
        ),
{
}

/// Whether each response of `rs` is a redirection with a readable location.
pub open spec fn all_followable(rs: Seq<(u16, Location)>) -> bool {
    forall|i: int| 0 <= i < rs.len() ==> is_redirection(#[trigger] rs[i].0) && rs[i].1 is Text
}

proof fn lemma_followed_until_bound(c: CursorView, http_only: bool, rs: Seq<(u16, Location)>)
    requires
        c.1 <= MAX_REDIRECTS,
        rs.len() >= MAX_REDIRECTS - c.1,
        all_followable(rs),
    ensures
        run(c, http_only, rs).0.len() == MAX_REDIRECTS - c.1,
        run(c, http_only, rs).1 == Outcome::Failed(ErrorKind::TooManyRedirects),
    decreases MAX_REDIRECTS - c.1,
{
    if c.1 < MAX_REDIRECTS {
        let c1 = attempted(c, http_only).unwrap();
        assert(is_redirection(rs[0].0));
        let c2 = responded(c1, rs[0].0, rs[0].1).1;
        let rest = rs.drop_first();
        assert forall|i: int| 0 <= i < rest.len() implies is_redirection(#[trigger] rest[i].0)
            && rest[i].1 is Text by {
            assert(rest[i] == rs[i + 1]);
            assert(is_redirection(rs[i + 1].0));
        }
        lemma_followed_until_bound(c2, http_only, rest);
    }
}

/// However many redirections with a location come back, one send makes
/// exactly the bound of attempts and then fails with `TooManyRedirects`.
pub proof fn lemma_redirects_are_bounded(target: Seq<char>, http_only: bool, rs: Seq<(u16, Location)>)
    requires
        rs.len() >= MAX_REDIRECTS,
        all_followable(rs),
    ensures
        run((target, 0), http_only, rs).0.len() == MAX_REDIRECTS,
        run((target, 0), http_only, rs).1 == Outcome::Failed(ErrorKind::TooManyRedirects),
{
    lemma_followed_until_bound((target, 0), http_only, rs);
}

/// A redirection without a location is not followed: the send ends after
/// that attempt with `RequestFailure` carrying its status.
pub proof fn lemma_redirect_without_location_fails(
    c: CursorView,
    http_only: bool,
    status: u16,
    rest: Seq<(u16, Location)>,
)
    requires
        c.1 < MAX_REDIRECTS,
        is_redirection(status),
    ensures
        run(c, http_only, seq![(status, Location::Absent)] + rest) == (
            seq![downgraded(c.0, http_only)],
            Outcome::Failed(ErrorKind::RequestFailure(status)),
        ),
{
    let rs = seq![(status, Location::Absent)] + rest;
    assert(rs[0] == (status, Location::Absent));
}

/// With `http_only`, an `https` target redirected to another `https` URL is
/// requested over `http` both times.
pub proof fn lemma_http_only_downgrades_every_hop(
    a: Seq<char>,
    b: Seq<char>,
    first: u16,
    location: Location,
    second: u16,
    last_location: Location,
)
    requires
        is_redirection(first),
        location matches Location::Text(t) && t@ == HTTPS_PREFIX@ + b,
        is_success(second),
    ensures
        run(
            (HTTPS_PREFIX@ + a, 0),
            true,
            seq![(first, location), (second, last_location)],
        ) == (seq![HTTP_PREFIX@ + a, HTTP_PREFIX@ + b], Outcome::Success),
{
    let rs = seq![(first, location), (second, last_location)];
    let https_a = HTTPS_PREFIX@ + a;
    let https_b = HTTPS_PREFIX@ + b;
    assert(HTTPS_PREFIX@.is_prefix_of(https_a));
    assert(https_a.subrange(HTTPS_PREFIX@.len() as int, https_a.len() as int) =~= a);
    assert(HTTPS_PREFIX@.is_prefix_of(https_b));
    assert(https_b.subrange(HTTPS_PREFIX@.len() as int, https_b.len() as int) =~= b);
    let rest = rs.drop_first();
    assert(rest =~= seq![(second, last_location)]);
    assert(rest.drop_first() =~= Seq::<(u16, Location)>::empty());
    let c2 = (https_b, 1nat);
    assert(run(c2, true, rest) == (seq![HTTP_PREFIX@ + b], Outcome::Success));
    assert(seq![HTTP_PREFIX@ + a] + seq![HTTP_PREFIX@ + b] =~= seq![HTTP_PREFIX@ + a, HTTP_PREFIX@ + b]);
}

/// The state of one send: where the next attempt goes and how many were made.
#[derive(Debug)]
pub struct RedirectCursor {
    /// Target of the next attempt.
    pub target: String,
    /// Attempts made so far.
    pub attempts: u32,
}

impl View for RedirectCursor {
    type V = CursorView;

    open spec fn view(&self) -> CursorView {
        (self.target@, self.attempts as nat)
    }
}

impl RedirectCursor {
    /// Starts the next attempt: `Ok` with its target, or `TooManyRedirects`
    /// once the bound of attempts is reached.
    pub fn next_attempt(&mut self, http_only: bool) -> (r: Result<String, Error>)
        requires
            old(self).attempts <= MAX_REDIRECTS,
        ensures
            final(self).attempts <= MAX_REDIRECTS,
            match attempted(old(self)@, http_only) {
                None => r matches Err(Error::TooManyRedirects) && final(self)@ == old(self)@,
                Some(c) => r matches Ok(t) && t@ == c.0 && final(self)@ == c,
            },
    {
        if self.attempts >= MAX_REDIRECTS {
            return Err(Error::TooManyRedirects);
        }
        if http_only && has_prefix(self.target.as_str(), HTTPS_PREFIX) {
            let rest = suffix_from(self.target.as_str(), HTTPS_PREFIX.unicode_len());
            self.target = joined(HTTP_PREFIX, rest.as_str());
        }
        self.attempts = self.attempts + 1;
        Ok(self.target.clone())
    }

    /// Takes in the response to the last attempt: a redirection with a
    /// location moves the target there; a success ends the send; anything
    /// else fails it.
    pub fn on_response(&mut self, status: u16, location: Location) -> (r: Action)
        ensures
            (r.outcome(), final(self)@) == responded(old(self)@, status, location),
            r matches Action::Fail(e) ==> match e {
                Error::Url(m) => location matches Location::Invalid(why) && m@
                    == "Invalid redirect URL: "@ + why@,
                Error::RequestFailure { status_code } => status_code == status,
                _ => false,
            },
    {
        let redirected = 300 <= status && status <= 399;
        if redirected {
            match location {
                Location::Text(t) => {
                    self.target = t;
                    return Action::Follow;
                },
                Location::Invalid(why) => {
                    return Action::Fail(Error::Url(joined("Invalid redirect URL: ", why.as_str())));
                },
                Location::Absent => {},
            }
        }
        if 200 <= status && status <= 299 {
            Action::Success
        } else {
            Action::Fail(Error::RequestFailure { status_code: status })
        }
    }
}

impl<S> HttpTransportClient<S> {
    /// Starts a send of `body`: `RequestTooLarge` where it is longer than the
    /// limit, else a cursor at the client's target with no attempt made.
    pub fn start_send(&self, body: &str) -> (r: Result<RedirectCursor, Error>)
        ensures
            body.len() > self.max_request_size ==> r matches Err(
                Error::RequestTooLarge,
            ),
            body.len() <= self.max_request_size ==> (r matches Ok(c) && c@ == (
                self.target@,
                0nat,
            )),
    {
        if body.len() > self.max_request_size as usize {
            return Err(Error::RequestTooLarge);
        }
        Ok(RedirectCursor { target: self.target.clone(), attempts: 0 })
    }
}

} // verus!
