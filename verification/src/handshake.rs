//! The handshakes that open a socket: on the client, connect the transport,
//! secure it with TLS where asked, then upgrade it to WebSocket; on the server,
//! take the connection the listener accepted, secure it where asked, then
//! accept the WebSocket upgrade.
//!
//! Each handshake is a state machine. The caller performs the step that the
//! machine hands out (connect, TLS, upgrade), reports the outcome as the next
//! event, and gets the next step, until the socket is open or the handshake
//! failed with the error of the layer that failed.

use vstd::prelude::*;

use crate::error::{ConnectError, ListenError, TlsConnectError, TlsListenError, WsError};

verus! {

/// Where a handshake stands.
#[derive(Debug, Clone, Copy, PartialEq, Eq)]
pub enum Phase {
    /// Nothing done yet.
    Start,
    /// Waiting for the transport connection.
    Transport,
    /// Waiting for the TLS handshake.
    Tls,
    /// Waiting for the WebSocket upgrade.
    Upgrade,
    /// The socket is open.
    Open,
    /// The handshake failed.
    Failed,
}

/// The outcome of the step that a handshake handed out.
#[derive(Debug)]
pub enum Event<E> {
    /// The handshake is started.
    Begin,
    /// The transport connection was made, or failed with the transport's error.
    Transport(Result<(), E>),
    /// The TLS handshake succeeded, or failed.
    Tls(Result<(), std::io::Error>),
    /// The WebSocket upgrade succeeded, or failed.
    Upgrade(Result<(), WsError>),
}

/// Why a handshake failed, by the layer that failed.
#[derive(Debug)]
pub enum Fault<E> {
    /// A TLS client was given no domain to authenticate the server against.
    NoDomain,
    Transport(E),
    Tls(std::io::Error),
    Upgrade(WsError),
}

/// What the caller of a handshake does next.
#[derive(Debug)]
pub enum Step<F> {
    /// Connect the transport.
    OpenTransport,
    /// Run the TLS handshake over the transport, for the domain given, if any.
    StartTls(Option<String>),
    /// Run the WebSocket upgrade over the connection.
    Upgrade,
    /// The socket is open.
    Open,
    /// The handshake failed with this error.
    Fail(F),
}

/// How far a phase is along a handshake.
pub open spec fn rank(phase: Phase) -> nat {
    match phase {
        Phase::Start => 0,
        Phase::Transport => 1,
        Phase::Tls => 2,
        Phase::Upgrade => 3,
        Phase::Open => 4,
        Phase::Failed => 4,
    }
}

/// The events that a handshake in the given phase is waiting for.
pub open spec fn expects<E>(phase: Phase, event: Event<E>) -> bool {
    match event {
        Event::Begin => phase == Phase::Start,
        Event::Transport(_) => phase == Phase::Transport,
        Event::Tls(_) => phase == Phase::Tls,
        Event::Upgrade(_) => phase == Phase::Upgrade,
    }
}

/// One move of a handshake, with or without TLS and with the domain it was
/// given: the phase it moves to and the step it hands out.
pub open spec fn transition<E>(tls: bool, domain: Option<String>, event: Event<E>) -> (Phase, Step<Fault<E>>) {
    match event {
        Event::Begin => if tls && domain is None {
            (Phase::Failed, Step::Fail(Fault::NoDomain))
        } else {
            (Phase::Transport, Step::OpenTransport)
        },
        Event::Transport(Err(e)) => (Phase::Failed, Step::Fail(Fault::Transport(e))),
        Event::Transport(Ok(_)) => if tls {
            (Phase::Tls, Step::StartTls(domain))
        } else {
            (Phase::Upgrade, Step::Upgrade)
        },
        Event::Tls(Err(e)) => (Phase::Failed, Step::Fail(Fault::Tls(e))),
        Event::Tls(Ok(_)) => (Phase::Upgrade, Step::Upgrade),
        Event::Upgrade(Err(e)) => (Phase::Failed, Step::Fail(Fault::Upgrade(e))),
        Event::Upgrade(Ok(_)) => (Phase::Open, Step::Open),
    }
}

/// The steps a handshake hands out from the given phase when every layer succeeds.
pub open spec fn plan<E>(tls: bool, domain: Option<String>, phase: Phase) -> Seq<Step<Fault<E>>>
    decreases 4 - rank(phase),
{
    match phase {
        Phase::Start => seq![Step::OpenTransport].add(plan(tls, domain, Phase::Transport)),
        Phase::Transport => if tls {
            seq![Step::StartTls(domain)].add(plan(tls, domain, Phase::Tls))
        } else {
            seq![Step::Upgrade].add(plan(tls, domain, Phase::Upgrade))
        },
        Phase::Tls => seq![Step::Upgrade].add(plan(tls, domain, Phase::Upgrade)),
        Phase::Upgrade => seq![Step::Open],
        Phase::Open => Seq::empty(),
        Phase::Failed => Seq::empty(),
    }
}

/// Whether each event of a sequence is one the handshake waits for when it comes.
pub open spec fn valid_run<E>(tls: bool, domain: Option<String>, phase: Phase, events: Seq<Event<E>>) -> bool
    decreases events.len(),
{
    if events.len() == 0 {
        true
    } else {
        &&& expects(phase, events[0])
        &&& valid_run(tls, domain, transition(tls, domain, events[0]).0, events.drop_first())
    }
}

/// The phase a handshake reaches through a sequence of events, and the steps it hands out.
pub open spec fn run<E>(tls: bool, domain: Option<String>, phase: Phase, events: Seq<Event<E>>) -> (Phase, Seq<Step<Fault<E>>>)
    decreases events.len(),
{
    if events.len() == 0 {
        (phase, Seq::empty())
    } else {
        let (next, step) = transition(tls, domain, events[0]);
        let (last, steps) = run(tls, domain, next, events.drop_first());
        (last, seq![step].add(steps))
    }
}

/// The events of a handshake in which every layer succeeds.
pub open spec fn success<E>(tls: bool) -> Seq<Event<E>> {
    if tls {
        seq![Event::Begin, Event::Transport(Ok(())), Event::Tls(Ok(())), Event::Upgrade(Ok(()))]
    } else {
        seq![Event::Begin, Event::Transport(Ok(())), Event::Upgrade(Ok(()))]
    }
}

/// Every move of a handshake takes it further along: no phase is visited
/// twice, so a handshake ends after at most four moves.
pub proof fn lemma_handshake_advances<E>(tls: bool, domain: Option<String>, phase: Phase, event: Event<E>)
    requires
        expects(phase, event),
    ensures
        rank(transition(tls, domain, event).0) > rank(phase),
{
}

proof fn lemma_plan_step<E>(tls: bool, domain: Option<String>, phase: Phase, event: Event<E>)
    requires
        expects(phase, event),
        !(transition(tls, domain, event).1 is Fail),
    ensures
        plan::<E>(tls, domain, phase) == seq![transition(tls, domain, event).1].add(
            plan::<E>(tls, domain, transition(tls, domain, event).0),
        ),
{
    reveal_with_fuel(plan, 2);
}

/// A handshake takes its layers in order and skips none: whatever the
/// outcomes, the steps it hands out are the first steps of its plan, and
/// where a layer fails, one failure follows them and the handshake is over.
pub proof fn lemma_handshake_follows_plan<E>(
    tls: bool,
    domain: Option<String>,
    phase: Phase,
    events: Seq<Event<E>>,
)
    requires
        valid_run(tls, domain, phase, events),
    ensures
        ({
            let (last, steps) = run(tls, domain, phase, events);
            let p = plan::<E>(tls, domain, phase);
            ||| steps.len() <= p.len() && steps == p.take(steps.len() as int)
            ||| {
                &&& last == Phase::Failed
                &&& steps.len() >= 1
                &&& steps.last() is Fail
                &&& steps.len() - 1 <= p.len()
                &&& steps.drop_last() == p.take(steps.len() - 1)
            }
        }),
    decreases events.len(),
{
    if events.len() > 0 {
        let (next, step) = transition(tls, domain, events[0]);
        let rest = events.drop_first();
        let (last, tail) = run(tls, domain, next, rest);
        let steps = run(tls, domain, phase, events).1;
        assert(steps == seq![step].add(tail));
        if step is Fail {
            assert(next == Phase::Failed);
            assert(valid_run(tls, domain, next, rest));
            if rest.len() > 0 {
                assert(expects(next, rest[0]));
                assert(false);
            }
            assert(tail =~= Seq::<Step<Fault<E>>>::empty());
            assert(steps.drop_last() =~= Seq::<Step<Fault<E>>>::empty());
        } else {
            lemma_plan_step::<E>(tls, domain, phase, events[0]);
            lemma_handshake_follows_plan(tls, domain, next, rest);
            let p = plan::<E>(tls, domain, phase);
            let q = plan::<E>(tls, domain, next);
            assert(p == seq![step].add(q));
            if tail.len() <= q.len() && tail == q.take(tail.len() as int) {
                assert(steps =~= p.take(steps.len() as int));
            } else {
                assert(steps.drop_last() =~= seq![step].add(tail.drop_last()));
                assert(p.take(steps.len() - 1) =~= seq![step].add(q.take(tail.len() - 1)));
            }
        }
    }
}

/// A handshake whose every layer succeeds (a TLS client with a domain to
/// authenticate against) opens the socket after exactly the steps of its plan.
pub proof fn lemma_handshake_succeeds<E>(tls: bool, domain: Option<String>)
    requires
        tls ==> domain is Some,
    ensures
        valid_run(tls, domain, Phase::Start, success::<E>(tls)),
        run(tls, domain, Phase::Start, success::<E>(tls)) == (
            Phase::Open,
            plan::<E>(tls, domain, Phase::Start),
        ),
{
    let s = success::<E>(tls);
    reveal_with_fuel(plan, 5);
    reveal_with_fuel(run, 5);
    reveal_with_fuel(valid_run, 5);
    if tls {
        assert(s.drop_first() =~= seq![Event::<E>::Transport(Ok(())), Event::<E>::Tls(Ok(())), Event::<E>::Upgrade(Ok(()))]);
        assert(s.drop_first().drop_first() =~= seq![Event::<E>::Tls(Ok(())), Event::<E>::Upgrade(Ok(()))]);
        assert(s.drop_first().drop_first().drop_first() =~= seq![Event::<E>::Upgrade(Ok(()))]);
        assert(s.drop_first().drop_first().drop_first().drop_first() =~= Seq::<Event<E>>::empty());
    } else {
        assert(s.drop_first() =~= seq![Event::<E>::Transport(Ok(())), Event::<E>::Upgrade(Ok(()))]);
        assert(s.drop_first().drop_first() =~= seq![Event::<E>::Upgrade(Ok(()))]);
        assert(s.drop_first().drop_first().drop_first() =~= Seq::<Event<E>>::empty());
    }
    let r = run(tls, domain, Phase::Start, s);
    assert(r.1 =~= plan::<E>(tls, domain, Phase::Start));
}

/// A TLS client without a domain fails at once, before any transport is
/// connected; with a domain, or without TLS, a client first connects the transport.
pub proof fn lemma_no_domain_fails_first<E>(tls: bool, domain: Option<String>)
    ensures
        run(tls, domain, Phase::Start, seq![Event::<E>::Begin]).1 == if tls && domain is None {
            seq![Step::Fail(Fault::<E>::NoDomain)]
        } else {
            seq![Step::<Fault<E>>::OpenTransport]
        },
{
    let events = seq![Event::<E>::Begin];
    assert(events.drop_first() =~= Seq::<Event<E>>::empty());
    reveal_with_fuel(run, 2);
    let r = run(tls, domain, Phase::Start, events);
    if tls && domain is None {
        assert(r.1 =~= seq![Step::Fail(Fault::<E>::NoDomain)]);
    } else {
        assert(r.1 =~= seq![Step::<Fault<E>>::OpenTransport]);
    }
}

/// A step with its failure turned into the error of a particular handshake.
pub open spec fn lift<E, F>(step: Step<Fault<E>>, error: spec_fn(Fault<E>) -> F) -> Step<F> {
    match step {
        Step::OpenTransport => Step::OpenTransport,
        Step::StartTls(domain) => Step::StartTls(domain),
        Step::Upgrade => Step::Upgrade,
        Step::Open => Step::Open,
        Step::Fail(fault) => Step::Fail(error(fault)),
    }
}

/// The error of a failed plain client connection.
pub open spec fn connect_error_of<E>(fault: Fault<E>) -> ConnectError<E> {
    match fault {
        Fault::Transport(e) => ConnectError::Connect(e),
        Fault::Upgrade(e) => ConnectError::Ws(e),
        _ => vstd::pervasive::arbitrary(),
    }
}

/// The error of a failed TLS client connection.
pub open spec fn tls_connect_error_of<E>(fault: Fault<E>) -> TlsConnectError<E> {
    match fault {
        Fault::NoDomain => TlsConnectError::NoDomain,
        Fault::Transport(e) => TlsConnectError::Connect(ConnectError::Connect(e)),
        Fault::Tls(e) => TlsConnectError::Tls(e),
        Fault::Upgrade(e) => TlsConnectError::Connect(ConnectError::Ws(e)),
    }
}

/// The error of a failed plain accepted connection.
pub open spec fn listen_error_of<E>(fault: Fault<E>) -> ListenError<E> {
    match fault {
        Fault::Transport(e) => ListenError::Listen(e),
        Fault::Upgrade(e) => ListenError::Ws(e),
        _ => vstd::pervasive::arbitrary(),
    }
}

/// The error of a failed TLS accepted connection.
pub open spec fn tls_listen_error_of<E>(fault: Fault<E>) -> TlsListenError<E> {
    match fault {
        Fault::Transport(e) => TlsListenError::Listen(ListenError::Listen(e)),
        Fault::Tls(e) => TlsListenError::Tls(e),
        Fault::Upgrade(e) => TlsListenError::Listen(ListenError::Ws(e)),
        _ => vstd::pervasive::arbitrary(),
    }
}

/// A plain handshake never fails for want of a domain or in a TLS layer:
/// each of its failures is one that its error type can hold.
pub proof fn lemma_plain_faults<E>(domain: Option<String>, event: Event<E>)
    requires
        !(event is Tls),
    ensures
        transition(false, domain, event).1 matches Step::Fail(f) ==> (f is Transport || f is Upgrade),
{
}

/// The step a plain client connection hands out on an event.
pub open spec fn client_step<E>(event: Event<E>) -> Step<ConnectError<E>> {
    lift(transition(false, None, event).1, |f: Fault<E>| connect_error_of(f))
}

/// The step a TLS client connection for the given domain hands out on an event.
pub open spec fn tls_client_step<E>(domain: Option<String>, event: Event<E>) -> Step<TlsConnectError<E>> {
    lift(transition(true, domain, event).1, |f: Fault<E>| tls_connect_error_of(f))
}

/// The step a plain accepted connection hands out on an event.
pub open spec fn server_step<E>(event: Event<E>) -> Step<ListenError<E>> {
    lift(transition(false, None, event).1, |f: Fault<E>| listen_error_of(f))
}

/// The step a TLS accepted connection hands out on an event.
pub open spec fn tls_server_step<E>(event: Event<E>) -> Step<TlsListenError<E>> {
    lift(transition(true, None, event).1, |f: Fault<E>| tls_listen_error_of(f))
}

/// Each failure of a handshake is the failure of the layer whose outcome was
/// reported, carrying that layer's own error, whatever the TLS setting and the
/// domain; and it leaves the handshake failed.
pub proof fn lemma_failure_names_its_layer<E>(
    tls: bool,
    domain: Option<String>,
    e: E,
    io: std::io::Error,
    w: WsError,
)
    ensures
        transition(tls, domain, Event::Transport(Err(e))) == (Phase::Failed, Step::Fail(Fault::Transport(e))),
        transition(tls, domain, Event::<E>::Tls(Err(io))) == (Phase::Failed, Step::Fail(Fault::<E>::Tls(io))),
        transition(tls, domain, Event::<E>::Upgrade(Err(w))) == (Phase::Failed, Step::Fail(Fault::<E>::Upgrade(w))),
{
}

/// Each layer that succeeds moves a handshake on to the next layer: after it
/// begins (with a domain, or without TLS) it waits for the transport; after the
/// transport it waits for TLS if it has TLS and for the upgrade if not; after
/// TLS it waits for the upgrade; after the upgrade it is open.
pub proof fn lemma_success_moves_to_next_layer<E>(tls: bool, domain: Option<String>)
    ensures
        (!tls || domain is Some) ==> transition(tls, domain, Event::<E>::Begin) == (Phase::Transport, Step::<Fault<E>>::OpenTransport),
        tls ==> transition(tls, domain, Event::<E>::Transport(Ok(()))) == (Phase::Tls, Step::<Fault<E>>::StartTls(domain)),
        !tls ==> transition(tls, domain, Event::<E>::Transport(Ok(()))) == (Phase::Upgrade, Step::<Fault<E>>::Upgrade),
        transition(tls, domain, Event::<E>::Tls(Ok(()))) == (Phase::Upgrade, Step::<Fault<E>>::Upgrade),
        transition(tls, domain, Event::<E>::Upgrade(Ok(()))) == (Phase::Open, Step::<Fault<E>>::Open),
{
}

/// A handshake fails for want of a domain only when it is a TLS handshake that
/// was given none, and only when it begins.
pub proof fn lemma_no_domain_only_at_begin<E>(tls: bool, domain: Option<String>, event: Event<E>)
    ensures
        transition(tls, domain, event).1 matches Step::Fail(Fault::NoDomain) <==> (
            event is Begin && tls && domain is None
        ),
{
}

/// Turning failures into a handshake's error type leaves every other step as it
/// is (the domain handed to TLS included), and turns a failure into the error of
/// that very failure.
pub proof fn lemma_lift_keeps_steps<E, F>(
    domain: Option<String>,
    fault: Fault<E>,
    error: spec_fn(Fault<E>) -> F,
)
    ensures
        lift(Step::<Fault<E>>::OpenTransport, error) == Step::<F>::OpenTransport,
        lift(Step::<Fault<E>>::StartTls(domain), error) == Step::<F>::StartTls(domain),
        lift(Step::<Fault<E>>::Upgrade, error) == Step::<F>::Upgrade,
        lift(Step::<Fault<E>>::Open, error) == Step::<F>::Open,
        lift(Step::Fail(fault), error) == Step::Fail(error(fault)),
{
}

/// What a TLS client connection hands out, for any domain: it begins by
/// connecting the transport if it has a domain and fails with `NoDomain` if it
/// has none; a transport failure is a connect error carrying the transport's
/// error; once connected it runs TLS for exactly its domain; a TLS failure is a
/// TLS error carrying the TLS handshake's error; once secured it upgrades; an
/// upgrade failure is a connect error carrying the WebSocket error; once
/// upgraded it is open. `NoDomain` comes from nothing but a missing domain at
/// the beginning.
pub proof fn lemma_tls_client_steps<E>(
    domain: Option<String>,
    e: E,
    io: std::io::Error,
    w: WsError,
    event: Event<E>,
)
    ensures
        domain is None ==> tls_client_step(domain, Event::<E>::Begin) == Step::<TlsConnectError<E>>::Fail(TlsConnectError::NoDomain),
        domain is Some ==> tls_client_step(domain, Event::<E>::Begin) == Step::<TlsConnectError<E>>::OpenTransport,
        tls_client_step(domain, Event::Transport(Err(e))) == Step::Fail(TlsConnectError::Connect(ConnectError::Connect(e))),
        tls_client_step(domain, Event::<E>::Transport(Ok(()))) == Step::<TlsConnectError<E>>::StartTls(domain),
        tls_client_step(domain, Event::<E>::Tls(Err(io))) == Step::Fail(TlsConnectError::<E>::Tls(io)),
        tls_client_step(domain, Event::<E>::Tls(Ok(()))) == Step::<TlsConnectError<E>>::Upgrade,
        tls_client_step(domain, Event::<E>::Upgrade(Err(w))) == Step::Fail(TlsConnectError::<E>::Connect(ConnectError::Ws(w))),
        tls_client_step(domain, Event::<E>::Upgrade(Ok(()))) == Step::<TlsConnectError<E>>::Open,
        tls_client_step(domain, event) matches Step::Fail(TlsConnectError::NoDomain) ==> (event is Begin && domain is None),
{
}

/// What a plain client connection hands out: it begins by connecting the
/// transport; a transport failure is a connect error carrying the transport's
/// error; once connected it upgrades; an upgrade failure is a WebSocket error
/// carrying the upgrade's error; once upgraded it is open.
pub proof fn lemma_client_steps<E>(e: E, w: WsError)
    ensures
        client_step(Event::<E>::Begin) == Step::<ConnectError<E>>::OpenTransport,
        client_step(Event::Transport(Err(e))) == Step::Fail(ConnectError::Connect(e)),
        client_step(Event::<E>::Transport(Ok(()))) == Step::<ConnectError<E>>::Upgrade,
        client_step(Event::<E>::Upgrade(Err(w))) == Step::Fail(ConnectError::<E>::Ws(w)),
        client_step(Event::<E>::Upgrade(Ok(()))) == Step::<ConnectError<E>>::Open,
{
}

/// What a plain accepted connection hands out: a listener failure is a listen
/// error carrying the listener's error; an accepted connection is upgraded; an
/// upgrade failure is a WebSocket error carrying the upgrade's error; once
/// upgraded it is open.
pub proof fn lemma_server_steps<E>(e: E, w: WsError)
    ensures
        server_step(Event::Transport(Err(e))) == Step::Fail(ListenError::Listen(e)),
        server_step(Event::<E>::Transport(Ok(()))) == Step::<ListenError<E>>::Upgrade,
        server_step(Event::<E>::Upgrade(Err(w))) == Step::Fail(ListenError::<E>::Ws(w)),
        server_step(Event::<E>::Upgrade(Ok(()))) == Step::<ListenError<E>>::Open,
{
}

/// What a TLS accepted connection hands out: a listener failure is a listen
/// error carrying the listener's error; an accepted connection is secured with
/// no domain; a TLS failure is a TLS error carrying the TLS handshake's error;
/// once secured it upgrades; an upgrade failure is a listen error carrying the
/// WebSocket error; once upgraded it is open.
pub proof fn lemma_tls_server_steps<E>(e: E, io: std::io::Error, w: WsError)
    ensures
        tls_server_step(Event::Transport(Err(e))) == Step::Fail(TlsListenError::Listen(ListenError::Listen(e))),
        tls_server_step(Event::<E>::Transport(Ok(()))) == Step::<TlsListenError<E>>::StartTls(None),
        tls_server_step(Event::<E>::Tls(Err(io))) == Step::Fail(TlsListenError::<E>::Tls(io)),
        tls_server_step(Event::<E>::Tls(Ok(()))) == Step::<TlsListenError<E>>::Upgrade,
        tls_server_step(Event::<E>::Upgrade(Err(w))) == Step::Fail(TlsListenError::<E>::Listen(ListenError::Ws(w))),
        tls_server_step(Event::<E>::Upgrade(Ok(()))) == Step::<TlsListenError<E>>::Open,
{
}

/// The handshake of a plain client connection.
pub struct ClientHandshake {
    phase: Phase,
}

impl View for ClientHandshake {
    type V = Phase;

    closed spec fn view(&self) -> Phase {
        self.phase
    }
}

impl ClientHandshake {
    #[verifier::type_invariant]
    spec fn inv(self) -> bool {
        self.phase != Phase::Tls
    }

    /// A handshake that has not started.
    pub fn new() -> (h: Self)
        ensures
            h@ == Phase::Start,
    {
        ClientHandshake { phase: Phase::Start }
    }

    /// Takes the outcome of the last step and hands out the next one.
    pub fn step<E>(&mut self, event: Event<E>) -> (s: Step<ConnectError<E>>)
        requires
            expects(old(self)@, event),
        ensures
            final(self)@ == transition(false, None, event).0,
            s == lift(transition(false, None, event).1, |f: Fault<E>| connect_error_of(f)),
            s == client_step(event),
    {
        proof {
            use_type_invariant(&*self);
        }
        match event {
            Event::Begin => {
                self.phase = Phase::Transport;
                Step::OpenTransport
            },
            Event::Transport(Ok(())) => {
                self.phase = Phase::Upgrade;
                Step::Upgrade
            },
            Event::Transport(Err(e)) => {
                self.phase = Phase::Failed;
                Step::Fail(ConnectError::Connect(e))
            },
            Event::Tls(_) => {
                proof {
                    assert(false);
                }
                Step::Open
            },
            Event::Upgrade(Ok(())) => {
                self.phase = Phase::Open;
                Step::Open
            },
            Event::Upgrade(Err(e)) => {
                self.phase = Phase::Failed;
                Step::Fail(ConnectError::Ws(e))
            },
        }
    }
}

/// The handshake of a TLS client connection.
pub struct TlsClientHandshake {
    domain: Option<String>,
    phase: Phase,
}

impl View for TlsClientHandshake {
    /// The phase, and the domain the server is authenticated against.
    type V = (Phase, Option<String>);

    closed spec fn view(&self) -> (Phase, Option<String>) {
        (self.phase, self.domain)
    }
}

impl TlsClientHandshake {
    /// A handshake that has not started, for the domain of the URL, if it names one.
    pub fn new(domain: Option<String>) -> (h: Self)
        ensures
            h@ == (Phase::Start, domain),
    {
        TlsClientHandshake { domain, phase: Phase::Start }
    }

    /// Takes the outcome of the last step and hands out the next one.
    pub fn step<E>(&mut self, event: Event<E>) -> (s: Step<TlsConnectError<E>>)
        requires
            expects(old(self)@.0, event),
        ensures
            final(self)@ == (transition(true, old(self)@.1, event).0, old(self)@.1),
            s == lift(
                transition(true, old(self)@.1, event).1,
                |f: Fault<E>| tls_connect_error_of(f),
            ),
            s == tls_client_step(old(self)@.1, event),
    {
        match event {
            Event::Begin => {
                if self.domain.is_none() {
                    self.phase = Phase::Failed;
                    Step::Fail(TlsConnectError::NoDomain)
                } else {
                    self.phase = Phase::Transport;
                    Step::OpenTransport
                }
            },
            Event::Transport(Ok(())) => {
                self.phase = Phase::Tls;
                let domain = match &self.domain {
                    Some(d) => Some(d.clone()),
                    None => None,
                };
                Step::StartTls(domain)
            },
            Event::Transport(Err(e)) => {
                self.phase = Phase::Failed;
                Step::Fail(TlsConnectError::Connect(ConnectError::Connect(e)))
            },
            Event::Tls(Ok(())) => {
                self.phase = Phase::Upgrade;
                Step::Upgrade
            },
            Event::Tls(Err(e)) => {
                self.phase = Phase::Failed;
                Step::Fail(TlsConnectError::Tls(e))
            },
            Event::Upgrade(Ok(())) => {
                self.phase = Phase::Open;
                Step::Open
            },
            Event::Upgrade(Err(e)) => {
                self.phase = Phase::Failed;
                Step::Fail(TlsConnectError::Connect(ConnectError::Ws(e)))
            },
        }
    }
}

/// The handshake of a plain connection that a listener accepted.
pub struct ServerHandshake {
    phase: Phase,
}

impl View for ServerHandshake {
    type V = Phase;

    closed spec fn view(&self) -> Phase {
        self.phase
    }
}

impl ServerHandshake {
    #[verifier::type_invariant]
    spec fn inv(self) -> bool {
        self.phase != Phase::Start && self.phase != Phase::Tls
    }

    /// A handshake waiting for what the listener accepted: a connection or an error.
    pub fn new() -> (h: Self)
        ensures
            h@ == Phase::Transport,
    {
        ServerHandshake { phase: Phase::Transport }
    }

    /// Takes the outcome of the last step and hands out the next one.
    pub fn step<E>(&mut self, event: Event<E>) -> (s: Step<ListenError<E>>)
        requires
            expects(old(self)@, event),
        ensures
            final(self)@ == transition(false, None, event).0,
            s == lift(transition(false, None, event).1, |f: Fault<E>| listen_error_of(f)),
            s == server_step(event),
    {
        proof {
            use_type_invariant(&*self);
        }
        match event {
            Event::Transport(Ok(())) => {
                self.phase = Phase::Upgrade;
                Step::Upgrade
            },
            Event::Transport(Err(e)) => {
                self.phase = Phase::Failed;
                Step::Fail(ListenError::Listen(e))
            },
            Event::Upgrade(Ok(())) => {
                self.phase = Phase::Open;
                Step::Open
            },
            Event::Upgrade(Err(e)) => {
                self.phase = Phase::Failed;
                Step::Fail(ListenError::Ws(e))
            },
            Event::Begin | Event::Tls(_) => {
                proof {
                    assert(false);
                }
                Step::Open
            },
        }
    }
}

/// The handshake of a TLS connection that a listener accepted.
pub struct TlsServerHandshake {
    phase: Phase,
}

impl View for TlsServerHandshake {
    type V = Phase;

    closed spec fn view(&self) -> Phase {
        self.phase
    }
}

impl TlsServerHandshake {
    #[verifier::type_invariant]
    spec fn inv(self) -> bool {
        self.phase != Phase::Start
    }

    /// A handshake waiting for what the listener accepted: a connection or an error.
    pub fn new() -> (h: Self)
        ensures
            h@ == Phase::Transport,
    {
        TlsServerHandshake { phase: Phase::Transport }
    }

    /// Takes the outcome of the last step and hands out the next one.
    pub fn step<E>(&mut self, event: Event<E>) -> (s: Step<TlsListenError<E>>)
        requires
            expects(old(self)@, event),
        ensures
            final(self)@ == transition(true, None, event).0,
            s == lift(transition(true, None, event).1, |f: Fault<E>| tls_listen_error_of(f)),
            s == tls_server_step(event),
    {
        proof {
            use_type_invariant(&*self);
        }
        match event {
            Event::Transport(Ok(())) => {
                self.phase = Phase::Tls;
                Step::StartTls(None)
            },
            Event::Transport(Err(e)) => {
                self.phase = Phase::Failed;
                Step::Fail(TlsListenError::Listen(ListenError::Listen(e)))
            },
            Event::Tls(Ok(())) => {
                self.phase = Phase::Upgrade;
                Step::Upgrade
            },
            Event::Tls(Err(e)) => {
                self.phase = Phase::Failed;
                Step::Fail(TlsListenError::Tls(e))
            },
            Event::Upgrade(Ok(())) => {
                self.phase = Phase::Open;
                Step::Open
            },
            Event::Upgrade(Err(e)) => {
                self.phase = Phase::Failed;
                Step::Fail(TlsListenError::Listen(ListenError::Ws(e)))
            },
            Event::Begin => {
                proof {
                    assert(false);
                }
                Step::Open
            },
        }
    }
}

} // verus!
