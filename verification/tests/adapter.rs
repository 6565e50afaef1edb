use libslirp::mio::{delay_until, ns_from_parts};
use libslirp::{AdapterError, Channel, Engine, MioHandler, PollEvents, Reactor, SOCKET};

struct MockChannel {
    inbound: Vec<Vec<u8>>,
    sent: Vec<Vec<u8>>,
    guest_errors: Vec<String>,
}

impl MockChannel {
    fn new() -> MockChannel {
        MockChannel { inbound: Vec::new(), sent: Vec::new(), guest_errors: Vec::new() }
    }
}

impl Channel for MockChannel {
    fn recv_frame(&mut self) -> Result<Vec<u8>, AdapterError> {
        if self.inbound.is_empty() {
            Err(AdapterError::Transport)
        } else {
            Ok(self.inbound.remove(0))
        }
    }

    fn send_frame(&mut self, buf: &[u8]) -> Result<usize, AdapterError> {
        self.sent.push(buf.to_vec());
        Ok(buf.len())
    }

    fn report_guest_error(&mut self, msg: &str) {
        self.guest_errors.push(msg.to_string());
    }
}

#[derive(Default)]
struct ReactorLog {
    channel_registered: bool,
    registered_fds: Vec<(i32, usize, u64)>,
    deregistered_fds: Vec<i32>,
    live_timers: Vec<usize>,
    delays: Vec<(usize, u64)>,
}

struct MockReactor {
    log: std::rc::Rc<std::cell::RefCell<ReactorLog>>,
}

impl MockReactor {
    fn new() -> (MockReactor, std::rc::Rc<std::cell::RefCell<ReactorLog>>) {
        let log = std::rc::Rc::new(std::cell::RefCell::new(ReactorLog::default()));
        (MockReactor { log: log.clone() }, log)
    }
}

impl Reactor for MockReactor {
    fn register_channel(&mut self) -> Result<(), AdapterError> {
        self.log.borrow_mut().channel_registered = true;
        Ok(())
    }

    fn register_fd(&mut self, fd: i32, token: usize, ready_bits: u64) -> Result<(), AdapterError> {
        self.log.borrow_mut().registered_fds.push((fd, token, ready_bits));
        Ok(())
    }

    fn deregister_fd(&mut self, fd: i32) -> Result<(), AdapterError> {
        self.log.borrow_mut().deregistered_fds.push(fd);
        Ok(())
    }

    fn register_timer(&mut self, token: usize) -> Result<(), AdapterError> {
        self.log.borrow_mut().live_timers.push(token);
        Ok(())
    }

    fn set_timer(&mut self, token: usize, delay_ns: u64) {
        self.log.borrow_mut().delays.push((token, delay_ns));
    }

    fn deregister_timer(&mut self, token: usize) -> Result<(), AdapterError> {
        self.log.borrow_mut().live_timers.retain(|t| *t != token);
        Ok(())
    }
}

/// A scripted engine: records every frame and timer fire it sees, requests
/// the scripted descriptor interests once, collects observed readiness for
/// the tokens it holds, and returns the scripted timeout.
struct TestEngine {
    inputs: Vec<Vec<u8>>,
    fired: Vec<usize>,
    fill_requests: Vec<(i32, PollEvents)>,
    fd_tokens: Vec<usize>,
    observed: Vec<(usize, PollEvents)>,
    timeout_ms: u32,
}

impl TestEngine {
    fn new() -> TestEngine {
        TestEngine {
            inputs: Vec::new(),
            fired: Vec::new(),
            fill_requests: Vec::new(),
            fd_tokens: Vec::new(),
            observed: Vec::new(),
            timeout_ms: 0,
        }
    }
}

impl Engine<MockChannel, MockReactor> for TestEngine {
    fn input(&mut self, _adapter: &mut MioHandler<MockChannel, MockReactor>, frame: &[u8]) {
        self.inputs.push(frame.to_vec());
    }

    fn timer_fired(&mut self, _adapter: &mut MioHandler<MockChannel, MockReactor>, token: usize) {
        self.fired.push(token);
    }

    fn poll_completed(&mut self, adapter: &mut MioHandler<MockChannel, MockReactor>) {
        let tokens = self.fd_tokens.clone();
        for tok in tokens {
            if let Ok(mask) = adapter.take_revents(tok) {
                self.observed.push((tok, mask));
            }
        }
    }

    fn fill_interests(&mut self, adapter: &mut MioHandler<MockChannel, MockReactor>) -> u32 {
        let requests = std::mem::take(&mut self.fill_requests);
        for (fd, mask) in requests {
            let tok = adapter.add_interest(fd, mask).expect("registration failed");
            self.fd_tokens.push(tok);
        }
        self.timeout_ms
    }
}

fn make_adapter() -> (
    MioHandler<MockChannel, MockReactor>,
    std::rc::Rc<std::cell::RefCell<ReactorLog>>,
) {
    let (reactor, log) = MockReactor::new();
    let adapter = MioHandler::new(MockChannel::new(), reactor).expect("adapter");
    assert!(log.borrow().channel_registered);
    (adapter, log)
}

// One inbound frame of N bytes on the reserved channel reaches the engine's
// frame-input entry point with exactly those N bytes.
#[test]
fn inbound_frame_reaches_engine_byte_for_byte() {
    let mut engine = TestEngine::new();
    let frame: Vec<u8> = (0..200u32).map(|i| (i * 7 % 256) as u8).collect();
    let mut channel = MockChannel::new();
    channel.inbound.push(frame.clone());
    let (reactor, _log) = MockReactor::new();
    let mut adapter = MioHandler::new(channel, reactor).expect("adapter");
    let events = vec![(SOCKET, 1u64)];
    let r = adapter.dispatch(&mut engine, &events);
    assert!(r.is_ok());
    assert_eq!(engine.inputs.len(), 1);
    assert_eq!(engine.inputs[0], frame);
    // an adapter with nothing inbound surfaces the transport failure
    let (mut empty_adapter, _log2) = make_adapter();
    let r2 = empty_adapter.dispatch(&mut engine, &events);
    assert_eq!(r2, Err(AdapterError::Transport));
}

// A timer armed past a deadline fires exactly once per readiness report,
// and not again without a further modify.
#[test]
fn timer_fires_once_per_readiness() {
    let (mut adapter, log) = make_adapter();
    let mut engine = TestEngine::new();
    let tok = adapter.timer_new().expect("timer");
    assert_eq!(log.borrow().live_timers, vec![tok]);
    let deadline = adapter.clock_get_ns() + 5_000_000;
    adapter.timer_mod(tok, deadline).expect("modify");
    // the reactor is handed the remaining delay, not the absolute deadline
    {
        let l = log.borrow();
        assert_eq!(l.delays.len(), 1);
        assert_eq!(l.delays[0].0, tok);
        assert!(l.delays[0].1 > 0 && l.delays[0].1 <= 5_000_000);
    }
    // the reactor reports readiness on the timer's registration
    let events = vec![(tok, 1u64)];
    assert!(adapter.dispatch(&mut engine, &events).is_ok());
    assert_eq!(engine.fired, vec![tok]);
    // no further readiness, no further fire
    let none: Vec<(usize, u64)> = Vec::new();
    assert!(adapter.dispatch(&mut engine, &none).is_ok());
    assert_eq!(engine.fired, vec![tok]);
}

// Observed readiness is masked to what was requested: interest {in},
// native report {in, pri}, observed {in} only.
#[test]
fn observed_mask_never_exceeds_request() {
    let (mut adapter, _log) = make_adapter();
    let mut engine = TestEngine::new();
    engine.fill_requests.push((7, PollEvents::poll_in()));
    let none: Vec<(usize, u64)> = Vec::new();
    assert!(adapter.dispatch(&mut engine, &none).is_ok());
    assert_eq!(engine.fd_tokens.len(), 1);
    let tok = engine.fd_tokens[0];
    // native readiness: readable (1) and priority (64)
    let events = vec![(tok, 1u64 | 64u64)];
    assert!(adapter.dispatch(&mut engine, &events).is_ok());
    assert_eq!(engine.observed, vec![(tok, PollEvents::poll_in())]);
}

// A descriptor interest filled in cycle N is gone from the table by the
// start of cycle N+2, whether or not it fired.
#[test]
fn fd_interest_is_ephemeral() {
    let (mut adapter, _log) = make_adapter();
    let mut engine = TestEngine::new();
    engine.fill_requests.push((9, PollEvents::poll_in()));
    let none: Vec<(usize, u64)> = Vec::new();
    assert!(adapter.dispatch(&mut engine, &none).is_ok());
    let tok = engine.fd_tokens[0];
    // cycle N+1: the entry still serves lookups, then is torn down
    assert!(adapter.dispatch(&mut engine, &none).is_ok());
    // start of cycle N+2: the token is stale
    assert_eq!(adapter.take_revents(tok), Err(AdapterError::StaleToken));
    assert_eq!(adapter.timer_mod(tok, 1), Err(AdapterError::StaleToken));
}

// A timer created in cycle N stays valid and fireable across later
// descriptor-only cycles until it is explicitly freed.
#[test]
fn timer_persists_across_fd_cycles() {
    let (mut adapter, log) = make_adapter();
    let mut engine = TestEngine::new();
    let tok = adapter.timer_new().expect("timer");
    for _ in 0..3 {
        engine.fill_requests.push((11, PollEvents::poll_out()));
        let none: Vec<(usize, u64)> = Vec::new();
        assert!(adapter.dispatch(&mut engine, &none).is_ok());
    }
    // still live and fireable
    assert!(adapter.timer_mod(tok, 123).is_ok());
    let events = vec![(tok, 1u64)];
    assert!(adapter.dispatch(&mut engine, &events).is_ok());
    assert_eq!(engine.fired, vec![tok]);
    // explicit free ends it, deregistering the native source
    assert!(adapter.timer_free(tok).is_ok());
    assert!(log.borrow().live_timers.is_empty());
    assert_eq!(adapter.timer_mod(tok, 5), Err(AdapterError::StaleToken));
}

// Fill-phase timeout 0 asks for an indefinite wait; a positive k waits
// exactly k milliseconds.
#[test]
fn timeout_zero_means_wait_forever() {
    let (mut adapter, _log) = make_adapter();
    let mut engine = TestEngine::new();
    engine.timeout_ms = 0;
    let none: Vec<(usize, u64)> = Vec::new();
    assert_eq!(adapter.dispatch(&mut engine, &none), Ok(None));
    engine.timeout_ms = 250;
    assert_eq!(adapter.dispatch(&mut engine, &none), Ok(Some(250)));
    engine.timeout_ms = 1;
    assert_eq!(adapter.dispatch(&mut engine, &none), Ok(Some(1)));
}

// No two live entries ever share a token, for any insert/remove sequence;
// freed tokens may be reused afterwards.
#[test]
fn live_tokens_stay_unique() {
    let (mut adapter, _log) = make_adapter();
    let t1 = adapter.timer_new().expect("t1");
    let t2 = adapter.timer_new().expect("t2");
    let t3 = adapter.timer_new().expect("t3");
    assert!(t1 != t2 && t2 != t3 && t1 != t3);
    adapter.timer_free(t2).expect("free");
    let t4 = adapter.timer_new().expect("t4");
    assert!(t4 != t1 && t4 != t3);
    // the freed slot is reusable once it is free, never while live
    assert_eq!(t4, t2);
    let t5 = adapter.timer_new().expect("t5");
    let live = [t1, t3, t4, t5];
    for i in 0..live.len() {
        for j in 0..live.len() {
            if i != j {
                assert!(live[i] != live[j]);
            }
        }
    }
}

// Every descriptor registration of one cycle is deregistered at the start
// of the next, in matched pairs, under the token the engine was handed.
#[test]
fn fd_registrations_pair_with_deregistrations() {
    let (mut adapter, log) = make_adapter();
    let mut engine = TestEngine::new();
    engine.fill_requests.push((21, PollEvents::poll_in()));
    engine.fill_requests.push((22, PollEvents::poll_out()));
    let none: Vec<(usize, u64)> = Vec::new();
    assert!(adapter.dispatch(&mut engine, &none).is_ok());
    // cycle N registered both descriptors under the engine's tokens
    {
        let l = log.borrow();
        assert_eq!(l.registered_fds.len(), 2);
        assert_eq!(l.registered_fds[0], (21, engine.fd_tokens[0], 1));
        assert_eq!(l.registered_fds[1], (22, engine.fd_tokens[1], 2));
        assert!(l.deregistered_fds.is_empty());
    }
    // cycle N+1 deregisters exactly those descriptors before waiting anew
    assert!(adapter.dispatch(&mut engine, &none).is_ok());
    {
        let l = log.borrow();
        assert_eq!(l.registered_fds.len(), 2);
        let mut dereg = l.deregistered_fds.clone();
        dereg.sort();
        assert_eq!(dereg, vec![21, 22]);
    }
    // cycle N+2 has nothing left to deregister
    assert!(adapter.dispatch(&mut engine, &none).is_ok());
    assert_eq!(log.borrow().deregistered_fds.len(), 2);
}

// The engine's outbound path writes the frame synchronously and reports
// the bytes written; diagnostics never alter the table.
#[test]
fn send_packet_and_guest_error_pass_through() {
    let (mut adapter, _log) = make_adapter();
    let frame = vec![1u8, 2, 3, 4, 5];
    assert_eq!(adapter.send_packet(&frame), Ok(5));
    adapter.guest_error("malformed guest packet");
    adapter.notify();
    adapter.register_poll_fd(3);
    adapter.unregister_poll_fd(3);
}

// The adapter clock is monotonic and starts near zero.
#[test]
fn clock_runs_forward() {
    let (adapter, _log) = make_adapter();
    let a = adapter.clock_get_ns();
    let b = adapter.clock_get_ns();
    assert!(a >= 0);
    assert!(b >= a);
}

// An event that names a token with no live entry is a fatal bookkeeping
// failure.
#[test]
fn stale_event_token_is_fatal() {
    let (mut adapter, _log) = make_adapter();
    let mut engine = TestEngine::new();
    let events = vec![(42usize, 1u64)];
    assert_eq!(adapter.dispatch(&mut engine, &events), Err(AdapterError::StaleToken));
}

/// A reactor that refuses chosen operations, to surface registration
/// failures.
struct FlakyReactor {
    fail_channel: bool,
    fail_register_timer: bool,
    fail_register_fd: bool,
    fail_deregister_fd: bool,
}

impl Reactor for FlakyReactor {
    fn register_channel(&mut self) -> Result<(), AdapterError> {
        if self.fail_channel {
            Err(AdapterError::Registration)
        } else {
            Ok(())
        }
    }

    fn register_fd(&mut self, _fd: i32, _token: usize, _bits: u64) -> Result<(), AdapterError> {
        if self.fail_register_fd {
            Err(AdapterError::Registration)
        } else {
            Ok(())
        }
    }

    fn deregister_fd(&mut self, _fd: i32) -> Result<(), AdapterError> {
        if self.fail_deregister_fd {
            Err(AdapterError::Registration)
        } else {
            Ok(())
        }
    }

    fn register_timer(&mut self, _token: usize) -> Result<(), AdapterError> {
        if self.fail_register_timer {
            Err(AdapterError::Registration)
        } else {
            Ok(())
        }
    }

    fn set_timer(&mut self, _token: usize, _delay_ns: u64) {}

    fn deregister_timer(&mut self, _token: usize) -> Result<(), AdapterError> {
        Ok(())
    }
}

struct IdleEngine;

impl Engine<MockChannel, FlakyReactor> for IdleEngine {
    fn input(&mut self, _adapter: &mut MioHandler<MockChannel, FlakyReactor>, _frame: &[u8]) {}

    fn timer_fired(&mut self, _adapter: &mut MioHandler<MockChannel, FlakyReactor>, _token: usize) {
    }

    fn poll_completed(&mut self, _adapter: &mut MioHandler<MockChannel, FlakyReactor>) {}

    fn fill_interests(&mut self, _adapter: &mut MioHandler<MockChannel, FlakyReactor>) -> u32 {
        0
    }
}

// A reactor refusal surfaces as the registration error, and a refused
// insertion leaves the token table untouched.
#[test]
fn registration_failures_surface_and_roll_back() {
    // the channel registration itself can be refused
    let refused = MioHandler::new(
        MockChannel::new(),
        FlakyReactor {
            fail_channel: true,
            fail_register_timer: false,
            fail_register_fd: false,
            fail_deregister_fd: false,
        },
    );
    assert!(matches!(refused, Err(AdapterError::Registration)));

    // a refused timer registration rolls the table back
    let mut adapter = MioHandler::new(
        MockChannel::new(),
        FlakyReactor {
            fail_channel: false,
            fail_register_timer: true,
            fail_register_fd: true,
            fail_deregister_fd: false,
        },
    )
    .expect("adapter");
    assert_eq!(adapter.timer_new(), Err(AdapterError::Registration));
    assert_eq!(adapter.timer_mod(0, 1), Err(AdapterError::StaleToken));

    // a refused descriptor registration rolls the table back too
    assert_eq!(
        adapter.add_interest(5, PollEvents::poll_in()),
        Err(AdapterError::Registration)
    );
    assert_eq!(adapter.take_revents(0), Err(AdapterError::StaleToken));
}

// A failed deregistration at the head of a cycle is fatal.
#[test]
fn failed_deregistration_ends_the_cycle() {
    let mut adapter = MioHandler::new(
        MockChannel::new(),
        FlakyReactor {
            fail_channel: false,
            fail_register_timer: false,
            fail_register_fd: false,
            fail_deregister_fd: true,
        },
    )
    .expect("adapter");
    let mut engine = IdleEngine;
    adapter.add_interest(5, PollEvents::poll_in()).expect("interest");
    let none: Vec<(usize, u64)> = Vec::new();
    assert_eq!(adapter.dispatch(&mut engine, &none), Err(AdapterError::Registration));
}

// The TFTP options default to a disabled service.
#[test]
fn tftp_defaults_to_disabled() {
    let t = libslirp::OptTftp::default();
    assert!(t.name.is_none());
    assert!(t.root.is_none());
    assert!(t.bootfile.is_none());
}

// The clock-reading arithmetic is exact within the signed word.
#[test]
fn clock_arithmetic_is_exact() {
    assert_eq!(ns_from_parts(0, 0), 0);
    assert_eq!(ns_from_parts(2, 500), 2_000_000_500);
    assert_eq!(ns_from_parts(0, 999_999_999), 999_999_999);
    assert_eq!(ns_from_parts(9_223_372_036, 854_775_807), i64::MAX);
    // beyond the signed word the reading saturates, never wraps negative
    assert_eq!(ns_from_parts(9_223_372_036, 854_775_808), i64::MAX);
    assert_eq!(ns_from_parts(u64::MAX, 999_999_999), i64::MAX);
}

// A channel answer longer than the frame ceiling is a broken transport,
// not a frame: the engine never sees it.
#[test]
fn oversized_frame_is_a_transport_failure() {
    let mut engine = TestEngine::new();
    let mut channel = MockChannel::new();
    channel.inbound.push(vec![0u8; libslirp::NET_BUFSIZE + 1]);
    let (reactor, _log) = MockReactor::new();
    let mut adapter = MioHandler::new(channel, reactor).expect("adapter");
    let events = vec![(SOCKET, 1u64)];
    assert_eq!(adapter.dispatch(&mut engine, &events), Err(AdapterError::Transport));
    assert!(engine.inputs.is_empty());

    // a frame of exactly the ceiling still goes through
    let mut channel2 = MockChannel::new();
    channel2.inbound.push(vec![7u8; libslirp::NET_BUFSIZE]);
    let (reactor2, _log2) = MockReactor::new();
    let mut adapter2 = MioHandler::new(channel2, reactor2).expect("adapter");
    assert!(adapter2.dispatch(&mut engine, &events).is_ok());
    assert_eq!(engine.inputs.len(), 1);
    assert_eq!(engine.inputs[0].len(), libslirp::NET_BUFSIZE);
}

// An absolute deadline turns into the exact remaining delay; a deadline
// already passed asks for immediate readiness.
#[test]
fn deadline_becomes_remaining_delay() {
    assert_eq!(delay_until(7_000_000, 2_000_000), 5_000_000);
    assert_eq!(delay_until(5, 5), 0);
    assert_eq!(delay_until(5, 9), 0);
    assert_eq!(delay_until(-3, 4), 0);

    // through the adapter: a deadline already behind the clock re-arms the
    // native timer with no delay at all
    let (mut adapter, log) = make_adapter();
    let tok = adapter.timer_new().expect("timer");
    adapter.timer_mod(tok, 0).expect("modify");
    assert_eq!(log.borrow().delays, vec![(tok, 0)]);
}

// A dynamic token never collides with the reserved channel token: the
// arena slot that would carry its value is refused and rolled back.
#[test]
fn dynamic_tokens_never_reach_the_reserved_token() {
    let mut adapter = MioHandler::new(
        MockChannel::new(),
        FlakyReactor {
            fail_channel: false,
            fail_register_timer: false,
            fail_register_fd: false,
            fail_deregister_fd: false,
        },
    )
    .expect("adapter");
    for expected in 0..SOCKET {
        assert_eq!(adapter.timer_new(), Ok(expected));
    }
    // the next arena slot would be the reserved value itself: refused
    assert_eq!(adapter.timer_new(), Err(AdapterError::Registration));
    assert_eq!(
        adapter.add_interest(3, PollEvents::poll_in()),
        Err(AdapterError::Registration)
    );
    assert_eq!(adapter.timer_mod(SOCKET, 1), Err(AdapterError::StaleToken));
}
