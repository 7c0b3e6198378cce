use reseeding_rng::{Error, ErrorKind, ReseedingRng, RngCore, SeedableRng};

/// Hands out `v`, then `v + a`, and so on.
#[derive(Debug, Clone, PartialEq)]
struct Step {
    v: u64,
    a: u64,
}

impl Step {
    fn new(v: u64, a: u64) -> Step {
        Step { v, a }
    }
}

impl RngCore for Step {
    fn next_u32(&mut self) -> u32 {
        self.next_u64() as u32
    }

    fn next_u64(&mut self) -> u64 {
        let out = self.v;
        self.v = self.v.wrapping_add(self.a);
        out
    }

    fn fill_bytes(&mut self, dest: &mut [u8]) {
        for chunk in dest.chunks_mut(8) {
            let bytes = self.next_u64().to_le_bytes();
            chunk.copy_from_slice(&bytes[..chunk.len()]);
        }
    }

    fn try_fill_bytes(&mut self, dest: &mut [u8]) -> Result<(), Error> {
        self.fill_bytes(dest);
        Ok(())
    }
}

/// A small deterministic generator whose whole state is eight bytes of seed.
#[derive(Debug, Clone, PartialEq)]
struct Mix {
    state: u64,
}

impl RngCore for Mix {
    fn next_u32(&mut self) -> u32 {
        (self.next_u64() >> 32) as u32
    }

    fn next_u64(&mut self) -> u64 {
        self.state = self.state.wrapping_add(0x9e37_79b9_7f4a_7c15);
        let mut z = self.state;
        z = (z ^ (z >> 30)).wrapping_mul(0xbf58_476d_1ce4_e5b9);
        z = (z ^ (z >> 27)).wrapping_mul(0x94d0_49bb_1331_11eb);
        z ^ (z >> 31)
    }

    fn fill_bytes(&mut self, dest: &mut [u8]) {
        for chunk in dest.chunks_mut(8) {
            let bytes = self.next_u64().to_le_bytes();
            chunk.copy_from_slice(&bytes[..chunk.len()]);
        }
    }

    fn try_fill_bytes(&mut self, dest: &mut [u8]) -> Result<(), Error> {
        self.fill_bytes(dest);
        Ok(())
    }
}

impl<S: RngCore> SeedableRng<S> for Mix {
    fn from_rng(rng: &mut S) -> Result<Self, Error> {
        let mut seed = [0u8; 8];
        rng.try_fill_bytes(&mut seed)?;
        Ok(Mix { state: u64::from_le_bytes(seed) })
    }
}

/// A source that fails every fallible fill with one kind.
#[derive(Debug, Clone, PartialEq)]
struct Failing {
    kind: ErrorKind,
}

impl Failing {
    fn new(kind: ErrorKind) -> Failing {
        Failing { kind }
    }
}

impl RngCore for Failing {
    fn next_u32(&mut self) -> u32 {
        0
    }

    fn next_u64(&mut self) -> u64 {
        0
    }

    fn fill_bytes(&mut self, dest: &mut [u8]) {
        for b in dest.iter_mut() {
            *b = 0;
        }
    }

    fn try_fill_bytes(&mut self, _dest: &mut [u8]) -> Result<(), Error> {
        Err(Error::new(self.kind, "source failed"))
    }
}

/// An inner generator whose fallible fill always fails.
#[derive(Debug, Clone, PartialEq)]
struct Broken {
    seeded: u32,
}

impl RngCore for Broken {
    fn next_u32(&mut self) -> u32 {
        7
    }

    fn next_u64(&mut self) -> u64 {
        7
    }

    fn fill_bytes(&mut self, dest: &mut [u8]) {
        for b in dest.iter_mut() {
            *b = 7;
        }
    }

    fn try_fill_bytes(&mut self, _dest: &mut [u8]) -> Result<(), Error> {
        Err(Error::new(ErrorKind::Unavailable, "inner failed"))
    }
}

impl<S: RngCore> SeedableRng<S> for Broken {
    fn from_rng(rng: &mut S) -> Result<Self, Error> {
        let mut seed = [0u8; 4];
        rng.try_fill_bytes(&mut seed)?;
        Ok(Broken { seeded: u32::from_le_bytes(seed) })
    }
}

fn mix(state: u64) -> Mix {
    Mix { state }
}

#[test]
fn test_reseeding() {
    let mut zero = Step::new(0, 0);
    let rng = Mix::from_rng(&mut zero).unwrap();
    let mut reseeding = ReseedingRng::new(rng, 32, zero);

    let mut buf = [0u8; 32];
    reseeding.fill_bytes(&mut buf);
    let seq = buf;
    for _ in 0..10 {
        reseeding.fill_bytes(&mut buf);
        assert_eq!(buf, seq);
    }
}

#[test]
fn reseeding_output_is_the_inner_output() {
    let mut plain = mix(0);
    let mut expected = [0u8; 32];
    plain.fill_bytes(&mut expected);
    assert_ne!(expected, [0u8; 32]);

    let mut reseeding = ReseedingRng::new(mix(0), 32, Step::new(0, 0));
    let mut buf = [0u8; 32];
    reseeding.fill_bytes(&mut buf);
    assert_eq!(buf, expected);
}

#[test]
fn new_starts_with_the_whole_budget() {
    for threshold in [0u64, 1, 32, 1 << 20, i64::MAX as u64] {
        let r = ReseedingRng::new(mix(1), threshold, Step::new(0, 1));
        assert_eq!(r.threshold(), threshold as i64);
        assert_eq!(r.bytes_until_reseed(), threshold as i64);
    }
}

#[test]
fn generation_debits_the_bytes_produced() {
    let mut r = ReseedingRng::new(mix(1), 1000, Step::new(0, 1));
    r.next_u32();
    assert_eq!(r.bytes_until_reseed(), 996);
    r.next_u64();
    assert_eq!(r.bytes_until_reseed(), 988);
    let mut buf = [0u8; 100];
    r.fill_bytes(&mut buf);
    assert_eq!(r.bytes_until_reseed(), 888);
    assert_eq!(r.try_fill_bytes(&mut buf[..13]), Ok(()));
    assert_eq!(r.bytes_until_reseed(), 875);
    let mut none = [0u8; 0];
    r.fill_bytes(&mut none);
    assert_eq!(r.bytes_until_reseed(), 875);
    assert_eq!(r.threshold(), 1000);
}

#[test]
fn output_passes_through_unchanged() {
    let mut plain = mix(42);
    let mut r = ReseedingRng::new(mix(42), 1000, Step::new(0, 1));
    assert_eq!(r.next_u32(), plain.next_u32());
    assert_eq!(r.next_u64(), plain.next_u64());
    let mut a = [0u8; 24];
    let mut b = [0u8; 24];
    r.fill_bytes(&mut a);
    plain.fill_bytes(&mut b);
    assert_eq!(a, b);
    assert_eq!(r.try_fill_bytes(&mut a), Ok(()));
    plain.fill_bytes(&mut b);
    assert_eq!(a, b);
}

#[test]
fn exhausting_the_budget_reseeds_once() {
    // The source counts up from 5, so each seeding is told apart.
    let mut r = ReseedingRng::new(mix(0), 16, Step::new(5, 1));
    r.next_u64();
    assert_eq!(r.bytes_until_reseed(), 8);
    // These bytes use the budget up: still the old generator's output.
    let mut old = mix(0);
    old.next_u64();
    assert_eq!(r.next_u64(), old.next_u64());
    assert_eq!(r.bytes_until_reseed(), 16);
    // One seeding took place, from the first eight bytes of the source.
    assert_eq!(r.next_u64(), mix(5).next_u64());
    assert_eq!(r.bytes_until_reseed(), 8);
    r.next_u64();
    assert_eq!(r.bytes_until_reseed(), 16);
    assert_eq!(r.next_u64(), mix(6).next_u64());
}

#[test]
fn budget_used_up_exactly_is_due() {
    let mut r = ReseedingRng::new(mix(0), 4, Step::new(9, 0));
    r.next_u32();
    assert_eq!(r.bytes_until_reseed(), 4);
    assert_eq!(r.next_u64(), mix(9).next_u64());
}

#[test]
fn overshooting_the_budget_is_due() {
    let mut r = ReseedingRng::new(mix(0), 10, Step::new(9, 0));
    let mut buf = [0u8; 100];
    r.fill_bytes(&mut buf);
    assert_eq!(r.bytes_until_reseed(), 10);
    assert_eq!(r.next_u64(), mix(9).next_u64());
    assert_eq!(r.bytes_until_reseed(), 2);
}

#[test]
fn zero_threshold_reseeds_on_every_call() {
    let mut r = ReseedingRng::new(mix(0), 0, Step::new(1, 1));
    assert_eq!(r.bytes_until_reseed(), 0);
    assert_eq!(r.next_u64(), mix(0).next_u64());
    assert_eq!(r.bytes_until_reseed(), 0);
    assert_eq!(r.next_u64(), mix(1).next_u64());
    assert_eq!(r.next_u64(), mix(2).next_u64());
    assert_eq!(r.bytes_until_reseed(), 0);
}

#[test]
fn failure_of_other_kind_waits_a_whole_budget() {
    let mut plain = mix(3);
    let mut r = ReseedingRng::new(mix(3), 1024, Failing::new(ErrorKind::Unavailable));
    let mut buf = [0u8; 1024];
    let mut expected = [0u8; 1024];
    let res = r.try_fill_bytes(&mut buf);
    plain.fill_bytes(&mut expected);
    assert_eq!(buf, expected);
    assert_eq!(res, Err(Error::new(ErrorKind::Transient, "source failed")));
    assert_eq!(r.bytes_until_reseed(), 1024);
    // The inner generator was left as it was: its stream goes on.
    assert_eq!(r.next_u64(), plain.next_u64());
    assert_eq!(r.bytes_until_reseed(), 1016);
}

// A caller of the fallible path never learns how serious the failure of the
// source was: every kind comes back as `Transient`, with the description kept.
#[test]
fn reported_kind_is_always_transient() {
    for kind in [
        ErrorKind::Unavailable,
        ErrorKind::Unexpected,
        ErrorKind::Transient,
        ErrorKind::NotReady,
    ] {
        let mut r = ReseedingRng::new(mix(3), 1024, Failing::new(kind));
        let e = r.try_reseed().unwrap_err();
        assert_eq!(e.kind, ErrorKind::Transient);
        assert_eq!(e.msg, "source failed");
        let mut buf = [0u8; 2048];
        let e = r.try_fill_bytes(&mut buf).unwrap_err();
        assert_eq!(e.kind, ErrorKind::Transient);
        assert_eq!(e.msg, "source failed");
    }
}

#[test]
fn retryable_failure_waits_a_256th() {
    for kind in [ErrorKind::Unexpected, ErrorKind::NotReady] {
        let mut r = ReseedingRng::new(mix(3), 1024, Failing::new(kind));
        let mut buf = [0u8; 1024];
        r.fill_bytes(&mut buf);
        assert_eq!(r.bytes_until_reseed(), 4);
        r.next_u32();
        assert_eq!(r.bytes_until_reseed(), 4);

        let mut r = ReseedingRng::new(mix(3), 1000, Failing::new(kind));
        assert!(r.try_reseed().is_err());
        assert_eq!(r.bytes_until_reseed(), 3);

        let mut r = ReseedingRng::new(mix(3), 255, Failing::new(kind));
        r.reseed();
        assert_eq!(r.bytes_until_reseed(), 0);

        let mut r = ReseedingRng::new(mix(3), i64::MAX as u64, Failing::new(kind));
        r.reseed();
        assert_eq!(r.bytes_until_reseed(), i64::MAX >> 8);
        assert_eq!(r.bytes_until_reseed(), 0x7f_ffff_ffff_ffff);
    }
}

#[test]
fn transient_failure_retries_on_the_next_call() {
    let mut plain = mix(3);
    let mut r = ReseedingRng::new(mix(3), 64, Failing::new(ErrorKind::Transient));
    let mut buf = [0u8; 64];
    r.fill_bytes(&mut buf);
    plain.fill_bytes(&mut buf);
    assert_eq!(r.bytes_until_reseed(), 0);
    assert_eq!(r.next_u32(), plain.next_u32());
    assert_eq!(r.bytes_until_reseed(), 0);
    let e = r.try_fill_bytes(&mut buf[..1]).unwrap_err();
    assert_eq!(e.kind, ErrorKind::Transient);
    assert_eq!(r.bytes_until_reseed(), 0);
}

#[test]
fn infallible_calls_go_on_when_the_source_fails() {
    let mut plain = mix(11);
    let mut r = ReseedingRng::new(mix(11), 8, Failing::new(ErrorKind::Unavailable));
    for _ in 0..50 {
        assert_eq!(r.next_u64(), plain.next_u64());
        assert_eq!(r.bytes_until_reseed(), 8);
    }
}

#[test]
fn try_reseed_installs_a_fresh_generator() {
    let mut r = ReseedingRng::new(mix(0), 100, Step::new(77, 0));
    r.next_u32();
    assert_eq!(r.bytes_until_reseed(), 96);
    assert_eq!(r.try_reseed(), Ok(()));
    assert_eq!(r.bytes_until_reseed(), 100);
    assert_eq!(r.next_u64(), mix(77).next_u64());
}

#[test]
fn reseed_installs_a_fresh_generator() {
    let mut r = ReseedingRng::new(mix(0), 100, Step::new(78, 0));
    r.next_u64();
    r.reseed();
    assert_eq!(r.bytes_until_reseed(), 100);
    assert_eq!(r.next_u64(), mix(78).next_u64());
}

#[test]
fn reseed_hides_the_failure() {
    let mut plain = mix(0);
    let mut r = ReseedingRng::new(mix(0), 512, Failing::new(ErrorKind::NotReady));
    r.reseed();
    assert_eq!(r.bytes_until_reseed(), 2);
    assert_eq!(r.next_u64(), plain.next_u64());
}

#[test]
fn complete_reseed_takes_the_fresh_generator() {
    let mut r = ReseedingRng::new(mix(0), 100, Step::new(0, 0));
    r.next_u64();
    assert_eq!(r.complete_reseed(Ok(mix(1234))), Ok(()));
    assert_eq!(r.bytes_until_reseed(), 100);
    assert_eq!(r.next_u64(), mix(1234).next_u64());
}

#[test]
fn complete_reseed_sets_the_delay_of_each_kind() {
    let cases = [
        (ErrorKind::Transient, 0i64),
        (ErrorKind::Unexpected, 39),
        (ErrorKind::NotReady, 39),
        (ErrorKind::Unavailable, 10_000),
    ];
    for (kind, delay) in cases {
        let mut plain = mix(0);
        let mut r = ReseedingRng::new(mix(0), 10_000, Step::new(0, 0));
        r.next_u64();
        plain.next_u64();
        let res = r.complete_reseed(Err(Error::new(kind, "no seed")));
        assert_eq!(res, Err(Error::new(ErrorKind::Transient, "no seed")));
        assert_eq!(r.bytes_until_reseed(), delay);
        assert_eq!(r.threshold(), 10_000);
        assert_eq!(r.next_u64(), plain.next_u64());
    }
}

#[test]
fn inner_failure_comes_before_source_failure() {
    let mut r = ReseedingRng::new(Broken { seeded: 0 }, 1024, Failing::new(ErrorKind::NotReady));
    let mut buf = [0u8; 1024];
    let res = r.try_fill_bytes(&mut buf);
    assert_eq!(res, Err(Error::new(ErrorKind::Unavailable, "inner failed")));
    // The source failure alone would have left 4 bytes.
    assert_eq!(r.bytes_until_reseed(), 0);

    let mut r = ReseedingRng::new(Broken { seeded: 0 }, 1024, Failing::new(ErrorKind::Unavailable));
    let res = r.try_fill_bytes(&mut buf);
    assert_eq!(res, Err(Error::new(ErrorKind::Unavailable, "inner failed")));
    // The source failure alone would have left 1024 bytes.
    assert_eq!(r.bytes_until_reseed(), 0);
}

#[test]
fn inner_failure_forces_a_reseed_on_the_next_call() {
    let mut r = ReseedingRng::new(Broken { seeded: 0 }, 1024, Step::new(3, 0));
    let mut buf = [0u8; 16];
    let res = r.try_fill_bytes(&mut buf);
    assert_eq!(res, Err(Error::new(ErrorKind::Unavailable, "inner failed")));
    assert_eq!(r.bytes_until_reseed(), 0);
    r.next_u32();
    assert_eq!(r.bytes_until_reseed(), 1024);
}

#[test]
fn inner_failure_hides_a_reseed_that_succeeded() {
    let mut r = ReseedingRng::new(Broken { seeded: 0 }, 8, Step::new(3, 0));
    let mut buf = [0u8; 16];
    let res = r.try_fill_bytes(&mut buf);
    assert_eq!(res, Err(Error::new(ErrorKind::Unavailable, "inner failed")));
    assert_eq!(r.bytes_until_reseed(), 0);
}

#[test]
fn source_failure_is_reported_when_the_inner_fill_succeeds() {
    let mut r = ReseedingRng::new(mix(0), 16, Failing::new(ErrorKind::Unavailable));
    let mut buf = [0u8; 8];
    assert_eq!(r.try_fill_bytes(&mut buf), Ok(()));
    assert_eq!(r.bytes_until_reseed(), 8);
    let res = r.try_fill_bytes(&mut buf);
    assert_eq!(res, Err(Error::new(ErrorKind::Transient, "source failed")));
    assert_eq!(r.bytes_until_reseed(), 16);
}

#[test]
fn finish_fill_decides_between_the_two_reports() {
    let inner = Error::new(ErrorKind::Unexpected, "inner");
    let source = Error::new(ErrorKind::Transient, "source");

    let mut r = ReseedingRng::new(mix(0), 100, Step::new(0, 0));
    r.next_u32();
    assert_eq!(r.finish_fill(Ok(()), Ok(())), Ok(()));
    assert_eq!(r.bytes_until_reseed(), 96);
    assert_eq!(r.finish_fill(Ok(()), Err(source)), Err(source));
    assert_eq!(r.bytes_until_reseed(), 96);
    assert_eq!(r.finish_fill(Err(inner), Err(source)), Err(inner));
    assert_eq!(r.bytes_until_reseed(), 0);

    let mut r = ReseedingRng::new(mix(0), 100, Step::new(0, 0));
    assert_eq!(r.finish_fill(Err(inner), Ok(())), Err(inner));
    assert_eq!(r.bytes_until_reseed(), 0);
    assert_eq!(r.threshold(), 100);
}

#[test]
fn a_reseeding_generator_can_be_wrapped_again() {
    let inner = ReseedingRng::new(mix(0), 8, Step::new(1, 1));
    let mut outer = ReseedingRng::new(mix(0), 1000, inner);
    assert!(outer.try_reseed().is_ok());
    assert_eq!(outer.bytes_until_reseed(), 1000);
}

#[test]
fn budget_over_a_run_of_calls() {
    // A source that fails with `NotReady` sets the budget to 1024 >> 8.
    let mut r = ReseedingRng::new(mix(0), 1024, Failing::new(ErrorKind::NotReady));
    let mut buf = [0u8; 1000];
    r.fill_bytes(&mut buf);
    assert_eq!(r.bytes_until_reseed(), 24);
    r.next_u64();
    assert_eq!(r.bytes_until_reseed(), 16);
    r.fill_bytes(&mut buf[..16]);
    assert_eq!(r.bytes_until_reseed(), 4);
    r.next_u32();
    assert_eq!(r.bytes_until_reseed(), 4);
    r.fill_bytes(&mut buf[..3]);
    assert_eq!(r.bytes_until_reseed(), 1);
    r.next_u32();
    assert_eq!(r.bytes_until_reseed(), 4);
    assert_eq!(r.threshold(), 1024);
}

#[test]
fn budget_without_a_reset_is_the_difference() {
    let mut r = ReseedingRng::new(mix(0), 1 << 20, Step::new(0, 1));
    let mut buf = [0u8; 256];
    let mut total: i64 = 0;
    for i in 0..100usize {
        r.next_u32();
        r.next_u64();
        r.fill_bytes(&mut buf[..i]);
        total += 12 + i as i64;
        assert_eq!(r.bytes_until_reseed(), (1 << 20) - total);
    }
    assert_eq!(total, 6150);
}
