use fftw_pair::{
    r2c_1d, Block, Error, Pair, PlanBuilder, Precision, Request, Resource, Step, ALIGNMENT,
    FFTW_ESTIMATE, FFTW_MEASURE, R2C1D,
};

const FIELD_ADDR: usize = 0x1000;
const COEF_ADDR: usize = 0x10_0000;

/// Hands each answer in turn to the builder; panics if it finishes early.
fn drive(mut b: PlanBuilder, answers: &[usize]) -> Step {
    for (i, &a) in answers.iter().enumerate() {
        match b.step(a) {
            Step::Pending(next) => b = next,
            done => {
                assert_eq!(i + 1, answers.len(), "set-up ended before all answers");
                return done;
            }
        }
    }
    Step::Pending(b)
}

fn build(settings: R2C1D, precision: Precision, field: usize, coef: usize) -> Pair {
    let b = settings.pair_builder(precision).unwrap();
    match drive(b, &[field, coef, 7, 9]) {
        Step::Built(p) => p,
        other => panic!("expected a pair, got {:?}", other),
    }
}

fn failure(step: Step) -> (Error, Vec<Resource>) {
    match step {
        Step::Failed { error, release } => (error, release),
        other => panic!("expected a failure, got {:?}", other),
    }
}

#[test]
fn r2c_1d_uses_measure() {
    let s = r2c_1d(8);
    assert_eq!(s.n(), 8);
    assert_eq!(s.flag(), FFTW_MEASURE);
    assert_eq!(s, R2C1D::new(8, FFTW_MEASURE));
}

#[test]
fn coef_len_is_half_plus_one() {
    for n in 1..=64usize {
        let p = build(r2c_1d(n), Precision::Double, FIELD_ADDR, COEF_ADDR);
        assert_eq!(p.logical_size(), n);
        assert_eq!(p.field().len, n);
        assert_eq!(p.coef().len, n / 2 + 1);
        assert_eq!(r2c_1d(n).coef_len(), n / 2 + 1);
    }
    assert_eq!(r2c_1d(1).coef_len(), 1);
    assert_eq!(r2c_1d(7).coef_len(), 4);
    assert_eq!(r2c_1d(8).coef_len(), 5);
}

#[test]
fn requests_come_in_order() {
    let s = R2C1D::new(8, FFTW_ESTIMATE);
    let b = s.pair_builder(Precision::Double).unwrap();
    assert_eq!(b.request(), Request::Allocate { bytes: 64, align: ALIGNMENT });
    let b = match b.step(FIELD_ADDR) {
        Step::Pending(b) => b,
        other => panic!("{:?}", other),
    };
    assert_eq!(b.request(), Request::Allocate { bytes: 80, align: ALIGNMENT });
    let b = match b.step(COEF_ADDR) {
        Step::Pending(b) => b,
        other => panic!("{:?}", other),
    };
    assert_eq!(
        b.request(),
        Request::PlanR2C { n: 8, real: FIELD_ADDR, complex: COEF_ADDR, flag: FFTW_ESTIMATE }
    );
    let b = match b.step(7) {
        Step::Pending(b) => b,
        other => panic!("{:?}", other),
    };
    assert_eq!(
        b.request(),
        Request::PlanC2R { n: 8, complex: COEF_ADDR, real: FIELD_ADDR, flag: FFTW_ESTIMATE }
    );
    let p = match b.step(9) {
        Step::Built(p) => p,
        other => panic!("{:?}", other),
    };
    assert_eq!(p.forward_plan(), 7);
    assert_eq!(p.backward_plan(), 9);
    assert_eq!(p.flag(), FFTW_ESTIMATE);
    assert_eq!(p.precision(), Precision::Double);
    assert_eq!(p.field(), Block { addr: FIELD_ADDR, len: 8, bytes: 64 });
    assert_eq!(p.coef(), Block { addr: COEF_ADDR, len: 5, bytes: 80 });
}

#[test]
fn single_precision_byte_sizes() {
    let p = build(r2c_1d(8), Precision::Single, FIELD_ADDR, COEF_ADDR);
    assert_eq!(p.field().bytes, 32);
    assert_eq!(p.coef().bytes, 40);
    assert_eq!(Precision::Single.real_size(), 4);
    assert_eq!(Precision::Single.complex_size(), 8);
    assert_eq!(Precision::Double.real_size(), 8);
    assert_eq!(Precision::Double.complex_size(), 16);
}

#[test]
fn zero_size_is_rejected() {
    assert_eq!(r2c_1d(0).pair_builder(Precision::Double).unwrap_err(), Error::InvalidSize);
    assert_eq!(r2c_1d(0).pair_builder(Precision::Single).unwrap_err(), Error::InvalidSize);
}

#[test]
fn byte_size_overflow_is_an_allocation_error() {
    let e = r2c_1d(usize::MAX).pair_builder(Precision::Double).unwrap_err();
    assert_eq!(e, Error::Allocation);
    let e = r2c_1d(usize::MAX / 4 + 1).pair_builder(Precision::Single).unwrap_err();
    assert_eq!(e, Error::Allocation);
    // The real buffer fits here, but n / 2 + 1 complex values do not.
    let e = r2c_1d(usize::MAX / 8).pair_builder(Precision::Double).unwrap_err();
    assert_eq!(e, Error::Allocation);
    let b = r2c_1d(usize::MAX / 16).pair_builder(Precision::Double).unwrap();
    assert_eq!(b.request(), Request::Allocate { bytes: usize::MAX / 16 * 8, align: ALIGNMENT });
}

#[test]
fn null_forward_plan_fails() {
    let b = r2c_1d(8).pair_builder(Precision::Double).unwrap();
    let (e, release) = failure(drive(b, &[FIELD_ADDR, COEF_ADDR, 0, 9]));
    assert_eq!(e, Error::PlanConstruction);
    assert_eq!(
        release,
        vec![Resource::Plan(9), Resource::Buffer(FIELD_ADDR), Resource::Buffer(COEF_ADDR)]
    );
}

#[test]
fn null_backward_plan_fails() {
    let b = r2c_1d(8).pair_builder(Precision::Double).unwrap();
    let (e, release) = failure(drive(b, &[FIELD_ADDR, COEF_ADDR, 7, 0]));
    assert_eq!(e, Error::PlanConstruction);
    assert_eq!(
        release,
        vec![Resource::Plan(7), Resource::Buffer(FIELD_ADDR), Resource::Buffer(COEF_ADDR)]
    );
}

#[test]
fn both_plans_null_fails() {
    let b = r2c_1d(3).pair_builder(Precision::Single).unwrap();
    let (e, release) = failure(drive(b, &[FIELD_ADDR, COEF_ADDR, 0, 0]));
    assert_eq!(e, Error::PlanConstruction);
    assert_eq!(release, vec![Resource::Buffer(FIELD_ADDR), Resource::Buffer(COEF_ADDR)]);
}

#[test]
fn null_field_allocation_fails() {
    let b = r2c_1d(8).pair_builder(Precision::Double).unwrap();
    let (e, release) = failure(drive(b, &[0]));
    assert_eq!(e, Error::Allocation);
    assert!(release.is_empty());
}

#[test]
fn misaligned_field_is_rejected_and_freed() {
    let b = r2c_1d(8).pair_builder(Precision::Double).unwrap();
    let (e, release) = failure(drive(b, &[FIELD_ADDR + 8]));
    assert_eq!(e, Error::Allocation);
    assert_eq!(release, vec![Resource::Buffer(FIELD_ADDR + 8)]);
}

#[test]
fn misaligned_coef_is_rejected() {
    let b = r2c_1d(8).pair_builder(Precision::Double).unwrap();
    let (e, release) = failure(drive(b, &[FIELD_ADDR, COEF_ADDR + 4]));
    assert_eq!(e, Error::Allocation);
    assert_eq!(release, vec![Resource::Buffer(FIELD_ADDR), Resource::Buffer(COEF_ADDR + 4)]);
}

#[test]
fn null_coef_allocation_frees_field() {
    let b = r2c_1d(8).pair_builder(Precision::Double).unwrap();
    let (e, release) = failure(drive(b, &[FIELD_ADDR, 0]));
    assert_eq!(e, Error::Allocation);
    assert_eq!(release, vec![Resource::Buffer(FIELD_ADDR)]);
}

#[test]
fn overlapping_coef_is_rejected() {
    // The real buffer spans 64 bytes; a complex buffer 48 bytes in overlaps it.
    let b = r2c_1d(8).pair_builder(Precision::Double).unwrap();
    let (e, release) = failure(drive(b, &[FIELD_ADDR, FIELD_ADDR + 48]));
    assert_eq!(e, Error::Allocation);
    assert_eq!(release, vec![Resource::Buffer(FIELD_ADDR), Resource::Buffer(FIELD_ADDR + 48)]);
    // Right after the real buffer is fine.
    let p = build(r2c_1d(8), Precision::Double, FIELD_ADDR, FIELD_ADDR + 64);
    assert_eq!(p.coef().addr, FIELD_ADDR + 64);
}

#[test]
fn buffer_past_address_space_is_rejected() {
    let b = r2c_1d(8).pair_builder(Precision::Double).unwrap();
    let top = usize::MAX - (usize::MAX % ALIGNMENT) - 16;
    let (e, release) = failure(drive(b, &[top]));
    assert_eq!(e, Error::Allocation);
    assert_eq!(release, vec![Resource::Buffer(top)]);
}

#[test]
fn accepted_buffers_are_aligned() {
    for &(f, c) in &[(16usize, 4096usize), (0x2_0000, 0x10), (0x7fd0, 0x8000)] {
        let p = build(r2c_1d(5), Precision::Double, f, c);
        assert_eq!(p.field().addr % ALIGNMENT, 0);
        assert_eq!(p.coef().addr % ALIGNMENT, 0);
    }
}

#[test]
fn same_settings_give_same_shape() {
    let s = r2c_1d(10);
    let p = build(s, Precision::Single, FIELD_ADDR, COEF_ADDR);
    let q = build(s, Precision::Single, 0x20_0000, 0x30_0000);
    assert_eq!(p.field().len, q.field().len);
    assert_eq!(p.coef().len, q.coef().len);
    assert_eq!(p.field().bytes, q.field().bytes);
    assert_eq!(p.coef().bytes, q.coef().bytes);
    assert_eq!(p.flag(), q.flag());
    assert_ne!(p.field().addr, q.field().addr);
    assert_eq!(s.n(), 10);
}

#[test]
fn release_order_puts_plans_first() {
    let p = build(r2c_1d(4), Precision::Double, FIELD_ADDR, COEF_ADDR);
    assert_eq!(
        p.release_order(),
        vec![
            Resource::Plan(7),
            Resource::Plan(9),
            Resource::Buffer(FIELD_ADDR),
            Resource::Buffer(COEF_ADDR),
        ]
    );
}
