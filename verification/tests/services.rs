use rf_a::context::World;
use rf_a::platform::DummyService;
use rf_a::services::arch::{SMCCC_VERSION, SMCCC_VERSION_1_5};
use rf_a::services::errata_management::{
    ErrataManagement, EM_CPU_ERRATUM_FEATURES, EM_FEATURES, EM_VERSION,
};
use rf_a::services::{Service, Services};
use rf_a::smccc::{FunctionId, SmcReturn};

fn regs_with(values: &[u64]) -> [u64; 18] {
    let mut regs = [0u64; 18];
    regs[..values.len()].copy_from_slice(values);
    regs
}

/// Tests the SMCCC arch version call as a simple example of SMC dispatch.
#[test]
fn handle_smc_arch_version() {
    let services = Services::new(DummyService, DummyService, DummyService, DummyService);
    let mut regs = [0u64; 18];

    let mut function = FunctionId(SMCCC_VERSION);

    // Set the SVE hint bit to test if the handler will can treat this correctly.
    function.set_sve_hint();
    regs[0] = function.0.into();

    let (result, new_world) = services.handle_smc(&regs, World::NonSecure);

    assert_eq!(new_world, World::NonSecure);
    assert_eq!(result.values(), [SMCCC_VERSION_1_5 as u64]);
}

#[test]
fn em_version_non_secure() {
    assert_eq!(
        ErrataManagement::new().handle_non_secure_smc(&regs_with(&[EM_VERSION.into()])),
        (SmcReturn::from_i32(0x0001_0000), World::NonSecure)
    );
}

#[test]
fn em_version_secure() {
    assert_eq!(
        ErrataManagement::new().handle_secure_smc(&regs_with(&[EM_VERSION.into()])),
        (SmcReturn::from_i32(0x0001_0000), World::Secure)
    );
}

#[test]
fn em_features() {
    assert_eq!(
        ErrataManagement::new()
            .handle_non_secure_smc(&regs_with(&[EM_FEATURES.into(), EM_VERSION.into()])),
        (SmcReturn::from_i32(0), World::NonSecure)
    );
    assert_eq!(
        ErrataManagement::new()
            .handle_non_secure_smc(&regs_with(&[EM_FEATURES.into(), EM_FEATURES.into()])),
        (SmcReturn::from_i32(0), World::NonSecure)
    );
    assert_eq!(
        ErrataManagement::new().handle_non_secure_smc(&regs_with(&[
            EM_FEATURES.into(),
            EM_CPU_ERRATUM_FEATURES.into()
        ])),
        (SmcReturn::from_i32(0), World::NonSecure)
    );
    assert_eq!(
        ErrataManagement::new()
            .handle_non_secure_smc(&regs_with(&[EM_FEATURES.into(), 0x8400_00F3])),
        (SmcReturn::from_i32(-1), World::NonSecure)
    );
}

/// Reserved parameters must be 0.
#[test]
fn em_cpu_erratum_features_extra_parameters() {
    assert_eq!(
        ErrataManagement::new().handle_non_secure_smc(&regs_with(&[
            EM_CPU_ERRATUM_FEATURES.into(),
            42,
            0,
            66, // Reserved, shouldn't be set
        ])),
        (SmcReturn::from_i32(-2), World::NonSecure)
    );
}

/// Calls from S-EL1 shouldn't pass a non-zero forward_flag.
#[test]
fn em_cpu_erratum_features_invalid_forward_flag() {
    assert_eq!(
        ErrataManagement::new()
            .handle_secure_smc(&regs_with(&[EM_CPU_ERRATUM_FEATURES.into(), 42, 1])),
        (SmcReturn::from_i32(-2), World::Secure)
    );
}

#[test]
fn em_cpu_erratum_features_unknown() {
    assert_eq!(
        ErrataManagement::new()
            .handle_non_secure_smc(&regs_with(&[EM_CPU_ERRATUM_FEATURES.into(), 42])),
        (SmcReturn::from_i32(-3), World::NonSecure)
    );
}

#[test]
fn em_forward_flag_from_normal_world_is_accepted() {
    assert_eq!(
        ErrataManagement::new()
            .handle_non_secure_smc(&regs_with(&[EM_CPU_ERRATUM_FEATURES.into(), 42, 1])),
        (SmcReturn::from_i32(-3), World::NonSecure)
    );
}

#[test]
fn em_unknown_function() {
    assert_eq!(
        ErrataManagement::new().handle_realm_smc(&regs_with(&[0x8400_00F5])),
        (SmcReturn::from_i32(-1), World::Realm)
    );
}

#[test]
fn arch_dispatch_features_and_soc_id() {
    let services = Services::new(DummyService, DummyService, DummyService, DummyService);
    let (r, w) = services.handle_smc(&regs_with(&[0x8000_0001, 0x8000_8000]), World::Secure);
    assert_eq!(w, World::Secure);
    assert_eq!(r.values(), [1]);
    let (r, _) = services.handle_smc(&regs_with(&[0x8000_0001, 0x8000_0123]), World::Secure);
    assert_eq!(r.values(), [(-1i64) as u64]);
    let (r, _) = services.handle_smc(&regs_with(&[0xc000_0002, 2]), World::NonSecure);
    let v = r.values();
    assert_eq!(v.len(), 5);
    let mut name = Vec::new();
    for w in &v[1..] {
        name.extend_from_slice(&w.to_be_bytes());
    }
    assert_eq!(&name[..], b"TODO: Implement this properly.\0\0");
    let (r, _) = services.handle_smc(&regs_with(&[0x8000_0002, 2]), World::NonSecure);
    assert_eq!(r.values(), [(-3i64) as u64]);
    let (r, _) = services.handle_smc(&regs_with(&[0x8000_8000]), World::NonSecure);
    assert_eq!(r.values(), Vec::<u64>::new());
}

#[test]
fn dispatch_rejects_malformed_and_unowned() {
    let services = Services::new(DummyService, DummyService, DummyService, DummyService);
    // Bits [23:17] of a fast call must be zero.
    let (r, w) = services.handle_smc(&regs_with(&[0x8002_0000]), World::Realm);
    assert_eq!((r.values(), w), (vec![(-1i64) as u64], World::Realm));
    // A standard secure call which no service here owns.
    let (r, w) = services.handle_smc(&regs_with(&[0x8400_0000]), World::NonSecure);
    assert_eq!((r.values(), w), (vec![(-1i64) as u64], World::NonSecure));
}
