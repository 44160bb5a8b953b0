use rf_a::context::World;
use rf_a::platform::test::TestPlatform;
use rf_a::services::ffa::spmd::{SpmcState, Spmd, OWN_ID, SPMC_ID, SPMC_PRIMARY_EP};
use rf_a::services::ffa::{decode_call, FfaKind, FfaParseError, FfaVersion};
use rf_a::smccc::FunctionId;

const V1_2: FfaVersion = FfaVersion { major: 1, minor: 2 };

fn regs_with(values: &[u64]) -> [u64; 18] {
    let mut regs = [0u64; 18];
    regs[..values.len()].copy_from_slice(values);
    regs
}

/// An SPMD whose SPMC runs on core 0.
fn running_spmd() -> Spmd {
    let mut spmd = Spmd::new::<TestPlatform>(0);
    let (out, world) = spmd.handle_secure_smc(0, &regs_with(&[0x8400_006B]));
    assert!(out.is_empty());
    assert_eq!(world, World::NonSecure);
    assert_eq!(spmd.spmc_state(0), SpmcState::Runtime);
    spmd
}

#[test]
fn spmd_new_boots_on_primary_core() {
    let spmd = Spmd::new::<TestPlatform>(2);
    assert_eq!(spmd.spmc_state(2), SpmcState::Boot);
    assert_eq!(spmd.spmc_state(0), SpmcState::Off);
    assert_eq!(spmd.spmc_state(12), SpmcState::Off);
    assert_eq!(spmd.primary_ep(), SPMC_PRIMARY_EP);
    assert_eq!(spmd.secondary_ep(), SPMC_PRIMARY_EP);
}

#[test]
fn spmd_owns_ffa_range() {
    let spmd = Spmd::new::<TestPlatform>(0);
    assert!(spmd.owns(FunctionId(0x8400_0063)));
    assert!(spmd.owns(FunctionId(0xC400_006F)));
    assert!(!spmd.owns(FunctionId(0x8400_0000)));
    assert!(!spmd.owns(FunctionId(0x8400_00F0)));
}

#[test]
fn spmd_secure_ids() {
    assert!(Spmd::is_secure_id(0x8000));
    assert!(Spmd::is_secure_id(OWN_ID));
    assert!(!Spmd::is_secure_id(0x7fff));
}

#[test]
fn spmd_decode_direct_request() {
    let regs = regs_with(&[0x8400_006F, 0x0001_8001, 0, 5, 6]);
    let call = decode_call(V1_2, &regs).unwrap();
    assert_eq!(call.kind, FfaKind::MsgSendDirectReq);
    assert_eq!(call.fields.endpoints, Some((0x0001, 0x8001)));
    assert_eq!(call.fields.sender, None);
}

#[test]
fn spmd_decode_errors() {
    // Unknown function identifier: NOT_SUPPORTED.
    let call = decode_call(V1_2, &regs_with(&[0x8400_00EE]));
    assert_eq!(call.err(), Some(FfaParseError::Code(-1)));
    // FFA_VERSION with bit 31 of the version set.
    let call = decode_call(V1_2, &regs_with(&[0x8400_0063, 0x8000_0000]));
    assert_eq!(call.err(), Some(FfaParseError::InvalidVersion));
}

#[test]
fn spmd_boot_version() {
    let mut spmd = Spmd::new::<TestPlatform>(0);
    let (out, world) = spmd.handle_secure_smc(0, &regs_with(&[0x8400_0063, 0x0001_0003]));
    assert_eq!(world, World::Secure);
    assert_eq!(out.values(), regs_with(&[0x0001_0002]).to_vec());
    let (out, _) = spmd.handle_secure_smc(0, &regs_with(&[0x8400_0063, 0x0001_0001]));
    assert_eq!(out.values(), regs_with(&[0x0001_0001]).to_vec());
    assert_eq!(spmd.spmc_state(0), SpmcState::Boot);
}

#[test]
fn spmd_boot_secondary_ep() {
    let mut spmd = Spmd::new::<TestPlatform>(0);
    let (out, world) = spmd.handle_secure_smc(0, &regs_with(&[0xC400_0087, 0x1234_5678_9000]));
    assert_eq!(world, World::Secure);
    assert_eq!(out.values(), regs_with(&[0x8400_0061]).to_vec());
    assert_eq!(spmd.secondary_ep(), 0x1234_5678_9000);
}

#[test]
fn spmd_boot_denies_other_calls() {
    let mut spmd = Spmd::new::<TestPlatform>(0);
    let (out, world) = spmd.handle_secure_smc(0, &regs_with(&[0x8400_006D]));
    assert_eq!(world, World::Secure);
    assert_eq!(out.values(), regs_with(&[0x8400_0060, 0, 0xFFFF_FFFA]).to_vec());
}

#[test]
fn spmd_boot_common_calls() {
    let mut spmd = Spmd::new::<TestPlatform>(0);
    let (out, _) = spmd.handle_secure_smc(0, &regs_with(&[0x8400_0069]));
    assert_eq!(out.values(), regs_with(&[0x8400_0061, 0, SPMC_ID as u64]).to_vec());
    let (out, _) = spmd.handle_secure_smc(0, &regs_with(&[0x8400_0085]));
    assert_eq!(out.values(), regs_with(&[0x8400_0061, 0, OWN_ID as u64]).to_vec());
}

#[test]
fn spmd_boot_error_fails() {
    let mut spmd = Spmd::new::<TestPlatform>(0);
    assert!(spmd.try_handle_secure_smc(0, &regs_with(&[0x8400_0060, 0, 0xFFFF_FFFF])).is_none());
    assert!(spmd.try_handle_secure_smc(1, &regs_with(&[0x8400_006B])).is_none());
}

#[test]
fn spmd_forwards_version_to_spmc() {
    let spmd = running_spmd();
    let (out, world) = spmd.handle_non_secure_smc(0, &regs_with(&[0x8400_0063, 0x0001_0001]));
    assert_eq!(world, World::Secure);
    assert_eq!(
        out.values(),
        regs_with(&[0x8400_006F, 0xFFFF_8000, 0x8000_0008, 0x0001_0001, 0]).to_vec()
    );
}

#[test]
fn spmd_non_secure_invalid_version() {
    let spmd = running_spmd();
    let (out, world) = spmd.handle_non_secure_smc(0, &regs_with(&[0x8400_0063, 0x8000_0000]));
    assert_eq!(world, World::NonSecure);
    assert_eq!(out.values(), regs_with(&[0xFFFF_FFFF]).to_vec());
}

#[test]
fn spmd_non_secure_unknown_call() {
    let spmd = running_spmd();
    let (out, world) = spmd.handle_non_secure_smc(0, &regs_with(&[0x8400_00EE]));
    assert_eq!(world, World::NonSecure);
    assert_eq!(out.values(), regs_with(&[0x8400_0060, 0, 0xFFFF_FFFF]).to_vec());
}

#[test]
fn spmd_non_secure_id_get() {
    let spmd = running_spmd();
    let (out, world) = spmd.handle_non_secure_smc(0, &regs_with(&[0x8400_0069]));
    assert_eq!(world, World::NonSecure);
    assert_eq!(out.values(), regs_with(&[0x8400_0061, 0, 0]).to_vec());
    let (out, _) = spmd.handle_non_secure_smc(0, &regs_with(&[0x8400_0085]));
    assert_eq!(out.values(), regs_with(&[0x8400_0061, 0, SPMC_ID as u64]).to_vec());
}

#[test]
fn spmd_non_secure_direct_request() {
    let spmd = running_spmd();
    // From a normal world endpoint to a secure one: forwarded unchanged.
    let regs = regs_with(&[0x8400_006F, 0x0001_8001, 0, 5, 6, 7, 8, 9, 10]);
    let (out, world) = spmd.handle_non_secure_smc(0, &regs);
    assert_eq!(world, World::Secure);
    assert_eq!(out.values(), regs.to_vec());
    // From a secure endpoint: rejected.
    let (out, world) = spmd.handle_non_secure_smc(0, &regs_with(&[0x8400_006F, 0x8002_8001]));
    assert_eq!(world, World::NonSecure);
    assert_eq!(out.values(), regs_with(&[0x8400_0060, 0, 0xFFFF_FFFE]).to_vec());
    // Not running on core 1.
    assert!(spmd.try_handle_non_secure_smc(1, &regs).is_none());
}

#[test]
fn spmd_runtime_version_response() {
    let mut spmd = running_spmd();
    let regs = regs_with(&[0x8400_0070, 0x8000_FFFF, 0x8000_0009, 0x0001_0002]);
    let (out, world) = spmd.handle_secure_smc(0, &regs);
    assert_eq!(world, World::NonSecure);
    assert_eq!(out.values(), regs_with(&[0x0001_0002]).to_vec());
    // NOT_SUPPORTED from the SPMC.
    let regs = regs_with(&[0x8400_0070, 0x8000_FFFF, 0x8000_0009, 0xFFFF_FFFF]);
    let (out, _) = spmd.handle_secure_smc(0, &regs);
    assert_eq!(out.values(), regs_with(&[0xFFFF_FFFF]).to_vec());
}

#[test]
fn spmd_runtime_response_forwarded() {
    let mut spmd = running_spmd();
    let regs = regs_with(&[0x8400_0070, 0x8001_0001, 0, 1, 2, 3, 4, 5]);
    let (out, world) = spmd.handle_secure_smc(0, &regs);
    assert_eq!(world, World::NonSecure);
    assert_eq!(out.values(), regs.to_vec());
    // From a normal world endpoint: rejected.
    let (out, world) = spmd.handle_secure_smc(0, &regs_with(&[0x8400_0070, 0x0001_0001]));
    assert_eq!(world, World::Secure);
    assert_eq!(out.values(), regs_with(&[0x8400_0060, 0, 0xFFFF_FFFE]).to_vec());
}

#[test]
fn spmd_secure_interrupt_round_trip() {
    let mut spmd = running_spmd();
    let (out, world) = spmd.forward_secure_interrupt(0, &[0u64; 18]);
    assert_eq!(world, World::Secure);
    assert_eq!(out.values(), regs_with(&[0x8400_0062]).to_vec());
    assert_eq!(spmd.spmc_state(0), SpmcState::SecureInterrupt);
    // Anything but FFA_NORMAL_WORLD_RESUME is denied.
    let (out, world) = spmd.handle_secure_smc(0, &regs_with(&[0x8400_006B]));
    assert_eq!(world, World::Secure);
    assert_eq!(out.values(), regs_with(&[0x8400_0060, 0, 0xFFFF_FFFA]).to_vec());
    let (out, world) = spmd.handle_secure_smc(0, &regs_with(&[0x8400_007C]));
    assert!(out.is_empty());
    assert_eq!(world, World::NonSecure);
    assert_eq!(spmd.spmc_state(0), SpmcState::Runtime);
}

#[test]
fn spmd_psci_event_round_trip() {
    let mut spmd = running_spmd();
    let out = spmd.handle_wake_from_cpu_suspend(0);
    assert_eq!(out.values(), regs_with(&[0x8400_006F, 0xFFFF_8000, 0x8000_0001]).to_vec());
    assert_eq!(spmd.spmc_state(0), SpmcState::PsciEventHandling);
    let response = regs_with(&[0x8400_0070, 0x8000_FFFF, 0x8000_0002, 0]);
    assert_eq!(spmd.psci_response(&response), Some(0));
    let (out, world) = spmd.handle_secure_smc(0, &response);
    assert!(out.is_empty());
    assert_eq!(world, World::NonSecure);
    assert_eq!(spmd.spmc_state(0), SpmcState::Runtime);
}

#[test]
fn spmd_psci_request_and_response() {
    let spmd = running_spmd();
    let out = spmd.psci_request(&[0x8400_0002, 1, 2, 3]);
    assert_eq!(
        out.values(),
        regs_with(&[0xC400_006F, 0xFFFF_8000, 0x8000_0000, 0x8400_0002, 1, 2, 3]).to_vec()
    );
    let denied = regs_with(&[0x8400_0070, 0x8000_FFFF, 0x8000_0002, 0xFFFF_FFFD]);
    assert_eq!(spmd.psci_response(&denied), Some(0xFFFF_FFFF_FFFF_FFFD));
    let other = regs_with(&[0x8400_0070, 0x8001_FFFF, 0x8000_0002, 0]);
    assert_eq!(spmd.psci_response(&other), None);
}

#[test]
fn spmd_cpu_off_and_on() {
    let mut spmd = running_spmd();
    spmd.notify_cpu_off(0);
    assert_eq!(spmd.spmc_state(0), SpmcState::Off);
    spmd.handle_wake_from_cpu_off(0);
    assert_eq!(spmd.spmc_state(0), SpmcState::Boot);
}
